//! Player skins. A skin is cosmetic: it names a model and a team side and
//! has no part in hit computation.

use vstd::prelude::*;
use crate::hitbox::{spec_standard_hitbox, standard_hitbox, HitboxConfig, HitboxZoneType};

verus! {

/// A colour in percent of full intensity per channel.
#[derive(Clone, Copy, PartialEq, Eq, Structural, Debug)]
pub struct Rgb {
    pub red: u8,
    pub green: u8,
    pub blue: u8,
}

/// Team side: which team may wear a skin.
#[derive(Clone, Copy, PartialEq, Eq, Structural, Debug)]
pub enum PlayerSide {
    Attacker,
    Defender,
    /// Wearable by either team.
    Any,
}

impl PlayerSide {
    /// Display name of the side.
    pub open spec fn spec_name(&self) -> Seq<char> {
        match self {
            PlayerSide::Attacker => "Attacker"@,
            PlayerSide::Defender => "Defender"@,
            PlayerSide::Any => "Any"@,
        }
    }

    /// Display name of the side.
    pub fn name(&self) -> (name: &'static str)
        ensures
            name@ == self.spec_name(),
    {
        match self {
            PlayerSide::Attacker => "Attacker",
            PlayerSide::Defender => "Defender",
            PlayerSide::Any => "Any",
        }
    }

    /// The colour the side is shown in: red for attackers, blue for
    /// defenders, grey for skins open to either.
    pub open spec fn spec_color(&self) -> Rgb {
        match self {
            PlayerSide::Attacker => Rgb { red: 90, green: 30, blue: 20 },
            PlayerSide::Defender => Rgb { red: 20, green: 50, blue: 90 },
            PlayerSide::Any => Rgb { red: 60, green: 60, blue: 60 },
        }
    }

    /// The colour the side is shown in.
    #[verifier::when_used_as_spec(spec_color)]
    pub fn color(&self) -> (color: Rgb)
        ensures
            color == self.spec_color(),
    {
        match self {
            PlayerSide::Attacker => Rgb { red: 90, green: 30, blue: 20 },
            PlayerSide::Defender => Rgb { red: 20, green: 50, blue: 90 },
            PlayerSide::Any => Rgb { red: 60, green: 60, blue: 60 },
        }
    }

    /// Whether a skin of side `skin_side` may be worn on this side: its own
    /// skins and those open to either team.
    pub open spec fn admits(&self, skin_side: PlayerSide) -> bool {
        skin_side == *self || skin_side == PlayerSide::Any
    }
}

/// Unique identifier of a skin.
#[derive(Clone, Copy, PartialEq, Eq, Structural, Debug, Hash)]
pub enum SkinId {
    Soldier,
    Police,
}

impl Default for SkinId {
    fn default() -> (id: Self)
        ensures
            id == SkinId::Soldier,
    {
        SkinId::Soldier
    }
}

impl SkinId {
    /// Every skin identifier.
    pub open spec fn spec_all() -> Seq<SkinId> {
        seq![SkinId::Soldier, SkinId::Police]
    }

    /// Every skin identifier.
    pub fn all() -> (ids: Vec<SkinId>)
        ensures
            ids@ == Self::spec_all(),
    {
        vec![SkinId::Soldier, SkinId::Police]
    }

    /// The hitbox of a character wearing this skin: the standard one.
    pub open spec fn spec_hitbox(&self) -> HitboxConfig {
        spec_standard_hitbox()
    }

    /// The hitbox of a character wearing this skin, which is the standard
    /// hitbox for every skin.
    pub fn hitbox(&self) -> (hitbox: &'static HitboxConfig)
        ensures
            *hitbox == self.spec_hitbox(),
            *hitbox == spec_standard_hitbox(),
    {
        standard_hitbox()
    }

    /// Fairness: any two skins have the same zones with the same geometry,
    /// and a hit in a given zone has the same damage multiplier on both,
    /// the one of the zone's type.
    pub proof fn hitbox_is_the_same_for_every_skin(
        one: SkinId,
        other: SkinId,
        zone_type: HitboxZoneType,
    )
        ensures
            one.spec_hitbox() == other.spec_hitbox(),
            one.spec_hitbox().spec_zone(zone_type).damage_multiplier
                == zone_type.spec_damage_multiplier(),
            other.spec_hitbox().spec_zone(zone_type).damage_multiplier
                == zone_type.spec_damage_multiplier(),
    {
    }
}

/// A skin: an identifier, a display name, the path of its model, and the
/// side that may wear it.
#[derive(Clone, Copy, PartialEq, Eq, Debug)]
pub struct SkinDefinition {
    pub id: SkinId,
    pub name: &'static str,
    pub model_path: &'static str,
    pub side: PlayerSide,
}

/// Registry of all available skins.
#[derive(PartialEq, Eq, Debug)]
pub struct SkinRegistry {
    pub skins: Vec<SkinDefinition>,
}

impl Default for SkinRegistry {
    /// The two stock skins: the attackers' soldier and the defenders'
    /// police officer.
    fn default() -> (registry: Self)
        ensures
            registry.skins@ == SkinRegistry::stock_skins(),
            registry.well_formed(),
    {
        let registry = SkinRegistry {
            skins: vec![
                SkinDefinition {
                    id: SkinId::Soldier,
                    name: "Soldier",
                    model_path: "models/skins/attacker_default_skin.glb#Scene0",
                    side: PlayerSide::Attacker,
                },
                SkinDefinition {
                    id: SkinId::Police,
                    name: "Police Defender",
                    model_path: "models/skins/defense_default_skin.glb#Scene0",
                    side: PlayerSide::Defender,
                },
            ],
        };
        registry
    }
}

impl SkinRegistry {
    /// The skins a registry starts with.
    pub open spec fn stock_skins() -> Seq<SkinDefinition> {
        seq![
            SkinDefinition {
                id: SkinId::Soldier,
                name: "Soldier",
                model_path: "models/skins/attacker_default_skin.glb#Scene0",
                side: PlayerSide::Attacker,
            },
            SkinDefinition {
                id: SkinId::Police,
                name: "Police Defender",
                model_path: "models/skins/defense_default_skin.glb#Scene0",
                side: PlayerSide::Defender,
            },
        ]
    }

    /// No two skins of the registry share an identifier.
    pub open spec fn well_formed(&self) -> bool {
        forall|i: int, j: int|
            0 <= i < j < self.skins.len() ==> (#[trigger] self.skins[i]).id != (
            #[trigger] self.skins[j]).id
    }

    /// The skin with identifier `id`: the first one, should several share
    /// it. `None` if the registry holds no such skin.
    pub fn get(&self, id: SkinId) -> (found: Option<&SkinDefinition>)
        ensures
            match found {
                Some(skin) => exists|i: int|
                    0 <= i < self.skins.len() && *skin == #[trigger] self.skins[i] && skin.id == id
                        && forall|j: int| 0 <= j < i ==> (#[trigger] self.skins[j]).id != id,
                None => forall|i: int|
                    0 <= i < self.skins.len() ==> (#[trigger] self.skins[i]).id != id,
            },
    {
        let mut i: usize = 0;
        while i < self.skins.len()
            invariant
                i <= self.skins.len(),
                forall|j: int| 0 <= j < i ==> (#[trigger] self.skins[j]).id != id,
            decreases self.skins.len() - i,
        {
            if self.skins[i].id == id {
                return Some(&self.skins[i]);
            }
            i += 1;
        }
        None
    }

    /// The skins wearable on `side`, in registry order: those of the side
    /// itself and those open to either team.
    pub open spec fn spec_get_for_side(&self, side: PlayerSide) -> Seq<SkinDefinition> {
        self.skins@.filter(|skin: SkinDefinition| side.admits(skin.side))
    }

    /// All skins for a specific side, including those open to either team,
    /// in registry order.
    pub fn get_for_side(&self, side: PlayerSide) -> (wearable: Vec<&SkinDefinition>)
        ensures
            wearable@.map_values(|skin: &SkinDefinition| *skin) == self.spec_get_for_side(side),
    {
        let ghost admitted = |skin: SkinDefinition| side.admits(skin.side);
        let ghost deref = |skin: &SkinDefinition| *skin;
        let mut wearable: Vec<&SkinDefinition> = Vec::new();
        let mut i: usize = 0;
        proof {
            assert(self.skins@.take(0) =~= Seq::<SkinDefinition>::empty());
            reveal(Seq::filter);
            assert(wearable@.map_values(deref) =~= self.skins@.take(0).filter(admitted));
        }
        while i < self.skins.len()
            invariant
                i <= self.skins.len(),
                admitted == |skin: SkinDefinition| side.admits(skin.side),
                deref == |skin: &SkinDefinition| *skin,
                wearable@.map_values(deref) == self.skins@.take(i as int).filter(admitted),
            decreases self.skins.len() - i,
        {
            let skin = &self.skins[i];
            proof {
                assert(self.skins@.take(i + 1) =~= self.skins@.take(i as int).push(*skin));
                self.skins@.take(i as int).lemma_filter_push(*skin, admitted);
            }
            if skin.side == side || skin.side == PlayerSide::Any {
                proof {
                    assert(wearable@.push(skin).map_values(deref) =~= wearable@.map_values(
                        deref,
                    ).push(*skin));
                }
                wearable.push(skin);
            }
            i += 1;
        }
        proof {
            assert(self.skins@.take(i as int) =~= self.skins@);
        }
        wearable
    }
}

} // verus!
