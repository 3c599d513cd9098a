//! The hit-zone damage model: one table of body zones, shared by every
//! character whatever its skin.

use vstd::prelude::*;

verus! {

/// A displacement or size in whole millimetres.
#[derive(Debug, Clone, Copy, PartialEq, Eq, Structural, Hash)]
pub struct MilliVec3 {
    pub x: i32,
    pub y: i32,
    pub z: i32,
}

/// The body zones a hit can land in.
#[derive(Debug, Clone, Copy, PartialEq, Eq, Structural, Hash)]
pub enum HitboxZoneType {
    Head,
    Torso,
    Legs,
}

/// One body zone: an axis-aligned box and the damage multiplier of hits
/// that land in it.
#[derive(Debug, Clone, Copy, PartialEq, Eq, Structural)]
pub struct HitboxZone {
    /// Centre of the box relative to the model root.
    pub offset: MilliVec3,
    /// Half the size of the box along each axis.
    pub half_extents: MilliVec3,
    /// Damage multiplier in percent.
    pub damage_multiplier: u32,
}

/// The zones of a character.
#[derive(Debug, Clone, Copy, PartialEq, Eq, Structural)]
pub struct HitboxConfig {
    /// High-damage zone.
    pub head: HitboxZone,
    /// Normal-damage zone.
    pub torso: HitboxZone,
    /// Reduced-damage zone.
    pub legs: HitboxZone,
}

impl HitboxZone {
    /// A zone centred at `offset` with the given half size and multiplier.
    pub fn new(offset: MilliVec3, half_extents: MilliVec3, damage_multiplier: u32) -> (zone: Self)
        ensures
            zone == (HitboxZone { offset, half_extents, damage_multiplier }),
    {
        HitboxZone { offset, half_extents, damage_multiplier }
    }
}

impl HitboxConfig {
    /// The zone of the given type.
    pub open spec fn spec_zone(&self, zone_type: HitboxZoneType) -> HitboxZone {
        match zone_type {
            HitboxZoneType::Head => self.head,
            HitboxZoneType::Torso => self.torso,
            HitboxZoneType::Legs => self.legs,
        }
    }
}

/// The hitbox of every character: a small head box on top that earns a
/// headshot bonus, a larger torso box at standard damage, and a leg box
/// at reduced damage.
pub open spec fn spec_standard_hitbox() -> HitboxConfig {
    HitboxConfig {
        head: HitboxZone {
            offset: MilliVec3 { x: 0, y: 1600, z: 0 },
            half_extents: MilliVec3 { x: 150, y: 150, z: 150 },
            damage_multiplier: 250,
        },
        torso: HitboxZone {
            offset: MilliVec3 { x: 0, y: 1100, z: 0 },
            half_extents: MilliVec3 { x: 250, y: 350, z: 150 },
            damage_multiplier: 100,
        },
        legs: HitboxZone {
            offset: MilliVec3 { x: 0, y: 450, z: 0 },
            half_extents: MilliVec3 { x: 200, y: 450, z: 120 },
            damage_multiplier: 75,
        },
    }
}

/// The hitbox of every character. Skins are cosmetic: none has zones or
/// multipliers of its own.
pub fn standard_hitbox() -> (hitbox: &'static HitboxConfig)
    ensures
        *hitbox == spec_standard_hitbox(),
{
    &HitboxConfig {
        head: HitboxZone {
            offset: MilliVec3 { x: 0, y: 1600, z: 0 },
            half_extents: MilliVec3 { x: 150, y: 150, z: 150 },
            damage_multiplier: 250,
        },
        torso: HitboxZone {
            offset: MilliVec3 { x: 0, y: 1100, z: 0 },
            half_extents: MilliVec3 { x: 250, y: 350, z: 150 },
            damage_multiplier: 100,
        },
        legs: HitboxZone {
            offset: MilliVec3 { x: 0, y: 450, z: 0 },
            half_extents: MilliVec3 { x: 200, y: 450, z: 120 },
            damage_multiplier: 75,
        },
    }
}

impl HitboxZoneType {
    /// The three zones, from the top down.
    pub open spec fn spec_all() -> Seq<HitboxZoneType> {
        seq![HitboxZoneType::Head, HitboxZoneType::Torso, HitboxZoneType::Legs]
    }

    /// The damage multiplier of this zone, in percent: a lookup in the
    /// standard hitbox.
    pub open spec fn spec_damage_multiplier(&self) -> u32 {
        spec_standard_hitbox().spec_zone(*self).damage_multiplier
    }

    /// The damage multiplier of this zone, in percent, looked up in the
    /// standard hitbox.
    #[verifier::when_used_as_spec(spec_damage_multiplier)]
    pub fn damage_multiplier(&self) -> (percent: u32)
        ensures
            percent == self.spec_damage_multiplier(),
    {
        self.zone().damage_multiplier
    }

    /// A hit to the head counts two and a half times, one to the torso
    /// once, one to the legs three quarters.
    pub proof fn damage_table(zone_type: HitboxZoneType)
        ensures
            zone_type.spec_damage_multiplier() == match zone_type {
                HitboxZoneType::Head => 250u32,
                HitboxZoneType::Torso => 100u32,
                HitboxZoneType::Legs => 75u32,
            },
    {
    }

    /// The zone of this type in the standard hitbox.
    pub fn zone(&self) -> (zone: &'static HitboxZone)
        ensures
            *zone == spec_standard_hitbox().spec_zone(*self),
    {
        let hitbox = standard_hitbox();
        match self {
            HitboxZoneType::Head => &hitbox.head,
            HitboxZoneType::Torso => &hitbox.torso,
            HitboxZoneType::Legs => &hitbox.legs,
        }
    }
}

} // verus!
