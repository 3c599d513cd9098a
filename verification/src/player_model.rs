//! The visible character model and the hitbox markers that hang on it.

use vstd::prelude::*;
use crate::hitbox::{spec_standard_hitbox, HitboxZone, HitboxZoneType, MilliVec3};

verus! {

/// Height of the physics collider cylinder, in millimetres.
pub const COLLIDER_HEIGHT: i32 = 3000;

/// How far below the centre of the physics body the model root sits, in
/// millimetres, so that the model's feet touch the ground.
pub const MODEL_DROP: i32 = 1500;

/// The model root sits half the collider's height below its centre.
pub proof fn model_drop_is_half_the_collider()
    ensures
        2 * MODEL_DROP == COLLIDER_HEIGHT,
{
}

/// Height, in millimetres, at or below which a player has fallen out of the
/// world.
pub const FALL_LIMIT: i32 = -50_000;

/// Where a player enters the world, and returns to after a fall.
pub open spec fn spec_spawn_point() -> MilliVec3 {
    MilliVec3 { x: 0, y: 1625, z: 0 }
}

/// Where a player enters the world, and returns to after a fall.
#[verifier::when_used_as_spec(spec_spawn_point)]
pub fn spawn_point() -> (point: MilliVec3)
    ensures
        point == spec_spawn_point(),
{
    MilliVec3 { x: 0, y: 1625, z: 0 }
}

/// Where a player standing at `height` millimetres is put back to: the
/// spawn point if the player has fallen to the fall limit or below, and
/// nowhere otherwise.
pub open spec fn spec_respawn(height: i32) -> Option<MilliVec3> {
    if height <= FALL_LIMIT {
        Some(spec_spawn_point())
    } else {
        None
    }
}

/// Decides whether a player at `height` millimetres has fallen out of the
/// world, and if so where to put them back, at rest.
#[verifier::when_used_as_spec(spec_respawn)]
pub fn respawn(height: i32) -> (destination: Option<MilliVec3>)
    ensures
        destination == spec_respawn(height),
{
    if height > FALL_LIMIT {
        None
    } else {
        Some(spawn_point())
    }
}

/// The visible character model that follows a physics body. The two are
/// separate so that the local player's body can run without showing a
/// model, and a remote player's model can show without a local body.
#[derive(Debug, Clone, Copy, PartialEq, Eq)]
pub struct PlayerModel {
    /// Identifier of the physics body the model follows.
    pub logical_entity: u64,
    pub is_local_player: bool,
}

impl PlayerModel {
    /// Whether the model is hidden: the local player's own model is, from
    /// their first-person camera; every other model is shown.
    pub open spec fn spec_is_hidden(&self) -> bool {
        self.is_local_player
    }

    /// Whether the model is hidden from the local camera.
    #[verifier::when_used_as_spec(spec_is_hidden)]
    pub fn is_hidden(&self) -> (hidden: bool)
        ensures
            hidden == self.spec_is_hidden(),
    {
        self.is_local_player
    }
}

/// Marks a hitbox collider attached to a player model: which zone it
/// covers and which player it belongs to.
#[derive(Debug, Clone, Copy, PartialEq, Eq)]
pub struct HitboxZoneMarker {
    pub zone_type: HitboxZoneType,
    /// Identifier of the player's physics body.
    pub player_entity: u64,
}

impl HitboxZoneMarker {
    /// The damage multiplier of the marked zone, in percent.
    pub fn damage_multiplier(&self) -> (percent: u32)
        ensures
            percent == self.zone_type.spec_damage_multiplier(),
    {
        self.zone_type.damage_multiplier()
    }
}

/// The hitbox colliders of the player `player_entity`: head, torso and
/// legs, each with its marker and its box from the standard hitbox.
pub open spec fn spec_hitbox_colliders(player_entity: u64) -> Seq<(HitboxZoneMarker, HitboxZone)> {
    HitboxZoneType::spec_all().map_values(
        |zone_type: HitboxZoneType|
            (
                HitboxZoneMarker { zone_type, player_entity },
                spec_standard_hitbox().spec_zone(zone_type),
            ),
    )
}

/// Lists the sensor colliders to attach to a player model, one per zone.
/// Every player gets the same three boxes.
pub fn hitbox_colliders(player_entity: u64) -> (colliders: Vec<(HitboxZoneMarker, HitboxZone)>)
    ensures
        colliders@ == spec_hitbox_colliders(player_entity),
{
    let colliders = vec![
        (
            HitboxZoneMarker { zone_type: HitboxZoneType::Head, player_entity },
            *HitboxZoneType::Head.zone(),
        ),
        (
            HitboxZoneMarker { zone_type: HitboxZoneType::Torso, player_entity },
            *HitboxZoneType::Torso.zone(),
        ),
        (
            HitboxZoneMarker { zone_type: HitboxZoneType::Legs, player_entity },
            *HitboxZoneType::Legs.zone(),
        ),
    ];
    assert(colliders@ =~= spec_hitbox_colliders(player_entity));
    colliders
}

/// No player has a hitbox of its own: the colliders of any two players
/// cover the same zones with the same boxes and differ only in the player
/// they are marked with.
pub proof fn colliders_are_the_same_for_every_player(one: u64, other: u64, i: int)
    requires
        0 <= i < 3,
    ensures
        spec_hitbox_colliders(one).len() == 3,
        spec_hitbox_colliders(other).len() == 3,
        spec_hitbox_colliders(one)[i].0.zone_type == spec_hitbox_colliders(other)[i].0.zone_type,
        spec_hitbox_colliders(one)[i].1 == spec_hitbox_colliders(other)[i].1,
        spec_hitbox_colliders(one)[i].1 == spec_standard_hitbox().spec_zone(
            spec_hitbox_colliders(one)[i].0.zone_type,
        ),
        spec_hitbox_colliders(one)[i].0.player_entity == one,
{
}

} // verus!
