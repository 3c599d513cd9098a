//! Hit resolution: what a shot does once the ray cast has answered.

use vstd::prelude::*;
use crate::hitbox::HitboxZoneType;

verus! {

/// The first thing a ray cast from the camera ran into.
#[derive(Debug, Clone, Copy, PartialEq, Eq)]
pub struct RayHit {
    /// Identifier of the entity that was hit.
    pub entity: u64,
    /// Whether that entity carries the target marker.
    pub is_target: bool,
    /// The body zone that was hit, where the entity is a hitbox collider.
    pub zone: Option<HitboxZoneType>,
}

/// What follows from a shot.
#[derive(Debug, Clone, Copy, PartialEq, Eq)]
pub struct ShotOutcome {
    /// The target to eliminate, if the shot hit one.
    pub eliminated: Option<u64>,
    /// Whether a tracer is drawn from the muzzle to the point of impact.
    pub tracer: bool,
    /// Damage multiplier of the zone that was hit, in percent. It is
    /// reported for scoring and drives no health.
    pub multiplier: Option<u32>,
}

/// The outcome of a tick in which the fire button went down (`fire`) and
/// the ray cast returned `hit`. Without a press, or when the ray hit
/// nothing, nothing happens. A hit draws a tracer whatever was hit,
/// eliminates the entity hit if it is a target, and reports the multiplier
/// of the zone hit.
pub open spec fn spec_update_player(fire: bool, hit: Option<RayHit>) -> ShotOutcome {
    match hit {
        Some(hit) if fire => ShotOutcome {
            eliminated: if hit.is_target {
                Some(hit.entity)
            } else {
                None
            },
            tracer: true,
            multiplier: match hit.zone {
                Some(zone) => Some(zone.spec_damage_multiplier()),
                None => None,
            },
        },
        _ => ShotOutcome { eliminated: None, tracer: false, multiplier: None },
    }
}

/// Resolves a shot against the answer of the ray cast.
#[verifier::when_used_as_spec(spec_update_player)]
pub fn update_player(fire: bool, hit: Option<RayHit>) -> (outcome: ShotOutcome)
    ensures
        outcome == spec_update_player(fire, hit),
{
    if !fire {
        return ShotOutcome { eliminated: None, tracer: false, multiplier: None };
    }
    match hit {
        Some(hit) => {
            let eliminated = if hit.is_target {
                Some(hit.entity)
            } else {
                None
            };
            let multiplier = match hit.zone {
                Some(zone) => Some(zone.damage_multiplier()),
                None => None,
            };
            ShotOutcome { eliminated, tracer: true, multiplier }
        },
        None => ShotOutcome { eliminated: None, tracer: false, multiplier: None },
    }
}

} // verus!
