//! One tick's worth of input, as plain values.

use vstd::prelude::*;
use crate::weapon::WeaponType;

verus! {

/// Everything the resolver consumes in one simulation tick. Held keys are
/// levels; select, reload and fire are edges, true only on the tick the
/// button went down.
#[derive(Debug, Clone, Copy, PartialEq, Eq)]
pub struct TickInput {
    /// Milliseconds elapsed since the previous tick.
    pub delta: u32,
    /// Movement keys, held. Locomotion is classified from measured speed,
    /// so these never decide a state.
    pub forward: bool,
    pub back: bool,
    pub left: bool,
    pub right: bool,
    /// Crouch key, held.
    pub crouch: bool,
    /// Weapon-select keys one to four, edge-triggered.
    pub select_rifle: bool,
    pub select_pistol: bool,
    pub select_sniper: bool,
    pub select_knife: bool,
    /// Reload key, edge-triggered.
    pub reload: bool,
    /// Primary fire button, edge-triggered.
    pub fire: bool,
    /// Horizontal speed of the character's physics body in millimetres per
    /// second, or `None` when the body could not be found.
    pub speed: Option<u32>,
}

impl Default for TickInput {
    /// A tick of no duration with nothing pressed and no physics body.
    fn default() -> (input: Self)
        ensures
            input == (TickInput {
                delta: 0,
                forward: false,
                back: false,
                left: false,
                right: false,
                crouch: false,
                select_rifle: false,
                select_pistol: false,
                select_sniper: false,
                select_knife: false,
                reload: false,
                fire: false,
                speed: None,
            }),
    {
        TickInput {
            delta: 0,
            forward: false,
            back: false,
            left: false,
            right: false,
            crouch: false,
            select_rifle: false,
            select_pistol: false,
            select_sniper: false,
            select_knife: false,
            reload: false,
            fire: false,
            speed: None,
        }
    }
}

impl TickInput {
    /// The weapon asked for this tick, if any select key went down. When
    /// several went down together the lowest-numbered key wins.
    pub open spec fn spec_selected_weapon(&self) -> Option<WeaponType> {
        if self.select_rifle {
            Some(WeaponType::Rifle)
        } else if self.select_pistol {
            Some(WeaponType::Pistol)
        } else if self.select_sniper {
            Some(WeaponType::Sniper)
        } else if self.select_knife {
            Some(WeaponType::Knife)
        } else {
            None
        }
    }

    /// The weapon asked for this tick, if any select key went down.
    #[verifier::when_used_as_spec(spec_selected_weapon)]
    pub fn selected_weapon(&self) -> (choice: Option<WeaponType>)
        ensures
            choice == self.spec_selected_weapon(),
    {
        if self.select_rifle {
            Some(WeaponType::Rifle)
        } else if self.select_pistol {
            Some(WeaponType::Pistol)
        } else if self.select_sniper {
            Some(WeaponType::Sniper)
        } else if self.select_knife {
            Some(WeaponType::Knife)
        } else {
            None
        }
    }
}

} // verus!
