//! Lower-body locomotion states, classified from measured horizontal speed.

use vstd::prelude::*;

verus! {

/// Horizontal speed, in millimetres per second, below which a character
/// counts as standing still.
pub const IDLE_THRESHOLD: u32 = 500;

/// Horizontal speed, in millimetres per second, from which an upright
/// character counts as running.
pub const WALK_THRESHOLD: u32 = 4000;

/// Lower-body movement states (the locomotion layer).
#[derive(Debug, Clone, Copy, PartialEq, Eq, Structural)]
pub enum MovementState {
    Idle,
    Walking,
    Running,
    CrouchIdle,
    CrouchWalking,
}

impl Default for MovementState {
    fn default() -> (state: Self)
        ensures
            state == MovementState::Idle,
    {
        MovementState::Idle
    }
}

impl MovementState {
    /// The locomotion state of a character moving at `speed` millimetres per
    /// second. Crouching selects the crouched pair of states, which has no
    /// running variant: a crouched character walks however fast it moves.
    pub open spec fn spec_from_speed(speed: u32, crouching: bool) -> MovementState {
        if crouching {
            if speed < IDLE_THRESHOLD {
                MovementState::CrouchIdle
            } else {
                MovementState::CrouchWalking
            }
        } else if speed < IDLE_THRESHOLD {
            MovementState::Idle
        } else if speed < WALK_THRESHOLD {
            MovementState::Walking
        } else {
            MovementState::Running
        }
    }

    /// Classifies a measured horizontal speed, in millimetres per second.
    #[verifier::when_used_as_spec(spec_from_speed)]
    pub fn from_speed(speed: u32, crouching: bool) -> (state: MovementState)
        ensures
            state == Self::spec_from_speed(speed, crouching),
            speed < IDLE_THRESHOLD ==> state == (if crouching {
                MovementState::CrouchIdle
            } else {
                MovementState::Idle
            }),
            speed >= WALK_THRESHOLD ==> state == (if crouching {
                MovementState::CrouchWalking
            } else {
                MovementState::Running
            }),
            state.is_crouched() == crouching,
    {
        if crouching {
            if speed < IDLE_THRESHOLD {
                MovementState::CrouchIdle
            } else {
                MovementState::CrouchWalking
            }
        } else if speed < IDLE_THRESHOLD {
            MovementState::Idle
        } else if speed < WALK_THRESHOLD {
            MovementState::Walking
        } else {
            MovementState::Running
        }
    }

    /// Whether this is one of the two crouched states.
    pub open spec fn is_crouched(&self) -> bool {
        *self == MovementState::CrouchIdle || *self == MovementState::CrouchWalking
    }
}

} // verus!
