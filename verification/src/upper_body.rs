//! Upper-body weapon actions and the countdowns that gate them.

use vstd::prelude::*;

verus! {

/// Upper-body action states (the weapon layer). Reloading and firing are
/// one-shot actions, each held open by its own countdown.
#[derive(Debug, Clone, Copy, PartialEq, Eq, Structural)]
pub enum UpperBodyAction {
    Idle,
    Reloading,
    Firing,
}

impl Default for UpperBodyAction {
    fn default() -> (action: Self)
        ensures
            action == UpperBodyAction::Idle,
    {
        UpperBodyAction::Idle
    }
}

/// What is left of a countdown of `timer` milliseconds once `delta` more
/// have passed: the difference, floored at zero.
pub open spec fn spec_count_down(timer: u32, delta: u32) -> u32 {
    if timer > delta {
        (timer - delta) as u32
    } else {
        0
    }
}

/// Advances a countdown by `delta` milliseconds, stopping at zero.
#[verifier::when_used_as_spec(spec_count_down)]
pub fn count_down(timer: u32, delta: u32) -> (left: u32)
    ensures
        left == spec_count_down(timer, delta),
        left == 0 <==> timer <= delta,
{
    if timer > delta {
        timer - delta
    } else {
        0
    }
}

} // verus!
