//! Theorems about the resolver, stated over the tick function
//! [`PlayerAnimationController::after_tick`] and over runs of ticks.

use vstd::prelude::*;
use crate::controller::PlayerAnimationController;
use crate::input::TickInput;
use crate::locomotion::{MovementState, IDLE_THRESHOLD, WALK_THRESHOLD};
use crate::upper_body::{spec_count_down, UpperBodyAction};
use crate::weapon::WeaponType;

verus! {

/// Whether the action in progress, if any, sees its countdown run out on
/// this tick.
pub open spec fn action_runs_out(controller: PlayerAnimationController, input: TickInput) -> bool {
    match controller.upper_action {
        UpperBodyAction::Idle => false,
        UpperBodyAction::Reloading => controller.reload_timer <= input.delta,
        UpperBodyAction::Firing => controller.fire_timer <= input.delta,
    }
}

/// Every tick leaves the controller well formed, whatever it was before.
pub proof fn tick_establishes_well_formed(controller: PlayerAnimationController, input: TickInput)
    ensures
        controller.after_tick(input).well_formed(),
{
}

/// Every tick records the state it found as the previous state, so the two
/// change flags compare the tick's outcome with what came before it.
pub proof fn change_flags_compare_with_previous_tick(
    controller: PlayerAnimationController,
    input: TickInput,
)
    ensures
        ({
            let after = controller.after_tick(input);
            &&& after.spec_movement_changed() <==> after.movement != controller.movement
            &&& after.spec_upper_body_changed() <==> (after.upper_action
                != controller.upper_action || after.weapon != controller.weapon)
        }),
{
}

/// Below the idle threshold a character is idle, or crouch-idle while the
/// crouch key is held, whatever else is pressed and whatever state the
/// controller was in.
pub proof fn slow_is_idle(controller: PlayerAnimationController, input: TickInput, speed: u32)
    requires
        input.speed == Some(speed),
        speed < IDLE_THRESHOLD,
    ensures
        input.crouch ==> controller.after_tick(input).movement == MovementState::CrouchIdle,
        !input.crouch ==> controller.after_tick(input).movement == MovementState::Idle,
{
}

/// At or above the walk threshold an upright character runs. A crouched one
/// walks: crouching caps locomotion at the walking variant however high the
/// speed.
pub proof fn fast_is_running_unless_crouched(
    controller: PlayerAnimationController,
    input: TickInput,
    speed: u32,
)
    requires
        input.speed == Some(speed),
        speed >= WALK_THRESHOLD,
    ensures
        input.crouch ==> controller.after_tick(input).movement == MovementState::CrouchWalking,
        !input.crouch ==> controller.after_tick(input).movement == MovementState::Running,
{
}

/// Locomotion is decided by the measured speed and the crouch key alone:
/// two ticks that agree on those agree on the locomotion state, whatever
/// the controllers and the rest of the input.
pub proof fn locomotion_follows_speed_and_crouch(
    first: PlayerAnimationController,
    second: PlayerAnimationController,
    x: TickInput,
    y: TickInput,
)
    requires
        x.speed == y.speed,
        x.crouch == y.crouch,
    ensures
        first.after_tick(x).movement == second.after_tick(y).movement,
{
}

/// The movement keys decide nothing: two inputs that differ in them alone
/// lead to the same controller.
pub proof fn movement_keys_decide_nothing(
    controller: PlayerAnimationController,
    x: TickInput,
    y: TickInput,
)
    requires
        y == (TickInput { forward: y.forward, back: y.back, left: y.left, right: y.right, ..x }),
    ensures
        controller.after_tick(x) == controller.after_tick(y),
{
}

/// A weapon switch takes effect at once and cancels nothing. A reload in
/// progress keeps its countdown, and so does a fire cooldown that has not
/// run out; if no new action starts on the tick of the switch, the action
/// in progress goes on for as long as its countdown runs.
pub proof fn weapon_switch_spares_action_in_progress(
    controller: PlayerAnimationController,
    switch: TickInput,
    weapon: WeaponType,
)
    requires
        switch.spec_selected_weapon() == Some(weapon),
    ensures
        ({
            let after = controller.after_tick(switch);
            &&& after.weapon == weapon
            &&& controller.upper_action == UpperBodyAction::Reloading ==> after.reload_timer
                == spec_count_down(controller.reload_timer, switch.delta)
            &&& controller.fire_timer > switch.delta ==> after.fire_timer == controller.fire_timer
                - switch.delta
            &&& !controller.fire_starts(switch) && !controller.reload_starts(switch)
                && !action_runs_out(controller, switch) ==> after.upper_action
                == controller.upper_action
        }),
{
}

/// After a switch to `weapon`, the next shot and the next reload take their
/// durations from `weapon`, on the tick of the switch itself or on any
/// later tick up to the next switch.
pub proof fn next_action_uses_switched_weapon(
    controller: PlayerAnimationController,
    switch: TickInput,
    next: TickInput,
    weapon: WeaponType,
)
    requires
        switch.spec_selected_weapon() == Some(weapon),
        next.spec_selected_weapon() is None,
    ensures
        ({
            let mid = controller.after_tick(switch);
            let end = mid.after_tick(next);
            &&& controller.fire_starts(switch) ==> mid.fire_timer == weapon.spec_fire_cooldown()
            &&& controller.reload_starts(switch) ==> mid.reload_timer
                == weapon.spec_reload_duration()
            &&& mid.fire_starts(next) ==> end.fire_timer == weapon.spec_fire_cooldown()
                && end.upper_action == UpperBodyAction::Firing
            &&& mid.reload_starts(next) ==> end.reload_timer == weapon.spec_reload_duration()
            &&& mid.reload_starts(next) && !mid.fire_starts(next) ==> end.upper_action
                == UpperBodyAction::Reloading
        }),
{
}

/// With the knife in hand a reload press is inert: the tick ends exactly as
/// it would have without the press, and the upper body is reloading after
/// it only if a reload begun with another weapon is still running. The
/// action is left as it was unless something other than the press acts on
/// it: a shot that starts, or a countdown that runs out.
pub proof fn knife_never_reloads(controller: PlayerAnimationController, input: TickInput)
    requires
        controller.weapon_after(input) == WeaponType::Knife,
    ensures
        ({
            let after = controller.after_tick(input);
            let unpressed = TickInput { reload: false, ..input };
            &&& !controller.reload_starts(input)
            &&& after == controller.after_tick(unpressed)
            &&& after.upper_action == UpperBodyAction::Reloading ==> controller.upper_action
                == UpperBodyAction::Reloading && controller.reload_timer > input.delta
            &&& after.upper_action == controller.upper_action <==> (if controller.fire_starts(
                input,
            ) {
                controller.upper_action == UpperBodyAction::Firing
            } else {
                !action_runs_out(controller, input)
            })
        }),
{
}

/// Pressing reload with the knife in hand leaves the upper-body action as
/// it was, on every tick on which nothing else acts on it: no shot starts
/// that would change it, and the countdown of the action in progress does
/// not run out.
pub proof fn knife_reload_press_leaves_action_unchanged(
    controller: PlayerAnimationController,
    input: TickInput,
)
    requires
        controller.weapon_after(input) == WeaponType::Knife,
        input.reload,
        controller.fire_starts(input) ==> controller.upper_action == UpperBodyAction::Firing,
        !controller.fire_starts(input) ==> !action_runs_out(controller, input),
    ensures
        controller.after_tick(input).upper_action == controller.upper_action,
{
}

/// A fire press that lands once the cooldown has run out starts the shot
/// and sets the cooldown to the weapon's value. This holds just the same
/// when the upper body was already firing: the cooldown is set afresh, not
/// added to.
pub proof fn fire_sets_cooldown_afresh(controller: PlayerAnimationController, input: TickInput)
    requires
        input.fire,
        controller.fire_timer <= input.delta,
    ensures
        ({
            let after = controller.after_tick(input);
            &&& after.upper_action == UpperBodyAction::Firing
            &&& after.fire_timer == controller.weapon_after(input).spec_fire_cooldown()
        }),
{
}

/// A fire press while the cooldown still runs is ignored: the tick ends
/// exactly as it would have without the press, the cooldown shorter by the
/// elapsed time.
pub proof fn fire_waits_for_cooldown(controller: PlayerAnimationController, input: TickInput)
    requires
        input.fire,
        controller.fire_timer > input.delta,
    ensures
        ({
            let after = controller.after_tick(input);
            let unpressed = TickInput { fire: false, ..input };
            &&& after == controller.after_tick(unpressed)
            &&& after.fire_timer == controller.fire_timer - input.delta
        }),
{
}

/// Total time, in milliseconds, covered by a run of ticks.
pub open spec fn elapsed(inputs: Seq<TickInput>) -> int
    decreases inputs.len(),
{
    if inputs.len() == 0 {
        0
    } else {
        elapsed(inputs.drop_last()) + inputs.last().delta
    }
}

/// Whether no tick of the run carries a reload or a fire press.
pub open spec fn no_presses(inputs: Seq<TickInput>) -> bool {
    forall|i: int| 0 <= i < inputs.len() ==> !(#[trigger] inputs[i]).reload && !inputs[i].fire
}

/// What is left of a countdown of `timer` milliseconds after `time` more.
pub open spec fn left_after(timer: u32, time: int) -> int {
    if timer > time {
        timer - time
    } else {
        0
    }
}

/// The upper-body action at the end of a run of ticks without presses
/// that covers `time` milliseconds: the action the run began with for as
/// long as its countdown lasts, idle after that.
pub open spec fn action_left_after(
    controller: PlayerAnimationController,
    time: int,
) -> UpperBodyAction {
    match controller.upper_action {
        UpperBodyAction::Idle => UpperBodyAction::Idle,
        UpperBodyAction::Reloading => if controller.reload_timer > time {
            UpperBodyAction::Reloading
        } else {
            UpperBodyAction::Idle
        },
        UpperBodyAction::Firing => if controller.fire_timer > time {
            UpperBodyAction::Firing
        } else {
            UpperBodyAction::Idle
        },
    }
}

/// Over a run of ticks without reload or fire presses both countdowns
/// simply run down, and an action in progress lasts exactly as long as its
/// countdown: once the run has covered the time that was left, the upper
/// body is idle again. Weapon switches during the run change none of this.
pub proof fn unpressed_run_counts_down(
    controller: PlayerAnimationController,
    inputs: Seq<TickInput>,
)
    requires
        no_presses(inputs),
    ensures
        ({
            let after = controller.after_ticks(inputs);
            &&& elapsed(inputs) >= 0
            &&& after.reload_timer == left_after(controller.reload_timer, elapsed(inputs))
            &&& after.fire_timer == left_after(controller.fire_timer, elapsed(inputs))
            &&& inputs.len() > 0 ==> after.upper_action == action_left_after(
                controller,
                elapsed(inputs),
            )
        }),
    decreases inputs.len(),
{
    if inputs.len() > 0 {
        let earlier = inputs.drop_last();
        assert(no_presses(earlier)) by {
            assert forall|i: int| 0 <= i < earlier.len() implies !(#[trigger] earlier[i]).reload
                && !earlier[i].fire by {
                assert(earlier[i] == inputs[i]);
            }
        }
        unpressed_run_counts_down(controller, earlier);
        assert(!inputs.last().reload && !inputs.last().fire) by {
            assert(inputs.last() == inputs[inputs.len() - 1]);
        }
    }
}

/// Number of shots started over a run of ticks.
pub open spec fn shots_started(controller: PlayerAnimationController, inputs: Seq<TickInput>) -> int
    decreases inputs.len(),
{
    if inputs.len() == 0 {
        0
    } else {
        let before = controller.after_ticks(inputs.drop_last());
        shots_started(controller, inputs.drop_last()) + if before.fire_starts(inputs.last()) {
            1int
        } else {
            0int
        }
    }
}

/// Sum of the cooldowns of the shots started over a run of ticks, each
/// being the cooldown of the weapon held when that shot started.
pub open spec fn cooldown_started(
    controller: PlayerAnimationController,
    inputs: Seq<TickInput>,
) -> int
    decreases inputs.len(),
{
    if inputs.len() == 0 {
        0
    } else {
        let before = controller.after_ticks(inputs.drop_last());
        cooldown_started(controller, inputs.drop_last()) + if before.fire_starts(inputs.last()) {
            before.weapon_after(inputs.last()).spec_fire_cooldown() as int
        } else {
            0int
        }
    }
}

/// The fire countdown gates the rate of fire. Over any run of ticks,
/// whatever is pressed and however the weapon is switched, the cooldowns
/// of all the shots started add up to no more than the time the run
/// covers plus what is left of the last cooldown. Every cooldown being at
/// least a tenth of a second and none longer than a second and a half, no
/// more than one shot starts per tenth of a second covered, plus fifteen.
pub proof fn cooldown_gates_rate_of_fire(
    controller: PlayerAnimationController,
    inputs: Seq<TickInput>,
)
    ensures
        ({
            let after = controller.after_ticks(inputs);
            let shots = shots_started(controller, inputs);
            let cooldowns = cooldown_started(controller, inputs);
            &&& cooldowns <= elapsed(inputs) + after.fire_timer
            &&& 0 <= 100 * shots <= cooldowns
            &&& shots > 0 ==> after.fire_timer <= 1500
            &&& shots > 0 ==> 100 * shots <= elapsed(inputs) + 1500
        }),
    decreases inputs.len(),
{
    if inputs.len() > 0 {
        cooldown_gates_rate_of_fire(controller, inputs.drop_last());
    }
}

} // verus!
