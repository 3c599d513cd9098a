//! The per-character animation controller and its once-per-tick resolver.

use vstd::prelude::*;
use crate::input::TickInput;
use crate::locomotion::MovementState;
use crate::upper_body::{count_down, spec_count_down, UpperBodyAction};
use crate::weapon::WeaponType;

verus! {

/// Per-character animation state: the current and previous value of the
/// locomotion state, the weapon and the upper-body action, the two
/// countdowns that gate reloading and firing, and the entity that plays the
/// blended animation once it is linked.
#[derive(Debug, Clone, Copy, PartialEq, Eq)]
pub struct PlayerAnimationController {
    pub movement: MovementState,
    pub prev_movement: MovementState,
    pub is_crouching: bool,
    pub weapon: WeaponType,
    pub prev_weapon: WeaponType,
    pub upper_action: UpperBodyAction,
    pub prev_upper_action: UpperBodyAction,
    /// Milliseconds until the reload in progress completes.
    pub reload_timer: u32,
    /// Milliseconds until the weapon may fire again.
    pub fire_timer: u32,
    /// Identifier of the entity that plays the animation, set once the
    /// character's scene has loaded.
    pub animation_player_entity: Option<u64>,
}

impl Default for PlayerAnimationController {
    /// A character standing idle with a rifle, no action in progress and no
    /// animation player linked.
    fn default() -> (controller: Self)
        ensures
            controller == (PlayerAnimationController {
                movement: MovementState::Idle,
                prev_movement: MovementState::Idle,
                is_crouching: false,
                weapon: WeaponType::Rifle,
                prev_weapon: WeaponType::Rifle,
                upper_action: UpperBodyAction::Idle,
                prev_upper_action: UpperBodyAction::Idle,
                reload_timer: 0,
                fire_timer: 0,
                animation_player_entity: None,
            }),
            controller.well_formed(),
    {
        PlayerAnimationController {
            movement: MovementState::Idle,
            prev_movement: MovementState::Idle,
            is_crouching: false,
            weapon: WeaponType::Rifle,
            prev_weapon: WeaponType::Rifle,
            upper_action: UpperBodyAction::Idle,
            prev_upper_action: UpperBodyAction::Idle,
            reload_timer: 0,
            fire_timer: 0,
            animation_player_entity: None,
        }
    }
}

impl PlayerAnimationController {
    /// A one-shot action is in progress only while its countdown runs.
    pub open spec fn well_formed(&self) -> bool {
        &&& self.upper_action == UpperBodyAction::Reloading ==> self.reload_timer > 0
        &&& self.upper_action == UpperBodyAction::Firing ==> self.fire_timer > 0
    }

    /// The weapon held once this tick's select keys are applied. Selection
    /// is immediate and has no cooldown.
    pub open spec fn weapon_after(&self, input: TickInput) -> WeaponType {
        match input.spec_selected_weapon() {
            Some(weapon) => weapon,
            None => self.weapon,
        }
    }

    /// Whether this tick's reload press begins a reload: no reload is
    /// already in progress and the weapon held is not the knife.
    pub open spec fn reload_starts(&self, input: TickInput) -> bool {
        &&& input.reload
        &&& self.upper_action != UpperBodyAction::Reloading
        &&& self.weapon_after(input) != WeaponType::Knife
    }

    /// Whether this tick's fire press begins a shot: the fire countdown has
    /// run out by the end of this tick.
    pub open spec fn fire_starts(&self, input: TickInput) -> bool {
        input.fire && self.fire_timer <= input.delta
    }

    /// The reload countdown after the tick.
    pub open spec fn reload_timer_after(&self, input: TickInput) -> u32 {
        if self.reload_starts(input) {
            self.weapon_after(input).spec_reload_duration()
        } else {
            spec_count_down(self.reload_timer, input.delta)
        }
    }

    /// The fire countdown after the tick.
    pub open spec fn fire_timer_after(&self, input: TickInput) -> u32 {
        if self.fire_starts(input) {
            self.weapon_after(input).spec_fire_cooldown()
        } else {
            spec_count_down(self.fire_timer, input.delta)
        }
    }

    /// The upper-body action after the tick. A shot that starts wins over a
    /// reload that starts on the same tick; an action whose countdown has
    /// run out gives way to idle.
    pub open spec fn upper_action_after(&self, input: TickInput) -> UpperBodyAction {
        let requested = if self.fire_starts(input) {
            UpperBodyAction::Firing
        } else if self.reload_starts(input) {
            UpperBodyAction::Reloading
        } else {
            self.upper_action
        };
        if requested == UpperBodyAction::Reloading && self.reload_timer_after(input) == 0 {
            UpperBodyAction::Idle
        } else if requested == UpperBodyAction::Firing && self.fire_timer_after(input) == 0 {
            UpperBodyAction::Idle
        } else {
            requested
        }
    }

    /// The locomotion state after the tick: the measured speed classified
    /// under this tick's crouch key, or idle when no speed was measured.
    pub open spec fn movement_after(&self, input: TickInput) -> MovementState {
        match input.speed {
            Some(speed) => MovementState::spec_from_speed(speed, input.crouch),
            None => MovementState::Idle,
        }
    }

    /// The controller after one tick of `input`.
    pub open spec fn after_tick(&self, input: TickInput) -> PlayerAnimationController {
        PlayerAnimationController {
            movement: self.movement_after(input),
            prev_movement: self.movement,
            is_crouching: input.crouch,
            weapon: self.weapon_after(input),
            prev_weapon: self.weapon,
            upper_action: self.upper_action_after(input),
            prev_upper_action: self.upper_action,
            reload_timer: self.reload_timer_after(input),
            fire_timer: self.fire_timer_after(input),
            animation_player_entity: self.animation_player_entity,
        }
    }

    /// The controller after a run of ticks, oldest first.
    pub open spec fn after_ticks(&self, inputs: Seq<TickInput>) -> PlayerAnimationController
        decreases inputs.len(),
    {
        if inputs.len() == 0 {
            *self
        } else {
            self.after_ticks(inputs.drop_last()).after_tick(inputs.last())
        }
    }

    /// Whether the locomotion state changed on the last tick.
    pub open spec fn spec_movement_changed(&self) -> bool {
        self.movement != self.prev_movement
    }

    /// Whether the upper body changed on the last tick, by action or by
    /// weapon.
    pub open spec fn spec_upper_body_changed(&self) -> bool {
        self.upper_action != self.prev_upper_action || self.weapon != self.prev_weapon
    }

    /// Whether the locomotion state changed on the last tick.
    #[verifier::when_used_as_spec(spec_movement_changed)]
    pub fn movement_changed(&self) -> (changed: bool)
        ensures
            changed == self.spec_movement_changed(),
    {
        self.movement != self.prev_movement
    }

    /// Whether the upper body changed on the last tick, by action or by
    /// weapon.
    #[verifier::when_used_as_spec(spec_upper_body_changed)]
    pub fn upper_body_changed(&self) -> (changed: bool)
        ensures
            changed == self.spec_upper_body_changed(),
    {
        self.upper_action != self.prev_upper_action || self.weapon != self.prev_weapon
    }
}

/// Resolves one tick: records the previous state, applies crouch and weapon
/// selection, advances both countdowns, starts a reload or a shot where the
/// input asks for one and the gates allow it, retires an action whose
/// countdown ran out, and classifies locomotion from the measured speed.
///
/// Returns whether a shot started on this tick. The change flags cannot
/// tell: a shot fired again on the tick its cooldown runs out leaves the
/// upper body firing as before.
pub fn detect_animation_state(
    controller: &mut PlayerAnimationController,
    input: &TickInput,
) -> (shot_started: bool)
    ensures
        *final(controller) == old(controller).after_tick(*input),
        final(controller).well_formed(),
        shot_started == old(controller).fire_starts(*input),
        shot_started ==> final(controller).upper_action == UpperBodyAction::Firing,
{
    controller.prev_movement = controller.movement;
    controller.prev_upper_action = controller.upper_action;
    controller.prev_weapon = controller.weapon;

    controller.is_crouching = input.crouch;

    if let Some(weapon) = input.selected_weapon() {
        controller.weapon = weapon;
    }

    controller.reload_timer = count_down(controller.reload_timer, input.delta);
    controller.fire_timer = count_down(controller.fire_timer, input.delta);

    if input.reload && controller.upper_action != UpperBodyAction::Reloading
        && controller.weapon != WeaponType::Knife {
        controller.upper_action = UpperBodyAction::Reloading;
        controller.reload_timer = controller.weapon.reload_duration();
    }

    let shot_started = input.fire && controller.fire_timer == 0;
    if shot_started {
        controller.upper_action = UpperBodyAction::Firing;
        controller.fire_timer = controller.weapon.fire_cooldown();
    }

    if controller.upper_action == UpperBodyAction::Reloading && controller.reload_timer == 0 {
        controller.upper_action = UpperBodyAction::Idle;
    }
    if controller.upper_action == UpperBodyAction::Firing && controller.fire_timer == 0 {
        controller.upper_action = UpperBodyAction::Idle;
    }

    controller.movement = match input.speed {
        Some(speed) => MovementState::from_speed(speed, controller.is_crouching),
        None => MovementState::Idle,
    };
    shot_started
}

} // verus!
