//! What the playback layer is asked to do: which node to cross-fade to, for
//! how long, and whether to loop it.

use vstd::prelude::*;
use crate::controller::PlayerAnimationController;
use crate::input::TickInput;
use crate::nodes::{AnimationNode, SharedAnimations};
use crate::upper_body::UpperBodyAction;

verus! {

/// Cross-fade time between two clips, in milliseconds.
pub const BLEND_DURATION: u32 = 200;

/// A request to the playback layer: cross-fade the animation player
/// `player` to `node` over `blend` milliseconds, looping the clip if
/// `repeat` is set and playing it once otherwise.
#[derive(Debug, Clone, Copy, PartialEq, Eq)]
pub struct AnimationTransition {
    pub player: u64,
    pub node: AnimationNode,
    pub blend: u32,
    pub repeat: bool,
}

/// Whether a transition is due after a tick: the locomotion state, the
/// action or the weapon changed on it, or a shot started on it. The last
/// covers a shot fired again while the upper body was still firing, which
/// no change of state shows.
pub open spec fn transition_is_due(
    controller: &PlayerAnimationController,
    shot_started: bool,
) -> bool {
    ||| controller.spec_movement_changed()
    ||| controller.spec_upper_body_changed()
    ||| shot_started && controller.upper_action == UpperBodyAction::Firing
}

/// The request a controller gives rise to after a tick on which a shot did
/// or did not start.
///
/// Nothing is asked while the shared animations are not loaded or no
/// animation player is linked, and nothing on a tick on which no transition
/// is due: a clip that is playing is left to play. Where a transition is
/// due the upper body has priority: while firing or reloading the weapon's
/// clip for that action is requested, played once; while the upper body is
/// idle the locomotion clip is requested, looping.
pub open spec fn spec_update_player_animations(
    shared_animations: Option<&SharedAnimations>,
    controller: &PlayerAnimationController,
    shot_started: bool,
) -> Option<AnimationTransition> {
    match (shared_animations, controller.animation_player_entity) {
        (Some(animations), Some(player)) => if transition_is_due(controller, shot_started) {
            Some(
                match controller.upper_action {
                    UpperBodyAction::Firing | UpperBodyAction::Reloading => AnimationTransition {
                        player,
                        node: controller.spec_upper_body_node(animations),
                        blend: BLEND_DURATION,
                        repeat: false,
                    },
                    UpperBodyAction::Idle => AnimationTransition {
                        player,
                        node: controller.movement.spec_node_index(animations),
                        blend: BLEND_DURATION,
                        repeat: true,
                    },
                },
            )
        } else {
            None
        },
        _ => None,
    }
}

/// Decides what the playback layer is asked after a tick, if anything.
/// `shot_started` is what the resolver returned for that tick.
#[verifier::when_used_as_spec(spec_update_player_animations)]
pub fn update_player_animations(
    shared_animations: Option<&SharedAnimations>,
    controller: &PlayerAnimationController,
    shot_started: bool,
) -> (request: Option<AnimationTransition>)
    ensures
        request == spec_update_player_animations(shared_animations, controller, shot_started),
{
    let Some(animations) = shared_animations else {
        return None;
    };
    let Some(player) = controller.animation_player_entity else {
        return None;
    };
    let restarted = shot_started && controller.upper_action == UpperBodyAction::Firing;
    if !(controller.movement_changed() || controller.upper_body_changed() || restarted) {
        return None;
    }
    let (node, repeat) = match controller.upper_action {
        UpperBodyAction::Firing => (controller.upper_body_node(animations), false),
        UpperBodyAction::Reloading => (controller.upper_body_node(animations), false),
        UpperBodyAction::Idle => (controller.movement.node_index(animations), true),
    };
    Some(AnimationTransition { player, node, blend: BLEND_DURATION, repeat })
}

/// A transition is asked exactly on the ticks on which one is due. On a
/// tick on which nothing changed and no shot started nothing is asked, so
/// that a reload or a shot in progress plays on undisturbed.
pub proof fn transitions_are_asked_only_when_due(
    animations: &SharedAnimations,
    controller: &PlayerAnimationController,
    shot_started: bool,
    player: u64,
)
    requires
        controller.animation_player_entity == Some(player),
    ensures
        spec_update_player_animations(Some(animations), controller, shot_started) is Some
            <==> transition_is_due(controller, shot_started),
        !controller.spec_movement_changed() && !controller.spec_upper_body_changed()
            && !shot_started ==> spec_update_player_animations(
            Some(animations),
            controller,
            shot_started,
        ) is None,
{
}

/// The upper body has priority. A request made while a one-shot action is
/// in progress is for that action's clip, played once, whatever the legs
/// do; the locomotion clip, looping, is requested only while the upper body
/// is idle.
pub proof fn one_shot_actions_take_priority(
    animations: &SharedAnimations,
    controller: &PlayerAnimationController,
    shot_started: bool,
    player: u64,
)
    requires
        controller.animation_player_entity == Some(player),
        transition_is_due(controller, shot_started),
    ensures
        ({
            let request = spec_update_player_animations(
                Some(animations),
                controller,
                shot_started,
            );
            &&& controller.upper_action != UpperBodyAction::Idle ==> request == Some(
                AnimationTransition {
                    player,
                    node: controller.spec_upper_body_node(animations),
                    blend: BLEND_DURATION,
                    repeat: false,
                },
            )
            &&& controller.upper_action == UpperBodyAction::Idle ==> request == Some(
                AnimationTransition {
                    player,
                    node: controller.movement.spec_node_index(animations),
                    blend: BLEND_DURATION,
                    repeat: true,
                },
            )
        }),
{
}

/// Nothing is ever asked of a player that is not there: without loaded
/// animations or without a linked animation player there is no request,
/// and every request names the linked player.
pub proof fn requests_need_a_linked_player(
    shared_animations: Option<&SharedAnimations>,
    controller: &PlayerAnimationController,
    shot_started: bool,
)
    ensures
        ({
            let request = spec_update_player_animations(
                shared_animations,
                controller,
                shot_started,
            );
            &&& shared_animations is None || controller.animation_player_entity is None
                ==> request is None
            &&& request matches Some(transition) ==> controller.animation_player_entity == Some(
                transition.player,
            )
        }),
{
}

/// A shot that starts has its clip requested, played once, also when the
/// upper body was already firing: a shot fired again restarts its clip.
pub proof fn shot_fired_again_restarts_its_clip(
    animations: &SharedAnimations,
    controller: PlayerAnimationController,
    input: TickInput,
    player: u64,
)
    requires
        controller.animation_player_entity == Some(player),
        controller.fire_starts(input),
    ensures
        ({
            let after = controller.after_tick(input);
            &&& after.upper_action == UpperBodyAction::Firing
            &&& spec_update_player_animations(Some(animations), &after, true) == Some(
                AnimationTransition {
                    player,
                    node: animations.upper_body.spec_for_weapon(
                        controller.weapon_after(input),
                    ).fire,
                    blend: BLEND_DURATION,
                    repeat: false,
                },
            )
        }),
{
}

/// An action that merely continues is left to play: on a tick that starts
/// no shot and leaves the locomotion state, the action and the weapon as
/// they were, nothing is asked.
pub proof fn continuing_action_is_left_to_play(
    shared_animations: Option<&SharedAnimations>,
    controller: PlayerAnimationController,
    input: TickInput,
)
    requires
        !controller.fire_starts(input),
        controller.after_tick(input).movement == controller.movement,
        controller.after_tick(input).upper_action == controller.upper_action,
        controller.after_tick(input).weapon == controller.weapon,
    ensures
        spec_update_player_animations(
            shared_animations,
            &controller.after_tick(input),
            controller.fire_starts(input),
        ) is None,
{
}

/// Finds the player model a newly spawned animation player belongs to.
/// `ancestors` lists the entity's ancestors from its parent up to the root;
/// the result is the nearest one that is among `player_models`, or `None`
/// if no ancestor is a player model.
pub fn nearest_player_model(ancestors: &Vec<u64>, player_models: &Vec<u64>) -> (found: Option<u64>)
    ensures
        match found {
            Some(model) => exists|i: int|
                0 <= i < ancestors.len() && #[trigger] ancestors[i] == model
                    && player_models@.contains(model) && forall|j: int|
                    0 <= j < i ==> !player_models@.contains(#[trigger] ancestors[j]),
            None => forall|i: int|
                0 <= i < ancestors.len() ==> !player_models@.contains(#[trigger] ancestors[i]),
        },
{
    let mut i: usize = 0;
    while i < ancestors.len()
        invariant
            i <= ancestors.len(),
            forall|j: int| 0 <= j < i ==> !player_models@.contains(#[trigger] ancestors[j]),
        decreases ancestors.len() - i,
    {
        let candidate: u64 = ancestors[i];
        let mut k: usize = 0;
        while k < player_models.len()
            invariant
                k <= player_models.len(),
                i < ancestors.len(),
                candidate == ancestors[i as int],
                forall|j: int| 0 <= j < i ==> !player_models@.contains(#[trigger] ancestors[j]),
                forall|m: int| 0 <= m < k ==> player_models[m] != candidate,
            decreases player_models.len() - k,
        {
            if player_models[k] == candidate {
                assert(player_models@[k as int] == candidate);
                return Some(candidate);
            }
            k += 1;
        }
        i += 1;
    }
    None
}

/// The controller once the animation player `player` is linked to it.
pub open spec fn linked(
    controller: PlayerAnimationController,
    player: u64,
) -> PlayerAnimationController {
    PlayerAnimationController { animation_player_entity: Some(player), ..controller }
}

/// Links a newly spawned animation player to its character's controller and
/// asks for the first clip: locomotion idle, looping. From here on the
/// controller's requests go to `player`.
pub fn setup_animation_player(
    animations: &SharedAnimations,
    controller: &mut PlayerAnimationController,
    player: u64,
) -> (first: AnimationTransition)
    ensures
        *final(controller) == linked(*old(controller), player),
        old(controller).well_formed() ==> final(controller).well_formed(),
        first == (AnimationTransition {
            player,
            node: animations.lower_body.idle,
            blend: BLEND_DURATION,
            repeat: true,
        }),
{
    controller.animation_player_entity = Some(player);
    AnimationTransition { player, node: animations.lower_body.idle, blend: BLEND_DURATION, repeat: true }
}

} // verus!
