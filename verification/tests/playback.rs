use aim_trainer::controller::{detect_animation_state, PlayerAnimationController};
use aim_trainer::input::TickInput;
use aim_trainer::locomotion::MovementState;
use aim_trainer::nodes::{
    clip_node, load_shared_animations, next_clip, previous_clip, AnimationNode, SharedAnimations,
    KNIFE_ATTACK, KNIFE_IDLE, LOWER_CROUCH_IDLE, LOWER_CROUCH_WALK, LOWER_IDLE, LOWER_RUN,
    LOWER_WALK, PISTOL_FIRE, PISTOL_IDLE, PISTOL_RELOAD, RIFLE_FIRE, RIFLE_IDLE, RIFLE_RELOAD,
    SNIPER_FIRE, SNIPER_IDLE, SNIPER_RELOAD, TOTAL_ANIMATION_COUNT,
};
use aim_trainer::playback::{
    nearest_player_model, setup_animation_player, update_player_animations, AnimationTransition,
    BLEND_DURATION,
};
use aim_trainer::upper_body::UpperBodyAction;
use aim_trainer::weapon::WeaponType;

fn graph_nodes() -> Vec<AnimationNode> {
    (0..TOTAL_ANIMATION_COUNT).map(clip_node).collect()
}

fn shared() -> SharedAnimations {
    load_shared_animations(&graph_nodes())
}

fn node_of_clip(clip: usize) -> AnimationNode {
    AnimationNode { index: clip + 1 }
}

fn still(delta: u32) -> TickInput {
    TickInput { delta, speed: Some(0), ..TickInput::default() }
}

#[test]
fn clip_positions() {
    assert_eq!(
        [LOWER_IDLE, LOWER_WALK, LOWER_RUN, LOWER_CROUCH_IDLE, LOWER_CROUCH_WALK],
        [0, 1, 2, 3, 4]
    );
    assert_eq!([RIFLE_IDLE, RIFLE_RELOAD, RIFLE_FIRE], [5, 6, 7]);
    assert_eq!([PISTOL_IDLE, PISTOL_RELOAD, PISTOL_FIRE], [8, 9, 10]);
    assert_eq!([SNIPER_IDLE, SNIPER_RELOAD, SNIPER_FIRE], [11, 12, 13]);
    assert_eq!([KNIFE_IDLE, KNIFE_ATTACK], [14, 15]);
    assert_eq!(TOTAL_ANIMATION_COUNT, 16);
}

#[test]
fn clip_nodes_start_after_the_root() {
    assert_eq!(clip_node(0), AnimationNode { index: 1 });
    assert_eq!(clip_node(3), AnimationNode { index: 4 });
    assert_eq!(clip_node(15), AnimationNode { index: 16 });
}

#[test]
fn clip_stepping_wraps_around() {
    assert_eq!(next_clip(0), 1);
    assert_eq!(next_clip(14), 15);
    assert_eq!(next_clip(15), 0);
    assert_eq!(previous_clip(15), 14);
    assert_eq!(previous_clip(1), 0);
    assert_eq!(previous_clip(0), 15);
    for clip in 0..TOTAL_ANIMATION_COUNT {
        assert_eq!(previous_clip(next_clip(clip)), clip);
        assert_eq!(next_clip(previous_clip(clip)), clip);
    }
}

#[test]
fn shared_animations_name_every_clip() {
    let a = shared();
    assert_eq!(a.lower_body.idle, node_of_clip(0));
    assert_eq!(a.lower_body.walk, node_of_clip(1));
    assert_eq!(a.lower_body.run, node_of_clip(2));
    assert_eq!(a.lower_body.crouch_idle, node_of_clip(3));
    assert_eq!(a.lower_body.crouch_walk, node_of_clip(4));
    assert_eq!(a.upper_body.rifle.idle, node_of_clip(5));
    assert_eq!(a.upper_body.rifle.reload, node_of_clip(6));
    assert_eq!(a.upper_body.rifle.fire, node_of_clip(7));
    assert_eq!(a.upper_body.pistol.idle, node_of_clip(8));
    assert_eq!(a.upper_body.pistol.reload, node_of_clip(9));
    assert_eq!(a.upper_body.pistol.fire, node_of_clip(10));
    assert_eq!(a.upper_body.sniper.idle, node_of_clip(11));
    assert_eq!(a.upper_body.sniper.reload, node_of_clip(12));
    assert_eq!(a.upper_body.sniper.fire, node_of_clip(13));
    assert_eq!(a.upper_body.knife.idle, node_of_clip(14));
    assert_eq!(a.upper_body.knife.reload, node_of_clip(15));
    assert_eq!(a.upper_body.knife.fire, node_of_clip(15));
}

#[test]
fn shared_animations_ignore_surplus_nodes() {
    let mut nodes = graph_nodes();
    nodes.push(AnimationNode { index: 99 });
    assert_eq!(load_shared_animations(&nodes), shared());
}

#[test]
fn movement_state_nodes() {
    let a = shared();
    assert_eq!(MovementState::Idle.node_index(&a), a.lower_body.idle);
    assert_eq!(MovementState::Walking.node_index(&a), a.lower_body.walk);
    assert_eq!(MovementState::Running.node_index(&a), a.lower_body.run);
    assert_eq!(MovementState::CrouchIdle.node_index(&a), a.lower_body.crouch_idle);
    assert_eq!(MovementState::CrouchWalking.node_index(&a), a.lower_body.crouch_walk);
}

#[test]
fn weapon_nodes() {
    let a = shared();
    assert_eq!(*a.upper_body.for_weapon(WeaponType::Rifle), a.upper_body.rifle);
    assert_eq!(*a.upper_body.for_weapon(WeaponType::Pistol), a.upper_body.pistol);
    assert_eq!(*a.upper_body.for_weapon(WeaponType::Sniper), a.upper_body.sniper);
    assert_eq!(*a.upper_body.for_weapon(WeaponType::Knife), a.upper_body.knife);
}

#[test]
fn upper_body_node_follows_weapon_and_action() {
    let a = shared();
    let mut c = PlayerAnimationController::default();
    assert_eq!(c.upper_body_node(&a), node_of_clip(RIFLE_IDLE));
    c.upper_action = UpperBodyAction::Reloading;
    assert_eq!(c.upper_body_node(&a), node_of_clip(RIFLE_RELOAD));
    c.weapon = WeaponType::Sniper;
    c.upper_action = UpperBodyAction::Firing;
    assert_eq!(c.upper_body_node(&a), node_of_clip(SNIPER_FIRE));
    c.weapon = WeaponType::Pistol;
    c.upper_action = UpperBodyAction::Idle;
    assert_eq!(c.upper_body_node(&a), node_of_clip(PISTOL_IDLE));
    c.weapon = WeaponType::Knife;
    c.upper_action = UpperBodyAction::Firing;
    assert_eq!(c.upper_body_node(&a), node_of_clip(KNIFE_ATTACK));
    c.upper_action = UpperBodyAction::Reloading;
    assert_eq!(c.upper_body_node(&a), node_of_clip(KNIFE_ATTACK));
}

#[test]
fn blend_duration_is_a_fifth_of_a_second() {
    assert_eq!(BLEND_DURATION, 200);
    assert_eq!(BLEND_DURATION as f32 / 1000.0, 0.2);
}

fn linked_to(player: u64) -> PlayerAnimationController {
    PlayerAnimationController { animation_player_entity: Some(player), ..Default::default() }
}

fn once(player: u64, clip: usize) -> AnimationTransition {
    AnimationTransition { player, node: node_of_clip(clip), blend: 200, repeat: false }
}

fn looping(player: u64, clip: usize) -> AnimationTransition {
    AnimationTransition { player, node: node_of_clip(clip), blend: 200, repeat: true }
}

/// One tick of the resolver followed by the playback decision.
fn tick(c: &mut PlayerAnimationController, input: TickInput) -> Option<AnimationTransition> {
    let a = shared();
    let shot_started = detect_animation_state(c, &input);
    update_player_animations(Some(&a), c, shot_started)
}

#[test]
fn resolver_reports_a_shot_that_starts() {
    let mut c = PlayerAnimationController::default();
    assert!(detect_animation_state(&mut c, &TickInput { fire: true, ..still(16) }));
    assert_eq!(c.upper_action, UpperBodyAction::Firing);
    assert!(!detect_animation_state(&mut c, &TickInput { fire: true, ..still(16) }));
    assert!(!detect_animation_state(&mut c, &still(16)));
    assert!(!detect_animation_state(&mut c, &TickInput { reload: true, ..still(16) }));
    assert!(detect_animation_state(&mut c, &TickInput { fire: true, ..still(100) }));
}

#[test]
fn nothing_is_requested_without_an_animation_player() {
    let a = shared();
    let mut c = PlayerAnimationController::default();
    let shot_started = detect_animation_state(&mut c, &TickInput { fire: true, ..still(16) });
    assert!(shot_started);
    assert_eq!(c.upper_action, UpperBodyAction::Firing);
    assert!(c.upper_body_changed());
    assert_eq!(update_player_animations(Some(&a), &c, shot_started), None);
}

#[test]
fn nothing_is_requested_before_the_animations_are_loaded() {
    let mut c = linked_to(5);
    let shot_started = detect_animation_state(&mut c, &TickInput { fire: true, ..still(16) });
    assert!(shot_started);
    assert_eq!(update_player_animations(None, &c, shot_started), None);
}

#[test]
fn firing_requests_the_fire_clip_on_the_tick_the_shot_starts_only() {
    let mut c = linked_to(5);
    let running = TickInput { speed: Some(5000), ..still(16) };
    assert_eq!(tick(&mut c, running), Some(looping(5, LOWER_RUN)));
    assert_eq!(tick(&mut c, TickInput { fire: true, ..running }), Some(once(5, RIFLE_FIRE)));
    assert_eq!(c.upper_action, UpperBodyAction::Firing);
    assert_eq!(tick(&mut c, running), None);
    assert_eq!(c.upper_action, UpperBodyAction::Firing);
    assert!(!c.movement_changed() && !c.upper_body_changed());
    assert_eq!(tick(&mut c, running), None);
    assert_eq!(c.upper_action, UpperBodyAction::Firing);
}

#[test]
fn a_reload_in_progress_is_left_to_play() {
    let mut c = linked_to(5);
    assert_eq!(tick(&mut c, TickInput { reload: true, ..still(16) }), Some(once(5, RIFLE_RELOAD)));
    assert_eq!(tick(&mut c, still(1500)), None);
    assert_eq!(c.upper_action, UpperBodyAction::Reloading);
    assert_eq!(c.reload_timer, 1000);
    assert_eq!(tick(&mut c, still(16)), None);
    assert_eq!(tick(&mut c, TickInput { reload: true, ..still(16) }), None);
    assert_eq!(c.upper_action, UpperBodyAction::Reloading);
    assert_eq!(c.reload_timer, 968);
}

#[test]
fn a_shot_fired_again_restarts_its_clip() {
    let mut c = linked_to(5);
    assert_eq!(
        tick(&mut c, TickInput { select_pistol: true, fire: true, ..still(16) }),
        Some(once(5, PISTOL_FIRE))
    );
    assert_eq!(tick(&mut c, still(140)), None);
    assert_eq!(c.fire_timer, 10);
    let again = TickInput { fire: true, ..still(16) };
    let shot_started = detect_animation_state(&mut c, &again);
    assert!(shot_started);
    assert_eq!(c.upper_action, UpperBodyAction::Firing);
    assert_eq!(c.fire_timer, 150);
    assert!(!c.upper_body_changed() && !c.movement_changed());
    let a = shared();
    assert_eq!(update_player_animations(Some(&a), &c, shot_started), Some(once(5, PISTOL_FIRE)));
    assert_eq!(update_player_animations(Some(&a), &c, false), None);
}

#[test]
fn a_fire_press_during_cooldown_restarts_nothing() {
    let mut c = linked_to(5);
    assert_eq!(tick(&mut c, TickInput { fire: true, ..still(16) }), Some(once(5, RIFLE_FIRE)));
    assert_eq!(tick(&mut c, TickInput { fire: true, ..still(16) }), None);
    assert_eq!(c.fire_timer, 84);
}

#[test]
fn a_stale_shot_report_restarts_nothing_unless_firing() {
    let a = shared();
    let idle = linked_to(5);
    assert_eq!(update_player_animations(Some(&a), &idle, true), None);
    let mut reloading = linked_to(5);
    detect_animation_state(&mut reloading, &TickInput { reload: true, ..still(16) });
    detect_animation_state(&mut reloading, &still(16));
    assert_eq!(reloading.upper_action, UpperBodyAction::Reloading);
    assert_eq!(update_player_animations(Some(&a), &reloading, true), None);
}

#[test]
fn a_change_of_locomotion_during_an_action_asks_for_the_action_clip() {
    let mut c = linked_to(5);
    assert_eq!(tick(&mut c, TickInput { reload: true, ..still(16) }), Some(once(5, RIFLE_RELOAD)));
    assert_eq!(
        tick(&mut c, TickInput { speed: Some(5000), ..still(16) }),
        Some(once(5, RIFLE_RELOAD))
    );
    assert!(c.movement_changed() && !c.upper_body_changed());
    assert_eq!(tick(&mut c, TickInput { speed: Some(5000), ..still(16) }), None);
}

#[test]
fn a_weapon_switch_during_an_action_asks_for_the_new_weapons_clip() {
    let mut c = linked_to(5);
    assert_eq!(tick(&mut c, TickInput { reload: true, ..still(16) }), Some(once(5, RIFLE_RELOAD)));
    assert_eq!(
        tick(&mut c, TickInput { select_sniper: true, ..still(16) }),
        Some(once(5, SNIPER_RELOAD))
    );
    assert_eq!(tick(&mut c, still(16)), None);
}

#[test]
fn reloading_requests_the_reload_clip_of_the_weapon_held() {
    let mut c = linked_to(5);
    assert_eq!(
        tick(&mut c, TickInput { select_pistol: true, reload: true, ..still(16) }),
        Some(once(5, PISTOL_RELOAD))
    );
}

#[test]
fn idle_upper_body_requests_locomotion_only_on_change() {
    let mut c = linked_to(5);
    assert_eq!(
        tick(&mut c, TickInput { speed: Some(2000), ..still(16) }),
        Some(looping(5, LOWER_WALK))
    );
    assert_eq!(tick(&mut c, TickInput { speed: Some(2100), ..still(16) }), None);
    assert_eq!(
        tick(&mut c, TickInput { speed: Some(2100), select_knife: true, ..still(16) }),
        Some(looping(5, LOWER_WALK))
    );
    assert_eq!(tick(&mut c, TickInput { speed: Some(2100), ..still(16) }), None);
}

#[test]
fn locomotion_resumes_when_the_shot_ends() {
    let mut c = linked_to(5);
    let running = TickInput { speed: Some(5000), ..still(16) };
    assert_eq!(tick(&mut c, TickInput { fire: true, ..running }), Some(once(5, RIFLE_FIRE)));
    assert_eq!(tick(&mut c, TickInput { delta: 100, ..running }), Some(looping(5, LOWER_RUN)));
    assert_eq!(c.upper_action, UpperBodyAction::Idle);
    assert!(!c.movement_changed());
    assert_eq!(tick(&mut c, running), None);
}

#[test]
fn setup_links_the_player_and_starts_idle() {
    let a = shared();
    let mut c = PlayerAnimationController::default();
    c.weapon = WeaponType::Sniper;
    let before = c;
    let first = setup_animation_player(&a, &mut c, 31);
    assert_eq!(
        first,
        AnimationTransition { player: 31, node: node_of_clip(LOWER_IDLE), blend: 200, repeat: true }
    );
    assert_eq!(c.animation_player_entity, Some(31));
    assert_eq!(c, PlayerAnimationController { animation_player_entity: Some(31), ..before });
}

#[test]
fn nearest_player_model_is_the_first_ancestor_that_is_one() {
    assert_eq!(nearest_player_model(&vec![10, 11, 12, 13], &vec![20, 12, 13]), Some(12));
    assert_eq!(nearest_player_model(&vec![10, 11, 12, 13], &vec![13, 11]), Some(11));
    assert_eq!(nearest_player_model(&vec![10], &vec![10]), Some(10));
}

#[test]
fn nearest_player_model_is_none_without_one() {
    assert_eq!(nearest_player_model(&vec![10, 11, 12], &vec![20, 21]), None);
    assert_eq!(nearest_player_model(&vec![], &vec![20, 21]), None);
    assert_eq!(nearest_player_model(&vec![10, 11], &vec![]), None);
}
