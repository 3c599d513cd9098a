use aim_trainer::hitbox::{standard_hitbox, HitboxZone, HitboxZoneType, MilliVec3};
use aim_trainer::player_model::{
    hitbox_colliders, respawn, spawn_point, HitboxZoneMarker, PlayerModel, COLLIDER_HEIGHT,
    FALL_LIMIT, MODEL_DROP,
};
use aim_trainer::shooting::{update_player, RayHit, ShotOutcome};
use aim_trainer::skins::SkinId;

fn as_factor(percent: u32) -> f32 {
    percent as f32 / 100.0
}

fn metres(v: MilliVec3) -> (f32, f32, f32) {
    (v.x as f32 / 1000.0, v.y as f32 / 1000.0, v.z as f32 / 1000.0)
}

#[test]
fn damage_multipliers() {
    assert_eq!(HitboxZoneType::Head.damage_multiplier(), 250);
    assert_eq!(HitboxZoneType::Torso.damage_multiplier(), 100);
    assert_eq!(HitboxZoneType::Legs.damage_multiplier(), 75);
    assert_eq!(as_factor(HitboxZoneType::Head.damage_multiplier()), 2.5);
    assert_eq!(as_factor(HitboxZoneType::Torso.damage_multiplier()), 1.0);
    assert_eq!(as_factor(HitboxZoneType::Legs.damage_multiplier()), 0.75);
}

#[test]
fn damage_multipliers_hold_for_every_skin() {
    for skin in SkinId::all() {
        let hitbox = skin.hitbox();
        assert_eq!(hitbox, standard_hitbox());
        assert_eq!(*hitbox, *standard_hitbox());
        assert_eq!(as_factor(hitbox.head.damage_multiplier), 2.5);
        assert_eq!(as_factor(hitbox.torso.damage_multiplier), 1.0);
        assert_eq!(as_factor(hitbox.legs.damage_multiplier), 0.75);
    }
    assert_eq!(SkinId::Soldier.hitbox(), SkinId::Police.hitbox());
}

#[test]
fn standard_hitbox_geometry() {
    let hitbox = standard_hitbox();
    assert_eq!(hitbox.head.offset, MilliVec3 { x: 0, y: 1600, z: 0 });
    assert_eq!(hitbox.head.half_extents, MilliVec3 { x: 150, y: 150, z: 150 });
    assert_eq!(hitbox.torso.offset, MilliVec3 { x: 0, y: 1100, z: 0 });
    assert_eq!(hitbox.torso.half_extents, MilliVec3 { x: 250, y: 350, z: 150 });
    assert_eq!(hitbox.legs.offset, MilliVec3 { x: 0, y: 450, z: 0 });
    assert_eq!(hitbox.legs.half_extents, MilliVec3 { x: 200, y: 450, z: 120 });
    assert_eq!(metres(hitbox.head.offset), (0.0, 1.6, 0.0));
    assert_eq!(metres(hitbox.torso.half_extents), (0.25, 0.35, 0.15));
    assert_eq!(metres(hitbox.legs.half_extents), (0.2, 0.45, 0.12));
}

#[test]
fn zone_lookup_matches_the_standard_hitbox() {
    let hitbox = standard_hitbox();
    assert_eq!(*HitboxZoneType::Head.zone(), hitbox.head);
    assert_eq!(*HitboxZoneType::Torso.zone(), hitbox.torso);
    assert_eq!(*HitboxZoneType::Legs.zone(), hitbox.legs);
    assert_ne!(HitboxZoneType::Head.zone(), HitboxZoneType::Legs.zone());
}

#[test]
fn zone_constructor_keeps_its_arguments() {
    let offset = MilliVec3 { x: 1, y: -2, z: 3 };
    let half = MilliVec3 { x: 4, y: 5, z: 6 };
    let zone = HitboxZone::new(offset, half, 130);
    assert_eq!(zone.offset, offset);
    assert_eq!(zone.half_extents, half);
    assert_eq!(zone.damage_multiplier, 130);
}

#[test]
fn marker_reports_its_zone_multiplier() {
    let head = HitboxZoneMarker { zone_type: HitboxZoneType::Head, player_entity: 9 };
    let legs = HitboxZoneMarker { zone_type: HitboxZoneType::Legs, player_entity: 9 };
    assert_eq!(head.damage_multiplier(), 250);
    assert_eq!(legs.damage_multiplier(), 75);
}

#[test]
fn every_player_gets_the_same_three_colliders() {
    let first = hitbox_colliders(1);
    let second = hitbox_colliders(2);
    assert_eq!(first.len(), 3);
    assert_eq!(
        first[0],
        (
            HitboxZoneMarker { zone_type: HitboxZoneType::Head, player_entity: 1 },
            standard_hitbox().head
        )
    );
    assert_eq!(first[1].0.zone_type, HitboxZoneType::Torso);
    assert_eq!(first[1].1, standard_hitbox().torso);
    assert_eq!(first[2].0.zone_type, HitboxZoneType::Legs);
    assert_eq!(first[2].1, standard_hitbox().legs);
    for i in 0..3 {
        assert_eq!(first[i].1, second[i].1);
        assert_eq!(first[i].0.zone_type, second[i].0.zone_type);
        assert_eq!(first[i].0.player_entity, 1);
        assert_eq!(second[i].0.player_entity, 2);
    }
}

#[test]
fn local_model_is_hidden_remote_model_is_shown() {
    let local = PlayerModel { logical_entity: 4, is_local_player: true };
    let remote = PlayerModel { logical_entity: 5, is_local_player: false };
    assert!(local.is_hidden());
    assert!(!remote.is_hidden());
}

#[test]
fn model_root_sits_half_a_collider_below_the_body() {
    assert_eq!(COLLIDER_HEIGHT, 3000);
    assert_eq!(MODEL_DROP, 1500);
    assert_eq!(COLLIDER_HEIGHT as f32 / 1000.0, 3.0);
}

#[test]
fn a_fallen_player_returns_to_the_spawn_point() {
    assert_eq!(FALL_LIMIT as f32 / 1000.0, -50.0);
    assert_eq!(spawn_point(), MilliVec3 { x: 0, y: 1625, z: 0 });
    assert_eq!(metres(spawn_point()), (0.0, 1.625, 0.0));
    assert_eq!(respawn(-50_000), Some(spawn_point()));
    assert_eq!(respawn(-50_001), Some(spawn_point()));
    assert_eq!(respawn(i32::MIN), Some(spawn_point()));
}

#[test]
fn a_player_above_the_fall_limit_stays() {
    assert_eq!(respawn(-49_999), None);
    assert_eq!(respawn(0), None);
    assert_eq!(respawn(1625), None);
    assert_eq!(respawn(i32::MAX), None);
}

#[test]
fn hit_on_a_target_eliminates_it_and_draws_a_tracer() {
    let hit = RayHit { entity: 42, is_target: true, zone: None };
    assert_eq!(
        update_player(true, Some(hit)),
        ShotOutcome { eliminated: Some(42), tracer: true, multiplier: None }
    );
}

#[test]
fn hit_on_scenery_only_draws_a_tracer() {
    let hit = RayHit { entity: 7, is_target: false, zone: None };
    assert_eq!(
        update_player(true, Some(hit)),
        ShotOutcome { eliminated: None, tracer: true, multiplier: None }
    );
}

#[test]
fn hit_reports_the_zone_multiplier() {
    let hit = RayHit { entity: 7, is_target: false, zone: Some(HitboxZoneType::Head) };
    assert_eq!(update_player(true, Some(hit)).multiplier, Some(250));
    let legs = RayHit { entity: 7, is_target: true, zone: Some(HitboxZoneType::Legs) };
    assert_eq!(
        update_player(true, Some(legs)),
        ShotOutcome { eliminated: Some(7), tracer: true, multiplier: Some(75) }
    );
}

#[test]
fn miss_does_nothing() {
    assert_eq!(
        update_player(true, None),
        ShotOutcome { eliminated: None, tracer: false, multiplier: None }
    );
}

#[test]
fn no_press_does_nothing() {
    let hit = RayHit { entity: 42, is_target: true, zone: Some(HitboxZoneType::Torso) };
    let nothing = ShotOutcome { eliminated: None, tracer: false, multiplier: None };
    assert_eq!(update_player(false, Some(hit)), nothing);
    assert_eq!(update_player(false, None), nothing);
}
