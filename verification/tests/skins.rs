use aim_trainer::skins::{PlayerSide, Rgb, SkinDefinition, SkinId, SkinRegistry};

fn custom_skin(id: SkinId, name: &'static str, side: PlayerSide) -> SkinDefinition {
    SkinDefinition { id, name, model_path: "models/skins/custom.glb#Scene0", side }
}

#[test]
fn side_names() {
    assert_eq!(PlayerSide::Attacker.name(), "Attacker");
    assert_eq!(PlayerSide::Defender.name(), "Defender");
    assert_eq!(PlayerSide::Any.name(), "Any");
}

#[test]
fn side_colors() {
    assert_eq!(PlayerSide::Attacker.color(), Rgb { red: 90, green: 30, blue: 20 });
    assert_eq!(PlayerSide::Defender.color(), Rgb { red: 20, green: 50, blue: 90 });
    assert_eq!(PlayerSide::Any.color(), Rgb { red: 60, green: 60, blue: 60 });
    let attacker = PlayerSide::Attacker.color();
    assert_eq!(
        (attacker.red as f32 / 100.0, attacker.green as f32 / 100.0, attacker.blue as f32 / 100.0),
        (0.9, 0.3, 0.2)
    );
}

#[test]
fn skin_ids() {
    assert_eq!(SkinId::all(), vec![SkinId::Soldier, SkinId::Police]);
    assert_eq!(SkinId::default(), SkinId::Soldier);
}

#[test]
fn default_registry_holds_the_two_stock_skins() {
    let registry = SkinRegistry::default();
    assert_eq!(registry.skins.len(), 2);
    assert_eq!(
        registry.skins[0],
        SkinDefinition {
            id: SkinId::Soldier,
            name: "Soldier",
            model_path: "models/skins/attacker_default_skin.glb#Scene0",
            side: PlayerSide::Attacker,
        }
    );
    assert_eq!(
        registry.skins[1],
        SkinDefinition {
            id: SkinId::Police,
            name: "Police Defender",
            model_path: "models/skins/defense_default_skin.glb#Scene0",
            side: PlayerSide::Defender,
        }
    );
}

#[test]
fn get_finds_each_stock_skin() {
    let registry = SkinRegistry::default();
    assert_eq!(registry.get(SkinId::Soldier).map(|s| s.name), Some("Soldier"));
    assert_eq!(registry.get(SkinId::Police).map(|s| s.name), Some("Police Defender"));
    assert_eq!(registry.get(SkinId::Police).map(|s| s.side), Some(PlayerSide::Defender));
}

#[test]
fn get_on_a_registry_without_the_skin_is_none() {
    let empty = SkinRegistry { skins: vec![] };
    assert_eq!(empty.get(SkinId::Soldier), None);
    let only_police =
        SkinRegistry { skins: vec![custom_skin(SkinId::Police, "P", PlayerSide::Any)] };
    assert_eq!(only_police.get(SkinId::Soldier), None);
    assert!(only_police.get(SkinId::Police).is_some());
}

#[test]
fn get_returns_the_first_of_two_with_the_same_id() {
    let registry = SkinRegistry {
        skins: vec![
            custom_skin(SkinId::Police, "first", PlayerSide::Attacker),
            custom_skin(SkinId::Soldier, "other", PlayerSide::Attacker),
            custom_skin(SkinId::Police, "second", PlayerSide::Defender),
        ],
    };
    assert_eq!(registry.get(SkinId::Police).map(|s| s.name), Some("first"));
    assert_eq!(registry.get(SkinId::Soldier).map(|s| s.name), Some("other"));
}

#[test]
fn skins_for_a_side_include_those_open_to_any() {
    let registry = SkinRegistry {
        skins: vec![
            custom_skin(SkinId::Soldier, "a", PlayerSide::Attacker),
            custom_skin(SkinId::Police, "d", PlayerSide::Defender),
            custom_skin(SkinId::Soldier, "x", PlayerSide::Any),
            custom_skin(SkinId::Police, "b", PlayerSide::Attacker),
        ],
    };
    let names = |side: PlayerSide| -> Vec<&'static str> {
        registry.get_for_side(side).iter().map(|s| s.name).collect()
    };
    assert_eq!(names(PlayerSide::Attacker), vec!["a", "x", "b"]);
    assert_eq!(names(PlayerSide::Defender), vec!["d", "x"]);
    assert_eq!(names(PlayerSide::Any), vec!["x"]);
}

#[test]
fn stock_skins_by_side() {
    let registry = SkinRegistry::default();
    let attackers = registry.get_for_side(PlayerSide::Attacker);
    assert_eq!(attackers.len(), 1);
    assert_eq!(attackers[0].id, SkinId::Soldier);
    let defenders = registry.get_for_side(PlayerSide::Defender);
    assert_eq!(defenders.len(), 1);
    assert_eq!(defenders[0].id, SkinId::Police);
    assert!(registry.get_for_side(PlayerSide::Any).is_empty());
}
