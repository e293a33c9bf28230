use vale_village::sprites::{
    enemy_sprite_mappings, get_enemy_sprite, get_unit_sprite, sprite_handles_from_loaded, unit_sprite_mappings,
    SpriteHandles,
};

#[test]
fn test_unit_sprite_mappings_cover_all_units() {
    let mappings = unit_sprite_mappings();
    let expected_ids =
        ["adept", "war-mage", "mystic", "ranger", "sentinel", "stormcaller", "blaze", "karis", "tyrell", "felix"];
    for id in &expected_ids {
        assert!(mappings.iter().any(|(mid, _)| mid == id), "Missing unit sprite mapping for '{}'", id);
    }
}

#[test]
fn test_unit_sprite_mappings_unique_ids() {
    let mappings = unit_sprite_mappings();
    let mut seen = std::collections::HashSet::new();
    for (id, _) in &mappings {
        assert!(seen.insert(*id), "Duplicate unit sprite mapping for '{}'", id);
    }
}

#[test]
fn test_enemy_sprite_mappings_cover_known_enemies() {
    let mappings = enemy_sprite_mappings();
    let spot_check = [
        "mercury-slime",
        "venus-wolf",
        "mars-bandit",
        "jupiter-sprite",
        "venus-beetle",
        "slaver-chief",
        "vale-overlord",
        "leviathan",
        "infernal-dragon",
        "earth-titan",
    ];
    for id in &spot_check {
        assert!(mappings.iter().any(|(mid, _)| mid == id), "Missing enemy sprite mapping for '{}'", id);
    }
}

#[test]
fn test_enemy_sprite_mappings_unique_ids() {
    let mappings = enemy_sprite_mappings();
    let mut seen = std::collections::HashSet::new();
    for (id, _) in &mappings {
        assert!(seen.insert(*id), "Duplicate enemy sprite mapping for '{}'", id);
    }
}

#[test]
fn test_all_sprite_paths_use_correct_prefix() {
    let unit_mappings = unit_sprite_mappings();
    let enemy_mappings = enemy_sprite_mappings();
    for (id, path) in unit_mappings.iter().chain(enemy_mappings.iter()) {
        assert!(path.starts_with("sprites/placeholders/"), "bad prefix for '{}': '{}'", id, path);
        assert!(path.ends_with(".png"), "bad suffix for '{}': '{}'", id, path);
    }
}

#[test]
fn test_get_unit_sprite_returns_some_for_loaded() {
    let mut handles: SpriteHandles<u32> = SpriteHandles::default();
    handles.units.insert("adept", 7);
    let result = get_unit_sprite(&handles, "adept");
    assert!(result.is_some(), "Should find 'adept' in loaded handles");
}

#[test]
fn test_get_unit_sprite_returns_none_for_missing() {
    let handles: SpriteHandles<u32> = SpriteHandles::default();
    assert!(get_unit_sprite(&handles, "nonexistent-unit").is_none());
}

#[test]
fn test_get_enemy_sprite_returns_some_for_loaded() {
    let mut handles: SpriteHandles<u32> = SpriteHandles::default();
    handles.enemies.insert("mercury-slime", 3);
    assert!(get_enemy_sprite(&handles, "mercury-slime").is_some());
}

#[test]
fn test_get_enemy_sprite_returns_none_for_missing() {
    let handles: SpriteHandles<u32> = SpriteHandles::default();
    assert!(get_enemy_sprite(&handles, "nonexistent-enemy").is_none());
}

#[test]
fn test_unit_mappings_match_registry_count() {
    let mappings = unit_sprite_mappings();
    assert_eq!(mappings.len(), 10, "Expected 10 unit sprite mappings, got {}", mappings.len());
}

#[test]
fn sprite_table_from_loaded_pictures_keys_by_id() {
    let units: Vec<u32> = (0..unit_sprite_mappings().len() as u32).collect();
    let enemies: Vec<u32> = (100..100 + enemy_sprite_mappings().len() as u32).collect();
    let handles = sprite_handles_from_loaded(units, enemies);
    assert_eq!(get_unit_sprite(&handles, "adept"), Some(0));
    assert_eq!(get_unit_sprite(&handles, "felix"), Some(9));
    assert_eq!(get_enemy_sprite(&handles, "mercury-slime"), Some(100));
    assert_eq!(handles.units.len(), 10);
    assert!(handles.icons.is_empty());
}
