use vale_village::core_plugin::achievements;
use vale_village::core_plugin::story;
use vale_village::core_plugin::{
    get_weather_element_bonus, AchievementEntry, Achievements, Bestiary, Difficulty, DifficultySettings, Party,
    Weather, WeatherConfig, WeatherState, ZoneWeatherWeights,
};
use vale_village::core_plugin::bestiary::Fraction;
use vale_village::data::Element;
use vale_village::strmap::StrMap;

fn percent(f: Fraction) -> f32 {
    f.num as f32 * 100.0 / f.den as f32
}

#[test]
fn test_set_flag_and_has_flag() {
    let mut party = Party::default();
    assert!(!party.has_flag(story::TOWER_ENTERED));
    party.set_flag(story::TOWER_ENTERED, true);
    assert!(party.has_flag(story::TOWER_ENTERED));
}

#[test]
fn test_set_flag_to_false() {
    let mut party = Party::default();
    party.set_flag(story::FIRST_BATTLE_WON, true);
    assert!(party.has_flag(story::FIRST_BATTLE_WON));
    party.set_flag(story::FIRST_BATTLE_WON, false);
    assert!(!party.has_flag(story::FIRST_BATTLE_WON));
}

#[test]
fn test_has_flag_returns_false_for_missing_flag() {
    let party = Party::default();
    assert!(!party.has_flag("nonexistent_flag"));
}

#[test]
fn test_flag_count_empty() {
    let party = Party::default();
    assert_eq!(party.flag_count(), 0);
}

#[test]
fn test_flag_count_with_true_and_false_flags() {
    let mut party = Party::default();
    party.set_flag(story::RECRUITED_KARIS, true);
    party.set_flag(story::RECRUITED_TYRELL, true);
    party.set_flag(story::RECRUITED_AMITI, false);
    party.set_flag(story::TOWER_ENTERED, true);
    assert_eq!(party.flag_count(), 3);
}

#[test]
fn test_flag_count_after_unsetting() {
    let mut party = Party::default();
    party.set_flag(story::TALKED_TO_ELDER, true);
    party.set_flag(story::TOWER_COMPLETED, true);
    assert_eq!(party.flag_count(), 2);
    party.set_flag(story::TALKED_TO_ELDER, false);
    assert_eq!(party.flag_count(), 1);
}

#[test]
fn test_story_flag_constants_are_unique() {
    let flags = [
        story::RECRUITED_KARIS,
        story::RECRUITED_TYRELL,
        story::RECRUITED_AMITI,
        story::TOWER_ENTERED,
        story::TOWER_FLOOR_5,
        story::TOWER_COMPLETED,
        story::TALKED_TO_ELDER,
        story::FIRST_BATTLE_WON,
    ];
    let unique: std::collections::HashSet<&str> = flags.iter().copied().collect();
    assert_eq!(flags.len(), unique.len(), "Story flag constants must be unique");
}

#[test]
fn test_default_party_has_no_story_flags() {
    let party = Party::default();
    assert!(party.story_flags.is_empty());
    assert_eq!(party.flag_count(), 0);
}

#[test]
fn test_difficulty_default_is_normal() {
    assert_eq!(Difficulty::default(), Difficulty::Normal);
}

#[test]
fn test_difficulty_settings_default_is_normal() {
    let settings = DifficultySettings::default();
    assert_eq!(settings.difficulty, Difficulty::Normal);
}

#[test]
fn test_party_default_difficulty_is_normal() {
    let party = Party::default();
    assert_eq!(party.difficulty, Difficulty::Normal);
}

#[test]
fn test_enemy_stat_multiplier_easy() {
    let settings = DifficultySettings { difficulty: Difficulty::Easy };
    assert_eq!(settings.enemy_stat_multiplier(), 80);
}

#[test]
fn test_enemy_stat_multiplier_normal() {
    let settings = DifficultySettings { difficulty: Difficulty::Normal };
    assert_eq!(settings.enemy_stat_multiplier(), 100);
}

#[test]
fn test_enemy_stat_multiplier_hard() {
    let settings = DifficultySettings { difficulty: Difficulty::Hard };
    assert_eq!(settings.enemy_stat_multiplier(), 130);
}

#[test]
fn test_xp_multiplier_easy() {
    let settings = DifficultySettings { difficulty: Difficulty::Easy };
    assert_eq!(settings.xp_multiplier(), 120);
}

#[test]
fn test_xp_multiplier_normal() {
    let settings = DifficultySettings { difficulty: Difficulty::Normal };
    assert_eq!(settings.xp_multiplier(), 100);
}

#[test]
fn test_xp_multiplier_hard() {
    let settings = DifficultySettings { difficulty: Difficulty::Hard };
    assert_eq!(settings.xp_multiplier(), 150);
}

#[test]
fn test_gold_multiplier_easy() {
    let settings = DifficultySettings { difficulty: Difficulty::Easy };
    assert_eq!(settings.gold_multiplier(), 130);
}

#[test]
fn test_gold_multiplier_normal() {
    let settings = DifficultySettings { difficulty: Difficulty::Normal };
    assert_eq!(settings.gold_multiplier(), 100);
}

#[test]
fn test_gold_multiplier_hard() {
    let settings = DifficultySettings { difficulty: Difficulty::Hard };
    assert_eq!(settings.gold_multiplier(), 80);
}

#[test]
fn test_flee_chance_bonus_easy() {
    let settings = DifficultySettings { difficulty: Difficulty::Easy };
    assert_eq!(settings.flee_chance_bonus(), 15);
}

#[test]
fn test_flee_chance_bonus_normal() {
    let settings = DifficultySettings { difficulty: Difficulty::Normal };
    assert_eq!(settings.flee_chance_bonus(), 0);
}

#[test]
fn test_flee_chance_bonus_hard() {
    let settings = DifficultySettings { difficulty: Difficulty::Hard };
    assert_eq!(settings.flee_chance_bonus(), -10);
}

#[test]
fn test_enemy_stats_increase_with_difficulty() {
    let easy = DifficultySettings { difficulty: Difficulty::Easy };
    let normal = DifficultySettings { difficulty: Difficulty::Normal };
    let hard = DifficultySettings { difficulty: Difficulty::Hard };
    assert!(easy.enemy_stat_multiplier() < normal.enemy_stat_multiplier());
    assert!(normal.enemy_stat_multiplier() < hard.enemy_stat_multiplier());
}

#[test]
fn test_xp_rewards_highest_on_hard() {
    let easy = DifficultySettings { difficulty: Difficulty::Easy };
    let normal = DifficultySettings { difficulty: Difficulty::Normal };
    let hard = DifficultySettings { difficulty: Difficulty::Hard };
    assert!(normal.xp_multiplier() < easy.xp_multiplier());
    assert!(easy.xp_multiplier() < hard.xp_multiplier());
}

#[test]
fn test_gold_rewards_decrease_with_difficulty() {
    let easy = DifficultySettings { difficulty: Difficulty::Easy };
    let normal = DifficultySettings { difficulty: Difficulty::Normal };
    let hard = DifficultySettings { difficulty: Difficulty::Hard };
    assert!(hard.gold_multiplier() < normal.gold_multiplier());
    assert!(normal.gold_multiplier() < easy.gold_multiplier());
}

#[test]
fn test_flee_chance_decreases_with_difficulty() {
    let easy = DifficultySettings { difficulty: Difficulty::Easy };
    let normal = DifficultySettings { difficulty: Difficulty::Normal };
    let hard = DifficultySettings { difficulty: Difficulty::Hard };
    assert!(hard.flee_chance_bonus() < normal.flee_chance_bonus());
    assert!(normal.flee_chance_bonus() < easy.flee_chance_bonus());
}

#[test]
fn test_difficulty_equality() {
    assert_eq!(Difficulty::Easy, Difficulty::Easy);
    assert_eq!(Difficulty::Normal, Difficulty::Normal);
    assert_eq!(Difficulty::Hard, Difficulty::Hard);
    assert_ne!(Difficulty::Easy, Difficulty::Normal);
    assert_ne!(Difficulty::Normal, Difficulty::Hard);
    assert_ne!(Difficulty::Easy, Difficulty::Hard);
}

#[test]
fn test_difficulty_settings_clone() {
    let settings = DifficultySettings { difficulty: Difficulty::Hard };
    let cloned = settings.clone();
    assert_eq!(cloned.difficulty, Difficulty::Hard);
}

#[test]
fn test_bestiary_default_is_empty() {
    let bestiary = Bestiary::default();
    assert!(bestiary.entries.is_empty());
}

#[test]
fn test_record_encounter_creates_entry() {
    let mut bestiary = Bestiary::default();
    bestiary.record_encounter("slime_01", "Green Slime");
    assert!(bestiary.entries.contains_key("slime_01"));
    let entry = bestiary.entries.get("slime_01").unwrap();
    assert_eq!(entry.enemy_id, "slime_01");
    assert_eq!(entry.enemy_name, "Green Slime");
    assert_eq!(entry.times_encountered, 1);
    assert_eq!(entry.times_defeated, 0);
    assert!(entry.first_encountered);
}

#[test]
fn test_record_encounter_increments_count() {
    let mut bestiary = Bestiary::default();
    bestiary.record_encounter("slime_01", "Green Slime");
    bestiary.record_encounter("slime_01", "Green Slime");
    bestiary.record_encounter("slime_01", "Green Slime");
    assert_eq!(bestiary.entries.get("slime_01").unwrap().times_encountered, 3);
}

#[test]
fn test_record_encounter_clears_first_encountered_after_second() {
    let mut bestiary = Bestiary::default();
    bestiary.record_encounter("bat_01", "Cave Bat");
    assert!(bestiary.entries.get("bat_01").unwrap().first_encountered);
    bestiary.record_encounter("bat_01", "Cave Bat");
    assert!(!bestiary.entries.get("bat_01").unwrap().first_encountered);
}

#[test]
fn test_record_encounter_first_encountered_stays_false_after_many() {
    let mut bestiary = Bestiary::default();
    for _ in 0..4 {
        bestiary.record_encounter("bat_01", "Cave Bat");
    }
    assert!(!bestiary.entries.get("bat_01").unwrap().first_encountered);
    assert_eq!(bestiary.entries.get("bat_01").unwrap().times_encountered, 4);
}

#[test]
fn test_record_encounter_multiple_enemies() {
    let mut bestiary = Bestiary::default();
    bestiary.record_encounter("slime_01", "Green Slime");
    bestiary.record_encounter("bat_01", "Cave Bat");
    bestiary.record_encounter("golem_01", "Stone Golem");
    assert_eq!(bestiary.entries.len(), 3);
    assert_eq!(bestiary.entries.get("slime_01").unwrap().times_encountered, 1);
    assert_eq!(bestiary.entries.get("bat_01").unwrap().times_encountered, 1);
    assert_eq!(bestiary.entries.get("golem_01").unwrap().times_encountered, 1);
}

#[test]
fn test_record_defeat_increments_count() {
    let mut bestiary = Bestiary::default();
    bestiary.record_encounter("slime_01", "Green Slime");
    bestiary.record_defeat("slime_01");
    assert_eq!(bestiary.entries.get("slime_01").unwrap().times_defeated, 1);
}

#[test]
fn test_record_defeat_multiple_times() {
    let mut bestiary = Bestiary::default();
    bestiary.record_encounter("slime_01", "Green Slime");
    bestiary.record_defeat("slime_01");
    bestiary.record_defeat("slime_01");
    bestiary.record_defeat("slime_01");
    assert_eq!(bestiary.entries.get("slime_01").unwrap().times_defeated, 3);
}

#[test]
fn test_record_defeat_unknown_enemy_is_noop() {
    let mut bestiary = Bestiary::default();
    bestiary.record_defeat("unknown_enemy");
    assert!(bestiary.entries.is_empty());
}

#[test]
fn test_record_defeat_does_not_increment_encounters() {
    let mut bestiary = Bestiary::default();
    bestiary.record_encounter("slime_01", "Green Slime");
    bestiary.record_defeat("slime_01");
    assert_eq!(bestiary.entries.get("slime_01").unwrap().times_encountered, 1);
    assert_eq!(bestiary.entries.get("slime_01").unwrap().times_defeated, 1);
}

#[test]
fn test_is_discovered_returns_false_for_unknown() {
    let bestiary = Bestiary::default();
    assert!(!bestiary.is_discovered("slime_01"));
}

#[test]
fn test_is_discovered_returns_true_after_encounter() {
    let mut bestiary = Bestiary::default();
    bestiary.record_encounter("slime_01", "Green Slime");
    assert!(bestiary.is_discovered("slime_01"));
}

#[test]
fn test_is_discovered_only_for_encountered_enemies() {
    let mut bestiary = Bestiary::default();
    bestiary.record_encounter("slime_01", "Green Slime");
    assert!(bestiary.is_discovered("slime_01"));
    assert!(!bestiary.is_discovered("bat_01"));
    assert!(!bestiary.is_discovered("golem_01"));
}

#[test]
fn test_completion_percent_empty_bestiary() {
    let bestiary = Bestiary::default();
    assert!((percent(bestiary.completion_percent(50)) - 0.0).abs() < f32::EPSILON);
}

#[test]
fn test_completion_percent_zero_total() {
    let bestiary = Bestiary::default();
    assert!((percent(bestiary.completion_percent(0)) - 0.0).abs() < f32::EPSILON);
}

#[test]
fn test_completion_percent_zero_total_with_entries() {
    let mut bestiary = Bestiary::default();
    bestiary.record_encounter("slime_01", "Green Slime");
    assert!((percent(bestiary.completion_percent(0)) - 0.0).abs() < f32::EPSILON);
}

#[test]
fn test_completion_percent_partial() {
    let mut bestiary = Bestiary::default();
    bestiary.record_encounter("slime_01", "Green Slime");
    bestiary.record_encounter("bat_01", "Cave Bat");
    assert!((percent(bestiary.completion_percent(10)) - 20.0).abs() < f32::EPSILON);
}

#[test]
fn test_completion_percent_full() {
    let mut bestiary = Bestiary::default();
    bestiary.record_encounter("slime_01", "Green Slime");
    bestiary.record_encounter("bat_01", "Cave Bat");
    bestiary.record_encounter("golem_01", "Stone Golem");
    assert!((percent(bestiary.completion_percent(3)) - 100.0).abs() < f32::EPSILON);
}

#[test]
fn test_completion_percent_one_of_one() {
    let mut bestiary = Bestiary::default();
    bestiary.record_encounter("boss_01", "Final Boss");
    assert!((percent(bestiary.completion_percent(1)) - 100.0).abs() < f32::EPSILON);
}

#[test]
fn test_completion_percent_half() {
    let mut bestiary = Bestiary::default();
    bestiary.record_encounter("e1", "Enemy 1");
    bestiary.record_encounter("e2", "Enemy 2");
    bestiary.record_encounter("e3", "Enemy 3");
    assert!((percent(bestiary.completion_percent(6)) - 50.0).abs() < f32::EPSILON);
}

#[test]
fn test_bestiary_encounter_then_defeat_workflow() {
    let mut bestiary = Bestiary::default();
    bestiary.record_encounter("dragon_01", "Fire Dragon");
    assert!(bestiary.entries.get("dragon_01").unwrap().first_encountered);
    assert_eq!(bestiary.entries.get("dragon_01").unwrap().times_encountered, 1);
    assert_eq!(bestiary.entries.get("dragon_01").unwrap().times_defeated, 0);
    bestiary.record_defeat("dragon_01");
    assert_eq!(bestiary.entries.get("dragon_01").unwrap().times_defeated, 1);
    bestiary.record_encounter("dragon_01", "Fire Dragon");
    assert!(!bestiary.entries.get("dragon_01").unwrap().first_encountered);
    assert_eq!(bestiary.entries.get("dragon_01").unwrap().times_encountered, 2);
    bestiary.record_defeat("dragon_01");
    assert_eq!(bestiary.entries.get("dragon_01").unwrap().times_defeated, 2);
}

#[test]
fn test_bestiary_clone() {
    let mut bestiary = Bestiary::default();
    bestiary.record_encounter("slime_01", "Green Slime");
    bestiary.record_defeat("slime_01");
    let cloned = bestiary.clone();
    assert_eq!(cloned.entries.len(), 1);
    assert_eq!(cloned.entries.get("slime_01").unwrap().times_encountered, 1);
    assert_eq!(cloned.entries.get("slime_01").unwrap().times_defeated, 1);
}

#[test]
fn test_bestiary_multiple_encounters_do_not_duplicate_entries() {
    let mut bestiary = Bestiary::default();
    bestiary.record_encounter("slime_01", "Green Slime");
    bestiary.record_encounter("slime_01", "Green Slime");
    bestiary.record_encounter("slime_01", "Green Slime");
    assert_eq!(bestiary.entries.len(), 1);
    assert_eq!(bestiary.entries.get("slime_01").unwrap().times_encountered, 3);
}

#[test]
fn test_bestiary_defeated_more_than_encountered_is_possible() {
    let mut bestiary = Bestiary::default();
    bestiary.record_encounter("slime_01", "Green Slime");
    bestiary.record_defeat("slime_01");
    bestiary.record_defeat("slime_01");
    bestiary.record_defeat("slime_01");
    assert_eq!(bestiary.entries.get("slime_01").unwrap().times_encountered, 1);
    assert_eq!(bestiary.entries.get("slime_01").unwrap().times_defeated, 3);
}

#[test]
fn test_bestiary_completion_percent_not_affected_by_encounter_count() {
    let mut bestiary = Bestiary::default();
    for _ in 0..100 {
        bestiary.record_encounter("slime_01", "Green Slime");
    }
    assert!((percent(bestiary.completion_percent(10)) - 10.0).abs() < f32::EPSILON);
}

fn all_achievement_ids() -> [&'static str; 10] {
    [
        achievements::FIRST_BLOOD,
        achievements::FULL_PARTY,
        achievements::TOWER_ENTERED,
        achievements::TOWER_COMPLETED,
        achievements::BESTIARY_25,
        achievements::BESTIARY_50,
        achievements::GOLD_1000,
        achievements::HARD_MODE,
        achievements::NO_KO,
        achievements::LEVEL_10,
    ]
}

#[test]
fn test_achievement_constants_are_unique() {
    let ids = all_achievement_ids();
    let unique: std::collections::HashSet<&str> = ids.iter().copied().collect();
    assert_eq!(ids.len(), unique.len(), "Achievement constants must be unique");
}

#[test]
fn test_achievement_constants_count() {
    let ids = all_achievement_ids();
    assert_eq!(ids.len(), 10);
}

#[test]
fn test_build_default_has_10_achievements() {
    let ach = Achievements::build_default();
    assert_eq!(ach.unlocked.len(), 10);
}

#[test]
fn test_build_default_all_locked() {
    let ach = Achievements::build_default();
    for i in 0..ach.unlocked.len() {
        let entry = ach.unlocked.value_at(i);
        assert!(!entry.unlocked, "Achievement '{}' should start locked", entry.id);
    }
}

#[test]
fn test_build_default_contains_all_constants() {
    let ach = Achievements::build_default();
    for id in all_achievement_ids() {
        assert!(ach.unlocked.contains_key(id), "build_default() should contain achievement '{}'", id);
    }
}

fn check_metadata(id: &str, name: &str, description: &str) {
    let ach = Achievements::build_default();
    let entry = ach.unlocked.get(id).unwrap();
    assert_eq!(entry.id, id);
    assert_eq!(entry.name, name);
    assert_eq!(entry.description, description);
    assert!(!entry.unlocked);
}

#[test]
fn test_build_default_first_blood_metadata() {
    check_metadata(achievements::FIRST_BLOOD, "First Blood", "Win your first battle");
    assert_eq!(achievements::FIRST_BLOOD, "first_blood");
}

#[test]
fn test_build_default_full_party_metadata() {
    check_metadata(achievements::FULL_PARTY, "Band of Heroes", "Recruit all party members");
    assert_eq!(achievements::FULL_PARTY, "full_party");
}

#[test]
fn test_build_default_tower_entered_metadata() {
    check_metadata(achievements::TOWER_ENTERED, "Into the Depths", "Enter the Tower of Trials");
    assert_eq!(achievements::TOWER_ENTERED, "tower_entered");
}

#[test]
fn test_build_default_tower_completed_metadata() {
    check_metadata(achievements::TOWER_COMPLETED, "Tower Conqueror", "Complete all 10 floors");
    assert_eq!(achievements::TOWER_COMPLETED, "tower_completed");
}

#[test]
fn test_build_default_bestiary_25_metadata() {
    check_metadata(achievements::BESTIARY_25, "Monster Scholar", "Discover 25 enemy types");
    assert_eq!(achievements::BESTIARY_25, "bestiary_25");
}

#[test]
fn test_build_default_bestiary_50_metadata() {
    check_metadata(achievements::BESTIARY_50, "Monster Master", "Discover all 50 enemy types");
    assert_eq!(achievements::BESTIARY_50, "bestiary_50");
}

#[test]
fn test_build_default_gold_1000_metadata() {
    check_metadata(achievements::GOLD_1000, "Wealthy Adept", "Accumulate 1000 gold");
    assert_eq!(achievements::GOLD_1000, "gold_1000");
}

#[test]
fn test_build_default_hard_mode_metadata() {
    check_metadata(achievements::HARD_MODE, "Hardcore", "Win a battle on Hard difficulty");
    assert_eq!(achievements::HARD_MODE, "hard_mode");
}

#[test]
fn test_build_default_no_ko_metadata() {
    check_metadata(achievements::NO_KO, "Flawless Victory", "Win a battle with no party members KO'd");
    assert_eq!(achievements::NO_KO, "no_ko");
}

#[test]
fn test_build_default_level_10_metadata() {
    check_metadata(achievements::LEVEL_10, "Seasoned Warrior", "Reach level 10 with any unit");
    assert_eq!(achievements::LEVEL_10, "level_10");
}

#[test]
fn test_build_default_entry_ids_match_keys() {
    let ach = Achievements::build_default();
    for i in 0..ach.unlocked.len() {
        let key = ach.unlocked.key_at(i);
        let entry = ach.unlocked.value_at(i);
        assert_eq!(key, &entry.id, "key '{}' must match entry id '{}'", key, entry.id);
    }
}

#[test]
fn test_unlock_sets_achievement_to_unlocked() {
    let mut ach = Achievements::build_default();
    assert!(!ach.unlocked.get(achievements::FIRST_BLOOD).unwrap().unlocked);
    ach.unlock(achievements::FIRST_BLOOD);
    assert!(ach.unlocked.get(achievements::FIRST_BLOOD).unwrap().unlocked);
}

#[test]
fn test_unlock_unknown_id_is_noop() {
    let mut ach = Achievements::build_default();
    let count_before = ach.unlocked.len();
    ach.unlock("nonexistent_achievement");
    assert_eq!(ach.unlocked.len(), count_before);
}

#[test]
fn test_unlock_idempotent() {
    let mut ach = Achievements::build_default();
    ach.unlock(achievements::HARD_MODE);
    ach.unlock(achievements::HARD_MODE);
    ach.unlock(achievements::HARD_MODE);
    assert!(ach.unlocked.get(achievements::HARD_MODE).unwrap().unlocked);
    assert_eq!(ach.unlocked.len(), 10);
}

#[test]
fn test_unlock_multiple_achievements() {
    let mut ach = Achievements::build_default();
    ach.unlock(achievements::FIRST_BLOOD);
    ach.unlock(achievements::NO_KO);
    ach.unlock(achievements::LEVEL_10);
    assert!(ach.unlocked.get(achievements::FIRST_BLOOD).unwrap().unlocked);
    assert!(ach.unlocked.get(achievements::NO_KO).unwrap().unlocked);
    assert!(ach.unlocked.get(achievements::LEVEL_10).unwrap().unlocked);
    assert!(!ach.unlocked.get(achievements::FULL_PARTY).unwrap().unlocked);
    assert!(!ach.unlocked.get(achievements::TOWER_ENTERED).unwrap().unlocked);
}

#[test]
fn test_unlock_does_not_change_metadata() {
    let mut ach = Achievements::build_default();
    ach.unlock(achievements::GOLD_1000);
    let entry = ach.unlocked.get(achievements::GOLD_1000).unwrap();
    assert_eq!(entry.id, "gold_1000");
    assert_eq!(entry.name, "Wealthy Adept");
    assert_eq!(entry.description, "Accumulate 1000 gold");
    assert!(entry.unlocked);
}

#[test]
fn test_is_unlocked_returns_false_for_locked() {
    let ach = Achievements::build_default();
    assert!(!ach.is_unlocked(achievements::FIRST_BLOOD));
}

#[test]
fn test_is_unlocked_returns_true_after_unlock() {
    let mut ach = Achievements::build_default();
    ach.unlock(achievements::TOWER_COMPLETED);
    assert!(ach.is_unlocked(achievements::TOWER_COMPLETED));
}

#[test]
fn test_is_unlocked_returns_false_for_unknown_id() {
    let ach = Achievements::build_default();
    assert!(!ach.is_unlocked("totally_fake_achievement"));
}

#[test]
fn test_is_unlocked_does_not_affect_other_achievements() {
    let mut ach = Achievements::build_default();
    ach.unlock(achievements::BESTIARY_25);
    assert!(ach.is_unlocked(achievements::BESTIARY_25));
    assert!(!ach.is_unlocked(achievements::BESTIARY_50));
}

#[test]
fn test_completion_count_all_locked() {
    let ach = Achievements::build_default();
    let (unlocked, total) = ach.completion_count();
    assert_eq!(unlocked, 0);
    assert_eq!(total, 10);
}

#[test]
fn test_completion_count_one_unlocked() {
    let mut ach = Achievements::build_default();
    ach.unlock(achievements::FIRST_BLOOD);
    let (unlocked, total) = ach.completion_count();
    assert_eq!(unlocked, 1);
    assert_eq!(total, 10);
}

#[test]
fn test_completion_count_several_unlocked() {
    let mut ach = Achievements::build_default();
    ach.unlock(achievements::FIRST_BLOOD);
    ach.unlock(achievements::FULL_PARTY);
    ach.unlock(achievements::TOWER_ENTERED);
    ach.unlock(achievements::GOLD_1000);
    let (unlocked, total) = ach.completion_count();
    assert_eq!(unlocked, 4);
    assert_eq!(total, 10);
}

#[test]
fn test_completion_count_all_unlocked() {
    let mut ach = Achievements::build_default();
    for id in all_achievement_ids() {
        ach.unlock(id);
    }
    let (unlocked, total) = ach.completion_count();
    assert_eq!(unlocked, 10);
    assert_eq!(total, 10);
}

#[test]
fn test_completion_count_empty_achievements() {
    let ach = Achievements::default();
    let (unlocked, total) = ach.completion_count();
    assert_eq!(unlocked, 0);
    assert_eq!(total, 0);
}

#[test]
fn test_achievements_default_is_empty() {
    let ach = Achievements::default();
    assert!(ach.unlocked.is_empty());
}

#[test]
fn test_achievements_default_differs_from_build_default() {
    let default_ach = Achievements::default();
    let built_ach = Achievements::build_default();
    assert_eq!(default_ach.unlocked.len(), 0);
    assert_eq!(built_ach.unlocked.len(), 10);
}

#[test]
fn test_achievements_clone() {
    let mut ach = Achievements::build_default();
    ach.unlock(achievements::FIRST_BLOOD);
    ach.unlock(achievements::NO_KO);
    let cloned = ach.clone();
    assert_eq!(cloned.unlocked.len(), 10);
    assert!(cloned.is_unlocked(achievements::FIRST_BLOOD));
    assert!(cloned.is_unlocked(achievements::NO_KO));
    assert!(!cloned.is_unlocked(achievements::HARD_MODE));
}

#[test]
fn test_achievements_clone_independence() {
    let mut ach = Achievements::build_default();
    let mut cloned = ach.clone();
    ach.unlock(achievements::FIRST_BLOOD);
    cloned.unlock(achievements::LEVEL_10);
    assert!(ach.is_unlocked(achievements::FIRST_BLOOD));
    assert!(!ach.is_unlocked(achievements::LEVEL_10));
    assert!(!cloned.is_unlocked(achievements::FIRST_BLOOD));
    assert!(cloned.is_unlocked(achievements::LEVEL_10));
}

#[test]
fn test_unlock_all_then_verify_completion() {
    let mut ach = Achievements::build_default();
    assert_eq!(ach.completion_count(), (0, 10));
    ach.unlock(achievements::FIRST_BLOOD);
    assert_eq!(ach.completion_count(), (1, 10));
    ach.unlock(achievements::FULL_PARTY);
    ach.unlock(achievements::TOWER_ENTERED);
    ach.unlock(achievements::TOWER_COMPLETED);
    ach.unlock(achievements::BESTIARY_25);
    assert_eq!(ach.completion_count(), (5, 10));
    ach.unlock(achievements::BESTIARY_50);
    ach.unlock(achievements::GOLD_1000);
    ach.unlock(achievements::HARD_MODE);
    ach.unlock(achievements::NO_KO);
    ach.unlock(achievements::LEVEL_10);
    assert_eq!(ach.completion_count(), (10, 10));
}

#[test]
fn test_unlock_unknown_does_not_change_completion() {
    let mut ach = Achievements::build_default();
    ach.unlock("fake_id_1");
    ach.unlock("fake_id_2");
    assert_eq!(ach.completion_count(), (0, 10));
}

#[test]
fn test_achievement_entry_debug_format() {
    let entry = AchievementEntry {
        id: "test".to_string(),
        name: "Test".to_string(),
        description: "A test achievement".to_string(),
        unlocked: false,
    };
    let debug_str = format!("{:?}", entry);
    assert!(debug_str.contains("test"));
    assert!(debug_str.contains("Test"));
}

#[test]
fn test_achievements_debug_format() {
    let ach = Achievements::build_default();
    let debug_str = format!("{:?}", ach);
    assert!(debug_str.contains("Achievements"));
}

#[test]
fn test_party_gold_accumulation() {
    let mut party = Party::default();
    assert_eq!(party.gold, 100, "Default party should start with 100 gold");
    party.gold += 50;
    assert_eq!(party.gold, 150);
    party.gold += 120;
    assert_eq!(party.gold, 270);
    party.gold -= 80;
    assert_eq!(party.gold, 190);
    party.gold += 300;
    assert_eq!(party.gold, 490);
    party.gold += 510;
    assert_eq!(party.gold, 1000);
    party.gold += 5000;
    party.gold -= 3000;
    assert_eq!(party.gold, 3000);
}

#[test]
fn test_party_full_roster() {
    let mut party = Party::default();
    party.active.clear();
    party.bench.clear();
    let all_units = [
        "adept", "war-mage", "mystic", "ranger", "sentinel", "stormcaller", "blaze", "karis", "tyrell", "felix",
    ];
    for &unit_id in &all_units[..4] {
        party.active.push(unit_id.to_string());
    }
    for &unit_id in &all_units[4..] {
        party.bench.push(unit_id.to_string());
    }
    assert_eq!(party.active.len(), 4);
    assert_eq!(party.bench.len(), 6);
    assert_eq!(party.active.len() + party.bench.len(), 10);
    assert_eq!(party.active[0], "adept");
    assert_eq!(party.active[3], "ranger");
    assert_eq!(party.bench[0], "sentinel");
    assert_eq!(party.bench[5], "felix");
    let mut all_roster: Vec<&str> = party.active.iter().map(|s| s.as_str()).collect();
    all_roster.extend(party.bench.iter().map(|s| s.as_str()));
    let unique: std::collections::HashSet<&str> = all_roster.iter().copied().collect();
    assert_eq!(unique.len(), 10);
}

#[test]
fn test_achievements_progression_scenario() {
    let mut ach = Achievements::build_default();
    let (unlocked, total) = ach.completion_count();
    assert_eq!(unlocked, 0);
    assert_eq!(total, 10);
    let order = [
        achievements::FIRST_BLOOD,
        achievements::NO_KO,
        achievements::FULL_PARTY,
        achievements::TOWER_ENTERED,
        achievements::BESTIARY_25,
        achievements::GOLD_1000,
        achievements::LEVEL_10,
        achievements::TOWER_COMPLETED,
        achievements::BESTIARY_50,
        achievements::HARD_MODE,
    ];
    for (n, id) in order.iter().enumerate() {
        ach.unlock(id);
        let (unlocked, _) = ach.completion_count();
        assert_eq!(unlocked, n + 1);
        assert!(ach.is_unlocked(id));
    }
    let (unlocked, total) = ach.completion_count();
    assert_eq!(unlocked, total);
    ach.unlock(achievements::FIRST_BLOOD);
    ach.unlock(achievements::HARD_MODE);
    let (unlocked, _) = ach.completion_count();
    assert_eq!(unlocked, 10);
}

#[test]
fn test_difficulty_affects_all_multipliers() {
    let difficulties = [
        (Difficulty::Easy, 80u32, 120u32, 130u32, 15i32),
        (Difficulty::Normal, 100, 100, 100, 0),
        (Difficulty::Hard, 130, 150, 80, -10),
    ];
    for (difficulty, expected_enemy, expected_xp, expected_gold, expected_flee) in difficulties {
        let settings = DifficultySettings { difficulty };
        assert_eq!(settings.enemy_stat_multiplier(), expected_enemy, "{:?}", difficulty);
        assert_eq!(settings.xp_multiplier(), expected_xp, "{:?}", difficulty);
        assert_eq!(settings.gold_multiplier(), expected_gold, "{:?}", difficulty);
        assert_eq!(settings.flee_chance_bonus(), expected_flee, "{:?}", difficulty);
    }
    let easy = DifficultySettings { difficulty: Difficulty::Easy };
    let normal = DifficultySettings { difficulty: Difficulty::Normal };
    let hard = DifficultySettings { difficulty: Difficulty::Hard };
    assert!(easy.enemy_stat_multiplier() < normal.enemy_stat_multiplier());
    assert!(normal.enemy_stat_multiplier() < hard.enemy_stat_multiplier());
    assert!(hard.gold_multiplier() < easy.gold_multiplier());
    assert!(hard.flee_chance_bonus() < easy.flee_chance_bonus());
}

#[test]
fn test_story_flags_quest_progression() {
    let mut party = Party::default();
    assert_eq!(party.flag_count(), 0);
    party.set_flag(story::TALKED_TO_ELDER, true);
    assert!(party.has_flag(story::TALKED_TO_ELDER));
    assert_eq!(party.flag_count(), 1);
    party.set_flag(story::FIRST_BATTLE_WON, true);
    assert!(party.has_flag(story::FIRST_BATTLE_WON));
    assert_eq!(party.flag_count(), 2);
    party.set_flag(story::RECRUITED_KARIS, true);
    party.set_flag(story::RECRUITED_TYRELL, true);
    party.set_flag(story::RECRUITED_AMITI, true);
    assert_eq!(party.flag_count(), 5);
    party.set_flag(story::TOWER_ENTERED, true);
    assert!(party.has_flag(story::TOWER_ENTERED));
    assert_eq!(party.flag_count(), 6);
    party.set_flag(story::TOWER_FLOOR_5, true);
    assert_eq!(party.flag_count(), 7);
    party.set_flag(story::TOWER_COMPLETED, true);
    assert!(party.has_flag(story::TOWER_COMPLETED));
    assert_eq!(party.flag_count(), 8);
    for flag in [
        story::TALKED_TO_ELDER,
        story::FIRST_BATTLE_WON,
        story::RECRUITED_KARIS,
        story::RECRUITED_TYRELL,
        story::RECRUITED_AMITI,
        story::TOWER_ENTERED,
        story::TOWER_FLOOR_5,
        story::TOWER_COMPLETED,
    ] {
        assert!(party.has_flag(flag));
    }
    assert!(!party.has_flag("nonexistent_quest"));
}

fn slots(pairs: &[(&str, &str)]) -> StrMap<String> {
    let mut m = StrMap::new();
    for (slot, item) in pairs {
        m.insert(slot, item.to_string());
    }
    m
}

#[test]
fn test_party_equipment_slots() {
    let mut party = Party::default();
    party.active = vec!["adept".to_string(), "war-mage".to_string(), "mystic".to_string(), "ranger".to_string()];
    party.equipment.insert(
        "adept",
        slots(&[("weapon", "iron-sword"), ("armor", "leather-armor"), ("accessory", "lucky-charm")]),
    );
    party.equipment.insert("war-mage", slots(&[("weapon", "battle-axe"), ("armor", "iron-armor")]));
    party.equipment.insert("mystic", slots(&[("weapon", "arcane-rod")]));
    party.equipment.insert("ranger", slots(&[("weapon", "short-bow"), ("accessory", "speed-ring")]));
    assert_eq!(party.equipment.len(), 4);
    let adept_slots = party.equipment.get("adept").unwrap();
    assert_eq!(adept_slots.len(), 3);
    assert_eq!(adept_slots.get("weapon").unwrap(), "iron-sword");
    assert_eq!(adept_slots.get("armor").unwrap(), "leather-armor");
    assert_eq!(adept_slots.get("accessory").unwrap(), "lucky-charm");
    let wm_slots = party.equipment.get("war-mage").unwrap();
    assert_eq!(wm_slots.len(), 2);
    assert_eq!(wm_slots.get("weapon").unwrap(), "battle-axe");
    assert_eq!(party.equipment.get("mystic").unwrap().len(), 1);
    let ranger_slots = party.equipment.get("ranger").unwrap();
    assert_eq!(ranger_slots.len(), 2);
    assert_eq!(ranger_slots.get("accessory").unwrap(), "speed-ring");
    let mut adept = party.equipment.get("adept").unwrap().clone();
    adept.insert("weapon", "steel-sword".to_string());
    party.equipment.insert("adept", adept);
    assert_eq!(party.equipment.get("adept").unwrap().get("weapon").unwrap(), "steel-sword");
    assert_eq!(party.equipment.get("adept").unwrap().len(), 3);
}

#[test]
fn test_weather_default_is_clear() {
    let state = WeatherState::default();
    assert_eq!(state.current, Weather::Clear);
    assert_eq!(state.intensity, 0);
    assert_eq!(state.current_zone, "vale_village");
    assert!((30_000..=60_000).contains(&state.transition_timer));
}

#[test]
fn test_weather_enum_all_variants() {
    let all = Weather::all();
    assert_eq!(all.len(), 5);
    assert!(all.contains(&Weather::Clear));
    assert!(all.contains(&Weather::Rain));
    assert!(all.contains(&Weather::Snow));
    assert!(all.contains(&Weather::Fog));
    assert!(all.contains(&Weather::Sandstorm));
}

#[test]
fn test_weather_element_bonus_rain_boosts_mercury() {
    assert_eq!(get_weather_element_bonus(&Weather::Rain, &Element::Mercury), 110);
}

#[test]
fn test_weather_element_bonus_rain_penalises_mars() {
    assert_eq!(get_weather_element_bonus(&Weather::Rain, &Element::Mars), 90);
}

#[test]
fn test_weather_element_bonus_sandstorm_boosts_venus() {
    assert_eq!(get_weather_element_bonus(&Weather::Sandstorm, &Element::Venus), 110);
}

#[test]
fn test_weather_element_bonus_sandstorm_penalises_jupiter() {
    assert_eq!(get_weather_element_bonus(&Weather::Sandstorm, &Element::Jupiter), 90);
}

#[test]
fn test_weather_element_bonus_snow_boosts_mercury_and_jupiter() {
    assert_eq!(get_weather_element_bonus(&Weather::Snow, &Element::Mercury), 105);
    assert_eq!(get_weather_element_bonus(&Weather::Snow, &Element::Jupiter), 105);
}

#[test]
fn test_weather_element_bonus_fog_boosts_jupiter() {
    assert_eq!(get_weather_element_bonus(&Weather::Fog, &Element::Jupiter), 110);
}

const ELEMENTS: [Element; 5] = [Element::Venus, Element::Mercury, Element::Mars, Element::Jupiter, Element::Neutral];

#[test]
fn test_weather_element_bonus_clear_is_neutral() {
    for element in &ELEMENTS {
        assert_eq!(get_weather_element_bonus(&Weather::Clear, element), 100, "{:?}", element);
    }
}

#[test]
fn test_weather_element_bonus_neutral_element_unaffected() {
    for weather in Weather::all() {
        assert_eq!(get_weather_element_bonus(&weather, &Element::Neutral), 100, "{:?}", weather);
    }
}

#[test]
fn test_weather_element_bonus_rain_neutral_to_venus() {
    assert_eq!(get_weather_element_bonus(&Weather::Rain, &Element::Venus), 100);
}

#[test]
fn test_weather_element_bonus_sandstorm_neutral_to_mercury() {
    assert_eq!(get_weather_element_bonus(&Weather::Sandstorm, &Element::Mercury), 100);
}

#[test]
fn test_zone_weather_weights_default() {
    let w = ZoneWeatherWeights::default();
    let total = w.clear + w.rain + w.snow + w.fog + w.sandstorm;
    assert_eq!(total, 100, "Default weights should sum to one whole");
}

#[test]
fn test_zone_weather_weights_select_low_returns_clear() {
    let weights = ZoneWeatherWeights::default();
    assert_eq!(weights.select(0, 1000), Weather::Clear);
}

#[test]
fn test_zone_weather_weights_select_high_returns_sandstorm() {
    let weights = ZoneWeatherWeights::default();
    assert_eq!(weights.select(999, 1000), Weather::Sandstorm);
}

#[test]
fn test_zone_weather_weights_select_all_zero_returns_clear() {
    let weights = ZoneWeatherWeights { clear: 0, rain: 0, snow: 0, fog: 0, sandstorm: 0 };
    assert_eq!(weights.select(500, 1000), Weather::Clear);
}

#[test]
fn test_zone_weather_weights_single_option() {
    let weights = ZoneWeatherWeights { clear: 0, rain: 100, snow: 0, fog: 0, sandstorm: 0 };
    for val in [0u64, 250, 500, 750, 990] {
        assert_eq!(weights.select(val, 1000), Weather::Rain, "val={}", val);
    }
}

#[test]
fn test_weather_config_default_has_expected_zones() {
    let config = WeatherConfig::default();
    assert!(config.zones.contains_key("vale_village"));
    assert!(config.zones.contains_key("mountain"));
    assert!(config.zones.contains_key("desert"));
    assert!(config.zones.contains_key("tower"));
}

#[test]
fn test_weather_config_weights_for_known_zone() {
    let config = WeatherConfig::default();
    let desert_weights = config.weights_for_zone("desert");
    assert!(desert_weights.sandstorm > 50, "Desert zone should heavily favour sandstorms");
}

#[test]
fn test_weather_config_weights_for_unknown_zone_falls_back() {
    let config = WeatherConfig::default();
    let fallback = config.weights_for_zone("nonexistent_zone");
    let default = ZoneWeatherWeights::default();
    assert_eq!(fallback.clear, default.clear);
}

#[test]
fn test_zone_weather_weighted_list_length() {
    let weights = ZoneWeatherWeights::default();
    assert_eq!(weights.weighted_list().len(), 5);
}

#[test]
fn test_weather_state_manual_transition() {
    let mut state = WeatherState::default();
    assert_eq!(state.current, Weather::Clear);
    state.current = Weather::Sandstorm;
    state.intensity = 800_000;
    state.transition_timer = 35_000;
    assert_eq!(state.current, Weather::Sandstorm);
    assert_eq!(state.intensity, 800_000);
    assert_eq!(state.transition_timer, 35_000);
}

#[test]
fn test_weather_element_bonus_comprehensive_matrix() {
    for weather in Weather::all() {
        for element in &ELEMENTS {
            let bonus = get_weather_element_bonus(&weather, element);
            assert!((50..=200).contains(&bonus), "{:?}/{:?}: {}", weather, element, bonus);
        }
    }
}
