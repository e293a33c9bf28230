use vale_village::ui::menus::{open_settings, settings_input_step, DisplaySettings, CONTINUE_SLOT};
use vale_village::battle_ui::{cache_end_battle, take_result_display, BattleResultCache};
use rand::rngs::StdRng;
use rand::SeedableRng;
use vale_village::audio::{play_bgm, play_sfx, sfx_key, sfx_path, track_for_state, AudioSettings, BgmAction, MusicTrack, SfxKey};
use vale_village::battle_ui::{
    alive_indices, battle_action_step, battle_target_step, damage_text, push_pending_action, side_display,
    turn_order_text, victory_lines, BattleDisplayUnit, BattleUiPhase, BattleUiState,
};
use vale_village::core_plugin::story;
use vale_village::core_plugin::{Difficulty, GameState, Party};
use vale_village::data::{
    BattleAction, BattlePhase, BattleRewards, BattleUnit, CommandMenu, CommandSelectState, Element, EnemyDefinition,
    GameData, GridPosition, GrowthStats, LevelUpEvent, UnitDefinition, UnitSide,
};
use vale_village::inventory::{initial_inventory_state, InventoryTab};
use vale_village::inventory_view::{inventory_hint_text, status_is_warning, tab_header_text, with_cursor};
use vale_village::overworld::encounters::{
    build_random_encounter, enemy_definition_to_battle_unit, get_average_party_level, ENEMY_BATTLE_ID_BASE,
};
use vale_village::overworld::map::TileMap;
use vale_village::overworld::movement::{
    battle_end_transition, direction_from_keys, overworld_pause, player_step, start_position, PauseAction,
};
use vale_village::overworld::npcs::{Facing, Npc};
use vale_village::audio::{play_sfx_event, PlaySfxEvent, SfxHandles};
use vale_village::save::{
    check_slot, no_save_file_message, restore_battle_units, save_slot_label, slot_file_name, PartyMemberSaveData,
    SaveData,
};
use vale_village::screens;
use vale_village::strmap::StrMap;
use vale_village::text::contains_text;
use vale_village::timer::OnceTimer;
use vale_village::tower::{build_floor_definitions, generate_floor_encounter, TowerState};
use vale_village::ui::menus::{
    difficulty_for_cursor, difficulty_select_step, loaded_message, main_menu_choice, new_game_party, no_save_message,
    pause_choice, save_failed_message, save_slot_step, saved_message, settings_adjust, settings_back,
    settings_value_text, DifficultyOutcome, DifficultySelectState, MainMenuChoice, MenuFeedback, PauseChoice,
    SaveSlotMenu, SaveSlotMode, SettingsUiState, SlotOutcome,
};
use vale_village::ui::{screen_transition_tick, start_transition, MenuCursor, ScreenTransition};

fn unit_def(id: &str, name: &str, hp: i32, pp: i32) -> UnitDefinition {
    UnitDefinition {
        id: id.to_string(),
        name: name.to_string(),
        element: Element::Venus,
        role: "fighter".to_string(),
        base_hp: hp,
        base_pp: pp,
        base_atk: 10,
        base_def: 10,
        base_mag: 10,
        base_spd: 10,
        growth: GrowthStats { hp: 10, pp: 2, atk: 2, def: 2, mag: 2, spd: 1 },
    }
}

fn enemy_def(id: &str, name: &str, tier: u8, level: u8) -> EnemyDefinition {
    EnemyDefinition {
        id: id.to_string(),
        name: name.to_string(),
        element: Element::Mars,
        level,
        tier,
        hp: 40,
        pp: 5,
        atk: 12,
        def: 6,
        mag: 3,
        spd: 7,
        ability_ids: vec!["bite".to_string()],
    }
}

fn game_data() -> GameData {
    let mut units = StrMap::new();
    units.insert("adept", unit_def("adept", "Isaac", 120, 25));
    units.insert("war-mage", unit_def("war-mage", "Garet", 140, 20));
    let mut enemies = StrMap::new();
    for (id, tier) in [("mercury-slime", 1u8), ("venus-wolf", 1), ("mars-bandit", 1), ("jupiter-hawk", 2)] {
        enemies.insert(id, enemy_def(id, id, tier, 3));
    }
    GameData { units, enemies, items: StrMap::new(), equipment: StrMap::new() }
}

fn combatant(id: u32, name: &str, side: UnitSide, hp: i32) -> BattleUnit {
    BattleUnit {
        id,
        name: name.to_string(),
        side,
        element: Element::Venus,
        level: 4,
        hp,
        max_hp: 100,
        pp: 10,
        max_pp: 20,
        atk: 1,
        def: 1,
        mag: 1,
        spd: 1,
        luck: 1,
        ability_ids: Vec::new(),
        djinn_ids: Vec::new(),
        damage_taken: 0,
        damage_dealt: 0,
        xp: 77,
    }
}

#[test]
fn save_outside_battle_then_restore_gives_party_back() {
    let data = game_data();
    let mut party = Party::default();
    party.active.push("war-mage".to_string());
    party.bench.push("adept".to_string());
    party.gold = 321;
    party.unit_levels.insert("adept", (5, 1200));
    party.unit_hp_pp.insert("adept", (85, 20));
    party.set_flag(story::TOWER_ENTERED, true);
    party.djinn_assignments.insert("flint", "adept".to_string());
    let mut tower = TowerState::default();
    tower.current_floor = 4;
    let save = SaveData::from_game_state(party.clone(), &data.units, &Vec::new(), Some(GameState::Overworld), None, Some(&tower), 1500);
    assert_eq!(save.djinn_assignments.get("flint"), Some(&"adept".to_string()));
    assert_eq!(save.djinn_assignments.len(), 1);
    assert_eq!(save.tower_floor, 4);
    assert_eq!(save.version, 1);
    assert_eq!(save.current_map, "Overworld");
    assert_eq!(save.player_position, GridPosition::new(5, 5));
    assert_eq!(save.gold, 321);
    assert_eq!(save.party_data.len(), 2);
    assert_eq!(save.party_data[0].unit_id, "adept");
    assert_eq!((save.party_data[0].hp, save.party_data[0].pp, save.party_data[0].level, save.party_data[0].xp), (85, 20, 5, 1200));
    assert_eq!(save.party_data[1].unit_id, "war-mage");
    assert_eq!((save.party_data[1].hp, save.party_data[1].pp, save.party_data[1].level, save.party_data[1].xp), (140, 20, 1, 0));
    assert_eq!(save.unit_levels.get("war-mage"), Some(&(1, 0)));
    assert_eq!(save.play_time_ms, 1500);
    let (restored, position) = save.apply_to_game(&mut Vec::new(), &data.units);
    assert_eq!(position, GridPosition::new(5, 5));
    assert_eq!(restored.djinn_assignments.get("flint"), Some(&"adept".to_string()));
    assert_eq!(restored.active, party.active);
    assert_eq!(restored.bench, party.bench);
    assert_eq!(restored.gold, 321);
    assert!(restored.has_flag(story::TOWER_ENTERED));
    assert_eq!(restored.unit_levels.get("adept"), Some(&(5, 1200)));
    assert_eq!(restored.unit_levels.get("war-mage"), Some(&(1, 0)));
    assert_eq!(restored.unit_hp_pp.get("war-mage"), Some(&(140, 20)));
}

#[test]
fn save_during_battle_takes_live_stats() {
    let data = game_data();
    let party = Party::default();
    let live = vec![combatant(1, "Isaac", UnitSide::Player, 33), combatant(2, "Isaac", UnitSide::Enemy, 1)];
    let save = SaveData::from_game_state(party, &data.units, &live, None, Some(GridPosition::new(9, 4)), None, 0);
    assert_eq!(save.tower_floor, 0);
    assert_eq!(save.current_map, "Overworld");
    assert_eq!(save.player_position, GridPosition::new(9, 4));
    assert_eq!(save.party_data.len(), 1);
    let m = &save.party_data[0];
    assert_eq!((m.unit_id.as_str(), m.hp, m.pp, m.level, m.xp), ("adept", 33, 10, 4, 77));
}

#[test]
fn restoring_battle_units_clamps_points() {
    let data = game_data();
    let mut save = SaveData::default();
    save.party_data.push(PartyMemberSaveData { unit_id: "adept".to_string(), hp: 500, pp: -4, level: 9, xp: 10 });
    let mut units = vec![combatant(1, "Isaac", UnitSide::Player, 1), combatant(2, "Garet", UnitSide::Player, 5)];
    restore_battle_units(&mut units, &data.units, &save);
    assert_eq!((units[0].hp, units[0].pp, units[0].level, units[0].xp), (100, 0, 9, 10));
    assert_eq!((units[1].hp, units[1].level), (5, 4));
}

#[test]
fn save_slot_checks_and_names() {
    assert!(check_slot(2, 3).is_ok());
    assert_eq!(check_slot(3, 3), Err("Invalid save slot: 3".to_string()));
    assert_eq!(slot_file_name(0), "save_0.ron");
    assert_eq!(no_save_file_message(2), "No save file in slot 2");
}

#[test]
fn save_slot_labels_show_best_level_and_gold() {
    let mut save = SaveData::default();
    save.gold = 320;
    for level in [3u8, 5, 2] {
        save.party_data.push(PartyMemberSaveData { unit_id: "x".to_string(), hp: 1, pp: 1, level, xp: 0 });
    }
    assert_eq!(save_slot_label(0, Some(&save)), "Slot 1: Level 5, Gold 320");
    assert_eq!(save_slot_label(2, None), "Slot 3: [Empty]");
    let empty = SaveData::default();
    assert_eq!(save_slot_label(1, Some(&empty)), "Slot 2: Level 1, Gold 100");
}

#[test]
fn fade_is_not_interrupted_and_switches_once() {
    let mut t = ScreenTransition::default();
    start_transition(&mut t, GameState::Overworld);
    start_transition(&mut t, GameState::Settings);
    assert_eq!(t.target_state, Some(GameState::Overworld));
    assert_eq!(screen_transition_tick(&mut t, 200), None);
    assert_eq!(t.alpha_milli, 500);
    assert_eq!(screen_transition_tick(&mut t, 200), Some(GameState::Overworld));
    assert!(!t.fading_out);
    assert_eq!(screen_transition_tick(&mut t, 100), None);
    assert_eq!(t.alpha_milli, 750);
    assert_eq!(screen_transition_tick(&mut t, 1000), None);
    assert!(!t.active);
    assert_eq!(t.alpha_milli, 0);
}

#[test]
fn first_screen_model_fade_restarts() {
    let mut t = screens::ScreenTransition::default();
    screens::start_transition(&mut t, screens::GameState::Battle);
    assert_eq!(screens::screen_transition_tick(&mut t, 250), None);
    screens::start_transition(&mut t, screens::GameState::Shop);
    assert_eq!(t.alpha_milli, 0);
    assert_eq!(screens::screen_transition_tick(&mut t, 500), Some(screens::GameState::Shop));
    assert_eq!(screens::GameState::default(), screens::GameState::TitleScreen);
    assert_eq!(screens::GameSettings::default().music_volume, 70);
}

#[test]
fn menu_cursor_waits_for_cooldown_and_wraps() {
    let mut c = MenuCursor::new(4);
    c.navigate(100, true, false);
    assert_eq!(c.selected, 0);
    c.navigate(60, true, false);
    assert_eq!(c.selected, 3);
    c.navigate(150, false, true);
    assert_eq!(c.selected, 0);
    c.navigate(150, true, true);
    assert_eq!(c.selected, 0);
}

#[test]
fn menu_choices_map_entries() {
    assert_eq!(main_menu_choice(0), Some(MainMenuChoice::NewGame));
    assert_eq!(main_menu_choice(3), Some(MainMenuChoice::Quit));
    assert_eq!(main_menu_choice(4), None);
    assert_eq!(pause_choice(1), Some(PauseChoice::Save));
    assert_eq!(pause_choice(4), Some(PauseChoice::QuitToTitle));
    assert_eq!(difficulty_for_cursor(0), Difficulty::Easy);
    assert_eq!(difficulty_for_cursor(7), Difficulty::Normal);
    let p = new_game_party(Difficulty::Hard);
    assert_eq!(p.difficulty, Difficulty::Hard);
    assert_eq!(p.gold, 100);
}

#[test]
fn difficulty_chooser_starts_on_normal() {
    let mut s = DifficultySelectState::new();
    assert_eq!(difficulty_select_step(&mut s, 0, false, false, false, true), DifficultyOutcome::Start(Difficulty::Normal));
    assert_eq!(difficulty_select_step(&mut s, 200, false, true, false, true), DifficultyOutcome::Start(Difficulty::Hard));
    assert_eq!(difficulty_select_step(&mut s, 0, false, false, true, true), DifficultyOutcome::Close);
}

#[test]
fn save_slot_menu_acts_on_cursor() {
    let mut m = SaveSlotMenu::new(SaveSlotMode::Load);
    assert_eq!(save_slot_step(&mut m, 200, true, false, false, false), SlotOutcome::Stay);
    assert_eq!(m.cursor, 2);
    assert_eq!(save_slot_step(&mut m, 0, false, false, false, true), SlotOutcome::Act(SaveSlotMode::Load, 2));
    assert_eq!(saved_message(0), "Game saved to Slot 1!");
    assert_eq!(loaded_message(2), "Loaded from Slot 3!");
    assert_eq!(no_save_message(1), "No save in Slot 2");
    assert_eq!(save_failed_message("disk full"), "Save failed: disk full");
}

#[test]
fn feedback_message_expires() {
    let mut f = MenuFeedback::new();
    assert_eq!(f.tick(10), "");
    f.set("Game saved to Slot 1!".to_string());
    assert_eq!(f.tick(1000), "Game saved to Slot 1!");
    assert_eq!(f.tick(500), "");
    assert!(f.message.is_none());
}

#[test]
fn settings_adjust_and_show_values() {
    let mut s = SettingsUiState { music_volume: 70, sfx_volume: 95, fullscreen: false, resolution_index: 0, return_to: GameState::MainMenu };
    settings_adjust(&mut s, 0, false, true);
    assert_eq!(s.music_volume, 80);
    settings_adjust(&mut s, 1, false, true);
    assert_eq!(s.sfx_volume, 100);
    settings_adjust(&mut s, 2, true, false);
    assert!(s.fullscreen);
    settings_adjust(&mut s, 3, true, false);
    assert_eq!(s.resolution_index, 2);
    assert_eq!(settings_value_text(&s, 0), "80%");
    assert_eq!(settings_value_text(&s, 2), "ON");
    assert_eq!(settings_value_text(&s, 3), "1920x1080");
    assert_eq!(settings_value_text(&s, 4), "");
    assert!(settings_back(false, true, 4));
    assert!(!settings_back(false, true, 3));
}

#[test]
fn timer_runs_to_its_duration() {
    let mut t = OnceTimer::new(150);
    t.tick(100);
    assert!(!t.finished());
    t.tick(100);
    assert!(t.finished());
    assert_eq!(t.elapsed_ms, 150);
    t.reset();
    assert!(!t.finished());
}

fn strip_map() -> TileMap {
    TileMap { width: 5, height: 1, tiles: vec![0, 0, 2, 0, 5], encounter_zones: vec![false; 5] }
}

fn npc_at(x: i32, y: i32) -> Npc {
    Npc {
        name: "Villager".to_string(),
        position: GridPosition::new(x, y),
        dialog: vec!["Hello".to_string()],
        shopkeeper: None,
        recruit: None,
        innkeeper: None,
        elder: false,
        fortune_teller: false,
    }
}

#[test]
fn player_steps_onto_walkable_tiles_only() {
    let map = strip_map();
    let data = game_data();
    let tower = TowerState::default();
    let mut party = Party::default();
    let mut rng = StdRng::seed_from_u64(1);
    let (p, b) = player_step(&map, &Vec::new(), GridPosition::new(0, 0), Facing::Right, &tower, &mut party, &data, &mut rng);
    assert_eq!(p, GridPosition::new(1, 0));
    assert!(b.is_none());
    let (p, b) = player_step(&map, &Vec::new(), GridPosition::new(1, 0), Facing::Right, &tower, &mut party, &data, &mut rng);
    assert_eq!(p, GridPosition::new(1, 0));
    assert!(b.is_none());
    let npcs = vec![npc_at(1, 0)];
    let (p, _) = player_step(&map, &npcs, GridPosition::new(0, 0), Facing::Right, &tower, &mut party, &data, &mut rng);
    assert_eq!(p, GridPosition::new(0, 0));
    let (p, _) = player_step(&map, &Vec::new(), GridPosition::new(0, 0), Facing::Up, &tower, &mut party, &data, &mut rng);
    assert_eq!(p, GridPosition::new(0, 0));
}

#[test]
fn stepping_on_the_tower_door_starts_the_floor() {
    let mut tiles = vec![0u8; 30 * 10];
    tiles[5 * 30 + 26] = 5;
    let map = TileMap { width: 30, height: 10, tiles, encounter_zones: vec![false; 300] };
    let data = game_data();
    let mut tower = TowerState::default();
    tower.is_active = true;
    let mut party = Party::default();
    let mut rng = StdRng::seed_from_u64(7);
    let (p, b) = player_step(&map, &Vec::new(), GridPosition::new(26, 6), Facing::Up, &tower, &mut party, &data, &mut rng);
    assert_eq!(p, GridPosition::new(26, 5));
    let b = b.expect("a tower battle");
    assert!(b.tower);
    assert_eq!(b.encounter_id, "tower-floor-1");
    assert!(!b.enemy_units.is_empty() && b.enemy_units.len() <= 2);
    for (i, u) in b.enemy_units.iter().enumerate() {
        assert_eq!(u.id, ENEMY_BATTLE_ID_BASE + i as u32);
        assert_eq!(u.side, UnitSide::Enemy);
        assert_eq!(u.level, 3);
    }
    assert!(party.has_flag(story::TOWER_ENTERED));
    tower.is_active = false;
    let mut party2 = Party::default();
    let (_, b) = player_step(&map, &Vec::new(), GridPosition::new(26, 6), Facing::Up, &tower, &mut party2, &data, &mut rng);
    assert!(b.is_none());
    assert!(!party2.has_flag(story::TOWER_ENTERED));
}

#[test]
fn wild_battles_start_only_in_encounter_zones() {
    let map = TileMap { width: 2, height: 1, tiles: vec![0, 7], encounter_zones: vec![false, true] };
    let data = game_data();
    let tower = TowerState::default();
    let mut rng = StdRng::seed_from_u64(3);
    let mut seen = 0;
    for _ in 0..200 {
        let mut party = Party::default();
        let (p, b) = player_step(&map, &Vec::new(), GridPosition::new(0, 0), Facing::Right, &tower, &mut party, &data, &mut rng);
        assert_eq!(p, GridPosition::new(1, 0));
        if let Some(b) = b {
            seen += 1;
            assert!(!b.tower);
            assert_eq!(b.encounter_id, "overworld-1-0");
            assert!((1..=3).contains(&b.enemy_units.len()));
        }
    }
    assert!(seen > 5 && seen < 100, "about one step in seven starts a battle, saw {}", seen);
}

#[test]
fn random_encounters_draw_distinct_tier_one_enemies() {
    let data = game_data();
    let mut rng = StdRng::seed_from_u64(11);
    let mut sizes = std::collections::HashSet::new();
    for _ in 0..50 {
        let units = build_random_encounter(&mut rng, 2, &data);
        assert!((1..=3).contains(&units.len()));
        sizes.insert(units.len());
        let names: std::collections::HashSet<&str> = units.iter().map(|u| u.name.as_str()).collect();
        assert_eq!(names.len(), units.len());
        assert!(!names.contains("jupiter-hawk"));
        for (i, u) in units.iter().enumerate() {
            assert_eq!(u.id, 10_000 + i as u32);
        }
    }
    assert!(sizes.len() > 1, "the number of enemies varies");
}

#[test]
fn enemy_becomes_full_health_combatant() {
    let def = enemy_def("venus-wolf", "Wolf", 1, 7);
    let u = enemy_definition_to_battle_unit(&def, 10_002);
    assert_eq!(u.id, 10_002);
    assert_eq!(u.name, "Wolf");
    assert_eq!((u.hp, u.max_hp, u.pp, u.max_pp), (40, 40, 5, 5));
    assert_eq!(u.luck, 8);
    assert_eq!(u.ability_ids, vec!["bite".to_string()]);
    assert_eq!(u.side, UnitSide::Enemy);
}

#[test]
fn average_party_level_rounds_down_and_starts_at_one() {
    let mut party = Party::default();
    assert_eq!(get_average_party_level(&party), 1);
    party.unit_levels.insert("a", (4, 0));
    party.unit_levels.insert("b", (7, 0));
    assert_eq!(get_average_party_level(&party), 5);
}

#[test]
fn tower_floor_counts_vary_within_range() {
    let floors = build_floor_definitions();
    let mut rng = StdRng::seed_from_u64(5);
    let mut counts = std::collections::HashSet::new();
    for _ in 0..40 {
        let e = generate_floor_encounter(&floors[6], &mut rng);
        assert!((2..=4).contains(&e.len()));
        counts.insert(e.len());
    }
    assert!(counts.len() > 1);
}

#[test]
fn overworld_keys_and_battle_end() {
    assert_eq!(direction_from_keys(true, true, false, false), Some(Facing::Up));
    assert_eq!(direction_from_keys(false, false, true, true), Some(Facing::Left));
    assert_eq!(direction_from_keys(false, false, false, false), None);
    assert_eq!(overworld_pause(false, true, true), PauseAction::OpenInventory);
    assert_eq!(overworld_pause(false, false, true), PauseAction::FadeToPause);
    assert_eq!(overworld_pause(true, true, true), PauseAction::Nothing);
    assert_eq!(battle_end_transition(&vec![false, true]), Some((BattlePhase::Inactive, GameState::Overworld)));
    assert_eq!(battle_end_transition(&vec![false]), None);
    let mut saved = Some(GridPosition::new(3, 4));
    assert_eq!(start_position(&mut saved), GridPosition::new(3, 4));
    assert_eq!(start_position(&mut saved), GridPosition::new(15, 10));
}

#[test]
fn audio_respects_switches_and_volumes() {
    let mut s = AudioSettings::default();
    let h = Some(5u32);
    assert_eq!(play_sfx(&h, &s), Some((&5u32, 7200)));
    let third = AudioSettings { master_volume: 33, sfx_volume: 33, ..AudioSettings::default() };
    assert_eq!(play_sfx(&h, &third), Some((&5u32, 1089)));
    assert_eq!(play_sfx::<u32>(&None, &s), None);
    s.sfx_enabled = false;
    assert_eq!(play_sfx(&h, &s), None);
    match play_bgm(&h, &s) {
        BgmAction::Replace(Some((v, vol))) => assert_eq!((*v, vol), (5, 5600)),
        _ => panic!("music should start"),
    }
    s.music_enabled = false;
    assert!(matches!(play_bgm(&h, &s), BgmAction::Keep));
    assert_eq!(track_for_state(GameState::Battle), Some(MusicTrack::BattleTheme));
    assert_eq!(sfx_key("level_up"), Some(SfxKey::LevelUp));
    assert_eq!(sfx_key("boom"), None);
    assert_eq!(sfx_path(SfxKey::DoorOpen), "audio/sfx/door_open.ogg");
}

fn command_state(n: usize) -> CommandSelectState {
    CommandSelectState {
        selecting_unit_index: 0,
        pending_actions: vec![None; n],
        menu: CommandMenu::Main,
        cursor_index: 3,
        selected_ability: Some("x".to_string()),
        selected_djinn: None,
    }
}

#[test]
fn battle_lists_are_sorted_by_id() {
    let units = vec![
        combatant(7, "C", UnitSide::Enemy, 5),
        combatant(2, "A", UnitSide::Player, 5),
        combatant(3, "B", UnitSide::Enemy, 0),
        combatant(3, "B2", UnitSide::Enemy, 9),
    ];
    let enemies = side_display(&units, UnitSide::Enemy);
    let names: Vec<&str> = enemies.iter().map(|d| d.name.as_str()).collect();
    assert_eq!(names, vec!["B", "B2", "C"]);
    assert!(!enemies[0].alive);
    assert_eq!(alive_indices(&enemies), vec![1, 2]);
    let party = side_display(&units, UnitSide::Player);
    assert_eq!(party.len(), 1);
}

#[test]
fn pending_actions_fill_in_turn() {
    let mut cmd = command_state(1);
    assert!(push_pending_action(&mut cmd, BattleAction::Defend));
    assert_eq!(cmd.pending_actions[0], Some(BattleAction::Defend));
    assert_eq!(cmd.selecting_unit_index, 1);
    assert_eq!(cmd.menu, CommandMenu::ItemSelect);
    assert!(cmd.selected_ability.is_none());
    assert!(!push_pending_action(&mut cmd, BattleAction::Flee));
}

fn display(id: u32, name: &str, alive: bool) -> BattleDisplayUnit {
    BattleDisplayUnit { id, name: name.to_string(), hp: 1, max_hp: 1, pp: 0, max_pp: 0, element: Element::Neutral, alive }
}

#[test]
fn action_and_target_menus_queue_commands() {
    let mut ui = BattleUiState::default();
    let mut cmd = command_state(2);
    let enemies = vec![display(10_000, "Slime", false), display(10_001, "Wolf", true)];
    battle_action_step(&mut ui, &mut cmd, &enemies, BattlePhase::CommandSelect, 0, false, false, true, false);
    assert_eq!(ui.phase, BattleUiPhase::TargetSelect);
    let sel = battle_target_step(&mut ui, &mut cmd, &enemies, BattlePhase::CommandSelect, 0, false, false, true, false);
    assert_eq!(sel, Some(1));
    assert_eq!(ui.phase, BattleUiPhase::ActionSelect);
    assert_eq!(ui.message, "Attack queued on Wolf.");
    assert_eq!(cmd.pending_actions[0], Some(BattleAction::Attack { target_id: 10_001 }));
    battle_action_step(&mut ui, &mut cmd, &enemies, BattlePhase::CommandSelect, 200, true, false, true, false);
    assert_eq!(ui.action_cursor, 4);
    assert_eq!(ui.message, "Flee queued.");
    battle_action_step(&mut ui, &mut cmd, &enemies, BattlePhase::CommandSelect, 0, false, false, false, true);
    assert_eq!(ui.message, "No acting unit available.");
    let dead = vec![display(1, "Slime", false)];
    let mut ui2 = BattleUiState::default();
    ui2.phase = BattleUiPhase::TargetSelect;
    assert_eq!(battle_target_step(&mut ui2, &mut cmd, &dead, BattlePhase::CommandSelect, 0, false, false, true, false), None);
    assert_eq!(ui2.phase, BattleUiPhase::Victory);
}

#[test]
fn battle_texts() {
    assert_eq!(damage_text(25), "25");
    assert_eq!(damage_text(-8), "+8");
    let units = vec![combatant(1, "Isaac", UnitSide::Player, 3)];
    assert_eq!(turn_order_text(2, &vec![1, 9], &units), "Turn 2: Isaac > #9");
    assert_eq!(turn_order_text(2, &Vec::new(), &units), "Turn: --");
    let rewards = Some(BattleRewards { total_gold: 40, xp_per_unit: 12, item_drops: vec!["herb".to_string(), "nut".to_string()] });
    let level_ups = vec![LevelUpEvent {
        unit_name: "Isaac".to_string(),
        old_level: 3,
        new_level: 4,
        new_abilities: vec!["Quake".to_string()],
    }];
    assert_eq!(
        victory_lines(&rewards, &level_ups),
        vec![
            "VICTORY!",
            "Gold earned: 40",
            "XP per unit: 12",
            "Isaac leveled up! Lv.3 -> Lv.4",
            "  Learned: Quake",
            "Items found: herb, nut",
            "Press Enter to continue",
        ]
    );
    assert_eq!(victory_lines(&None, &Vec::new()), vec!["VICTORY!", "Gold earned: 0", "XP per unit: 0", "Press Enter to continue"]);
}

#[test]
fn inventory_screen_texts() {
    let party = Party::default();
    let mut state = initial_inventory_state(&party, 0);
    assert_eq!(tab_header_text(state.tab), "[Items] | Party");
    assert!(inventory_hint_text(&state).contains("[U] Unequip"));
    state.tab = InventoryTab::Party;
    state.party_first_selected = Some(0);
    assert!(inventory_hint_text(&state).contains("Cancel Swap"));
    assert_eq!(with_cursor(true, "Herb"), "> Herb");
    assert_eq!(with_cursor(false, "Herb"), "  Herb");
    assert!(status_is_warning("Swap cancelled."));
    assert!(status_is_warning("Not enough gold"));
    assert!(!status_is_warning("Equipped Sword on Isaac."));
    assert!(contains_text("abcabd", "abd"));
    assert!(!contains_text("ab", "abc"));
}

#[test]
fn sound_requests_play_known_loaded_effects() {
    let mut sfx: SfxHandles<u32> = SfxHandles::default();
    sfx.heal = Some(4);
    let settings = AudioSettings::default();
    assert_eq!(play_sfx_event(&PlaySfxEvent("heal".to_string()), &sfx, &settings), Some((&4u32, 7200)));
    assert_eq!(play_sfx_event(&PlaySfxEvent("level_up".to_string()), &sfx, &settings), None);
    assert_eq!(play_sfx_event(&PlaySfxEvent("roar".to_string()), &sfx, &settings), None);
}

#[test]
fn settings_screen_writes_through() {
    let mut audio = AudioSettings::default();
    let mut display = DisplaySettings::default();
    let mut state = open_settings(&audio, &display);
    assert_eq!(state.music_volume, 70);
    assert_eq!(state.return_to, GameState::MainMenu);
    settings_input_step(&mut state, &mut audio, &mut display, 0, true, false);
    assert_eq!(audio.music_volume, 60);
    settings_input_step(&mut state, &mut audio, &mut display, 3, false, true);
    assert_eq!(display.resolution_index, 1);
    settings_input_step(&mut state, &mut audio, &mut display, 2, false, false);
    assert!(!display.fullscreen);
    assert_eq!(CONTINUE_SLOT, 1);
}

#[test]
fn end_of_battle_screen_shows_once() {
    let mut cache = BattleResultCache::default();
    cache_end_battle(&mut cache, None, Vec::new());
    assert!(take_result_display(&mut cache));
    assert!(!take_result_display(&mut cache));
    cache_end_battle(&mut cache, Some(BattleRewards { total_gold: 1, xp_per_unit: 2, item_drops: Vec::new() }), Vec::new());
    assert!(take_result_display(&mut cache));
}
