use vale_village::data::{Element, EnemyDefinition, GameData};
use vale_village::overworld::encounters::{
    candidates_from_rolls, encounter_size, enemy_definition_to_battle_unit, keep_chance,
};
use vale_village::overworld::movement::{movement_frame, wild_battle, wild_encounter_ratio};
use vale_village::overworld::npcs::Facing;
use vale_village::strmap::StrMap;
use vale_village::timer::OnceTimer;
use vale_village::tower::{build_floor_definitions, floor_enemy_count};

fn enemy(id: &str, tier: u8) -> EnemyDefinition {
    EnemyDefinition {
        id: id.to_string(),
        name: id.to_string(),
        element: Element::Mars,
        level: 3,
        tier,
        hp: 40,
        pp: 5,
        atk: 12,
        def: 6,
        mag: 3,
        spd: 7,
        ability_ids: Vec::new(),
    }
}

fn registry() -> GameData {
    let mut enemies = StrMap::new();
    enemies.insert("slime", enemy("slime", 1));
    enemies.insert("wolf", enemy("wolf", 1));
    enemies.insert("hawk", enemy("hawk", 2));
    enemies.insert("golem", enemy("golem", 3));
    GameData { units: StrMap::new(), enemies, items: StrMap::new(), equipment: StrMap::new() }
}

#[test]
fn keep_chances_follow_the_tiers() {
    assert_eq!(keep_chance(6, 1), (3, 5));
    assert_eq!(keep_chance(6, 2), (2, 5));
    assert_eq!(keep_chance(10, 2), (3, 5));
    assert_eq!(keep_chance(10, 3), (2, 5));
    assert_eq!(keep_chance(20, 3), (3, 5));
    assert_eq!(keep_chance(20, 2), (2, 5));
}

#[test]
fn candidates_follow_the_keep_rolls() {
    let data = registry();
    assert_eq!(candidates_from_rolls(3, &data, &Vec::new()), vec![0, 1]);
    assert_eq!(candidates_from_rolls(6, &data, &vec![true, false, true]), vec![0, 2]);
    assert_eq!(candidates_from_rolls(6, &data, &vec![false, false, false]), vec![0, 1]);
    assert_eq!(candidates_from_rolls(10, &data, &vec![false, true]), vec![3]);
    assert_eq!(candidates_from_rolls(10, &data, &vec![false, false]), vec![2]);
    assert_eq!(candidates_from_rolls(15, &data, &vec![false, false]), vec![3]);
}

#[test]
fn encounter_size_is_capped_by_the_candidates() {
    assert_eq!(encounter_size(3, 2), 2);
    assert_eq!(encounter_size(2, 5), 2);
    assert_eq!(encounter_size(1, 1), 1);
}

#[test]
fn floor_count_takes_the_roll_within_a_range() {
    let floors = build_floor_definitions();
    assert_eq!(floor_enemy_count(&floors[0], 2), 2);
    assert_eq!(floor_enemy_count(&floors[6], 4), 4);
    assert_eq!(floor_enemy_count(&floors[9], 7), 1);
}

#[test]
fn wild_battles_start_only_on_a_true_roll() {
    assert_eq!(wild_encounter_ratio(), (15, 100));
    let data = registry();
    let units = vec![enemy_definition_to_battle_unit(data.enemies.get("wolf").unwrap(), 10_000)];
    let b = wild_battle(true, units.clone(), 3, -2).expect("a battle");
    assert_eq!(b.encounter_id, "overworld-3--2");
    assert!(!b.tower);
    assert_eq!(b.enemy_units.len(), 1);
    assert!(wild_battle(false, units, 3, 4).is_none());
    assert!(wild_battle(true, Vec::new(), 3, 4).is_none());
}

#[test]
fn movement_waits_for_the_cooldown() {
    let mut cooldown = OnceTimer::new(150);
    let mut facing = Facing::Down;
    assert_eq!(movement_frame(&mut cooldown, 100, false, false, false, true, false, &mut facing), None);
    assert_eq!(facing, Facing::Down);
    assert_eq!(movement_frame(&mut cooldown, 60, false, false, false, true, false, &mut facing), Some(Facing::Left));
    assert_eq!(facing, Facing::Left);
    cooldown.reset();
    assert_eq!(movement_frame(&mut cooldown, 500, true, true, false, false, false, &mut facing), None);
    assert_eq!(facing, Facing::Left);
    assert_eq!(cooldown.elapsed_ms, 0);
}
