use rand::rngs::StdRng;
use rand::SeedableRng;
use vale_village::tower::{advance_floor, build_floor_definitions, generate_floor_encounter, TowerState};

#[test]
fn test_floor_definitions_count() {
    let floors = build_floor_definitions();
    assert_eq!(floors.len(), 10);
    for (i, floor) in floors.iter().enumerate() {
        assert_eq!(floor.floor_number, (i + 1) as u8);
    }
}

#[test]
fn test_boss_floors() {
    let floors = build_floor_definitions();
    let floor5 = &floors[4];
    assert!(floor5.is_boss_floor);
    assert_eq!(floor5.boss_id, Some("slaver-captain".to_string()));
    assert!(floor5.floor_reward_items.contains(&"elixir".to_string()));
    let floor10 = &floors[9];
    assert!(floor10.is_boss_floor);
    assert_eq!(floor10.boss_id, Some("dark-overlord".to_string()));
    assert!(floor10.floor_reward_items.contains(&"psy-crystal".to_string()));
    assert!(floor10.floor_reward_items.contains(&"elixir".to_string()));
    for (i, floor) in floors.iter().enumerate() {
        if i != 4 && i != 9 {
            assert!(!floor.is_boss_floor, "Floor {} should not be a boss floor", floor.floor_number);
        }
    }
}

#[test]
fn test_advance_floor() {
    let mut state = TowerState::default();
    assert_eq!(state.current_floor, 1);
    assert_eq!(state.max_floor_reached, 1);
    let result = advance_floor(&mut state);
    assert_eq!(result, Some(2));
    assert_eq!(state.current_floor, 2);
    assert_eq!(state.max_floor_reached, 2);
    assert!(state.floors_cleared.contains(&1));
    for expected in 3..=10 {
        let result = advance_floor(&mut state);
        assert_eq!(result, Some(expected));
    }
    assert_eq!(state.current_floor, 10);
    assert_eq!(state.max_floor_reached, 10);
    let result = advance_floor(&mut state);
    assert_eq!(result, None);
    assert_eq!(state.current_floor, 10);
}

#[test]
fn test_generate_encounter() {
    let floors = build_floor_definitions();
    let mut rng = StdRng::seed_from_u64(42);
    let floor1 = &floors[0];
    let encounter = generate_floor_encounter(floor1, &mut rng);
    assert!(!encounter.is_empty(), "Encounter should have at least one enemy");
    assert!(
        encounter.len() >= floor1.enemy_count_range.0 && encounter.len() <= floor1.enemy_count_range.1,
        "Floor 1 encounter count {} should be within range {:?}",
        encounter.len(),
        floor1.enemy_count_range,
    );
    let floor5 = &floors[4];
    let encounter = generate_floor_encounter(floor5, &mut rng);
    assert!(encounter.len() > floor5.enemy_count_range.0);
    assert_eq!(encounter[0].0, "slaver-captain");
    let floor10 = &floors[9];
    let encounter = generate_floor_encounter(floor10, &mut rng);
    assert_eq!(encounter.len(), 1, "Floor 10 should have only the boss");
    assert_eq!(encounter[0].0, "dark-overlord");
}
