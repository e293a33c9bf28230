use vale_village::battle_ui::{unit_panel_lines, BattleDisplayUnit};
use vale_village::core_plugin::story;
use vale_village::core_plugin::{Bestiary, Party, Weather, ZoneWeatherWeights};
use vale_village::data::{Element, GameData, GridPosition, GrowthStats, UnitDefinition};
use vale_village::inventory_view::{equipment_panel_lines, item_panel_lines, party_panel_lines, unit_select_lines};
use vale_village::overworld::npcs::{finish_dialog, Npc};
use vale_village::shop::CurrentShop;
use vale_village::strmap::StrMap;

fn unit(id: &str, name: &str, hp: i32, pp: i32) -> UnitDefinition {
    UnitDefinition {
        id: id.to_string(),
        name: name.to_string(),
        element: Element::Venus,
        role: "Warrior".to_string(),
        base_hp: hp,
        base_pp: pp,
        base_atk: 10,
        base_def: 10,
        base_mag: 10,
        base_spd: 10,
        growth: GrowthStats { hp: 10, pp: 2, atk: 2, def: 2, mag: 2, spd: 1 },
    }
}

fn registry() -> GameData {
    let mut units = StrMap::new();
    units.insert("adept", unit("adept", "Isaac", 120, 25));
    units.insert("wind_seer", unit("wind_seer", "Karis", 90, 40));
    GameData { units, enemies: StrMap::new(), items: StrMap::new(), equipment: StrMap::new() }
}

fn villager() -> Npc {
    Npc {
        name: "Villager".to_string(),
        position: GridPosition::new(1, 1),
        dialog: vec!["Hello.".to_string()],
        shopkeeper: None,
        recruit: None,
        innkeeper: None,
        elder: false,
        fortune_teller: false,
    }
}

fn display(name: &str, hp: i32, pp: i32) -> BattleDisplayUnit {
    BattleDisplayUnit { id: 1, name: name.to_string(), hp, max_hp: 100, pp, max_pp: 30, element: Element::Mars, alive: true }
}

#[test]
fn discovery_share_is_capped_at_the_whole() {
    let mut bestiary = Bestiary::default();
    bestiary.record_encounter("a", "A");
    bestiary.record_encounter("b", "B");
    bestiary.record_encounter("c", "C");
    let f = bestiary.completion_percent(2);
    assert_eq!((f.num, f.den), (2, 2));
    let g = bestiary.completion_percent(6);
    assert_eq!((g.num, g.den), (3, 6));
}

#[test]
fn empty_item_panel_says_no_items() {
    let data = registry();
    let party = Party::default();
    assert_eq!(item_panel_lines(&Vec::new(), 0, &party, &data), vec!["No items".to_string()]);
}

#[test]
fn item_panel_marks_the_selected_item() {
    let data = registry();
    let mut party = Party::default();
    party.inventory.push("herb".to_string());
    party.inventory.push("herb".to_string());
    party.inventory.push("elixir".to_string());
    let ids = vec!["elixir".to_string(), "herb".to_string()];
    let lines = item_panel_lines(&ids, 1, &party, &data);
    assert_eq!(lines.len(), 2);
    assert_eq!(lines[0], "  Unknown Item (elixir) x1 - No description available.");
    assert_eq!(lines[1], "> Unknown Item (herb) x2 - No description available.");
}

#[test]
fn equipment_panel_lists_each_active_member() {
    let data = registry();
    let party = Party::default();
    let lines = equipment_panel_lines(&party, &data);
    assert_eq!(
        lines,
        vec![
            "Party Equipment:".to_string(),
            "  Isaac: [Weapon: --] [Armor: --] [Shield: --] [Accessory: --]".to_string(),
        ]
    );
}

#[test]
fn unit_chooser_marks_the_cursor() {
    let data = registry();
    let mut party = Party::default();
    party.active.push("ghost".to_string());
    let lines = unit_select_lines(&party, &data, 1);
    assert_eq!(lines, vec!["Select party member:".to_string(), "  Isaac".to_string(), "> ghost".to_string()]);
}

#[test]
fn party_panel_separates_the_bench() {
    let data = registry();
    let mut party = Party::default();
    party.bench.push("wind_seer".to_string());
    let lines = party_panel_lines(&party, &data, 1);
    assert_eq!(
        lines,
        vec![
            "Party Members:".to_string(),
            "  Isaac  Lv.1  Venus  Warrior".to_string(),
            "--- Bench ---".to_string(),
            "> Karis  Lv.1  Venus  Warrior".to_string(),
        ]
    );
    let empty = Party { active: Vec::new(), ..Party::default() };
    assert_eq!(party_panel_lines(&empty, &data, 0), vec!["Party Members:".to_string(), "No party members".to_string()]);
}

#[test]
fn battle_panels_show_names_and_points() {
    let units = vec![display("Slime", 12, 5)];
    let enemy = unit_panel_lines(&units, true);
    assert_eq!(enemy, vec![vec!["v".to_string(), "Slime".to_string(), "12/100".to_string()]]);
    let member = unit_panel_lines(&units, false);
    assert_eq!(member, vec![vec!["Slime".to_string(), "HP 12/100".to_string(), "PP 5/30".to_string()]]);
}

#[test]
fn innkeeper_heals_the_party_for_a_fee() {
    let data = registry();
    let mut party = Party::default();
    party.gold = 15;
    party.unit_hp_pp.insert("adept", (3, 1));
    let mut npc = villager();
    npc.innkeeper = Some(10);
    let mut shop = CurrentShop::default();
    let next = finish_dialog(&npc, &mut party, &data, &mut shop);
    assert_eq!(next, None);
    assert_eq!(party.gold, 5);
    assert_eq!(party.unit_hp_pp.get("adept"), Some(&(120, 25)));
    let again = finish_dialog(&npc, &mut party, &data, &mut shop);
    assert_eq!(again, None);
    assert_eq!(party.gold, 5);
}

#[test]
fn elder_recruit_and_inn_take_effect_together() {
    let data = registry();
    let mut party = Party::default();
    party.gold = 50;
    let mut npc = villager();
    npc.elder = true;
    npc.recruit = Some("wind_seer".to_string());
    npc.innkeeper = Some(20);
    let mut shop = CurrentShop::default();
    finish_dialog(&npc, &mut party, &data, &mut shop);
    assert!(party.has_flag(story::TALKED_TO_ELDER));
    assert!(party.has_flag(story::RECRUITED_KARIS));
    assert_eq!(party.active, vec!["adept".to_string(), "wind_seer".to_string()]);
    assert_eq!(party.gold, 30);
    assert_eq!(party.unit_hp_pp.get("wind_seer"), Some(&(90, 40)));
}

#[test]
fn weather_choice_never_moves_back_as_the_roll_grows() {
    let w = ZoneWeatherWeights { clear: 50, rain: 0, snow: 5, fog: 15, sandstorm: 10 };
    let order = |x: Weather| match x {
        Weather::Clear => 0,
        Weather::Rain => 1,
        Weather::Snow => 2,
        Weather::Fog => 3,
        Weather::Sandstorm => 4,
    };
    let mut last = 0;
    for roll in 0..100u64 {
        let picked = w.select(roll, 100);
        assert_ne!(picked, Weather::Rain);
        assert!(order(picked) >= last);
        last = order(picked);
    }
    assert_eq!(w.select(0, 100), Weather::Clear);
    assert_eq!(w.select(99, 100), Weather::Sandstorm);
}
