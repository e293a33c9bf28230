use vale_village::core_plugin::story;
use vale_village::core_plugin::Party;
use vale_village::overworld::npcs::{elder_dialog_lines, fortune_teller_dialog_lines};

#[test]
fn elder_dialog_default_no_flags() {
    let party = Party::default();
    let lines = elder_dialog_lines(&party);
    assert_eq!(lines.len(), 1);
    assert!(lines[0].contains("Seek allies"));
}

#[test]
fn elder_dialog_after_partial_recruit() {
    let mut party = Party::default();
    party.set_flag(story::RECRUITED_KARIS, true);
    party.set_flag(story::RECRUITED_TYRELL, true);
    let lines = elder_dialog_lines(&party);
    assert!(lines[0].contains("Seek allies"));
}

#[test]
fn elder_dialog_all_recruited() {
    let mut party = Party::default();
    party.set_flag(story::RECRUITED_KARIS, true);
    party.set_flag(story::RECRUITED_TYRELL, true);
    party.set_flag(story::RECRUITED_AMITI, true);
    let lines = elder_dialog_lines(&party);
    assert!(lines[0].contains("Tower of Trials"));
}

#[test]
fn elder_dialog_tower_entered() {
    let mut party = Party::default();
    party.set_flag(story::RECRUITED_KARIS, true);
    party.set_flag(story::RECRUITED_TYRELL, true);
    party.set_flag(story::RECRUITED_AMITI, true);
    party.set_flag(story::TOWER_ENTERED, true);
    let lines = elder_dialog_lines(&party);
    assert!(lines[0].contains("Floor 5"));
}

#[test]
fn elder_dialog_tower_completed() {
    let mut party = Party::default();
    party.set_flag(story::TOWER_COMPLETED, true);
    let lines = elder_dialog_lines(&party);
    assert!(lines[0].contains("conquered the Tower"));
}

#[test]
fn elder_dialog_tower_completed_overrides_entered() {
    let mut party = Party::default();
    party.set_flag(story::TOWER_ENTERED, true);
    party.set_flag(story::TOWER_COMPLETED, true);
    let lines = elder_dialog_lines(&party);
    assert!(lines[0].contains("conquered the Tower"));
}

#[test]
fn fortune_teller_default_no_flags() {
    let party = Party::default();
    let lines = fortune_teller_dialog_lines(&party);
    assert_eq!(lines.len(), 3);
    assert!(lines[0].contains("expecting you"));
    assert!(lines[2].contains("Elder"));
}

#[test]
fn fortune_teller_after_talked_to_elder() {
    let mut party = Party::default();
    party.set_flag(story::TALKED_TO_ELDER, true);
    let lines = fortune_teller_dialog_lines(&party);
    assert_eq!(lines.len(), 3);
    assert!(lines[1].contains("companions"));
}

#[test]
fn fortune_teller_after_first_battle() {
    let mut party = Party::default();
    party.set_flag(story::FIRST_BATTLE_WON, true);
    let lines = fortune_teller_dialog_lines(&party);
    assert_eq!(lines.len(), 3);
    assert!(lines[0].contains("mark of battle"));
}

#[test]
fn fortune_teller_tower_entered() {
    let mut party = Party::default();
    party.set_flag(story::TOWER_ENTERED, true);
    let lines = fortune_teller_dialog_lines(&party);
    assert_eq!(lines.len(), 3);
    assert!(lines[0].contains("tower has tasted"));
}

#[test]
fn fortune_teller_tower_floor_5() {
    let mut party = Party::default();
    party.set_flag(story::TOWER_FLOOR_5, true);
    let lines = fortune_teller_dialog_lines(&party);
    assert_eq!(lines.len(), 3);
    assert!(lines[0].contains("guardian"));
    assert!(lines[2].contains("balance of elements"));
}

#[test]
fn fortune_teller_tower_completed() {
    let mut party = Party::default();
    party.set_flag(story::TOWER_COMPLETED, true);
    let lines = fortune_teller_dialog_lines(&party);
    assert_eq!(lines.len(), 3);
    assert!(lines[0].contains("great trial is behind you"));
    assert!(lines[2].contains("Greater trials"));
}

#[test]
fn fortune_teller_completed_overrides_floor_5() {
    let mut party = Party::default();
    party.set_flag(story::TOWER_FLOOR_5, true);
    party.set_flag(story::TOWER_COMPLETED, true);
    let lines = fortune_teller_dialog_lines(&party);
    assert!(lines[0].contains("great trial is behind you"));
}

#[test]
fn fortune_teller_tower_entered_overrides_first_battle() {
    let mut party = Party::default();
    party.set_flag(story::FIRST_BATTLE_WON, true);
    party.set_flag(story::TOWER_ENTERED, true);
    let lines = fortune_teller_dialog_lines(&party);
    assert!(lines[0].contains("tower has tasted"));
}
