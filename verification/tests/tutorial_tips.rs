use vale_village::core_plugin::GameState;
use vale_village::ui::tutorial::{
    queue_tutorial_tip, request_tutorial_tip, tick_tutorial_tip, tutorial_key_for_state, tutorial_tips,
    PendingTutorialTip, TutorialSettings, TutorialState,
};

#[test]
fn tutorial_state_default_has_no_shown_tips() {
    let state = TutorialState::default();
    assert!(state.shown.is_empty());
    assert!(!state.was_shown("welcome"));
    assert!(!state.was_shown("first_battle"));
}

#[test]
fn tutorial_state_mark_shown_records_tip() {
    let mut state = TutorialState::default();
    assert!(!state.was_shown("welcome"));
    state.mark_shown("welcome");
    assert!(state.was_shown("welcome"));
    assert!(!state.was_shown("first_battle"));
}

#[test]
fn tutorial_state_mark_shown_is_idempotent() {
    let mut state = TutorialState::default();
    state.mark_shown("welcome");
    state.mark_shown("welcome");
    assert!(state.was_shown("welcome"));
    assert_eq!(state.shown.len(), 1);
}

#[test]
fn tutorial_state_tracks_multiple_tips() {
    let mut state = TutorialState::default();
    state.mark_shown("welcome");
    state.mark_shown("first_battle");
    state.mark_shown("first_shop");
    assert!(state.was_shown("welcome"));
    assert!(state.was_shown("first_battle"));
    assert!(state.was_shown("first_shop"));
    assert!(!state.was_shown("first_djinn"));
    assert!(!state.was_shown("tower_intro"));
    assert_eq!(state.shown.len(), 3);
}

#[test]
fn tutorial_settings_enabled_by_default() {
    let settings = TutorialSettings::default();
    assert!(settings.enabled);
}

#[test]
fn tutorial_settings_can_be_disabled() {
    let settings = TutorialSettings { enabled: false };
    assert!(!settings.enabled);
}

#[test]
fn all_tutorial_tips_have_unique_keys() {
    let mut keys = std::collections::HashSet::new();
    for tip in tutorial_tips() {
        assert!(keys.insert(tip.key), "Duplicate tutorial tip key: {}", tip.key);
    }
}

#[test]
fn all_tutorial_tips_have_nonempty_messages() {
    for tip in tutorial_tips() {
        assert!(!tip.message.is_empty(), "Tutorial tip '{}' has an empty message", tip.key);
    }
}

#[test]
fn all_tutorial_tips_have_positive_duration() {
    for tip in tutorial_tips() {
        assert!(tip.duration_ms > 0, "Tutorial tip '{}' has non-positive duration", tip.key);
    }
}

#[test]
fn expected_tutorial_tips_exist() {
    let tips = tutorial_tips();
    for key in &["welcome", "first_battle", "first_shop", "first_djinn", "tower_intro"] {
        assert!(tips.iter().any(|t| t.key == *key), "Missing expected tutorial tip: {}", key);
    }
}

#[test]
fn queue_tip_marks_state_as_shown() {
    let mut state = TutorialState::default();
    let settings = TutorialSettings { enabled: true };
    assert!(!state.was_shown("welcome"));
    let tip = queue_tutorial_tip("welcome", &mut state, &settings);
    assert!(tip.is_some());
    assert!(state.was_shown("welcome"));
    let again = queue_tutorial_tip("welcome", &mut state, &settings);
    assert!(again.is_none());
}

#[test]
fn queue_tip_respects_disabled_setting() {
    let mut state = TutorialState::default();
    let settings = TutorialSettings { enabled: false };
    let tip = queue_tutorial_tip("welcome", &mut state, &settings);
    assert!(tip.is_none());
    assert!(!state.was_shown("welcome"));
    assert!(state.shown.is_empty());
}

#[test]
fn dismiss_logic_auto_dismiss_after_duration() {
    let mut pending = PendingTutorialTip {
        key: "welcome".to_string(),
        message: "Test message".to_string(),
        elapsed_ms: 0,
        duration_ms: 6000,
    };
    assert!(pending.elapsed_ms < pending.duration_ms);
    assert!(!tick_tutorial_tip(&mut pending, 3000, false));
    assert!(pending.elapsed_ms < pending.duration_ms);
    assert!(tick_tutorial_tip(&mut pending, 3000, false));
    assert!(pending.elapsed_ms >= pending.duration_ms);
}

#[test]
fn dismiss_logic_manual_dismiss_anytime() {
    let mut pending = PendingTutorialTip {
        key: "first_battle".to_string(),
        message: "Test".to_string(),
        elapsed_ms: 500,
        duration_ms: 7000,
    };
    let dismissed = tick_tutorial_tip(&mut pending, 0, true);
    assert!(dismissed);
    assert!(pending.elapsed_ms < pending.duration_ms);
}

#[test]
fn queued_tip_carries_its_message_and_duration() {
    let mut state = TutorialState::default();
    let settings = TutorialSettings::default();
    let tip = request_tutorial_tip("first_battle", &mut state, &settings).unwrap();
    assert_eq!(tip.key, "first_battle");
    assert!(tip.message.starts_with("Choose your actions wisely!"));
    assert_eq!(tip.duration_ms, 7000);
    assert_eq!(tip.elapsed_ms, 0);
}

#[test]
fn unknown_tip_is_not_queued_or_recorded() {
    let mut state = TutorialState::default();
    let settings = TutorialSettings::default();
    assert!(queue_tutorial_tip("no_such_tip", &mut state, &settings).is_none());
    assert!(state.shown.is_empty());
}

#[test]
fn screens_ask_for_their_first_visit_tip() {
    assert_eq!(tutorial_key_for_state(GameState::Overworld), Some("welcome"));
    assert_eq!(tutorial_key_for_state(GameState::Battle), Some("first_battle"));
    assert_eq!(tutorial_key_for_state(GameState::Shop), Some("first_shop"));
    assert_eq!(tutorial_key_for_state(GameState::Paused), None);
}
