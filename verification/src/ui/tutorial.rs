//! First-time tips: each tip is shown at most once, and only while tips are
//! enabled.

use crate::core_plugin::GameState;
use crate::strmap::StrMap;
use vstd::prelude::*;

verus! {

/// A tip that can be shown.
pub struct TutorialTipDef {
    pub key: &'static str,
    pub message: &'static str,
    /// The screen on which the tip is meant to appear.
    pub trigger_state: GameState,
    pub duration_ms: u32,
}

/// The tips, in order: (key, message, screen, duration in milliseconds).
pub open spec fn tip_table() -> Seq<(Seq<char>, Seq<char>, GameState, u32)> {
    seq![
        (
            "welcome"@,
            "Welcome to Vale Village! Use arrow keys to move. Talk to NPCs with Enter."@,
            GameState::Overworld,
            6000u32,
        ),
        (
            "first_battle"@,
            "Choose your actions wisely! Attack deals physical damage. Psynergy uses PP for magical abilities."@,
            GameState::Battle,
            7000u32,
        ),
        (
            "first_shop"@,
            "Buy equipment to power up your party. Sell items you don't need for gold."@,
            GameState::Shop,
            6000u32,
        ),
        (
            "first_djinn"@,
            "Djinn boost your stats and can be summoned for powerful attacks in battle!"@,
            GameState::Battle,
            6000u32,
        ),
        (
            "tower_intro"@,
            "The Sol Sanctum Tower has 10 floors of increasing difficulty. Prepare well!"@,
            GameState::Overworld,
            6000u32,
        ),
    ]
}

pub open spec fn tip_is(d: TutorialTipDef, i: int) -> bool {
    &&& d.key@ == tip_table()[i].0
    &&& d.message@ == tip_table()[i].1
    &&& d.trigger_state == tip_table()[i].2
    &&& d.duration_ms == tip_table()[i].3
}

/// All tips, in table order.
pub fn tutorial_tips() -> (tips: Vec<TutorialTipDef>)
    ensures
        tips@.len() == tip_table().len(),
        forall|i: int| 0 <= i < tips@.len() ==> tip_is(#[trigger] tips@[i], i),
{
    let mut tips: Vec<TutorialTipDef> = Vec::new();
    tips.push(TutorialTipDef {
        key: "welcome",
        message: "Welcome to Vale Village! Use arrow keys to move. Talk to NPCs with Enter.",
        trigger_state: GameState::Overworld,
        duration_ms: 6000,
    });
    tips.push(TutorialTipDef {
        key: "first_battle",
        message: "Choose your actions wisely! Attack deals physical damage. Psynergy uses PP for magical abilities.",
        trigger_state: GameState::Battle,
        duration_ms: 7000,
    });
    tips.push(TutorialTipDef {
        key: "first_shop",
        message: "Buy equipment to power up your party. Sell items you don't need for gold.",
        trigger_state: GameState::Shop,
        duration_ms: 6000,
    });
    tips.push(TutorialTipDef {
        key: "first_djinn",
        message: "Djinn boost your stats and can be summoned for powerful attacks in battle!",
        trigger_state: GameState::Battle,
        duration_ms: 6000,
    });
    tips.push(TutorialTipDef {
        key: "tower_intro",
        message: "The Sol Sanctum Tower has 10 floors of increasing difficulty. Prepare well!",
        trigger_state: GameState::Overworld,
        duration_ms: 6000,
    });
    tips
}

/// Position of the first tip with `key`, if any.
pub open spec fn tip_index(key: Seq<char>) -> Option<int> {
    if exists|i: int| 0 <= i < tip_table().len() && tip_table()[i].0 == key {
        Some(choose|i: int| 0 <= i < tip_table().len() && tip_table()[i].0 == key
            && forall|j: int| 0 <= j < i ==> tip_table()[j].0 != key)
    } else {
        None
    }
}

/// The tip registered under `key`, if any.
pub fn find_tip(key: &str) -> (r: Option<TutorialTipDef>)
    ensures
        match r {
            Some(d) => exists|i: int| 0 <= i < tip_table().len() && tip_is(d, i) && tip_table()[i].0 == key@
                && forall|j: int| 0 <= j < i ==> tip_table()[j].0 != key@,
            None => forall|i: int| 0 <= i < tip_table().len() ==> tip_table()[i].0 != key@,
        },
{
    let mut tips = tutorial_tips();
    let mut i: usize = 0;
    while i < tips.len()
        invariant
            tips@.len() == tip_table().len(),
            forall|k: int| 0 <= k < tips@.len() ==> tip_is(#[trigger] tips@[k], k),
            i <= tips@.len(),
            forall|j: int| 0 <= j < i ==> tip_table()[j].0 != key@,
        decreases tips@.len() - i,
    {
        if crate::text::str_eq(tips[i].key, key) {
            let ghost k = i as int;
            assert(tip_is(tips@[k], k));
            let d = tips.swap_remove(i);
            return Some(d);
        }
        i = i + 1;
    }
    None
}

/// Which tips have been shown.
pub struct TutorialState {
    /// Tip key -> whether it has been shown.
    pub shown: StrMap<bool>,
}

impl Default for TutorialState {
    /// No tip shown yet.
    fn default() -> (s: Self)
        ensures
            s.shown.wf(),
            s.shown@ == Map::<Seq<char>, bool>::empty(),
            s.shown.size() == 0,
    {
        TutorialState { shown: StrMap::new() }
    }
}

/// Whether tip `key` has been shown, by the record `shown`.
pub open spec fn shown_in(shown: Map<Seq<char>, bool>, key: Seq<char>) -> bool {
    shown.contains_key(key) && shown[key]
}

impl TutorialState {
    /// Records a tip as shown so it won't be displayed again.
    pub fn mark_shown(&mut self, key: &str)
        requires
            old(self).shown.wf(),
        ensures
            final(self).shown.wf(),
            final(self).shown@ == old(self).shown@.insert(key@, true),
    {
        self.shown.insert(key, true);
    }

    /// Whether the tip has been shown already.
    pub fn was_shown(&self, key: &str) -> (b: bool)
        requires
            self.shown.wf(),
        ensures
            b == shown_in(self.shown@, key@),
    {
        match self.shown.get(key) {
            Some(v) => *v,
            None => false,
        }
    }
}

/// The player's choice to see tips at all.
#[derive(Clone, Copy, Debug, PartialEq, Eq, Structural)]
pub struct TutorialSettings {
    pub enabled: bool,
}

impl Default for TutorialSettings {
    /// Tips are on.
    fn default() -> (s: Self)
        ensures
            s.enabled,
    {
        TutorialSettings { enabled: true }
    }
}

/// A tip on screen, counting towards its dismissal.
#[derive(Clone, Debug)]
pub struct PendingTutorialTip {
    pub key: String,
    pub message: String,
    /// How long the tip has been visible.
    pub elapsed_ms: u32,
    /// How long it stays before it goes away by itself.
    pub duration_ms: u32,
}

/// Whether asking for tip `key` shows it: tips are enabled, the tip has not
/// been shown, and a tip with that key exists.
pub open spec fn tip_would_show(shown: Map<Seq<char>, bool>, enabled: bool, key: Seq<char>) -> bool {
    enabled && !shown_in(shown, key) && tip_index(key) is Some
}

/// Asks for tip `key`: when tips are enabled, the tip has not been shown and
/// it exists, it is recorded as shown and returned, ready to be displayed
/// from the start of its duration; otherwise nothing changes.
pub fn queue_tutorial_tip(key: &str, tutorial_state: &mut TutorialState, settings: &TutorialSettings) -> (r: Option<PendingTutorialTip>)
    requires
        old(tutorial_state).shown.wf(),
    ensures
        final(tutorial_state).shown.wf(),
        r is Some <==> tip_would_show(old(tutorial_state).shown@, settings.enabled, key@),
        r is None ==> final(tutorial_state).shown@ == old(tutorial_state).shown@,
        r matches Some(p) ==> {
            &&& final(tutorial_state).shown@ == old(tutorial_state).shown@.insert(key@, true)
            &&& p.key@ == key@
            &&& p.message@ == tip_table()[tip_index(key@)->0].1
            &&& p.duration_ms == tip_table()[tip_index(key@)->0].3
            &&& p.elapsed_ms == 0
        },
{
    if !settings.enabled {
        return None;
    }
    if tutorial_state.was_shown(key) {
        return None;
    }
    let def = match find_tip(key) {
        Some(d) => d,
        None => {
            return None;
        },
    };
    proof {
        let i = choose|i: int| 0 <= i < tip_table().len() && tip_is(def, i) && tip_table()[i].0 == key@
            && forall|j: int| 0 <= j < i ==> tip_table()[j].0 != key@;
        let c = tip_index(key@)->0;
        assert(tip_is(def, i));
        if c < i {
            assert(tip_table()[c].0 != key@);
        } else if i < c {
            assert(tip_table()[i].0 != key@);
        }
    }
    tutorial_state.mark_shown(key);
    Some(PendingTutorialTip {
        key: key.to_owned(),
        message: def.message.to_owned(),
        elapsed_ms: 0,
        duration_ms: def.duration_ms,
    })
}

/// Lets other screens ask for a tip by key; the same as queueing it.
pub fn request_tutorial_tip(key: &str, tutorial_state: &mut TutorialState, settings: &TutorialSettings) -> (r: Option<PendingTutorialTip>)
    requires
        old(tutorial_state).shown.wf(),
    ensures
        final(tutorial_state).shown.wf(),
        r is Some <==> tip_would_show(old(tutorial_state).shown@, settings.enabled, key@),
        r is None ==> final(tutorial_state).shown@ == old(tutorial_state).shown@,
        r matches Some(p) ==> {
            &&& final(tutorial_state).shown@ == old(tutorial_state).shown@.insert(key@, true)
            &&& p.key@ == key@
            &&& p.message@ == tip_table()[tip_index(key@)->0].1
            &&& p.duration_ms == tip_table()[tip_index(key@)->0].3
            &&& p.elapsed_ms == 0
        },
{
    queue_tutorial_tip(key, tutorial_state, settings)
}

/// A tip that has been shown once is never shown again: after a request that
/// showed tip `key`, asking for it again shows nothing.
pub proof fn lemma_tip_shown_once(before: Map<Seq<char>, bool>, after: Map<Seq<char>, bool>, enabled: bool, key: Seq<char>)
    requires
        tip_would_show(before, enabled, key),
        after == before.insert(key, true),
    ensures
        !tip_would_show(after, enabled, key),
{
}

/// The tip a screen shows on the first visit: the welcome tip in the
/// overworld, the first-battle tip in battle, the shop tip in a shop.
pub fn tutorial_key_for_state(state: GameState) -> (key: Option<&'static str>)
    ensures
        state == GameState::Overworld ==> (key matches Some(k) && k@ == "welcome"@),
        state == GameState::Battle ==> (key matches Some(k) && k@ == "first_battle"@),
        state == GameState::Shop ==> (key matches Some(k) && k@ == "first_shop"@),
        !(state == GameState::Overworld || state == GameState::Battle || state == GameState::Shop) ==> key is None,
{
    match state {
        GameState::Overworld => Some("welcome"),
        GameState::Battle => Some("first_battle"),
        GameState::Shop => Some("first_shop"),
        _ => None,
    }
}

/// Advances a shown tip by `delta_ms` and says whether it goes away now: when
/// the player dismisses it, or once it has been up for its duration.
pub fn tick_tutorial_tip(pending: &mut PendingTutorialTip, delta_ms: u32, manual_dismiss: bool) -> (dismiss: bool)
    ensures
        final(pending).key == old(pending).key,
        final(pending).message == old(pending).message,
        final(pending).duration_ms == old(pending).duration_ms,
        final(pending).elapsed_ms == if old(pending).elapsed_ms + delta_ms > u32::MAX {
            u32::MAX as int
        } else {
            old(pending).elapsed_ms + delta_ms
        },
        dismiss == (manual_dismiss || final(pending).elapsed_ms >= final(pending).duration_ms),
{
    pending.elapsed_ms = pending.elapsed_ms.saturating_add(delta_ms);
    manual_dismiss || pending.elapsed_ms >= pending.duration_ms
}

} // verus!
