//! The battle screen: what it lists, how the action and target menus react
//! to keys, and the texts it shows.

use crate::core_plugin::GameState;
use crate::data::{
    BattleAction, BattlePhase, BattleRewards, BattleUnit, CommandMenu, CommandSelectState, Element,
    LevelUpEvent, UnitSide,
};
use crate::text::{decimal, join, joined, push_decimal, push_signed, signed_decimal, string_seq};
use crate::timer::OnceTimer;
use crate::ui::{move_cursor, moved_cursor};
use vstd::prelude::*;

verus! {

broadcast use vstd::string::group_string_axioms;

/// Entries of the action menu: Fight, Djinn, Item, Defend, Flee.
pub const ACTION_COUNT: usize = 5;
/// Delay between two cursor moves in battle, in milliseconds.
pub const BATTLE_COOLDOWN_MS: u32 = 120;
/// How long a battle message stays, in milliseconds.
pub const BATTLE_MESSAGE_MS: u32 = 2000;

/// Labels of the action menu, in order.
pub fn action_labels() -> (items: Vec<&'static str>)
    ensures
        items@.len() == ACTION_COUNT,
        items@[0]@ == "Fight"@,
        items@[1]@ == "Djinn"@,
        items@[2]@ == "Item"@,
        items@[3]@ == "Defend"@,
        items@[4]@ == "Flee"@,
{
    let mut v: Vec<&'static str> = Vec::new();
    v.push("Fight");
    v.push("Djinn");
    v.push("Item");
    v.push("Defend");
    v.push("Flee");
    v
}

/// What the battle screen shows of a combatant.
#[derive(Clone, Debug)]
pub struct BattleDisplayUnit {
    pub id: u32,
    pub name: String,
    pub hp: i32,
    pub max_hp: i32,
    pub pp: i32,
    pub max_pp: i32,
    pub element: Element,
    pub alive: bool,
}

/// `d` shows combatant `u`; a combatant is alive while it has hit points.
pub open spec fn shows(d: BattleDisplayUnit, u: BattleUnit) -> bool {
    &&& d.id == u.id
    &&& d.name@ == u.name@
    &&& d.hp == u.hp
    &&& d.max_hp == u.max_hp
    &&& d.pp == u.pp
    &&& d.max_pp == u.max_pp
    &&& d.element == u.element
    &&& d.alive == (u.hp > 0)
}

impl BattleDisplayUnit {
    /// The display of a combatant.
    pub fn from_unit(unit: &BattleUnit) -> (d: Self)
        ensures
            shows(d, *unit),
    {
        BattleDisplayUnit {
            id: unit.id,
            name: unit.name.clone(),
            hp: unit.hp,
            max_hp: unit.max_hp,
            pp: unit.pp,
            max_pp: unit.max_pp,
            element: unit.element,
            alive: unit.hp > 0,
        }
    }
}

/// The combatants of one side among the first `n`, in the order given.
pub open spec fn side_prefix(units: Seq<BattleUnit>, side: UnitSide, n: int) -> Seq<BattleUnit>
    decreases n,
{
    if n <= 0 {
        Seq::empty()
    } else if units[n - 1].side == side {
        side_prefix(units, side, n - 1).push(units[n - 1])
    } else {
        side_prefix(units, side, n - 1)
    }
}

/// The combatants of one side, in the order given.
pub open spec fn of_side(units: Seq<BattleUnit>, side: UnitSide) -> Seq<BattleUnit> {
    side_prefix(units, side, units.len() as int)
}

/// `d` inserted into `s` after every entry whose ID is not larger.
pub open spec fn sorted_insert(s: Seq<BattleUnit>, d: BattleUnit) -> Seq<BattleUnit>
    decreases s.len(),
{
    if s.len() == 0 || s.last().id <= d.id {
        s.push(d)
    } else {
        sorted_insert(s.drop_last(), d).push(s.last())
    }
}

/// `s` sorted by ID, entries with equal IDs keeping their order.
pub open spec fn sort_by_id(s: Seq<BattleUnit>) -> Seq<BattleUnit>
    decreases s.len(),
{
    if s.len() == 0 {
        s
    } else {
        sorted_insert(sort_by_id(s.drop_last()), s.last())
    }
}

pub open spec fn ids_sorted(s: Seq<BattleUnit>) -> bool {
    forall|i: int, j: int| 0 <= i < j < s.len() ==> s[i].id <= s[j].id
}

proof fn lemma_sorted_insert_at(s: Seq<BattleUnit>, d: BattleUnit, p: int)
    requires
        0 <= p <= s.len(),
        forall|k: int| p <= k < s.len() ==> s[k].id > d.id,
        p == 0 || s[p - 1].id <= d.id,
    ensures
        sorted_insert(s, d) == s.take(p).push(d) + s.skip(p),
    decreases s.len(),
{
    if s.len() == 0 || s.last().id <= d.id {
        assert(p == s.len());
        assert(s.take(p) =~= s);
        assert(s.skip(p) =~= Seq::<BattleUnit>::empty());
        assert(s.take(p).push(d) + s.skip(p) =~= s.push(d));
    } else {
        lemma_sorted_insert_at(s.drop_last(), d, p);
        assert(s.drop_last().take(p) =~= s.take(p));
        assert(s.drop_last().skip(p).push(s.last()) =~= s.skip(p));
        assert(sorted_insert(s, d) =~= s.take(p).push(d) + s.skip(p));
    }
}

/// Sorting by ID keeps the list sorted.
pub proof fn lemma_sort_by_id_sorted(s: Seq<BattleUnit>)
    ensures
        ids_sorted(sort_by_id(s)),
        sort_by_id(s).len() == s.len(),
    decreases s.len(),
{
    if s.len() > 0 {
        lemma_sort_by_id_sorted(s.drop_last());
        let t = sort_by_id(s.drop_last());
        lemma_sorted_insert_sorted(t, s.last());
    }
}

proof fn lemma_sorted_insert_sorted(s: Seq<BattleUnit>, d: BattleUnit)
    requires
        ids_sorted(s),
    ensures
        ids_sorted(sorted_insert(s, d)),
        sorted_insert(s, d).len() == s.len() + 1,
        forall|k: int| 0 <= k < sorted_insert(s, d).len() ==> (#[trigger] sorted_insert(s, d)[k]).id == d.id
            || exists|j: int| 0 <= j < s.len() && s[j].id == sorted_insert(s, d)[k].id,
    decreases s.len(),
{
    if s.len() == 0 || s.last().id <= d.id {
        let r = s.push(d);
        assert forall|k: int| 0 <= k < r.len() implies (#[trigger] r[k]).id == d.id || exists|j: int| 0 <= j < s.len() && s[j].id == r[k].id by {
            if k < s.len() {
                assert(s[k].id == r[k].id);
            }
        }
    } else {
        let t = s.drop_last();
        lemma_sorted_insert_sorted(t, d);
        let u = sorted_insert(t, d);
        let r = u.push(s.last());
        assert forall|i: int, j: int| 0 <= i < j < r.len() implies r[i].id <= r[j].id by {
            if j == r.len() - 1 && i < u.len() {
                if u[i].id != d.id {
                    let m = choose|m: int| 0 <= m < t.len() && t[m].id == u[i].id;
                    assert(s[m].id <= s[s.len() - 1].id);
                }
            }
        }
        assert forall|k: int| 0 <= k < r.len() implies (#[trigger] r[k]).id == d.id || exists|j: int| 0 <= j < s.len() && s[j].id == r[k].id by {
            if k < u.len() {
                if u[k].id != d.id {
                    let m = choose|m: int| 0 <= m < t.len() && t[m].id == u[k].id;
                    assert(s[m].id == r[k].id);
                }
            } else {
                assert(s[s.len() - 1].id == r[k].id);
            }
        }
    }
}

/// The combatants of a side, sorted by ID (equal IDs in the given order),
/// as the battle screen lists them.
pub fn side_display(units: &Vec<BattleUnit>, side: UnitSide) -> (r: Vec<BattleDisplayUnit>)
    ensures
        r@.len() == sort_by_id(of_side(units@, side)).len(),
        forall|i: int| 0 <= i < r@.len() ==> shows(#[trigger] r@[i], sort_by_id(of_side(units@, side))[i]),
{
    let mut sorted: Vec<BattleDisplayUnit> = Vec::new();
    let ghost mut model: Seq<BattleUnit> = Seq::empty();
    let mut i: usize = 0;
    while i < units.len()
        invariant
            i <= units@.len(),
            model == sort_by_id(side_prefix(units@, side, i as int)),
            sorted@.len() == model.len(),
            forall|k: int| 0 <= k < sorted@.len() ==> shows(#[trigger] sorted@[k], model[k]),
        decreases units@.len() - i,
    {
        if units[i].side == side {
            let u = &units[i];
            let mut p: usize = sorted.len();
            while p > 0 && sorted[p - 1].id > u.id
                invariant
                    p <= sorted@.len(),
                    sorted@.len() == model.len(),
                    forall|k: int| 0 <= k < sorted@.len() ==> shows(#[trigger] sorted@[k], model[k]),
                    forall|k: int| p <= k < model.len() ==> model[k].id > u.id,
                decreases p,
            {
                assert(shows(sorted@[p - 1], model[p - 1]));
                p = p - 1;
            }
            proof {
                if p > 0 {
                    assert(shows(sorted@[p - 1], model[p - 1]));
                }
                lemma_sorted_insert_at(model, *u, p as int);
                let sp = side_prefix(units@, side, i as int);
                assert(side_prefix(units@, side, i + 1) == sp.push(*u));
                assert(sp.push(*u).drop_last() =~= sp);
                assert(sort_by_id(sp.push(*u)) == sorted_insert(sort_by_id(sp), *u));
            }
            let d = BattleDisplayUnit::from_unit(u);
            let ghost before = sorted@;
            sorted.insert(p, d);
            proof {
                let nm = model.take(p as int).push(*u) + model.skip(p as int);
                assert forall|k: int| 0 <= k < sorted@.len() implies shows(#[trigger] sorted@[k], nm[k]) by {
                    if k < p {
                        assert(sorted@[k] == before[k]);
                    } else if k > p {
                        assert(sorted@[k] == before[k - 1]);
                        assert(nm[k] == model[k - 1]);
                    }
                }
                model = nm;
            }
        }
        i = i + 1;
    }
    sorted
}

/// Positions of the enemies still standing, in order.
pub open spec fn alive_positions(enemies: Seq<BattleDisplayUnit>, n: int) -> Seq<usize>
    decreases n,
{
    if n <= 0 {
        Seq::empty()
    } else if enemies[n - 1].alive {
        alive_positions(enemies, n - 1).push((n - 1) as usize)
    } else {
        alive_positions(enemies, n - 1)
    }
}

pub fn alive_indices(enemies: &Vec<BattleDisplayUnit>) -> (r: Vec<usize>)
    ensures
        r@ == alive_positions(enemies@, enemies@.len() as int),
        forall|k: int| 0 <= k < r@.len() ==> (#[trigger] r@[k]) < enemies@.len() && enemies@[r@[k] as int].alive,
{
    let mut r: Vec<usize> = Vec::new();
    let mut i: usize = 0;
    while i < enemies.len()
        invariant
            i <= enemies@.len(),
            r@ == alive_positions(enemies@, i as int),
            forall|k: int| 0 <= k < r@.len() ==> (#[trigger] r@[k]) < i && enemies@[r@[k] as int].alive,
        decreases enemies@.len() - i,
    {
        if enemies[i].alive {
            r.push(i);
        }
        i = i + 1;
    }
    r
}

/// Queues `action` for the member whose turn it is to choose, and moves on
/// to the next member with the sub-menus reset. Returns false, changing
/// nothing, when no member is left to choose.
pub fn push_pending_action(cmd_state: &mut CommandSelectState, action: BattleAction) -> (queued: bool)
    ensures
        queued == (old(cmd_state).selecting_unit_index < old(cmd_state).pending_actions@.len()),
        !queued ==> *final(cmd_state) == *old(cmd_state),
        queued ==> {
            &&& final(cmd_state).pending_actions@ == old(cmd_state).pending_actions@.update(
                old(cmd_state).selecting_unit_index as int,
                Some(action),
            )
            &&& final(cmd_state).selecting_unit_index == old(cmd_state).selecting_unit_index + 1
            &&& final(cmd_state).menu == CommandMenu::ItemSelect
            &&& final(cmd_state).cursor_index == 0
            &&& final(cmd_state).selected_ability is None
            &&& final(cmd_state).selected_djinn is None
        },
{
    let idx = cmd_state.selecting_unit_index;
    if idx < cmd_state.pending_actions.len() {
        cmd_state.pending_actions.set(idx, Some(action));
        cmd_state.selecting_unit_index = idx + 1;
        cmd_state.menu = CommandMenu::ItemSelect;
        cmd_state.cursor_index = 0;
        cmd_state.selected_ability = None;
        cmd_state.selected_djinn = None;
        true
    } else {
        false
    }
}

/// Where the battle screen's input is.
#[derive(Clone, Copy, Debug, PartialEq, Eq, Structural)]
pub enum BattleUiPhase {
    ActionSelect,
    TargetSelect,
    Animating,
    Victory,
    Defeat,
}

/// Cursors, message and cooldowns of the battle screen.
#[derive(Clone, Debug)]
pub struct BattleUiState {
    pub action_cursor: usize,
    pub target_cursor: usize,
    pub phase: BattleUiPhase,
    pub message: String,
    pub message_timer: OnceTimer,
    pub cooldown: OnceTimer,
}

impl BattleUiState {
    pub open spec fn wf(&self) -> bool {
        self.action_cursor < ACTION_COUNT && self.message_timer.wf() && self.cooldown.wf()
    }
}

impl Default for BattleUiState {
    /// Choosing an action, on Fight, no message.
    fn default() -> (s: Self)
        ensures
            s.wf(),
            s.action_cursor == 0,
            s.target_cursor == 0,
            s.phase == BattleUiPhase::ActionSelect,
            s.message@ == Seq::<char>::empty(),
            s.message_timer == (OnceTimer { duration_ms: BATTLE_MESSAGE_MS, elapsed_ms: 0 }),
            s.cooldown == (OnceTimer { duration_ms: BATTLE_COOLDOWN_MS, elapsed_ms: 0 }),
    {
        BattleUiState {
            action_cursor: 0,
            target_cursor: 0,
            phase: BattleUiPhase::ActionSelect,
            message: String::new(),
            message_timer: OnceTimer::new(BATTLE_MESSAGE_MS),
            cooldown: OnceTimer::new(BATTLE_COOLDOWN_MS),
        }
    }
}

fn queue_message(cmd_state: &mut CommandSelectState, action: BattleAction, done: &str) -> (r: (bool, String))
    ensures
        r.0 == (old(cmd_state).selecting_unit_index < old(cmd_state).pending_actions@.len()),
        r.0 ==> r.1@ == done@,
        !r.0 ==> r.1@ == "No acting unit available."@,
        !r.0 ==> *final(cmd_state) == *old(cmd_state),
        r.0 ==> {
            &&& final(cmd_state).pending_actions@ == old(cmd_state).pending_actions@.update(
                old(cmd_state).selecting_unit_index as int,
                Some(action),
            )
            &&& final(cmd_state).selecting_unit_index == old(cmd_state).selecting_unit_index + 1
            &&& final(cmd_state).menu == CommandMenu::ItemSelect
            &&& final(cmd_state).cursor_index == 0
            &&& final(cmd_state).selected_ability is None
            &&& final(cmd_state).selected_djinn is None
        },
{
    if push_pending_action(cmd_state, action) {
        (true, done.to_owned())
    } else {
        (false, "No acting unit available.".to_owned())
    }
}

/// What Enter on action `cursor` does: Fight opens target selection when
/// an enemy stands and otherwise says there are no targets; Djinn and Item
/// say they are not available; Defend and Flee queue that action.
fn action_confirm(ui: &mut BattleUiState, cmd_state: &mut CommandSelectState, enemies: &Vec<BattleDisplayUnit>)
    requires
        old(ui).wf(),
    ensures
        final(ui).wf(),
        final(ui).action_cursor == old(ui).action_cursor,
        final(ui).cooldown == old(ui).cooldown,
        final(cmd_state).menu == old(cmd_state).menu || final(cmd_state).menu == CommandMenu::ItemSelect,
        ({
            let c = old(ui).action_cursor;
            let any_alive = alive_positions(enemies@, enemies@.len() as int).len() > 0;
            let queued = final(cmd_state).selecting_unit_index != old(cmd_state).selecting_unit_index;
            &&& (c == 0 && any_alive) ==> final(ui).phase == BattleUiPhase::TargetSelect && final(ui).target_cursor == 0
                && final(ui).message == old(ui).message
            &&& !(c == 0 && any_alive) ==> final(ui).phase == old(ui).phase && final(ui).target_cursor == old(ui).target_cursor
            &&& (c == 0 && !any_alive) ==> final(ui).message@ == "No targets available."@
            &&& c == 1 ==> final(ui).message@ == "Djinn not available."@
            &&& c == 2 ==> final(ui).message@ == "Item not available."@
            &&& c == 3 ==> final(ui).message@ == (if queued { "Defend queued."@ } else { "No acting unit available."@ })
            &&& c == 4 ==> final(ui).message@ == (if queued { "Flee queued."@ } else { "No acting unit available."@ })
            &&& (c == 3 && queued) ==> final(cmd_state).pending_actions@ == old(cmd_state).pending_actions@.update(
                old(cmd_state).selecting_unit_index as int, Some(BattleAction::Defend))
            &&& (c == 4 && queued) ==> final(cmd_state).pending_actions@ == old(cmd_state).pending_actions@.update(
                old(cmd_state).selecting_unit_index as int, Some(BattleAction::Flee))
            &&& (c == 3 || c == 4) ==> (queued <==> old(cmd_state).selecting_unit_index < old(cmd_state).pending_actions@.len())
            &&& queued ==> final(cmd_state).selecting_unit_index == old(cmd_state).selecting_unit_index + 1
            &&& !(c == 3 || c == 4) ==> *final(cmd_state) == *old(cmd_state)
            &&& !queued ==> final(cmd_state).pending_actions == old(cmd_state).pending_actions
        }),
{
    match ui.action_cursor {
        0 => {
            let alive = alive_indices(enemies);
            if alive.len() == 0 {
                ui.message = "No targets available.".to_owned();
                ui.message_timer.reset();
            } else {
                ui.phase = BattleUiPhase::TargetSelect;
                ui.target_cursor = 0;
            }
        },
        1 => {
            ui.message = "Djinn not available.".to_owned();
            ui.message_timer.reset();
        },
        2 => {
            ui.message = "Item not available.".to_owned();
            ui.message_timer.reset();
        },
        3 => {
            let (_, m) = queue_message(cmd_state, BattleAction::Defend, "Defend queued.");
            ui.message = m;
            ui.message_timer.reset();
        },
        _ => {
            let (_, m) = queue_message(cmd_state, BattleAction::Flee, "Flee queued.");
            ui.message = m;
            ui.message_timer.reset();
        },
    }
}

/// One frame of the action menu while the party chooses commands. Left and
/// right move the cursor (wrapping) once the cooldown allows. Enter on
/// Fight opens target selection when an enemy stands, or says there are no
/// targets; Djinn and Item say they are not available; Defend and Flee
/// queue that action for the member choosing. Then Escape queues Flee. Each
/// message restarts the message time. In any other phase nothing happens.
pub fn battle_action_step(
    ui: &mut BattleUiState,
    cmd_state: &mut CommandSelectState,
    enemies: &Vec<BattleDisplayUnit>,
    battle_phase: BattlePhase,
    delta_ms: u32,
    left: bool,
    right: bool,
    confirm: bool,
    escape: bool,
)
    requires
        old(ui).wf(),
    ensures
        final(ui).wf(),
        !(old(ui).phase == BattleUiPhase::ActionSelect && battle_phase == BattlePhase::CommandSelect)
            ==> *final(ui) == *old(ui) && *final(cmd_state) == *old(cmd_state),
        (old(ui).phase == BattleUiPhase::ActionSelect && battle_phase == BattlePhase::CommandSelect) ==> {
            let ready = old(ui).cooldown.elapsed_ms + delta_ms >= old(ui).cooldown.duration_ms;
            let cursor = if ready {
                moved_cursor(old(ui).action_cursor as int, ACTION_COUNT as int, left, right)
            } else {
                old(ui).action_cursor as int
            };
            let any_alive = alive_positions(enemies@, enemies@.len() as int).len() > 0;
            &&& final(ui).action_cursor == cursor
            &&& (confirm && cursor == 0 && any_alive) ==> final(ui).phase == BattleUiPhase::TargetSelect && final(ui).target_cursor == 0
            &&& !(confirm && cursor == 0 && any_alive) ==> final(ui).phase == old(ui).phase && final(ui).target_cursor == old(ui).target_cursor
            &&& (!escape && confirm && cursor == 0 && !any_alive) ==> final(ui).message@ == "No targets available."@
            &&& (!escape && confirm && cursor == 1) ==> final(ui).message@ == "Djinn not available."@
            &&& (!escape && confirm && cursor == 2) ==> final(ui).message@ == "Item not available."@
            &&& (!escape && confirm && cursor == 3) ==> final(ui).message@ == (if final(cmd_state).selecting_unit_index != old(cmd_state).selecting_unit_index {
                "Defend queued."@
            } else {
                "No acting unit available."@
            })
            &&& (!escape && confirm && cursor == 4) ==> final(ui).message@ == (if final(cmd_state).selecting_unit_index != old(cmd_state).selecting_unit_index {
                "Flee queued."@
            } else {
                "No acting unit available."@
            })
            &&& (escape && !confirm) ==> final(ui).message@ == (if final(cmd_state).selecting_unit_index != old(cmd_state).selecting_unit_index {
                "Flee queued."@
            } else {
                "No acting unit available."@
            })
            &&& (!escape && !confirm) ==> final(ui).message == old(ui).message && final(cmd_state).pending_actions == old(cmd_state).pending_actions
            &&& (!escape && confirm && cursor == 3 && final(cmd_state).selecting_unit_index != old(cmd_state).selecting_unit_index) ==>
                final(cmd_state).pending_actions@ == old(cmd_state).pending_actions@.update(old(cmd_state).selecting_unit_index as int, Some(BattleAction::Defend))
            &&& (!escape && confirm && cursor == 4 && final(cmd_state).selecting_unit_index != old(cmd_state).selecting_unit_index) ==>
                final(cmd_state).pending_actions@ == old(cmd_state).pending_actions@.update(old(cmd_state).selecting_unit_index as int, Some(BattleAction::Flee))
            &&& (escape && !confirm && final(cmd_state).selecting_unit_index != old(cmd_state).selecting_unit_index) ==>
                final(cmd_state).pending_actions@ == old(cmd_state).pending_actions@.update(old(cmd_state).selecting_unit_index as int, Some(BattleAction::Flee))
            &&& (escape && !confirm) ==> (final(cmd_state).selecting_unit_index != old(cmd_state).selecting_unit_index
                <==> old(cmd_state).selecting_unit_index < old(cmd_state).pending_actions@.len())
            &&& final(cmd_state).menu == CommandMenu::ItemSelect
            &&& final(cmd_state).cursor_index == 0
        },
{
    if ui.phase != BattleUiPhase::ActionSelect || battle_phase != BattlePhase::CommandSelect {
        return;
    }
    cmd_state.menu = CommandMenu::ItemSelect;
    cmd_state.cursor_index = 0;
    ui.cooldown.tick(delta_ms);
    move_cursor(&mut ui.action_cursor, ACTION_COUNT, &mut ui.cooldown, left, right);
    if confirm {
        action_confirm(ui, cmd_state, enemies);
    }
    cmd_state.menu = CommandMenu::ItemSelect;
    cmd_state.cursor_index = 0;
    if escape {
        let (_, m) = queue_message(cmd_state, BattleAction::Flee, "Flee queued.");
        ui.message = m;
        ui.message_timer.reset();
    }
}

proof fn lemma_alive_positions_nonempty(enemies: Seq<BattleDisplayUnit>, n: int, k: int)
    requires
        0 <= k < n <= enemies.len(),
        enemies[k].alive,
    ensures
        alive_positions(enemies, n).len() > 0,
    decreases n,
{
    if k < n - 1 {
        lemma_alive_positions_nonempty(enemies, n - 1, k);
    }
}

/// One frame of target selection while the party chooses commands. With no
/// enemy standing the battle is won. Otherwise the cursor (reset to the
/// first target when out of range) moves over the standing enemies once the
/// cooldown allows; Escape goes back to the action menu; Enter queues an
/// attack on the enemy under the cursor and goes back to the action menu.
/// Returns the position of the enemy under the cursor.
pub fn battle_target_step(
    ui: &mut BattleUiState,
    cmd_state: &mut CommandSelectState,
    enemies: &Vec<BattleDisplayUnit>,
    battle_phase: BattlePhase,
    delta_ms: u32,
    left: bool,
    right: bool,
    confirm: bool,
    escape: bool,
) -> (selected: Option<usize>)
    requires
        old(ui).wf(),
    ensures
        final(ui).wf(),
        !(old(ui).phase == BattleUiPhase::TargetSelect && battle_phase == BattlePhase::CommandSelect)
            ==> *final(ui) == *old(ui) && *final(cmd_state) == *old(cmd_state) && selected is None,
        (old(ui).phase == BattleUiPhase::TargetSelect && battle_phase == BattlePhase::CommandSelect) ==> {
            let alive = alive_positions(enemies@, enemies@.len() as int);
            &&& final(cmd_state).menu == CommandMenu::ItemSelect
            &&& final(cmd_state).cursor_index == 0
            &&& alive.len() == 0 ==> final(ui).phase == BattleUiPhase::Victory && selected is None
            &&& alive.len() > 0 ==> {
                let start = if old(ui).target_cursor >= alive.len() {
                    0
                } else {
                    old(ui).target_cursor as int
                };
                let ready = old(ui).cooldown.elapsed_ms + delta_ms >= old(ui).cooldown.duration_ms;
                let cursor = if ready {
                    moved_cursor(start, alive.len() as int, left, right)
                } else {
                    start
                };
                let target = enemies@[alive[cursor] as int];
                &&& final(ui).target_cursor == cursor
                &&& selected == Some(alive[cursor])
                &&& (confirm || escape) ==> final(ui).phase == BattleUiPhase::ActionSelect
                &&& !(confirm || escape) ==> final(ui).phase == BattleUiPhase::TargetSelect
                &&& confirm ==> final(ui).message@ == (if final(cmd_state).selecting_unit_index == old(cmd_state).selecting_unit_index {
                    "No acting unit available."@
                } else {
                    "Attack queued on "@ + target.name@ + "."@
                })
                &&& (confirm && final(cmd_state).selecting_unit_index != old(cmd_state).selecting_unit_index) ==>
                    final(cmd_state).pending_actions@ == old(cmd_state).pending_actions@.update(
                        old(cmd_state).selecting_unit_index as int,
                        Some(BattleAction::Attack { target_id: target.id }),
                    )
                &&& !confirm ==> final(ui).message == old(ui).message
                &&& !confirm ==> final(cmd_state).pending_actions == old(cmd_state).pending_actions
                    && final(cmd_state).selecting_unit_index == old(cmd_state).selecting_unit_index
                &&& (escape && !confirm) ==> final(cmd_state).selected_ability is None
            }
        },
{
    if ui.phase != BattleUiPhase::TargetSelect || battle_phase != BattlePhase::CommandSelect {
        return None;
    }
    cmd_state.menu = CommandMenu::ItemSelect;
    cmd_state.cursor_index = 0;
    ui.cooldown.tick(delta_ms);
    let alive = alive_indices(enemies);
    if alive.len() == 0 {
        ui.phase = BattleUiPhase::Victory;
        return None;
    }
    if ui.target_cursor >= alive.len() {
        ui.target_cursor = 0;
    }
    move_cursor(&mut ui.target_cursor, alive.len(), &mut ui.cooldown, left, right);
    let selected_index = alive[ui.target_cursor];
    if escape {
        ui.phase = BattleUiPhase::ActionSelect;
        cmd_state.selected_ability = None;
    }
    if confirm {
        let enemy = &enemies[selected_index];
        let mut done = "Attack queued on ".to_owned();
        done.append(enemy.name.as_str());
        done.append(".");
        let (_, m) = queue_message(cmd_state, BattleAction::Attack { target_id: enemy.id }, done.as_str());
        ui.message = m;
        ui.message_timer.reset();
        ui.phase = BattleUiPhase::ActionSelect;
    }
    Some(selected_index)
}

/// Advances the message time and returns the text to show: the message
/// until its time is up, then nothing.
pub fn battle_message_text(ui: &mut BattleUiState, delta_ms: u32) -> (text: String)
    requires
        old(ui).wf(),
    ensures
        final(ui).wf(),
        final(ui).message == old(ui).message,
        final(ui).message_timer.elapsed_ms == if old(ui).message_timer.elapsed_ms + delta_ms >= old(ui).message_timer.duration_ms {
            old(ui).message_timer.duration_ms as int
        } else {
            old(ui).message_timer.elapsed_ms + delta_ms
        },
        final(ui).message_timer.is_finished() ==> text@ == Seq::<char>::empty(),
        !final(ui).message_timer.is_finished() ==> text@ == old(ui).message@,
{
    ui.message_timer.tick(delta_ms);
    if ui.message_timer.finished() {
        String::new()
    } else {
        ui.message.clone()
    }
}

/// "hp/max" under an enemy.
pub fn enemy_hp_text(d: &BattleDisplayUnit) -> (s: String)
    ensures
        s@ == signed_decimal(d.hp as int) + "/"@ + signed_decimal(d.max_hp as int),
{
    let mut s = String::new();
    push_signed(&mut s, d.hp as i64);
    s.append("/");
    push_signed(&mut s, d.max_hp as i64);
    s
}

/// "HP hp/max" under a party member.
pub fn member_hp_text(d: &BattleDisplayUnit) -> (s: String)
    ensures
        s@ == "HP "@ + signed_decimal(d.hp as int) + "/"@ + signed_decimal(d.max_hp as int),
{
    let mut s = "HP ".to_owned();
    push_signed(&mut s, d.hp as i64);
    s.append("/");
    push_signed(&mut s, d.max_hp as i64);
    s
}

/// "PP pp/max" under a party member.
pub fn member_pp_text(d: &BattleDisplayUnit) -> (s: String)
    ensures
        s@ == "PP "@ + signed_decimal(d.pp as int) + "/"@ + signed_decimal(d.max_pp as int),
{
    let mut s = "PP ".to_owned();
    push_signed(&mut s, d.pp as i64);
    s.append("/");
    push_signed(&mut s, d.max_pp as i64);
    s
}

/// The text lines of an enemy panel: the target mark, the name and
/// "hp/max".
pub open spec fn enemy_panel_spec(d: BattleDisplayUnit) -> Seq<Seq<char>> {
    seq!["v"@, d.name@, signed_decimal(d.hp as int) + "/"@ + signed_decimal(d.max_hp as int)]
}

/// The text lines of a party member's panel: the name, "HP hp/max" and
/// "PP pp/max".
pub open spec fn member_panel_spec(d: BattleDisplayUnit) -> Seq<Seq<char>> {
    seq![
        d.name@,
        "HP "@ + signed_decimal(d.hp as int) + "/"@ + signed_decimal(d.max_hp as int),
        "PP "@ + signed_decimal(d.pp as int) + "/"@ + signed_decimal(d.max_pp as int),
    ]
}

/// The text lines of the combatant panels, one list per combatant in
/// display order: enemy panels when `enemy`, party panels otherwise.
pub fn unit_panel_lines(units: &Vec<BattleDisplayUnit>, enemy: bool) -> (panels: Vec<Vec<String>>)
    ensures
        panels@.len() == units@.len(),
        forall|i: int| 0 <= i < units@.len() ==> string_seq((#[trigger] panels@[i])@) == if enemy {
            enemy_panel_spec(units@[i])
        } else {
            member_panel_spec(units@[i])
        },
{
    let mut panels: Vec<Vec<String>> = Vec::new();
    let mut i: usize = 0;
    while i < units.len()
        invariant
            i <= units@.len(),
            panels@.len() == i,
            forall|k: int| 0 <= k < i ==> string_seq((#[trigger] panels@[k])@) == if enemy {
                enemy_panel_spec(units@[k])
            } else {
                member_panel_spec(units@[k])
            },
        decreases units@.len() - i,
    {
        let d = &units[i];
        let lines = if enemy {
            let l = vec!["v".to_owned(), d.name.clone(), enemy_hp_text(d)];
            assert(string_seq(l@) =~= enemy_panel_spec(*d));
            l
        } else {
            let l = vec![d.name.clone(), member_hp_text(d), member_pp_text(d)];
            assert(string_seq(l@) =~= member_panel_spec(*d));
            l
        };
        panels.push(lines);
        i = i + 1;
    }
    panels
}

/// The name of the first of the first `n` combatants with ID `id`.
pub open spec fn first_name_with_id(units: Seq<BattleUnit>, id: u32, n: int) -> Option<Seq<char>>
    decreases n,
{
    if n <= 0 {
        None
    } else {
        match first_name_with_id(units, id, n - 1) {
            Some(x) => Some(x),
            None => if units[n - 1].id == id {
                Some(units[n - 1].name@)
            } else {
                None
            },
        }
    }
}

/// The name shown for a combatant ID in the turn order: the first
/// combatant with that ID, or "#id".
pub open spec fn turn_name(units: Seq<BattleUnit>, id: u32) -> Seq<char> {
    match first_name_with_id(units, id, units.len() as int) {
        Some(x) => x,
        None => "#"@ + decimal(id as nat),
    }
}

proof fn lemma_first_name_stays(units: Seq<BattleUnit>, id: u32, i: int, n: int)
    requires
        0 <= i <= n <= units.len(),
        first_name_with_id(units, id, i) is Some,
    ensures
        first_name_with_id(units, id, n) == first_name_with_id(units, id, i),
    decreases n - i,
{
    if n > i {
        lemma_first_name_stays(units, id, i, n - 1);
    }
}

fn name_for_id(units: &Vec<BattleUnit>, id: u32) -> (s: String)
    ensures
        s@ == turn_name(units@, id),
{
    let mut i: usize = 0;
    while i < units.len()
        invariant
            i <= units@.len(),
            first_name_with_id(units@, id, i as int) is None,
        decreases units@.len() - i,
    {
        if units[i].id == id {
            proof {
                lemma_first_name_stays(units@, id, i + 1, units@.len() as int);
            }
            return units[i].name.clone();
        }
        i = i + 1;
    }
    let mut s = "#".to_owned();
    push_decimal(&mut s, id as u64);
    s
}

/// The names of the first `n` queued combatants.
pub open spec fn turn_names(units: Seq<BattleUnit>, order: Seq<u32>, n: int) -> Seq<Seq<char>>
    decreases n,
{
    if n <= 0 {
        Seq::empty()
    } else {
        turn_names(units, order, n - 1).push(turn_name(units, order[n - 1]))
    }
}

/// The turn order line: "Turn: --" when nobody is queued, otherwise
/// "Turn N: " and the queued names joined by " > ".
pub fn turn_order_text(turn_number: u32, turn_order: &Vec<u32>, units: &Vec<BattleUnit>) -> (s: String)
    ensures
        turn_order@.len() == 0 ==> s@ == "Turn: --"@,
        turn_order@.len() > 0 ==> s@ == "Turn "@ + decimal(turn_number as nat) + ": "@
            + joined(turn_names(units@, turn_order@, turn_order@.len() as int), " > "@),
{
    let mut names: Vec<String> = Vec::new();
    let mut i: usize = 0;
    while i < turn_order.len()
        invariant
            i <= turn_order@.len(),
            names@.len() == i,
            string_seq(names@) == turn_names(units@, turn_order@, i as int),
        decreases turn_order@.len() - i,
    {
        let n = name_for_id(units, turn_order[i]);
        let ghost prev = names@;
        names.push(n);
        assert(string_seq(names@) =~= string_seq(prev).push(n@));
        i = i + 1;
    }
    if names.len() == 0 {
        return "Turn: --".to_owned();
    }
    let mut s = "Turn ".to_owned();
    push_decimal(&mut s, turn_number as u64);
    s.append(": ");
    let j = join(&names, " > ");
    s.append(j.as_str());
    s
}

/// The number floating over a hit combatant: the damage, or "+" and the
/// amount healed for negative damage.
pub fn damage_text(damage: i32) -> (s: String)
    requires
        damage > i32::MIN,
    ensures
        damage >= 0 ==> s@ == decimal(damage as nat),
        damage < 0 ==> s@ == "+"@ + decimal((-damage) as nat),
{
    let mut s = String::new();
    if damage >= 0 {
        push_decimal(&mut s, damage as u64);
    } else {
        s.append("+");
        push_decimal(&mut s, (-damage) as u64);
    }
    s
}

/// The lines a level-up adds to the victory screen.
pub open spec fn level_up_lines(lu: Seq<LevelUpEvent>) -> Seq<Seq<char>>
    decreases lu.len(),
{
    if lu.len() == 0 {
        Seq::empty()
    } else {
        let e = lu.last();
        let head = seq![e.unit_name@ + " leveled up! Lv."@ + decimal(e.old_level as nat) + " -> Lv."@ + decimal(e.new_level as nat)];
        let learned = if e.new_abilities@.len() > 0 {
            seq!["  Learned: "@ + joined(string_seq(e.new_abilities@), ", "@)]
        } else {
            Seq::empty()
        };
        level_up_lines(lu.drop_last()) + head + learned
    }
}

/// The lines of the victory screen: the header, gold and XP (0 without
/// rewards), each level-up with what it taught, the items found if any, and
/// the prompt.
pub open spec fn victory_lines_spec(rewards: Option<BattleRewards>, lu: Seq<LevelUpEvent>) -> Seq<Seq<char>> {
    let gold: u32 = match rewards {
        Some(r) => r.total_gold,
        None => 0,
    };
    let xp: u32 = match rewards {
        Some(r) => r.xp_per_unit,
        None => 0,
    };
    let items: Seq<Seq<char>> = match rewards {
        Some(r) => string_seq(r.item_drops@),
        None => Seq::empty(),
    };
    seq!["VICTORY!"@, "Gold earned: "@ + decimal(gold as nat), "XP per unit: "@ + decimal(xp as nat)]
        + level_up_lines(lu)
        + (if items.len() > 0 {
        seq!["Items found: "@ + joined(items, ", "@)]
    } else {
        Seq::empty()
    }) + seq!["Press Enter to continue"@]
}

pub fn victory_lines(rewards: &Option<BattleRewards>, level_ups: &Vec<LevelUpEvent>) -> (lines: Vec<String>)
    ensures
        string_seq(lines@) == victory_lines_spec(*rewards, level_ups@),
{
    let (gold, xp): (u32, u32) = match rewards {
        Some(r) => (r.total_gold, r.xp_per_unit),
        None => (0, 0),
    };
    let mut lines: Vec<String> = Vec::new();
    lines.push("VICTORY!".to_owned());
    let mut g = "Gold earned: ".to_owned();
    push_decimal(&mut g, gold as u64);
    lines.push(g);
    let mut x = "XP per unit: ".to_owned();
    push_decimal(&mut x, xp as u64);
    lines.push(x);
    let ghost head = seq!["VICTORY!"@, "Gold earned: "@ + decimal(gold as nat), "XP per unit: "@ + decimal(xp as nat)];
    assert(string_seq(lines@) =~= head);
    let mut i: usize = 0;
    while i < level_ups.len()
        invariant
            i <= level_ups@.len(),
            string_seq(lines@) == head + level_up_lines(level_ups@.take(i as int)),
        decreases level_ups@.len() - i,
    {
        let e = &level_ups[i];
        let ghost before = string_seq(lines@);
        let mut l = e.unit_name.clone();
        l.append(" leveled up! Lv.");
        push_decimal(&mut l, e.old_level as u64);
        l.append(" -> Lv.");
        push_decimal(&mut l, e.new_level as u64);
        lines.push(l);
        let ghost after_head = string_seq(lines@);
        assert(after_head =~= before.push(l@));
        if e.new_abilities.len() > 0 {
            let mut a = "  Learned: ".to_owned();
            let j = join(&e.new_abilities, ", ");
            a.append(j.as_str());
            lines.push(a);
            assert(string_seq(lines@) =~= after_head.push(a@));
        }
        proof {
            let t = level_ups@.take(i + 1);
            assert(t.drop_last() =~= level_ups@.take(i as int));
            assert(t.last() == *e);
            let hl = seq![e.unit_name@ + " leveled up! Lv."@ + decimal(e.old_level as nat) + " -> Lv."@ + decimal(e.new_level as nat)];
            assert(hl[0] == l@);
            assert(level_up_lines(t) == level_up_lines(t.drop_last()) + hl + (if e.new_abilities@.len() > 0 {
                seq!["  Learned: "@ + joined(string_seq(e.new_abilities@), ", "@)]
            } else {
                Seq::<Seq<char>>::empty()
            }));
            assert(string_seq(lines@) =~= head + level_up_lines(t));
        }
        i = i + 1;
    }
    assert(level_ups@.take(i as int) =~= level_ups@);
    let ghost mid = string_seq(lines@);
    let ghost items: Seq<Seq<char>> = match rewards {
        Some(r) => string_seq(r.item_drops@),
        None => Seq::empty(),
    };
    match rewards {
        Some(r) => {
            if r.item_drops.len() > 0 {
                let mut it = "Items found: ".to_owned();
                let j = join(&r.item_drops, ", ");
                it.append(j.as_str());
                lines.push(it);
                assert(string_seq(lines@) =~= mid.push(it@));
            }
        },
        None => {},
    }
    let ghost before_end = string_seq(lines@);
    assert(before_end == mid + (if items.len() > 0 {
        seq!["Items found: "@ + joined(items, ", "@)]
    } else {
        Seq::<Seq<char>>::empty()
    }));
    lines.push("Press Enter to continue".to_owned());
    assert(string_seq(lines@) =~= before_end.push("Press Enter to continue"@));
    assert(string_seq(lines@) =~= victory_lines_spec(*rewards, level_ups@));
    lines
}

/// The lines of the defeat screen.
pub fn defeat_lines() -> (lines: Vec<&'static str>)
    ensures
        lines@.len() == 3,
        lines@[0]@ == "DEFEAT"@,
        lines@[1]@ == "Your party has been defeated..."@,
        lines@[2]@ == "Press Enter to return to title"@,
{
    let mut v: Vec<&'static str> = Vec::new();
    v.push("DEFEAT");
    v.push("Your party has been defeated...");
    v.push("Press Enter to return to title");
    v
}

/// Where Enter leads from the end-of-battle screen, once it is shown: the
/// overworld after a victory, the title after a defeat.
pub fn result_screen_exit(victory: bool, enter: bool, screen_shown: bool) -> (s: Option<GameState>)
    ensures
        !(enter && screen_shown) ==> s is None,
        (enter && screen_shown && victory) ==> s == Some(GameState::Overworld),
        (enter && screen_shown && !victory) ==> s == Some(GameState::MainMenu),
{
    if enter && screen_shown {
        if victory {
            Some(GameState::Overworld)
        } else {
            Some(GameState::MainMenu)
        }
    } else {
        None
    }
}

/// What the last battle ended with, kept for the end-of-battle screen.
pub struct BattleResultCache {
    pub rewards: Option<BattleRewards>,
    pub level_ups: Vec<LevelUpEvent>,
    /// Whether the end-of-battle screen has been put up.
    pub displayed: bool,
}

impl Default for BattleResultCache {
    /// Nothing recorded.
    fn default() -> (c: Self)
        ensures
            c.rewards is None,
            c.level_ups@.len() == 0,
            !c.displayed,
    {
        BattleResultCache { rewards: None, level_ups: Vec::new(), displayed: false }
    }
}

/// Records how a battle ended; the screen for it is still to be shown.
pub fn cache_end_battle(cache: &mut BattleResultCache, rewards: Option<BattleRewards>, level_ups: Vec<LevelUpEvent>)
    ensures
        final(cache).rewards == rewards,
        final(cache).level_ups == level_ups,
        !final(cache).displayed,
{
    cache.rewards = rewards;
    cache.level_ups = level_ups;
    cache.displayed = false;
}

/// Whether the end-of-battle screen is to be put up now: once per battle.
pub fn take_result_display(cache: &mut BattleResultCache) -> (show: bool)
    ensures
        show == !old(cache).displayed,
        final(cache).displayed,
        final(cache).rewards == old(cache).rewards,
        final(cache).level_ups == old(cache).level_ups,
{
    let show = !cache.displayed;
    cache.displayed = true;
    show
}

} // verus!
