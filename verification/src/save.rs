//! Save snapshots: what a save holds, how it is taken from the running
//! game, how it is put back, and the checks and names around save slots.

use crate::core_plugin::{GameState, Party};
use crate::data::{BattleUnit, GridPosition, UnitDefinition, UnitSide};
use crate::inventory::roster;
use crate::strmap::StrMap;
use crate::text::{contains_str, decimal, push_decimal, string_seq};
use crate::tower::TowerState;
use vstd::prelude::*;

verus! {

broadcast use vstd::string::group_string_axioms;

/// Format version written into new saves.
pub const SAVE_VERSION: u32 = 1;
/// Number of save slots.
pub const DEFAULT_MAX_SLOTS: usize = 3;
/// Where a save puts the player when no position is known.
pub const DEFAULT_SAVE_X: i32 = 5;
pub const DEFAULT_SAVE_Y: i32 = 5;
/// Hit and psynergy points of a unit the registry does not know.
pub const FALLBACK_HP: i32 = 100;
pub const FALLBACK_PP: i32 = 30;

/// Runtime stats of one party member.
#[derive(Clone, Debug)]
pub struct PartyMemberSaveData {
    pub unit_id: String,
    pub hp: i32,
    pub pp: i32,
    pub level: u8,
    pub xp: u32,
}

/// Everything a save slot holds.
#[derive(Clone, Debug)]
pub struct SaveData {
    pub version: u32,
    /// The party: roster, inventory, equipment.
    pub party: Party,
    /// Runtime stats per member, in roster order.
    pub party_data: Vec<PartyMemberSaveData>,
    /// Unit ID -> (level, xp).
    pub unit_levels: StrMap<(u8, u32)>,
    /// Djinn ID -> owning unit ID.
    pub djinn_assignments: StrMap<String>,
    pub story_flags: StrMap<bool>,
    /// The screen the game was on.
    pub current_map: String,
    pub player_position: GridPosition,
    pub tower_floor: u8,
    pub gold: u32,
    pub play_time_ms: u64,
}

impl Default for SaveData {
    /// An empty save of the current version: the default party, nothing
    /// recorded, in the village at (5, 5), floor 0, the default party's gold.
    fn default() -> (s: Self)
        ensures
            s.version == SAVE_VERSION,
            s.party.wf(),
            s.party.active@.len() == 1,
            s.party.active@[0]@ == "adept"@,
            s.party.bench@.len() == 0,
            s.party.gold == 100,
            s.party_data@.len() == 0,
            s.unit_levels.wf() && s.unit_levels@ == Map::<Seq<char>, (u8, u32)>::empty(),
            s.djinn_assignments.wf() && s.djinn_assignments@ == Map::<Seq<char>, String>::empty(),
            s.story_flags.wf() && s.story_flags@ == Map::<Seq<char>, bool>::empty(),
            s.current_map@ == "village"@,
            s.player_position == (GridPosition { x: DEFAULT_SAVE_X, y: DEFAULT_SAVE_Y }),
            s.tower_floor == 0,
            s.gold == 100,
            s.play_time_ms == 0,
    {
        SaveData {
            version: SAVE_VERSION,
            party: Party::default(),
            party_data: Vec::new(),
            unit_levels: StrMap::new(),
            djinn_assignments: StrMap::new(),
            story_flags: StrMap::new(),
            current_map: "village".to_owned(),
            player_position: GridPosition::new(DEFAULT_SAVE_X, DEFAULT_SAVE_Y),
            tower_floor: 0,
            gold: 100,
            play_time_ms: 0,
        }
    }
}

/// The name under which a screen is recorded in a save.
pub open spec fn state_name_spec(s: GameState) -> Seq<char> {
    match s {
        GameState::Loading => "Loading"@,
        GameState::MainMenu => "MainMenu"@,
        GameState::Overworld => "Overworld"@,
        GameState::Battle => "Battle"@,
        GameState::Shop => "Shop"@,
        GameState::Inventory => "Inventory"@,
        GameState::Settings => "Settings"@,
        GameState::Paused => "Paused"@,
    }
}

pub fn state_name(s: GameState) -> (r: &'static str)
    ensures
        r@ == state_name_spec(s),
{
    match s {
        GameState::Loading => "Loading",
        GameState::MainMenu => "MainMenu",
        GameState::Overworld => "Overworld",
        GameState::Battle => "Battle",
        GameState::Shop => "Shop",
        GameState::Inventory => "Inventory",
        GameState::Settings => "Settings",
        GameState::Paused => "Paused",
    }
}

/// The unit ID whose definition carries display name `name`: the last such
/// entry among the first `n` of the registry.
pub open spec fn unit_id_for_name(units: StrMap<UnitDefinition>, name: Seq<char>, n: int) -> Option<Seq<char>>
    decreases n,
{
    if n <= 0 {
        None
    } else if units.value(n - 1).name@ == name {
        Some(units.key(n - 1))
    } else {
        unit_id_for_name(units, name, n - 1)
    }
}

pub open spec fn name_to_id(units: StrMap<UnitDefinition>, name: Seq<char>) -> Option<Seq<char>> {
    unit_id_for_name(units, name, units.size() as int)
}

/// The unit ID registered for a display name, the last entry winning.
pub fn find_unit_id_by_name(units: &StrMap<UnitDefinition>, name: &str) -> (r: Option<String>)
    ensures
        match r {
            Some(id) => name_to_id(*units, name@) == Some(id@),
            None => name_to_id(*units, name@) is None,
        },
{
    let mut found: Option<String> = None;
    let mut i: usize = 0;
    let n = units.len();
    while i < n
        invariant
            n == units.size(),
            i <= n,
            match found {
                Some(id) => unit_id_for_name(*units, name@, i as int) == Some(id@),
                None => unit_id_for_name(*units, name@, i as int) is None,
            },
        decreases n - i,
    {
        if crate::text::str_eq(units.value_at(i).name.as_str(), name) {
            found = Some(units.key_at(i).clone());
        }
        i = i + 1;
    }
    found
}

/// Saved stats of a member: (hp, pp, level, xp).
pub open spec fn unit_stats(u: BattleUnit) -> (i32, i32, u8, u32) {
    (u.hp, u.pp, u.level, u.xp)
}

/// Stats of the player's live combatants by unit ID, among the first `n`;
/// a later combatant of the same unit wins.
pub open spec fn runtime_stats(units: StrMap<UnitDefinition>, live: Seq<BattleUnit>, n: int) -> Map<Seq<char>, (i32, i32, u8, u32)>
    decreases n,
{
    if n <= 0 {
        Map::empty()
    } else {
        let m = runtime_stats(units, live, n - 1);
        let u = live[n - 1];
        if u.side == UnitSide::Player && name_to_id(units, u.name@) is Some {
            m.insert(name_to_id(units, u.name@)->0, unit_stats(u))
        } else {
            m
        }
    }
}

/// Some live combatant of the player belongs to a known unit.
pub open spec fn has_runtime(units: StrMap<UnitDefinition>, live: Seq<BattleUnit>) -> bool {
    exists|i: int| 0 <= i < live.len() && live[i].side == UnitSide::Player && (#[trigger] name_to_id(units, live[i].name@)) is Some
}

/// A unit's base hit and psynergy points, or 100 and 30 when the registry
/// does not know it.
pub open spec fn base_stats(units: StrMap<UnitDefinition>, id: Seq<char>) -> (i32, i32) {
    if units@.contains_key(id) {
        (units@[id].base_hp, units@[id].base_pp)
    } else {
        (FALLBACK_HP, FALLBACK_PP)
    }
}

/// What the party itself records of a unit: its level and XP (level 1, no
/// XP when unrecorded) and its current points (the base points when
/// unrecorded).
pub open spec fn stored_stats(p: Party, units: StrMap<UnitDefinition>, id: Seq<char>) -> (i32, i32, u8, u32) {
    let lx: (u8, u32) = if p.unit_levels@.contains_key(id) {
        p.unit_levels@[id]
    } else {
        (1u8, 0u32)
    };
    let hp: (i32, i32) = if p.unit_hp_pp@.contains_key(id) {
        p.unit_hp_pp@[id]
    } else {
        base_stats(units, id)
    };
    (hp.0, hp.1, lx.0, lx.1)
}

/// The stats a member is saved with: from its live combatant when there is
/// one; with no live combatant of the party at all, what the party records;
/// otherwise its base points at level 1 with no XP.
pub open spec fn saved_stats(p: Party, units: StrMap<UnitDefinition>, live: Seq<BattleUnit>, id: Seq<char>) -> (i32, i32, u8, u32) {
    let rt = runtime_stats(units, live, live.len() as int);
    if rt.contains_key(id) {
        rt[id]
    } else if !has_runtime(units, live) {
        stored_stats(p, units, id)
    } else {
        (base_stats(units, id).0, base_stats(units, id).1, 1u8, 0u32)
    }
}

/// A list without its repeats, each kept at its first place.
pub open spec fn dedup(s: Seq<Seq<char>>) -> Seq<Seq<char>>
    decreases s.len(),
{
    if s.len() == 0 {
        s
    } else {
        let d = dedup(s.drop_last());
        if d.contains(s.last()) {
            d
        } else {
            d.push(s.last())
        }
    }
}

pub proof fn lemma_dedup_no_duplicates(s: Seq<Seq<char>>)
    ensures
        dedup(s).no_duplicates(),
        forall|x: Seq<char>| dedup(s).contains(x) <==> s.contains(x),
    decreases s.len(),
{
    if s.len() > 0 {
        let l = s.last();
        let t = s.drop_last();
        lemma_dedup_no_duplicates(t);
        let d = dedup(t);
        assert forall|x: Seq<char>| s.contains(x) <==> (t.contains(x) || x == l) by {
            if s.contains(x) {
                let i = choose|i: int| 0 <= i < s.len() && s[i] == x;
                if i < s.len() - 1 {
                    assert(t[i] == x);
                }
            }
            if t.contains(x) {
                let i = choose|i: int| 0 <= i < t.len() && t[i] == x;
                assert(s[i] == x);
            }
            if x == l {
                assert(s[s.len() - 1] == x);
            }
        }
        if !d.contains(l) {
            let e = d.push(l);
            assert forall|x: Seq<char>| e.contains(x) <==> (d.contains(x) || x == l) by {
                if e.contains(x) {
                    let i = choose|i: int| 0 <= i < e.len() && e[i] == x;
                    if i < d.len() {
                        assert(d[i] == x);
                    }
                }
                if d.contains(x) {
                    let i = choose|i: int| 0 <= i < d.len() && d[i] == x;
                    assert(e[i] == x);
                }
                if x == l {
                    assert(e[d.len() as int] == x);
                }
            }
            assert forall|i: int, j: int| 0 <= i < e.len() && 0 <= j < e.len() && i != j implies e[i] != e[j] by {
                if i < d.len() && j < d.len() {
                } else if i < d.len() {
                    assert(d.contains(e[i]));
                } else {
                    assert(d.contains(e[j]));
                }
            }
        }
    }
}

pub open spec fn member_is(m: PartyMemberSaveData, id: Seq<char>, stats: (i32, i32, u8, u32)) -> bool {
    m.unit_id@ == id && m.hp == stats.0 && m.pp == stats.1 && m.level == stats.2 && m.xp == stats.3
}

/// The (level, xp) records of members, laid over `base`, later members
/// winning.
pub open spec fn apply_levels(base: Map<Seq<char>, (u8, u32)>, pd: Seq<PartyMemberSaveData>, n: int) -> Map<Seq<char>, (u8, u32)>
    decreases n,
{
    if n <= 0 {
        base
    } else {
        apply_levels(base, pd, n - 1).insert(pd[n - 1].unit_id@, (pd[n - 1].level, pd[n - 1].xp))
    }
}

/// The (hp, pp) records of members, laid over `base`, later members winning.
pub open spec fn apply_points(base: Map<Seq<char>, (i32, i32)>, pd: Seq<PartyMemberSaveData>, n: int) -> Map<Seq<char>, (i32, i32)>
    decreases n,
{
    if n <= 0 {
        base
    } else {
        apply_points(base, pd, n - 1).insert(pd[n - 1].unit_id@, (pd[n - 1].hp, pd[n - 1].pp))
    }
}

/// `s` is the snapshot of party `p` with registry `units` and the live
/// combatants `live`: one entry per distinct roster member, in roster order,
/// with its saved stats; levels recorded from those entries; the party's
/// flags, djinn assignments and gold; the current version.
pub open spec fn snapshot_of(s: SaveData, p: Party, units: StrMap<UnitDefinition>, live: Seq<BattleUnit>) -> bool {
    let ids = dedup(roster(p));
    &&& s.version == SAVE_VERSION
    &&& s.party == p
    &&& s.party_data@.len() == ids.len()
    &&& forall|i: int| 0 <= i < ids.len() ==> member_is(#[trigger] s.party_data@[i], ids[i], saved_stats(p, units, live, ids[i]))
    &&& s.unit_levels.wf()
    &&& s.unit_levels@ == apply_levels(Map::empty(), s.party_data@, s.party_data@.len() as int)
    &&& s.djinn_assignments.wf()
    &&& s.djinn_assignments@.dom() == p.djinn_assignments@.dom()
    &&& forall|k: Seq<char>| #[trigger] p.djinn_assignments@.contains_key(k) ==> s.djinn_assignments@[k]@ == p.djinn_assignments@[k]@
    &&& s.story_flags.wf()
    &&& s.story_flags@ == p.story_flags@
    &&& s.gold == p.gold
}

fn stats_for(party: &Party, units: &StrMap<UnitDefinition>, runtime: &StrMap<(i32, i32, u8, u32)>, any_runtime: bool, id: &str) -> (st: (i32, i32, u8, u32))
    requires
        party.wf(),
        units.wf(),
        runtime.wf(),
    ensures
        runtime@.contains_key(id@) ==> st == runtime@[id@],
        !runtime@.contains_key(id@) && !any_runtime ==> st == stored_stats(*party, *units, id@),
        !runtime@.contains_key(id@) && any_runtime ==> st == (base_stats(*units, id@).0, base_stats(*units, id@).1, 1u8, 0u32),
{
    if let Some(st) = runtime.get(id) {
        return *st;
    }
    let base: (i32, i32) = match units.get(id) {
        Some(def) => (def.base_hp, def.base_pp),
        None => (FALLBACK_HP, FALLBACK_PP),
    };
    if any_runtime {
        return (base.0, base.1, 1, 0);
    }
    let lx: (u8, u32) = match party.unit_levels.get(id) {
        Some(v) => *v,
        None => (1, 0),
    };
    let hp: (i32, i32) = match party.unit_hp_pp.get(id) {
        Some(v) => *v,
        None => base,
    };
    (hp.0, hp.1, lx.0, lx.1)
}

fn live_runtime_stats(units: &StrMap<UnitDefinition>, live: &Vec<BattleUnit>) -> (r: (StrMap<(i32, i32, u8, u32)>, bool))
    requires
        units.wf(),
    ensures
        r.0.wf(),
        r.0@ == runtime_stats(*units, live@, live@.len() as int),
        r.1 == has_runtime(*units, live@),
{
    let mut rt: StrMap<(i32, i32, u8, u32)> = StrMap::new();
    let mut any = false;
    let mut i: usize = 0;
    while i < live.len()
        invariant
            units.wf(),
            rt.wf(),
            i <= live@.len(),
            rt@ == runtime_stats(*units, live@, i as int),
            any == exists|j: int| 0 <= j < i && live@[j].side == UnitSide::Player && (#[trigger] name_to_id(*units, live@[j].name@)) is Some,
        decreases live@.len() - i,
    {
        let u = &live[i];
        if u.side == UnitSide::Player {
            if let Some(id) = find_unit_id_by_name(units, u.name.as_str()) {
                rt.insert(id.as_str(), (u.hp, u.pp, u.level, u.xp));
                any = true;
            }
        }
        i = i + 1;
    }
    (rt, any)
}

fn roster_ids(party: &Party) -> (ids: Vec<String>)
    ensures
        string_seq(ids@) == dedup(roster(*party)),
{
    let ghost all = roster(*party);
    let ghost na = party.active@.len() as int;
    assert(all.len() == party.active@.len() + party.bench@.len());
    let mut ids: Vec<String> = Vec::new();
    let mut i: usize = 0;
    while i < party.active.len()
        invariant
            all == roster(*party),
            na == party.active@.len(),
            all.len() == party.active@.len() + party.bench@.len(),
            i <= party.active@.len(),
            string_seq(ids@) == dedup(all.take(i as int)),
        decreases party.active@.len() - i,
    {
        let x = &party.active[i];
        proof {
            assert(all[i as int] == x@);
            assert(all.take(i + 1).drop_last() =~= all.take(i as int));
            assert(all.take(i + 1).last() == x@);
        }
        if !contains_str(&ids, x.as_str()) {
            ids.push(x.clone());
            assert(string_seq(ids@) =~= dedup(all.take(i as int)).push(x@));
        }
        i = i + 1;
    }
    let mut j: usize = 0;
    while j < party.bench.len()
        invariant
            all == roster(*party),
            na == party.active@.len(),
            all.len() == party.active@.len() + party.bench@.len(),
            j <= party.bench@.len(),
            string_seq(ids@) == dedup(all.take(na + j)),
        decreases party.bench@.len() - j,
    {
        let x = &party.bench[j];
        proof {
            assert(all[na + j] == x@);
            assert(all.take(na + j + 1).drop_last() =~= all.take(na + j));
            assert(all.take(na + j + 1).last() == x@);
        }
        if !contains_str(&ids, x.as_str()) {
            ids.push(x.clone());
            assert(string_seq(ids@) =~= dedup(all.take(na + j)).push(x@));
        }
        j = j + 1;
    }
    assert(all.take(na + j) =~= all);
    ids
}

impl SaveData {
    /// Takes a save snapshot of the running game. `live` are the combatants of
    /// an ongoing battle (the player's are used, matched to units by display
    /// name), `screen` the screen the game is on (recorded as "Overworld" when
    /// unknown), `position` the player's tile ((5, 5) when unknown), `tower`
    /// the tower's progress (floor 0 when there is none).
    pub fn from_game_state(
        party: Party,
        units: &StrMap<UnitDefinition>,
        live: &Vec<BattleUnit>,
        screen: Option<GameState>,
        position: Option<GridPosition>,
        tower: Option<&TowerState>,
        play_time_ms: u64,
    ) -> (s: SaveData)
        requires
            party.wf(),
            units.wf(),
        ensures
            snapshot_of(s, party, *units, live@),
            s.current_map@ == match screen {
                Some(st) => state_name_spec(st),
                None => "Overworld"@,
            },
            s.player_position == match position {
                Some(q) => q,
                None => GridPosition { x: DEFAULT_SAVE_X, y: DEFAULT_SAVE_Y },
            },
            s.play_time_ms == play_time_ms,
            s.tower_floor == match tower {
                Some(t) => t.current_floor,
                None => 0u8,
            },
    {
        let (runtime, any) = live_runtime_stats(units, live);
        let ids = roster_ids(&party);
        let ghost idv = dedup(roster(party));
        proof {
            lemma_dedup_no_duplicates(roster(party));
        }
        let mut party_data: Vec<PartyMemberSaveData> = Vec::new();
        let mut unit_levels: StrMap<(u8, u32)> = StrMap::new();
        let mut i: usize = 0;
        while i < ids.len()
            invariant
                party.wf(),
                units.wf(),
                runtime.wf(),
                runtime@ == runtime_stats(*units, live@, live@.len() as int),
                any == has_runtime(*units, live@),
                string_seq(ids@) == idv,
                idv == dedup(roster(party)),
                i <= ids@.len(),
                party_data@.len() == i,
                forall|k: int| 0 <= k < i ==> member_is(#[trigger] party_data@[k], idv[k], saved_stats(party, *units, live@, idv[k])),
                unit_levels.wf(),
                unit_levels@ == apply_levels(Map::empty(), party_data@, i as int),
            decreases ids@.len() - i,
        {
            let id = &ids[i];
            assert(idv[i as int] == id@);
            let st = stats_for(&party, units, &runtime, any, id.as_str());
            let m = PartyMemberSaveData { unit_id: id.clone(), hp: st.0, pp: st.1, level: st.2, xp: st.3 };
            let ghost before = party_data@;
            party_data.push(m);
            unit_levels.insert(id.as_str(), (st.2, st.3));
            proof {
                assert(party_data@.drop_last() == before);
                assert forall|n: int| 0 <= n <= i implies apply_levels(Map::empty(), party_data@, n) == apply_levels(Map::empty(), before, n) by {
                    lemma_apply_levels_prefix(Map::empty(), party_data@, before, n);
                }
            }
            i = i + 1;
        }
        let story_flags = party.story_flags.copied();
        let djinn_assignments = party.djinn_assignments.cloned_strings();
        let tower_floor: u8 = match tower {
            Some(t) => t.current_floor,
            None => 0,
        };
        let gold = party.gold;
        let current_map = match screen {
            Some(st) => state_name(st).to_owned(),
            None => "Overworld".to_owned(),
        };
        let player_position = match position {
            Some(q) => q,
            None => GridPosition::new(DEFAULT_SAVE_X, DEFAULT_SAVE_Y),
        };
        SaveData {
            version: SAVE_VERSION,
            party,
            party_data,
            unit_levels,
            djinn_assignments,
            story_flags,
            current_map,
            player_position,
            tower_floor,
            gold,
            play_time_ms,
        }
    }
}

proof fn lemma_apply_levels_prefix(base: Map<Seq<char>, (u8, u32)>, a: Seq<PartyMemberSaveData>, b: Seq<PartyMemberSaveData>, n: int)
    requires
        0 <= n <= b.len(),
        b.len() <= a.len(),
        forall|k: int| 0 <= k < b.len() ==> a[k] == b[k],
    ensures
        apply_levels(base, a, n) == apply_levels(base, b, n),
    decreases n,
{
    if n > 0 {
        lemma_apply_levels_prefix(base, a, b, n - 1);
    }
}

proof fn lemma_apply_points_prefix(base: Map<Seq<char>, (i32, i32)>, a: Seq<PartyMemberSaveData>, b: Seq<PartyMemberSaveData>, n: int)
    requires
        0 <= n <= b.len(),
        b.len() <= a.len(),
        forall|k: int| 0 <= k < b.len() ==> a[k] == b[k],
    ensures
        apply_points(base, a, n) == apply_points(base, b, n),
    decreases n,
{
    if n > 0 {
        lemma_apply_points_prefix(base, a, b, n - 1);
    }
}

/// `r` is the party a save restores: the saved party with the saved gold
/// and flags, and each member's level, XP and points recorded over it.
pub open spec fn restored_from(r: Party, s: SaveData) -> bool {
    &&& r.active == s.party.active
    &&& r.bench == s.party.bench
    &&& r.inventory == s.party.inventory
    &&& r.equipment == s.party.equipment
    &&& r.djinn_assignments == s.party.djinn_assignments
    &&& r.difficulty == s.party.difficulty
    &&& r.gold == s.gold
    &&& r.story_flags@ == s.story_flags@
    &&& r.unit_levels@ == apply_levels(s.party.unit_levels@, s.party_data@, s.party_data@.len() as int)
    &&& r.unit_hp_pp@ == apply_points(s.party.unit_hp_pp@, s.party_data@, s.party_data@.len() as int)
}

/// The party a save restores.
fn restore_party(save: SaveData) -> (r: Party)
    requires
        save.party.wf(),
        save.story_flags.wf(),
    ensures
        r.wf(),
        restored_from(r, save),
{
    let ghost s = save;
    let SaveData { party, party_data, story_flags, gold, .. } = save;
    let mut restored = party;
    restored.gold = gold;
    restored.story_flags = story_flags;
    let mut i: usize = 0;
    while i < party_data.len()
        invariant
            restored.wf(),
            party_data@ == s.party_data@,
            restored.active == s.party.active,
            restored.bench == s.party.bench,
            restored.inventory == s.party.inventory,
            restored.equipment == s.party.equipment,
            restored.djinn_assignments == s.party.djinn_assignments,
            restored.difficulty == s.party.difficulty,
            restored.gold == s.gold,
            restored.story_flags@ == s.story_flags@,
            i <= party_data@.len(),
            restored.unit_levels@ == apply_levels(s.party.unit_levels@, s.party_data@, i as int),
            restored.unit_hp_pp@ == apply_points(s.party.unit_hp_pp@, s.party_data@, i as int),
        decreases party_data@.len() - i,
    {
        let m = &party_data[i];
        restored.unit_levels.insert(m.unit_id.as_str(), (m.level, m.xp));
        restored.unit_hp_pp.insert(m.unit_id.as_str(), (m.hp, m.pp));
        i = i + 1;
    }
    restored
}

/// The record laid over a base map for `id` by distinct members: the last
/// member with that ID if any, otherwise the base.
proof fn lemma_apply_levels_at(base: Map<Seq<char>, (u8, u32)>, pd: Seq<PartyMemberSaveData>, n: int, id: Seq<char>)
    requires
        0 <= n <= pd.len(),
    ensures
        (exists|k: int| 0 <= k < n && pd[k].unit_id@ == id) ==> apply_levels(base, pd, n).contains_key(id),
        !(exists|k: int| 0 <= k < n && pd[k].unit_id@ == id) ==> (apply_levels(base, pd, n).contains_key(id) == base.contains_key(id)
            && (base.contains_key(id) ==> apply_levels(base, pd, n)[id] == base[id])),
        forall|k: int| 0 <= k < n && pd[k].unit_id@ == id && (forall|j: int| k < j < n ==> pd[j].unit_id@ != id)
            ==> apply_levels(base, pd, n)[id] == (pd[k].level, pd[k].xp),
    decreases n,
{
    if n > 0 {
        lemma_apply_levels_at(base, pd, n - 1, id);
        assert forall|k: int| 0 <= k < n && pd[k].unit_id@ == id && (forall|j: int| k < j < n ==> pd[j].unit_id@ != id)
            implies apply_levels(base, pd, n)[id] == (pd[k].level, pd[k].xp) by {
            if k < n - 1 {
                assert(pd[n - 1].unit_id@ != id);
            }
        }
        if exists|k: int| 0 <= k < n && pd[k].unit_id@ == id {
            let k = choose|k: int| 0 <= k < n && pd[k].unit_id@ == id;
            if k < n - 1 {
                assert(exists|k: int| 0 <= k < n - 1 && pd[k].unit_id@ == id);
            }
        }
    }
}

proof fn lemma_apply_points_at(base: Map<Seq<char>, (i32, i32)>, pd: Seq<PartyMemberSaveData>, n: int, id: Seq<char>)
    requires
        0 <= n <= pd.len(),
    ensures
        (exists|k: int| 0 <= k < n && pd[k].unit_id@ == id) ==> apply_points(base, pd, n).contains_key(id),
        !(exists|k: int| 0 <= k < n && pd[k].unit_id@ == id) ==> (apply_points(base, pd, n).contains_key(id) == base.contains_key(id)
            && (base.contains_key(id) ==> apply_points(base, pd, n)[id] == base[id])),
        forall|k: int| 0 <= k < n && pd[k].unit_id@ == id && (forall|j: int| k < j < n ==> pd[j].unit_id@ != id)
            ==> apply_points(base, pd, n)[id] == (pd[k].hp, pd[k].pp),
    decreases n,
{
    if n > 0 {
        lemma_apply_points_at(base, pd, n - 1, id);
        assert forall|k: int| 0 <= k < n && pd[k].unit_id@ == id && (forall|j: int| k < j < n ==> pd[j].unit_id@ != id)
            implies apply_points(base, pd, n)[id] == (pd[k].hp, pd[k].pp) by {
            if k < n - 1 {
                assert(pd[n - 1].unit_id@ != id);
            }
        }
        if exists|k: int| 0 <= k < n && pd[k].unit_id@ == id {
            let k = choose|k: int| 0 <= k < n && pd[k].unit_id@ == id;
            if k < n - 1 {
                assert(exists|k: int| 0 <= k < n - 1 && pd[k].unit_id@ == id);
            }
        }
    }
}

/// Saving a party outside battle and restoring the save gives the party
/// back: the same roster, inventory, equipment, djinn, difficulty, gold and
/// story flags; every roster member with the level, XP and points the party
/// recorded (level 1 and no XP, and base points, where it recorded none);
/// and every other unit's records untouched.
pub proof fn lemma_save_then_restore(p: Party, units: StrMap<UnitDefinition>, live: Seq<BattleUnit>, s: SaveData, r: Party, id: Seq<char>)
    requires
        snapshot_of(s, p, units, live),
        restored_from(r, s),
        !has_runtime(units, live),
    ensures
        r.active == p.active,
        r.bench == p.bench,
        r.inventory == p.inventory,
        r.equipment == p.equipment,
        r.djinn_assignments == p.djinn_assignments,
        r.difficulty == p.difficulty,
        r.gold == p.gold,
        r.story_flags@ == p.story_flags@,
        roster(p).contains(id) ==> {
            let st = stored_stats(p, units, id);
            &&& r.unit_levels@.contains_key(id)
            &&& r.unit_levels@[id] == (st.2, st.3)
            &&& r.unit_hp_pp@.contains_key(id)
            &&& r.unit_hp_pp@[id] == (st.0, st.1)
        },
        !roster(p).contains(id) ==> {
            &&& r.unit_levels@.contains_key(id) == p.unit_levels@.contains_key(id)
            &&& (p.unit_levels@.contains_key(id) ==> r.unit_levels@[id] == p.unit_levels@[id])
            &&& r.unit_hp_pp@.contains_key(id) == p.unit_hp_pp@.contains_key(id)
            &&& (p.unit_hp_pp@.contains_key(id) ==> r.unit_hp_pp@[id] == p.unit_hp_pp@[id])
        },
{
    let ids = dedup(roster(p));
    let pd = s.party_data@;
    let n = pd.len() as int;
    lemma_dedup_no_duplicates(roster(p));
    lemma_apply_levels_at(p.unit_levels@, pd, n, id);
    lemma_apply_points_at(p.unit_hp_pp@, pd, n, id);
    if roster(p).contains(id) {
        assert(ids.contains(id));
        let k = choose|k: int| 0 <= k < ids.len() && ids[k] == id;
        assert(member_is(pd[k], ids[k], saved_stats(p, units, live, ids[k])));
        assert forall|j: int| k < j < n implies pd[j].unit_id@ != id by {
            assert(member_is(pd[j], ids[j], saved_stats(p, units, live, ids[j])));
            assert(ids[j] != ids[k]);
        }
        if runtime_stats(units, live, live.len() as int).contains_key(id) {
            lemma_runtime_needs_live(units, live, live.len() as int, id);
        }
    } else {
        assert forall|k: int| 0 <= k < n implies pd[k].unit_id@ != id by {
            assert(member_is(pd[k], ids[k], saved_stats(p, units, live, ids[k])));
            assert(ids.contains(ids[k]));
        }
    }
}

proof fn lemma_runtime_needs_live(units: StrMap<UnitDefinition>, live: Seq<BattleUnit>, n: int, id: Seq<char>)
    requires
        0 <= n <= live.len(),
        runtime_stats(units, live, n).contains_key(id),
    ensures
        has_runtime(units, live),
    decreases n,
{
    let u = live[n - 1];
    if u.side == UnitSide::Player && name_to_id(units, u.name@) is Some {
        assert(name_to_id(units, live[n - 1].name@) is Some);
    } else {
        lemma_runtime_needs_live(units, live, n - 1, id);
    }
}

/// Whether a restored member's points can be put on combatant `u`: its
/// maximum points are not negative, so clamping to them is defined.
pub open spec fn clamp_defined(u: BattleUnit) -> bool {
    u.max_hp >= 0 && u.max_pp >= 0
}

/// The member record a save holds for a unit: the last one with its ID.
pub open spec fn saved_member(pd: Seq<PartyMemberSaveData>, id: Seq<char>, n: int) -> Option<PartyMemberSaveData>
    decreases n,
{
    if n <= 0 {
        None
    } else if pd[n - 1].unit_id@ == id {
        Some(pd[n - 1])
    } else {
        saved_member(pd, id, n - 1)
    }
}

/// The record a save holds for the player's combatant `u`, if any.
pub open spec fn record_for(units: StrMap<UnitDefinition>, pd: Seq<PartyMemberSaveData>, u: BattleUnit) -> Option<PartyMemberSaveData> {
    if u.side == UnitSide::Player && name_to_id(units, u.name@) is Some {
        saved_member(pd, name_to_id(units, u.name@)->0, pd.len() as int)
    } else {
        None
    }
}

pub open spec fn clamp(v: i32, lo: i32, hi: i32) -> i32 {
    if v < lo {
        lo
    } else if v > hi {
        hi
    } else {
        v
    }
}

/// `after` is combatant `before` with the saved record `m` put on it: points
/// clamped to 0 and the maximum, level and XP taken over.
pub open spec fn restored_unit(before: BattleUnit, after: BattleUnit, m: PartyMemberSaveData) -> bool {
    &&& after == (BattleUnit {
        hp: clamp(m.hp, 0, before.max_hp),
        pp: clamp(m.pp, 0, before.max_pp),
        level: m.level,
        xp: m.xp,
        ..before
    })
}

fn find_saved_member(pd: &Vec<PartyMemberSaveData>, id: &str) -> (r: Option<usize>)
    ensures
        match r {
            Some(k) => k < pd@.len() && saved_member(pd@, id@, pd@.len() as int) == Some(pd@[k as int]),
            None => saved_member(pd@, id@, pd@.len() as int) is None,
        },
{
    let mut r: Option<usize> = None;
    let mut i: usize = 0;
    while i < pd.len()
        invariant
            i <= pd@.len(),
            match r {
                Some(k) => k < i && saved_member(pd@, id@, i as int) == Some(pd@[k as int]),
                None => saved_member(pd@, id@, i as int) is None,
            },
        decreases pd@.len() - i,
    {
        if crate::text::str_eq(pd[i].unit_id.as_str(), id) {
            r = Some(i);
        }
        i = i + 1;
    }
    r
}

/// Puts a save's member records on the player's combatants of an ongoing
/// battle, matched by display name: points clamped between 0 and the
/// combatant's maximum, level and XP taken over. Other combatants, and those
/// without a record, are left alone.
pub fn restore_battle_units(units: &mut Vec<BattleUnit>, registry: &StrMap<UnitDefinition>, save: &SaveData)
    requires
        registry.wf(),
        forall|i: int| 0 <= i < old(units)@.len() && record_for(*registry, save.party_data@, #[trigger] old(units)@[i]) is Some
            ==> clamp_defined(old(units)@[i]),
    ensures
        final(units)@.len() == old(units)@.len(),
        forall|i: int| 0 <= i < old(units)@.len() ==> match record_for(*registry, save.party_data@, #[trigger] old(units)@[i]) {
            Some(m) => restored_unit(old(units)@[i], final(units)@[i], m),
            None => final(units)@[i] == old(units)@[i],
        },
{
    let ghost orig = units@;
    let mut i: usize = 0;
    while i < units.len()
        invariant
            registry.wf(),
            units@.len() == orig.len(),
            i <= orig.len(),
            forall|k: int| 0 <= k < orig.len() && record_for(*registry, save.party_data@, #[trigger] orig[k]) is Some ==> clamp_defined(orig[k]),
            forall|k: int| i <= k < orig.len() ==> units@[k] == orig[k],
            forall|k: int| 0 <= k < i ==> match record_for(*registry, save.party_data@, #[trigger] orig[k]) {
                Some(m) => restored_unit(orig[k], units@[k], m),
                None => units@[k] == orig[k],
            },
        decreases orig.len() - i,
    {
        assert(units@[i as int] == orig[i as int]);
        if units[i].side == UnitSide::Player {
            if let Some(id) = find_unit_id_by_name(registry, units[i].name.as_str()) {
                if let Some(k) = find_saved_member(&save.party_data, id.as_str()) {
                    let m = &save.party_data[k];
                    let ghost before = units@;
                    let mut u = units.remove(i);
                    u.hp = clamp_points(m.hp, u.max_hp);
                    u.pp = clamp_points(m.pp, u.max_pp);
                    u.level = m.level;
                    u.xp = m.xp;
                    units.insert(i, u);
                    assert(units@ =~= before.update(i as int, u));
                }
            }
        }
        i = i + 1;
    }
}

impl SaveData {
    /// Puts the save back into the game: the member records go onto the
    /// player's combatants of an ongoing battle (see `restore_battle_units`);
    /// the restored party and the tile the player is to stand on are
    /// returned.
    pub fn apply_to_game(self, battle_units: &mut Vec<BattleUnit>, registry: &StrMap<UnitDefinition>) -> (r: (Party, GridPosition))
        requires
            self.party.wf(),
            self.story_flags.wf(),
            registry.wf(),
            forall|i: int| 0 <= i < old(battle_units)@.len() && record_for(*registry, self.party_data@, #[trigger] old(battle_units)@[i]) is Some
                ==> clamp_defined(old(battle_units)@[i]),
        ensures
            r.0.wf(),
            restored_from(r.0, self),
            r.1 == self.player_position,
            final(battle_units)@.len() == old(battle_units)@.len(),
            forall|i: int| 0 <= i < old(battle_units)@.len() ==> match record_for(*registry, self.party_data@, #[trigger] old(battle_units)@[i]) {
                Some(m) => restored_unit(old(battle_units)@[i], final(battle_units)@[i], m),
                None => final(battle_units)@[i] == old(battle_units)@[i],
            },
    {
        restore_battle_units(battle_units, registry, &self);
        let position = self.player_position;
        (restore_party(self), position)
    }
}

fn clamp_points(v: i32, max: i32) -> (r: i32)
    requires
        max >= 0,
    ensures
        r == clamp(v, 0, max),
{
    if v < 0 {
        0
    } else if v > max {
        max
    } else {
        v
    }
}

/// Whether `slot` is one of the slots.
pub fn check_slot(slot: usize, max_slots: usize) -> (r: Result<(), String>)
    ensures
        slot < max_slots <==> r is Ok,
        r matches Err(e) ==> e@ == "Invalid save slot: "@ + decimal(slot as nat),
{
    if slot >= max_slots {
        let mut e = "Invalid save slot: ".to_owned();
        push_decimal(&mut e, slot as u64);
        return Err(e);
    }
    Ok(())
}

/// The file a slot is stored in: "save_N.ron".
pub fn slot_file_name(slot: usize) -> (s: String)
    ensures
        s@ == "save_"@ + decimal(slot as nat) + ".ron"@,
{
    let mut s = "save_".to_owned();
    push_decimal(&mut s, slot as u64);
    s.append(".ron");
    s
}

/// The error for a slot with no file.
pub fn no_save_file_message(slot: usize) -> (s: String)
    ensures
        s@ == "No save file in slot "@ + decimal(slot as nat),
{
    let mut s = "No save file in slot ".to_owned();
    push_decimal(&mut s, slot as u64);
    s
}

/// The highest member level of a save, or 1 when it has no members.
pub open spec fn max_level(pd: Seq<PartyMemberSaveData>, n: int) -> u8
    decreases n,
{
    if n <= 0 {
        1
    } else if n == 1 {
        pd[0].level
    } else {
        let m = max_level(pd, n - 1);
        if pd[n - 1].level > m {
            pd[n - 1].level
        } else {
            m
        }
    }
}

/// The label of a slot in the slot menu: "Slot N: Level L, Gold G" for a
/// slot that loads (N counted from 1, L the highest member level or 1), or
/// "Slot N: [Empty]".
pub fn save_slot_label(slot_index: usize, loaded: Option<&SaveData>) -> (s: String)
    requires
        slot_index < usize::MAX,
    ensures
        match loaded {
            Some(d) => s@ == "Slot "@ + decimal((slot_index + 1) as nat) + ": Level "@
                + decimal(max_level(d.party_data@, d.party_data@.len() as int) as nat) + ", Gold "@ + decimal(d.gold as nat),
            None => s@ == "Slot "@ + decimal((slot_index + 1) as nat) + ": [Empty]"@,
        },
{
    let mut s = "Slot ".to_owned();
    push_decimal(&mut s, (slot_index + 1) as u64);
    match loaded {
        Some(d) => {
            let mut level: u8 = 1;
            let mut i: usize = 0;
            while i < d.party_data.len()
                invariant
                    i <= d.party_data@.len(),
                    level == max_level(d.party_data@, i as int),
                decreases d.party_data@.len() - i,
            {
                let l = d.party_data[i].level;
                if i == 0 || l > level {
                    level = l;
                }
                i = i + 1;
            }
            s.append(": Level ");
            push_decimal(&mut s, level as u64);
            s.append(", Gold ");
            push_decimal(&mut s, d.gold as u64);
        },
        None => {
            s.append(": [Empty]");
        },
    }
    s
}

} // verus!
