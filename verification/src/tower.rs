//! The Tower of Trials: ten floors of escalating encounters.

use crate::random::gen_range_inclusive;
use crate::text::{clone_strings, string_seq, to_strings};
use rand::rngs::StdRng;
use vstd::prelude::*;

verus! {

pub const MAX_FLOOR: u8 = 10;

/// Progress through the tower.
#[derive(Clone, Debug)]
pub struct TowerState {
    pub current_floor: u8,
    pub max_floor_reached: u8,
    pub is_active: bool,
    pub floors_cleared: Vec<u8>,
}

impl Default for TowerState {
    fn default() -> (s: Self)
        ensures
            s.current_floor == 1,
            s.max_floor_reached == 1,
            !s.is_active,
            s.floors_cleared@ == Seq::<u8>::empty(),
    {
        TowerState { current_floor: 1, max_floor_reached: 1, is_active: false, floors_cleared: Vec::new() }
    }
}

/// The consistency every reachable tower state has: the current floor is
/// within the tower and no higher than the highest floor reached, and the
/// cleared floors are distinct floors below the current one.
pub open spec fn tower_consistent(current: u8, max_reached: u8, cleared: Seq<u8>) -> bool {
    &&& 1 <= current <= max_reached <= MAX_FLOOR
    &&& cleared.no_duplicates()
    &&& forall|i: int| 0 <= i < cleared.len() ==> 1 <= #[trigger] cleared[i] < current
}

/// The floors cleared after advancing from `current`.
pub open spec fn cleared_after(cleared: Seq<u8>, current: u8) -> Seq<u8> {
    if cleared.contains(current) {
        cleared
    } else {
        cleared.push(current)
    }
}

/// Advances the tower to the next floor: marks the current floor cleared,
/// moves up one floor and raises the highest floor reached. At the top floor
/// nothing changes and the result is `None`.
pub fn advance_floor(tower_state: &mut TowerState) -> (r: Option<u8>)
    ensures
        final(tower_state).is_active == old(tower_state).is_active,
        old(tower_state).current_floor >= MAX_FLOOR ==> {
            &&& r is None
            &&& final(tower_state).current_floor == old(tower_state).current_floor
            &&& final(tower_state).max_floor_reached == old(tower_state).max_floor_reached
            &&& final(tower_state).floors_cleared@ == old(tower_state).floors_cleared@
        },
        old(tower_state).current_floor < MAX_FLOOR ==> {
            &&& r == Some((old(tower_state).current_floor + 1) as u8)
            &&& final(tower_state).current_floor == old(tower_state).current_floor + 1
            &&& final(tower_state).max_floor_reached == (if old(tower_state).current_floor + 1 > old(tower_state).max_floor_reached {
                old(tower_state).current_floor + 1
            } else {
                old(tower_state).max_floor_reached as int
            })
            &&& final(tower_state).floors_cleared@ == cleared_after(old(tower_state).floors_cleared@, old(tower_state).current_floor)
        },
{
    if tower_state.current_floor >= MAX_FLOOR {
        return None;
    }
    let cur = tower_state.current_floor;
    let mut found = false;
    let mut i: usize = 0;
    while i < tower_state.floors_cleared.len()
        invariant
            i <= tower_state.floors_cleared@.len(),
            found == (exists|j: int| 0 <= j < i && tower_state.floors_cleared@[j] == cur),
        decreases tower_state.floors_cleared@.len() - i,
    {
        if tower_state.floors_cleared[i] == cur {
            found = true;
        }
        i = i + 1;
    }
    assert(found == tower_state.floors_cleared@.contains(cur));
    if !found {
        tower_state.floors_cleared.push(cur);
    }
    tower_state.current_floor = cur + 1;
    if tower_state.current_floor > tower_state.max_floor_reached {
        tower_state.max_floor_reached = tower_state.current_floor;
    }
    Some(tower_state.current_floor)
}

/// Advancing keeps a consistent tower consistent.
pub proof fn lemma_advance_keeps_consistency(
    current: u8,
    max_reached: u8,
    cleared: Seq<u8>,
    new_current: u8,
    new_max: u8,
    new_cleared: Seq<u8>,
)
    requires
        tower_consistent(current, max_reached, cleared),
        current < MAX_FLOOR,
        new_current == current + 1,
        new_max == (if current + 1 > max_reached { current + 1 } else { max_reached as int }),
        new_cleared == cleared_after(cleared, current),
    ensures
        tower_consistent(new_current, new_max, new_cleared),
        new_cleared.contains(current),
{
    if !cleared.contains(current) {
        assert(new_cleared[cleared.len() as int] == current);
        assert forall|i: int, j: int| 0 <= i < new_cleared.len() && 0 <= j < new_cleared.len() && i != j
            implies new_cleared[i] != new_cleared[j] by {
            if i == cleared.len() {
                assert(cleared[j] == new_cleared[j]);
            } else if j == cleared.len() {
                assert(cleared[i] == new_cleared[i]);
            }
        }
    }
}

/// One floor of the tower.
#[derive(Debug)]
pub struct FloorDefinition {
    pub floor_number: u8,
    pub encounter_pool: Vec<String>,
    /// Inclusive range for the number of regular enemies.
    pub enemy_count_range: (usize, usize),
    pub enemy_level_bonus: i32,
    pub is_boss_floor: bool,
    pub boss_id: Option<String>,
    pub floor_reward_gold: u32,
    pub floor_reward_items: Vec<String>,
}

/// The regular enemies a floor draws from.
pub open spec fn floor_pool(n: int) -> Seq<Seq<char>> {
    if n <= 3 {
        seq!["mercury-slime"@, "venus-wolf"@, "mars-bandit"@]
    } else if n <= 6 {
        seq!["jupiter-hawk"@, "venus-golem"@, "mars-lizard"@]
    } else if n <= 9 {
        seq!["shadow-wyrm"@, "storm-elemental"@, "iron-golem"@]
    } else {
        Seq::empty()
    }
}

pub open spec fn floor_count_range(n: int) -> (usize, usize) {
    if n <= 3 {
        (1, 2)
    } else if n <= 6 {
        (2, 3)
    } else if n <= 9 {
        (2, 4)
    } else {
        (1, 1)
    }
}

pub open spec fn floor_level_bonus(n: int) -> i32 {
    if n <= 3 {
        0
    } else if n <= 6 {
        2
    } else {
        4
    }
}

pub open spec fn floor_gold(n: int) -> u32 {
    seq![50u32, 75, 100, 150, 200, 250, 300, 400, 500, 500][n - 1]
}

pub open spec fn floor_boss(n: int) -> Option<Seq<char>> {
    if n == 5 {
        Some("slaver-captain"@)
    } else if n == 10 {
        Some("dark-overlord"@)
    } else {
        None
    }
}

pub open spec fn floor_items(n: int) -> Seq<Seq<char>> {
    if n == 5 {
        seq!["elixir"@]
    } else if n == 10 {
        seq!["psy-crystal"@, "elixir"@]
    } else {
        Seq::empty()
    }
}

/// `f` is floor `n` of the tower.
pub open spec fn is_floor(f: FloorDefinition, n: int) -> bool {
    &&& f.floor_number == n
    &&& string_seq(f.encounter_pool@) == floor_pool(n)
    &&& f.enemy_count_range == floor_count_range(n)
    &&& f.enemy_level_bonus == floor_level_bonus(n)
    &&& f.is_boss_floor == (n == 5 || n == 10)
    &&& match floor_boss(n) {
        Some(b) => f.boss_id is Some && f.boss_id->0@ == b,
        None => f.boss_id is None,
    }
    &&& f.floor_reward_gold == floor_gold(n)
    &&& string_seq(f.floor_reward_items@) == floor_items(n)
}

/// Two enemy names differ when they differ in length, or at their first or
/// sixth letter.
proof fn lemma_names_differ(a: Seq<char>, b: Seq<char>)
    requires
        a.len() != b.len() || (a.len() > 5 && b.len() > 5 && (a[0] != b[0] || a[5] != b[5])),
    ensures
        a != b,
{
}

/// Floors come in bands of three (1-3, 4-6, 7-9), each band with a pool of
/// three enemies of its own: the floors of a band draw from the same
/// enemies, floors of different bands share no enemy, and the top floor has
/// no pool.
pub proof fn lemma_floor_pools_by_band(f: FloorDefinition, g: FloorDefinition, m: int, n: int)
    requires
        is_floor(f, m),
        is_floor(g, n),
        1 <= m <= 10,
        1 <= n <= 10,
    ensures
        m <= 9 ==> f.encounter_pool@.len() == 3,
        m == 10 ==> f.encounter_pool@.len() == 0,
        m <= 9 && n <= 9 && (m - 1) / 3 == (n - 1) / 3 ==> string_seq(f.encounter_pool@) == string_seq(g.encounter_pool@),
        m <= 9 && n <= 9 && (m - 1) / 3 != (n - 1) / 3 ==> forall|i: int, j: int|
            0 <= i < 3 && 0 <= j < 3 ==> #[trigger] f.encounter_pool@[i]@ != #[trigger] g.encounter_pool@[j]@,
{
    assert(string_seq(f.encounter_pool@).len() == f.encounter_pool@.len());
    assert(string_seq(g.encounter_pool@).len() == g.encounter_pool@.len());
    if m <= 9 && n <= 9 && (m - 1) / 3 != (n - 1) / 3 {
        reveal_strlit("mercury-slime");
        reveal_strlit("venus-wolf");
        reveal_strlit("mars-bandit");
        reveal_strlit("jupiter-hawk");
        reveal_strlit("venus-golem");
        reveal_strlit("mars-lizard");
        reveal_strlit("shadow-wyrm");
        reveal_strlit("storm-elemental");
        reveal_strlit("iron-golem");
        let pf = floor_pool(m);
        let pg = floor_pool(n);
        assert forall|i: int, j: int| 0 <= i < 3 && 0 <= j < 3 implies #[trigger] f.encounter_pool@[i]@
            != #[trigger] g.encounter_pool@[j]@ by {
            assert(f.encounter_pool@[i]@ == pf[i]);
            assert(g.encounter_pool@[j]@ == pg[j]);
            lemma_names_differ(pf[i], pg[j]);
        }
    }
}

fn strings_of(v: &[&str]) -> (r: Vec<String>)
    ensures
        string_seq(r@) == v@.map_values(|s: &str| s@),
{
    let r = to_strings(v);
    assert(string_seq(r@) =~= v@.map_values(|s: &str| s@));
    r
}

fn make_floor(n: u8) -> (f: FloorDefinition)
    requires
        1 <= n <= 10,
    ensures
        is_floor(f, n as int),
{
    let pool: Vec<String> = if n <= 3 {
        let r = strings_of(&["mercury-slime", "venus-wolf", "mars-bandit"]);
        assert(string_seq(r@) =~= floor_pool(n as int));
        r
    } else if n <= 6 {
        let r = strings_of(&["jupiter-hawk", "venus-golem", "mars-lizard"]);
        assert(string_seq(r@) =~= floor_pool(n as int));
        r
    } else if n <= 9 {
        let r = strings_of(&["shadow-wyrm", "storm-elemental", "iron-golem"]);
        assert(string_seq(r@) =~= floor_pool(n as int));
        r
    } else {
        let r: Vec<String> = Vec::new();
        assert(string_seq(r@) =~= floor_pool(n as int));
        r
    };
    let range: (usize, usize) = if n <= 3 {
        (1, 2)
    } else if n <= 6 {
        (2, 3)
    } else if n <= 9 {
        (2, 4)
    } else {
        (1, 1)
    };
    let bonus: i32 = if n <= 3 {
        0
    } else if n <= 6 {
        2
    } else {
        4
    };
    let gold: u32 = match n {
        1 => 50,
        2 => 75,
        3 => 100,
        4 => 150,
        5 => 200,
        6 => 250,
        7 => 300,
        8 => 400,
        _ => 500,
    };
    let boss: Option<String> = if n == 5 {
        Some("slaver-captain".to_owned())
    } else if n == 10 {
        Some("dark-overlord".to_owned())
    } else {
        None
    };
    let items: Vec<String> = if n == 5 {
        let r = strings_of(&["elixir"]);
        assert(string_seq(r@) =~= floor_items(n as int));
        r
    } else if n == 10 {
        let r = strings_of(&["psy-crystal", "elixir"]);
        assert(string_seq(r@) =~= floor_items(n as int));
        r
    } else {
        let r: Vec<String> = Vec::new();
        assert(string_seq(r@) =~= floor_items(n as int));
        r
    };
    FloorDefinition {
        floor_number: n,
        encounter_pool: pool,
        enemy_count_range: range,
        enemy_level_bonus: bonus,
        is_boss_floor: n == 5 || n == 10,
        boss_id: boss,
        floor_reward_gold: gold,
        floor_reward_items: items,
    }
}

/// The ten floors, in order: floors 1-3 easy, 4-6 medium with a mini-boss on
/// floor 5, 7-9 hard, and the final boss alone on floor 10.
pub fn build_floor_definitions() -> (floors: Vec<FloorDefinition>)
    ensures
        floors@.len() == 10,
        forall|i: int| 0 <= i < 10 ==> is_floor(#[trigger] floors@[i], i + 1),
{
    let mut floors: Vec<FloorDefinition> = Vec::new();
    let mut n: u8 = 1;
    while n <= 10
        invariant
            1 <= n <= 11,
            floors@.len() == n - 1,
            forall|i: int| 0 <= i < n - 1 ==> is_floor(#[trigger] floors@[i], i + 1),
        decreases 11 - n,
    {
        floors.push(make_floor(n));
        n = n + 1;
    }
    floors
}

/// The boss that opens a floor's encounter, if the floor has one.
pub open spec fn boss_part(floor: FloorDefinition) -> Seq<(Seq<char>, i32)> {
    if floor.is_boss_floor && floor.boss_id is Some {
        seq![(floor.boss_id->0@, floor.enemy_level_bonus)]
    } else {
        Seq::empty()
    }
}

/// The encounter a floor produces when `picks` are the drawn pool indices.
pub open spec fn encounter_spec(floor: FloorDefinition, picks: Seq<usize>) -> Seq<(Seq<char>, i32)> {
    boss_part(floor) + picks.map_values(|p: usize| (floor.encounter_pool@[p as int]@, floor.enemy_level_bonus))
}

/// The allowed numbers of regular enemies on a floor with a non-empty pool.
pub open spec fn count_allowed(floor: FloorDefinition, count: int) -> bool {
    let (min, max) = floor.enemy_count_range;
    if min >= max {
        count == min
    } else {
        min <= count <= max
    }
}

/// The content of an encounter as pairs of enemy ID and level bonus.
pub open spec fn encounter_view(v: Seq<(String, i32)>) -> Seq<(Seq<char>, i32)> {
    v.map_values(|e: (String, i32)| (e.0@, e.1))
}

/// Builds a floor's encounter from drawn pool indices: the boss first on a
/// boss floor, then one pool enemy per index, all with the floor's level
/// bonus. An empty pool contributes nothing.
pub fn floor_encounter_from_rolls(floor: &FloorDefinition, picks: &Vec<usize>) -> (r: Vec<(String, i32)>)
    requires
        forall|i: int| 0 <= i < picks@.len() ==> (#[trigger] picks@[i]) < floor.encounter_pool@.len(),
    ensures
        encounter_view(r@) == encounter_spec(*floor, picks@),
{
    let mut enemies: Vec<(String, i32)> = Vec::new();
    if floor.is_boss_floor {
        if let Some(boss_id) = &floor.boss_id {
            enemies.push((boss_id.clone(), floor.enemy_level_bonus));
        }
    }
    let ghost base = encounter_view(enemies@);
    assert(base =~= boss_part(*floor));
    let mut i: usize = 0;
    while i < picks.len()
        invariant
            i <= picks@.len(),
            forall|k: int| 0 <= k < picks@.len() ==> (#[trigger] picks@[k]) < floor.encounter_pool@.len(),
            encounter_view(enemies@) == boss_part(*floor) + picks@.subrange(0, i as int).map_values(
                |p: usize| (floor.encounter_pool@[p as int]@, floor.enemy_level_bonus),
            ),
        decreases picks@.len() - i,
    {
        let idx = picks[i];
        enemies.push((floor.encounter_pool[idx].clone(), floor.enemy_level_bonus));
        proof {
            let f = |p: usize| (floor.encounter_pool@[p as int]@, floor.enemy_level_bonus);
            assert(picks@.subrange(0, i + 1) =~= picks@.subrange(0, i as int).push(picks@[i as int]));
            assert(picks@.subrange(0, i + 1).map_values(f) =~= picks@.subrange(0, i as int).map_values(f).push(f(picks@[i as int])));
            assert(encounter_view(enemies@) =~= boss_part(*floor) + picks@.subrange(0, i + 1).map_values(f));
        }
        i = i + 1;
    }
    assert(picks@.subrange(0, i as int) =~= picks@);
    enemies
}

/// The number of pool enemies a floor fields for a count roll of `roll`:
/// the floor's minimum when its range is a single value (or reversed),
/// otherwise the roll.
pub open spec fn floor_count_spec(floor: FloorDefinition, roll: usize) -> usize {
    let (min, max) = floor.enemy_count_range;
    if min >= max {
        min
    } else {
        roll
    }
}

pub fn floor_enemy_count(floor: &FloorDefinition, roll: usize) -> (count: usize)
    ensures
        count == floor_count_spec(*floor, roll),
{
    let (min, max) = floor.enemy_count_range;
    if min >= max {
        min
    } else {
        roll
    }
}

/// Generates a floor encounter with `rng`: the boss first on a boss floor,
/// then, if the floor has a pool, a number of pool enemies drawn within the
/// floor's count range (the minimum when the range is a single value), each
/// chosen uniformly from the pool. Every enemy carries the floor's level
/// bonus.
pub fn generate_floor_encounter(floor: &FloorDefinition, rng: &mut StdRng) -> (r: Vec<(String, i32)>)
    ensures
        floor.encounter_pool@.len() == 0 ==> encounter_view(r@) == boss_part(*floor),
        floor.encounter_pool@.len() > 0 ==> exists|picks: Seq<usize>| {
            &&& count_allowed(*floor, picks.len() as int)
            &&& forall|i: int| 0 <= i < picks.len() ==> (#[trigger] picks[i]) < floor.encounter_pool@.len()
            &&& encounter_view(r@) == encounter_spec(*floor, picks)
        },
{
    let mut picks: Vec<usize> = Vec::new();
    let pool_len = floor.encounter_pool.len();
    if pool_len > 0 {
        let (min, max) = floor.enemy_count_range;
        let roll = if min >= max {
            min
        } else {
            gen_range_inclusive(rng, min, max)
        };
        let count = floor_enemy_count(floor, roll);
        let mut i: usize = 0;
        while i < count
            invariant
                pool_len == floor.encounter_pool@.len(),
                pool_len > 0,
                i <= count,
                picks@.len() == i,
                forall|k: int| 0 <= k < picks@.len() ==> (#[trigger] picks@[k]) < pool_len,
            decreases count - i,
        {
            let idx = gen_range_inclusive(rng, 0, pool_len - 1);
            picks.push(idx);
            i = i + 1;
        }
    }
    let r = floor_encounter_from_rolls(floor, &picks);
    proof {
        if pool_len == 0 {
            assert(picks@ =~= Seq::<usize>::empty());
            assert(encounter_spec(*floor, picks@) =~= boss_part(*floor));
        }
    }
    r
}

} // verus!
