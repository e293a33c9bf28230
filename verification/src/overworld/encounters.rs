//! Random encounters in the wild: which enemies can appear at the party's
//! level and how a group is drawn.

use crate::core_plugin::Party;
use crate::data::{BattleUnit, EnemyDefinition, GameData, UnitSide};
use crate::random::{gen_range_inclusive, gen_ratio};
use crate::strmap::StrMap;
use crate::text::{clone_strings, string_seq};
use rand::rngs::StdRng;
use vstd::prelude::*;

verus! {

/// Fewest and most enemies in a random encounter.
pub const MIN_ENCOUNTER_ENEMIES: usize = 1;
pub const MAX_ENCOUNTER_ENEMIES: usize = 3;
/// Battle IDs of enemies start here.
pub const ENEMY_BATTLE_ID_BASE: u32 = 10_000;

/// Sum of the recorded unit levels.
pub open spec fn level_sum(levels: Seq<(u8, u32)>) -> nat
    decreases levels.len(),
{
    if levels.len() == 0 {
        0
    } else {
        level_sum(levels.drop_last()) + levels.last().0 as nat
    }
}

/// The party's average level over recorded units (rounded down, at least
/// 1), or 1 when no unit has a recorded level.
pub open spec fn average_level_spec(p: Party) -> int {
    let n = p.unit_levels.size();
    if n == 0 {
        1
    } else {
        let avg = level_sum(p.unit_levels.values()) / n;
        if avg < 1 {
            1
        } else {
            avg as int
        }
    }
}

pub fn get_average_party_level(party: &Party) -> (l: u8)
    ensures
        l == average_level_spec(*party),
{
    let n = party.unit_levels.len();
    if n == 0 {
        return 1;
    }
    let mut total: u128 = 0;
    let mut i: usize = 0;
    while i < n
        invariant
            n == party.unit_levels.size(),
            i <= n,
            total == level_sum(party.unit_levels.values().take(i as int)),
            total <= 255 * i,
        decreases n - i,
    {
        let v = party.unit_levels.value_at(i).0;
        proof {
            let s = party.unit_levels.values();
            assert(s.take(i + 1).drop_last() =~= s.take(i as int));
            assert(s.take(i + 1).last() == party.unit_levels.value(i as int));
        }
        total = total + v as u128;
        i = i + 1;
    }
    assert(party.unit_levels.values().take(n as int) =~= party.unit_levels.values());
    let avg = total / n as u128;
    proof {
        assert(avg <= 255) by (nonlinear_arith)
            requires
                total <= 255 * n,
                n > 0,
                avg == total / (n as u128),
        ;
    }
    if avg < 1 {
        1
    } else {
        avg as u8
    }
}

/// `u` is the battle unit an enemy definition becomes under battle ID `id`,
/// fighting at `level`.
pub open spec fn enemy_unit_at_level(u: BattleUnit, def: EnemyDefinition, id: u32, level: u8) -> bool {
    &&& u.id == id
    &&& u.name@ == def.name@
    &&& u.side == UnitSide::Enemy
    &&& u.element == def.element
    &&& u.level == level
    &&& u.hp == def.hp
    &&& u.max_hp == def.hp
    &&& u.pp == def.pp
    &&& u.max_pp == def.pp
    &&& u.atk == def.atk
    &&& u.def == def.def
    &&& u.mag == def.mag
    &&& u.spd == def.spd
    &&& u.luck == 5 + def.level / 2
    &&& string_seq(u.ability_ids@) == string_seq(def.ability_ids@)
    &&& u.djinn_ids@.len() == 0
    &&& u.damage_taken == 0
    &&& u.damage_dealt == 0
    &&& u.xp == 0
}

/// `u` is the battle unit an enemy definition becomes under battle ID `id`.
pub open spec fn unit_from_enemy(u: BattleUnit, def: EnemyDefinition, id: u32) -> bool {
    enemy_unit_at_level(u, def, id, def.level)
}

/// An enemy as a combatant: full HP and PP, luck 5 plus half its level, no
/// djinn, no damage, no XP.
pub fn enemy_definition_to_battle_unit(definition: &EnemyDefinition, id: u32) -> (u: BattleUnit)
    ensures
        unit_from_enemy(u, *definition, id),
{
    BattleUnit {
        id,
        name: definition.name.clone(),
        side: UnitSide::Enemy,
        element: definition.element,
        level: definition.level,
        hp: definition.hp,
        max_hp: definition.hp,
        pp: definition.pp,
        max_pp: definition.pp,
        atk: definition.atk,
        def: definition.def,
        mag: definition.mag,
        spd: definition.spd,
        luck: 5 + (definition.level / 2) as i32,
        ability_ids: clone_strings(&definition.ability_ids),
        djinn_ids: Vec::new(),
        damage_taken: 0,
        damage_dealt: 0,
        xp: 0,
    }
}

/// Positions, in registry order, of the enemies of a tier.
pub open spec fn tier_indices(enemies: StrMap<EnemyDefinition>, tier: u8) -> Seq<usize> {
    Seq::new(enemies.size(), |i: int| i as usize).filter_map(
        |i: usize| if enemies.value(i as int).tier == tier { Some(i) } else { None },
    )
}

/// The enemies of a tier, as positions in the registry.
pub fn tier_enemies(data: &GameData, tier: u8) -> (r: Vec<usize>)
    ensures
        r@ == tier_indices(data.enemies, tier),
        forall|k: int| 0 <= k < r@.len() ==> (#[trigger] r@[k]) < data.enemies.size() && data.enemies.value(r@[k] as int).tier == tier,
{
    let n = data.enemies.len();
    let ghost all = Seq::new(n as nat, |i: int| i as usize);
    let ghost f = |i: usize| if data.enemies.value(i as int).tier == tier { Some(i) } else { None };
    let mut r: Vec<usize> = Vec::new();
    let mut i: usize = 0;
    while i < n
        invariant
            n == data.enemies.size(),
            all == Seq::new(n as nat, |i: int| i as usize),
            f == (|i: usize| if data.enemies.value(i as int).tier == tier { Some(i) } else { None }),
            i <= n,
            r@ == all.take(i as int).filter_map(f),
            forall|k: int| 0 <= k < r@.len() ==> (#[trigger] r@[k]) < i && data.enemies.value(r@[k] as int).tier == tier,
        decreases n - i,
    {
        proof {
            assert(all.take(i + 1).drop_last() =~= all.take(i as int));
            assert(all.take(i + 1).last() == i);
        }
        if data.enemies.value_at(i).tier == tier {
            r.push(i);
            assert(r@ =~= all.take(i + 1).filter_map(f));
        } else {
            assert(r@ =~= all.take(i + 1).filter_map(f));
        }
        i = i + 1;
    }
    assert(all.take(n as int) =~= all);
    r
}

/// Keeps the pool entries whose roll came out true: entry `i` stays when
/// roll `i` is true; an entry without a roll is dropped.
pub open spec fn keep_by(pool: Seq<usize>, keep: Seq<bool>) -> Seq<usize>
    decreases pool.len(),
{
    if pool.len() == 0 {
        Seq::empty()
    } else {
        let rest = keep_by(pool.drop_last(), keep);
        let i = pool.len() - 1;
        if i < keep.len() && keep[i] {
            rest.push(pool.last())
        } else {
            rest
        }
    }
}

/// The tiers that can appear at a level: (first tier, second tier). Levels
/// up to 4 only see tier 1; 5 to 8 mix tiers 1 and 2; 9 and up mix tiers 2
/// and 3.
pub open spec fn level_tiers(level: u8) -> (u8, u8) {
    if 1 <= level <= 4 {
        (1, 1)
    } else if 5 <= level <= 8 {
        (1, 2)
    } else {
        (2, 3)
    }
}

/// The tier a level falls back to when no enemy of its mixed pool is kept:
/// tier 1 for levels 5 to 8, tier 2 for 9 to 12, tier 3 above and at level 0.
pub open spec fn fallback_tier(level: u8) -> u8 {
    if 5 <= level <= 8 {
        1
    } else if 9 <= level <= 12 {
        2
    } else {
        3
    }
}

/// Chance, out of 5, that an enemy of `tier` stays in the mixed pool of a
/// party of `level`: 3 for the lower tier and 2 for the higher one at levels
/// 5 to 12; above (and at level 0) 3 for tier 3 and 2 for tier 2.
pub open spec fn keep_chance_spec(level: u8, tier: u8) -> u32 {
    if 5 <= level <= 8 {
        if tier == 1 { 3 } else { 2 }
    } else if 9 <= level <= 12 {
        if tier == 2 { 3 } else { 2 }
    } else {
        if tier == 2 { 2 } else { 3 }
    }
}

/// The chance, as (numerator, denominator), that a pool enemy of `tier` is
/// kept for a party of `level`.
pub fn keep_chance(level: u8, tier: u8) -> (c: (u32, u32))
    ensures
        c == (keep_chance_spec(level, tier), 5u32),
{
    let num: u32 = if 5 <= level && level <= 8 {
        if tier == 1 { 3 } else { 2 }
    } else if 9 <= level && level <= 12 {
        if tier == 2 { 3 } else { 2 }
    } else {
        if tier == 2 { 2 } else { 3 }
    };
    (num, 5)
}

/// The mixed pool of a level: the enemies of its first tier, then those of
/// its second.
pub open spec fn mixed_pool_spec(level: u8, data: GameData) -> Seq<usize> {
    let (a, b) = level_tiers(level);
    tier_indices(data.enemies, a) + tier_indices(data.enemies, b)
}

/// The pool a level draws from: all of tier 1 up to level 4; otherwise the
/// enemies of the mixed pool whose keep roll came out true, or, when none
/// did, the level's fallback tier.
pub open spec fn candidates_spec(level: u8, data: GameData, keep: Seq<bool>) -> Seq<usize> {
    if 1 <= level <= 4 {
        tier_indices(data.enemies, 1)
    } else {
        let kept = keep_by(mixed_pool_spec(level, data), keep);
        if kept.len() == 0 {
            tier_indices(data.enemies, fallback_tier(level))
        } else {
            kept
        }
    }
}

/// Every keep chance is a proper chance: more than none and less than
/// certain, so each keep roll can come out either way.
pub proof fn lemma_keep_chance_is_proper(level: u8, tier: u8)
    ensures
        0 < keep_chance_spec(level, tier) < 5,
{
}

proof fn lemma_keep_all(pool: Seq<usize>, keep: Seq<bool>)
    requires
        keep.len() >= pool.len(),
        forall|i: int| 0 <= i < keep.len() ==> keep[i],
    ensures
        keep_by(pool, keep) == pool,
    decreases pool.len(),
{
    if pool.len() > 0 {
        lemma_keep_all(pool.drop_last(), keep);
        assert(pool.drop_last().push(pool.last()) =~= pool);
    }
}

/// From level 5 on, every enemy of the level's higher tier can meet the
/// party: when the keep rolls come out true it is a candidate.
pub proof fn lemma_higher_tier_can_appear(level: u8, data: GameData, e: usize)
    requires
        !(1 <= level <= 4),
        tier_indices(data.enemies, level_tiers(level).1).contains(e),
    ensures
        exists|keep: Seq<bool>| #[trigger] candidates_spec(level, data, keep).contains(e),
{
    let pool = mixed_pool_spec(level, data);
    let keep = Seq::new(pool.len(), |i: int| true);
    lemma_keep_all(pool, keep);
    let a = tier_indices(data.enemies, level_tiers(level).0);
    let b = tier_indices(data.enemies, level_tiers(level).1);
    let k = choose|k: int| 0 <= k < b.len() && b[k] == e;
    assert(pool[a.len() + k] == e);
    assert(pool.contains(e));
    assert(candidates_spec(level, data, keep) == pool);
}

/// The number of keep rolls a level takes: one per mixed pool enemy, none up
/// to level 4.
pub open spec fn keep_roll_count(level: u8, data: GameData) -> int {
    if 1 <= level <= 4 {
        0
    } else {
        mixed_pool_spec(level, data).len() as int
    }
}

fn mixed_pool(data: &GameData, level: u8) -> (r: Vec<usize>)
    ensures
        r@ == mixed_pool_spec(level, *data),
        forall|k: int| 0 <= k < r@.len() ==> (#[trigger] r@[k]) < data.enemies.size(),
{
    let (ta, tb): (u8, u8) = if 1 <= level && level <= 4 {
        (1, 1)
    } else if 5 <= level && level <= 8 {
        (1, 2)
    } else {
        (2, 3)
    };
    let mut pool = tier_enemies(data, ta);
    let second = tier_enemies(data, tb);
    let mut j: usize = 0;
    while j < second.len()
        invariant
            j <= second@.len(),
            pool@ == tier_indices(data.enemies, ta) + second@.take(j as int),
            forall|k: int| 0 <= k < pool@.len() ==> (#[trigger] pool@[k]) < data.enemies.size(),
            forall|k: int| 0 <= k < second@.len() ==> (#[trigger] second@[k]) < data.enemies.size(),
        decreases second@.len() - j,
    {
        pool.push(second[j]);
        j = j + 1;
        assert(pool@ =~= tier_indices(data.enemies, ta) + second@.take(j as int));
    }
    assert(second@.take(j as int) =~= second@);
    pool
}

/// The candidates for a party of `party_level` given the keep rolls: roll
/// `i` decides whether the `i`-th enemy of the mixed pool stays.
pub fn candidates_from_rolls(party_level: u8, data: &GameData, keep: &Vec<bool>) -> (r: Vec<usize>)
    ensures
        r@ == candidates_spec(party_level, *data, keep@),
        forall|k: int| 0 <= k < r@.len() ==> (#[trigger] r@[k]) < data.enemies.size(),
{
    if 1 <= party_level && party_level <= 4 {
        return tier_enemies(data, 1);
    }
    let pool = mixed_pool(data, party_level);
    let mut kept: Vec<usize> = Vec::new();
    let mut i: usize = 0;
    while i < pool.len()
        invariant
            i <= pool@.len(),
            kept@ == keep_by(pool@.take(i as int), keep@),
            forall|k: int| 0 <= k < pool@.len() ==> (#[trigger] pool@[k]) < data.enemies.size(),
            forall|k: int| 0 <= k < kept@.len() ==> (#[trigger] kept@[k]) < data.enemies.size(),
        decreases pool@.len() - i,
    {
        proof {
            assert(pool@.take(i + 1).drop_last() =~= pool@.take(i as int));
            assert(pool@.take(i + 1).last() == pool@[i as int]);
        }
        if i < keep.len() && keep[i] {
            kept.push(pool[i]);
        }
        i = i + 1;
    }
    assert(pool@.take(i as int) =~= pool@);
    if kept.len() == 0 {
        let fallback: u8 = if 5 <= party_level && party_level <= 8 {
            1
        } else if 9 <= party_level && party_level <= 12 {
            2
        } else {
            3
        };
        tier_enemies(data, fallback)
    } else {
        kept
    }
}

/// Rolls which enemies the party's level lets appear: one keep roll per
/// mixed pool enemy, with its tier's chance (see `keep_chance`).
pub fn encounter_candidates(rng: &mut StdRng, party_level: u8, data: &GameData) -> (r: Vec<usize>)
    ensures
        exists|keep: Seq<bool>| keep.len() == keep_roll_count(party_level, *data)
            && r@ == candidates_spec(party_level, *data, keep),
        forall|k: int| 0 <= k < r@.len() ==> (#[trigger] r@[k]) < data.enemies.size(),
{
    let mut keep: Vec<bool> = Vec::new();
    if !(1 <= party_level && party_level <= 4) {
        let pool = mixed_pool(data, party_level);
        let mut i: usize = 0;
        while i < pool.len()
            invariant
                i <= pool@.len(),
                keep@.len() == i,
                forall|k: int| 0 <= k < pool@.len() ==> (#[trigger] pool@[k]) < data.enemies.size(),
            decreases pool@.len() - i,
        {
            let tier = data.enemies.value_at(pool[i]).tier;
            let (num, den) = keep_chance(party_level, tier);
            keep.push(gen_ratio(rng, num, den));
            i = i + 1;
        }
    }
    let r = candidates_from_rolls(party_level, data, &keep);
    assert(keep@.len() == keep_roll_count(party_level, *data));
    r
}

/// The candidates drawn by `picks`: each pick takes one candidate out, the
/// last candidate filling its place.
pub open spec fn draw_spec(cands: Seq<usize>, picks: Seq<usize>) -> Seq<usize>
    decreases picks.len(),
{
    if picks.len() == 0 || cands.len() == 0 {
        Seq::empty()
    } else {
        let p = picks[0] as int;
        seq![cands[p]] + draw_spec(cands.update(p, cands.last()).drop_last(), picks.drop_first())
    }
}

/// Picks that are in range when each draw shrinks the candidates by one.
pub open spec fn picks_valid(n: int, picks: Seq<usize>) -> bool {
    picks.len() <= n && forall|i: int| 0 <= i < picks.len() ==> (#[trigger] picks[i]) < n - i
}

/// A valid draw takes exactly one candidate per pick.
pub proof fn lemma_draw_len(cands: Seq<usize>, picks: Seq<usize>)
    requires
        picks_valid(cands.len() as int, picks),
    ensures
        draw_spec(cands, picks).len() == picks.len(),
    decreases picks.len(),
{
    if picks.len() > 0 {
        let p = picks[0] as int;
        let rest = cands.update(p, cands.last()).drop_last();
        assert forall|i: int| 0 <= i < picks.drop_first().len() implies (#[trigger] picks.drop_first()[i]) < rest.len() - i by {
            assert(picks[i + 1] < cands.len() - (i + 1));
        }
        lemma_draw_len(rest, picks.drop_first());
    }
}

/// Builds an encounter from drawn candidate positions: the `i`-th pick
/// becomes the enemy with battle ID 10000 + i.
pub fn random_encounter_from_rolls(data: &GameData, candidates: &Vec<usize>, picks: &Vec<usize>) -> (units: Vec<BattleUnit>)
    requires
        forall|k: int| 0 <= k < candidates@.len() ==> (#[trigger] candidates@[k]) < data.enemies.size(),
        picks_valid(candidates@.len() as int, picks@),
        picks@.len() <= MAX_ENCOUNTER_ENEMIES,
    ensures
        units@.len() == picks@.len(),
        forall|i: int| 0 <= i < picks@.len() ==> unit_from_enemy(
            #[trigger] units@[i],
            data.enemies.value(draw_spec(candidates@, picks@)[i] as int),
            (ENEMY_BATTLE_ID_BASE + i) as u32,
        ),
{
    let mut pool: Vec<usize> = Vec::new();
    let mut c: usize = 0;
    while c < candidates.len()
        invariant
            c <= candidates@.len(),
            pool@ == candidates@.take(c as int),
        decreases candidates@.len() - c,
    {
        pool.push(candidates[c]);
        c = c + 1;
        assert(pool@ =~= candidates@.take(c as int));
    }
    assert(candidates@.take(c as int) =~= candidates@);
    proof {
        lemma_draw_len(candidates@, picks@);
        let d = draw_spec(candidates@, picks@);
        assert(picks@.skip(0) =~= picks@);
        assert(d.take(0) + d =~= d);
    }
    let mut units: Vec<BattleUnit> = Vec::new();
    let mut i: usize = 0;
    while i < picks.len()
        invariant
            i <= picks@.len(),
            picks@.len() <= MAX_ENCOUNTER_ENEMIES,
            picks_valid(candidates@.len() as int, picks@),
            draw_spec(candidates@, picks@).len() == picks@.len(),
            pool@.len() == candidates@.len() - i,
            forall|k: int| 0 <= k < picks@.len() - i ==> (#[trigger] picks@.skip(i as int)[k]) < pool@.len() - k,
            forall|k: int| 0 <= k < pool@.len() ==> (#[trigger] pool@[k]) < data.enemies.size(),
            units@.len() == i,
            draw_spec(candidates@, picks@) == draw_spec(candidates@, picks@).take(i as int) + draw_spec(pool@, picks@.skip(i as int)),
            forall|k: int| 0 <= k < i ==> unit_from_enemy(
                #[trigger] units@[k],
                data.enemies.value(draw_spec(candidates@, picks@)[k] as int),
                (ENEMY_BATTLE_ID_BASE + k) as u32,
            ),
        decreases picks@.len() - i,
    {
        let p = picks[i];
        let ghost before = pool@;
        let ghost rest = picks@.skip(i as int);
        proof {
            assert(rest[0] == p);
            assert(p < pool@.len());
            assert(rest.drop_first() =~= picks@.skip(i + 1));
        }
        let idx = pool.swap_remove(p);
        let unit = enemy_definition_to_battle_unit(data.enemies.value_at(idx), ENEMY_BATTLE_ID_BASE + i as u32);
        units.push(unit);
        proof {
            let d = draw_spec(candidates@, picks@);
            let tail2 = draw_spec(pool@, picks@.skip(i + 1));
            assert(draw_spec(before, rest) == seq![before[p as int]] + tail2);
            let a = d.take(i as int);
            assert(a.len() == i);
            assert(d == a + (seq![idx] + tail2));
            assert(d[i as int] == idx);
            assert(d.take(i + 1) =~= a.push(idx));
            assert(d =~= d.take(i + 1) + tail2);
            assert forall|k: int| 0 <= k < picks@.len() - (i + 1) implies (#[trigger] picks@.skip(i + 1)[k]) < pool@.len() - k by {
                assert(picks@.skip(i + 1)[k] == picks@.skip(i as int)[k + 1]);
            }
        }
        i = i + 1;
    }
    units
}

/// `units` is an encounter that a party of `party_level` can meet: some keep
/// rolls give the candidates, and one to three picks (never more than there
/// are candidates) draw from them, each candidate at most once.
pub open spec fn random_encounter_possible(party_level: u8, data: GameData, units: Seq<BattleUnit>) -> bool {
    exists|keep: Seq<bool>, picks: Seq<usize>|
        #![trigger draw_spec(candidates_spec(party_level, data, keep), picks)]
    {
        let cands = candidates_spec(party_level, data, keep);
        &&& picks_valid(cands.len() as int, picks)
        &&& (cands.len() > 0 ==> MIN_ENCOUNTER_ENEMIES <= picks.len() <= MAX_ENCOUNTER_ENEMIES)
        &&& units.len() == picks.len()
        &&& forall|i: int| 0 <= i < picks.len() ==> unit_from_enemy(
            #[trigger] units[i],
            data.enemies.value(draw_spec(cands, picks)[i] as int),
            (ENEMY_BATTLE_ID_BASE + i) as u32,
        )
    }
}

/// How many enemies an encounter has for a size roll of `roll`: the roll,
/// but never more than there are candidates.
pub fn encounter_size(roll: usize, candidates: usize) -> (n: usize)
    ensures
        n == if roll < candidates { roll } else { candidates },
{
    if roll < candidates {
        roll
    } else {
        candidates
    }
}

/// Draws a random encounter for a party of the given average level: rolls
/// the candidates, draws one to three of them (never more than there are),
/// each at most once.
pub fn build_random_encounter(rng: &mut StdRng, party_level: u8, data: &GameData) -> (units: Vec<BattleUnit>)
    ensures
        random_encounter_possible(party_level, *data, units@),
{
    let candidates = encounter_candidates(rng, party_level, data);
    let ghost keep = choose|keep: Seq<bool>| candidates@ == candidates_spec(party_level, *data, keep);
    let mut picks: Vec<usize> = Vec::new();
    if candidates.len() > 0 {
        let roll = gen_range_inclusive(rng, MIN_ENCOUNTER_ENEMIES, MAX_ENCOUNTER_ENEMIES);
        let count = encounter_size(roll, candidates.len());
        let mut i: usize = 0;
        while i < count
            invariant
                count <= candidates@.len(),
                MIN_ENCOUNTER_ENEMIES <= count <= MAX_ENCOUNTER_ENEMIES,
                i <= count,
                picks@.len() == i,
                forall|k: int| 0 <= k < i ==> (#[trigger] picks@[k]) < candidates@.len() - k,
            decreases count - i,
        {
            let p = gen_range_inclusive(rng, 0, candidates.len() - i - 1);
            picks.push(p);
            i = i + 1;
        }
    }
    assert(picks_valid(candidates@.len() as int, picks@));
    let units = random_encounter_from_rolls(data, &candidates, &picks);
    assert(draw_spec(candidates_spec(party_level, *data, keep), picks@) == draw_spec(candidates@, picks@));
    units
}

} // verus!
