//! Walking the overworld: one step of the player, the tower door, and the
//! battles a step can start.

use crate::core_plugin::story::TOWER_ENTERED;
use crate::core_plugin::{GameState, Party};
use crate::data::{BattlePhase, BattleUnit, GameData, GridPosition};
use crate::overworld::encounters::{
    build_random_encounter, enemy_definition_to_battle_unit, enemy_unit_at_level,
    get_average_party_level, average_level_spec, random_encounter_possible, ENEMY_BATTLE_ID_BASE,
};
use crate::overworld::map::{walkable, TileMap, TILE_DOOR};
use crate::overworld::npcs::{facing_offset, interact_target, Facing, Npc};
use crate::random::gen_ratio;
use crate::text::{decimal, push_decimal, push_signed, signed_decimal, string_seq};
use crate::timer::OnceTimer;
use crate::tower::{
    boss_part, build_floor_definitions, count_allowed, encounter_spec, encounter_view, floor_boss,
    floor_pool, generate_floor_encounter, is_floor, FloorDefinition, TowerState,
};
use rand::rngs::StdRng;
use vstd::prelude::*;

verus! {

/// Chance, in percent, that a step into an encounter zone starts a battle.
pub const ENCOUNTER_CHANCE_PERCENT: u32 = 15;
/// The tower door tile.
pub const TOWER_DOOR_X: i32 = 26;
pub const TOWER_DOOR_Y: i32 = 5;
/// Where the player appears when not coming back from a battle.
pub const START_X: i32 = 15;
pub const START_Y: i32 = 10;

/// The direction the held keys move the player in: up wins over down, down
/// over left, left over right.
pub open spec fn keys_direction(up: bool, down: bool, left: bool, right: bool) -> Option<Facing> {
    if up {
        Some(Facing::Up)
    } else if down {
        Some(Facing::Down)
    } else if left {
        Some(Facing::Left)
    } else if right {
        Some(Facing::Right)
    } else {
        None
    }
}

pub fn direction_from_keys(up: bool, down: bool, left: bool, right: bool) -> (f: Option<Facing>)
    ensures
        f == keys_direction(up, down, left, right),
{
    if up {
        Some(Facing::Up)
    } else if down {
        Some(Facing::Down)
    } else if left {
        Some(Facing::Left)
    } else if right {
        Some(Facing::Right)
    } else {
        None
    }
}

/// The move cooldown after `delta_ms` more milliseconds.
pub open spec fn ticked(t: OnceTimer, delta_ms: u32) -> OnceTimer {
    OnceTimer {
        duration_ms: t.duration_ms,
        elapsed_ms: if t.elapsed_ms + delta_ms >= t.duration_ms {
            t.duration_ms
        } else {
            (t.elapsed_ms + delta_ms) as u32
        },
    }
}

/// One frame of the movement keys. While a dialog is shown nothing happens.
/// Otherwise the move cooldown runs on; until it has run out no step is
/// taken. Once it has, the first held direction (up, down, left, right)
/// turns the player and is the step to try; a step that moves the player
/// starts the cooldown over (`OnceTimer::reset`).
pub fn movement_frame(
    cooldown: &mut OnceTimer,
    delta_ms: u32,
    dialog_active: bool,
    up: bool,
    down: bool,
    left: bool,
    right: bool,
    facing: &mut Facing,
) -> (step: Option<Facing>)
    requires
        old(cooldown).wf(),
    ensures
        final(cooldown).wf(),
        dialog_active ==> *final(cooldown) == *old(cooldown) && *final(facing) == *old(facing) && step is None,
        !dialog_active ==> *final(cooldown) == ticked(*old(cooldown), delta_ms),
        !dialog_active && !final(cooldown).is_finished() ==> step is None && *final(facing) == *old(facing),
        !dialog_active && final(cooldown).is_finished() ==> step == keys_direction(up, down, left, right)
            && match step {
                Some(f) => *final(facing) == f,
                None => *final(facing) == *old(facing),
            },
{
    if dialog_active {
        return None;
    }
    cooldown.tick(delta_ms);
    if !cooldown.finished() {
        return None;
    }
    let step = direction_from_keys(up, down, left, right);
    if let Some(f) = step {
        *facing = f;
    }
    step
}

/// Where the player stands when the overworld opens: the position saved
/// before a battle, which is used up, or the village square.
pub fn start_position(saved: &mut Option<GridPosition>) -> (p: GridPosition)
    ensures
        *final(saved) is None,
        p == match *old(saved) {
            Some(q) => q,
            None => GridPosition { x: START_X, y: START_Y },
        },
{
    match saved.take() {
        Some(q) => q,
        None => GridPosition::new(START_X, START_Y),
    }
}

/// The tower door: its tile at (26, 5), when that tile is a door.
pub open spec fn at_tower_door(map: TileMap, x: int, y: int) -> bool {
    x == TOWER_DOOR_X && y == TOWER_DOOR_Y && map.tile(x, y) == TILE_DOOR
}

pub fn is_tower_door(map: &TileMap, x: i32, y: i32) -> (b: bool)
    requires
        map.wf(),
    ensures
        b == at_tower_door(*map, x as int, y as int),
{
    x == TOWER_DOOR_X && y == TOWER_DOOR_Y && map.get(x, y) == TILE_DOOR
}

/// Position in the floor list of the tower's current floor (floor 0 counts
/// as the first floor).
pub open spec fn floor_index(t: TowerState) -> int {
    if t.current_floor == 0 {
        0
    } else {
        t.current_floor - 1
    }
}

/// Level of a tower enemy: its own level plus the floor's bonus, at least 1.
pub open spec fn tower_level(level: u8, bonus: i32) -> u8 {
    let l = level + bonus;
    (if l < 1 {
        1
    } else {
        l
    }) as u8
}

/// Positions, among the first `n` pairs, of the enemies the registry knows.
pub open spec fn known_positions(data: GameData, pairs: Seq<(Seq<char>, i32)>, n: int) -> Seq<int>
    decreases n,
{
    if n <= 0 {
        Seq::empty()
    } else {
        let rest = known_positions(data, pairs, n - 1);
        if data.enemies@.contains_key(pairs[n - 1].0) {
            rest.push(n - 1)
        } else {
            rest
        }
    }
}

/// `u` is the combatant made of pair `i`: the registry's enemy under battle
/// ID 10000 + i, at its level raised by the pair's bonus.
pub open spec fn tower_unit(u: BattleUnit, data: GameData, pairs: Seq<(Seq<char>, i32)>, i: int) -> bool {
    let def = data.enemies@[pairs[i].0];
    enemy_unit_at_level(u, def, (ENEMY_BATTLE_ID_BASE + i) as u32, tower_level(def.level, pairs[i].1))
}

/// `units` are the combatants of a tower encounter: one per pair whose enemy
/// the registry knows, in order; unknown enemies are skipped.
pub open spec fn tower_units_match(units: Seq<BattleUnit>, data: GameData, pairs: Seq<(Seq<char>, i32)>) -> bool {
    let known = known_positions(data, pairs, pairs.len() as int);
    &&& units.len() == known.len()
    &&& forall|k: int| 0 <= k < units.len() ==> tower_unit(#[trigger] units[k], data, pairs, known[k])
}

proof fn lemma_known_positions_bounds(data: GameData, pairs: Seq<(Seq<char>, i32)>, n: int)
    requires
        0 <= n,
    ensures
        known_positions(data, pairs, n).len() <= n,
        forall|k: int| 0 <= k < known_positions(data, pairs, n).len() ==> 0 <= #[trigger] known_positions(data, pairs, n)[k] < n,
    decreases n,
{
    if n > 0 {
        lemma_known_positions_bounds(data, pairs, n - 1);
    }
}

/// When the registry knows every enemy, every pair becomes a combatant.
pub proof fn lemma_all_known(data: GameData, pairs: Seq<(Seq<char>, i32)>, n: int)
    requires
        0 <= n <= pairs.len(),
        forall|i: int| 0 <= i < n ==> data.enemies@.contains_key(#[trigger] pairs[i].0),
    ensures
        known_positions(data, pairs, n).len() == n,
    decreases n,
{
    if n > 0 {
        lemma_all_known(data, pairs, n - 1);
    }
}

/// The combatants of a tower encounter, given as pairs of enemy ID and level
/// bonus: each enemy the registry knows becomes a combatant with battle ID
/// 10000 plus its position among the pairs, at its level plus the bonus (at
/// least 1); unknown IDs are skipped.
pub fn tower_battle_units(encounter: &Vec<(String, i32)>, data: &GameData) -> (units: Vec<BattleUnit>)
    requires
        data.wf(),
        encounter@.len() + ENEMY_BATTLE_ID_BASE <= u32::MAX,
    ensures
        tower_units_match(units@, *data, encounter_view(encounter@)),
{
    let ghost pairs = encounter_view(encounter@);
    let mut units: Vec<BattleUnit> = Vec::new();
    let mut i: usize = 0;
    while i < encounter.len()
        invariant
            data.wf(),
            pairs == encounter_view(encounter@),
            encounter@.len() + ENEMY_BATTLE_ID_BASE <= u32::MAX,
            i <= encounter@.len(),
            units@.len() == known_positions(*data, pairs, i as int).len(),
            forall|k: int| 0 <= k < units@.len() ==> tower_unit(#[trigger] units@[k], *data, pairs, known_positions(*data, pairs, i as int)[k]),
        decreases encounter@.len() - i,
    {
        let ghost before = known_positions(*data, pairs, i as int);
        let ghost prev = units@;
        assert(pairs[i as int] == (encounter@[i as int].0@, encounter@[i as int].1));
        match data.enemies.get(encounter[i].0.as_str()) {
            Some(def) => {
                let mut unit = enemy_definition_to_battle_unit(def, ENEMY_BATTLE_ID_BASE + i as u32);
                let raised: i64 = def.level as i64 + encounter[i].1 as i64;
                let level: i64 = if raised < 1 { 1 } else { raised };
                unit.level = level as u8;
                units.push(unit);
                proof {
                    assert(known_positions(*data, pairs, i + 1) == before.push(i as int));
                    assert forall|k: int| 0 <= k < units@.len() implies tower_unit(
                        #[trigger] units@[k],
                        *data,
                        pairs,
                        known_positions(*data, pairs, i + 1)[k],
                    ) by {
                        if k < before.len() {
                            assert(units@[k] == prev[k]);
                        }
                    }
                }
            },
            None => {
                assert(known_positions(*data, pairs, i + 1) == before);
            },
        }
        i = i + 1;
    }
    units
}

/// What a tower floor can produce: the boss alone when the pool is empty,
/// otherwise the boss (on a boss floor) and an allowed number of pool
/// enemies.
pub open spec fn floor_encounter_possible(floor: FloorDefinition, pairs: Seq<(Seq<char>, i32)>) -> bool {
    if floor.encounter_pool@.len() == 0 {
        pairs == boss_part(floor)
    } else {
        exists|picks: Seq<usize>| {
            &&& count_allowed(floor, picks.len() as int)
            &&& forall|i: int| 0 <= i < picks.len() ==> (#[trigger] picks[i]) < floor.encounter_pool@.len()
            &&& pairs == encounter_spec(floor, picks)
        }
    }
}

/// The registry knows every enemy floor `n` can field.
pub open spec fn floor_ids_known(data: GameData, n: int) -> bool {
    &&& forall|i: int| 0 <= i < floor_pool(n).len() ==> data.enemies@.contains_key(#[trigger] floor_pool(n)[i])
    &&& match floor_boss(n) {
        Some(b) => data.enemies@.contains_key(b),
        None => true,
    }
}

/// A floor encounter has at most five enemies, and, where the registry knows
/// the floor's enemies, at least one, all of them known.
pub proof fn lemma_floor_encounter_shape(data: GameData, floor: FloorDefinition, n: int, pairs: Seq<(Seq<char>, i32)>)
    requires
        1 <= n <= 10,
        is_floor(floor, n),
        floor_encounter_possible(floor, pairs),
    ensures
        pairs.len() <= 5,
        floor_ids_known(data, n) ==> pairs.len() >= 1,
        floor_ids_known(data, n) ==> forall|i: int| 0 <= i < pairs.len() ==> data.enemies@.contains_key(#[trigger] pairs[i].0),
{
    if floor.encounter_pool@.len() == 0 {
        assert(string_seq(floor.encounter_pool@).len() == 0);
        assert(n == 10);
        if floor_ids_known(data, n) {
            assert(pairs[0].0 == floor.boss_id->0@);
        }
    } else {
        let picks = choose|picks: Seq<usize>| {
            &&& count_allowed(floor, picks.len() as int)
            &&& forall|i: int| 0 <= i < picks.len() ==> (#[trigger] picks[i]) < floor.encounter_pool@.len()
            &&& pairs == encounter_spec(floor, picks)
        };
        assert(string_seq(floor.encounter_pool@).len() == floor.encounter_pool@.len());
        if n == 10 {
            assert(floor_pool(n).len() == 0);
        }
        assert(n <= 9);
        let b = boss_part(floor);
        assert(b.len() <= 1);
        if floor_ids_known(data, n) {
            assert forall|i: int| 0 <= i < pairs.len() implies data.enemies@.contains_key(#[trigger] pairs[i].0) by {
                if i < b.len() {
                    assert(pairs[i] == b[i]);
                } else {
                    let p = picks[i - b.len()];
                    assert(pairs[i].0 == floor.encounter_pool@[p as int]@);
                    assert(string_seq(floor.encounter_pool@)[p as int] == floor_pool(n)[p as int]);
                }
            }
        }
    }
}

/// The battle a step starts.
pub struct BattleStart {
    pub encounter_id: String,
    pub enemy_units: Vec<BattleUnit>,
    /// A tower floor battle rather than a wild one.
    pub tower: bool,
}

/// The name of a tower floor battle.
pub open spec fn tower_encounter_id(floor: u8) -> Seq<char> {
    "tower-floor-"@ + decimal(floor as nat)
}

/// The name of a wild battle at a tile.
pub open spec fn wild_encounter_id(x: int, y: int) -> Seq<char> {
    "overworld-"@ + signed_decimal(x) + "-"@ + signed_decimal(y)
}

fn tower_id_text(floor: u8) -> (s: String)
    ensures
        s@ == tower_encounter_id(floor),
{
    let mut s = "tower-floor-".to_owned();
    push_decimal(&mut s, floor as u64);
    s
}

fn wild_id_text(x: i32, y: i32) -> (s: String)
    ensures
        s@ == wild_encounter_id(x as int, y as int),
{
    let mut s = "overworld-".to_owned();
    push_signed(&mut s, x as i64);
    s.append("-");
    push_signed(&mut s, y as i64);
    s
}

/// A villager stands on the tile.
pub open spec fn npc_at(npcs: Seq<Npc>, x: int, y: int) -> bool {
    exists|k: int| 0 <= k < npcs.len() && (#[trigger] npcs[k]).position.x == x && npcs[k].position.y == y
}

/// The player can step onto the tile: it is walkable and no villager
/// stands there.
pub open spec fn can_step(map: TileMap, npcs: Seq<Npc>, x: int, y: int) -> bool {
    walkable(map.tile(x, y)) && !npc_at(npcs, x, y)
}

/// `after` is `before` with the story flag `flag` set and nothing else
/// changed.
pub open spec fn party_flag_set(before: Party, after: Party, flag: Seq<char>) -> bool {
    &&& after.story_flags@ == before.story_flags@.insert(flag, true)
    &&& after.active == before.active
    &&& after.bench == before.bench
    &&& after.gold == before.gold
    &&& after.inventory == before.inventory
    &&& after.equipment == before.equipment
    &&& after.unit_levels == before.unit_levels
    &&& after.unit_hp_pp == before.unit_hp_pp
    &&& after.djinn_assignments == before.djinn_assignments
    &&& after.difficulty == before.difficulty
}

/// The tower battle a step onto the door can start: the tower is active,
/// the current floor exists, and its encounter fields known enemies.
pub open spec fn tower_battle_allowed(map: TileMap, tower: TowerState, x: int, y: int) -> bool {
    at_tower_door(map, x, y) && tower.is_active && floor_index(tower) < 10
}

/// The chance of a wild battle on a step into an encounter zone, as
/// (numerator, denominator): 15 in 100.
pub fn wild_encounter_ratio() -> (r: (u32, u32))
    ensures
        r == (15u32, 100u32),
{
    (ENCOUNTER_CHANCE_PERCENT, 100)
}

/// The wild battle a step into an encounter zone at (`x`, `y`) starts, given
/// whether the encounter roll came out true and the enemies drawn for it:
/// a battle named after the tile with those enemies when the roll came out
/// true and some enemy was drawn; nothing otherwise.
pub fn wild_battle(drawn: bool, enemy_units: Vec<BattleUnit>, x: i32, y: i32) -> (r: Option<BattleStart>)
    ensures
        drawn && enemy_units@.len() > 0 ==> (r matches Some(b) && b.enemy_units@ == enemy_units@ && !b.tower
            && b.encounter_id@ == wild_encounter_id(x as int, y as int)),
        !(drawn && enemy_units@.len() > 0) ==> r is None,
{
    if drawn && enemy_units.len() > 0 {
        let id = wild_id_text(x, y);
        Some(BattleStart { encounter_id: id, enemy_units, tower: false })
    } else {
        None
    }
}

/// One step of the player in direction `facing`. A step onto a tile that is
/// not walkable, or where a villager stands, leaves everything as it was.
/// Otherwise the player moves; on the tower door of an active tower the
/// current floor's encounter is rolled, and if it fields any known enemy a
/// tower battle starts and the tower counts as entered. Failing that, a step
/// into an encounter zone starts a wild battle with a 15% chance, drawn for
/// the party's average level.
pub fn player_step(
    map: &TileMap,
    npcs: &Vec<Npc>,
    position: GridPosition,
    facing: Facing,
    tower: &TowerState,
    party: &mut Party,
    data: &GameData,
    rng: &mut StdRng,
) -> (r: (GridPosition, Option<BattleStart>))
    requires
        map.wf(),
        data.wf(),
        old(party).wf(),
        i32::MIN < position.x < i32::MAX,
        i32::MIN < position.y < i32::MAX,
    ensures
        final(party).wf(),
        ({
            let tx = position.x + facing_offset(facing).0;
            let ty = position.y + facing_offset(facing).1;
            &&& !can_step(*map, npcs@, tx, ty) ==> r.0 == position && r.1 is None
            &&& can_step(*map, npcs@, tx, ty) ==> r.0.x == tx && r.0.y == ty
            &&& match r.1 {
                Some(b) => {
                    &&& can_step(*map, npcs@, tx, ty)
                    &&& b.enemy_units@.len() > 0
                    &&& b.tower ==> {
                        &&& tower_battle_allowed(*map, *tower, tx, ty)
                        &&& b.encounter_id@ == tower_encounter_id(tower.current_floor)
                        &&& party_flag_set(*old(party), *final(party), TOWER_ENTERED@)
                        &&& exists|f: FloorDefinition, pairs: Seq<(Seq<char>, i32)>|
                            #![trigger floor_encounter_possible(f, pairs)]
                            is_floor(f, floor_index(*tower) + 1) && floor_encounter_possible(f, pairs)
                                && tower_units_match(b.enemy_units@, *data, pairs)
                    }
                    &&& !b.tower ==> {
                        &&& map.zone(tx, ty)
                        &&& b.encounter_id@ == wild_encounter_id(tx, ty)
                        &&& *final(party) == *old(party)
                        &&& random_encounter_possible(average_level_spec(*old(party)) as u8, *data, b.enemy_units@)
                    }
                },
                None => *final(party) == *old(party),
            }
            &&& (can_step(*map, npcs@, tx, ty) && tower_battle_allowed(*map, *tower, tx, ty)
                && floor_ids_known(*data, floor_index(*tower) + 1)) ==> (r.1 matches Some(b) && b.tower)
            &&& (can_step(*map, npcs@, tx, ty) && !tower_battle_allowed(*map, *tower, tx, ty) && !map.zone(tx, ty))
                ==> r.1 is None
        }),
{
    let (dx, dy): (i32, i32) = match facing {
        Facing::Up => (0, -1),
        Facing::Down => (0, 1),
        Facing::Left => (-1, 0),
        Facing::Right => (1, 0),
    };
    let nx = position.x + dx;
    let ny = position.y + dy;
    let blocking = interact_target(npcs, position, facing);
    proof {
        if npc_at(npcs@, nx as int, ny as int) {
            let k = choose|k: int| 0 <= k < npcs@.len() && (#[trigger] npcs@[k]).position.x == nx && npcs@[k].position.y == ny;
            assert(blocking is Some);
        }
        if blocking is Some {
            let k = blocking->0 as int;
            assert(npcs@[k].position.x == nx && npcs@[k].position.y == ny);
        }
    }
    if !map.is_walkable(nx, ny) || blocking.is_some() {
        return (position, None);
    }
    let moved = GridPosition::new(nx, ny);
    if is_tower_door(map, nx, ny) && tower.is_active {
        let floors = build_floor_definitions();
        let floor_idx: usize = if tower.current_floor == 0 { 0 } else { (tower.current_floor - 1) as usize };
        if floor_idx < floors.len() {
            let encounter = generate_floor_encounter(&floors[floor_idx], rng);
            let ghost pairs = encounter_view(encounter@);
            proof {
                assert(is_floor(floors@[floor_idx as int], floor_idx + 1));
                assert(floor_encounter_possible(floors@[floor_idx as int], pairs));
                lemma_floor_encounter_shape(*data, floors@[floor_idx as int], floor_idx + 1, pairs);
                if floor_ids_known(*data, floor_idx + 1) {
                    lemma_all_known(*data, pairs, pairs.len() as int);
                }
            }
            let units = tower_battle_units(&encounter, data);
            if units.len() > 0 {
                party.set_flag(TOWER_ENTERED, true);
                let id = tower_id_text(tower.current_floor);
                return (moved, Some(BattleStart { encounter_id: id, enemy_units: units, tower: true }));
            }
        }
    }
    if map.is_encounter_zone(nx, ny) {
        let (num, den) = wild_encounter_ratio();
        let drawn = gen_ratio(rng, num, den);
        let units = if drawn {
            let level = get_average_party_level(party);
            build_random_encounter(rng, level, data)
        } else {
            Vec::new()
        };
        return (moved, wild_battle(drawn, units, nx, ny));
    }
    (moved, None)
}

/// What a key press in the overworld opens while no dialog is shown.
#[derive(Clone, Copy, Debug, PartialEq, Eq, Structural)]
pub enum PauseAction {
    Nothing,
    /// Open the inventory at once.
    OpenInventory,
    /// Fade over to the pause menu.
    FadeToPause,
}

/// Tab opens the inventory; otherwise Escape fades to the pause menu. While
/// a dialog is shown neither does anything.
pub fn overworld_pause(dialog_active: bool, tab: bool, escape: bool) -> (a: PauseAction)
    ensures
        a == (if dialog_active {
            PauseAction::Nothing
        } else if tab {
            PauseAction::OpenInventory
        } else if escape {
            PauseAction::FadeToPause
        } else {
            PauseAction::Nothing
        }),
{
    if dialog_active {
        PauseAction::Nothing
    } else if tab {
        PauseAction::OpenInventory
    } else if escape {
        PauseAction::FadeToPause
    } else {
        PauseAction::Nothing
    }
}

/// The screen to go to when battles end, given whether each ended battle was
/// won: the first victory leads back to the overworld with the battle
/// closed; defeats are left to the battle screen.
pub fn battle_end_transition(victories: &Vec<bool>) -> (r: Option<(BattlePhase, GameState)>)
    ensures
        (exists|i: int| 0 <= i < victories@.len() && victories@[i]) ==> r == Some((BattlePhase::Inactive, GameState::Overworld)),
        !(exists|i: int| 0 <= i < victories@.len() && victories@[i]) ==> r is None,
{
    let mut i: usize = 0;
    while i < victories.len()
        invariant
            i <= victories@.len(),
            forall|k: int| 0 <= k < i ==> !victories@[k],
        decreases victories@.len() - i,
    {
        if victories[i] {
            return Some((BattlePhase::Inactive, GameState::Overworld));
        }
        i = i + 1;
    }
    None
}

} // verus!
