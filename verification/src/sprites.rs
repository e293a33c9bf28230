//! Sprite lookup: which picture each unit and enemy uses, and the table of
//! loaded pictures keyed by ID.

use crate::strmap::StrMap;
use vstd::prelude::*;

verus! {

/// Loaded pictures keyed by unit, enemy and icon ID.
pub struct SpriteHandles<H> {
    /// Unit ID -> picture.
    pub units: StrMap<H>,
    /// Enemy ID -> picture.
    pub enemies: StrMap<H>,
    /// Icon name -> picture.
    pub icons: StrMap<H>,
}

impl<H> SpriteHandles<H> {
    pub open spec fn wf(&self) -> bool {
        self.units.wf() && self.enemies.wf() && self.icons.wf()
    }
}

impl<H> Default for SpriteHandles<H> {
    /// No picture loaded.
    fn default() -> (s: Self)
        ensures
            s.wf(),
            s.units@ == Map::<Seq<char>, H>::empty(),
            s.enemies@ == Map::<Seq<char>, H>::empty(),
            s.icons@ == Map::<Seq<char>, H>::empty(),
    {
        SpriteHandles { units: StrMap::new(), enemies: StrMap::new(), icons: StrMap::new() }
    }
}

/// The picture loaded for a unit, if any.
pub fn get_unit_sprite<H: Clone>(handles: &SpriteHandles<H>, unit_id: &str) -> (r: Option<H>)
    requires
        handles.units.wf(),
    ensures
        r is Some <==> handles.units@.contains_key(unit_id@),
        r matches Some(h) ==> cloned(handles.units@[unit_id@], h),
{
    match handles.units.get(unit_id) {
        Some(h) => Some(h.clone()),
        None => None,
    }
}

/// The picture loaded for an enemy, if any.
pub fn get_enemy_sprite<H: Clone>(handles: &SpriteHandles<H>, enemy_id: &str) -> (r: Option<H>)
    requires
        handles.enemies.wf(),
    ensures
        r is Some <==> handles.enemies@.contains_key(enemy_id@),
        r matches Some(h) ==> cloned(handles.enemies@[enemy_id@], h),
{
    match handles.enemies.get(enemy_id) {
        Some(h) => Some(h.clone()),
        None => None,
    }
}

/// The pictures of a mapping table keyed by its IDs, the `i`-th picture
/// under the `i`-th ID, among the first `n` entries (a later entry wins).
pub open spec fn loaded_map<H>(table: Seq<(Seq<char>, Seq<char>)>, loaded: Seq<H>, n: int) -> Map<Seq<char>, H>
    decreases n,
{
    if n <= 0 {
        Map::empty()
    } else {
        loaded_map(table, loaded, n - 1).insert(table[n - 1].0, loaded[n - 1])
    }
}

fn fill<H>(map: &mut StrMap<H>, ids: &Vec<(&'static str, &'static str)>, loaded: Vec<H>, Ghost(table): Ghost<Seq<(Seq<char>, Seq<char>)>>)
    requires
        old(map).wf(),
        old(map)@ == Map::<Seq<char>, H>::empty(),
        ids@.len() == table.len(),
        forall|i: int| 0 <= i < ids@.len() ==> (#[trigger] ids@[i]).0@ == table[i].0,
        loaded@.len() == table.len(),
    ensures
        final(map).wf(),
        final(map)@ == loaded_map(table, loaded@, table.len() as int),
{
    let ghost all = loaded@;
    let mut rest = loaded;
    let mut i: usize = 0;
    while i < ids.len()
        invariant
            map.wf(),
            ids@.len() == table.len(),
            all.len() == table.len(),
            forall|k: int| 0 <= k < ids@.len() ==> (#[trigger] ids@[k]).0@ == table[k].0,
            i <= ids@.len(),
            rest@ == all.skip(i as int),
            map@ == loaded_map(table, all, i as int),
        decreases ids@.len() - i,
    {
        let h = rest.remove(0);
        assert(h == all[i as int]);
        map.insert(ids[i].0, h);
        i = i + 1;
        assert(rest@ =~= all.skip(i as int));
    }
}

/// The picture tables made from the pictures loaded for each unit and enemy
/// mapping, in mapping order.
pub fn sprite_handles_from_loaded<H>(unit_pictures: Vec<H>, enemy_pictures: Vec<H>) -> (s: SpriteHandles<H>)
    requires
        unit_pictures@.len() == unit_sprite_table().len(),
        enemy_pictures@.len() == enemy_sprite_table().len(),
    ensures
        s.wf(),
        s.units@ == loaded_map(unit_sprite_table(), unit_pictures@, unit_sprite_table().len() as int),
        s.enemies@ == loaded_map(enemy_sprite_table(), enemy_pictures@, enemy_sprite_table().len() as int),
        s.icons@ == Map::<Seq<char>, H>::empty(),
{
    let mut s: SpriteHandles<H> = SpriteHandles::default();
    let um = unit_sprite_mappings();
    let em = enemy_sprite_mappings();
    fill(&mut s.units, &um, unit_pictures, Ghost(unit_sprite_table()));
    fill(&mut s.enemies, &em, enemy_pictures, Ghost(enemy_sprite_table()));
    s
}

pub open spec fn unit_sprite_table() -> Seq<(Seq<char>, Seq<char>)> {
    seq![
        ("adept"@, "sprites/placeholders/adept.png"@),
        ("war-mage"@, "sprites/placeholders/war_mage.png"@),
        ("mystic"@, "sprites/placeholders/mystic.png"@),
        ("ranger"@, "sprites/placeholders/ranger.png"@),
        ("sentinel"@, "sprites/placeholders/sentinel.png"@),
        ("stormcaller"@, "sprites/placeholders/stormcaller.png"@),
        ("blaze"@, "sprites/placeholders/war_mage.png"@),
        ("karis"@, "sprites/placeholders/mystic.png"@),
        ("tyrell"@, "sprites/placeholders/gladiator.png"@),
        ("felix"@, "sprites/placeholders/sentinel.png"@),
    ]
}

pub fn unit_sprite_mappings() -> (m: Vec<(&'static str, &'static str)>)
    ensures
        m@.len() == unit_sprite_table().len(),
        forall|i: int| 0 <= i < m@.len() ==> (#[trigger] m@[i]).0@ == unit_sprite_table()[i].0 && m@[i].1@ == unit_sprite_table()[i].1,
{
    let mut m: Vec<(&'static str, &'static str)> = Vec::new();
    m.push(("adept", "sprites/placeholders/adept.png"));
    m.push(("war-mage", "sprites/placeholders/war_mage.png"));
    m.push(("mystic", "sprites/placeholders/mystic.png"));
    m.push(("ranger", "sprites/placeholders/ranger.png"));
    m.push(("sentinel", "sprites/placeholders/sentinel.png"));
    m.push(("stormcaller", "sprites/placeholders/stormcaller.png"));
    m.push(("blaze", "sprites/placeholders/war_mage.png"));
    m.push(("karis", "sprites/placeholders/mystic.png"));
    m.push(("tyrell", "sprites/placeholders/gladiator.png"));
    m.push(("felix", "sprites/placeholders/sentinel.png"));
    assert(m@.len() == unit_sprite_table().len());
    m
}

pub open spec fn enemy_sprite_table() -> Seq<(Seq<char>, Seq<char>)> {
    seq![
        ("mercury-slime"@, "sprites/placeholders/slime.png"@),
        ("venus-wolf"@, "sprites/placeholders/wolf.png"@),
        ("mars-wolf"@, "sprites/placeholders/wolf.png"@),
        ("mercury-wolf"@, "sprites/placeholders/wolf.png"@),
        ("jupiter-wolf"@, "sprites/placeholders/wolf.png"@),
        ("mars-bandit"@, "sprites/placeholders/bandit.png"@),
        ("earth-scout"@, "sprites/placeholders/bandit.png"@),
        ("flame-scout"@, "sprites/placeholders/bandit.png"@),
        ("frost-scout"@, "sprites/placeholders/bandit.png"@),
        ("gale-scout"@, "sprites/placeholders/bandit.png"@),
        ("jupiter-sprite"@, "sprites/placeholders/sprite.png"@),
        ("venus-beetle"@, "sprites/placeholders/beetle.png"@),
        ("venus-bear"@, "sprites/placeholders/gladiator.png"@),
        ("mars-bear"@, "sprites/placeholders/gladiator.png"@),
        ("mercury-bear"@, "sprites/placeholders/gladiator.png"@),
        ("jupiter-bear"@, "sprites/placeholders/gladiator.png"@),
        ("frost-mystic"@, "sprites/placeholders/mystic.png"@),
        ("gale-priest"@, "sprites/placeholders/sprite.png"@),
        ("stone-guardian"@, "sprites/placeholders/sentinel.png"@),
        ("ember-cleric"@, "sprites/placeholders/war_mage.png"@),
        ("earth-shaman"@, "sprites/placeholders/sentinel.png"@),
        ("tide-enchanter"@, "sprites/placeholders/mystic.png"@),
        ("frost-oracle"@, "sprites/placeholders/mystic.png"@),
        ("terra-soldier"@, "sprites/placeholders/gladiator.png"@),
        ("blaze-soldier"@, "sprites/placeholders/gladiator.png"@),
        ("tide-soldier"@, "sprites/placeholders/gladiator.png"@),
        ("wind-soldier"@, "sprites/placeholders/gladiator.png"@),
        ("stone-captain"@, "sprites/placeholders/bandit.png"@),
        ("inferno-captain"@, "sprites/placeholders/bandit.png"@),
        ("glacier-captain"@, "sprites/placeholders/bandit.png"@),
        ("thunder-captain"@, "sprites/placeholders/bandit.png"@),
        ("mountain-commander"@, "sprites/placeholders/gladiator.png"@),
        ("fire-commander"@, "sprites/placeholders/gladiator.png"@),
        ("storm-commander"@, "sprites/placeholders/gladiator.png"@),
        ("gale-commander"@, "sprites/placeholders/gladiator.png"@),
        ("terra-warden"@, "sprites/placeholders/sentinel.png"@),
        ("flame-herald"@, "sprites/placeholders/war_mage.png"@),
        ("slaver-chief"@, "sprites/placeholders/bandit.png"@),
        ("iron-warden"@, "sprites/placeholders/sentinel.png"@),
        ("phoenix-lord"@, "sprites/placeholders/war_mage.png"@),
        ("glacier-queen"@, "sprites/placeholders/mystic.png"@),
        ("storm-tyrant"@, "sprites/placeholders/stormcaller.png"@),
        ("earth-titan"@, "sprites/placeholders/elemental_guardian.png"@),
        ("infernal-dragon"@, "sprites/placeholders/guardian_shard_fire.png"@),
        ("leviathan"@, "sprites/placeholders/guardian_shard_water.png"@),
        ("vale-overlord"@, "sprites/placeholders/elemental_guardian.png"@),
    ]
}

pub fn enemy_sprite_mappings() -> (m: Vec<(&'static str, &'static str)>)
    ensures
        m@.len() == enemy_sprite_table().len(),
        forall|i: int| 0 <= i < m@.len() ==> (#[trigger] m@[i]).0@ == enemy_sprite_table()[i].0 && m@[i].1@ == enemy_sprite_table()[i].1,
{
    let mut m: Vec<(&'static str, &'static str)> = Vec::new();
    m.push(("mercury-slime", "sprites/placeholders/slime.png"));
    m.push(("venus-wolf", "sprites/placeholders/wolf.png"));
    m.push(("mars-wolf", "sprites/placeholders/wolf.png"));
    m.push(("mercury-wolf", "sprites/placeholders/wolf.png"));
    m.push(("jupiter-wolf", "sprites/placeholders/wolf.png"));
    m.push(("mars-bandit", "sprites/placeholders/bandit.png"));
    m.push(("earth-scout", "sprites/placeholders/bandit.png"));
    m.push(("flame-scout", "sprites/placeholders/bandit.png"));
    m.push(("frost-scout", "sprites/placeholders/bandit.png"));
    m.push(("gale-scout", "sprites/placeholders/bandit.png"));
    m.push(("jupiter-sprite", "sprites/placeholders/sprite.png"));
    m.push(("venus-beetle", "sprites/placeholders/beetle.png"));
    m.push(("venus-bear", "sprites/placeholders/gladiator.png"));
    m.push(("mars-bear", "sprites/placeholders/gladiator.png"));
    m.push(("mercury-bear", "sprites/placeholders/gladiator.png"));
    m.push(("jupiter-bear", "sprites/placeholders/gladiator.png"));
    m.push(("frost-mystic", "sprites/placeholders/mystic.png"));
    m.push(("gale-priest", "sprites/placeholders/sprite.png"));
    m.push(("stone-guardian", "sprites/placeholders/sentinel.png"));
    m.push(("ember-cleric", "sprites/placeholders/war_mage.png"));
    m.push(("earth-shaman", "sprites/placeholders/sentinel.png"));
    m.push(("tide-enchanter", "sprites/placeholders/mystic.png"));
    m.push(("frost-oracle", "sprites/placeholders/mystic.png"));
    m.push(("terra-soldier", "sprites/placeholders/gladiator.png"));
    m.push(("blaze-soldier", "sprites/placeholders/gladiator.png"));
    m.push(("tide-soldier", "sprites/placeholders/gladiator.png"));
    m.push(("wind-soldier", "sprites/placeholders/gladiator.png"));
    m.push(("stone-captain", "sprites/placeholders/bandit.png"));
    m.push(("inferno-captain", "sprites/placeholders/bandit.png"));
    m.push(("glacier-captain", "sprites/placeholders/bandit.png"));
    m.push(("thunder-captain", "sprites/placeholders/bandit.png"));
    m.push(("mountain-commander", "sprites/placeholders/gladiator.png"));
    m.push(("fire-commander", "sprites/placeholders/gladiator.png"));
    m.push(("storm-commander", "sprites/placeholders/gladiator.png"));
    m.push(("gale-commander", "sprites/placeholders/gladiator.png"));
    m.push(("terra-warden", "sprites/placeholders/sentinel.png"));
    m.push(("flame-herald", "sprites/placeholders/war_mage.png"));
    m.push(("slaver-chief", "sprites/placeholders/bandit.png"));
    m.push(("iron-warden", "sprites/placeholders/sentinel.png"));
    m.push(("phoenix-lord", "sprites/placeholders/war_mage.png"));
    m.push(("glacier-queen", "sprites/placeholders/mystic.png"));
    m.push(("storm-tyrant", "sprites/placeholders/stormcaller.png"));
    m.push(("earth-titan", "sprites/placeholders/elemental_guardian.png"));
    m.push(("infernal-dragon", "sprites/placeholders/guardian_shard_fire.png"));
    m.push(("leviathan", "sprites/placeholders/guardian_shard_water.png"));
    m.push(("vale-overlord", "sprites/placeholders/elemental_guardian.png"));
    assert(m@.len() == enemy_sprite_table().len());
    m
}

} // verus!
