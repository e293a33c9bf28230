//! Definitions the game screens read: elements, equipment slots, unit,
//! enemy, item and equipment definitions, battle units and map positions.

use crate::strmap::StrMap;
use vstd::prelude::*;

verus! {

/// Elemental affinity (Venus: earth, Mars: fire, Mercury: water, Jupiter: wind).
#[derive(Clone, Copy, Debug, PartialEq, Eq, Structural, Hash)]
pub enum Element {
    Venus,
    Mars,
    Mercury,
    Jupiter,
    Neutral,
}

impl Default for Element {
    fn default() -> (e: Self)
        ensures
            e == Element::Neutral,
    {
        Element::Neutral
    }
}

/// Where a piece of equipment is worn.
#[derive(Clone, Copy, Debug, PartialEq, Eq, Structural, Hash)]
pub enum EquipmentSlot {
    Weapon,
    Armor,
    Shield,
    Accessory,
}

/// The name under which a slot is recorded in a unit's equipment.
pub open spec fn slot_name_spec(slot: EquipmentSlot) -> Seq<char> {
    match slot {
        EquipmentSlot::Weapon => "Weapon"@,
        EquipmentSlot::Armor => "Armor"@,
        EquipmentSlot::Shield => "Shield"@,
        EquipmentSlot::Accessory => "Accessory"@,
    }
}

pub fn slot_name(slot: EquipmentSlot) -> (s: String)
    ensures
        s@ == slot_name_spec(slot),
{
    match slot {
        EquipmentSlot::Weapon => "Weapon".to_owned(),
        EquipmentSlot::Armor => "Armor".to_owned(),
        EquipmentSlot::Shield => "Shield".to_owned(),
        EquipmentSlot::Accessory => "Accessory".to_owned(),
    }
}

#[derive(Clone, Debug)]
pub struct ItemDefinition {
    pub id: String,
    pub name: String,
    pub description: String,
    pub cost: u32,
}

#[derive(Clone, Debug)]
pub struct EquipmentDefinition {
    pub id: String,
    pub name: String,
    pub description: String,
    pub cost: u32,
    pub slot: EquipmentSlot,
    /// Elements allowed to wear it; empty means every element.
    pub allowed_elements: Vec<Element>,
}

/// Per-level stat growth.
#[derive(Clone, Copy, Debug, PartialEq, Eq, Structural)]
pub struct GrowthStats {
    pub hp: i32,
    pub pp: i32,
    pub atk: i32,
    pub def: i32,
    pub mag: i32,
    pub spd: i32,
}

#[derive(Clone, Debug)]
pub struct UnitDefinition {
    pub id: String,
    pub name: String,
    pub element: Element,
    pub role: String,
    pub base_hp: i32,
    pub base_pp: i32,
    pub base_atk: i32,
    pub base_def: i32,
    pub base_mag: i32,
    pub base_spd: i32,
    pub growth: GrowthStats,
}

#[derive(Clone, Debug)]
pub struct EnemyDefinition {
    pub id: String,
    pub name: String,
    pub element: Element,
    pub level: u8,
    pub tier: u8,
    pub hp: i32,
    pub pp: i32,
    pub atk: i32,
    pub def: i32,
    pub mag: i32,
    pub spd: i32,
    pub ability_ids: Vec<String>,
}

/// Which side of a battle a unit fights on.
#[derive(Clone, Copy, Debug, PartialEq, Eq, Structural, Hash)]
pub enum UnitSide {
    Player,
    Enemy,
}

/// A combatant as a battle sees it.
#[derive(Clone, Debug)]
pub struct BattleUnit {
    pub id: u32,
    pub name: String,
    pub side: UnitSide,
    pub element: Element,
    pub level: u8,
    pub hp: i32,
    pub max_hp: i32,
    pub pp: i32,
    pub max_pp: i32,
    pub atk: i32,
    pub def: i32,
    pub mag: i32,
    pub spd: i32,
    pub luck: i32,
    pub ability_ids: Vec<String>,
    pub djinn_ids: Vec<String>,
    pub damage_taken: i32,
    pub damage_dealt: i32,
    pub xp: u32,
}

/// Stage of a battle.
#[derive(Clone, Copy, Debug, PartialEq, Eq, Structural, Hash)]
pub enum BattlePhase {
    Inactive,
    CommandSelect,
    Victory,
    Defeat,
}

/// A tile position on a map.
#[derive(Clone, Copy, Debug, PartialEq, Eq, Structural, Hash)]
pub struct GridPosition {
    pub x: i32,
    pub y: i32,
}

impl GridPosition {
    pub fn new(x: i32, y: i32) -> (p: Self)
        ensures
            p.x == x,
            p.y == y,
    {
        GridPosition { x, y }
    }
}

/// All loaded definitions, keyed by ID.
pub struct GameData {
    pub units: StrMap<UnitDefinition>,
    pub enemies: StrMap<EnemyDefinition>,
    pub items: StrMap<ItemDefinition>,
    pub equipment: StrMap<EquipmentDefinition>,
}

impl GameData {
    pub open spec fn wf(&self) -> bool {
        &&& self.units.wf()
        &&& self.enemies.wf()
        &&& self.items.wf()
        &&& self.equipment.wf()
    }
}

/// An action queued for a party member.
#[derive(Clone, Copy, Debug, PartialEq, Eq, Structural)]
pub enum BattleAction {
    Attack { target_id: u32 },
    Defend,
    Flee,
}

/// Which sub-menu the battle command entry shows.
#[derive(Clone, Copy, Debug, PartialEq, Eq, Structural)]
pub enum CommandMenu {
    Main,
    ItemSelect,
}

/// Command entry for the party members of a battle: one pending action per
/// member, filled in turn.
#[derive(Clone, Debug)]
pub struct CommandSelectState {
    pub selecting_unit_index: usize,
    pub pending_actions: Vec<Option<BattleAction>>,
    pub menu: CommandMenu,
    pub cursor_index: usize,
    pub selected_ability: Option<String>,
    pub selected_djinn: Option<String>,
}

/// What a won battle pays out.
#[derive(Clone, Debug)]
pub struct BattleRewards {
    pub total_gold: u32,
    pub xp_per_unit: u32,
    pub item_drops: Vec<String>,
}

/// A unit that gained a level in battle.
#[derive(Clone, Debug)]
pub struct LevelUpEvent {
    pub unit_name: String,
    pub old_level: u8,
    pub new_level: u8,
    pub new_abilities: Vec<String>,
}

} // verus!
