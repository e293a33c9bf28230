//! Core game state: screens, the party, story flags, and the resources that
//! the other screens share.

pub mod achievement_list;
pub mod achievements;
pub mod bestiary;
pub mod difficulty;
pub mod story;
pub mod weather;

pub use achievement_list::{AchievementEntry, Achievements};
pub use bestiary::{Bestiary, BestiaryEntry};
pub use difficulty::{Difficulty, DifficultySettings};
pub use weather::{
    get_weather_element_bonus, weather_transition_system, Weather, WeatherConfig, WeatherState,
    ZoneWeatherWeights,
};

pub use crate::data::GameData;
use crate::strmap::{count_where, StrMap};
use vstd::prelude::*;

verus! {

/// Top-level screen the game is on.
#[derive(Clone, Copy, Debug, PartialEq, Eq, Structural, Hash)]
pub enum GameState {
    Loading,
    MainMenu,
    Overworld,
    Battle,
    Shop,
    Inventory,
    Settings,
    Paused,
}

impl Default for GameState {
    fn default() -> (s: Self)
        ensures
            s == GameState::Loading,
    {
        GameState::Loading
    }
}

/// The screen that follows `Loading` once the game data is in place.
pub fn transition_to_main_menu() -> (s: GameState)
    ensures
        s == GameState::MainMenu,
{
    GameState::MainMenu
}

/// The player's party: roster, gold, items, equipment and story progress.
#[derive(Clone, Debug)]
pub struct Party {
    /// Active party member unit IDs.
    pub active: Vec<String>,
    /// Reserve unit IDs.
    pub bench: Vec<String>,
    pub gold: u32,
    /// Owned item and equipment IDs, one entry per copy.
    pub inventory: Vec<String>,
    /// unit_id -> (slot name -> equipment_id).
    pub equipment: StrMap<StrMap<String>>,
    /// unit_id -> (level, xp).
    pub unit_levels: StrMap<(u8, u32)>,
    /// unit_id -> (current hp, current pp).
    pub unit_hp_pp: StrMap<(i32, i32)>,
    /// djinn_id -> owning unit_id.
    pub djinn_assignments: StrMap<String>,
    /// Story progress flags.
    pub story_flags: StrMap<bool>,
    pub difficulty: Difficulty,
}

impl Party {
    /// Every map of the party is well formed.
    pub open spec fn wf(&self) -> bool {
        &&& self.equipment.wf()
        &&& forall|i: int| 0 <= i < self.equipment.size() ==> (#[trigger] self.equipment.value(i)).wf()
        &&& self.unit_levels.wf()
        &&& self.unit_hp_pp.wf()
        &&& self.djinn_assignments.wf()
        &&& self.story_flags.wf()
    }

    /// Whether `flag` is recorded and set to true.
    pub open spec fn flag(&self, flag: Seq<char>) -> bool {
        self.story_flags@.contains_key(flag) && self.story_flags@[flag]
    }

}

impl Default for Party {
    /// The party a new game starts with: the adept alone, 100 gold, nothing
    /// else, Normal difficulty.
    fn default() -> (p: Self)
        ensures
            p.wf(),
            p.active@.len() == 1,
            p.active@[0]@ == "adept"@,
            p.bench@.len() == 0,
            p.gold == 100,
            p.inventory@.len() == 0,
            p.equipment@ == Map::<Seq<char>, StrMap<String>>::empty(),
            p.equipment.size() == 0,
            p.unit_levels@ == Map::<Seq<char>, (u8, u32)>::empty(),
            p.unit_hp_pp@ == Map::<Seq<char>, (i32, i32)>::empty(),
            p.djinn_assignments@ == Map::<Seq<char>, String>::empty(),
            p.story_flags@ == Map::<Seq<char>, bool>::empty(),
            p.difficulty == Difficulty::Normal,
    {
        let mut active: Vec<String> = Vec::new();
        active.push("adept".to_owned());
        Party {
            active,
            bench: Vec::new(),
            gold: 100,
            inventory: Vec::new(),
            equipment: StrMap::new(),
            unit_levels: StrMap::new(),
            unit_hp_pp: StrMap::new(),
            djinn_assignments: StrMap::new(),
            story_flags: StrMap::new(),
            difficulty: Difficulty::Normal,
        }
    }
}

impl Party {
    /// Sets a story flag to the given value.
    pub fn set_flag(&mut self, flag: &str, value: bool)
        requires
            old(self).wf(),
        ensures
            final(self).wf(),
            final(self).story_flags@ == old(self).story_flags@.insert(flag@, value),
            final(self).active == old(self).active,
            final(self).bench == old(self).bench,
            final(self).gold == old(self).gold,
            final(self).inventory == old(self).inventory,
            final(self).equipment == old(self).equipment,
            final(self).unit_levels == old(self).unit_levels,
            final(self).unit_hp_pp == old(self).unit_hp_pp,
            final(self).djinn_assignments == old(self).djinn_assignments,
            final(self).difficulty == old(self).difficulty,
    {
        self.story_flags.insert(flag, value);
    }

    /// Returns true if the given story flag exists and is set to true.
    pub fn has_flag(&self, flag: &str) -> (b: bool)
        requires
            self.wf(),
        ensures
            b == self.flag(flag@),
    {
        match self.story_flags.get(flag) {
            Some(v) => *v,
            None => false,
        }
    }

    /// Number of story flags that are set to true.
    pub fn flag_count(&self) -> (n: usize)
        requires
            self.wf(),
        ensures
            n == count_where(self.story_flags@, |v: bool| v),
    {
        let mut n: usize = 0;
        let mut i: usize = 0;
        let len = self.story_flags.len();
        while i < len
            invariant
                self.story_flags.wf(),
                len == self.story_flags.size(),
                i <= len,
                n == crate::strmap::count_prefix(self.story_flags.values(), i as int, |v: bool| v),
                n <= i,
            decreases len - i,
        {
            let v = *self.story_flags.value_at(i);
            proof {
                assert(self.story_flags.values()[i as int] == v);
            }
            if v {
                n = n + 1;
            }
            i = i + 1;
        }
        proof {
            self.story_flags.lemma_count(|v: bool| v);
        }
        n
    }
}

/// Setting a flag makes it read back as the value written, and leaves every
/// other flag as it was.
pub proof fn lemma_flag_read_after_write(before: Party, after: Party, written: Seq<char>, value: bool, other: Seq<char>)
    requires
        after.story_flags@ == before.story_flags@.insert(written, value),
    ensures
        after.flag(written) == value,
        other != written ==> after.flag(other) == before.flag(other),
{
}

} // verus!
