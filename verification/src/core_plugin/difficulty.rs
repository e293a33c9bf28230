//! Difficulty levels and the multipliers they apply.
//!
//! Multipliers are exact integer percentages: 80 stands for ×0.8, and the
//! flee bonus is in percentage points (15 stands for +0.15).

use vstd::prelude::*;

verus! {

#[derive(Clone, Copy, Debug, PartialEq, Eq, Structural, Hash)]
pub enum Difficulty {
    Easy,
    Normal,
    Hard,
}

impl Default for Difficulty {
    fn default() -> (d: Self)
        ensures
            d == Difficulty::Normal,
    {
        Difficulty::Normal
    }
}

#[derive(Clone, Copy, Debug, PartialEq, Eq, Structural)]
pub struct DifficultySettings {
    pub difficulty: Difficulty,
}

impl Default for DifficultySettings {
    fn default() -> (s: Self)
        ensures
            s.difficulty == Difficulty::Normal,
    {
        DifficultySettings { difficulty: Difficulty::Normal }
    }
}

/// Enemy stat multiplier in percent.
pub open spec fn enemy_stat_percent(d: Difficulty) -> int {
    match d {
        Difficulty::Easy => 80,
        Difficulty::Normal => 100,
        Difficulty::Hard => 130,
    }
}

/// Battle XP multiplier in percent.
pub open spec fn xp_percent(d: Difficulty) -> int {
    match d {
        Difficulty::Easy => 120,
        Difficulty::Normal => 100,
        Difficulty::Hard => 150,
    }
}

/// Battle gold multiplier in percent.
pub open spec fn gold_percent(d: Difficulty) -> int {
    match d {
        Difficulty::Easy => 130,
        Difficulty::Normal => 100,
        Difficulty::Hard => 80,
    }
}

/// Flee chance bonus in percentage points.
pub open spec fn flee_bonus_points(d: Difficulty) -> int {
    match d {
        Difficulty::Easy => 15,
        Difficulty::Normal => 0,
        Difficulty::Hard => -10,
    }
}

/// Rank of a difficulty: Easy < Normal < Hard.
pub open spec fn rank(d: Difficulty) -> int {
    match d {
        Difficulty::Easy => 0,
        Difficulty::Normal => 1,
        Difficulty::Hard => 2,
    }
}

impl DifficultySettings {
    /// Multiplier applied to enemy stats, in percent (Easy 80, Normal 100, Hard 130).
    pub fn enemy_stat_multiplier(&self) -> (r: u32)
        ensures
            r == enemy_stat_percent(self.difficulty),
    {
        match self.difficulty {
            Difficulty::Easy => 80,
            Difficulty::Normal => 100,
            Difficulty::Hard => 130,
        }
    }

    /// Multiplier applied to battle XP, in percent (Easy 120, Normal 100, Hard 150).
    pub fn xp_multiplier(&self) -> (r: u32)
        ensures
            r == xp_percent(self.difficulty),
    {
        match self.difficulty {
            Difficulty::Easy => 120,
            Difficulty::Normal => 100,
            Difficulty::Hard => 150,
        }
    }

    /// Multiplier applied to battle gold, in percent (Easy 130, Normal 100, Hard 80).
    pub fn gold_multiplier(&self) -> (r: u32)
        ensures
            r == gold_percent(self.difficulty),
    {
        match self.difficulty {
            Difficulty::Easy => 130,
            Difficulty::Normal => 100,
            Difficulty::Hard => 80,
        }
    }

    /// Bonus to the base flee chance, in percentage points (Easy +15, Normal 0, Hard -10).
    pub fn flee_chance_bonus(&self) -> (r: i32)
        ensures
            r == flee_bonus_points(self.difficulty),
    {
        match self.difficulty {
            Difficulty::Easy => 15,
            Difficulty::Normal => 0,
            Difficulty::Hard => -10,
        }
    }
}

/// A harder difficulty makes enemies stronger, gives less gold and a smaller
/// flee bonus.
pub proof fn lemma_harder_is_harsher(a: Difficulty, b: Difficulty)
    requires
        rank(a) < rank(b),
    ensures
        enemy_stat_percent(a) < enemy_stat_percent(b),
        gold_percent(a) > gold_percent(b),
        flee_bonus_points(a) > flee_bonus_points(b),
{
}

/// Hard gives the most XP, and Normal the least.
pub proof fn lemma_xp_highest_on_hard(d: Difficulty)
    ensures
        xp_percent(d) <= xp_percent(Difficulty::Hard),
        xp_percent(Difficulty::Normal) <= xp_percent(d),
{
}

/// Normal difficulty leaves every value unchanged.
pub proof fn lemma_normal_is_neutral()
    ensures
        enemy_stat_percent(Difficulty::Normal) == 100,
        xp_percent(Difficulty::Normal) == 100,
        gold_percent(Difficulty::Normal) == 100,
        flee_bonus_points(Difficulty::Normal) == 0,
{
}

} // verus!
