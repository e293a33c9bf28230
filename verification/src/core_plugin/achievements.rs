//! Achievement identifiers.

use vstd::prelude::*;

verus! {

pub const FIRST_BLOOD: &'static str = "first_blood";
pub const FULL_PARTY: &'static str = "full_party";
pub const TOWER_ENTERED: &'static str = "tower_entered";
pub const TOWER_COMPLETED: &'static str = "tower_completed";
pub const BESTIARY_25: &'static str = "bestiary_25";
pub const BESTIARY_50: &'static str = "bestiary_50";
pub const GOLD_1000: &'static str = "gold_1000";
pub const HARD_MODE: &'static str = "hard_mode";
pub const NO_KO: &'static str = "no_ko";
pub const LEVEL_10: &'static str = "level_10";

} // verus!
