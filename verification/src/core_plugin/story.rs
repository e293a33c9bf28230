//! Story progress flag names.

use vstd::prelude::*;

verus! {

pub const RECRUITED_KARIS: &'static str = "recruited_karis";
pub const RECRUITED_TYRELL: &'static str = "recruited_tyrell";
pub const RECRUITED_AMITI: &'static str = "recruited_amiti";
pub const TOWER_ENTERED: &'static str = "tower_entered";
pub const TOWER_FLOOR_5: &'static str = "tower_floor_5";
pub const TOWER_COMPLETED: &'static str = "tower_completed";
pub const TALKED_TO_ELDER: &'static str = "talked_to_elder";
pub const FIRST_BATTLE_WON: &'static str = "first_battle_won";

} // verus!
