//! Overworld exploration: the village map, movement, NPCs, dialogs and
//! encounters.

pub mod map;
pub mod npcs;
pub mod encounters;
pub mod movement;
