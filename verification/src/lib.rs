//! Game rules of Vale Village: difficulty, story progress, bestiary,
//! achievements, weather, the Tower of Trials, the shop, inventory and party
//! management, the overworld map and dialogs, save snapshots, menus and the
//! tutorial overlay.

pub mod core_plugin;
pub mod data;
pub mod strmap;
pub mod random;
pub mod text;
pub mod tower;
pub mod shop;
pub mod inventory;
pub mod inventory_view;
pub mod overworld;
pub mod timer;
pub mod ui;
pub mod save;
pub mod audio;
pub mod sprites;
pub mod battle_ui;
pub mod screens;
