//! The overworld's rules: tables looked up by map and tile, field-move
//! gates, flag storage, presentation timers and the script bridge.

pub mod bookshelf;
pub mod event_flags;
pub mod field_moves;
pub mod fishing;
pub mod forced_bike;
pub mod hidden_items;
pub mod hm_effects;
pub mod map_data_loading;
pub mod native_script;
pub mod npc_interaction;
pub mod poison;
pub mod presentation;
pub mod script_bridge;
pub mod spinner_paths;
