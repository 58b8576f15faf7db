//! Core logic of a Pokémon Red style game, verified: the Cable Club trade
//! protocol and the trade driver, the naming screen, Professor Oak's intro
//! speech, and the overworld's field moves, event flags, hidden items,
//! scripts, tables and presentation timers.

pub mod direction;
pub mod pokemon;
pub mod species;
pub mod text;
pub mod naming_screen;
pub mod oak_speech;
pub mod link;
pub mod overworld;
