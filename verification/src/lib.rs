//! Core logic of a desktop-simulating escape-room application: window
//! geometry and hit-testing, per-frame input routing over a z-ordered
//! window registry, a dock derived from registered windows, a puzzle
//! state machine gated by a removable-media file check, and a tile-based
//! mini-game.  All coordinates are whole screen pixels; rendering and
//! device polling live outside this crate and exchange plain values with
//! it.

pub mod geometry;
pub mod input;
pub mod popup;
pub mod login;
pub mod text;
pub mod document_list;
pub mod document;
pub mod minigame;
pub mod windows;
pub mod system;
pub mod clock;
pub mod laws;
