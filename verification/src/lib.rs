//! Falling-glyph terminal animation: the per-column simulator, the lookup
//! tables for themes and speeds, and the mode state machine that drives them.

pub mod charset;
pub mod column;
pub mod config;
pub mod controller;
pub mod random;
pub mod text;
pub mod theme;
