//! Configuration model and module decision logic of the Lumen status bar,
//! with their contracts proved by Verus.

pub mod config;
pub mod modules;
pub mod niri;
pub mod paths;
pub mod pattern;
pub mod text;
