//! Decision logic of the bar's modules: what each one shows and which
//! command each interaction runs.

pub mod arch_menu;
pub mod colonnade;
pub mod custom;
pub mod workspace_indicator;
