//! The window-title module.

use vstd::prelude::*;

verus! {

/// Which property of the focused window is shown.
#[derive(Clone, Copy, Debug, PartialEq, Eq, Structural)]
pub enum WindowTitleMode {
    Title,
    Class,
    InitialTitle,
    InitialClass,
}

impl Default for WindowTitleMode {
    fn default() -> (m: Self)
        ensures
            m == WindowTitleMode::Title,
    {
        WindowTitleMode::Title
    }
}

/// The window-title module's settings.
#[derive(Clone, Copy, Debug, PartialEq, Eq, Structural)]
pub struct WindowTitleConfig {
    pub mode: WindowTitleMode,
    pub truncate_title_after_length: u32,
}

impl Default for WindowTitleConfig {
    fn default() -> (c: Self)
        ensures
            c == (WindowTitleConfig { mode: WindowTitleMode::Title, truncate_title_after_length: 150 }),
    {
        WindowTitleConfig { mode: WindowTitleMode::Title, truncate_title_after_length: 150 }
    }
}

} // verus!
