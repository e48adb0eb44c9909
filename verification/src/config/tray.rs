//! The system tray.

use crate::pattern::RegexCfg;
use vstd::prelude::*;

verus! {

/// What a right click on a tray item does.
#[derive(Clone, Copy, Debug, PartialEq, Eq, Structural)]
pub enum TrayClickAction {
    Open,
    Menu,
}

/// The tray's settings.
#[derive(Clone, Debug)]
pub struct TrayModuleConfig {
    /// Items whose name matches one of these are hidden.
    pub blocklist: Vec<RegexCfg>,
    pub right_click: Option<TrayClickAction>,
}

impl Default for TrayModuleConfig {
    fn default() -> (c: Self)
        ensures
            c.blocklist@.len() == 0,
            c.right_click is None,
    {
        TrayModuleConfig { blocklist: Vec::new(), right_click: None }
    }
}

} // verus!
