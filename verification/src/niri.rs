//! The parts of a niri snapshot that the bar's niri-only modules read:
//! workspaces (one active per output) and windows (one tab per column).

use vstd::prelude::*;

verus! {

/// One niri workspace as the compositor reports it.
#[derive(Clone, Debug)]
pub struct WorkspaceEntry {
    pub id: u64,
    /// Position of the workspace on its output, counting from 1.
    pub idx: u64,
    pub name: Option<String>,
    pub output: Option<String>,
    pub is_active: bool,
    pub is_focused: bool,
    pub active_window_id: Option<u64>,
}

/// One niri window, reduced to what the tab strip reads.
#[derive(Clone, Debug)]
pub struct WindowEntry {
    pub id: u64,
    pub title: Option<String>,
    pub app_id: Option<String>,
    pub workspace_id: Option<u64>,
    pub is_focused: bool,
}

/// What niri reported most recently: every window and every workspace.
#[derive(Clone, Debug)]
pub struct Snapshot {
    pub windows: Vec<WindowEntry>,
    pub workspaces: Vec<WorkspaceEntry>,
}

impl Snapshot {
    /// A snapshot before niri has reported anything.
    pub fn empty() -> (s: Snapshot)
        ensures
            s.windows@.len() == 0,
            s.workspaces@.len() == 0,
    {
        Snapshot { windows: Vec::new(), workspaces: Vec::new() }
    }
}

} // verus!
