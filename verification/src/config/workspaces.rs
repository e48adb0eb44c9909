//! The workspace pager.

use vstd::prelude::*;

verus! {

/// Which workspaces each monitor's pager lists.
#[derive(Clone, Copy, Debug, PartialEq, Eq, Structural)]
pub enum WorkspaceVisibilityMode {
    All,
    MonitorSpecific,
    MonitorSpecificExclusive,
}

impl Default for WorkspaceVisibilityMode {
    fn default() -> (m: Self)
        ensures
            m == WorkspaceVisibilityMode::All,
    {
        WorkspaceVisibilityMode::All
    }
}

/// What a workspace button shows.
#[derive(Clone, Copy, Debug, PartialEq, Eq, Structural)]
pub enum WorkspaceIndicatorFormat {
    Name,
    NameAndIcons,
}

impl Default for WorkspaceIndicatorFormat {
    fn default() -> (f: Self)
        ensures
            f == WorkspaceIndicatorFormat::Name,
    {
        WorkspaceIndicatorFormat::Name
    }
}

/// Which scroll devices have their direction inverted.
#[derive(Clone, Copy, Debug, PartialEq, Eq, Structural)]
pub enum InvertScrollDirection {
    All,
    Mouse,
    Trackpad,
}

impl Default for InvertScrollDirection {
    fn default() -> (d: Self)
        ensures
            d == InvertScrollDirection::All,
    {
        InvertScrollDirection::All
    }
}

/// The pager's settings.
#[derive(Clone, Debug)]
pub struct WorkspacesModuleConfig {
    pub visibility_mode: WorkspaceVisibilityMode,
    pub indicator_format: WorkspaceIndicatorFormat,
    pub group_by_monitor: bool,
    pub enable_workspace_filling: bool,
    pub disable_special_workspaces: bool,
    pub max_workspaces: Option<u32>,
    pub workspace_names: Vec<String>,
    pub enable_virtual_desktops: bool,
    pub invert_scroll_direction: Option<InvertScrollDirection>,
}

impl Default for WorkspacesModuleConfig {
    fn default() -> (c: Self)
        ensures
            c.visibility_mode == WorkspaceVisibilityMode::All,
            c.indicator_format == WorkspaceIndicatorFormat::Name,
            !c.group_by_monitor,
            !c.enable_workspace_filling,
            !c.disable_special_workspaces,
            c.max_workspaces is None,
            c.workspace_names@.len() == 0,
            !c.enable_virtual_desktops,
            c.invert_scroll_direction is None,
    {
        WorkspacesModuleConfig {
            visibility_mode: WorkspaceVisibilityMode::All,
            indicator_format: WorkspaceIndicatorFormat::Name,
            group_by_monitor: false,
            enable_workspace_filling: false,
            disable_special_workspaces: false,
            max_workspaces: None,
            workspace_names: Vec::new(),
            enable_virtual_desktops: false,
            invert_scroll_direction: None,
        }
    }
}

} // verus!
