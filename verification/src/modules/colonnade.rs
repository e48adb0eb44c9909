//! The niri tab strip: which windows make up the active workspace's tabs,
//! which tab holds the focus, and the text each tab shows.

use crate::niri::WindowEntry;
use crate::text::{copy_opt_string, decimal_spec, opt_view, truncate_to_chars, u64_to_decimal};
use vstd::prelude::*;

verus! {

/// A copy of a window entry, equal to it.
pub fn copy_window(w: &WindowEntry) -> (res: WindowEntry)
    ensures
        res == *w,
{
    WindowEntry {
        id: w.id,
        title: copy_opt_string(&w.title),
        app_id: copy_opt_string(&w.app_id),
        workspace_id: w.workspace_id,
        is_focused: w.is_focused,
    }
}

/// The windows among the first `n` of `windows` that sit on workspace `id`,
/// in report order.
pub open spec fn windows_on_spec(windows: Seq<WindowEntry>, id: u64, n: nat) -> Seq<WindowEntry>
    decreases n,
{
    if n == 0 {
        Seq::empty()
    } else {
        let prev = windows_on_spec(windows, id, (n - 1) as nat);
        if windows[n - 1].workspace_id == Some(id) {
            prev.push(windows[n - 1])
        } else {
            prev
        }
    }
}

/// The windows on workspace `workspace_id`, in report order.
pub fn windows_on_workspace(windows: &Vec<WindowEntry>, workspace_id: u64) -> (res: Vec<
    WindowEntry,
>)
    ensures
        res@ == windows_on_spec(windows@, workspace_id, windows@.len()),
{
    let mut res: Vec<WindowEntry> = Vec::new();
    for i in 0..windows.len()
        invariant
            res@ == windows_on_spec(windows@, workspace_id, i as nat),
    {
        if windows[i].workspace_id == Some(workspace_id) {
            res.push(copy_window(&windows[i]));
        }
    }
    res
}

/// The first position at or after `from` whose window is focused or is the
/// workspace's active window.
pub open spec fn first_focus_from(columns: Seq<WindowEntry>, active_window_id: Option<u64>, from: int) -> Option<
    int,
>
    decreases columns.len() - from,
{
    if from < 0 || from >= columns.len() {
        None
    } else if columns[from].is_focused || Some(columns[from].id) == active_window_id {
        Some(from)
    } else {
        first_focus_from(columns, active_window_id, from + 1)
    }
}

/// Which tab holds the focus, given each column's window in strip order:
/// the first focused (or workspace-active) one, else the first tab.
pub open spec fn focus_index_spec(columns: Seq<WindowEntry>, active_window_id: Option<u64>) -> int {
    match first_focus_from(columns, active_window_id, 0) {
        Some(i) => i,
        None => 0,
    }
}

/// The position of the focused tab among `columns`.
pub fn focus_index(columns: &Vec<WindowEntry>, active_window_id: Option<u64>) -> (i: usize)
    ensures
        i as int == focus_index_spec(columns@, active_window_id),
{
    for i in 0..columns.len()
        invariant
            first_focus_from(columns@, active_window_id, 0) == first_focus_from(
                columns@,
                active_window_id,
                i as int,
            ),
    {
        if columns[i].is_focused || Some(columns[i].id) == active_window_id {
            return i;
        }
    }
    0
}

/// A tab's title: the window title, else its app id, else its id in
/// decimal.
pub open spec fn tab_title_spec(window: WindowEntry) -> Seq<char> {
    match opt_view(window.title) {
        Some(t) => t,
        None => match opt_view(window.app_id) {
            Some(a) => a,
            None => decimal_spec(window.id as nat),
        },
    }
}

/// The title a tab shows for `window`.
pub fn tab_title(window: &WindowEntry) -> (s: String)
    ensures
        s@ == tab_title_spec(*window),
{
    match &window.title {
        Some(t) => t.clone(),
        None => match &window.app_id {
            Some(a) => a.clone(),
            None => u64_to_decimal(window.id),
        },
    }
}

/// The title shortened to the character budget a tab has room for.
pub fn tab_label(window: &WindowEntry, max_chars: usize) -> (s: String)
    ensures
        s@ == crate::text::truncated_spec(tab_title_spec(*window), max_chars as nat),
{
    let title = tab_title(window);
    truncate_to_chars(title.as_str(), max_chars)
}

/// Whether a workspace's focus has moved to `focused_id`, given the window
/// each workspace was last seen focused on.
pub open spec fn focus_moved_spec(last: Map<u64, u64>, workspace_id: u64, focused_id: u64) -> bool {
    !(last.contains_key(workspace_id) && last[workspace_id] == focused_id)
}

/// The window each workspace's strip was last scrolled to: a strip scrolls
/// only when its workspace's focus moves.
pub struct FocusMemory {
    last: std::collections::HashMap<u64, u64>,
}

impl View for FocusMemory {
    type V = Map<u64, u64>;

    closed spec fn view(&self) -> Map<u64, u64> {
        self.last@
    }
}

impl FocusMemory {
    /// A memory in which no workspace has been seen yet.
    pub fn new() -> (m: FocusMemory)
        ensures
            m@ == Map::<u64, u64>::empty(),
    {
        FocusMemory { last: std::collections::HashMap::new() }
    }

    /// Records that `workspace_id` is focused on `focused_id`, and tells
    /// whether that is a change (a workspace seen for the first time counts
    /// as one).
    pub fn focus_moved(&mut self, workspace_id: u64, focused_id: u64) -> (moved: bool)
        ensures
            moved == focus_moved_spec(old(self)@, workspace_id, focused_id),
            final(self)@ == old(self)@.insert(workspace_id, focused_id),
    {
        broadcast use vstd::std_specs::hash::group_hash_axioms;

        let unchanged = match self.last.get(&workspace_id) {
            Some(f) => *f == focused_id,
            None => false,
        };
        if unchanged {
            proof {
                assert(self.last@.insert(workspace_id, focused_id) =~= self.last@);
            }
            false
        } else {
            self.last.insert(workspace_id, focused_id);
            true
        }
    }
}

/// Law: once a workspace's focus has been recorded, the same focus again is
/// no move, so a repeated snapshot does not scroll the strip a second time.
pub proof fn law_same_focus_is_no_move(last: Map<u64, u64>, workspace_id: u64, focused_id: u64)
    ensures
        !focus_moved_spec(last.insert(workspace_id, focused_id), workspace_id, focused_id),
{
}

/// Law: recording a workspace's focus leaves what is known of every other
/// workspace unchanged.
pub proof fn law_focus_is_per_workspace(
    last: Map<u64, u64>,
    workspace_id: u64,
    focused_id: u64,
    other: u64,
    other_focus: u64,
)
    requires
        other != workspace_id,
    ensures
        focus_moved_spec(last.insert(workspace_id, focused_id), other, other_focus)
            == focus_moved_spec(last, other, other_focus),
{
}

/// A click or wheel notch on the tab strip.
#[derive(Clone, Copy, Debug, PartialEq, Eq, Structural)]
pub enum StripMessage {
    /// Left click on a tab.
    FocusWindow(u64),
    /// Double click on a tab.
    MaximizeWindow(u64),
    /// Middle click on a tab.
    CloseWindow(u64),
    /// A whole wheel notch towards the left.
    ScrollLeft,
    /// A whole wheel notch towards the right.
    ScrollRight,
}

/// What the strip asks niri to do.
#[derive(Clone, Copy, Debug, PartialEq, Eq, Structural)]
pub enum NiriAction {
    ActivateWindow(u64),
    MaximizeWindow(u64),
    CloseWindow(u64),
    FocusColumnLeft,
    FocusColumnRight,
}

/// The niri action a strip message asks for, and whether it starts the
/// sub-notch wheel accumulator over (a whole notch does; a click does not).
pub fn strip_step(message: StripMessage) -> (r: (NiriAction, bool))
    ensures
        r == (match message {
            StripMessage::FocusWindow(id) => (NiriAction::ActivateWindow(id), false),
            StripMessage::MaximizeWindow(id) => (NiriAction::MaximizeWindow(id), false),
            StripMessage::CloseWindow(id) => (NiriAction::CloseWindow(id), false),
            StripMessage::ScrollLeft => (NiriAction::FocusColumnLeft, true),
            StripMessage::ScrollRight => (NiriAction::FocusColumnRight, true),
        }),
{
    match message {
        StripMessage::FocusWindow(id) => (NiriAction::ActivateWindow(id), false),
        StripMessage::MaximizeWindow(id) => (NiriAction::MaximizeWindow(id), false),
        StripMessage::CloseWindow(id) => (NiriAction::CloseWindow(id), false),
        StripMessage::ScrollLeft => (NiriAction::FocusColumnLeft, true),
        StripMessage::ScrollRight => (NiriAction::FocusColumnRight, true),
    }
}

} // verus!
