use lumen::modules::colonnade::{
    focus_index, strip_step, tab_label, tab_title, windows_on_workspace, FocusMemory, NiriAction,
    StripMessage,
};
use lumen::modules::workspace_indicator::{IndicatorAction, Message, WorkspaceIndicator};
use lumen::niri::{Snapshot, WindowEntry, WorkspaceEntry};

fn ws(id: u64, idx: u64, output: &str, active: bool) -> WorkspaceEntry {
    WorkspaceEntry {
        id,
        idx,
        name: None,
        output: Some(output.to_string()),
        is_active: active,
        is_focused: active,
        active_window_id: None,
    }
}

fn win(id: u64, workspace: u64, title: Option<&str>, app: Option<&str>, focused: bool) -> WindowEntry {
    WindowEntry {
        id,
        title: title.map(|t| t.to_string()),
        app_id: app.map(|a| a.to_string()),
        workspace_id: Some(workspace),
        is_focused: focused,
    }
}

fn indicator(workspaces: Vec<WorkspaceEntry>) -> WorkspaceIndicator {
    let mut w = WorkspaceIndicator::new();
    w.set_snapshot(Snapshot {
        windows: vec![],
        workspaces,
    });
    w
}

#[test]
fn no_snapshot_means_no_step() {
    assert_eq!(WorkspaceIndicator::new().workspace_after(1), None);
    assert!(WorkspaceIndicator::new().active(None).is_none());
}

#[test]
fn scrolling_steps_through_the_output_in_idx_order_and_wraps() {
    // Reported out of order; another output interleaved.
    let w = indicator(vec![
        ws(30, 3, "DP-1", false),
        ws(10, 1, "DP-1", false),
        ws(20, 2, "DP-1", true),
        ws(99, 1, "HDMI-1", true),
    ]);
    assert_eq!(w.active(None).map(|a| a.id), Some(20));
    assert_eq!(w.workspace_after(0), Some(20));
    assert_eq!(w.workspace_after(1), Some(30));
    assert_eq!(w.workspace_after(2), Some(10));
    assert_eq!(w.workspace_after(-1), Some(10));
    assert_eq!(w.workspace_after(-2), Some(30));
    assert_eq!(w.workspace_after(3), Some(20));
    assert_eq!(w.workspace_after(i32::MIN), w.workspace_after(i32::MIN % 3));
    assert_eq!(w.workspace_after(i32::MAX), w.workspace_after(i32::MAX % 3));
    assert_eq!(w.active(Some("HDMI-1")).map(|a| a.id), Some(99));
    assert!(w.active(Some("eDP-1")).is_none());
    // The first active workspace reported decides where stepping starts.
    let w = indicator(vec![ws(99, 1, "HDMI-1", true), ws(20, 2, "DP-1", true), ws(10, 1, "DP-1", false)]);
    assert_eq!(w.workspace_after(1), Some(99));
}

#[test]
fn equal_positions_keep_report_order() {
    let w = indicator(vec![ws(1, 5, "A", true), ws(2, 5, "A", false), ws(3, 4, "A", false)]);
    assert_eq!(w.workspace_after(1), Some(2));
    assert_eq!(w.workspace_after(-1), Some(3));
}

#[test]
fn labels_prefer_names() {
    let mut entry = ws(4, 7, "DP-1", true);
    assert_eq!(WorkspaceIndicator::label(&entry), "7 \u{203a}");
    entry.name = Some(String::new());
    assert_eq!(WorkspaceIndicator::label(&entry), "7 \u{203a}");
    entry.name = Some("web".to_string());
    assert_eq!(WorkspaceIndicator::label(&entry), "web \u{203a}");
}

#[test]
fn tabs_come_from_the_workspace_windows() {
    let windows = vec![
        win(1, 5, Some("Editor"), Some("code"), false),
        win(2, 6, Some("Other"), None, false),
        win(3, 5, None, Some("kitty"), true),
        win(4, 5, None, None, false),
    ];
    let tabs = windows_on_workspace(&windows, 5);
    assert_eq!(tabs.iter().map(|w| w.id).collect::<Vec<_>>(), vec![1, 3, 4]);
    assert_eq!(tab_title(&tabs[0]), "Editor");
    assert_eq!(tab_title(&tabs[1]), "kitty");
    assert_eq!(tab_title(&tabs[2]), "4");
    assert_eq!(focus_index(&tabs, None), 1);
    assert_eq!(focus_index(&tabs, Some(1)), 0);
    assert_eq!(focus_index(&tabs[2..].to_vec(), None), 0);
    assert_eq!(tab_label(&tabs[0], 4), "Edi…");
}

#[test]
fn indicator_updates_turn_into_actions() {
    let mut w = WorkspaceIndicator::new();
    assert!(w.update(Message::Scroll(1)).is_none());
    assert!(w
        .update(Message::Snapshot(Snapshot {
            windows: vec![],
            workspaces: vec![ws(1, 1, "A", true), ws(2, 2, "A", false)],
        }))
        .is_none());
    assert!(matches!(w.update(Message::Scroll(1)), Some(IndicatorAction::FocusWorkspace(2))));
    assert!(matches!(w.update(Message::Scroll(-1)), Some(IndicatorAction::FocusWorkspace(2))));
    match w.update(Message::OpenOverview) {
        Some(IndicatorAction::RunCommand(c)) => assert_eq!(c, "niri msg action toggle-overview"),
        other => panic!("unexpected {other:?}"),
    }
}

#[test]
fn focus_memory_reports_only_moves() {
    let mut memory = FocusMemory::new();
    assert!(memory.focus_moved(1, 10));
    assert!(!memory.focus_moved(1, 10));
    assert!(memory.focus_moved(2, 10));
    assert!(memory.focus_moved(1, 11));
    assert!(!memory.focus_moved(2, 10));
    assert!(!memory.focus_moved(1, 11));
}

#[test]
fn strip_messages_map_to_niri_actions() {
    assert_eq!(strip_step(StripMessage::FocusWindow(7)), (NiriAction::ActivateWindow(7), false));
    assert_eq!(strip_step(StripMessage::MaximizeWindow(7)), (NiriAction::MaximizeWindow(7), false));
    assert_eq!(strip_step(StripMessage::CloseWindow(3)), (NiriAction::CloseWindow(3), false));
    assert_eq!(strip_step(StripMessage::ScrollLeft), (NiriAction::FocusColumnLeft, true));
    assert_eq!(strip_step(StripMessage::ScrollRight), (NiriAction::FocusColumnRight, true));
}
