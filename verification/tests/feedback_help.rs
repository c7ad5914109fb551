use console_ui::app::{App, FocusedPanel, ProcessInfoTab, ScrollState, StatusFeedback};
use console_ui::geometry::Rect;
use console_ui::help::{HelpCommand, HelpKey, HelpMouse};

fn chars(s: &str) -> Vec<char> {
    s.chars().collect()
}

fn app() -> App {
    App {
        status: Vec::new(),
        status_feedback: StatusFeedback { observed: Vec::new(), expires_at: None, context: (false, false, false) },
        workspace_overlay: false,
        network_browser_visible: false,
        file_users_visible: false,
        show_process_info_dialog: false,
        process_info_tab: ProcessInfoTab::General,
        show_column_picker: false,
        show_process_kill_confirmation: false,
        investigation_profiles_open: false,
        show_tracked_remove_confirmation: false,
        show_recording_tracking_fixed: false,
        graph_reorder_open: false,
        show_cpu_core_dialog: false,
        main_menu_open: false,
        focused_panel: FocusedPanel::Processes,
        help_section: 0,
        help_section_picker: None,
        shortcut_hovered: None,
        help_scroll: ScrollState { offset: 0, page_size: 10, dragging: false },
    }
}

#[test]
fn action_feedback_expires_after_six_seconds() {
    let mut a = app();
    a.status = chars("Saved profile");
    assert!(a.refresh_status_feedback(1000));
    assert_eq!(a.status_feedback.expires_at, Some(7000));
    assert_eq!(a.status_feedback.observed, chars("Saved profile"));
    assert!(!a.refresh_status_feedback(6999));
    assert_eq!(a.status, chars("Saved profile"));
    assert!(a.refresh_status_feedback(7000));
    assert!(a.status.is_empty());
    assert_eq!(a.status_feedback.expires_at, None);
    assert!(!a.refresh_status_feedback(8000));
}

#[test]
fn focus_notices_expire_after_two_seconds() {
    let mut a = app();
    a.status = chars("Focus: CPU");
    assert!(a.refresh_status_feedback(500));
    assert_eq!(a.status_feedback.expires_at, Some(2500));
    assert!(a.refresh_status_feedback(2500));
    assert!(a.status.is_empty());
}

#[test]
fn overlay_change_drops_an_old_message_but_not_a_new_one() {
    let mut a = app();
    a.status = chars("Copied");
    a.refresh_status_feedback(0);
    a.network_browser_visible = true;
    assert!(a.refresh_status_feedback(100));
    assert!(a.status.is_empty());
    assert_eq!(a.status_feedback.context, (false, true, false));
    a.status = chars("Opened");
    a.file_users_visible = true;
    assert!(a.refresh_status_feedback(200));
    assert_eq!(a.status, chars("Opened"));
}

#[test]
fn help_title_follows_dialogs_then_overlays_then_focus() {
    let mut a = app();
    assert_eq!(a.contextual_help_title(), "Processes");
    a.focused_panel = FocusedPanel::SystemActivity;
    assert_eq!(a.contextual_help_title(), "NW/DISK");
    a.file_users_visible = true;
    assert_eq!(a.contextual_help_title(), "Find file users");
    a.main_menu_open = true;
    assert_eq!(a.contextual_help_title(), "Global");
    a.show_cpu_core_dialog = true;
    assert_eq!(a.contextual_help_title(), "CPU");
    a.investigation_profiles_open = true;
    assert_eq!(a.contextual_help_title(), "Tracking");
    a.show_column_picker = true;
    assert_eq!(a.contextual_help_title(), "Processes");
    a.show_process_info_dialog = true;
    assert_eq!(a.contextual_help_title(), "Process Info");
    a.process_info_tab = ProcessInfoTab::Scheduling;
    assert_eq!(a.contextual_help_title(), "Scheduling");
}

#[test]
fn jumping_to_a_section_clamps_and_scrolls() {
    let mut a = app();
    a.help_section_picker = Some(1);
    a.shortcut_hovered = Some(Rect { x: 1, y: 1, width: 4, height: 1 });
    a.help_scroll.dragging = true;
    let offsets = OFFSETS.to_vec();
    a.jump_help_section(5, &offsets, 10, 30);
    assert_eq!(a.help_section, 2);
    assert_eq!(a.help_scroll.offset, 20);
    assert_eq!(a.help_section_picker, None);
    assert_eq!(a.shortcut_hovered, None);
    assert!(!a.help_scroll.dragging);
    a.jump_help_section(1, &offsets, 10, 30);
    assert_eq!(a.help_section, 1);
    assert_eq!(a.help_scroll.offset, 10);
}

const OFFSETS: [usize; 3] = [0, 10, 25];

fn offsets() -> Vec<usize> {
    OFFSETS.to_vec()
}

#[test]
fn picker_keys_move_within_the_sections_and_enter_jumps() {
    let mut a = app();
    let o = offsets();
    a.help_section_picker = Some(1);
    assert_eq!(a.help_key(HelpKey::Down, &o, 10, 30), HelpCommand::Nothing);
    assert_eq!(a.help_section_picker, Some(2));
    a.help_key(HelpKey::Down, &o, 10, 30);
    assert_eq!(a.help_section_picker, Some(2));
    a.help_key(HelpKey::Up, &o, 10, 30);
    assert_eq!(a.help_section_picker, Some(1));
    a.help_key(HelpKey::Home, &o, 10, 30);
    assert_eq!(a.help_section_picker, Some(0));
    a.help_key(HelpKey::Up, &o, 10, 30);
    assert_eq!(a.help_section_picker, Some(0));
    a.help_key(HelpKey::End, &o, 10, 30);
    assert_eq!(a.help_section_picker, Some(2));
    assert_eq!(a.help_key(HelpKey::Char('?'), &o, 10, 30), HelpCommand::CloseHelp);
    assert_eq!(a.help_section_picker, Some(2));
    assert_eq!(a.help_key(HelpKey::Enter, &o, 10, 30), HelpCommand::Nothing);
    assert_eq!(a.help_section_picker, None);
    assert_eq!(a.help_section, 2);
    assert_eq!(a.help_scroll.offset, 20);
    a.help_section_picker = Some(0);
    assert_eq!(a.help_key(HelpKey::Esc, &o, 10, 30), HelpCommand::Nothing);
    assert_eq!(a.help_section_picker, None);
    assert_eq!(a.help_section, 2);
}

#[test]
fn page_keys_scroll_jump_and_open_the_picker() {
    let mut a = app();
    let o = offsets();
    a.help_section = 1;
    assert_eq!(a.help_key(HelpKey::Right, &o, 10, 40), HelpCommand::Nothing);
    assert_eq!(a.help_section, 2);
    assert_eq!(a.help_scroll.offset, 25);
    assert_eq!(a.help_key(HelpKey::Right, &o, 10, 40), HelpCommand::Nothing);
    assert_eq!(a.help_section, 2);
    assert_eq!(a.help_key(HelpKey::Left, &o, 10, 40), HelpCommand::Nothing);
    assert_eq!(a.help_section, 1);
    assert_eq!(a.help_scroll.offset, 10);
    assert_eq!(a.help_key(HelpKey::PageDown, &o, 10, 40), HelpCommand::ScrollDown(10));
    assert_eq!(a.help_key(HelpKey::Up, &o, 10, 40), HelpCommand::ScrollUp(1));
    assert_eq!(a.help_key(HelpKey::End, &o, 10, 40), HelpCommand::ScrollEnd);
    assert_eq!(a.help_key(HelpKey::F(1), &o, 10, 40), HelpCommand::CloseHelp);
    assert_eq!(a.help_key(HelpKey::Char('x'), &o, 10, 40), HelpCommand::Nothing);
    a.help_scroll.dragging = true;
    assert_eq!(a.help_key(HelpKey::Char('S'), &o, 10, 40), HelpCommand::Nothing);
    assert_eq!(a.help_section_picker, Some(1));
    assert!(!a.help_scroll.dragging);
    assert_eq!(a.help_section, 1);
}

#[test]
fn picker_mouse_hovers_jumps_and_closes() {
    let mut a = app();
    let o = offsets();
    a.help_section_picker = Some(0);
    let row = Rect { x: 5, y: 6, width: 20, height: 1 };
    assert_eq!(a.help_section_mouse(HelpMouse::Other, Some((2, row)), true, &o, 10, 30), HelpCommand::Nothing);
    assert_eq!(a.shortcut_hovered, Some(row));
    assert_eq!(a.help_section_picker, Some(0));
    assert_eq!(a.help_section_mouse(HelpMouse::LeftDown, Some((2, row)), true, &o, 10, 30), HelpCommand::Nothing);
    assert_eq!(a.help_section, 2);
    assert_eq!(a.help_section_picker, None);
    assert_eq!(a.shortcut_hovered, None);
    assert_eq!(a.help_scroll.offset, 20);
    a.help_section_picker = Some(0);
    assert_eq!(a.help_section_mouse(HelpMouse::ScrollDown, None, true, &o, 10, 30), HelpCommand::Nothing);
    assert_eq!(a.help_section_picker, Some(1));
    assert_eq!(a.help_section_mouse(HelpMouse::LeftDown, None, true, &o, 10, 30), HelpCommand::Nothing);
    assert_eq!(a.help_section_picker, Some(1));
    assert_eq!(a.help_section_mouse(HelpMouse::LeftDown, None, false, &o, 10, 30), HelpCommand::Nothing);
    assert_eq!(a.help_section_picker, None);
    assert_eq!(a.help_section_mouse(HelpMouse::ScrollUp, None, false, &o, 10, 30), HelpCommand::ScrollUp(1));
}

#[test]
fn jumping_without_sections_goes_to_the_top() {
    let mut a = app();
    a.help_scroll.offset = 7;
    a.jump_help_section(3, &Vec::new(), 10, 30);
    assert_eq!(a.help_section, 0);
    assert_eq!(a.help_scroll.offset, 0);
}

#[test]
fn refresh_leaves_the_rest_of_the_state_alone() {
    let mut a = app();
    a.file_users_visible = true;
    a.help_section = 2;
    a.status = chars("Focus: Processes");
    a.refresh_status_feedback(0);
    assert!(a.file_users_visible);
    assert_eq!(a.help_section, 2);
    assert_eq!(a.focused_panel, FocusedPanel::Processes);
    for t in [1, 1000, 1999] {
        assert!(!a.refresh_status_feedback(t));
        assert_eq!(a.status, chars("Focus: Processes"));
    }
    assert!(a.refresh_status_feedback(2000));
    assert!(a.status.is_empty());
}

#[test]
fn message_is_kept_over_many_refreshes_until_its_deadline() {
    let mut a = app();
    a.status = chars("Saved");
    assert!(a.refresh_status_feedback(100));
    for t in [100, 200, 3000, 6099] {
        assert!(!a.refresh_status_feedback(t));
        assert_eq!(a.status, chars("Saved"));
        assert_eq!(a.status_feedback.observed, a.status);
        assert_eq!(a.status_feedback.expires_at, Some(6100));
    }
    assert!(a.refresh_status_feedback(6100));
    assert!(a.status.is_empty());
    assert!(a.status_feedback.observed.is_empty());
    assert_eq!(a.status_feedback.expires_at, None);
}
