use console_ui::geometry::Rect;
use console_ui::header::{header_actions, AppActivity, HeaderAction, MainMenuSection};
use console_ui::main_menu::{
    help_heading_keys, menu_keys,
    anchored_area, display_label, help_heading_footer, main_menu_area, main_menu_content_width,
    main_menu_index_at, main_menu_item_area, main_menu_line, main_menu_modal, menu_offset,
    shortcut, MainMenuAction, MainMenuItem, MainMenuRow, MenuPiece, RowHighlight,
};
use ratatui::text::Span;

fn action(a: MainMenuAction) -> MainMenuRow {
    MainMenuRow { item: MainMenuItem::Action(a) }
}

fn texts(pieces: &[MenuPiece]) -> Vec<String> {
    pieces.iter().map(|p| p.text.iter().collect()).collect()
}

fn cells(pieces: &[MenuPiece]) -> usize {
    pieces.iter().map(|p| Span::raw(p.text.iter().collect::<String>()).width()).sum()
}

#[test]
fn shortcuts_of_actions_and_headings() {
    assert_eq!(shortcut(action(MainMenuAction::OpenProfiles)), "Ctrl+T");
    assert_eq!(shortcut(action(MainMenuAction::SaveProfileAs)), "Ctrl+Shift+S");
    assert_eq!(shortcut(action(MainMenuAction::ToggleSamples)), "v (Graphs)");
    assert_eq!(shortcut(action(MainMenuAction::StopRecording)), "Ctrl+R");
    assert_eq!(shortcut(action(MainMenuAction::QuitImmediately)), "q");
    assert_eq!(shortcut(action(MainMenuAction::ToggleContrast)), "");
    assert_eq!(shortcut(MainMenuRow { item: MainMenuItem::Header(HeaderAction::Network) }), "F3");
    assert_eq!(shortcut(MainMenuRow { item: MainMenuItem::Header(HeaderAction::FileUsers) }), "F4");
}

#[test]
fn content_width_is_at_least_43_and_fits_the_widest_row() {
    let rows = vec![
        action(MainMenuAction::StartRecording),
        action(MainMenuAction::OpenLog),
        action(MainMenuAction::QuitWithConfirmation),
    ];
    let labels = vec!["Start Recording".to_string(), "Open log".to_string(), "Quit".to_string()];
    assert_eq!(main_menu_content_width(&rows, &labels), 43);
    let long = vec![action(MainMenuAction::SaveProfileAs)];
    let long_label = vec!["x".repeat(50)];
    assert_eq!(main_menu_content_width(&long, &long_label), 66);
    assert_eq!(main_menu_content_width(&Vec::new(), &Vec::new()), 43);
    let modal = main_menu_modal(&rows, &labels);
    assert_eq!(modal.title, "");
    assert_eq!(modal.content_width, 43);
    assert_eq!(modal.content_height, 3);
    assert_eq!(modal.footer_height, 1);
    assert_eq!(modal.top_left_below, Some(1));
}

#[test]
fn shortcuts_align_at_the_right_edge() {
    let open = display_label(action(MainMenuAction::OpenProfiles), &"Open".to_string(), 41);
    let save_as = display_label(action(MainMenuAction::SaveProfileAs), &"Save As".to_string(), 41);
    assert_eq!(cells(&open), 41);
    assert_eq!(cells(&save_as), 41);
    assert!(open[2].key_hint && save_as[2].key_hint);
    let columns = display_label(action(MainMenuAction::OpenColumns), &"Columns".to_string(), 30);
    assert_eq!(texts(&columns), ["Columns", "          ", "c", " (Processes)"]);
    assert_eq!(columns.iter().map(|p| p.key_hint).collect::<Vec<_>>(), [false, false, true, false]);
    let plain = display_label(action(MainMenuAction::ToggleContrast), &"High contrast".to_string(), 30);
    assert_eq!(texts(&plain), ["High contrast"]);
    let cramped = display_label(action(MainMenuAction::OpenProfiles), &"A long label".to_string(), 5);
    assert_eq!(texts(&cramped)[1], "  ");
}

#[test]
fn menu_lines_have_cursor_fill_and_highlight() {
    let line = main_menu_line(action(MainMenuAction::OpenLog), &"Open log".to_string(), true, true, 43);
    assert_eq!(line.highlight, RowHighlight::Selected);
    assert_eq!(texts(&line.pieces)[0], "> ");
    assert_eq!(cells(&line.pieces), 43);
    let hovered = main_menu_line(action(MainMenuAction::OpenLog), &"Open log".to_string(), false, true, 43);
    assert_eq!(hovered.highlight, RowHighlight::Hovered);
    assert_eq!(texts(&hovered.pieces)[0], "  ");
    let normal = main_menu_line(action(MainMenuAction::OpenLog), &"Open log".to_string(), false, false, 43);
    assert_eq!(normal.highlight, RowHighlight::Normal);
}

#[test]
fn menu_is_anchored_under_its_heading_or_more() {
    let area = Rect { x: 0, y: 0, width: 80, height: 24 };
    let header = Rect { x: 0, y: 0, width: 80, height: 1 };
    let actions = header_actions(header, AppActivity::Live);
    assert_eq!(anchored_area(area, &actions, MainMenuSection::Profile, 47), Rect { x: 12, y: 0, width: 68, height: 24 });
    assert_eq!(anchored_area(area, &actions, MainMenuSection::Settings, 47), Rect { x: 24, y: 0, width: 56, height: 24 });
    assert_eq!(anchored_area(area, &actions, MainMenuSection::Settings, 70), Rect { x: 10, y: 0, width: 70, height: 24 });
    assert_eq!(anchored_area(area, &Vec::new(), MainMenuSection::Session, 47), Rect { x: 0, y: 0, width: 80, height: 24 });
}

#[test]
fn menu_hit_testing_scrolls_to_selected_items() {
    assert_eq!(menu_offset(5, 3), 3);
    assert_eq!(menu_offset(1, 3), 0);
    assert_eq!(menu_offset(4, 0), 4);
    let content = Rect { x: 10, y: 5, width: 20, height: 3 };
    let row = main_menu_item_area(content, 2, 7, 3).unwrap();
    assert_eq!(row, Rect { x: 10, y: 6, width: 20, height: 1 });
    for x in row.x..row.right() {
        assert_eq!(main_menu_index_at(content, 2, 7, x, row.y), Some(3));
    }
    assert_eq!(main_menu_index_at(content, 2, 7, row.right(), row.y), None);
    assert_eq!(main_menu_index_at(content, 2, 7, 9, 6), None);
    assert_eq!(main_menu_index_at(content, 2, 7, 10, 8), None);
    assert_eq!(main_menu_index_at(content, 6, 7, 10, 7), None);
    assert_eq!(main_menu_item_area(content, 2, 7, 1), None);
    assert_eq!(main_menu_item_area(content, 2, 7, 5), None);
    assert_eq!(main_menu_item_area(content, 2, 4, 4), None);
}

#[test]
fn help_heading_opens_no_drop_down() {
    let modal = Rect { x: 3, y: 1, width: 40, height: 10 };
    assert_eq!(main_menu_area(MainMenuSection::Help, modal), Rect { x: 0, y: 0, width: 0, height: 0 });
    assert_eq!(main_menu_area(MainMenuSection::View, modal), modal);
    assert_eq!(help_heading_footer(Rect { x: 2, y: 0, width: 50, height: 24 }), Rect { x: 2, y: 23, width: 50, height: 1 });
    assert_eq!(help_heading_footer(Rect { x: 2, y: 0, width: 50, height: 0 }), Rect { x: 2, y: 0, width: 50, height: 0 });
}

#[test]
fn footer_shortcut_lists() {
    assert_eq!(menu_keys(), [("↑/↓", "Select"), ("←/→", "Menu"), ("Enter", "Open"), ("Esc", "Close")]);
    assert_eq!(help_heading_keys(), [("←/→", "Menu"), ("Enter", "Help"), ("Esc", "Close")]);
}
