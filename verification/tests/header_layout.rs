use console_ui::geometry::Rect;
use console_ui::header::{
    available_actions, header_action_at, header_actions, overflow_actions, AppActivity,
    HeaderAction, MainMenuSection,
};

fn header(width: u16) -> Rect {
    Rect { x: 0, y: 0, width, height: 1 }
}

#[test]
fn narrow_header_overflows_into_more() {
    let actions = header_actions(header(80), AppActivity::Live);
    let names: Vec<HeaderAction> = actions.iter().map(|(a, _)| *a).collect();
    assert_eq!(names, [HeaderAction::Session, HeaderAction::Profile, HeaderAction::More]);
    assert_eq!(actions[0].1, Rect { x: 0, y: 0, width: 11, height: 1 });
    assert_eq!(actions[1].1, Rect { x: 12, y: 0, width: 11, height: 1 });
    assert_eq!(actions[2].1, Rect { x: 24, y: 0, width: 8, height: 1 });
    assert!(!names.contains(&HeaderAction::Settings));
    assert_eq!(
        overflow_actions(header(80), AppActivity::Live),
        [HeaderAction::View, HeaderAction::Tools, HeaderAction::Settings, HeaderAction::Help]
    );
}

#[test]
fn wide_header_shows_every_heading_without_more() {
    let actions = header_actions(header(180), AppActivity::Live);
    let xs: Vec<u16> = actions.iter().map(|(_, r)| r.x).collect();
    let names: Vec<HeaderAction> = actions.iter().map(|(a, _)| *a).collect();
    assert_eq!(
        names,
        [
            HeaderAction::Session,
            HeaderAction::Profile,
            HeaderAction::View,
            HeaderAction::Tools,
            HeaderAction::Settings,
            HeaderAction::Help
        ]
    );
    assert_eq!(xs, [0, 12, 24, 33, 43, 56]);
    assert!(overflow_actions(header(180), AppActivity::Live).is_empty());
}

#[test]
fn header_geometry_is_the_same_live_and_recording() {
    for width in [80, 120, 180] {
        let live = header_actions(header(width), AppActivity::Live);
        let recording = header_actions(header(width), AppActivity::Recording);
        assert_eq!(live, recording);
        assert_eq!(live[0].0, HeaderAction::Session);
        assert_eq!(live[0].1.x, 0);
    }
}

#[test]
fn log_view_has_no_tools_heading() {
    assert_eq!(
        available_actions(AppActivity::LogView),
        [
            HeaderAction::Session,
            HeaderAction::Profile,
            HeaderAction::View,
            HeaderAction::Settings,
            HeaderAction::Help
        ]
    );
    let actions = header_actions(header(180), AppActivity::LogView);
    assert!(actions.iter().all(|(a, _)| *a != HeaderAction::Tools));
}

#[test]
fn empty_header_has_no_headings() {
    assert!(header_actions(Rect { x: 0, y: 0, width: 0, height: 1 }, AppActivity::Live).is_empty());
    assert!(header_actions(Rect { x: 0, y: 0, width: 80, height: 0 }, AppActivity::Live).is_empty());
}

#[test]
fn header_hit_testing_finds_the_heading_under_the_pointer() {
    let area = header(180);
    assert_eq!(header_action_at(area, AppActivity::Live, 0, 0), Some(HeaderAction::Session));
    assert_eq!(header_action_at(area, AppActivity::Live, 10, 0), Some(HeaderAction::Session));
    assert_eq!(header_action_at(area, AppActivity::Live, 11, 0), None);
    assert_eq!(header_action_at(area, AppActivity::Live, 13, 0), Some(HeaderAction::Profile));
    assert_eq!(header_action_at(area, AppActivity::Live, 13, 1), None);
    assert_eq!(header_action_at(area, AppActivity::Live, 170, 0), None);
}

#[test]
fn heading_labels_sections_and_shortcuts() {
    assert_eq!(HeaderAction::Session.label(), " Session ▾ ");
    assert_eq!(HeaderAction::FileUsers.label(), "[Find by file]");
    assert_eq!(HeaderAction::FileUsers.menu_label(), "Find processes by file");
    assert_eq!(HeaderAction::Network.menu_label(), "Network endpoints");
    assert_eq!(HeaderAction::Tools.section(), Some(MainMenuSection::Tools));
    assert_eq!(HeaderAction::More.section(), Some(MainMenuSection::More));
    assert_eq!(HeaderAction::Help.section(), None);
    assert_eq!(HeaderAction::Profile.access_index(), Some(1));
    assert_eq!(HeaderAction::Tools.access_index(), Some(2));
    assert_eq!(HeaderAction::Settings.access_index(), Some(3));
    assert_eq!(HeaderAction::Help.access_index(), None);
    assert_eq!(HeaderAction::Tools.shortcut(), "Alt+O");
    assert_eq!(HeaderAction::Network.shortcut(), "F3");
    assert_eq!(HeaderAction::More.shortcut(), "");
    // The underlined access letters are the letters that Alt opens the headings with.
    let letter = |a: HeaderAction| a.label().chars().nth(a.access_index().unwrap()).unwrap();
    assert_eq!(letter(HeaderAction::Session), 'S');
    assert_eq!(letter(HeaderAction::Profile), 'P');
    assert_eq!(letter(HeaderAction::View), 'V');
    assert_eq!(letter(HeaderAction::Tools), 'o');
    assert_eq!(letter(HeaderAction::Settings), 't');
}
