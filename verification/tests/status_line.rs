use console_ui::geometry::Rect;
use console_ui::header::{header_actions, AppActivity, HeaderAction, MainMenuSection};
use console_ui::status::{
    activity_label, append_fitting_label, append_recording_interval, header_status_area,
    header_status_line, header_status_spans, heading_emphasis, mode_span, stale_span,
    HeaderStatus, StatusSpan, StatusStyle, Tone,
};

fn chars(s: &str) -> Vec<char> {
    s.chars().collect()
}

fn texts(spans: &[StatusSpan]) -> Vec<String> {
    spans.iter().map(|s| s.text.iter().collect()).collect()
}

fn status(activity: AppActivity) -> HeaderStatus {
    HeaderStatus {
        activity,
        recording_interval_seconds: None,
        recording_spinner_index: 0,
        log_view_interval_seconds: None,
        stale_age_seconds: None,
        display_paused: false,
    }
}

#[test]
fn activity_labels() {
    assert_eq!(activity_label(AppActivity::Live), "LIVE");
    assert_eq!(activity_label(AppActivity::Recording), "REC");
    assert_eq!(activity_label(AppActivity::LogView), "LOG");
}

#[test]
fn badges_and_intervals() {
    let badge = mode_span("LIVE", Tone::ActiveSeries);
    assert_eq!(badge.text, chars(" LIVE "));
    assert_eq!(badge.style, StatusStyle::Mode(Tone::ActiveSeries));
    let stale = stale_span(12);
    assert_eq!(stale.text, chars(" · STALE 12s"));
    assert_eq!(stale.style, StatusStyle::Stale);
    let mut spans = Vec::new();
    append_recording_interval(&mut spans, 15);
    append_recording_interval(&mut spans, 1);
    assert_eq!(texts(&spans), [" · ", "15s AVG", " · ", "1s"]);
    assert_eq!(spans[1].style, StatusStyle::Interval);
}

#[test]
fn recording_status_shows_interval_and_spinner() {
    let mut st = status(AppActivity::Recording);
    st.recording_interval_seconds = Some(5);
    st.recording_spinner_index = 7;
    st.stale_age_seconds = Some(3);
    st.display_paused = true;
    let spans = header_status_spans(&st);
    assert_eq!(
        texts(&spans),
        [" REC ", " · ", "5s AVG", " ", "\\", " · STALE 3s", "  ", " DISPLAY PAUSED "]
    );
    assert_eq!(spans[0].style, StatusStyle::Mode(Tone::Danger));
    assert_eq!(spans[4].style, StatusStyle::Spinner);
    assert_eq!(spans[7].style, StatusStyle::Mode(Tone::Warning));
}

#[test]
fn one_second_recording_hides_interval_and_log_view_hides_pause() {
    let mut st = status(AppActivity::Recording);
    st.recording_interval_seconds = Some(1);
    assert_eq!(texts(&header_status_spans(&st)), [" REC ", " ", "|"]);
    let mut log = status(AppActivity::LogView);
    log.log_view_interval_seconds = Some(1);
    log.display_paused = true;
    assert_eq!(texts(&header_status_spans(&log)), [" LOG ", " · ", "1s"]);
}

#[test]
fn narrow_header_keeps_pause_and_stale_status_after_menu_controls() {
    let area = Rect { x: 0, y: 0, width: 80, height: 1 };
    let actions = header_actions(area, AppActivity::Live);
    let status_area = header_status_area(area, &actions);
    assert_eq!(status_area, Rect { x: 34, y: 0, width: 46, height: 1 });
    let mut st = status(AppActivity::Live);
    st.stale_age_seconds = Some(5);
    st.display_paused = true;
    let line = header_status_line(&st, 46, &None, false, &None);
    let joined: String = texts(&line).concat();
    assert!(joined.contains("LIVE"));
    assert!(joined.contains("STALE"));
    assert!(joined.contains("DISPLAY PAUSED"));
}

#[test]
fn profile_badge_and_log_name_fill_the_budget() {
    let st = status(AppActivity::Live);
    let line = header_status_line(&st, 40, &Some(chars("chrome")), true, &None);
    assert_eq!(texts(&line), [" LIVE ", "  ", " PF: chrome* "]);
    assert_eq!(line[2].style, StatusStyle::ProfileBadge);
    let none = header_status_line(&st, 40, &None, false, &None);
    assert_eq!(texts(&none), [" LIVE ", "  ", " PF: none "]);
    let log = status(AppActivity::LogView);
    let with_log = header_status_line(&log, 60, &Some(chars("chrome")), true, &Some(chars("example.log")));
    assert_eq!(texts(&with_log), [" LOG ", "  ", " PF: -- ", "  ", "example.log"]);
    assert_eq!(with_log[4].style, StatusStyle::FileName);
}

#[test]
fn tiny_budget_clips_activity_first_and_drops_names() {
    let st = status(AppActivity::Live);
    let line = header_status_line(&st, 4, &Some(chars("chrome")), false, &Some(chars("a.log")));
    assert_eq!(texts(&line), [" LI…"]);
    let none = header_status_line(&st, 0, &None, false, &None);
    assert_eq!(texts(&none), [""]);
}

#[test]
fn fitting_label_needs_six_cells() {
    let mut spans = vec![StatusSpan { text: chars("abcd"), style: StatusStyle::Plain }];
    append_fitting_label(&mut spans, &chars("file.log"), 9, StatusStyle::FileName);
    assert_eq!(spans.len(), 1);
    append_fitting_label(&mut spans, &chars("file.log"), 10, StatusStyle::FileName);
    assert_eq!(texts(&spans), ["abcd", "  ", "fil…"]);
}

#[test]
fn heading_emphasis_follows_menu_and_workspace() {
    let area = Rect { x: 0, y: 0, width: 80, height: 1 };
    let actions = header_actions(area, AppActivity::Live);
    let e = heading_emphasis(HeaderAction::Profile, &actions, true, MainMenuSection::Profile, false, false, None);
    assert!(e.active && !e.selected && !e.hovered);
    // Settings has no heading at this width, so More shows it as active.
    let more = heading_emphasis(HeaderAction::More, &actions, true, MainMenuSection::Settings, false, false, Some(HeaderAction::More));
    assert!(more.active && more.hovered);
    let closed = heading_emphasis(HeaderAction::Profile, &actions, false, MainMenuSection::Profile, false, false, None);
    assert!(!closed.active);
    let processes = heading_emphasis(HeaderAction::Processes, &actions, false, MainMenuSection::Session, false, false, None);
    assert!(processes.selected);
    let network = heading_emphasis(HeaderAction::Network, &actions, false, MainMenuSection::Session, true, false, None);
    assert!(network.selected);
}
