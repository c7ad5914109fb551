use console_ui::geometry::Rect;
use console_ui::header::{header_actions, AppActivity};
use console_ui::status::{header_status_area, header_status_line, HeaderStatus, StatusStyle};
use ratatui::text::Span;

fn chars(s: &str) -> Vec<char> {
    s.chars().collect()
}

fn text(v: &[char]) -> String {
    v.iter().collect()
}

#[test]
fn profile_badge_keeps_both_padding_cells_when_truncated() {
    for name in ["chrome".to_string(), "調査プロファイル名".repeat(10)] {
        for width in [80u16, 120, 180] {
            let area = Rect { x: 0, y: 0, width, height: 1 };
            let actions = header_actions(area, AppActivity::Live);
            let status_area = header_status_area(area, &actions);
            let status = HeaderStatus {
                activity: AppActivity::Live,
                recording_interval_seconds: None,
                recording_spinner_index: 0,
                log_view_interval_seconds: None,
                stale_age_seconds: None,
                display_paused: false,
            };
            let spans = header_status_line(
                &status,
                usize::from(status_area.width),
                &Some(chars(&name)),
                false,
                &None,
            );
            let total: usize = spans.iter().map(|s| Span::raw(text(&s.text)).width()).sum();
            // The line is right-aligned in the status area, so its last cell is
            // the area's (and the screen's) last cell.
            assert!(total <= usize::from(status_area.width));
            assert_eq!(status_area.right(), width);
            let badge = spans.last().unwrap();
            assert_eq!(badge.style, StatusStyle::ProfileBadge);
            let badge_text = text(&badge.text);
            let at = badge_text.find("PF:").unwrap();
            assert_eq!(at, 1);
            assert_eq!(&badge_text[..1], " ");
            assert!(badge_text.ends_with(' '));
        }
    }
}
