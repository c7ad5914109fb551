use console_ui::text::{chars_of, char_width, decimal_chars, pad_left_chars, truncate_cells, truncate_name};

fn chars(s: &str) -> Vec<char> {
    s.chars().collect()
}

fn s(v: Vec<char>) -> String {
    v.into_iter().collect()
}

#[test]
fn widths_come_from_the_terminal_cells() {
    assert_eq!(char_width('a'), 1);
    assert_eq!(char_width('調'), 2);
    assert_eq!(s(truncate_cells(&chars("調査"), 4)), "調査");
    assert_eq!(s(truncate_cells(&chars("調査"), 3)), "調…");
    assert_eq!(chars_of("a▾b"), vec!['a', '▾', 'b']);
}

#[test]
fn truncate_cells_clips_with_an_ellipsis() {
    assert_eq!(s(truncate_cells(&chars("abcdef"), 6)), "abcdef");
    assert_eq!(s(truncate_cells(&chars("abcdef"), 4)), "abc…");
    assert_eq!(s(truncate_cells(&chars("abcdef"), 1)), "…");
    assert_eq!(s(truncate_cells(&chars("abcdef"), 0)), "");
    assert_eq!(s(truncate_cells(&chars("調査名"), 4)), "調…");
}

#[test]
fn truncate_name_keeps_start_and_end() {
    assert_eq!(s(truncate_name(&chars("short"), 10)), "short");
    assert_eq!(s(truncate_name(&chars("abcdefghijklmnop"), 10)), "abcde…mnop");
    assert_eq!(s(truncate_name(&chars("abcdefghijklmnop"), 4)), "abc…");
    assert_eq!(s(truncate_name(&chars("abcdefghijklmnopqrstuvwxyz"), 15)), "abcdefg…tuvwxyz");
}

#[test]
fn decimal_formatting() {
    assert_eq!(s(decimal_chars(0)), "0");
    assert_eq!(s(decimal_chars(1234567890)), "1234567890");
    assert_eq!(s(pad_left_chars(decimal_chars(7), 3)), "  7");
    assert_eq!(s(pad_left_chars(decimal_chars(1234), 3)), "1234");
}
