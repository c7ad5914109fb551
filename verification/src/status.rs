use vstd::prelude::*;
use crate::geometry::{Rect, rect_new, sat_add};
use crate::header::{AppActivity, HeaderAction, MainMenuSection};
use crate::text::{
    chars_of, concat_chars, decimal, decimal_chars, span_cells, span_width, truncate_cells,
    truncate_name, truncated_cells, truncated_name,
};

verus! {

/// The theme colours that status badges are filled with.
#[derive(Clone, Copy, Debug, PartialEq, Eq, Structural)]
pub enum Tone {
    ActiveSeries,
    Danger,
    Warning,
}

/// How a piece of the header status line is drawn.
#[derive(Clone, Copy, Debug, PartialEq, Eq, Structural)]
pub enum StatusStyle {
    /// Unstyled text.
    Plain,
    /// A bold badge in the background colour on the given tone.
    Mode(Tone),
    /// The sampling interval: bold, muted.
    Interval,
    /// The recording spinner: bold, in the danger colour.
    Spinner,
    /// The stale-sample warning: bold, in the warning colour.
    Stale,
    /// The profile badge: black on the muted colour.
    ProfileBadge,
    /// The name of the viewed log: muted.
    FileName,
}

/// A piece of the header status line.
#[derive(Debug)]
pub struct StatusSpan {
    pub text: Vec<char>,
    pub style: StatusStyle,
}

/// What the header status line shows of the application's state.
#[derive(Clone, Copy, Debug)]
pub struct HeaderStatus {
    pub activity: AppActivity,
    /// The averaging interval of the running recording, if any.
    pub recording_interval_seconds: Option<u64>,
    /// A counter that advances the recording spinner.
    pub recording_spinner_index: usize,
    /// The sampling interval of the viewed log, if known.
    pub log_view_interval_seconds: Option<u64>,
    /// The age of the shown sample when it is stale.
    pub stale_age_seconds: Option<u64>,
    pub display_paused: bool,
}

pub open spec fn spans_view(spans: Seq<StatusSpan>) -> Seq<(Seq<char>, StatusStyle)> {
    spans.map_values(|s: StatusSpan| (s.text@, s.style))
}

pub open spec fn activity_label_spec(activity: AppActivity) -> Seq<char> {
    match activity {
        AppActivity::Live => "LIVE"@,
        AppActivity::Recording => "REC"@,
        AppActivity::LogView => "LOG"@,
    }
}

/// The word that names an activity in the header.
pub fn activity_label(activity: AppActivity) -> (r: &'static str)
    ensures
        r@ == activity_label_spec(activity),
{
    match activity {
        AppActivity::Live => "LIVE",
        AppActivity::Recording => "REC",
        AppActivity::LogView => "LOG",
    }
}

/// A badge's text: the label with one space on each side.
pub open spec fn badge_text(label: Seq<char>) -> Seq<char> {
    seq![' '] + label + seq![' ']
}

/// A bold badge for a mode label.
pub fn mode_span(label: &str, tone: Tone) -> (r: StatusSpan)
    ensures
        r.text@ == badge_text(label@),
        r.style == StatusStyle::Mode(tone),
{
    let mut text: Vec<char> = Vec::new();
    text.push(' ');
    let label_chars = chars_of(label);
    let mut text = concat_chars(text, label_chars.as_slice());
    text.push(' ');
    assert(text@ =~= badge_text(label@));
    StatusSpan { text, style: StatusStyle::Mode(tone) }
}

/// The text of the interval badge: `Ns AVG` above one second, else `1s`.
pub open spec fn interval_text(seconds: u64) -> Seq<char> {
    if seconds > 1 {
        decimal(seconds as nat) + "s AVG"@
    } else {
        "1s"@
    }
}

pub open spec fn interval_spans(seconds: u64) -> Seq<(Seq<char>, StatusStyle)> {
    seq![(" · "@, StatusStyle::Plain), (interval_text(seconds), StatusStyle::Interval)]
}

/// Appends the sampling interval to the status line.
pub fn append_recording_interval(spans: &mut Vec<StatusSpan>, seconds: u64)
    ensures
        spans_view(final(spans)@) == spans_view(old(spans)@) + interval_spans(seconds),
{
    let ghost before = spans_view(spans@);
    spans.push(StatusSpan { text: chars_of(" · "), style: StatusStyle::Plain });
    let text = if seconds > 1 {
        concat_chars(decimal_chars(seconds), chars_of("s AVG").as_slice())
    } else {
        chars_of("1s")
    };
    spans.push(StatusSpan { text, style: StatusStyle::Interval });
    assert(spans_view(spans@) =~= before + interval_spans(seconds));
}

pub open spec fn stale_text(age_seconds: u64) -> Seq<char> {
    " · STALE "@ + decimal(age_seconds as nat) + "s"@
}

/// The warning that the shown sample is `age_seconds` old.
pub fn stale_span(age_seconds: u64) -> (r: StatusSpan)
    ensures
        r.text@ == stale_text(age_seconds),
        r.style == StatusStyle::Stale,
{
    let text = concat_chars(chars_of(" · STALE "), decimal_chars(age_seconds).as_slice());
    let text = concat_chars(text, chars_of("s").as_slice());
    StatusSpan { text, style: StatusStyle::Stale }
}

pub open spec fn activity_tone(activity: AppActivity) -> Tone {
    match activity {
        AppActivity::Live => Tone::ActiveSeries,
        AppActivity::Recording => Tone::Danger,
        AppActivity::LogView => Tone::Warning,
    }
}

/// The spinner frame for a counter value.
pub open spec fn spinner_char(index: usize) -> char {
    let i = index % 4;
    if i == 0 {
        '|'
    } else if i == 1 {
        '/'
    } else if i == 2 {
        '-'
    } else {
        '\\'
    }
}

/// The status pieces between the activity badge and the stale warning.
pub open spec fn activity_detail_spans(status: HeaderStatus) -> Seq<(Seq<char>, StatusStyle)> {
    match status.activity {
        AppActivity::Live => Seq::empty(),
        AppActivity::Recording => {
            let interval = match status.recording_interval_seconds {
                Some(s) => if s > 1 {
                    interval_spans(s)
                } else {
                    Seq::empty()
                },
                None => Seq::empty(),
            };
            interval + seq![
                (" "@, StatusStyle::Plain),
                (seq![spinner_char(status.recording_spinner_index)], StatusStyle::Spinner),
            ]
        },
        AppActivity::LogView => match status.log_view_interval_seconds {
            Some(s) => interval_spans(s),
            None => Seq::empty(),
        },
    }
}

/// The status pieces of the header: the activity badge; for a recording its
/// averaging interval (when above one second) and the spinner; for a log view
/// its interval when known; the stale warning; and the pause badge, which a
/// log view never shows.
pub open spec fn status_spans_spec(status: HeaderStatus) -> Seq<(Seq<char>, StatusStyle)> {
    let mode = seq![(badge_text(activity_label_spec(status.activity)), StatusStyle::Mode(activity_tone(status.activity)))];
    let stale = match status.stale_age_seconds {
        Some(age) => seq![(stale_text(age), StatusStyle::Stale)],
        None => Seq::empty(),
    };
    let pause = if status.display_paused && status.activity != AppActivity::LogView {
        seq![("  "@, StatusStyle::Plain), (badge_text("DISPLAY PAUSED"@), StatusStyle::Mode(Tone::Warning))]
    } else {
        Seq::empty()
    };
    mode + activity_detail_spans(status) + stale + pause
}

/// The pieces of the header status line, before the profile badge.
pub fn header_status_spans(status: &HeaderStatus) -> (r: Vec<StatusSpan>)
    ensures
        spans_view(r@) == status_spans_spec(*status),
{
    let mut spans: Vec<StatusSpan> = Vec::new();
    let activity = status.activity;
    let tone = match activity {
        AppActivity::Live => Tone::ActiveSeries,
        AppActivity::Recording => Tone::Danger,
        AppActivity::LogView => Tone::Warning,
    };
    spans.push(mode_span(activity_label(activity), tone));
    let ghost mode = spans_view(spans@);
    assert(mode =~= seq![(badge_text(activity_label_spec(status.activity)), StatusStyle::Mode(activity_tone(status.activity)))]);
    match activity {
        AppActivity::Live => {
            assert(spans_view(spans@) =~= mode + activity_detail_spans(*status));
        },
        AppActivity::Recording => {
            let ghost interval = match status.recording_interval_seconds {
                Some(s) => if s > 1 {
                    interval_spans(s)
                } else {
                    Seq::<(Seq<char>, StatusStyle)>::empty()
                },
                None => Seq::<(Seq<char>, StatusStyle)>::empty(),
            };
            match status.recording_interval_seconds {
                Some(s) => {
                    if s > 1 {
                        append_recording_interval(&mut spans, s);
                    }
                },
                None => {},
            }
            assert(spans_view(spans@) =~= mode + interval);
            let ghost with_interval = spans_view(spans@);
            spans.push(StatusSpan { text: chars_of(" "), style: StatusStyle::Plain });
            let i = status.recording_spinner_index % 4;
            let c = if i == 0 {
                '|'
            } else if i == 1 {
                '/'
            } else if i == 2 {
                '-'
            } else {
                '\\'
            };
            let mut spin: Vec<char> = Vec::new();
            spin.push(c);
            assert(spin@ =~= seq![spinner_char(status.recording_spinner_index)]);
            spans.push(StatusSpan { text: spin, style: StatusStyle::Spinner });
            assert(spans_view(spans@) =~= with_interval + seq![
                (" "@, StatusStyle::Plain),
                (seq![spinner_char(status.recording_spinner_index)], StatusStyle::Spinner),
            ]);
            assert(spans_view(spans@) =~= mode + activity_detail_spans(*status));
        },
        AppActivity::LogView => {
            match status.log_view_interval_seconds {
                Some(s) => append_recording_interval(&mut spans, s),
                None => {},
            }
            assert(spans_view(spans@) =~= mode + activity_detail_spans(*status));
        },
    }
    let ghost detail = spans_view(spans@);
    match status.stale_age_seconds {
        Some(age) => spans.push(stale_span(age)),
        None => {},
    }
    let ghost stale = match status.stale_age_seconds {
        Some(age) => seq![(stale_text(age), StatusStyle::Stale)],
        None => Seq::<(Seq<char>, StatusStyle)>::empty(),
    };
    assert(spans_view(spans@) =~= detail + stale);
    let ghost with_stale = spans_view(spans@);
    if status.display_paused && activity != AppActivity::LogView {
        spans.push(StatusSpan { text: chars_of("  "), style: StatusStyle::Plain });
        spans.push(mode_span("DISPLAY PAUSED", Tone::Warning));
        assert(spans_view(spans@) =~= with_stale + seq![("  "@, StatusStyle::Plain), (badge_text("DISPLAY PAUSED"@), StatusStyle::Mode(Tone::Warning))]);
    } else {
        assert(spans_view(spans@) =~= with_stale + Seq::<(Seq<char>, StatusStyle)>::empty());
    }
    assert(spans_view(spans@) =~= status_spans_spec(*status));
    spans
}

/// The cells of a sequence of status pieces.
pub open spec fn spans_cells(spans: Seq<(Seq<char>, StatusStyle)>) -> nat
    decreases spans.len(),
{
    if spans.len() == 0 {
        0
    } else {
        spans_cells(spans.drop_last()) + span_cells(spans.last().0)
    }
}

/// The cells of the status pieces, saturating at `usize::MAX`.
pub fn spans_width(spans: &Vec<StatusSpan>) -> (w: usize)
    ensures
        w == if spans_cells(spans_view(spans@)) > usize::MAX {
            usize::MAX as nat
        } else {
            spans_cells(spans_view(spans@))
        },
{
    let mut total: usize = 0;
    let mut i: usize = 0;
    assert(spans_view(spans@).take(0) =~= Seq::<(Seq<char>, StatusStyle)>::empty());
    while i < spans.len()
        invariant
            i <= spans@.len(),
            total == if spans_cells(spans_view(spans@).take(i as int)) > usize::MAX {
                usize::MAX as nat
            } else {
                spans_cells(spans_view(spans@).take(i as int))
            },
        decreases spans@.len() - i,
    {
        assert(spans_view(spans@).take(i + 1).drop_last() =~= spans_view(spans@).take(i as int));
        assert(spans_view(spans@).take(i + 1).last() == (spans@[i as int].text@, spans@[i as int].style));
        let w = span_width(spans[i].text.as_slice());
        total = total.saturating_add(w);
        i = i + 1;
    }
    assert(spans_view(spans@).take(i as int) =~= spans_view(spans@));
    total
}

/// `a - b`, or zero when `b` is larger.
pub open spec fn minus(a: int, b: int) -> nat {
    if a > b {
        (a - b) as nat
    } else {
        0
    }
}

/// Appends a label when at least six cells of `budget` are left after the
/// status pieces: two spaces, then the label shortened to the rest.
pub open spec fn with_fitting_label(spans: Seq<(Seq<char>, StatusStyle)>, text: Seq<char>, budget: nat, style: StatusStyle) -> Seq<(Seq<char>, StatusStyle)> {
    let remaining = minus(budget as int, spans_cells(spans) as int);
    if remaining >= 6 {
        spans + seq![("  "@, StatusStyle::Plain), (truncated_name(text, (remaining - 2) as nat), style)]
    } else {
        spans
    }
}

/// Appends a label to the status line if at least six cells of `budget` are
/// left, shortening it to fit.
pub fn append_fitting_label(spans: &mut Vec<StatusSpan>, text: &[char], budget: usize, style: StatusStyle)
    ensures
        spans_view(final(spans)@) == with_fitting_label(spans_view(old(spans)@), text@, budget as nat, style),
{
    let used = spans_width(spans);
    let remaining = budget.saturating_sub(used);
    if remaining >= 6 {
        let ghost before = spans_view(spans@);
        spans.push(StatusSpan { text: chars_of("  "), style: StatusStyle::Plain });
        spans.push(StatusSpan { text: truncate_name(text, remaining - 2), style });
        assert(spans_view(spans@) =~= before + seq![("  "@, StatusStyle::Plain), (truncated_name(text@, (remaining - 2) as nat), style)]);
    }
}

/// The text of the profile badge: `PF: --` in a log view, else the active
/// profile's name (or `none`) marked with `*` when it has unsaved changes.
pub open spec fn profile_text(activity: AppActivity, profile: Option<Seq<char>>, dirty: bool) -> Seq<char> {
    if activity == AppActivity::LogView {
        "PF: --"@
    } else {
        match profile {
            Some(name) => "PF: "@ + name + if dirty {
                "*"@
            } else {
                ""@
            },
            None => "PF: "@ + "none"@,
        }
    }
}

/// Law: the profile text marks unsaved changes and nothing else: outside a
/// log view, the text of a dirty profile is that of the clean profile with
/// one `*` added, and the clean profile's text is a four-character prefix
/// followed by exactly the profile's name. A log view shows the same text
/// whatever the profile.
pub proof fn law_profile_text_marks_only_unsaved_changes(activity: AppActivity, name: Seq<char>, other: Option<Seq<char>>, dirty: bool)
    ensures
        activity != AppActivity::LogView ==> {
            &&& profile_text(activity, Some(name), true) == profile_text(activity, Some(name), false).push('*')
            &&& profile_text(activity, Some(name), false).len() == name.len() + 4
            &&& profile_text(activity, Some(name), false).skip(4) == name
        },
        profile_text(AppActivity::LogView, Some(name), dirty) == profile_text(AppActivity::LogView, other, false),
{
    reveal_strlit("*");
    reveal_strlit("");
    reveal_strlit("PF: ");
    if activity != AppActivity::LogView {
        assert(profile_text(activity, Some(name), true) =~= profile_text(activity, Some(name), false).push('*'));
        assert(profile_text(activity, Some(name), false).skip(4) =~= name);
    }
}

/// Appends the profile badge when at least eight of the cells available to
/// it are left; the badge gets at most 30 cells beyond the status pieces.
pub open spec fn with_profile_badge(spans: Seq<(Seq<char>, StatusStyle)>, profile: Seq<char>, budget: nat) -> Seq<(Seq<char>, StatusStyle)> {
    let used = spans_cells(spans);
    let profile_budget = if budget < used + 30 {
        budget as int
    } else {
        (used + 30) as int
    };
    let remaining = minus(profile_budget, used as int);
    if remaining >= 8 {
        spans + seq![
            ("  "@, StatusStyle::Plain),
            (badge_text(truncated_name(profile, (remaining - 4) as nat)), StatusStyle::ProfileBadge),
        ]
    } else {
        spans
    }
}

/// Clips each piece to the cells that the pieces before it left of `remaining`.
pub open spec fn clipped_spans(spans: Seq<(Seq<char>, StatusStyle)>, remaining: nat) -> Seq<(Seq<char>, StatusStyle)>
    decreases spans.len(),
{
    if spans.len() == 0 {
        Seq::empty()
    } else {
        let t = truncated_cells(spans[0].0, remaining);
        seq![(t, spans[0].1)] + clipped_spans(spans.drop_first(), minus(remaining as int, span_cells(t) as int))
    }
}

/// The header status line for `budget` cells: the status pieces, the profile
/// badge, the viewed log's file name, all clipped from the left so that the
/// activity is kept before the optional names.
pub open spec fn status_line_spec(status: HeaderStatus, budget: nat, profile: Option<Seq<char>>, profile_dirty: bool, log_file_name: Option<Seq<char>>) -> Seq<(Seq<char>, StatusStyle)> {
    let with_badge = with_profile_badge(status_spans_spec(status), profile_text(status.activity, profile, profile_dirty), budget);
    let with_name = match log_file_name {
        Some(name) => with_fitting_label(with_badge, name, budget, StatusStyle::FileName),
        None => with_badge,
    };
    clipped_spans(with_name, budget)
}

/// Builds the profile badge text.
fn profile_chars(activity: AppActivity, profile: &Option<Vec<char>>, dirty: bool) -> (r: Vec<char>)
    ensures
        r@ == profile_text(activity, match profile {
            Some(p) => Some(p@),
            None => None,
        }, dirty),
{
    if activity == AppActivity::LogView {
        return chars_of("PF: --");
    }
    match profile {
        Some(name) => {
            let t = concat_chars(chars_of("PF: "), name.as_slice());
            if dirty {
                concat_chars(t, chars_of("*").as_slice())
            } else {
                let e = chars_of("");
                concat_chars(t, e.as_slice())
            }
        },
        None => concat_chars(chars_of("PF: "), chars_of("none").as_slice()),
    }
}

/// The header status line that fits in `budget` cells.
pub fn header_status_line(
    status: &HeaderStatus,
    budget: usize,
    profile: &Option<Vec<char>>,
    profile_dirty: bool,
    log_file_name: &Option<Vec<char>>,
) -> (r: Vec<StatusSpan>)
    ensures
        spans_view(r@) == status_line_spec(
            *status,
            budget as nat,
            match profile {
                Some(p) => Some(p@),
                None => None,
            },
            profile_dirty,
            match log_file_name {
                Some(n) => Some(n@),
                None => None,
            },
        ),
{
    let mut spans = header_status_spans(status);
    let profile_text = profile_chars(status.activity, profile, profile_dirty);
    let used = spans_width(&spans);
    let profile_budget = if used >= budget {
        budget
    } else if budget - used <= 30 {
        budget
    } else {
        used + 30
    };
    let remaining = profile_budget.saturating_sub(used);
    if remaining >= 8 {
        let ghost before = spans_view(spans@);
        spans.push(StatusSpan { text: chars_of("  "), style: StatusStyle::Plain });
        let mut badge: Vec<char> = Vec::new();
        badge.push(' ');
        let mut badge = concat_chars(badge, truncate_name(profile_text.as_slice(), remaining - 4).as_slice());
        badge.push(' ');
        assert(badge@ =~= badge_text(truncated_name(profile_text@, (remaining - 4) as nat)));
        spans.push(StatusSpan { text: badge, style: StatusStyle::ProfileBadge });
        assert(spans_view(spans@) =~= before + seq![
            ("  "@, StatusStyle::Plain),
            (badge_text(truncated_name(profile_text@, (remaining - 4) as nat)), StatusStyle::ProfileBadge),
        ]);
    }
    match log_file_name {
        Some(name) => append_fitting_label(&mut spans, name.as_slice(), budget, StatusStyle::FileName),
        None => {},
    }
    let ghost all = spans_view(spans@);
    let mut out: Vec<StatusSpan> = Vec::new();
    let mut remaining = budget;
    let mut i: usize = 0;
    assert(all.skip(0) =~= all);
    assert(spans_view(out@) =~= Seq::<(Seq<char>, StatusStyle)>::empty());
    while i < spans.len()
        invariant
            i <= spans@.len(),
            all == spans_view(spans@),
            clipped_spans(all, budget as nat) == spans_view(out@) + clipped_spans(all.skip(i as int), remaining as nat),
        decreases spans@.len() - i,
    {
        let ghost rest = all.skip(i as int);
        assert(rest.drop_first() =~= all.skip(i + 1));
        assert(rest[0] == (spans@[i as int].text@, spans@[i as int].style));
        let text = truncate_cells(spans[i].text.as_slice(), remaining);
        let w = span_width(text.as_slice());
        let ghost before = spans_view(out@);
        let ghost t = text@;
        out.push(StatusSpan { text, style: spans[i].style });
        assert(spans_view(out@) =~= before + seq![(t, spans@[i as int].style)]);
        remaining = remaining.saturating_sub(w);
        i = i + 1;
    }
    assert(all.skip(i as int) =~= Seq::<(Seq<char>, StatusStyle)>::empty());
    assert(spans_view(out@) + Seq::<(Seq<char>, StatusStyle)>::empty() =~= spans_view(out@));
    out
}

proof fn lemma_clipped_keeps_styles(spans: Seq<(Seq<char>, StatusStyle)>, remaining: nat)
    ensures
        clipped_spans(spans, remaining).len() == spans.len(),
        forall|i: int| 0 <= i < spans.len() ==> (#[trigger] clipped_spans(spans, remaining)[i]).1 == spans[i].1,
    decreases spans.len(),
{
    if spans.len() > 0 {
        let t = truncated_cells(spans[0].0, remaining);
        let rest = minus(remaining as int, span_cells(t) as int);
        lemma_clipped_keeps_styles(spans.drop_first(), rest);
        let c = clipped_spans(spans, remaining);
        assert forall|i: int| 0 <= i < spans.len() implies (#[trigger] c[i]).1 == spans[i].1 by {
            if i > 0 {
                assert(c[i] == clipped_spans(spans.drop_first(), rest)[i - 1]);
                assert(spans.drop_first()[i - 1] == spans[i]);
            }
        }
    }
}

/// Law: clipping keeps every piece and its style, so the activity badge is
/// always the first piece of the status line and is cut last.
pub proof fn law_status_line_keeps_activity_first(
    status: HeaderStatus,
    budget: nat,
    profile: Option<Seq<char>>,
    profile_dirty: bool,
    log_file_name: Option<Seq<char>>,
)
    ensures
        ({
            let line = status_line_spec(status, budget, profile, profile_dirty, log_file_name);
            &&& line.len() >= 1
            &&& line[0].1 == StatusStyle::Mode(activity_tone(status.activity))
            &&& line[0].0 == truncated_cells(badge_text(activity_label_spec(status.activity)), budget)
        }),
{
    let base = status_spans_spec(status);
    let with_badge = with_profile_badge(base, profile_text(status.activity, profile, profile_dirty), budget);
    let with_name = match log_file_name {
        Some(name) => with_fitting_label(with_badge, name, budget, StatusStyle::FileName),
        None => with_badge,
    };
    assert(base[0] == (badge_text(activity_label_spec(status.activity)), StatusStyle::Mode(activity_tone(status.activity))));
    assert(with_badge[0] == base[0]);
    assert(with_name[0] == base[0]);
    lemma_clipped_keeps_styles(with_name, budget);
}

/// The cells of the header row left of the headings for the status line:
/// from two cells after the last heading (or the left edge) to the right
/// edge.
pub open spec fn status_area_spec(area: Rect, layout: Seq<(HeaderAction, Rect)>) -> Rect {
    let start = if layout.len() == 0 {
        area.x
    } else {
        sat_add(layout.last().1.right() as int, 2)
    };
    let x = if start < area.right() {
        start
    } else {
        area.right()
    };
    rect_new(x, area.y, (area.right() - x) as u16, area.height)
}

/// The area of the header row that the status line is drawn in.
pub fn header_status_area(area: Rect, actions: &Vec<(HeaderAction, Rect)>) -> (r: Rect)
    ensures
        r == status_area_spec(area, actions@),
{
    let start = if actions.len() == 0 {
        area.x
    } else {
        actions[actions.len() - 1].1.right().saturating_add(2)
    };
    let x = start.min(area.right());
    Rect::new(x, area.y, area.right() - x, area.height)
}

/// How a heading is emphasised.
#[derive(Clone, Copy, Debug, PartialEq, Eq, Structural)]
pub struct HeadingEmphasis {
    /// Its menu category is open (for More: the open category has no heading).
    pub active: bool,
    /// It names the workspace that is shown.
    pub selected: bool,
    /// The pointer is over it.
    pub hovered: bool,
}

pub open spec fn heading_emphasis_spec(
    action: HeaderAction,
    layout: Seq<(HeaderAction, Rect)>,
    menu_open: bool,
    menu_section: MainMenuSection,
    network_visible: bool,
    file_users_visible: bool,
    hovered: Option<HeaderAction>,
) -> HeadingEmphasis {
    let section_shown = exists|i: int| 0 <= i < layout.len() && (#[trigger] layout[i]).0.section_spec() == Some(menu_section);
    HeadingEmphasis {
        active: (menu_open && action.section_spec() == Some(menu_section)) || (action == HeaderAction::More && menu_open && !section_shown),
        selected: match action {
            HeaderAction::Processes => !network_visible && !file_users_visible,
            HeaderAction::Network => network_visible,
            HeaderAction::FileUsers => file_users_visible,
            _ => false,
        },
        hovered: hovered == Some(action),
    }
}

/// How a laid-out heading is emphasised in the header bar.
pub fn heading_emphasis(
    action: HeaderAction,
    layout: &Vec<(HeaderAction, Rect)>,
    menu_open: bool,
    menu_section: MainMenuSection,
    network_visible: bool,
    file_users_visible: bool,
    hovered: Option<HeaderAction>,
) -> (r: HeadingEmphasis)
    ensures
        r == heading_emphasis_spec(action, layout@, menu_open, menu_section, network_visible, file_users_visible, hovered),
{
    let mut section_shown = false;
    let mut i: usize = 0;
    while i < layout.len()
        invariant
            i <= layout@.len(),
            section_shown == exists|j: int| 0 <= j < i && (#[trigger] layout@[j]).0.section_spec() == Some(menu_section),
        decreases layout@.len() - i,
    {
        if layout[i].0.section() == Some(menu_section) {
            section_shown = true;
        }
        i = i + 1;
    }
    let active = (menu_open && action.section() == Some(menu_section)) || (action == HeaderAction::More && menu_open && !section_shown);
    let selected = match action {
        HeaderAction::Processes => !network_visible && !file_users_visible,
        HeaderAction::Network => network_visible,
        HeaderAction::FileUsers => file_users_visible,
        _ => false,
    };
    let is_hovered = match hovered {
        Some(h) => h == action,
        None => false,
    };
    HeadingEmphasis { active, selected, hovered: is_hovered }
}

} // verus!
