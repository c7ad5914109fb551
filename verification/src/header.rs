use vstd::prelude::*;
use crate::geometry::{Rect, rect_new, sat_add, sat_sub};
use crate::text::{chars_of, span_cells, span_width};

verus! {

/// What the application is doing with its samples.
#[derive(Clone, Copy, Debug, PartialEq, Eq, Structural)]
pub enum AppActivity {
    Live,
    Recording,
    LogView,
}

/// The categories of the main menu.
#[derive(Clone, Copy, Debug, PartialEq, Eq, Structural)]
pub enum MainMenuSection {
    Session,
    Profile,
    View,
    Tools,
    Settings,
    Help,
    More,
}

/// The clickable headings of the header bar.
#[derive(Clone, Copy, Debug, PartialEq, Eq, Structural)]
pub enum HeaderAction {
    Session,
    Profile,
    View,
    Tools,
    Settings,
    Help,
    Processes,
    Network,
    FileUsers,
    More,
}

impl HeaderAction {
    pub open spec fn label_spec(self) -> Seq<char> {
        match self {
            HeaderAction::Session => " Session ▾ "@,
            HeaderAction::Profile => " Profile ▾ "@,
            HeaderAction::View => " View ▾ "@,
            HeaderAction::Tools => " Tools ▾ "@,
            HeaderAction::Settings => " Settings ▾ "@,
            HeaderAction::Help => " Help "@,
            HeaderAction::Processes => "[Processes]"@,
            HeaderAction::Network => "[Network]"@,
            HeaderAction::FileUsers => "[Find by file]"@,
            HeaderAction::More => " More ▾ "@,
        }
    }

    /// The text of the heading in the header bar.
    pub fn label(self) -> (r: &'static str)
        ensures
            r@ == self.label_spec(),
    {
        match self {
            HeaderAction::Session => " Session ▾ ",
            HeaderAction::Profile => " Profile ▾ ",
            HeaderAction::View => " View ▾ ",
            HeaderAction::Tools => " Tools ▾ ",
            HeaderAction::Settings => " Settings ▾ ",
            HeaderAction::Help => " Help ",
            HeaderAction::Processes => "[Processes]",
            HeaderAction::Network => "[Network]",
            HeaderAction::FileUsers => "[Find by file]",
            HeaderAction::More => " More ▾ ",
        }
    }

    pub open spec fn menu_label_spec(self) -> Seq<char> {
        match self {
            HeaderAction::FileUsers => "Find processes by file"@,
            HeaderAction::Session => "Session"@,
            HeaderAction::Profile => "Profile"@,
            HeaderAction::View => "View"@,
            HeaderAction::Tools => "Tools"@,
            HeaderAction::Settings => "Settings"@,
            HeaderAction::Help => "Help"@,
            HeaderAction::Processes => "Processes"@,
            HeaderAction::Network => "Network endpoints"@,
            HeaderAction::More => "More"@,
        }
    }

    /// The text of the heading when it is listed as a row of the main menu.
    pub fn menu_label(self) -> (r: &'static str)
        ensures
            r@ == self.menu_label_spec(),
    {
        match self {
            HeaderAction::FileUsers => "Find processes by file",
            HeaderAction::Session => "Session",
            HeaderAction::Profile => "Profile",
            HeaderAction::View => "View",
            HeaderAction::Tools => "Tools",
            HeaderAction::Settings => "Settings",
            HeaderAction::Help => "Help",
            HeaderAction::Processes => "Processes",
            HeaderAction::Network => "Network endpoints",
            HeaderAction::More => "More",
        }
    }

    pub open spec fn section_spec(self) -> Option<MainMenuSection> {
        match self {
            HeaderAction::Session => Some(MainMenuSection::Session),
            HeaderAction::Profile => Some(MainMenuSection::Profile),
            HeaderAction::View => Some(MainMenuSection::View),
            HeaderAction::Tools => Some(MainMenuSection::Tools),
            HeaderAction::Settings => Some(MainMenuSection::Settings),
            HeaderAction::More => Some(MainMenuSection::More),
            _ => None,
        }
    }

    /// The main-menu category that the heading opens, if it opens one.
    #[verifier::when_used_as_spec(section_spec)]
    pub fn section(self) -> (r: Option<MainMenuSection>)
        ensures
            r == self.section_spec(),
    {
        match self {
            HeaderAction::Session => Some(MainMenuSection::Session),
            HeaderAction::Profile => Some(MainMenuSection::Profile),
            HeaderAction::View => Some(MainMenuSection::View),
            HeaderAction::Tools => Some(MainMenuSection::Tools),
            HeaderAction::Settings => Some(MainMenuSection::Settings),
            HeaderAction::More => Some(MainMenuSection::More),
            _ => None,
        }
    }

    pub open spec fn access_index_spec(self) -> Option<usize> {
        match self {
            HeaderAction::Session | HeaderAction::Profile | HeaderAction::View => Some(1),
            HeaderAction::Tools => Some(2),
            HeaderAction::Settings => Some(3),
            _ => None,
        }
    }

    /// The position, within the label, of the character underlined as the
    /// heading's access key (the letter that Alt opens it with).
    #[verifier::when_used_as_spec(access_index_spec)]
    pub fn access_index(self) -> (r: Option<usize>)
        ensures
            r == self.access_index_spec(),
    {
        match self {
            HeaderAction::Session | HeaderAction::Profile | HeaderAction::View => Some(1),
            HeaderAction::Tools => Some(2),
            HeaderAction::Settings => Some(3),
            _ => None,
        }
    }

    pub open spec fn shortcut_spec(self) -> Seq<char> {
        match self {
            HeaderAction::Session => "Alt+S"@,
            HeaderAction::Profile => "Alt+P"@,
            HeaderAction::View => "Alt+V"@,
            HeaderAction::Tools => "Alt+O"@,
            HeaderAction::Settings => "Alt+T"@,
            HeaderAction::Help => "F1"@,
            HeaderAction::Processes => "F2"@,
            HeaderAction::Network => "F3"@,
            HeaderAction::FileUsers => "F4"@,
            HeaderAction::More => ""@,
        }
    }

    /// The keyboard shortcut shown beside the heading in the main menu.
    pub fn shortcut(self) -> (r: &'static str)
        ensures
            r@ == self.shortcut_spec(),
    {
        match self {
            HeaderAction::Session => "Alt+S",
            HeaderAction::Profile => "Alt+P",
            HeaderAction::View => "Alt+V",
            HeaderAction::Tools => "Alt+O",
            HeaderAction::Settings => "Alt+T",
            HeaderAction::Help => "F1",
            HeaderAction::Processes => "F2",
            HeaderAction::Network => "F3",
            HeaderAction::FileUsers => "F4",
            HeaderAction::More => "",
        }
    }
}

/// The headings offered in the header bar for an activity: every category
/// and Help, except Tools while a log is being viewed.
pub open spec fn available_spec(activity: AppActivity) -> Seq<HeaderAction> {
    if activity == AppActivity::LogView {
        seq![
            HeaderAction::Session,
            HeaderAction::Profile,
            HeaderAction::View,
            HeaderAction::Settings,
            HeaderAction::Help,
        ]
    } else {
        seq![
            HeaderAction::Session,
            HeaderAction::Profile,
            HeaderAction::View,
            HeaderAction::Tools,
            HeaderAction::Settings,
            HeaderAction::Help,
        ]
    }
}

/// The headings that the header bar offers, in order.
pub fn available_actions(activity: AppActivity) -> (r: Vec<HeaderAction>)
    ensures
        r@ == available_spec(activity),
{
    let mut r: Vec<HeaderAction> = Vec::new();
    r.push(HeaderAction::Session);
    r.push(HeaderAction::Profile);
    r.push(HeaderAction::View);
    if activity != AppActivity::LogView {
        r.push(HeaderAction::Tools);
    }
    r.push(HeaderAction::Settings);
    r.push(HeaderAction::Help);
    assert(r@ =~= available_spec(activity));
    r
}

/// The cells of a heading's label, taken as `u16` as the layout takes it.
pub open spec fn label_cells(action: HeaderAction) -> u16 {
    span_cells(action.label_spec()) as u16
}

/// The cells of a heading's label.
pub fn label_width(action: HeaderAction) -> (w: u16)
    ensures
        w == label_cells(action),
{
    let text = chars_of(action.label());
    let w = span_width(text.as_slice());
    w as u16
}

/// The cells that a row of headings needs: each label and one gap cell.
pub open spec fn labels_total(actions: Seq<HeaderAction>) -> int
    decreases actions.len(),
{
    if actions.len() == 0 {
        0
    } else {
        label_cells(actions[0]) + 1 + labels_total(actions.drop_first())
    }
}

/// The cells kept free at the right of the header for the status line: a
/// third of the width clamped to `40..=48`, but leaving at least 12 cells.
pub open spec fn reserved_cells(area: Rect) -> u16 {
    let third = area.width / 3;
    let clamped = if third < 40 {
        40
    } else if third > 48 {
        48
    } else {
        third
    };
    let bound = sat_sub(area.width as int, 12);
    if clamped < bound {
        clamped as u16
    } else {
        bound
    }
}

/// The column where the headings must end.
pub open spec fn actions_end(area: Rect) -> u16 {
    sat_sub(area.right() as int, reserved_cells(area) as int)
}

/// Whether the available headings do not all fit before `actions_end`.
pub open spec fn overflows(area: Rect, activity: AppActivity) -> bool {
    labels_total(available_spec(activity)) > sat_sub(actions_end(area) as int, area.x as int)
}

/// The column that headings may not pass: when they overflow, room is kept
/// for the More heading.
pub open spec fn actions_limit(area: Rect, activity: AppActivity) -> u16 {
    if overflows(area, activity) {
        sat_sub(actions_end(area) as int, label_cells(HeaderAction::More) + 1)
    } else {
        actions_end(area)
    }
}

/// Places headings from column `x` on: each takes its label's cells (clipped
/// to the area) and one gap cell; placing stops before the first heading
/// other than Session that would pass `limit`. Gives the placed headings and
/// the column after them.
pub open spec fn placed(actions: Seq<HeaderAction>, x: u16, limit: u16, area: Rect) -> (Seq<(HeaderAction, Rect)>, u16)
    decreases actions.len(),
{
    if actions.len() == 0 {
        (Seq::empty(), x)
    } else {
        let a = actions[0];
        let w = label_cells(a);
        if sat_add(x as int, w as int) > limit && a != HeaderAction::Session {
            (Seq::empty(), x)
        } else {
            let room = sat_sub(area.right() as int, x as int);
            let w2: u16 = if w < room {
                w
            } else {
                room
            };
            let rest = placed(actions.drop_first(), sat_add(x as int, w2 + 1), limit, area);
            (seq![(a, rect_new(x, area.y, w2, 1))] + rest.0, rest.1)
        }
    }
}

/// The headings of the header bar and their cells: the available headings
/// that fit, then More when some did not fit and More itself fits with eight
/// cells to spare. Nothing for an empty area.
pub open spec fn header_layout(area: Rect, activity: AppActivity) -> Seq<(HeaderAction, Rect)> {
    if area.is_empty() {
        Seq::empty()
    } else {
        let p = placed(available_spec(activity), area.x, actions_limit(area, activity), area);
        let more = label_cells(HeaderAction::More);
        if overflows(area, activity) && p.1 + more + 8 <= area.right() {
            p.0.push((HeaderAction::More, rect_new(p.1, area.y, more, 1)))
        } else {
            p.0
        }
    }
}

proof fn lemma_labels_total_step(actions: Seq<HeaderAction>, i: int)
    requires
        0 <= i < actions.len(),
    ensures
        labels_total(actions.skip(i)) == label_cells(actions[i]) + 1 + labels_total(actions.skip(i + 1)),
{
    assert(actions.skip(i).drop_first() =~= actions.skip(i + 1));
    assert(actions.skip(i)[0] == actions[i]);
}

/// Lays out the headings of the header bar in `area` (the header row). The
/// layout depends on the terminal geometry and on whether a log is viewed,
/// never on profile names or status badges.
pub fn header_actions(area: Rect, activity: AppActivity) -> (r: Vec<(HeaderAction, Rect)>)
    ensures
        r@ == header_layout(area, activity),
{
    if area.is_empty() {
        return Vec::new();
    }
    let third = area.width / 3;
    let clamped = if third < 40 {
        40
    } else if third > 48 {
        48
    } else {
        third
    };
    let reserved = clamped.min(area.width.saturating_sub(12));
    let end = area.right().saturating_sub(reserved);
    let available = available_actions(activity);
    let mut total: u64 = 0;
    let mut i: usize = 0;
    assert(available@.skip(0) =~= available@);
    while i < available.len()
        invariant
            i <= available@.len(),
            available@ == available_spec(activity),
            total + labels_total(available@.skip(i as int)) == labels_total(available@),
            total <= i * 65536,
        decreases available@.len() - i,
    {
        proof {
            lemma_labels_total_step(available@, i as int);
        }
        let w = label_width(available[i]);
        total = total + w as u64 + 1;
        i = i + 1;
    }
    assert(available@.skip(i as int) =~= Seq::<HeaderAction>::empty());
    let overflow = total > end.saturating_sub(area.x) as u64;
    let more_width = label_width(HeaderAction::More);
    let limit = if overflow {
        if (end as u32) < more_width as u32 + 1 {
            0
        } else {
            (end as u32 - (more_width as u32 + 1)) as u16
        }
    } else {
        end
    };
    assert(limit == actions_limit(area, activity));
    let mut x = area.x;
    let mut actions: Vec<(HeaderAction, Rect)> = Vec::new();
    let mut k: usize = 0;
    let mut done = false;
    assert(available@.skip(0) =~= available@);
    while k < available.len() && !done
        invariant
            k <= available@.len(),
            available@ == available_spec(activity),
            limit == actions_limit(area, activity),
            !area.is_empty(),
            placed(available@, area.x, limit, area) == if done {
                (actions@, x)
            } else {
                (
                    actions@ + placed(available@.skip(k as int), x, limit, area).0,
                    placed(available@.skip(k as int), x, limit, area).1,
                )
            },
        decreases available@.len() - k + if done { 0int } else { 1int },
    {
        let action = available[k];
        proof {
            assert(available@.skip(k as int).drop_first() =~= available@.skip(k + 1));
            assert(available@.skip(k as int)[0] == action);
        }
        let width = label_width(action);
        if x.saturating_add(width) > limit && action != HeaderAction::Session {
            done = true;
            assert(actions@ + Seq::<(HeaderAction, Rect)>::empty() =~= actions@);
        } else {
            let width = width.min(area.right().saturating_sub(x));
            let ghost before = actions@;
            let ghost rest = placed(available@.skip(k + 1), sat_add(x as int, width + 1), limit, area);
            actions.push((action, Rect::new(x, area.y, width, 1)));
            assert(before + (seq![(action, rect_new(x, area.y, width, 1))] + rest.0) =~= actions@ + rest.0);
            x = if (x as u32) + (width as u32) + 1 > 65535 {
                65535
            } else {
                (x as u32 + width as u32 + 1) as u16
            };
            k = k + 1;
        }
    }
    proof {
        if !done {
            assert(available@.skip(k as int) =~= Seq::<HeaderAction>::empty());
            assert(actions@ + Seq::<(HeaderAction, Rect)>::empty() =~= actions@);
        }
    }
    if overflow && (x as u32) + (more_width as u32) + 8 <= area.right() as u32 {
        actions.push((HeaderAction::More, Rect::new(x, area.y, more_width, 1)));
    }
    actions
}


proof fn lemma_placed(actions: Seq<HeaderAction>, x: u16, limit: u16, area: Rect)
    requires
        area.x <= x,
        limit <= area.right(),
        forall|i: int| 1 <= i < actions.len() ==> actions[i] != HeaderAction::Session,
        x <= area.right() || actions.len() == 0 || actions[0] != HeaderAction::Session,
    ensures
        ({
            let p = placed(actions, x, limit, area);
            &&& p.1 >= x
            &&& forall|i: int|
                0 <= i < p.0.len() ==> {
                    &&& (#[trigger] p.0[i]).1.y == area.y
                    &&& p.0[i].1.height <= 1
                    &&& p.0[i].1.x >= x
                    &&& p.0[i].1.right() <= area.right()
                    &&& p.0[i].1.right() <= p.1
                    &&& p.0[i].0 == actions[i]
                }
            &&& forall|i: int, j: int|
                0 <= i < j < p.0.len() ==> (#[trigger] p.0[i]).1.right() <= (#[trigger] p.0[j]).1.x
            &&& p.0.len() <= actions.len()
        }),
    decreases actions.len(),
{
    if actions.len() > 0 {
        let a = actions[0];
        let w = label_cells(a);
        if !(sat_add(x as int, w as int) > limit && a != HeaderAction::Session) {
            let room = sat_sub(area.right() as int, x as int);
            let w2: u16 = if w < room {
                w
            } else {
                room
            };
            let nx = sat_add(x as int, w2 + 1);
            let rest_actions = actions.drop_first();
            assert forall|i: int| 1 <= i < rest_actions.len() implies rest_actions[i] != HeaderAction::Session by {
                assert(rest_actions[i] == actions[i + 1]);
            }
            if rest_actions.len() > 0 {
                assert(rest_actions[0] == actions[1]);
            }
            lemma_placed(rest_actions, nx, limit, area);
            let rest = placed(rest_actions, nx, limit, area);
            let head = (a, rect_new(x, area.y, w2, 1));
            let all = seq![head] + rest.0;
            assert(x <= area.right());
            assert(head.1.right() <= area.right());
            assert(head.1.right() <= nx);
            assert forall|i: int| 0 <= i < all.len() implies {
                &&& (#[trigger] all[i]).1.y == area.y
                &&& all[i].1.height <= 1
                &&& all[i].1.x >= x
                &&& all[i].1.right() <= area.right()
                &&& all[i].1.right() <= rest.1
                &&& all[i].0 == actions[i]
            } by {
                if i > 0 {
                    assert(all[i] == rest.0[i - 1]);
                    assert(rest_actions[i - 1] == actions[i]);
                }
            }
            assert forall|i: int, j: int| 0 <= i < j < all.len() implies (#[trigger] all[i]).1.right() <= (#[trigger] all[j]).1.x by {
                assert(all[j] == rest.0[j - 1]);
                if i > 0 {
                    assert(all[i] == rest.0[i - 1]);
                }
            }
        }
    }
}

proof fn lemma_labels_total_nonneg(actions: Seq<HeaderAction>)
    ensures
        labels_total(actions) >= actions.len(),
    decreases actions.len(),
{
    if actions.len() > 0 {
        lemma_labels_total_nonneg(actions.drop_first());
    }
}

proof fn lemma_placed_all(actions: Seq<HeaderAction>, x: u16, limit: u16, area: Rect)
    requires
        x + labels_total(actions) <= limit + 1,
        limit <= area.right(),
    ensures
        placed(actions, x, limit, area).0.len() == actions.len(),
        forall|i: int| 0 <= i < actions.len() ==> (#[trigger] placed(actions, x, limit, area).0[i]).0 == actions[i],
    decreases actions.len(),
{
    if actions.len() > 0 {
        let a = actions[0];
        let w = label_cells(a);
        let rest = actions.drop_first();
        lemma_labels_total_nonneg(rest);
        assert(x + w <= limit);
        let room = sat_sub(area.right() as int, x as int);
        assert(w <= room);
        let nx = sat_add(x as int, w + 1);
        lemma_placed_all(rest, nx, limit, area);
        let p = placed(actions, x, limit, area);
        let r = placed(rest, nx, limit, area);
        assert(p.0 == seq![(a, rect_new(x, area.y, w, 1))] + r.0);
        assert forall|i: int| 0 <= i < actions.len() implies (#[trigger] p.0[i]).0 == actions[i] by {
            if i > 0 {
                assert(p.0[i] == r.0[i - 1]);
                assert(rest[i - 1] == actions[i]);
            }
        }
    }
}

proof fn lemma_placed_last(actions: Seq<HeaderAction>, x: u16, limit: u16, area: Rect)
    requires
        limit <= area.right(),
        forall|i: int| 1 <= i < actions.len() ==> actions[i] != HeaderAction::Session,
        x <= area.right() || actions.len() == 0 || actions[0] != HeaderAction::Session,
    ensures
        ({
            let p = placed(actions, x, limit, area);
            &&& p.0.len() == 0 ==> p.1 == x
            &&& p.0.len() > 0 ==> {
                &&& p.0.last().1.x + p.0.last().1.width <= area.right()
                &&& p.1 == sat_add(p.0.last().1.x as int, p.0.last().1.width + 1)
            }
        }),
    decreases actions.len(),
{
    if actions.len() > 0 {
        let a = actions[0];
        let w = label_cells(a);
        if !(sat_add(x as int, w as int) > limit && a != HeaderAction::Session) {
            assert(x <= area.right());
            let room = sat_sub(area.right() as int, x as int);
            let w2: u16 = if w < room {
                w
            } else {
                room
            };
            let nx = sat_add(x as int, w2 + 1);
            let rest = actions.drop_first();
            assert forall|i: int| 1 <= i < rest.len() implies rest[i] != HeaderAction::Session by {
                assert(rest[i] == actions[i + 1]);
            }
            if rest.len() > 0 {
                assert(rest[0] == actions[1]);
            }
            lemma_placed_last(rest, nx, limit, area);
            let r = placed(rest, nx, limit, area);
            let p = placed(actions, x, limit, area);
            if r.0.len() > 0 {
                assert(p.0.last() == r.0.last());
            } else {
                assert(p.0.last() == (a, rect_new(x, area.y, w2, 1)));
            }
        }
    }
}

/// Law: More leads to the headings that did not fit. Whenever an available
/// heading is missing from the header and More is not shown either, there
/// was no room for More: the cell after the last heading, More's label and
/// eight spare cells would pass the area's right edge.
pub proof fn law_hidden_headings_are_behind_more(area: Rect, activity: AppActivity, hidden: HeaderAction)
    requires
        !area.is_empty(),
        available_spec(activity).contains(hidden),
        !is_shown(header_layout(area, activity), hidden),
        !is_shown(header_layout(area, activity), HeaderAction::More),
    ensures
        ({
            let l = header_layout(area, activity);
            &&& l.len() > 0
            &&& l.last().1.x + l.last().1.width + 1 + label_cells(HeaderAction::More) + 8 > area.right()
        }),
{
    let avail = available_spec(activity);
    let limit = actions_limit(area, activity);
    let end = actions_end(area);
    let p = placed(avail, area.x, limit, area);
    let l = header_layout(area, activity);
    assert(forall|i: int| 1 <= i < avail.len() ==> avail[i] != HeaderAction::Session);
    lemma_placed_last(avail, area.x, limit, area);
    lemma_labels_total_nonneg(avail);
    if !overflows(area, activity) {
        lemma_placed_all(avail, area.x, limit, area);
        let j = choose|j: int| 0 <= j < avail.len() && avail[j] == hidden;
        assert(p.0[j].0 == hidden);
        if overflows(area, activity) && p.1 + label_cells(HeaderAction::More) + 8 <= area.right() {
            assert(l[j] == p.0[j]);
        } else {
            assert(l[j] == p.0[j]);
        }
        assert(false);
    }
    if p.1 + label_cells(HeaderAction::More) + 8 <= area.right() {
        let m = p.0.push((HeaderAction::More, rect_new(p.1, area.y, label_cells(HeaderAction::More), 1)));
        assert(m[p.0.len() as int].0 == HeaderAction::More);
        assert(false);
    }
    assert(l == p.0);
    assert(avail[0] == HeaderAction::Session);
    assert(p.0.len() > 0);
}

/// Law: while no log is viewed, the header headings are laid out the same
/// whatever the activity; they depend on the terminal geometry alone.
pub proof fn law_header_layout_independent_of_live_or_recording(area: Rect, a1: AppActivity, a2: AppActivity)
    requires
        a1 != AppActivity::LogView,
        a2 != AppActivity::LogView,
    ensures
        header_layout(area, a1) == header_layout(area, a2),
{
}

/// Law: in a non-empty header the first heading is Session, at the left edge.
pub proof fn law_session_heading_comes_first(area: Rect, activity: AppActivity)
    requires
        !area.is_empty(),
    ensures
        header_layout(area, activity).len() > 0,
        header_layout(area, activity)[0].0 == HeaderAction::Session,
        header_layout(area, activity)[0].1.x == area.x,
{
    let p = placed(available_spec(activity), area.x, actions_limit(area, activity), area);
    assert(available_spec(activity)[0] == HeaderAction::Session);
    assert(p.0.len() > 0);
    assert(p.0[0].0 == HeaderAction::Session);
}

/// Law: every heading lies in the header row, inside the area, at most one
/// cell high, with the headings ordered left to right and not overlapping.
pub proof fn law_header_headings_fit_and_do_not_overlap(area: Rect, activity: AppActivity)
    ensures
        ({
            let l = header_layout(area, activity);
            &&& forall|i: int|
                0 <= i < l.len() ==> {
                    &&& (#[trigger] l[i]).1.y == area.y
                    &&& l[i].1.height <= 1
                    &&& l[i].1.x >= area.x
                    &&& l[i].1.right() <= area.right()
                }
            &&& forall|i: int, j: int|
                0 <= i < j < l.len() ==> (#[trigger] l[i]).1.right() <= (#[trigger] l[j]).1.x
        }),
{
    if !area.is_empty() {
        let avail = available_spec(activity);
        let limit = actions_limit(area, activity);
        assert(forall|i: int| 1 <= i < avail.len() ==> avail[i] != HeaderAction::Session);
        lemma_placed(avail, area.x, limit, area);
    }
}

/// Law: a log view never offers the Tools heading; the live and recording
/// activities offer every category heading.
pub proof fn law_tools_hidden_only_in_log_view(activity: AppActivity)
    ensures
        available_spec(activity).contains(HeaderAction::Tools) <==> activity != AppActivity::LogView,
        available_spec(activity).contains(HeaderAction::Session),
        available_spec(activity).contains(HeaderAction::Profile),
        available_spec(activity).contains(HeaderAction::View),
        available_spec(activity).contains(HeaderAction::Settings),
        available_spec(activity).contains(HeaderAction::Help),
{
    let s = available_spec(activity);
    assert(s[0] == HeaderAction::Session);
    assert(s[1] == HeaderAction::Profile);
    assert(s[2] == HeaderAction::View);
    if activity == AppActivity::LogView {
        assert(s[3] == HeaderAction::Settings);
        assert(s[4] == HeaderAction::Help);
        assert(!s.contains(HeaderAction::Tools));
    } else {
        assert(s[3] == HeaderAction::Tools);
        assert(s[4] == HeaderAction::Settings);
        assert(s[5] == HeaderAction::Help);
    }
}

/// The first heading whose cells hold the point, if any.
pub open spec fn heading_hit(layout: Seq<(HeaderAction, Rect)>, px: u16, py: u16) -> Option<HeaderAction>
    decreases layout.len(),
{
    if layout.len() == 0 {
        None
    } else if layout[0].1.contains(px, py) {
        Some(layout[0].0)
    } else {
        heading_hit(layout.drop_first(), px, py)
    }
}

/// The heading under a point of the header row `header_area`.
pub fn header_action_at(header_area: Rect, activity: AppActivity, px: u16, py: u16) -> (r: Option<HeaderAction>)
    ensures
        r == heading_hit(header_layout(header_area, activity), px, py),
{
    let actions = header_actions(header_area, activity);
    let mut i: usize = 0;
    assert(actions@.skip(0) =~= actions@);
    while i < actions.len()
        invariant
            i <= actions@.len(),
            actions@ == header_layout(header_area, activity),
            heading_hit(actions@, px, py) == heading_hit(actions@.skip(i as int), px, py),
        decreases actions@.len() - i,
    {
        assert(actions@.skip(i as int).drop_first() =~= actions@.skip(i + 1));
        assert(actions@.skip(i as int)[0] == actions@[i as int]);
        let (action, rect) = actions[i];
        if rect.contains(px, py) {
            return Some(action);
        }
        i = i + 1;
    }
    assert(actions@.skip(i as int) =~= Seq::<(HeaderAction, Rect)>::empty());
    None
}

/// Law: a heading found under a point is one of the laid-out headings and
/// its cells hold the point; none is found where no heading's cells do.
pub proof fn law_heading_hit_is_under_point(layout: Seq<(HeaderAction, Rect)>, px: u16, py: u16)
    ensures
        heading_hit(layout, px, py) is Some ==> exists|i: int|
            0 <= i < layout.len() && (#[trigger] layout[i]).0 == heading_hit(layout, px, py)->0
                && layout[i].1.contains(px, py),
        heading_hit(layout, px, py) is None ==> forall|i: int|
            0 <= i < layout.len() ==> !(#[trigger] layout[i]).1.contains(px, py),
    decreases layout.len(),
{
    if layout.len() > 0 {
        law_heading_hit_is_under_point(layout.drop_first(), px, py);
        if !layout[0].1.contains(px, py) {
            if heading_hit(layout, px, py) is Some {
                let i = choose|i: int|
                    0 <= i < layout.drop_first().len() && (#[trigger] layout.drop_first()[i]).0
                        == heading_hit(layout, px, py)->0 && layout.drop_first()[i].1.contains(px, py);
                assert(layout[i + 1] == layout.drop_first()[i]);
            } else {
                assert forall|i: int| 0 <= i < layout.len() implies !(#[trigger] layout[i]).1.contains(px, py) by {
                    if i > 0 {
                        assert(layout[i] == layout.drop_first()[i - 1]);
                    }
                }
            }
        } else {
            assert(layout[0].0 == heading_hit(layout, px, py)->0);
        }
    }
}

/// Whether a heading is among the laid-out ones.
pub open spec fn is_shown(layout: Seq<(HeaderAction, Rect)>, action: HeaderAction) -> bool {
    exists|i: int| 0 <= i < layout.len() && (#[trigger] layout[i]).0 == action
}

/// The headings of `actions` that the layout does not show, in order.
pub open spec fn hidden_actions(actions: Seq<HeaderAction>, layout: Seq<(HeaderAction, Rect)>) -> Seq<HeaderAction>
    decreases actions.len(),
{
    if actions.len() == 0 {
        Seq::empty()
    } else if is_shown(layout, actions.last()) {
        hidden_actions(actions.drop_last(), layout)
    } else {
        hidden_actions(actions.drop_last(), layout).push(actions.last())
    }
}

fn layout_shows(layout: &Vec<(HeaderAction, Rect)>, action: HeaderAction) -> (r: bool)
    ensures
        r == is_shown(layout@, action),
{
    let mut i: usize = 0;
    while i < layout.len()
        invariant
            i <= layout@.len(),
            forall|j: int| 0 <= j < i ==> (#[trigger] layout@[j]).0 != action,
        decreases layout@.len() - i,
    {
        if layout[i].0 == action {
            return true;
        }
        i = i + 1;
    }
    false
}

/// The available headings that did not fit in the header row `header_area`;
/// the More heading leads to them.
pub fn overflow_actions(header_area: Rect, activity: AppActivity) -> (r: Vec<HeaderAction>)
    ensures
        r@ == hidden_actions(available_spec(activity), header_layout(header_area, activity)),
{
    let visible = header_actions(header_area, activity);
    let available = available_actions(activity);
    let mut out: Vec<HeaderAction> = Vec::new();
    let mut i: usize = 0;
    assert(available@.take(0) =~= Seq::<HeaderAction>::empty());
    while i < available.len()
        invariant
            i <= available@.len(),
            available@ == available_spec(activity),
            visible@ == header_layout(header_area, activity),
            out@ == hidden_actions(available@.take(i as int), visible@),
        decreases available@.len() - i,
    {
        assert(available@.take(i + 1).drop_last() =~= available@.take(i as int));
        assert(available@.take(i + 1).last() == available@[i as int]);
        if !layout_shows(&visible, available[i]) {
            out.push(available[i]);
        }
        i = i + 1;
    }
    assert(available@.take(i as int) =~= available@);
    out
}

/// Law: each available heading is reachable exactly one way, either shown in
/// the header row or listed behind More.
pub proof fn law_overflow_partitions_available(actions: Seq<HeaderAction>, layout: Seq<(HeaderAction, Rect)>, action: HeaderAction)
    ensures
        hidden_actions(actions, layout).contains(action) <==> (actions.contains(action) && !is_shown(layout, action)),
    decreases actions.len(),
{
    if actions.len() > 0 {
        law_overflow_partitions_available(actions.drop_last(), layout, action);
        let h = hidden_actions(actions.drop_last(), layout);
        if actions.contains(action) && !is_shown(layout, action) {
            let i = choose|i: int| 0 <= i < actions.len() && actions[i] == action;
            if i < actions.len() - 1 {
                assert(actions.drop_last()[i] == action);
            }
            if !is_shown(layout, actions.last()) {
                if actions.last() == action {
                    assert(h.push(action)[h.len() as int] == action);
                } else {
                    let k = choose|k: int| 0 <= k < h.len() && h[k] == action;
                    assert(h.push(actions.last())[k] == action);
                }
            }
        }
        if hidden_actions(actions, layout).contains(action) {
            let hs = hidden_actions(actions, layout);
            let k = choose|k: int| 0 <= k < hs.len() && hs[k] == action;
            if is_shown(layout, actions.last()) {
                let j = choose|j: int| 0 <= j < actions.drop_last().len() && actions.drop_last()[j] == action;
                assert(actions[j] == action);
            } else if k < h.len() {
                assert(h[k] == action);
                let j = choose|j: int| 0 <= j < actions.drop_last().len() && actions.drop_last()[j] == action;
                assert(actions[j] == action);
            } else {
                assert(actions[actions.len() - 1] == action);
            }
        }
    }
}

} // verus!
