use vstd::prelude::*;
use vstd::utf8::encode_utf8;
use crate::geometry::{Rect, rect_new, sat_add, sat_sub};
use crate::header::{HeaderAction, MainMenuSection};
use crate::text::{chars_of, concat_chars, space_chars, span_cells, span_width, spaces};

verus! {

/// The actions that main-menu rows run.
#[derive(Clone, Copy, Debug, PartialEq, Eq, Structural)]
pub enum MainMenuAction {
    OpenProfiles,
    SaveProfile,
    SaveProfileAs,
    OpenColumns,
    ToggleTrackedOnly,
    ToggleTreeView,
    ToggleGraphs,
    ToggleSamples,
    ToggleDelta,
    CycleGraphLayout,
    StartRecording,
    StopRecording,
    ReturnToLive,
    OpenLog,
    QuitImmediately,
    QuitWithConfirmation,
    OpenStartupBehavior,
    ChooseTheme,
    ToggleContrast,
}

/// What a main-menu row does: run an action, or lead to a heading that did
/// not fit in the header bar.
#[derive(Clone, Copy, Debug, PartialEq, Eq, Structural)]
pub enum MainMenuItem {
    Action(MainMenuAction),
    Header(HeaderAction),
}

/// A row of the main menu.
#[derive(Clone, Copy, Debug, PartialEq, Eq, Structural)]
pub struct MainMenuRow {
    pub item: MainMenuItem,
}

pub open spec fn shortcut_spec(row: MainMenuRow) -> Seq<char> {
    match row.item {
        MainMenuItem::Header(action) => action.shortcut_spec(),
        MainMenuItem::Action(action) => match action {
            MainMenuAction::OpenProfiles => "Ctrl+T"@,
            MainMenuAction::SaveProfile => "Ctrl+S"@,
            MainMenuAction::SaveProfileAs => "Ctrl+Shift+S"@,
            MainMenuAction::OpenColumns => "c (Processes)"@,
            MainMenuAction::ToggleTrackedOnly => "Shift+T"@,
            MainMenuAction::ToggleTreeView => "v (Processes)"@,
            MainMenuAction::ToggleGraphs => "g (Processes)"@,
            MainMenuAction::ToggleSamples => "v (Graphs)"@,
            MainMenuAction::ToggleDelta => "d (Graphs)"@,
            MainMenuAction::CycleGraphLayout => "l (Graphs)"@,
            MainMenuAction::StartRecording | MainMenuAction::StopRecording => "Ctrl+R"@,
            MainMenuAction::ReturnToLive => "Ctrl+B"@,
            MainMenuAction::OpenLog => "Ctrl+L"@,
            MainMenuAction::QuitImmediately | MainMenuAction::QuitWithConfirmation => "q"@,
            _ => ""@,
        },
    }
}

/// The key (and the panel it works in, after a space) that does a row's
/// action outside the menu; empty when there is none.
pub fn shortcut(row: MainMenuRow) -> (r: &'static str)
    ensures
        r@ == shortcut_spec(row),
{
    match row.item {
        MainMenuItem::Header(action) => action.shortcut(),
        MainMenuItem::Action(action) => match action {
            MainMenuAction::OpenProfiles => "Ctrl+T",
            MainMenuAction::SaveProfile => "Ctrl+S",
            MainMenuAction::SaveProfileAs => "Ctrl+Shift+S",
            MainMenuAction::OpenColumns => "c (Processes)",
            MainMenuAction::ToggleTrackedOnly => "Shift+T",
            MainMenuAction::ToggleTreeView => "v (Processes)",
            MainMenuAction::ToggleGraphs => "g (Processes)",
            MainMenuAction::ToggleSamples => "v (Graphs)",
            MainMenuAction::ToggleDelta => "d (Graphs)",
            MainMenuAction::CycleGraphLayout => "l (Graphs)",
            MainMenuAction::StartRecording | MainMenuAction::StopRecording => "Ctrl+R",
            MainMenuAction::ReturnToLive => "Ctrl+B",
            MainMenuAction::OpenLog => "Ctrl+L",
            MainMenuAction::QuitImmediately | MainMenuAction::QuitWithConfirmation => "q",
            _ => "",
        },
    }
}

/// The bytes that a row needs: cursor, label, gap and shortcut.
pub open spec fn row_need(row: MainMenuRow, label: Seq<char>) -> int {
    4 + (encode_utf8(label).len() as usize) + (encode_utf8(shortcut_spec(row)).len() as usize)
}

/// The largest need of the rows, or 0 for none.
pub open spec fn max_row_need(rows: Seq<MainMenuRow>, labels: Seq<Seq<char>>) -> int
    decreases rows.len(),
{
    if rows.len() == 0 {
        0
    } else {
        let rest = max_row_need(rows.drop_last(), labels.drop_last());
        let here = row_need(rows.last(), labels.last());
        if here > rest {
            here
        } else {
            rest
        }
    }
}

/// A number, or `usize::MAX` when it is larger.
pub open spec fn clip_usize(n: int) -> int {
    if n > usize::MAX {
        usize::MAX as int
    } else {
        n
    }
}

/// The width of the menu's content: the widest row, at least 43 and at most
/// `u16::MAX`.
pub open spec fn content_width_spec(rows: Seq<MainMenuRow>, labels: Seq<Seq<char>>) -> u16 {
    let m = max_row_need(rows, labels);
    let w = if m > 43 {
        m
    } else {
        43
    };
    if w > u16::MAX {
        u16::MAX
    } else {
        w as u16
    }
}

pub open spec fn labels_view(labels: Seq<String>) -> Seq<Seq<char>> {
    labels.map_values(|l: String| l@)
}

/// The width of the main menu's content for its rows and their labels.
pub fn main_menu_content_width(rows: &Vec<MainMenuRow>, labels: &Vec<String>) -> (r: u16)
    requires
        rows@.len() == labels@.len(),
    ensures
        r == content_width_spec(rows@, labels_view(labels@)),
{
    let mut best: usize = 0;
    let mut i: usize = 0;
    let ghost lv = labels_view(labels@);
    assert(rows@.take(0) =~= Seq::<MainMenuRow>::empty());
    while i < rows.len()
        invariant
            i <= rows@.len(),
            rows@.len() == labels@.len(),
            lv == labels_view(labels@),
            best == clip_usize(max_row_need(rows@.take(i as int), lv.take(i as int))),
        decreases rows@.len() - i,
    {
        assert(rows@.take(i + 1).drop_last() =~= rows@.take(i as int));
        assert(lv.take(i + 1).drop_last() =~= lv.take(i as int));
        assert(rows@.take(i + 1).last() == rows@[i as int]);
        assert(lv.take(i + 1).last() == labels@[i as int]@);
        let label_len = labels[i].as_str().len();
        let key_len = shortcut(rows[i]).len();
        let need = 4usize.saturating_add(label_len).saturating_add(key_len);
        assert(need == clip_usize(row_need(rows@[i as int], lv[i as int])));
        if need > best {
            best = need;
        }
        i = i + 1;
    }
    assert(rows@.take(i as int) =~= rows@);
    assert(lv.take(i as int) =~= lv);
    let w = if best > 43 {
        best
    } else {
        43
    };
    if w > 65535 {
        65535
    } else {
        w as u16
    }
}

/// The parameters of a scrollable modal window: its title, the size of its
/// content, the height of its footer, and the row below which it is placed
/// at the top left instead of centred.
#[derive(Clone, Copy, Debug, PartialEq, Eq)]
pub struct ScrollableModal {
    pub title: &'static str,
    pub content_width: u16,
    pub content_height: u16,
    pub footer_height: u16,
    pub top_left_below: Option<u16>,
}

impl ScrollableModal {
    pub fn new(title: &'static str, content_width: u16, content_height: u16, footer_height: u16) -> (r: ScrollableModal)
        ensures
            r.title == title,
            r.content_width == content_width,
            r.content_height == content_height,
            r.footer_height == footer_height,
            r.top_left_below == None::<u16>,
    {
        ScrollableModal { title, content_width, content_height, footer_height, top_left_below: None }
    }

    /// The same modal, placed at the top left under `top` rows.
    pub fn with_top_left_placement(self, top: u16) -> (r: ScrollableModal)
        ensures
            r == (ScrollableModal { top_left_below: Some(top), ..self }),
    {
        ScrollableModal { top_left_below: Some(top), ..self }
    }
}

/// The modal of the main menu: untitled, as wide as `main_menu_content_width`,
/// one row per menu row, a one-line footer, placed under the header row.
pub fn main_menu_modal(rows: &Vec<MainMenuRow>, labels: &Vec<String>) -> (r: ScrollableModal)
    requires
        rows@.len() == labels@.len(),
    ensures
        r.title@ == ""@,
        r.content_width == content_width_spec(rows@, labels_view(labels@)),
        r.content_height == if rows@.len() > u16::MAX {
            u16::MAX
        } else {
            rows@.len() as u16
        },
        r.footer_height == 1,
        r.top_left_below == Some(1u16),
{
    let height = if rows.len() > 65535 {
        65535
    } else {
        rows.len() as u16
    };
    ScrollableModal::new("", main_menu_content_width(rows, labels), height, 1).with_top_left_placement(1)
}

/// The column of the first heading that opens `section`, if any.
pub open spec fn section_heading_x(layout: Seq<(HeaderAction, Rect)>, section: MainMenuSection) -> Option<u16>
    decreases layout.len(),
{
    if layout.len() == 0 {
        None
    } else if layout[0].0.section_spec() == Some(section) {
        Some(layout[0].1.x)
    } else {
        section_heading_x(layout.drop_first(), section)
    }
}

/// The column of the first More heading, if any.
pub open spec fn more_heading_x(layout: Seq<(HeaderAction, Rect)>) -> Option<u16>
    decreases layout.len(),
{
    if layout.len() == 0 {
        None
    } else if layout[0].0 == HeaderAction::More {
        Some(layout[0].1.x)
    } else {
        more_heading_x(layout.drop_first())
    }
}

/// The column a menu category is anchored at: its heading's, else More's,
/// else the left edge; moved left so that `width` columns fit.
pub open spec fn anchor_x(area: Rect, layout: Seq<(HeaderAction, Rect)>, section: MainMenuSection, width: u16) -> u16 {
    let x = match section_heading_x(layout, section) {
        Some(x) => x,
        None => match more_heading_x(layout) {
            Some(x) => x,
            None => area.x,
        },
    };
    let bound = sat_sub(area.right() as int, width as int);
    if x < bound {
        x
    } else {
        bound
    }
}

/// The area a menu category opens in: from its anchor column to the right
/// edge of `area`.
pub open spec fn anchored_area_spec(area: Rect, layout: Seq<(HeaderAction, Rect)>, section: MainMenuSection, width: u16) -> Rect {
    let x = anchor_x(area, layout, section, width);
    rect_new(x, area.y, (area.right() - x) as u16, area.height)
}

/// The area that the open menu category is placed in, under its heading.
/// `layout` is the header headings and `width` the width of the menu's modal.
pub fn anchored_area(area: Rect, layout: &Vec<(HeaderAction, Rect)>, section: MainMenuSection, width: u16) -> (r: Rect)
    ensures
        r == anchored_area_spec(area, layout@, section, width),
{
    let mut own: Option<u16> = None;
    let mut more: Option<u16> = None;
    let mut i: usize = 0;
    let ghost l = layout@;
    assert(l.skip(0) =~= l);
    while i < layout.len()
        invariant
            i <= l.len(),
            l == layout@,
            section_heading_x(l, section) == match own {
                Some(x) => Some(x),
                None => section_heading_x(l.skip(i as int), section),
            },
            more_heading_x(l) == match more {
                Some(x) => Some(x),
                None => more_heading_x(l.skip(i as int)),
            },
        decreases l.len() - i,
    {
        assert(l.skip(i as int).drop_first() =~= l.skip(i + 1));
        assert(l.skip(i as int)[0] == l[i as int]);
        let (action, rect) = layout[i];
        if own.is_none() && action.section() == Some(section) {
            own = Some(rect.x);
        }
        if more.is_none() && action == HeaderAction::More {
            more = Some(rect.x);
        }
        i = i + 1;
    }
    assert(l.skip(i as int) =~= Seq::<(HeaderAction, Rect)>::empty());
    let x = match own {
        Some(x) => x,
        None => match more {
            Some(x) => x,
            None => area.x,
        },
    };
    let x = x.min(area.right().saturating_sub(width));
    Rect::new(x, area.y, area.right() - x, area.height)
}

/// Law: the open menu ends at the right edge of the area; when the area is
/// wide enough for the menu, the menu starts inside the area and gets all
/// its width.
pub proof fn law_anchored_menu_fits(area: Rect, layout: Seq<(HeaderAction, Rect)>, section: MainMenuSection, width: u16)
    requires
        area.x + area.width <= u16::MAX,
        forall|i: int| 0 <= i < layout.len() ==> (#[trigger] layout[i]).1.x >= area.x,
    ensures
        ({
            let a = anchored_area_spec(area, layout, section, width);
            &&& a.x + a.width == area.x + area.width
            &&& width <= area.width ==> a.x >= area.x && a.width >= width
        }),
{
    lemma_section_heading_x_bound(layout, section, area.x);
    lemma_more_heading_x_bound(layout, area.x);
}

proof fn lemma_section_heading_x_bound(layout: Seq<(HeaderAction, Rect)>, section: MainMenuSection, left: u16)
    requires
        forall|i: int| 0 <= i < layout.len() ==> (#[trigger] layout[i]).1.x >= left,
    ensures
        section_heading_x(layout, section) matches Some(x) ==> x >= left,
    decreases layout.len(),
{
    if layout.len() > 0 {
        assert(layout[0].1.x >= left);
        assert forall|i: int| 0 <= i < layout.drop_first().len() implies (#[trigger] layout.drop_first()[i]).1.x >= left by {
            assert(layout.drop_first()[i] == layout[i + 1]);
        }
        lemma_section_heading_x_bound(layout.drop_first(), section, left);
    }
}

proof fn lemma_more_heading_x_bound(layout: Seq<(HeaderAction, Rect)>, left: u16)
    requires
        forall|i: int| 0 <= i < layout.len() ==> (#[trigger] layout[i]).1.x >= left,
    ensures
        more_heading_x(layout) matches Some(x) ==> x >= left,
    decreases layout.len(),
{
    if layout.len() > 0 {
        assert(layout[0].1.x >= left);
        assert forall|i: int| 0 <= i < layout.drop_first().len() implies (#[trigger] layout.drop_first()[i]).1.x >= left by {
            assert(layout.drop_first()[i] == layout[i + 1]);
        }
        lemma_more_heading_x_bound(layout.drop_first(), left);
    }
}

/// The first row shown: the selected row is the last of `height` visible
/// rows when it would be below them.
pub open spec fn menu_offset_spec(selected: usize, content_height: u16) -> usize {
    let h: int = if content_height > 1 {
        content_height as int
    } else {
        1
    };
    if selected >= h - 1 {
        (selected - (h - 1)) as usize
    } else {
        0
    }
}

/// The first menu row shown in a content area `content_height` rows high.
pub fn menu_offset(selected: usize, content_height: u16) -> (r: usize)
    ensures
        r == menu_offset_spec(selected, content_height),
{
    let height = if content_height > 1 {
        content_height as usize
    } else {
        1
    };
    selected.saturating_sub(height - 1)
}

/// Law: the selected row is always among the rows shown.
pub proof fn law_selected_row_is_visible(selected: usize, content_height: u16)
    ensures
        menu_offset_spec(selected, content_height) <= selected,
        selected < menu_offset_spec(selected, content_height) + if content_height > 1 {
            content_height as int
        } else {
            1
        },
{
}

/// The menu row under a point of the content area, if any.
pub open spec fn index_at_spec(content: Rect, offset: usize, row_count: usize, px: u16, py: u16) -> Option<usize> {
    if px < content.x || px >= content.right() || py < content.y || py >= content.bottom() {
        None
    } else {
        let index = offset + (py - content.y);
        if index < row_count {
            Some(index as usize)
        } else {
            None
        }
    }
}

/// The menu row under a point, for a content area that shows rows from
/// `offset` on.
pub fn main_menu_index_at(content: Rect, offset: usize, row_count: usize, px: u16, py: u16) -> (r: Option<usize>)
    ensures
        r == index_at_spec(content, offset, row_count, px, py),
{
    if px < content.x || px >= content.right() || py < content.y || py >= content.bottom() {
        return None;
    }
    let row = (py - content.y) as usize;
    if offset > usize::MAX - row {
        return None;
    }
    let index = offset + row;
    if index < row_count {
        Some(index)
    } else {
        None
    }
}

/// The cells of a menu row, when it is shown.
pub open spec fn item_area_spec(content: Rect, offset: usize, row_count: usize, index: usize) -> Option<Rect> {
    if index >= offset && index < row_count && index - offset < content.height {
        Some(rect_new(content.x, sat_add(content.y as int, index - offset), content.width, 1))
    } else {
        None
    }
}

/// The cells of menu row `index`, when it is among the rows shown.
pub fn main_menu_item_area(content: Rect, offset: usize, row_count: usize, index: usize) -> (r: Option<Rect>)
    ensures
        r == item_area_spec(content, offset, row_count, index),
{
    if index >= offset && index < row_count && index - offset < content.height as usize {
        Some(Rect::new(content.x, content.y.saturating_add((index - offset) as u16), content.width, 1))
    } else {
        None
    }
}

/// Law: clicking any cell of a shown row hits that row, unless the row is
/// the last line of the `u16` range (whose bottom edge cannot be
/// represented).
pub proof fn law_item_area_hits_its_row(content: Rect, offset: usize, row_count: usize, index: usize, px: u16)
    requires
        content.y + (index - offset) < u16::MAX,
        item_area_spec(content, offset, row_count, index) is Some,
        item_area_spec(content, offset, row_count, index)->0.x <= px,
        px < item_area_spec(content, offset, row_count, index)->0.right(),
    ensures
        index_at_spec(content, offset, row_count, px, item_area_spec(content, offset, row_count, index)->0.y)
            == Some(index),
{
}

/// Law: every point of the content area that lies on a menu row hits that
/// row: the row shown `py - content.y` lines below the first one, which is
/// row `offset`.
pub proof fn law_content_points_hit_their_row(content: Rect, offset: usize, row_count: usize, px: u16, py: u16)
    requires
        content.x <= px < content.right(),
        content.y <= py < content.bottom(),
        offset + (py - content.y) < row_count,
    ensures
        index_at_spec(content, offset, row_count, px, py) == Some((offset + (py - content.y)) as usize),
{
}

/// Law: every row among those shown has cells: the row `index - offset`
/// lines below the top of the content area, as wide as the content.
pub proof fn law_shown_rows_have_cells(content: Rect, offset: usize, row_count: usize, index: usize)
    requires
        offset <= index < row_count,
        index - offset < content.height,
    ensures
        item_area_spec(content, offset, row_count, index) is Some,
        item_area_spec(content, offset, row_count, index)->0.x == content.x,
        content.y + content.height <= u16::MAX ==> item_area_spec(content, offset, row_count, index)->0.y
            == content.y + (index - offset),
        content.x + content.width <= u16::MAX ==> item_area_spec(content, offset, row_count, index)->0.width
            == content.width,
{
}

/// Law: a row found under a point is one of the menu's rows, and it is the
/// row whose cells hold the point.
pub proof fn law_index_at_is_a_shown_row(content: Rect, offset: usize, row_count: usize, px: u16, py: u16)
    ensures
        index_at_spec(content, offset, row_count, px, py) matches Some(i) ==> {
            &&& i < row_count
            &&& item_area_spec(content, offset, row_count, i) is Some
            &&& item_area_spec(content, offset, row_count, i)->0.contains_spec(px, py)
        },
{
}

/// The area of the open menu: nothing while the Help heading is focused
/// (Help opens no drop-down), else the area of the menu's modal.
pub fn main_menu_area(section: MainMenuSection, modal_area: Rect) -> (r: Rect)
    ensures
        r == if section == MainMenuSection::Help {
            Rect { x: 0, y: 0, width: 0, height: 0 }
        } else {
            modal_area
        },
{
    if section == MainMenuSection::Help {
        return Rect::zero();
    }
    modal_area
}

/// The footer line shown while the Help heading is focused: the last row of
/// the area.
pub fn help_heading_footer(area: Rect) -> (r: Rect)
    ensures
        r == rect_new(area.x, sat_sub(area.bottom() as int, 1), area.width, if area.height < 1 {
            area.height
        } else {
            1
        }),
{
    Rect::new(area.x, area.bottom().saturating_sub(1), area.width, area.height.min(1))
}

/// The shortcuts listed under the open main menu: key and what it does.
pub open spec fn menu_keys_spec() -> Seq<(Seq<char>, Seq<char>)> {
    seq![("↑/↓"@, "Select"@), ("←/→"@, "Menu"@), ("Enter"@, "Open"@), ("Esc"@, "Close"@)]
}

/// The shortcuts listed while the Help heading is focused.
pub open spec fn help_heading_keys_spec() -> Seq<(Seq<char>, Seq<char>)> {
    seq![("←/→"@, "Menu"@), ("Enter"@, "Help"@), ("Esc"@, "Close"@)]
}

pub open spec fn key_pairs_view(keys: Seq<(&'static str, &'static str)>) -> Seq<(Seq<char>, Seq<char>)> {
    keys.map_values(|k: (&'static str, &'static str)| (k.0@, k.1@))
}

/// The footer shortcuts of the open main menu.
pub fn menu_keys() -> (r: Vec<(&'static str, &'static str)>)
    ensures
        key_pairs_view(r@) == menu_keys_spec(),
{
    let r = vec![("↑/↓", "Select"), ("←/→", "Menu"), ("Enter", "Open"), ("Esc", "Close")];
    assert(key_pairs_view(r@) =~= menu_keys_spec());
    r
}

/// The footer shortcuts shown while the Help heading is focused (Help opens
/// no drop-down, so only this footer is drawn, in `help_heading_footer`).
pub fn help_heading_keys() -> (r: Vec<(&'static str, &'static str)>)
    ensures
        key_pairs_view(r@) == help_heading_keys_spec(),
{
    let r = vec![("←/→", "Menu"), ("Enter", "Help"), ("Esc", "Close")];
    assert(key_pairs_view(r@) =~= help_heading_keys_spec());
    r
}

/// The position of the first space, if any.
pub open spec fn first_space(s: Seq<char>) -> Option<nat>
    decreases s.len(),
{
    if s.len() == 0 {
        None
    } else if s[0] == ' ' {
        Some(0)
    } else {
        match first_space(s.drop_first()) {
            Some(i) => Some(i + 1),
            None => None,
        }
    }
}

/// A piece of a menu row; `key_hint` pieces are drawn in the key colour.
#[derive(Debug)]
pub struct MenuPiece {
    pub text: Vec<char>,
    pub key_hint: bool,
}

pub open spec fn pieces_view(pieces: Seq<MenuPiece>) -> Seq<(Seq<char>, bool)> {
    pieces.map_values(|p: MenuPiece| (p.text@, p.key_hint))
}

/// The spaces between a label and its shortcut so that shortcuts end at
/// `width`: at least two.
pub open spec fn label_padding(label: Seq<char>, key: Seq<char>, width: nat) -> nat {
    let p = width - (span_cells(label) + (encode_utf8(key).len() as usize));
    if p > 2 {
        p as nat
    } else {
        2
    }
}

/// A row's label and shortcut: the label; then, when there is a shortcut,
/// the padding, the key in the key colour, and the rest of the shortcut
/// after its first space.
pub open spec fn label_pieces(row: MainMenuRow, label: Seq<char>, width: nat) -> Seq<(Seq<char>, bool)> {
    let key = shortcut_spec(row);
    if key.len() == 0 {
        seq![(label, false)]
    } else {
        let pad = label_padding(label, key, width);
        let (k, context) = match first_space(key) {
            Some(i) => (key.take(i as int), key.skip(i + 1 as int)),
            None => (key, Seq::<char>::empty()),
        };
        let head = seq![(label, false), (spaces(pad), false), (k, true)];
        if context.len() == 0 {
            head
        } else {
            head.push((seq![' '] + context, false))
        }
    }
}

/// The pieces of a menu row's label and shortcut for `width` cells.
pub fn display_label(row: MainMenuRow, label: &String, width: usize) -> (r: Vec<MenuPiece>)
    ensures
        pieces_view(r@) == label_pieces(row, label@, width as nat),
{
    let key_str = shortcut(row);
    let label_chars = chars_of(label.as_str());
    let key = chars_of(key_str);
    let mut pieces: Vec<MenuPiece> = Vec::new();
    if key.len() == 0 {
        pieces.push(MenuPiece { text: label_chars, key_hint: false });
        assert(pieces_view(pieces@) =~= seq![(label@, false)]);
        return pieces;
    }
    let label_width = span_width(label_chars.as_slice());
    let key_len = key_str.len();
    let need = label_width.saturating_add(key_len);
    let pad = if need >= width {
        2
    } else if width - need > 2 {
        width - need
    } else {
        2
    };
    assert(pad == label_padding(label@, key@, width as nat));
    let mut i: usize = 0;
    let mut found = false;
    assert(key@.skip(0) =~= key@);
    while i < key.len() && !found
        invariant
            i <= key@.len(),
            found ==> i < key@.len() && key@[i as int] == ' ',
            first_space(key@) == if found {
                Some(i as nat)
            } else {
                match first_space(key@.skip(i as int)) {
                    Some(j) => Some((j + i) as nat),
                    None => None,
                }
            },
        decreases key@.len() - i + if found { 0int } else { 1int },
    {
        assert(key@.skip(i as int).drop_first() =~= key@.skip(i + 1));
        assert(key@.skip(i as int)[0] == key@[i as int]);
        if key[i] == ' ' {
            found = true;
        } else {
            i = i + 1;
        }
    }
    proof {
        if !found {
            assert(key@.skip(i as int) =~= Seq::<char>::empty());
        }
    }
    let mut k: Vec<char> = Vec::new();
    let mut j: usize = 0;
    while j < i
        invariant
            j <= i <= key@.len(),
            k@ == key@.take(j as int),
        decreases i - j,
    {
        k.push(key[j]);
        assert(k@ =~= key@.take(j + 1));
        j = j + 1;
    }
    let mut context: Vec<char> = Vec::new();
    if found {
        let mut m: usize = i + 1;
        while m < key.len()
            invariant
                i + 1 <= m <= key@.len(),
                context@ == key@.subrange(i + 1, m as int),
            decreases key@.len() - m,
        {
            context.push(key[m]);
            assert(context@ =~= key@.subrange(i + 1, m + 1));
            m = m + 1;
        }
        assert(context@ =~= key@.skip(i + 1));
    } else {
        assert(key@.skip(i as int) =~= Seq::<char>::empty());
        assert(k@ =~= key@);
    }
    let ghost kv = k@;
    let ghost cv = context@;
    pieces.push(MenuPiece { text: label_chars, key_hint: false });
    pieces.push(MenuPiece { text: space_chars(pad), key_hint: false });
    pieces.push(MenuPiece { text: k, key_hint: true });
    assert(pieces_view(pieces@) =~= seq![(label@, false), (spaces(pad as nat), false), (kv, true)]);
    if context.len() > 0 {
        let mut c: Vec<char> = Vec::new();
        c.push(' ');
        let c = concat_chars(c, context.as_slice());
        let ghost before = pieces_view(pieces@);
        pieces.push(MenuPiece { text: c, key_hint: false });
        assert(pieces_view(pieces@) =~= before.push((seq![' '] + cv, false)));
    }
    pieces
}


/// How a menu row is highlighted.
#[derive(Clone, Copy, Debug, PartialEq, Eq, Structural)]
pub enum RowHighlight {
    Selected,
    Hovered,
    Normal,
}

/// A drawn menu row: its pieces and its highlight.
#[derive(Debug)]
pub struct MenuLine {
    pub pieces: Vec<MenuPiece>,
    pub highlight: RowHighlight,
}

/// The cells of a row's pieces, as ratatui's `Line::width` adds up the
/// widths of its spans.
pub open spec fn pieces_cells(pieces: Seq<(Seq<char>, bool)>) -> nat
    decreases pieces.len(),
{
    if pieces.len() == 0 {
        0
    } else {
        pieces_cells(pieces.drop_last()) + span_cells(pieces.last().0)
    }
}

/// A menu row as drawn: a cursor (`> ` on the selected row), the label and
/// shortcut for the content width less the cursor, and spaces to fill the
/// content width; the selected row is highlighted before a hovered one.
pub open spec fn menu_line_spec(row: MainMenuRow, label: Seq<char>, selected: bool, hovered: bool, content_width: nat) -> (Seq<(Seq<char>, bool)>, RowHighlight) {
    let cursor = if selected {
        "> "@
    } else {
        "  "@
    };
    let body = seq![(cursor, false)] + label_pieces(row, label, minus_nat(content_width as int, 2));
    let fill = spaces(minus_nat(content_width as int, pieces_cells(body) as int));
    let highlight = if selected {
        RowHighlight::Selected
    } else if hovered {
        RowHighlight::Hovered
    } else {
        RowHighlight::Normal
    };
    (body.push((fill, false)), highlight)
}

/// `a - b`, or zero when `b` is larger.
pub open spec fn minus_nat(a: int, b: int) -> nat {
    if a > b {
        (a - b) as nat
    } else {
        0
    }
}

/// Law: the keyboard selection always shows: a selected row is highlighted
/// as selected whether or not the pointer is over it; an unselected row is
/// highlighted as hovered exactly when the pointer is over it, and is
/// otherwise plain. The pointer changes nothing but the highlight.
pub proof fn law_selection_highlight_wins(row: MainMenuRow, label: Seq<char>, selected: bool, hovered: bool, content_width: nat)
    ensures
        selected ==> menu_line_spec(row, label, selected, hovered, content_width).1 == RowHighlight::Selected,
        !selected && hovered ==> menu_line_spec(row, label, selected, hovered, content_width).1 == RowHighlight::Hovered,
        !selected && !hovered ==> menu_line_spec(row, label, selected, hovered, content_width).1 == RowHighlight::Normal,
        menu_line_spec(row, label, selected, hovered, content_width).0 == menu_line_spec(row, label, selected, !hovered, content_width).0,
{
}

/// The pieces and highlight of a main-menu row.
pub fn main_menu_line(row: MainMenuRow, label: &String, selected: bool, hovered: bool, content_width: usize) -> (r: MenuLine)
    ensures
        (pieces_view(r.pieces@), r.highlight) == menu_line_spec(row, label@, selected, hovered, content_width as nat),
{
    let cursor = if selected {
        chars_of("> ")
    } else {
        chars_of("  ")
    };
    let label_part = display_label(row, label, content_width.saturating_sub(2));
    let mut pieces: Vec<MenuPiece> = Vec::new();
    pieces.push(MenuPiece { text: cursor, key_hint: false });
    let ghost first = pieces_view(pieces@);
    let mut rest = label_part;
    let ghost rest_view = pieces_view(rest@);
    pieces.append(&mut rest);
    assert(pieces_view(pieces@) =~= first + rest_view);
    let ghost body = pieces_view(pieces@);
    let ghost cursor_text: Seq<char> = if selected {
        "> "@
    } else {
        "  "@
    };
    assert(first =~= seq![(cursor_text, false)]);
    assert(body =~= seq![(cursor_text, false)] + label_pieces(row, label@, minus_nat(content_width as int, 2)));
    let mut used: usize = 0;
    let mut i: usize = 0;
    assert(body.take(0) =~= Seq::<(Seq<char>, bool)>::empty());
    while i < pieces.len()
        invariant
            i <= pieces@.len(),
            body == pieces_view(pieces@),
            used as int == clip_usize(pieces_cells(body.take(i as int)) as int),
        decreases pieces@.len() - i,
    {
        assert(body.take(i + 1).drop_last() =~= body.take(i as int));
        assert(body.take(i + 1).last() == (pieces@[i as int].text@, pieces@[i as int].key_hint));
        let w = span_width(pieces[i].text.as_slice());
        used = used.saturating_add(w);
        i = i + 1;
    }
    assert(body.take(i as int) =~= body);
    let n = content_width.saturating_sub(used);
    assert(n as nat == minus_nat(content_width as int, pieces_cells(body) as int));
    let fill = space_chars(n);
    pieces.push(MenuPiece { text: fill, key_hint: false });
    assert(pieces_view(pieces@) =~= body.push((spaces(minus_nat(content_width as int, pieces_cells(body) as int)), false)));
    let highlight = if selected {
        RowHighlight::Selected
    } else if hovered {
        RowHighlight::Hovered
    } else {
        RowHighlight::Normal
    };
    MenuLine { pieces, highlight }
}

} // verus!
