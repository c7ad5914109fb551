use vstd::prelude::*;
use crate::geometry::{Rect, rect_new, sat_sub};
use crate::text::{chars_of, concat_chars};

verus! {

/// The cells that ratatui's `Line::width` reports for a text made into a
/// line (the text split at line breaks, the widths of the parts added).
pub uninterp spec fn line_cells(text: Seq<char>) -> nat;

/// Cells that ratatui's `Line::from(text).width()` gives: the display width
/// of the text's lines, added up. Nothing is claimed of its value.
#[verifier::external_body]
pub(crate) fn line_width(text: &str) -> (w: usize)
    ensures
        w as nat == line_cells(text@),
{
    ratatui::text::Line::from(text).width()
}

/// An entry of a context menu.
#[derive(Debug)]
pub struct ContextMenuItem {
    pub label: String,
    pub enabled: bool,
}

/// A context menu opened at a point of the screen.
#[derive(Debug)]
pub struct ContextMenu {
    pub title: String,
    pub items: Vec<ContextMenuItem>,
    pub anchor_x: u16,
    pub anchor_y: u16,
    pub selected: usize,
    pub hovered: Option<usize>,
}

/// Where a context menu is drawn: its frame, the rows inside the frame, and
/// the first item shown.
#[derive(Clone, Copy, Debug, PartialEq, Eq, Structural)]
pub struct MenuLayout {
    pub area: Rect,
    pub content: Rect,
    pub offset: usize,
}

/// The cells an item needs: its label, two cells, and 14 more for the
/// ` (unavailable)` mark of a disabled item.
pub open spec fn item_need(item: ContextMenuItem) -> int {
    line_cells(item.label@) + 2 + if item.enabled {
        0int
    } else {
        14int
    }
}

/// The largest need of the items, or 0 for none.
pub open spec fn max_item_need(items: Seq<ContextMenuItem>) -> int
    decreases items.len(),
{
    if items.len() == 0 {
        0
    } else {
        let rest = max_item_need(items.drop_last());
        let here = item_need(items.last());
        if here > rest {
            here
        } else {
            rest
        }
    }
}

/// The width of a context menu: the title or the widest item, plus the
/// frame, at most 88 and at most the screen's width.
pub open spec fn menu_width(screen: Rect, menu: ContextMenu) -> u16 {
    let t = line_cells(menu.title@) as int;
    let m = max_item_need(menu.items@);
    let w = (if t > m {
        t
    } else {
        m
    }) + 2;
    let w1 = if w < 88 {
        w
    } else {
        88
    };
    if w1 < screen.width {
        w1 as u16
    } else {
        screen.width
    }
}

/// The height of a context menu: one row per item (the count taken as
/// `u16`) and the frame, at most the screen's height.
pub open spec fn menu_height(screen: Rect, menu: ContextMenu) -> u16 {
    let h = (menu.items@.len() as u16) as int + 2;
    if h < screen.height {
        h as u16
    } else {
        screen.height
    }
}

/// A coordinate moved back so that `size` cells fit before `end`, but not
/// before `start`.
pub open spec fn fit_coordinate(anchor: u16, start: u16, end: u16, size: u16) -> u16 {
    let bound = sat_sub(end as int, size as int);
    let c = if anchor < bound {
        anchor
    } else {
        bound
    };
    if c > start {
        c
    } else {
        start
    }
}

/// The layout of a context menu on the screen: the menu is placed at its
/// anchor, moved back to stay on the screen, and scrolled so that the
/// selected item is the last row shown when it would be below them.
pub open spec fn menu_layout_spec(screen: Rect, menu: ContextMenu) -> MenuLayout {
    let width = menu_width(screen, menu);
    let height = menu_height(screen, menu);
    let area = rect_new(
        fit_coordinate(menu.anchor_x, screen.x, screen.right(), width),
        fit_coordinate(menu.anchor_y, screen.y, screen.bottom(), height),
        width,
        height,
    );
    let content = area.inner_one_spec();
    let next = if menu.selected == usize::MAX {
        usize::MAX as int
    } else {
        menu.selected + 1
    };
    let offset = if next > content.height {
        (next - content.height) as usize
    } else {
        0
    };
    MenuLayout { area, content, offset }
}

/// Lays out a context menu on the screen.
pub fn layout(screen: Rect, menu: &ContextMenu) -> (r: MenuLayout)
    ensures
        r == menu_layout_spec(screen, *menu),
{
    let mut best: usize = 0;
    let mut i: usize = 0;
    let ghost items = menu.items@;
    assert(items.take(0) =~= Seq::<ContextMenuItem>::empty());
    while i < menu.items.len()
        invariant
            i <= items.len(),
            items == menu.items@,
            best as int == if max_item_need(items.take(i as int)) > usize::MAX {
                usize::MAX as int
            } else {
                max_item_need(items.take(i as int))
            },
        decreases items.len() - i,
    {
        assert(items.take(i + 1).drop_last() =~= items.take(i as int));
        assert(items.take(i + 1).last() == items[i as int]);
        let item = &menu.items[i];
        let extra: usize = if item.enabled {
            2
        } else {
            16
        };
        let need = line_width(item.label.as_str()).saturating_add(extra);
        if need > best {
            best = need;
        }
        i = i + 1;
    }
    assert(items.take(i as int) =~= items);
    let title = line_width(menu.title.as_str());
    let widest = if title > best {
        title
    } else {
        best
    };
    let w = widest.saturating_add(2);
    let w = if w < 88 {
        w
    } else {
        88
    };
    let width: u16 = if w < screen.width as usize {
        w as u16
    } else {
        screen.width
    };
    let h = (menu.items.len() as u16) as u32 + 2;
    let height: u16 = if h < screen.height as u32 {
        h as u16
    } else {
        screen.height
    };
    let x = menu.anchor_x.min(screen.right().saturating_sub(width)).max(screen.x);
    let y = menu.anchor_y.min(screen.bottom().saturating_sub(height)).max(screen.y);
    let area = Rect::new(x, y, width, height);
    let content = area.inner_one();
    let offset = menu.selected.saturating_add(1).saturating_sub(content.height as usize);
    MenuLayout { area, content, offset }
}

/// The item under a point of a laid-out context menu, if any.
pub open spec fn item_at_spec(screen: Rect, menu: ContextMenu, px: u16, py: u16) -> Option<usize> {
    let l = menu_layout_spec(screen, menu);
    if l.content.contains_spec(px, py) {
        let index = l.offset + (py - l.content.y);
        if index < menu.items@.len() {
            Some(index as usize)
        } else {
            None
        }
    } else {
        None
    }
}

/// The item of the context menu under a point.
pub fn item_at(screen: Rect, menu: &ContextMenu, px: u16, py: u16) -> (r: Option<usize>)
    ensures
        r == item_at_spec(screen, *menu, px, py),
{
    let l = layout(screen, menu);
    if !l.content.contains(px, py) {
        return None;
    }
    let row = (py - l.content.y) as usize;
    if l.offset > usize::MAX - row {
        return None;
    }
    let index = l.offset + row;
    if index < menu.items.len() {
        Some(index)
    } else {
        None
    }
}

/// Law: a context menu on a screen whose edges stay within `u16` lies on the
/// screen and is at most 88 cells wide.
pub proof fn law_context_menu_stays_on_screen(screen: Rect, menu: ContextMenu)
    requires
        screen.x + screen.width <= u16::MAX,
        screen.y + screen.height <= u16::MAX,
    ensures
        ({
            let a = menu_layout_spec(screen, menu).area;
            &&& a.x >= screen.x
            &&& a.y >= screen.y
            &&& a.x + a.width <= screen.x + screen.width
            &&& a.y + a.height <= screen.y + screen.height
            &&& a.width <= 88
        }),
{
}

/// Law: the selected item is among the rows shown, when any row is shown.
pub proof fn law_context_menu_shows_selected(screen: Rect, menu: ContextMenu)
    requires
        menu.selected < usize::MAX,
        menu_layout_spec(screen, menu).content.height > 0,
    ensures
        ({
            let l = menu_layout_spec(screen, menu);
            l.offset <= menu.selected < l.offset + l.content.height
        }),
{
}

/// Law: an item found under a point is an item of the menu, and the point is
/// in the menu's rows, on the row that shows that item.
pub proof fn law_context_item_hit_is_in_menu(screen: Rect, menu: ContextMenu, px: u16, py: u16)
    ensures
        item_at_spec(screen, menu, px, py) matches Some(i) ==> {
            let l = menu_layout_spec(screen, menu);
            &&& i < menu.items@.len()
            &&& l.content.contains_spec(px, py)
            &&& i == l.offset + (py - l.content.y)
        },
{
}

/// The foreground of a context-menu row.
#[derive(Clone, Copy, Debug, PartialEq, Eq, Structural)]
pub enum RowForeground {
    Text,
    Muted,
}

/// The background of a context-menu row.
#[derive(Clone, Copy, Debug, PartialEq, Eq, Structural)]
pub enum RowBackground {
    FocusSurface,
    SelectionSurface,
    PanelAlt,
}

/// A drawn context-menu row.
#[derive(Debug)]
pub struct ContextRow {
    pub text: Vec<char>,
    pub fg: RowForeground,
    pub bg: RowBackground,
    pub bold: bool,
}

/// The text of an item's row: a `>` marker on the selected item, a space,
/// the label, and ` (unavailable)` for a disabled item.
pub open spec fn row_text(label: Seq<char>, selected: bool, enabled: bool) -> Seq<char> {
    (if selected {
        ">"@
    } else {
        " "@
    }) + " "@ + label + if enabled {
        ""@
    } else {
        " (unavailable)"@
    }
}

/// The rows shown: the items from the offset on, as many as the content
/// area is high.
pub open spec fn shown_range(l: MenuLayout, count: nat) -> (int, int) {
    let start = if l.offset < count {
        l.offset as int
    } else {
        count as int
    };
    let end = if start + l.content.height < count {
        start + l.content.height
    } else {
        count as int
    };
    (start, end)
}

/// The row drawn for item `index` of the menu.
pub open spec fn context_row_spec(menu: ContextMenu, index: int) -> (Seq<char>, RowForeground, RowBackground, bool) {
    let item = menu.items@[index];
    let selected = index == menu.selected;
    let hovered = menu.hovered == Some(index as usize);
    (
        row_text(item.label@, selected, item.enabled),
        if item.enabled {
            RowForeground::Text
        } else {
            RowForeground::Muted
        },
        if hovered {
            RowBackground::FocusSurface
        } else if selected {
            RowBackground::SelectionSurface
        } else {
            RowBackground::PanelAlt
        },
        selected || hovered,
    )
}

/// The rows of a laid-out context menu, with their text and colours.
pub fn context_menu_rows(l: &MenuLayout, menu: &ContextMenu) -> (r: Vec<ContextRow>)
    ensures
        ({
            let (start, end) = shown_range(*l, menu.items@.len());
            &&& r@.len() == end - start
            &&& forall|k: int|
                0 <= k < r@.len() ==> ((#[trigger] r@[k]).text@, r@[k].fg, r@[k].bg, r@[k].bold) == context_row_spec(*menu, start + k)
        }),
{
    let count = menu.items.len();
    let start = if l.offset < count {
        l.offset
    } else {
        count
    };
    let end = if (l.content.height as usize) < count - start {
        start + l.content.height as usize
    } else {
        count
    };
    let mut rows: Vec<ContextRow> = Vec::new();
    let mut i = start;
    while i < end
        invariant
            start <= i <= end <= count,
            count == menu.items@.len(),
            (start as int, end as int) == shown_range(*l, count as nat),
            rows@.len() == i - start,
            forall|k: int|
                0 <= k < rows@.len() ==> ((#[trigger] rows@[k]).text@, rows@[k].fg, rows@[k].bg, rows@[k].bold) == context_row_spec(*menu, start + k),
        decreases end - i,
    {
        let item = &menu.items[i];
        let selected = i == menu.selected;
        let hovered = match menu.hovered {
            Some(h) => h == i,
            None => false,
        };
        let marker = if selected {
            chars_of(">")
        } else {
            chars_of(" ")
        };
        let text = concat_chars(marker, chars_of(" ").as_slice());
        let text = concat_chars(text, chars_of(item.label.as_str()).as_slice());
        let tail = if item.enabled {
            chars_of("")
        } else {
            chars_of(" (unavailable)")
        };
        let text = concat_chars(text, tail.as_slice());
        let fg = if item.enabled {
            RowForeground::Text
        } else {
            RowForeground::Muted
        };
        let bg = if hovered {
            RowBackground::FocusSurface
        } else if selected {
            RowBackground::SelectionSurface
        } else {
            RowBackground::PanelAlt
        };
        rows.push(ContextRow { text, fg, bg, bold: selected || hovered });
        i = i + 1;
    }
    rows
}

} // verus!
