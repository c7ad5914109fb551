use vstd::prelude::*;
use crate::header::AppActivity;
use crate::main_menu::ScrollableModal;
use crate::text::{chars_of, concat_chars, decimal, decimal_chars, pad_left, pad_left_chars};

verus! {

/// The kind of a logical processor on hybrid CPUs.
#[derive(Clone, Copy, Debug, PartialEq, Eq, Structural)]
pub enum CpuCoreKind {
    Performance,
    Efficiency,
}

/// The usage sample of one logical processor.
#[derive(Clone, Copy, Debug, PartialEq, Eq, Structural)]
pub struct CpuLogicalProcessorSample {
    pub usage_percent: u32,
    pub kind: Option<CpuCoreKind>,
}

/// The colour a piece of the dialog is drawn in.
#[derive(Clone, Copy, Debug, PartialEq, Eq, Structural)]
pub enum CellTone {
    Text,
    Muted,
}

/// A piece of a dialog line.
#[derive(Debug)]
pub struct CellPiece {
    pub text: Vec<char>,
    pub tone: CellTone,
}

pub open spec fn cell_pieces_view(pieces: Seq<CellPiece>) -> Seq<(Seq<char>, CellTone)> {
    pieces.map_values(|p: CellPiece| (p.text@, p.tone))
}

/// The most cores shown side by side.
pub const MAX_COLUMNS: usize = 4;

/// The gap between cores on a line.
pub open spec fn column_gap() -> Seq<char> {
    "   "@
}

pub open spec fn kind_text(kind: Option<CpuCoreKind>) -> Seq<char> {
    match kind {
        Some(CpuCoreKind::Performance) => "P"@,
        Some(CpuCoreKind::Efficiency) => "E"@,
        None => "-"@,
    }
}

/// The pieces that show a core: `CPU ` and its index right-aligned in
/// `index_width` columns; its kind in brackets, muted; and its usage capped
/// at 100, right-aligned in three columns, with a percent sign.
pub open spec fn core_line_spec(index: usize, index_width: usize, core: CpuLogicalProcessorSample) -> Seq<(Seq<char>, CellTone)> {
    let usage = if core.usage_percent < 100 {
        core.usage_percent
    } else {
        100
    };
    seq![
        ("CPU "@ + pad_left(decimal(index as nat), index_width as nat), CellTone::Text),
        (" ("@ + kind_text(core.kind) + ")  "@, CellTone::Muted),
        (pad_left(decimal(usage as nat), 3) + "%"@, CellTone::Text),
    ]
}

/// The pieces of the line that shows one logical processor.
pub fn cpu_core_line(index: usize, index_width: usize, core: CpuLogicalProcessorSample) -> (r: Vec<CellPiece>)
    ensures
        cell_pieces_view(r@) == core_line_spec(index, index_width, core),
{
    let kind = match core.kind {
        Some(CpuCoreKind::Performance) => "P",
        Some(CpuCoreKind::Efficiency) => "E",
        None => "-",
    };
    let usage = if core.usage_percent < 100 {
        core.usage_percent
    } else {
        100
    };
    let first = concat_chars(chars_of("CPU "), pad_left_chars(decimal_chars(index as u64), index_width).as_slice());
    let second = concat_chars(chars_of(" ("), chars_of(kind).as_slice());
    let second = concat_chars(second, chars_of(")  ").as_slice());
    let third = concat_chars(pad_left_chars(decimal_chars(usage as u64), 3), chars_of("%").as_slice());
    let mut r: Vec<CellPiece> = Vec::new();
    r.push(CellPiece { text: first, tone: CellTone::Text });
    r.push(CellPiece { text: second, tone: CellTone::Muted });
    r.push(CellPiece { text: third, tone: CellTone::Text });
    assert(cell_pieces_view(r@) =~= core_line_spec(index, index_width, core));
    r
}

/// The columns a number's decimal digits take, at least one.
pub open spec fn digits_width(n: nat) -> nat {
    decimal(n).len()
}

/// The index width of the dialog: the digits of the last index.
pub open spec fn index_width_spec(count: nat) -> usize {
    let last = if count > 0 {
        (count - 1) as nat
    } else {
        0
    };
    digits_width(last) as usize
}

proof fn lemma_decimal_nonempty(n: nat)
    ensures
        decimal(n).len() >= 1,
    decreases n,
{
    if n >= 10 {
        lemma_decimal_nonempty(n / 10);
    }
}

/// The line of cores `row * columns ..` of the dialog, separated by gaps.
pub open spec fn grid_line_spec(cores: Seq<CpuLogicalProcessorSample>, columns: nat, row: nat, index_width: usize) -> Seq<(Seq<char>, CellTone)> {
    let start = row * columns;
    let n = if start + columns <= cores.len() {
        columns
    } else {
        (cores.len() - start) as nat
    };
    grid_cells(cores, start, n, index_width)
}

/// The pieces of `n` cores from `start` on, each after the first preceded by
/// the gap.
pub open spec fn grid_cells(cores: Seq<CpuLogicalProcessorSample>, start: nat, n: nat, index_width: usize) -> Seq<(Seq<char>, CellTone)>
    decreases n,
{
    if n == 0 {
        Seq::empty()
    } else {
        let i = start + n - 1;
        let before = grid_cells(cores, start, (n - 1) as nat, index_width);
        let gap = if n > 1 {
            seq![(column_gap(), CellTone::Text)]
        } else {
            Seq::empty()
        };
        before + gap + core_line_spec(i as usize, index_width, cores[i as int])
    }
}

/// The number of lines for `count` cores in `columns` columns.
pub open spec fn rows_for(count: nat, columns: nat) -> nat {
    if columns == 0 {
        0
    } else {
        ((count + columns - 1) / columns as int) as nat
    }
}

pub open spec fn empty_message(activity: AppActivity) -> Seq<char> {
    if activity == AppActivity::LogView {
        "Per-core usage is not recorded in logs."@
    } else {
        "Per-core usage is unavailable."@
    }
}

/// The lines of the dialog.
pub fn cpu_core_dialog_lines(cores: &Vec<CpuLogicalProcessorSample>, columns: usize, activity: AppActivity) -> (r: Vec<Vec<CellPiece>>)
    requires
        cores@.len() > 0 ==> columns >= 1,
    ensures
        cores@.len() == 0 ==> r@.len() == 1 && cell_pieces_view(r@[0]@) == seq![(empty_message(activity), CellTone::Muted)],
        cores@.len() > 0 ==> {
            &&& r@.len() == rows_for(cores@.len(), columns as nat)
            &&& forall|row: int|
                0 <= row < r@.len() ==> cell_pieces_view((#[trigger] r@[row])@) == grid_line_spec(
                    cores@,
                    columns as nat,
                    row as nat,
                    index_width_spec(cores@.len()),
                )
        },
{
    let mut lines: Vec<Vec<CellPiece>> = Vec::new();
    let count = cores.len();
    if count == 0 {
        let message = if activity == AppActivity::LogView {
            "Per-core usage is not recorded in logs."
        } else {
            "Per-core usage is unavailable."
        };
        let mut line: Vec<CellPiece> = Vec::new();
        line.push(CellPiece { text: chars_of(message), tone: CellTone::Muted });
        assert(cell_pieces_view(line@) =~= seq![(empty_message(activity), CellTone::Muted)]);
        lines.push(line);
        return lines;
    }
    let index_width = decimal_chars((count - 1) as u64).len();
    proof {
        lemma_decimal_nonempty((count - 1) as nat);
    }
    let mut start: usize = 0;
    let mut row: usize = 0;
    while start < count
        invariant
            count == cores@.len(),
            count > 0,
            columns >= 1,
            index_width == index_width_spec(count as nat),
            start as int == if row * columns <= count {
                row * columns
            } else {
                count as int
            },
            row == 0 || (row - 1) * columns < count,
            row <= count,
            lines@.len() == row,
            forall|k: int|
                0 <= k < lines@.len() ==> cell_pieces_view((#[trigger] lines@[k])@) == grid_line_spec(
                    cores@,
                    columns as nat,
                    k as nat,
                    index_width,
                ),
        decreases count - start,
    {
        let n = if columns <= count - start {
            columns
        } else {
            count - start
        };
        let mut line: Vec<CellPiece> = Vec::new();
        let mut c: usize = 0;
        while c < n
            invariant
                c <= n,
                start + n <= count,
                count == cores@.len(),
                cell_pieces_view(line@) == grid_cells(cores@, start as nat, c as nat, index_width),
            decreases n - c,
        {
            let ghost before = cell_pieces_view(line@);
            if c > 0 {
                line.push(CellPiece { text: chars_of("   "), tone: CellTone::Text });
            }
            let ghost with_gap = cell_pieces_view(line@);
            let mut piece = cpu_core_line(start + c, index_width, cores[start + c]);
            line.append(&mut piece);
            assert(cell_pieces_view(line@) =~= grid_cells(cores@, start as nat, (c + 1) as nat, index_width));
            c = c + 1;
        }
        assert(cell_pieces_view(line@) == grid_line_spec(cores@, columns as nat, row as nat, index_width));
        lines.push(line);
        proof {
            assert((row + 1) * columns == row * columns + columns) by (nonlinear_arith);
            assert(row <= row * columns) by (nonlinear_arith)
                requires
                    columns >= 1,
            ;
        }
        start = if columns <= count - start {
            start + columns
        } else {
            count
        };
        row = row + 1;
    }
    proof {
        lemma_rows_for(count as nat, columns as nat, row as nat);
    }
    lines
}

proof fn lemma_rows_for(n: nat, c: nat, r: nat)
    requires
        c >= 1,
        n >= 1,
        r == 0 || (r - 1) * c < n,
        r * c >= n,
    ensures
        r == rows_for(n, c),
{
    let q = (n + c - 1) / c as int;
    assert(r >= 1) by (nonlinear_arith)
        requires
            r * c >= n,
            n >= 1,
    ;
    assert(q * c <= n + c - 1 < (q + 1) * c) by (nonlinear_arith)
        requires
            q == (n + c - 1) / c as int,
            c >= 1,
    ;
    assert(r == q) by (nonlinear_arith)
        requires
            (r - 1) * c < n,
            r * c >= n,
            q * c <= n + c - 1,
            n + c - 1 < (q + 1) * c,
            c >= 1,
            r >= 1,
    ;
}


/// The footer's shortcuts: key and what it does.
pub open spec fn footer_items() -> Seq<(Seq<char>, Seq<char>)> {
    seq![("↑/↓"@, "Rows"@), ("PgUp/PgDn"@, "Page"@), ("Home/End"@, "Edge"@), ("Enter/Esc"@, "Close"@)]
}

/// The characters the footer needs: each key, a space and its label, with
/// two characters between shortcuts.
pub open spec fn footer_width_of(items: Seq<(Seq<char>, Seq<char>)>) -> int
    decreases items.len(),
{
    if items.len() == 0 {
        0
    } else {
        let last = items.last();
        footer_width_of(items.drop_last()) + (if items.len() > 1 {
            2int
        } else {
            0int
        }) + last.0.len() + 1 + last.1.len()
    }
}

/// The characters the dialog's footer needs.
pub fn footer_width() -> (r: usize)
    ensures
        r == footer_width_of(footer_items()),
{
    let k0 = chars_of("↑/↓");
    let l0 = chars_of("Rows");
    let k1 = chars_of("PgUp/PgDn");
    let l1 = chars_of("Page");
    let k2 = chars_of("Home/End");
    let l2 = chars_of("Edge");
    let k3 = chars_of("Enter/Esc");
    let l3 = chars_of("Close");
    let ghost items = footer_items();
    assert(items.drop_last().drop_last().drop_last().drop_last() =~= Seq::<(Seq<char>, Seq<char>)>::empty());
    assert(items.drop_last().drop_last().drop_last().last() == ("↑/↓"@, "Rows"@));
    assert(items.drop_last().drop_last().last() == ("PgUp/PgDn"@, "Page"@));
    assert(items.drop_last().last() == ("Home/End"@, "Edge"@));
    assert(items.last() == ("Enter/Esc"@, "Close"@));
    assert(k0.len() < 1000 && l0.len() < 1000 && k1.len() < 1000 && l1.len() < 1000) by {
        reveal_strlit("↑/↓");
        reveal_strlit("Rows");
        reveal_strlit("PgUp/PgDn");
        reveal_strlit("Page");
    }
    assert(k2.len() < 1000 && l2.len() < 1000 && k3.len() < 1000 && l3.len() < 1000) by {
        reveal_strlit("Home/End");
        reveal_strlit("Edge");
        reveal_strlit("Enter/Esc");
        reveal_strlit("Close");
    }
    let ghost i1 = items.drop_last().drop_last().drop_last();
    let ghost i2 = items.drop_last().drop_last();
    let ghost i3 = items.drop_last();
    assert(i1.drop_last() =~= Seq::<(Seq<char>, Seq<char>)>::empty());
    assert(i1.len() == 1 && i2.len() == 2 && i3.len() == 3);
    assert(footer_width_of(i1.drop_last()) == 0);
    assert(i1.last() == ("↑/↓"@, "Rows"@));
    assert(k0@.len() == "↑/↓"@.len() && l0@.len() == "Rows"@.len());
    assert(k1@.len() == "PgUp/PgDn"@.len() && l1@.len() == "Page"@.len());
    assert(k2@.len() == "Home/End"@.len() && l2@.len() == "Edge"@.len());
    assert(k3@.len() == "Enter/Esc"@.len() && l3@.len() == "Close"@.len());
    assert(i2.drop_last() =~= i1);
    assert(i3.drop_last() =~= i2);
    assert(footer_width_of(i1) == k0.len() + 1 + l0.len());
    assert(footer_width_of(i2) == footer_width_of(i1) + 2 + k1.len() + 1 + l1.len());
    assert(footer_width_of(i3) == footer_width_of(i2) + 2 + k2.len() + 1 + l2.len());
    assert(footer_width_of(items) == footer_width_of(i3) + 2 + k3.len() + 1 + l3.len());
    (k0.len() + 1 + l0.len()) + (2 + k1.len() + 1 + l1.len()) + (2 + k2.len() + 1 + l2.len()) + (2 + k3.len() + 1
        + l3.len())
}

/// The characters of a core's cell when its index is widest, as the layout
/// measures it: `CPU 0 (-)  100%` with the index field `index_width` wide.
pub open spec fn cell_width_spec(count: nat) -> int {
    ("CPU "@ + pad_left(decimal(0), index_width_spec(count) as nat) + " (-)  100%"@).len() as int
}

/// The most columns the dialog asks for: the cores, from one to four.
pub open spec fn preferred_columns(count: nat) -> int {
    if count < 1 {
        1
    } else if count > 4 {
        4
    } else {
        count as int
    }
}

/// The width the dialog asks for: the grid at its preferred columns, or the
/// footer, or 39, whichever is widest, taken as `u16`.
pub open spec fn dialog_width_spec(count: nat, footer: int) -> u16 {
    let p = preferred_columns(count);
    let grid = p * cell_width_spec(count) + (p - 1) * 3;
    let w = if grid > footer {
        grid
    } else {
        footer
    };
    let w = if w > 39 {
        w
    } else {
        39
    };
    w as u16
}

/// The columns that fit in `available` cells, from one to the preferred
/// number.
pub open spec fn grid_columns(count: nat, available: u16) -> int {
    let fit = (available + 3) / (cell_width_spec(count) + 3);
    let p = preferred_columns(count);
    if fit < 1 {
        1
    } else if fit > p {
        p
    } else {
        fit
    }
}

fn cell_width(count: usize) -> (r: u128)
    ensures
        r == cell_width_spec(count as nat),
        r <= usize::MAX,
{
    let index_width = decimal_chars((if count > 0 {
        count - 1
    } else {
        0
    }) as u64).len();
    let head = concat_chars(chars_of("CPU "), pad_left_chars(decimal_chars(0), index_width).as_slice());
    let cell = concat_chars(head, chars_of(" (-)  100%").as_slice());
    cell.len() as u128
}

/// The modal the dialog asks for before its columns are known: titled
/// `PER-CORE CPU USAGE`, `dialog_width_spec` wide, one row high, with a
/// one-line footer.
pub fn cpu_core_dialog_modal(count: usize) -> (r: ScrollableModal)
    ensures
        r.title@ == "PER-CORE CPU USAGE"@,
        r.content_width == dialog_width_spec(count as nat, footer_width_of(footer_items())),
        r.content_height == 1,
        r.footer_height == 1,
        r.top_left_below == None::<u16>,
{
    let cw = cell_width(count);
    let p: u128 = if count < 1 {
        1
    } else if count > 4 {
        4
    } else {
        count as u128
    };
    assert(p * cw <= 4 * 0x1_0000_0000_0000_0000) by (nonlinear_arith)
        requires
            p <= 4,
            cw <= 0x1_0000_0000_0000_0000,
    ;
    let grid = p * cw + (p - 1) * 3;
    let footer = footer_width() as u128;
    let w = if grid > footer {
        grid
    } else {
        footer
    };
    let w = if w > 39 {
        w
    } else {
        39
    };
    ScrollableModal::new("PER-CORE CPU USAGE", #[verifier::truncate] (w as u16), 1, 1)
}

/// The dialog's modal and columns once the width of its content area is
/// known: the content is as many rows as the cores need, from 1 to
/// `u16::MAX`.
pub fn cpu_core_dialog_grid(count: usize, available_width: u16) -> (r: (ScrollableModal, usize))
    ensures
        r.1 == grid_columns(count as nat, available_width),
        r.0.title@ == "PER-CORE CPU USAGE"@,
        r.0.content_width == dialog_width_spec(count as nat, footer_width_of(footer_items())),
        r.0.footer_height == 1,
        r.0.top_left_below == None::<u16>,
        r.0.content_height as int == {
            let rows = rows_for(count as nat, r.1 as nat);
            if rows < 1 {
                1
            } else if rows > u16::MAX {
                u16::MAX as int
            } else {
                rows as int
            }
        },
{
    let mut modal = cpu_core_dialog_modal(count);
    let cw = cell_width(count);
    let p: u128 = if count < 1 {
        1
    } else if count > 4 {
        4
    } else {
        count as u128
    };
    let fit = (available_width as u128 + 3) / (cw + 3);
    let columns: u128 = if fit < 1 {
        1
    } else if fit > p {
        p
    } else {
        fit
    };
    let columns = columns as usize;
    proof {
        let c = columns as int;
        let n = count as int;
        if n % c != 0 {
            assert(n / c + 1 <= n) by (nonlinear_arith)
                requires
                    c >= 2,
                    n % c != 0,
                    n >= 0,
            ;
        }
    }
    let rows = if count % columns == 0 {
        count / columns
    } else {
        count / columns + 1
    };
    proof {
        let c = columns as int;
        let n = count as int;
        assert(rows as int == (n + c - 1) / c) by (nonlinear_arith)
            requires
                c >= 1,
                n >= 0,
                rows as int == n / c + if n % c == 0 {
                    0int
                } else {
                    1int
                },
        ;
    }
    modal.content_height = if rows < 1 {
        1
    } else if rows > 65535 {
        65535
    } else {
        rows as u16
    };
    (modal, columns)
}

/// The rows of the dialog's content once the width of its content area is
/// known.
pub fn cpu_core_dialog_total_rows(count: usize, available_width: u16) -> (r: usize)
    ensures
        r as int == {
            let rows = rows_for(count as nat, grid_columns(count as nat, available_width) as nat);
            if rows < 1 {
                1
            } else if rows > u16::MAX {
                u16::MAX as int
            } else {
                rows as int
            }
        },
{
    let (modal, _) = cpu_core_dialog_grid(count, available_width);
    modal.content_height as usize
}

proof fn lemma_cell_width_positive(count: nat)
    ensures
        cell_width_spec(count) >= 1,
{
    lemma_decimal_nonempty(0);
    let iw = index_width_spec(count) as nat;
    assert(pad_left(decimal(0), iw).len() >= decimal(0).len());
}

/// Law: the columns chosen fit: several columns of cells with their gaps
/// never need more than the available width, and one more column would not
/// fit unless the preferred number of columns is reached.
pub proof fn law_grid_columns_fit_the_width(count: nat, available: u16)
    ensures
        ({
            let c = grid_columns(count, available);
            let w = cell_width_spec(count);
            &&& c > 1 ==> c * w + (c - 1) * 3 <= available
            &&& c < preferred_columns(count) ==> (c + 1) * w + c * 3 > available
        }),
{
    lemma_cell_width_positive(count);
    let c = grid_columns(count, available);
    let w = cell_width_spec(count);
    let a = available as int;
    let fit = (a + 3) / (w + 3);
    assert(fit * (w + 3) <= a + 3 < (fit + 1) * (w + 3)) by (nonlinear_arith)
        requires
            w >= 1,
            fit == (a + 3) / (w + 3),
            a >= 0,
    ;
    if c > 1 {
        assert(c <= fit);
        assert(c * w + (c - 1) * 3 <= a) by (nonlinear_arith)
            requires
                c <= fit,
                fit * (w + 3) <= a + 3,
                c >= 1,
                w >= 1,
        ;
    }
    if c < preferred_columns(count) {
        assert(c == fit || (c == 1 && fit < 1));
        assert((c + 1) * w + c * 3 > a) by (nonlinear_arith)
            requires
                c == fit || (c == 1 && fit < 1),
                a + 3 < (fit + 1) * (w + 3),
                fit >= 0,
                w >= 1,
        ;
    }
}

/// Law: the grid uses at least one column and no more than the preferred
/// number, and its rows hold every core.
pub proof fn law_grid_holds_every_core(count: nat, available: u16)
    ensures
        1 <= grid_columns(count, available) <= preferred_columns(count) <= 4,
        rows_for(count, grid_columns(count, available) as nat) * grid_columns(count, available) >= count,
{
    let c = grid_columns(count, available);
    let q = rows_for(count, c as nat);
    assert(q * c >= count) by (nonlinear_arith)
        requires
            c >= 1,
            q == (count + c - 1) / c,
    ;
}

} // verus!
