use vstd::prelude::*;
use vstd::std_specs::iter::IteratorSpec;

verus! {

/// The number of terminal cells that ratatui's `Span::width` reports for a text.
pub uninterp spec fn span_cells(text: Seq<char>) -> nat;

/// Cells that ratatui's `Span::width` gives the text: its Unicode display width.
/// Nothing is claimed of how the width of a text relates to the widths of its
/// characters.
#[verifier::external_body]
pub(crate) fn span_width(text: &[char]) -> (w: usize)
    ensures
        w as nat == span_cells(text@),
{
    ratatui::text::Span::raw(text.iter().collect::<String>()).width()
}

/// The characters of a string, in order.
pub fn chars_of(s: &str) -> (r: Vec<char>)
    ensures
        r@ == s@,
{
    let mut out: Vec<char> = Vec::new();
    for c in it: s.chars()
        invariant
            out@ == it.history(),
    {
        out.push(c);
    }
    out
}


/// Cells of a single character, as `Span::width` reports them for it.
pub open spec fn char_cells(c: char) -> nat {
    span_cells(seq![c])
}

/// Sum of the cells of each character of a text.
pub open spec fn cells_sum(text: Seq<char>) -> nat
    decreases text.len(),
{
    if text.len() == 0 {
        0
    } else {
        char_cells(text[0]) + cells_sum(text.drop_first())
    }
}

/// How many leading characters fit in `budget` cells, taken one at a time
/// from the front and stopping at the first one that does not fit.
pub open spec fn fitting_prefix(text: Seq<char>, budget: int) -> nat
    decreases text.len(),
{
    if text.len() == 0 {
        0
    } else if char_cells(text[0]) > budget {
        0
    } else {
        1 + fitting_prefix(text.drop_first(), budget - char_cells(text[0]))
    }
}

/// How many trailing characters fit in `budget` cells, taken one at a time
/// from the back and stopping at the first one that does not fit.
pub open spec fn fitting_suffix(text: Seq<char>, budget: int) -> nat
    decreases text.len(),
{
    if text.len() == 0 {
        0
    } else if char_cells(text.last()) > budget {
        0
    } else {
        1 + fitting_suffix(text.drop_last(), budget - char_cells(text.last()))
    }
}

/// A text clipped to `width` cells: unchanged when it fits, empty for a zero
/// width, and otherwise the characters that fit in `width - 1` cells followed
/// by an ellipsis.
pub open spec fn truncated_cells(text: Seq<char>, width: nat) -> Seq<char> {
    if span_cells(text) <= width {
        text
    } else if width == 0 {
        Seq::empty()
    } else {
        text.take(fitting_prefix(text, width - 1) as int).push('…')
    }
}

/// The cell budget of the tail that a shortened name keeps.
pub open spec fn tail_budget(width: nat) -> int {
    let half = (width - 1) / 2;
    if half > 4 {
        half
    } else {
        4
    }
}

/// A name shortened to `width` cells keeping its end: unchanged when it fits,
/// clipped like `truncated_cells` below five cells, and otherwise the head
/// clipped with an ellipsis followed by the longest tail that fits in
/// `tail_budget(width)` cells.
pub open spec fn truncated_name(text: Seq<char>, width: nat) -> Seq<char> {
    if span_cells(text) <= width {
        text
    } else if width < 5 {
        truncated_cells(text, width)
    } else {
        let k = fitting_suffix(text, tail_budget(width));
        let tail = text.skip(text.len() - k);
        truncated_cells(text, (width - cells_sum(tail)) as nat) + tail
    }
}

/// The cells of one character.
pub fn char_width(c: char) -> (w: usize)
    ensures
        w as nat == char_cells(c),
{
    let one: Vec<char> = vec![c];
    assert(one@ =~= seq![c]);
    span_width(one.as_slice())
}

proof fn lemma_fitting_prefix_step(text: Seq<char>, i: int, budget: int)
    requires
        0 <= i < text.len(),
    ensures
        fitting_prefix(text.skip(i), budget) == if char_cells(text[i]) > budget {
            0
        } else {
            1 + fitting_prefix(text.skip(i + 1), budget - char_cells(text[i]))
        },
{
    assert(text.skip(i).drop_first() =~= text.skip(i + 1));
    assert(text.skip(i)[0] == text[i]);
}

/// Clips a text to `width` terminal cells, ending it with an ellipsis when
/// something had to be cut.
pub fn truncate_cells(text: &[char], width: usize) -> (r: Vec<char>)
    ensures
        r@ == truncated_cells(text@, width as nat),
{
    if span_width(text) <= width {
        return vstd::slice::slice_to_vec(text);
    }
    if width == 0 {
        return Vec::new();
    }
    let budget = width - 1;
    let mut out: Vec<char> = Vec::new();
    let mut used: usize = 0;
    let mut i: usize = 0;
    let mut done = false;
    assert(text@.skip(0) =~= text@);
    while i < text.len() && !done
        invariant
            i <= text@.len(),
            used <= budget,
            budget == width - 1,
            out@ == text@.take(i as int),
            fitting_prefix(text@, budget as int) as int == if done {
                i as int
            } else {
                i + fitting_prefix(text@.skip(i as int), budget - used)
            },
        decreases text@.len() - i + if done { 0int } else { 1int },
    {
        proof {
            lemma_fitting_prefix_step(text@, i as int, budget - used);
        }
        let cells = char_width(text[i]);
        if cells > budget - used {
            done = true;
        } else {
            out.push(text[i]);
            assert(out@ =~= text@.take(i + 1));
            used = used + cells;
            i = i + 1;
        }
    }
    proof {
        if !done {
            assert(text@.skip(i as int) =~= Seq::<char>::empty());
        }
    }
    out.push('…');
    out
}

proof fn lemma_fitting_suffix_step(text: Seq<char>, j: int, budget: int)
    requires
        0 < j <= text.len(),
    ensures
        fitting_suffix(text.take(j), budget) == if char_cells(text[j - 1]) > budget {
            0
        } else {
            1 + fitting_suffix(text.take(j - 1), budget - char_cells(text[j - 1]))
        },
{
    assert(text.take(j).drop_last() =~= text.take(j - 1));
    assert(text.take(j).last() == text[j - 1]);
}

/// Shortens a name to `width` terminal cells, keeping both its start and its
/// end with an ellipsis between them.
pub fn truncate_name(text: &[char], width: usize) -> (r: Vec<char>)
    ensures
        r@ == truncated_name(text@, width as nat),
{
    if span_width(text) <= width {
        return vstd::slice::slice_to_vec(text);
    }
    if width < 5 {
        return truncate_cells(text, width);
    }
    let half = (width - 1) / 2;
    let tb = if half > 4 {
        half
    } else {
        4
    };
    let n = text.len();
    let mut j: usize = n;
    let mut used: usize = 0;
    let mut done = false;
    assert(text@.take(n as int) =~= text@);
    assert(text@.skip(n as int) =~= Seq::<char>::empty());
    while j > 0 && !done
        invariant
            j <= n,
            n == text@.len(),
            used <= tb,
            tb == tail_budget(width as nat),
            used == cells_sum(text@.skip(j as int)),
            fitting_suffix(text@, tb as int) as int == if done {
                (n - j) as int
            } else {
                (n - j) + fitting_suffix(text@.take(j as int), tb - used)
            },
        decreases j + if done { 0int } else { 1int },
    {
        proof {
            lemma_fitting_suffix_step(text@, j as int, tb - used);
            if j == n {
                assert(text@.take(j as int) =~= text@);
            }
        }
        let cells = char_width(text[j - 1]);
        if cells > tb - used {
            done = true;
        } else {
            proof {
                assert(text@.skip(j - 1).drop_first() =~= text@.skip(j as int));
                assert(text@.skip(j - 1)[0] == text@[j - 1]);
            }
            used = used + cells;
            j = j - 1;
        }
    }
    proof {
        if !done {
            assert(text@.take(0) =~= Seq::<char>::empty());
        }
        if j == n {
            assert(text@.take(j as int) =~= text@);
        }
    }
    let mut out = truncate_cells(text, width - used);
    let ghost head = out@;
    let mut k: usize = j;
    while k < n
        invariant
            j <= k <= n,
            n == text@.len(),
            out@ == head + text@.subrange(j as int, k as int),
        decreases n - k,
    {
        out.push(text[k]);
        assert(out@ =~= head + text@.subrange(j as int, k + 1));
        k = k + 1;
    }
    assert(text@.subrange(j as int, n as int) =~= text@.skip(j as int));
    out
}

/// The decimal digit for `d` in `0..10`.
pub open spec fn digit_char(d: int) -> char {
    if d == 0 {
        '0'
    } else if d == 1 {
        '1'
    } else if d == 2 {
        '2'
    } else if d == 3 {
        '3'
    } else if d == 4 {
        '4'
    } else if d == 5 {
        '5'
    } else if d == 6 {
        '6'
    } else if d == 7 {
        '7'
    } else if d == 8 {
        '8'
    } else {
        '9'
    }
}

/// The decimal representation of a number, without leading zeros.
pub open spec fn decimal(n: nat) -> Seq<char>
    decreases n,
{
    if n < 10 {
        seq![digit_char(n as int)]
    } else {
        decimal(n / 10).push(digit_char((n % 10) as int))
    }
}

/// `n` spaces.
pub open spec fn spaces(n: nat) -> Seq<char> {
    Seq::new(n, |i: int| ' ')
}

/// A text right-aligned in a field of `width` characters, as `{:>width$}`
/// formats it.
pub open spec fn pad_left(text: Seq<char>, width: nat) -> Seq<char> {
    if text.len() < width {
        spaces((width - text.len()) as nat) + text
    } else {
        text
    }
}

fn digit(d: u64) -> (c: char)
    requires
        d < 10,
    ensures
        c == digit_char(d as int),
{
    if d == 0 {
        '0'
    } else if d == 1 {
        '1'
    } else if d == 2 {
        '2'
    } else if d == 3 {
        '3'
    } else if d == 4 {
        '4'
    } else if d == 5 {
        '5'
    } else if d == 6 {
        '6'
    } else if d == 7 {
        '7'
    } else if d == 8 {
        '8'
    } else {
        '9'
    }
}

/// The decimal digits of a number.
pub fn decimal_chars(n: u64) -> (r: Vec<char>)
    ensures
        r@ == decimal(n as nat),
    decreases n,
{
    if n < 10 {
        let r = vec![digit(n)];
        assert(r@ =~= seq![digit_char(n as int)]);
        r
    } else {
        let mut r = decimal_chars(n / 10);
        r.push(digit(n % 10));
        r
    }
}

/// `n` spaces.
pub fn space_chars(n: usize) -> (r: Vec<char>)
    ensures
        r@ == spaces(n as nat),
{
    let mut r: Vec<char> = Vec::new();
    let mut i: usize = 0;
    while i < n
        invariant
            i <= n,
            r@ == spaces(i as nat),
        decreases n - i,
    {
        r.push(' ');
        assert(r@ =~= spaces((i + 1) as nat));
        i = i + 1;
    }
    r
}

/// Right-aligns a text in a field of `width` characters.
pub fn pad_left_chars(text: Vec<char>, width: usize) -> (r: Vec<char>)
    ensures
        r@ == pad_left(text@, width as nat),
{
    if text.len() < width {
        let mut r = space_chars(width - text.len());
        let mut t = text;
        r.append(&mut t);
        r
    } else {
        text
    }
}

/// Appends the characters of `b` to `a`.
pub fn concat_chars(a: Vec<char>, b: &[char]) -> (r: Vec<char>)
    ensures
        r@ == a@ + b@,
{
    let mut r = a;
    let ghost a0 = r@;
    let mut i: usize = 0;
    while i < b.len()
        invariant
            i <= b@.len(),
            r@ == a0 + b@.take(i as int),
        decreases b@.len() - i,
    {
        r.push(b[i]);
        assert(r@ =~= a0 + b@.take(i + 1));
        i = i + 1;
    }
    assert(b@.take(b@.len() as int) =~= b@);
    r
}

} // verus!
