//! The pieces that screen updates are put together from: numbered rows, blanked
//! areas and ruled lines.

use crate::colors::Rgb;
use crate::draw::{fg, put, views, Draw, DrawView};
use crate::text::{decimal, push_decimal};
use vstd::prelude::*;

verus! {

/// `n` times the character `c`.
pub open spec fn repeated(c: char, n: nat) -> Seq<char> {
    Seq::new(n, |i: int| c)
}

/// What parts a track's number from its name: a dot, with a space behind it where
/// the row is `spaced`.
pub open spec fn dot(spaced: bool) -> Seq<char> {
    if spaced {
        seq!['.', ' ']
    } else {
        seq!['.']
    }
}

/// The text of a row of the list: the track's number, a dot, its name, and `pad`
/// spaces that wipe out what a longer text left behind.
pub open spec fn row_text(number: nat, spaced: bool, name: Seq<char>, pad: nat) -> Seq<char> {
    decimal(number) + dot(spaced) + name + repeated(' ', pad)
}

/// What paints a row of the list on screen row `row`, in the color `paint` or, with
/// none, in the terminal's own.
pub open spec fn row_draw(
    row: u16,
    paint: Option<Rgb>,
    number: nat,
    spaced: bool,
    name: Seq<char>,
    pad: nat,
) -> Seq<DrawView> {
    seq![DrawView::Goto(3, row), fg(paint), DrawView::Text(row_text(number, spaced, name, pad))]
}

/// What blanks the columns `x0` to `x1` of row `y`, one by one.
pub open spec fn clear_row(x0: int, x1: int, y: u16) -> Seq<DrawView>
    decreases x1 - x0 + 1,
{
    if x1 < x0 {
        Seq::empty()
    } else {
        clear_row(x0, x1 - 1, y).push(DrawView::Goto(x1 as u16, y)).push(DrawView::Text(seq![' ']))
    }
}

/// What blanks the columns `x0` to `x1` of the rows `y0` to `y1`, row by row.
pub open spec fn clear_rows(x0: int, x1: int, y0: int, y1: int) -> Seq<DrawView>
    decreases y1 - y0 + 1,
{
    if y1 < y0 {
        Seq::empty()
    } else {
        clear_rows(x0, x1, y0, y1 - 1) + clear_row(x0, x1, y1 as u16)
    }
}

/// What draws the two upright borders of a screen `width` wide, on the rows 1 to `rows`.
pub open spec fn borders(width: u16, rows: int) -> Seq<DrawView>
    decreases rows,
{
    if rows <= 0 {
        Seq::empty()
    } else {
        borders(width, rows - 1).push(DrawView::Goto(1, rows as u16)).push(
            DrawView::Text(seq!['|']),
        ).push(DrawView::Goto(width, rows as u16)).push(DrawView::Text(seq!['|']))
    }
}

/// Appends `n` times the character `c` to `s`.
pub fn push_repeated(s: &mut String, c: char, n: usize)
    ensures
        final(s)@ == old(s)@ + repeated(c, n as nat),
{
    let mut i: usize = 0;
    assert(s@ =~= old(s)@ + repeated(c, 0));
    while i < n
        invariant
            i <= n,
            s@ == old(s)@ + repeated(c, i as nat),
        decreases n - i,
    {
        s.push(c);
        i += 1;
        assert(s@ =~= old(s)@ + repeated(c, i as nat));
    }
}

/// The text of a row of the list.
pub fn row_string(number: u16, spaced: bool, name: &str, pad: usize) -> (s: String)
    ensures
        s@ == row_text(number as nat, spaced, name@, pad as nat),
{
    let mut s = String::new();
    push_decimal(&mut s, number as u64);
    s.push('.');
    if spaced {
        s.push(' ');
    }
    assert(s@ =~= decimal(number as nat) + dot(spaced));
    s.append(name);
    push_repeated(&mut s, ' ', pad);
    s
}

/// Appends to `out` what paints a row of the list.
pub fn put_row(
    out: &mut Vec<Draw>,
    row: u16,
    paint: Option<Rgb>,
    number: u16,
    spaced: bool,
    name: &str,
    pad: usize,
)
    ensures
        views(final(out)@) == views(old(out)@) + row_draw(
            row,
            paint,
            number as nat,
            spaced,
            name@,
            pad as nat,
        ),
{
    put(out, Draw::Goto(3, row));
    match paint {
        Some(c) => put(out, Draw::Fg(c)),
        None => put(out, Draw::FgReset),
    }
    put(out, Draw::Text(row_string(number, spaced, name, pad)));
    assert(views(out@) =~= views(old(out)@) + row_draw(
        row,
        paint,
        number as nat,
        spaced,
        name@,
        pad as nat,
    ));
}

/// Appends to `out` what blanks the columns `start_x` to `fin_x` of the rows
/// `start_y` to `fin_y`.
pub fn clear_area(out: &mut Vec<Draw>, start_x: u16, start_y: u16, fin_x: u16, fin_y: u16)
    ensures
        views(final(out)@) == views(old(out)@) + clear_rows(
            start_x as int,
            fin_x as int,
            start_y as int,
            fin_y as int,
        ),
{
    let ghost before = views(out@);
    let mut line: u32 = start_y as u32;
    assert(views(out@) =~= before + clear_rows(
        start_x as int,
        fin_x as int,
        start_y as int,
        line - 1,
    ));
    while line <= fin_y as u32
        invariant
            start_y <= line <= fin_y + 1 || line == start_y,
            views(out@) == before + clear_rows(
                start_x as int,
                fin_x as int,
                start_y as int,
                line - 1,
            ),
        decreases fin_y + 1 - line,
    {
        let ghost done = views(out@);
        let mut column: u32 = start_x as u32;
        assert(views(out@) =~= done + clear_row(start_x as int, column - 1, line as u16));
        while column <= fin_x as u32
            invariant
                start_x <= column <= fin_x + 1 || column == start_x,
                line <= fin_y,
                views(out@) == done + clear_row(start_x as int, column - 1, line as u16),
            decreases fin_x + 1 - column,
        {
            put(out, Draw::Goto(column as u16, line as u16));
            let mut blank = String::new();
            blank.push(' ');
            assert(blank@ =~= seq![' ']);
            put(out, Draw::Text(blank));
            column += 1;
            assert(views(out@) =~= done + clear_row(start_x as int, column - 1, line as u16));
        }
        line += 1;
        assert(views(out@) =~= before + clear_rows(
            start_x as int,
            fin_x as int,
            start_y as int,
            line - 1,
        ));
    }
}

/// The length of a ruled line on a screen `width` wide: one short of the width.
pub open spec fn line_length(width: u16) -> nat {
    if width == 0 {
        0
    } else {
        (width - 1) as nat
    }
}

/// Appends to `out` a ruled line of the character `c` for a screen `term_width` wide.
pub fn draw_horizontal_lines(out: &mut Vec<Draw>, term_width: u16, c: char)
    ensures
        views(final(out)@) == views(old(out)@).push(
            DrawView::Text(repeated(c, line_length(term_width))),
        ),
{
    let mut line = String::new();
    push_repeated(&mut line, c, term_width.saturating_sub(1) as usize);
    assert(line@ =~= repeated(c, line_length(term_width)));
    put(out, Draw::Text(line));
}

/// Appends to `out` what draws the two upright borders of a screen `width` wide and
/// `height` high, in the terminal's own colors.
pub fn draw_vertical_lines(out: &mut Vec<Draw>, width: u16, height: u16)
    ensures
        views(final(out)@) == views(old(out)@).push(DrawView::FgReset).push(DrawView::BgReset)
            + borders(width, height as int),
{
    put(out, Draw::FgReset);
    put(out, Draw::BgReset);
    let ghost before = views(out@);
    let mut i: u32 = 1;
    assert(views(out@) =~= before + borders(width, 0));
    while i <= height as u32
        invariant
            1 <= i <= height + 1,
            views(out@) == before + borders(width, i - 1),
        decreases height + 1 - i,
    {
        put(out, Draw::Goto(1, i as u16));
        let mut bar = String::new();
        bar.push('|');
        assert(bar@ =~= seq!['|']);
        put(out, Draw::Text(bar));
        put(out, Draw::Goto(width, i as u16));
        let mut bar = String::new();
        bar.push('|');
        assert(bar@ =~= seq!['|']);
        put(out, Draw::Text(bar));
        i += 1;
        assert(views(out@) =~= before + borders(width, i - 1));
    }
}

} // verus!
