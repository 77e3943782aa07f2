//! What a screen update is made of: cursor moves, color changes and text, in the
//! order in which they go to the terminal.

use crate::colors::Rgb;
use vstd::prelude::*;

verus! {

/// One step of a screen update.
#[derive(Clone, Debug, PartialEq, Eq)]
pub enum Draw {
    /// Move the cursor to column `x` of row `y`, both counted from 1.
    Goto(u16, u16),
    /// Write what follows in this color.
    Fg(Rgb),
    /// Write what follows in the terminal's own color.
    FgReset,
    /// Write what follows on this background.
    Bg(Rgb),
    /// Write what follows on the terminal's own background.
    BgReset,
    /// Write this text at the cursor.
    Text(String),
}

/// A step of a screen update as a plain value.
pub enum DrawView {
    Goto(u16, u16),
    Fg(Rgb),
    FgReset,
    Bg(Rgb),
    BgReset,
    Text(Seq<char>),
}

impl View for Draw {
    type V = DrawView;

    open spec fn view(&self) -> DrawView {
        match self {
            Draw::Goto(x, y) => DrawView::Goto(*x, *y),
            Draw::Fg(c) => DrawView::Fg(*c),
            Draw::FgReset => DrawView::FgReset,
            Draw::Bg(c) => DrawView::Bg(*c),
            Draw::BgReset => DrawView::BgReset,
            Draw::Text(s) => DrawView::Text(s@),
        }
    }
}

/// The steps of `ops` as plain values.
pub open spec fn views(ops: Seq<Draw>) -> Seq<DrawView> {
    Seq::new(ops.len(), |i: int| ops[i]@)
}

/// The color change that `paint` stands for: to that color, or back to the terminal's own.
pub open spec fn fg(paint: Option<Rgb>) -> DrawView {
    match paint {
        Some(c) => DrawView::Fg(c),
        None => DrawView::FgReset,
    }
}

/// Appends the step `op` to `out`.
pub fn put(out: &mut Vec<Draw>, op: Draw)
    ensures
        views(final(out)@) == views(old(out)@).push(op@),
{
    out.push(op);
    assert(views(out@) =~= views(old(out)@).push(op@));
}

/// Appends the text `s` to `out`.
pub fn put_str(out: &mut Vec<Draw>, s: &str)
    ensures
        views(final(out)@) == views(old(out)@).push(DrawView::Text(s@)),
{
    put(out, Draw::Text(s.to_owned()));
}

/// Appends the steps of `more` to `out`.
pub fn put_all(out: &mut Vec<Draw>, more: Vec<Draw>)
    ensures
        views(final(out)@) == views(old(out)@) + views(more@),
{
    let ghost added = more@;
    let mut more = more;
    out.append(&mut more);
    assert(views(out@) =~= views(old(out)@) + views(added));
}

} // verus!
