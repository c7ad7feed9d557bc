use vstd::prelude::*;
use vstd::arithmetic::div_mod::{lemma_div_is_ordered, lemma_mod_bound};
use crate::line_buffer::LineBuffer;

verus! {

/// Where a prompt sits on the screen, fixed for the life of one prompt: the
/// row on which it began, and the width in characters of its prefix.
#[derive(Clone, Copy, Debug, PartialEq, Eq, Structural)]
pub struct RenderContext {
    pub origin_row: u16,
    pub prompt_width: usize,
}

/// A place on the screen.
#[derive(Clone, Copy, Debug, PartialEq, Eq, Structural)]
pub struct Coord {
    pub column: u16,
    pub row: u16,
}

/// One primitive operation on the terminal.
#[derive(Clone, Debug)]
pub enum ScreenOp {
    MoveTo(Coord),
    SavePosition,
    RestorePosition,
    ClearFromCursorDown,
    Print(Vec<char>),
}

/// The offset of the character at `cursor` within the run made of the prompt
/// prefix followed by the line.
pub open spec fn true_position(ctx: RenderContext, cursor: int) -> int {
    ctx.prompt_width + cursor
}

/// The run wraps every `width` columns from column 0 of the origin row.
pub open spec fn column_of(ctx: RenderContext, width: int, cursor: int) -> int {
    true_position(ctx, cursor) % width
}

pub open spec fn row_of(ctx: RenderContext, width: int, cursor: int) -> int {
    ctx.origin_row + true_position(ctx, cursor) / width
}

/// The place of `cursor` can be computed and written as a screen coordinate.
pub open spec fn coord_fits(ctx: RenderContext, width: int, cursor: int) -> bool {
    &&& width > 0
    &&& true_position(ctx, cursor) <= usize::MAX
    &&& row_of(ctx, width, cursor) <= u16::MAX
}

pub open spec fn coord_at(ctx: RenderContext, width: int, cursor: int) -> Coord {
    Coord { column: column_of(ctx, width, cursor) as u16, row: row_of(ctx, width, cursor) as u16 }
}

/// The screen coordinate of the logical index `cursor_index` on a terminal
/// `width` columns wide; `None` where the width is zero or the place lies
/// beyond what a coordinate can hold.
pub fn cursor_index_to_coord(ctx: &RenderContext, width: u16, cursor_index: usize) -> (r: Option<
    Coord,
>)
    ensures
        r.is_some() == coord_fits(*ctx, width as int, cursor_index as int),
        r.is_some() ==> r == Some(coord_at(*ctx, width as int, cursor_index as int)),
{
    if width == 0 {
        return None;
    }
    let true_position = match ctx.prompt_width.checked_add(cursor_index) {
        Some(p) => p,
        None => return None,
    };
    let w = width as usize;
    let wraps = true_position / w;
    let rows_left = (u16::MAX - ctx.origin_row) as usize;
    if wraps > rows_left {
        return None;
    }
    let column = true_position % w;
    proof {
        lemma_mod_bound(true_position as int, w as int);
    }
    Some(Coord { column: column as u16, row: ctx.origin_row + wraps as u16 })
}

/// The operations of a full redraw: go to the edit point and remember it,
/// clear from the start of the line's text downward, paint the whole text
/// there, and come back to the remembered point.
pub open spec fn is_full_redraw(ops: Seq<ScreenOp>, cursor: Coord, start: Coord, text: Seq<char>) -> bool {
    &&& ops.len() == 6
    &&& ops[0] == ScreenOp::MoveTo(cursor)
    &&& ops[1] == ScreenOp::SavePosition
    &&& ops[2] == ScreenOp::MoveTo(start)
    &&& ops[3] == ScreenOp::ClearFromCursorDown
    &&& ops[4] matches ScreenOp::Print(t) && t@ == text
    &&& ops[5] == ScreenOp::RestorePosition
}

/// Moves the visible cursor to the line's insertion point, the text being
/// unchanged; `None` where that place has no coordinate.
pub fn update_cursor(ctx: &RenderContext, line: &LineBuffer, width: u16) -> (r: Option<Vec<ScreenOp>>)
    ensures
        r.is_some() == coord_fits(*ctx, width as int, line@.cursor as int),
        r matches Some(ops) ==> ops@ == seq![ScreenOp::MoveTo(coord_at(*ctx, width as int, line@.cursor as int))],
{
    match cursor_index_to_coord(ctx, width, line.cursor_index()) {
        Some(c) => {
            let mut ops: Vec<ScreenOp> = Vec::new();
            ops.push(ScreenOp::MoveTo(c));
            proof {
                assert(ops@ =~= seq![ScreenOp::MoveTo(c)]);
            }
            Some(ops)
        },
        None => None,
    }
}

/// Repaints the whole line and leaves the visible cursor at its insertion
/// point; `None` where that place has no coordinate.
pub fn redraw_buffer(ctx: &RenderContext, line: &LineBuffer, width: u16) -> (r: Option<Vec<ScreenOp>>)
    ensures
        r.is_some() == coord_fits(*ctx, width as int, line@.cursor as int),
        r matches Some(ops) ==> is_full_redraw(
            ops@,
            coord_at(*ctx, width as int, line@.cursor as int),
            coord_at(*ctx, width as int, 0),
            line@.content,
        ),
{
    let cursor = match cursor_index_to_coord(ctx, width, line.cursor_index()) {
        Some(c) => c,
        None => return None,
    };
    proof {
        lemma_div_is_ordered(
            true_position(*ctx, 0),
            true_position(*ctx, line@.cursor as int),
            width as int,
        );
    }
    let start = match cursor_index_to_coord(ctx, width, 0) {
        Some(c) => c,
        None => return None,
    };
    let mut ops: Vec<ScreenOp> = Vec::new();
    ops.push(ScreenOp::MoveTo(cursor));
    ops.push(ScreenOp::SavePosition);
    ops.push(ScreenOp::MoveTo(start));
    ops.push(ScreenOp::ClearFromCursorDown);
    ops.push(ScreenOp::Print(line.chars().clone()));
    ops.push(ScreenOp::RestorePosition);
    Some(ops)
}

} // verus!
