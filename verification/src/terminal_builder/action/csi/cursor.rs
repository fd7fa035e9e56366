//! Cursor instructions: moves, tabs, save and restore, position report.

use vstd::prelude::*;
use crate::escape::Cursor;
use crate::grid::{
    backward, backward_by, forward, forward_by, lemma_moved_keeps_cursor_in_bounds, moved,
    Position,
};
use crate::report::{encode_position_report, position_report};
use crate::screen::{Screen, ScreenView};
use crate::terminal_builder::utils::{tab_backward, tab_forward, tabulate, tabulate_back};

verus! {

/// `n` as a column or row number, or the largest there is.
pub open spec fn coordinate(n: nat) -> usize {
    if n <= usize::MAX {
        n as usize
    } else {
        usize::MAX
    }
}

/// The number under which a report names column or row `n`: counted from 1.
pub open spec fn reported(n: nat) -> u32 {
    if n < u32::MAX {
        (n + 1) as u32
    } else {
        u32::MAX
    }
}

/// The screen after a cursor instruction.
///
/// Absolute positions are counted from 0 and stop at the last column or row.
/// Relative moves stop at the edges.  A tab goes `n` tab stops right or left.
/// Next line and preceding line also go to column 0, and so does an absolute
/// line position.  Save pushes the position, restore pops it and goes there.
/// The others do nothing.
pub open spec fn cursor_effect(v: ScreenView, cursor: Cursor) -> ScreenView {
    match cursor {
        Cursor::BackwardTabulation(n) => v.moved(
            Position::Absolute(coordinate(tab_backward(v.grid.x, n as nat))),
            Position::Relative(0),
        ),
        Cursor::ForwardTabulation(n) => v.moved(
            Position::Absolute(coordinate(tab_forward(v.grid.x, n as nat))),
            Position::Relative(0),
        ),
        Cursor::CharacterAbsolute(col) | Cursor::CharacterPositionAbsolute(col) => v.moved(
            Position::Absolute(col.zero_based() as usize),
            Position::Relative(0),
        ),
        Cursor::CharacterAndLinePosition { line, col } | Cursor::Position { line, col } => v.moved(
            Position::Absolute(col.zero_based() as usize),
            Position::Absolute(line.zero_based() as usize),
        ),
        Cursor::CharacterPositionForward(n) | Cursor::Right(n) => v.moved(
            forward(n),
            Position::Relative(0),
        ),
        Cursor::CharacterPositionBackward(n) | Cursor::Left(n) => v.moved(
            backward(n),
            Position::Relative(0),
        ),
        Cursor::LinePositionForward(n) | Cursor::Down(n) => v.moved(
            Position::Relative(0),
            forward(n),
        ),
        Cursor::LinePositionBackward(n) | Cursor::Up(n) => v.moved(
            Position::Relative(0),
            backward(n),
        ),
        Cursor::LinePositionAbsolute(n) => v.moved(
            Position::Absolute(0),
            Position::Absolute(n as usize),
        ),
        Cursor::NextLine(n) => v.moved(Position::Absolute(0), forward(n)),
        Cursor::PrecedingLine(n) => v.moved(Position::Absolute(0), backward(n)),
        Cursor::SaveCursor => v.cursor_saved(),
        Cursor::RestoreCursor => v.cursor_restored(),
        Cursor::RequestActivePositionReport | Cursor::TabulationClear
        | Cursor::ActivePositionReport { .. } | Cursor::TabulationControl
        | Cursor::LineTabulation(_) | Cursor::SetTopAndBottomMargins { .. }
        | Cursor::SetLeftAndRightMargins { .. } | Cursor::CursorStyle => v,
    }
}

/// What is sent back for a cursor instruction: the position of the cursor,
/// line first and both counted from 1, for a request of it; nothing for the
/// others.
pub open spec fn cursor_reply(v: ScreenView, cursor: Cursor) -> Seq<u8> {
    match cursor {
        Cursor::RequestActivePositionReport => position_report(
            reported(v.grid.y),
            reported(v.grid.x),
        ),
        _ => Seq::empty(),
    }
}

/// A cursor instruction keeps the cursor on the screen, if it was no more
/// than `slack` columns past the last one.
pub proof fn lemma_cursor_keeps_cursor_in_bounds(v: ScreenView, cursor: Cursor, slack: nat)
    requires
        v.cursor_within(slack),
    ensures
        cursor_effect(v, cursor).cursor_within(slack),
{
    let e = cursor_effect(v, cursor);
    if cursor is SaveCursor {
        assert(e.grid == v.grid);
    } else if cursor is RestoreCursor {
        if v.saved.len() > 0 {
            let (x, y) = v.saved.last();
            lemma_moved_keeps_cursor_in_bounds(
                v.grid,
                Position::Absolute(x),
                Position::Absolute(y),
                slack,
            );
        }
    } else {
        assert(e.grid == v.grid || exists|x: Position, y: Position| e.grid == moved(v.grid, x, y))
            by {
            lemma_cursor_effect_is_a_move(v, cursor);
        }
        if e.grid != v.grid {
            let (x, y) = choose|x: Position, y: Position| e.grid == moved(v.grid, x, y);
            lemma_moved_keeps_cursor_in_bounds(v.grid, x, y, slack);
        }
    }
}

/// A cursor instruction keeps the cursor on a row of the screen.
pub proof fn lemma_cursor_keeps_row_in_grid(v: ScreenView, cursor: Cursor)
    requires
        v.grid.y < v.grid.rows,
    ensures
        cursor_effect(v, cursor).grid.y < v.grid.rows,
{
    let e = cursor_effect(v, cursor);
    if cursor is SaveCursor {
        assert(e.grid == v.grid);
    } else if cursor is RestoreCursor {
    } else {
        lemma_cursor_effect_is_a_move(v, cursor);
    }
}

/// A cursor instruction that neither saves nor restores moves the cursor or
/// does nothing.
proof fn lemma_cursor_effect_is_a_move(v: ScreenView, cursor: Cursor)
    requires
        !(cursor is SaveCursor),
        !(cursor is RestoreCursor),
    ensures
        cursor_effect(v, cursor).grid == v.grid || exists|x: Position, y: Position|
            cursor_effect(v, cursor).grid == moved(v.grid, x, y),
        cursor_effect(v, cursor).saved == v.saved,
{
    let g = cursor_effect(v, cursor).grid;
    match cursor {
        Cursor::BackwardTabulation(n) => {
            assert(g == moved(
                v.grid,
                Position::Absolute(coordinate(tab_backward(v.grid.x, n as nat))),
                Position::Relative(0),
            ));
        },
        Cursor::ForwardTabulation(n) => {
            assert(g == moved(
                v.grid,
                Position::Absolute(coordinate(tab_forward(v.grid.x, n as nat))),
                Position::Relative(0),
            ));
        },
        Cursor::CharacterAbsolute(col) | Cursor::CharacterPositionAbsolute(col) => {
            assert(g == moved(
                v.grid,
                Position::Absolute(col.zero_based() as usize),
                Position::Relative(0),
            ));
        },
        Cursor::CharacterAndLinePosition { line, col } | Cursor::Position { line, col } => {
            assert(g == moved(
                v.grid,
                Position::Absolute(col.zero_based() as usize),
                Position::Absolute(line.zero_based() as usize),
            ));
        },
        Cursor::CharacterPositionForward(n) | Cursor::Right(n) => {
            assert(g == moved(v.grid, forward(n), Position::Relative(0)));
        },
        Cursor::CharacterPositionBackward(n) | Cursor::Left(n) => {
            assert(g == moved(v.grid, backward(n), Position::Relative(0)));
        },
        Cursor::LinePositionForward(n) | Cursor::Down(n) => {
            assert(g == moved(v.grid, Position::Relative(0), forward(n)));
        },
        Cursor::LinePositionBackward(n) | Cursor::Up(n) => {
            assert(g == moved(v.grid, Position::Relative(0), backward(n)));
        },
        Cursor::LinePositionAbsolute(n) => {
            assert(g == moved(v.grid, Position::Absolute(0), Position::Absolute(n as usize)));
        },
        Cursor::NextLine(n) => {
            assert(g == moved(v.grid, Position::Absolute(0), forward(n)));
        },
        Cursor::PrecedingLine(n) => {
            assert(g == moved(v.grid, Position::Absolute(0), backward(n)));
        },
        _ => {
            assert(g == v.grid);
        },
    }
}

/// `n` as it is reported.
fn report_number(n: usize) -> (r: u32)
    ensures
        r == reported(n as nat),
        r >= 1,
{
    if n < 0xffff_ffff {
        (n + 1) as u32
    } else {
        u32::MAX
    }
}

/// The column `n` tab stops right of `x`, or the largest column there is.
fn tab_target(x: usize, n: u32) -> (r: usize)
    ensures
        r == coordinate(tab_forward(x as nat, n as nat)),
{
    let n_wide: u64 = n as u64;
    if n_wide * 8 <= (usize::MAX as u64) && x <= usize::MAX - (n as usize) * 8 {
        tabulate(x, n as usize)
    } else {
        usize::MAX
    }
}

/// Obeys a cursor instruction and returns what is to be sent back.
pub fn process_cursor(screen: &mut Screen, cursor: &Cursor) -> (reply: Vec<u8>)
    requires
        old(screen).wf(),
    ensures
        final(screen)@ == cursor_effect(old(screen)@, *cursor),
        reply@ == cursor_reply(old(screen)@, *cursor),
        final(screen).wf(),
        final(screen)@.same_size(old(screen)@),
{
    match cursor {
        Cursor::BackwardTabulation(n) => {
            let (x, _) = screen.cursor_position();
            let target: usize = if (*n as u64) * 8 <= (usize::MAX as u64) {
                tabulate_back(x, *n as usize)
            } else {
                0
            };
            screen.move_cursor(Position::Absolute(target), Position::Relative(0));
        },
        Cursor::ForwardTabulation(n) => {
            let (x, _) = screen.cursor_position();
            let target = tab_target(x, *n);
            screen.move_cursor(Position::Absolute(target), Position::Relative(0));
        },
        Cursor::CharacterAbsolute(col) | Cursor::CharacterPositionAbsolute(col) => {
            screen.move_cursor(
                Position::Absolute(col.as_zero_based() as usize),
                Position::Relative(0),
            );
        },
        Cursor::CharacterAndLinePosition { line, col } | Cursor::Position { line, col } => {
            screen.move_cursor(
                Position::Absolute(col.as_zero_based() as usize),
                Position::Absolute(line.as_zero_based() as usize),
            );
        },
        Cursor::CharacterPositionForward(n) | Cursor::Right(n) => {
            screen.move_cursor(forward_by(*n), Position::Relative(0));
        },
        Cursor::CharacterPositionBackward(n) | Cursor::Left(n) => {
            screen.move_cursor(backward_by(*n), Position::Relative(0));
        },
        Cursor::LinePositionForward(n) | Cursor::Down(n) => {
            screen.move_cursor(Position::Relative(0), forward_by(*n));
        },
        Cursor::LinePositionBackward(n) | Cursor::Up(n) => {
            screen.move_cursor(Position::Relative(0), backward_by(*n));
        },
        Cursor::LinePositionAbsolute(n) => {
            screen.move_cursor(Position::Absolute(0), Position::Absolute(*n as usize));
        },
        Cursor::NextLine(n) => {
            screen.move_cursor(Position::Absolute(0), forward_by(*n));
        },
        Cursor::PrecedingLine(n) => {
            screen.move_cursor(Position::Absolute(0), backward_by(*n));
        },
        Cursor::SaveCursor => {
            screen.save_cursor();
        },
        Cursor::RestoreCursor => {
            screen.restore_cursor();
        },
        Cursor::RequestActivePositionReport => {
            let (x, y) = screen.cursor_position();
            return encode_position_report(report_number(y), report_number(x));
        },
        Cursor::TabulationClear | Cursor::ActivePositionReport { .. } | Cursor::TabulationControl
        | Cursor::LineTabulation(_) | Cursor::SetTopAndBottomMargins { .. }
        | Cursor::SetLeftAndRightMargins { .. } | Cursor::CursorStyle => {},
    }
    Vec::new()
}

} // verus!
