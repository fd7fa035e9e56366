//! Control codes: line feed, carriage return, tab, backspace, reverse index.

use vstd::prelude::*;
use crate::escape::ControlCode;
use crate::cell::RawCell;
use crate::grid::{
    is_plain_grid, is_plain_text, lemma_put_plain_keeps_cursor_in_bounds,
    lemma_moved_keeps_cursor_in_bounds, lemma_put_printable_changes_one_cell, put_char,
    put_plain, Position,
};
use crate::screen::{Screen, ScreenView};
use crate::surface::lemma_printed_keeps_row_in_grid;
use crate::terminal_builder::utils::{tab_forward, tabulate};

verus! {

/// The screen after a line feed, vertical tab, form feed or next line: the
/// cursor is at the start of the next row, and the rows have moved up if it
/// was on the last one.
pub open spec fn new_line(v: ScreenView) -> ScreenView {
    v.printed(seq!['\r', '\n'])
}

/// The screen after a tab: the cursor is on the next tab stop, or on the last
/// column if that comes first.
pub open spec fn tabbed(v: ScreenView) -> ScreenView {
    v.moved(
        Position::Absolute(
            if tab_forward(v.grid.x, 1) <= usize::MAX {
                tab_forward(v.grid.x, 1) as usize
            } else {
                usize::MAX
            },
        ),
        Position::Relative(0),
    )
}

/// The screen after a backspace: the cursor goes one cell left, a space is
/// written there, and the cursor goes one cell left again.  On column 0 the
/// cursor stays on column 0.
pub open spec fn backspaced(v: ScreenView) -> ScreenView {
    v.moved(Position::Relative(-1isize), Position::Relative(0)).printed(seq![' ']).moved(
        Position::Relative(-1isize),
        Position::Relative(0),
    )
}

/// The screen after a reverse index: the cursor goes one row up, and on the
/// top row nothing happens.
pub open spec fn reverse_indexed(v: ScreenView) -> ScreenView {
    if v.grid.y == 0 {
        v
    } else {
        v.moved(Position::Relative(0), Position::Relative(-1isize))
    }
}

/// The control code prints: a line feed, vertical tab, form feed or next
/// line, or a backspace.
pub open spec fn control_prints(code: ControlCode) -> bool {
    code is LineFeed || code is VerticalTab || code is FormFeed || code is NEL
        || code is Backspace
}

/// The screen after a control code.  Codes other than those named here do
/// nothing.
pub open spec fn control_effect(v: ScreenView, code: ControlCode) -> ScreenView {
    match code {
        ControlCode::LineFeed | ControlCode::VerticalTab | ControlCode::FormFeed
        | ControlCode::NEL => new_line(v),
        ControlCode::CarriageReturn => v.moved(Position::Absolute(0), Position::Relative(0)),
        ControlCode::HorizontalTab => tabbed(v),
        ControlCode::Backspace => backspaced(v),
        ControlCode::RI => reverse_indexed(v),
        _ => v,
    }
}

/// A control code keeps the cursor on a row of the screen.
pub proof fn lemma_control_keeps_row_in_grid(v: ScreenView, code: ControlCode)
    requires
        v.grid.y < v.grid.rows,
    ensures
        control_effect(v, code).grid.y < v.grid.rows,
{
    match code {
        ControlCode::LineFeed | ControlCode::VerticalTab | ControlCode::FormFeed
        | ControlCode::NEL => {
            lemma_printed_keeps_row_in_grid(v.grid, seq!['\r', '\n']);
        },
        ControlCode::Backspace => {
            let left = v.moved(Position::Relative(-1isize), Position::Relative(0));
            lemma_printed_keeps_row_in_grid(left.grid, seq![' ']);
        },
        _ => {},
    }
}

/// A control code keeps the cursor on the screen, if it was no more than
/// `slack` columns past the last one.
pub proof fn lemma_control_keeps_cursor_in_bounds(v: ScreenView, code: ControlCode, slack: nat)
    requires
        v.grid.cols >= 1,
        v.cursor_within(slack),
    ensures
        control_effect(v, code).cursor_within(slack),
{
    match code {
        ControlCode::LineFeed | ControlCode::VerticalTab | ControlCode::FormFeed
        | ControlCode::NEL => {
            assert(is_plain_text(seq!['\r', '\n']));
            lemma_put_plain_keeps_cursor_in_bounds(v.grid, seq!['\r', '\n'], slack);
        },
        ControlCode::Backspace => {
            let left = v.moved(Position::Relative(-1isize), Position::Relative(0));
            assert(is_plain_text(seq![' ']));
            lemma_moved_keeps_cursor_in_bounds(
                v.grid,
                Position::Relative(-1isize),
                Position::Relative(0),
                slack,
            );
            lemma_put_plain_keeps_cursor_in_bounds(left.grid, seq![' '], slack);
            let typed = left.printed(seq![' ']);
            lemma_moved_keeps_cursor_in_bounds(
                typed.grid,
                Position::Relative(-1isize),
                Position::Relative(0),
                slack,
            );
        },
        _ => {},
    }
}

/// A tab from column `k` lands on the next multiple of 8 after `k`, where the
/// screen has that column.  The row stays.
pub proof fn lemma_tab_lands_on_next_stop(v: ScreenView)
    requires
        v.wf(),
        tab_forward(v.grid.x, 1) < v.grid.cols,
    ensures
        control_effect(v, ControlCode::HorizontalTab).grid.x % 8 == 0,
        v.grid.x < control_effect(v, ControlCode::HorizontalTab).grid.x <= v.grid.x + 8,
        control_effect(v, ControlCode::HorizontalTab).grid.y == v.grid.y,
{
}

/// A backspace on column 0 leaves the cursor on column 0 of the same row:
/// nothing wraps to the row above.
pub proof fn lemma_backspace_at_left_edge(v: ScreenView)
    requires
        v.wf(),
        v.grid.cols >= 1,
        v.grid.rows >= 1,
        v.grid.x == 0,
    ensures
        control_effect(v, ControlCode::Backspace).grid.x == 0,
        control_effect(v, ControlCode::Backspace).grid.y == v.grid.y,
{
    let t = seq![' '];
    let left = v.moved(Position::Relative(-1isize), Position::Relative(0));
    assert(is_plain_text(t));
    assert(put_plain(left.grid, t) == put_char(left.grid, ' ')) by {
        reveal_with_fuel(put_plain, 2);
        assert(t.drop_first() =~= Seq::<char>::empty());
    }
}

/// A backspace on column 0 of a screen without wide cells writes a space
/// with the pen into the first cell of the row and changes no other cell.
pub proof fn lemma_backspace_at_left_edge_blanks_one_cell(v: ScreenView)
    requires
        v.wf(),
        is_plain_grid(v.grid),
        v.grid.rows >= 1,
        v.grid.x == 0,
    ensures
        control_effect(v, ControlCode::Backspace).grid.cells == v.grid.cells.update(
            v.grid.y as int,
            v.grid.cells[v.grid.y as int].update(
                0,
                (RawCell { text: seq![' '], width: 1, attrs: v.grid.pen }),
            ),
        ),
{
    let left = v.moved(Position::Relative(-1isize), Position::Relative(0));
    assert(is_plain_text(seq![' ']));
    assert(left.grid == v.grid);
    lemma_put_printable_changes_one_cell(v.grid, ' ');
}

/// A reverse index on the top row changes nothing.
pub proof fn lemma_reverse_index_at_top(v: ScreenView)
    requires
        v.grid.y == 0,
    ensures
        control_effect(v, ControlCode::RI) == v,
{
}

/// Obeys a control code.
pub fn process_control(screen: &mut Screen, control_code: ControlCode)
    requires
        old(screen).wf(),
        control_prints(control_code) ==> old(screen)@.grid.rows >= 1,
    ensures
        final(screen)@ == control_effect(old(screen)@, control_code),
        final(screen).wf(),
        final(screen)@.same_size(old(screen)@),
{
    match control_code {
        ControlCode::LineFeed | ControlCode::VerticalTab | ControlCode::FormFeed
        | ControlCode::NEL => {
            proof {
                reveal_strlit("\r\n");
                assert("\r\n"@ =~= seq!['\r', '\n']);
            }
            screen.print("\r\n");
        },
        ControlCode::CarriageReturn => {
            screen.move_cursor(Position::Absolute(0), Position::Relative(0));
        },
        ControlCode::HorizontalTab => {
            let (x, _) = screen.cursor_position();
            let target: usize = if x <= usize::MAX - 8 {
                tabulate(x, 1)
            } else {
                usize::MAX
            };
            screen.move_cursor(Position::Absolute(target), Position::Relative(0));
        },
        ControlCode::Backspace => {
            proof {
                reveal_strlit(" ");
                assert(" "@ =~= seq![' ']);
            }
            screen.move_cursor(Position::Relative(-1isize), Position::Relative(0));
            screen.print(" ");
            screen.move_cursor(Position::Relative(-1isize), Position::Relative(0));
        },
        ControlCode::RI => {
            let (_, y) = screen.cursor_position();
            if y != 0 {
                screen.move_cursor(Position::Relative(0), Position::Relative(-1isize));
            }
        },
        _ => {},
    }
}

} // verus!
