//! Control sequences.

use vstd::prelude::*;
use crate::escape::{Edit, CSI};
use crate::grid::{
    is_plain_text, lemma_moved_keeps_cursor_in_bounds, lemma_put_plain_keeps_cursor_in_bounds,
    Position,
};
use crate::surface::lemma_printed_keeps_row_in_grid;
use crate::screen::{Screen, ScreenView};
use crate::terminal_builder::action::csi::cursor::{
    cursor_effect, cursor_reply, lemma_cursor_keeps_cursor_in_bounds,
    lemma_cursor_keeps_row_in_grid, process_cursor,
};
use crate::terminal_builder::action::csi::sgr::{process_sgr, sgr_effect};
use crate::text::{spaces, string_of_spaces};

pub mod cursor;
pub mod sgr;

verus! {

/// How many characters an erase of `n` characters writes: `n`, or as many as
/// a string can hold.
pub open spec fn erase_count(n: u32) -> nat {
    if n <= isize::MAX {
        n as nat
    } else {
        isize::MAX as nat
    }
}

/// The screen after an erase of `n` characters: that many spaces are written
/// at the cursor, with the pen, and the cursor goes back to where it was.
/// An erase of no character changes nothing.
pub open spec fn erased(v: ScreenView, n: u32) -> ScreenView {
    let p = v.printed(spaces(erase_count(n)));
    if n == 0 {
        v
    } else if p.grid.x == v.grid.x && p.grid.y == v.grid.y {
        p
    } else {
        p.moved(Position::Absolute(v.grid.x as usize), Position::Absolute(v.grid.y as usize))
    }
}

/// The edit instruction prints: it erases one character or more.
pub open spec fn edit_prints(edit: Edit) -> bool {
    edit matches Edit::EraseCharacter(n) && n >= 1
}

/// The control sequence prints: it is an edit instruction that does.
pub open spec fn csi_prints(csi: CSI) -> bool {
    csi matches CSI::Edit(edit) && edit_prints(edit)
}

/// The screen after an edit instruction.  Only the erase of characters does
/// anything.
pub open spec fn edit_effect(v: ScreenView, edit: Edit) -> ScreenView {
    match edit {
        Edit::EraseCharacter(n) => erased(v, n),
        _ => v,
    }
}

/// The screen after a control sequence.  Those that are neither about the
/// pen, nor the cursor, nor an edit do nothing.
pub open spec fn csi_effect(v: ScreenView, csi: CSI) -> ScreenView {
    match csi {
        CSI::Sgr(sgr) => sgr_effect(v, sgr),
        CSI::Cursor(cursor) => cursor_effect(v, cursor),
        CSI::Edit(edit) => edit_effect(v, edit),
        _ => v,
    }
}

/// What is sent back for a control sequence.
pub open spec fn csi_reply(v: ScreenView, csi: CSI) -> Seq<u8> {
    match csi {
        CSI::Cursor(cursor) => cursor_reply(v, cursor),
        _ => Seq::empty(),
    }
}

/// A control sequence keeps the cursor on a row of the screen.
pub proof fn lemma_csi_keeps_row_in_grid(v: ScreenView, csi: CSI)
    requires
        v.grid.y < v.grid.rows,
    ensures
        csi_effect(v, csi).grid.y < v.grid.rows,
{
    match csi {
        CSI::Sgr(sgr) => {
            assert(sgr_effect(v, sgr).with_pen(v.grid.pen) == v);
        },
        CSI::Cursor(cursor) => {
            lemma_cursor_keeps_row_in_grid(v, cursor);
        },
        CSI::Edit(Edit::EraseCharacter(n)) => {
            lemma_printed_keeps_row_in_grid(v.grid, spaces(erase_count(n)));
        },
        _ => {},
    }
}

/// A control sequence keeps the cursor on the screen, if it was no more
/// than `slack` columns past the last one.
pub proof fn lemma_csi_keeps_cursor_in_bounds(v: ScreenView, csi: CSI, slack: nat)
    requires
        v.grid.cols >= 1,
        v.cursor_within(slack),
    ensures
        csi_effect(v, csi).cursor_within(slack),
{
    match csi {
        CSI::Sgr(sgr) => {
            assert(sgr_effect(v, sgr).with_pen(v.grid.pen) == v);
        },
        CSI::Cursor(cursor) => {
            lemma_cursor_keeps_cursor_in_bounds(v, cursor, slack);
        },
        CSI::Edit(edit) => {
            lemma_edit_keeps_cursor_in_bounds(v, edit, slack);
        },
        _ => {},
    }
}

/// An edit instruction keeps the cursor on the screen, if it was no more
/// than `slack` columns past the last one.
pub proof fn lemma_edit_keeps_cursor_in_bounds(v: ScreenView, edit: Edit, slack: nat)
    requires
        v.grid.cols >= 1,
        v.cursor_within(slack),
    ensures
        edit_effect(v, edit).cursor_within(slack),
{
    match edit {
        Edit::EraseCharacter(n) => {
            let t = spaces(erase_count(n));
            assert(is_plain_text(t));
            lemma_put_plain_keeps_cursor_in_bounds(v.grid, t, slack);
            lemma_moved_keeps_cursor_in_bounds(
                v.printed(t).grid,
                Position::Absolute(v.grid.x as usize),
                Position::Absolute(v.grid.y as usize),
                slack,
            );
        },
        _ => {},
    }
}

/// An erase of characters leaves the cursor where it was, where the cursor
/// is on a cell of the screen.
pub proof fn lemma_erase_restores_cursor(v: ScreenView, n: u32)
    requires
        v.wf(),
        v.grid.x < v.grid.cols,
        v.grid.y < v.grid.rows,
    ensures
        edit_effect(v, Edit::EraseCharacter(n)).grid.x == v.grid.x,
        edit_effect(v, Edit::EraseCharacter(n)).grid.y == v.grid.y,
{
}

/// Obeys a control sequence and returns what is to be sent back.
pub fn process_csi(screen: &mut Screen, csi: &CSI) -> (reply: Vec<u8>)
    requires
        old(screen).wf(),
        csi_prints(*csi) ==> old(screen)@.grid.rows >= 1,
    ensures
        final(screen)@ == csi_effect(old(screen)@, *csi),
        reply@ == csi_reply(old(screen)@, *csi),
        final(screen).wf(),
        final(screen)@.same_size(old(screen)@),
{
    match csi {
        CSI::Sgr(sgr) => {
            process_sgr(screen, sgr);
            Vec::new()
        },
        CSI::Cursor(cursor) => process_cursor(screen, cursor),
        CSI::Edit(edit) => {
            process_edit(screen, edit);
            Vec::new()
        },
        CSI::Mode | CSI::Device | CSI::Mouse | CSI::Window | CSI::Keyboard
        | CSI::SelectCharacterPath | CSI::Unspecified => Vec::new(),
    }
}

/// Obeys an edit instruction.
pub fn process_edit(screen: &mut Screen, edit: &Edit)
    requires
        old(screen).wf(),
        edit_prints(*edit) ==> old(screen)@.grid.rows >= 1,
    ensures
        final(screen)@ == edit_effect(old(screen)@, *edit),
        final(screen).wf(),
        final(screen)@.same_size(old(screen)@),
{
    match edit {
        Edit::EraseCharacter(n) => {
            if *n == 0 {
                return;
            }
            let (x, y) = screen.cursor_position();
            let count: usize = if (*n as u64) <= (isize::MAX as u64) {
                *n as usize
            } else {
                isize::MAX as usize
            };
            let blanks = string_of_spaces(count);
            screen.print(blanks.as_str());
            let (after_x, after_y) = screen.cursor_position();
            if after_x != x || after_y != y {
                screen.move_cursor(Position::Absolute(x), Position::Absolute(y));
            }
        },
        Edit::DeleteCharacter(_) | Edit::DeleteLine(_) | Edit::EraseInLine
        | Edit::InsertCharacter(_) | Edit::InsertLine(_) | Edit::ScrollDown(_)
        | Edit::ScrollUp(_) | Edit::EraseInDisplay | Edit::Repeat(_) => {},
    }
}

} // verus!
