//! Printable text.

use vstd::prelude::*;
use crate::grid::{
    advanced_x, advanced_y, is_plain_char, is_plain_text, is_printable, is_printable_text,
    lemma_print_advances_cursor,
};
use crate::screen::{Screen, ScreenView};
use crate::text::string_of_char;

verus! {

/// Printing `n` printable characters advances the cursor by exactly `n`
/// columns: along the row where they fit on it, and round the end of each
/// row where they do not.  Size and pen stay.
pub proof fn lemma_printing_advances_cursor(v: ScreenView, text: Seq<char>)
    requires
        is_printable_text(text),
        v.grid.cols >= 1,
        v.cursor_in_bounds(),
    ensures
        v.printed(text).grid.x == advanced_x(v.grid.x, text.len(), v.grid.cols),
        v.printed(text).grid.y == advanced_y(
            v.grid.x,
            v.grid.y,
            text.len(),
            v.grid.cols,
            v.grid.rows,
        ),
        v.grid.x + text.len() <= v.grid.cols ==> v.printed(text).grid.x == v.grid.x + text.len()
            && v.printed(text).grid.y == v.grid.y,
        v.printed(text).same_size(v),
        v.printed(text).grid.pen == v.grid.pen,
{
    assert(is_plain_text(text)) by {
        assert forall|i: int| 0 <= i < text.len() implies is_plain_char(#[trigger] text[i]) by {
            assert(is_printable(text[i]));
        }
    }
    lemma_print_advances_cursor(v.grid, text);
}

/// Prints one character at the cursor.
pub fn process_print(screen: &mut Screen, ch: char)
    requires
        old(screen).wf(),
        old(screen)@.grid.rows >= 1,
    ensures
        final(screen)@ == old(screen)@.printed(seq![ch]),
        final(screen).wf(),
        final(screen)@.same_size(old(screen)@),
{
    let text = string_of_char(ch);
    screen.print(text.as_str());
}

/// Prints a run of characters at the cursor.
pub fn process_print_string(screen: &mut Screen, str: &str)
    requires
        old(screen).wf(),
        old(screen)@.grid.rows >= 1,
    ensures
        final(screen)@ == old(screen)@.printed(str@),
        final(screen).wf(),
        final(screen)@.same_size(old(screen)@),
{
    screen.print(str);
}

} // verus!
