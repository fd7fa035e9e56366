//! Runs the actions of a command's output on a screen and crops the screen to
//! what was written on it.

use vstd::prelude::*;
use crate::cell::CellView;
use crate::constants::{
    MAX_SAVED_CURSORS, MAX_SCREEN_SIDE, SCREEN_MAX_HEIGHT, SCREEN_MAX_WIDTH,
};
use crate::pty_executor::dimension::Dimension;
use crate::escape::parser::{decoded, ActionParser};
use crate::escape::{action_views, Action, ActionView, Cursor, CSI};
use crate::grid::{blank_grid, lemma_visible_starts_in_row};
use crate::screen::{capped, has_content, row_extent, Screen, ScreenView};
use crate::terminal_builder::action::{
    action_effect, action_prints, action_reply, is_narrow_action,
    lemma_action_keeps_cursor_in_bounds,
    lemma_action_keeps_row_in_grid,
    lemma_action_keeps_saved_cursors, lemma_action_keeps_size, process_action,
    uses_saved_cursors,
};

pub mod action;
pub mod utils;

verus! {

/// The screen after a run of actions, carried out in order.
#[verifier::opaque]
pub open spec fn run_effect(v: ScreenView, actions: Seq<ActionView>) -> ScreenView
    decreases actions.len(),
{
    if actions.len() == 0 {
        v
    } else {
        run_effect(action_effect(v, actions[0]), actions.drop_first())
    }
}

/// What is sent back to the program during a run of actions: the answers to
/// each, in order.
#[verifier::opaque]
pub open spec fn run_reply(v: ScreenView, actions: Seq<ActionView>) -> Seq<u8>
    decreases actions.len(),
{
    if actions.len() == 0 {
        Seq::empty()
    } else {
        action_reply(v, actions[0]) + run_reply(
            action_effect(v, actions[0]),
            actions.drop_first(),
        )
    }
}

/// How far the content reaches to the right: the largest extent of a row.
pub open spec fn cols_extent(lines: Seq<Seq<CellView>>) -> nat
    decreases lines.len(),
{
    if lines.len() == 0 {
        0
    } else {
        let rest = cols_extent(lines.drop_last());
        if row_extent(lines.last()) > rest {
            row_extent(lines.last())
        } else {
            rest
        }
    }
}

/// How far the content reaches down: one more than the number of the last
/// row with content, 0 if no row has any.
pub open spec fn rows_extent(lines: Seq<Seq<CellView>>) -> nat
    decreases lines.len(),
{
    if lines.len() == 0 {
        0
    } else if row_extent(lines.last()) > 0 {
        lines.len()
    } else {
        rows_extent(lines.drop_last())
    }
}

/// The screen cropped to its content along the axes asked for.  The top left
/// corner stays where it is.
pub open spec fn cropped(v: ScreenView, resize_cols: bool, resize_rows: bool) -> ScreenView {
    v.resized(
        if resize_cols {
            capped(cols_extent(v.grid.lines()))
        } else {
            v.grid.cols
        },
        if resize_rows {
            rows_extent(v.grid.lines())
        } else {
            v.grid.rows
        },
    )
}

/// A run from the `i`-th action on is that action, then the run from the
/// next one on.
pub proof fn lemma_run_step(v: ScreenView, actions: Seq<ActionView>, i: int)
    requires
        0 <= i < actions.len(),
    ensures
        run_effect(v, actions.skip(i)) == run_effect(
            action_effect(v, actions[i]),
            actions.skip(i + 1),
        ),
        run_reply(v, actions.skip(i)) == action_reply(v, actions[i]) + run_reply(
            action_effect(v, actions[i]),
            actions.skip(i + 1),
        ),
{
    reveal(run_effect);
    reveal(run_reply);
    assert(actions.skip(i).drop_first() =~= actions.skip(i + 1));
}

/// A run of no actions changes nothing and sends nothing back.
pub proof fn lemma_run_end(v: ScreenView, actions: Seq<ActionView>)
    ensures
        run_effect(v, actions.skip(actions.len() as int)) == v,
        run_reply(v, actions.skip(actions.len() as int)) == Seq::<u8>::empty(),
{
    reveal(run_effect);
    reveal(run_reply);
}

#[verifier::external_type_specification]
#[verifier::external_body]
pub struct ExTemplateError(indicatif::style::TemplateError);

/// Why the screen of a command could not be built.
#[derive(Debug)]
pub enum TerminalBuilderError {
    IoError(std::io::Error),
    ProgressTemplateError(indicatif::style::TemplateError),
}

/// Whatever the actions, as long as the text they print is narrow, the
/// cursor stays within the screen, or just past the last column.
pub proof fn lemma_cursor_stays_in_bounds(v: ScreenView, actions: Seq<ActionView>)
    requires
        v.grid.cols >= 1,
        v.cursor_in_bounds(),
        forall|i: int| 0 <= i < actions.len() ==> is_narrow_action(#[trigger] actions[i]),
    ensures
        run_effect(v, actions).cursor_in_bounds(),
        run_effect(v, actions).same_size(v),
    decreases actions.len(),
{
    reveal(run_effect);
    if actions.len() > 0 {
        let next = action_effect(v, actions[0]);
        lemma_action_keeps_size(v, actions[0]);
        lemma_action_keeps_cursor_in_bounds(v, actions[0], 0);
        assert forall|i: int| 0 <= i < actions.drop_first().len() implies is_narrow_action(
            #[trigger] actions.drop_first()[i],
        ) by {
            assert(actions.drop_first()[i] == actions[i + 1]);
        }
        lemma_cursor_stays_in_bounds(next, actions.drop_first());
    }
}

/// Whatever the actions and whatever they print, the cursor stays on a row
/// of the screen and at most one column further out than just past the last
/// column.  It is that far out only after a wide cell was written in the
/// last column.
pub proof fn lemma_cursor_stays_near(v: ScreenView, actions: Seq<ActionView>)
    requires
        v.grid.cols >= 1,
        v.cursor_within(1),
    ensures
        run_effect(v, actions).cursor_within(1),
        run_effect(v, actions).same_size(v),
    decreases actions.len(),
{
    reveal(run_effect);
    if actions.len() > 0 {
        let next = action_effect(v, actions[0]);
        lemma_action_keeps_size(v, actions[0]);
        lemma_action_keeps_cursor_in_bounds(v, actions[0], 1);
        lemma_cursor_stays_near(next, actions.drop_first());
    }
}

/// Whatever the actions, the screen keeps its size and the cursor stays on
/// one of its rows.
pub proof fn lemma_cursor_stays_on_a_row(v: ScreenView, actions: Seq<ActionView>)
    requires
        v.grid.y < v.grid.rows,
    ensures
        run_effect(v, actions).grid.y < v.grid.rows,
        run_effect(v, actions).same_size(v),
    decreases actions.len(),
{
    reveal(run_effect);
    if actions.len() > 0 {
        let next = action_effect(v, actions[0]);
        lemma_action_keeps_size(v, actions[0]);
        lemma_action_keeps_row_in_grid(v, actions[0]);
        lemma_cursor_stays_on_a_row(next, actions.drop_first());
    }
}

/// Actions that neither save nor restore the cursor leave the saved cursors
/// and the size of the screen as they are.
pub proof fn lemma_run_keeps_saved_cursors(v: ScreenView, actions: Seq<ActionView>)
    requires
        forall|i: int| 0 <= i < actions.len() ==> !uses_saved_cursors(#[trigger] actions[i]),
    ensures
        run_effect(v, actions).saved == v.saved,
        run_effect(v, actions).same_size(v),
    decreases actions.len(),
{
    reveal(run_effect);
    if actions.len() > 0 {
        let next = action_effect(v, actions[0]);
        lemma_action_keeps_size(v, actions[0]);
        lemma_action_keeps_saved_cursors(v, actions[0]);
        assert forall|i: int| 0 <= i < actions.drop_first().len() implies !uses_saved_cursors(
            #[trigger] actions.drop_first()[i],
        ) by {
            assert(actions.drop_first()[i] == actions[i + 1]);
        }
        lemma_run_keeps_saved_cursors(next, actions.drop_first());
    }
}

/// The action saves the cursor.
pub open spec fn is_save(action: ActionView) -> bool {
    action matches ActionView::CSI(CSI::Cursor(c)) && c is SaveCursor
}

/// The action restores the cursor.
pub open spec fn is_restore(action: ActionView) -> bool {
    action matches ActionView::CSI(CSI::Cursor(c)) && c is RestoreCursor
}

/// The saves and restores among `actions` come in nested pairs: with `open`
/// saves open at the start, every restore closes a save that is open, no
/// save stays open at the end, and no more than `room` are open at once.
pub open spec fn is_nested(actions: Seq<ActionView>, open: nat, room: nat) -> bool
    decreases actions.len(),
{
    if actions.len() == 0 {
        open == 0
    } else if is_save(actions[0]) {
        open < room && is_nested(actions.drop_first(), open + 1, room)
    } else if is_restore(actions[0]) {
        open >= 1 && is_nested(actions.drop_first(), (open - 1) as nat, room)
    } else {
        is_nested(actions.drop_first(), open, room)
    }
}

/// Actions whose saves and restores come in nested pairs leave the saved
/// cursors that were there before the open saves as they are, and forget the
/// others.
pub proof fn lemma_nested_run_keeps_saved_cursors(
    v: ScreenView,
    actions: Seq<ActionView>,
    base: nat,
    open: nat,
    room: nat,
)
    requires
        is_nested(actions, open, room),
        v.saved.len() == base + open,
        base + room <= MAX_SAVED_CURSORS,
    ensures
        run_effect(v, actions).saved == v.saved.take(base as int),
        run_effect(v, actions).same_size(v),
    decreases actions.len(),
{
    reveal(run_effect);
    if actions.len() == 0 {
        assert(v.saved.take(base as int) =~= v.saved);
    } else {
        let next = action_effect(v, actions[0]);
        lemma_action_keeps_size(v, actions[0]);
        if is_save(actions[0]) {
            assert(next.saved == v.saved.push((v.grid.x as usize, v.grid.y as usize)));
            lemma_nested_run_keeps_saved_cursors(next, actions.drop_first(), base, open + 1, room);
            assert(next.saved.take(base as int) =~= v.saved.take(base as int));
        } else if is_restore(actions[0]) {
            assert(next.saved == v.saved.drop_last());
            lemma_nested_run_keeps_saved_cursors(
                next,
                actions.drop_first(),
                base,
                (open - 1) as nat,
                room,
            );
            assert(next.saved.take(base as int) =~= v.saved.take(base as int));
        } else {
            lemma_action_keeps_saved_cursors(v, actions[0]);
            lemma_nested_run_keeps_saved_cursors(next, actions.drop_first(), base, open, room);
        }
    }
}

/// Save the cursor, do anything in which further saves and restores come in
/// nested pairs, restore it: the cursor is where it was when it was saved,
/// the stack of saved cursors is what it was, and the restore changes no
/// cell.  This holds where the cursor was on a cell of the screen and the
/// stack has room for the saves that are open at once.
pub proof fn lemma_save_then_restore(v: ScreenView, between: Seq<ActionView>)
    requires
        v.wf(),
        v.grid.x < v.grid.cols,
        v.grid.y < v.grid.rows,
        v.saved.len() < MAX_SAVED_CURSORS,
        is_nested(between, 0, (MAX_SAVED_CURSORS - v.saved.len() - 1) as nat),
    ensures
        ({
            let saved = action_effect(v, ActionView::CSI(CSI::Cursor(Cursor::SaveCursor)));
            let later = run_effect(saved, between);
            let restored = action_effect(later, ActionView::CSI(CSI::Cursor(Cursor::RestoreCursor)));
            &&& restored.grid.x == v.grid.x
            &&& restored.grid.y == v.grid.y
            &&& restored.saved == v.saved
            &&& restored.grid.cells == later.grid.cells
            &&& restored.grid.pen == later.grid.pen
        }),
{
    let saved = action_effect(v, ActionView::CSI(CSI::Cursor(Cursor::SaveCursor)));
    let room = (MAX_SAVED_CURSORS - v.saved.len() - 1) as nat;
    lemma_nested_run_keeps_saved_cursors(saved, between, v.saved.len() + 1, 0, room);
    let later = run_effect(saved, between);
    assert(saved.saved.take(v.saved.len() as int + 1) =~= saved.saved);
    assert(later.saved.last() == (v.grid.x as usize, v.grid.y as usize));
    assert(later.saved.drop_last() =~= v.saved);
}

/// Actions that neither save nor restore the cursor have their saves and
/// restores in nested pairs: there are none.
pub proof fn lemma_no_saves_are_nested(actions: Seq<ActionView>, room: nat)
    requires
        forall|i: int| 0 <= i < actions.len() ==> !uses_saved_cursors(#[trigger] actions[i]),
    ensures
        is_nested(actions, 0, room),
    decreases actions.len(),
{
    if actions.len() > 0 {
        assert(!uses_saved_cursors(actions[0]));
        assert forall|i: int| 0 <= i < actions.drop_first().len() implies !uses_saved_cursors(
            #[trigger] actions.drop_first()[i],
        ) by {
            assert(actions.drop_first()[i] == actions[i + 1]);
        }
        lemma_no_saves_are_nested(actions.drop_first(), room);
    }
}

/// The content of a row lies within its extent.
pub proof fn lemma_row_extent_covers(row: Seq<CellView>, k: int)
    requires
        0 <= k < row.len(),
        has_content(row[k]),
    ensures
        row[k].index < row_extent(row),
    decreases row.len(),
{
    if k < row.len() - 1 {
        lemma_row_extent_covers(row.drop_last(), k);
    }
}

/// The extent of a row is reached: a cell with content starts just before
/// it, unless the row has no content.
pub proof fn lemma_row_extent_is_tight(row: Seq<CellView>)
    ensures
        row_extent(row) > 0 ==> exists|k: int|
            0 <= k < row.len() && has_content(#[trigger] row[k]) && row[k].index + 1 == row_extent(
                row,
            ),
    decreases row.len(),
{
    if row.len() > 0 {
        let rest = row.drop_last();
        lemma_row_extent_is_tight(rest);
        if has_content(row.last()) && row.last().index + 1 > row_extent(rest) {
            assert(row[row.len() - 1] == row.last());
        } else if row_extent(rest) > 0 {
            let k = choose|k: int|
                0 <= k < rest.len() && has_content(#[trigger] rest[k]) && rest[k].index + 1
                    == row_extent(rest);
            assert(row[k] == rest[k]);
        }
    }
}

/// The width of every row lies within the width of the content.
pub proof fn lemma_cols_extent_covers(lines: Seq<Seq<CellView>>, r: int)
    requires
        0 <= r < lines.len(),
    ensures
        row_extent(lines[r]) <= cols_extent(lines),
    decreases lines.len(),
{
    if r < lines.len() - 1 {
        lemma_cols_extent_covers(lines.drop_last(), r);
    }
}

/// The width of the content is the width of one of the rows, unless there is
/// no row.
pub proof fn lemma_cols_extent_is_tight(lines: Seq<Seq<CellView>>)
    ensures
        cols_extent(lines) > 0 ==> exists|r: int|
            0 <= r < lines.len() && row_extent(#[trigger] lines[r]) == cols_extent(lines),
    decreases lines.len(),
{
    if lines.len() > 0 {
        let rest = lines.drop_last();
        lemma_cols_extent_is_tight(rest);
        if row_extent(lines.last()) > cols_extent(rest) {
            assert(lines[lines.len() - 1] == lines.last());
        } else if cols_extent(rest) > 0 {
            let r = choose|r: int|
                0 <= r < rest.len() && row_extent(#[trigger] rest[r]) == cols_extent(rest);
            assert(lines[r] == rest[r]);
        }
    }
}

/// Every row with content lies within the height of the content, and the
/// last row within that height has content.
pub proof fn lemma_rows_extent(lines: Seq<Seq<CellView>>)
    ensures
        rows_extent(lines) <= lines.len(),
        forall|r: int|
            0 <= r < lines.len() && row_extent(#[trigger] lines[r]) > 0 ==> r < rows_extent(
                lines,
            ),
        rows_extent(lines) > 0 ==> row_extent(lines[rows_extent(lines) - 1]) > 0,
    decreases lines.len(),
{
    if lines.len() > 0 {
        let rest = lines.drop_last();
        lemma_rows_extent(rest);
        assert forall|r: int|
            0 <= r < lines.len() && row_extent(#[trigger] lines[r]) > 0 implies r < rows_extent(
            lines,
        ) by {
            if r < rest.len() {
                assert(lines[r] == rest[r]);
            }
        }
        if !(row_extent(lines.last()) > 0) && rows_extent(rest) > 0 {
            assert(lines[rows_extent(rest) - 1] == rest[rows_extent(rest) - 1]);
        }
    }
}

/// The crop is the smallest rectangle, with its corner at the top left of
/// the screen, that holds every cell with content: each such cell starts
/// within the rectangle, some such cell starts in its last column, and some
/// such cell lies on its last row.
pub proof fn lemma_crop_is_smallest_cover(lines: Seq<Seq<CellView>>)
    ensures
        forall|r: int, k: int|
            0 <= r < lines.len() && 0 <= k < lines[r].len() && has_content(
                #[trigger] lines[r][k],
            ) ==> lines[r][k].index < cols_extent(lines) && r < rows_extent(lines),
        cols_extent(lines) > 0 ==> exists|r: int, k: int|
            0 <= r < lines.len() && 0 <= k < lines[r].len() && has_content(
                #[trigger] lines[r][k],
            ) && lines[r][k].index + 1 == cols_extent(lines),
        rows_extent(lines) > 0 ==> exists|k: int|
            0 <= k < lines[rows_extent(lines) - 1].len() && has_content(
                #[trigger] lines[rows_extent(lines) - 1][k],
            ),
{
    lemma_rows_extent(lines);
    assert forall|r: int, k: int|
        0 <= r < lines.len() && 0 <= k < lines[r].len() && has_content(
            #[trigger] lines[r][k],
        ) implies lines[r][k].index < cols_extent(lines) && r < rows_extent(lines) by {
        lemma_row_extent_covers(lines[r], k);
        lemma_cols_extent_covers(lines, r);
    }
    if cols_extent(lines) > 0 {
        lemma_cols_extent_is_tight(lines);
        let r = choose|r: int|
            0 <= r < lines.len() && row_extent(#[trigger] lines[r]) == cols_extent(lines);
        lemma_row_extent_is_tight(lines[r]);
        let k = choose|k: int|
            0 <= k < lines[r].len() && has_content(#[trigger] lines[r][k]) && lines[r][k].index
                + 1 == row_extent(lines[r]);
        assert(has_content(lines[r][k]) && lines[r][k].index + 1 == cols_extent(lines));
    }
    if rows_extent(lines) > 0 {
        let last = lines[rows_extent(lines) - 1];
        lemma_row_extent_is_tight(last);
        let k = choose|k: int|
            0 <= k < last.len() && has_content(#[trigger] last[k]) && last[k].index + 1
                == row_extent(last);
        assert(has_content(last[k]));
    }
}

/// The content of a row reaches no further than the columns in which its
/// cells start.
pub proof fn lemma_row_extent_is_bounded(row: Seq<CellView>, bound: nat)
    requires
        forall|k: int| 0 <= k < row.len() ==> (#[trigger] row[k]).index < bound,
    ensures
        row_extent(row) <= bound,
    decreases row.len(),
{
    if row.len() > 0 {
        assert forall|k: int| 0 <= k < row.drop_last().len() implies (#[trigger] row.drop_last()[k]).index
            < bound by {
            assert(row.drop_last()[k] == row[k]);
        }
        lemma_row_extent_is_bounded(row.drop_last(), bound);
        assert(row.last() == row[row.len() - 1]);
    }
}

/// The content reaches no further right than any row does.
pub proof fn lemma_cols_extent_is_bounded(lines: Seq<Seq<CellView>>, bound: nat)
    requires
        forall|r: int| 0 <= r < lines.len() ==> row_extent(#[trigger] lines[r]) <= bound,
    ensures
        cols_extent(lines) <= bound,
    decreases lines.len(),
{
    if lines.len() > 0 {
        assert forall|r: int| 0 <= r < lines.drop_last().len() implies row_extent(
            #[trigger] lines.drop_last()[r],
        ) <= bound by {
            assert(lines.drop_last()[r] == lines[r]);
        }
        lemma_cols_extent_is_bounded(lines.drop_last(), bound);
        assert(lines.last() == lines[lines.len() - 1]);
    }
}

/// On a well-formed screen the content reaches at most two columns past the
/// last one.  So the crop is as wide as the content reaches, with no cap, on
/// every screen that is at least two columns narrower than a screen can be:
/// on every screen as large as a pseudo-terminal.
pub proof fn lemma_crop_width_is_the_extent(v: ScreenView)
    requires
        v.wf(),
    ensures
        cols_extent(v.grid.lines()) <= v.grid.cols + 2,
        v.grid.cols + 2 <= MAX_SCREEN_SIDE ==> capped(cols_extent(v.grid.lines())) == cols_extent(
            v.grid.lines(),
        ),
{
    let lines = v.grid.lines();
    let bound = v.grid.cols + 2;
    assert forall|r: int| 0 <= r < lines.len() implies row_extent(#[trigger] lines[r])
        <= bound by {
        lemma_visible_starts_in_row(v.grid.cells[r], 0);
        lemma_row_extent_is_bounded(lines[r], v.grid.cells[r].len());
    }
    lemma_cols_extent_is_bounded(lines, bound);
}

/// The crop keeps the top left corner: every cell of the cropped screen is
/// the cell that was at its place before.
pub proof fn lemma_crop_keeps_cells(v: ScreenView, resize_cols: bool, resize_rows: bool)
    requires
        v.wf(),
    ensures
        ({
            let c = cropped(v, resize_cols, resize_rows);
            &&& c.grid.rows <= v.grid.rows
            &&& c.grid.cells.len() == c.grid.rows
            &&& forall|r: int, k: int|
                0 <= r < c.grid.rows && 0 <= k < c.grid.cols && k < v.grid.cols
                    ==> c.grid.cells[r].len() == c.grid.cols && #[trigger] c.grid.cells[r][k]
                    == v.grid.cells[r][k]
        }),
{
    lemma_rows_extent(v.grid.lines());
}

/// Builds the screen that a command's output leaves behind.
pub struct TerminalBuilder {
    screen: Screen,
    parser: ActionParser,
}

impl View for TerminalBuilder {
    type V = ScreenView;

    closed spec fn view(&self) -> ScreenView {
        self.screen@
    }
}

/// The screen at the end of a run: cropped along each axis whose dimension
/// was left open.
pub open spec fn finished(v: ScreenView, cols: Dimension, rows: Dimension) -> ScreenView {
    if cols is Auto || rows is Auto {
        cropped(v, cols is Auto, rows is Auto)
    } else {
        v
    }
}

/// The blank screen that a run starts with.  A dimension left open takes the
/// largest size supported, 250 columns or 500 rows.
pub open spec fn initial_screen(cols: Dimension, rows: Dimension) -> ScreenView {
    ScreenView {
        grid: blank_grid(
            cols.resolve(SCREEN_MAX_WIDTH) as nat,
            rows.resolve(SCREEN_MAX_HEIGHT) as nat,
        ),
        saved: Seq::empty(),
    }
}

impl TerminalBuilder {
    /// The screen is well formed.
    pub open spec fn wf(&self) -> bool {
        self@.wf()
    }

    /// The pieces of output taken in so far, in order.
    pub closed spec fn fed(&self) -> Seq<Seq<u8>> {
        self.parser.fed()
    }

    /// A builder with a blank screen.  A dimension left open takes the
    /// largest size supported, 250 columns or 500 rows.
    pub fn new(cols: &Dimension, rows: &Dimension) -> (builder: TerminalBuilder)
        ensures
            builder@ == initial_screen(*cols, *rows),
            builder.fed() == Seq::<Seq<u8>>::empty(),
            builder.wf(),
    {
        let width: u16 = cols.to_u16(SCREEN_MAX_WIDTH);
        let height: u16 = rows.to_u16(SCREEN_MAX_HEIGHT);
        TerminalBuilder {
            screen: Screen::new(width as usize, height as usize),
            parser: ActionParser::new(),
        }
    }

    /// A builder that goes on from `screen`.
    pub fn with_screen(screen: Screen) -> (builder: TerminalBuilder)
        ensures
            builder@ == screen@,
            builder.fed() == Seq::<Seq<u8>>::empty(),
    {
        TerminalBuilder { screen, parser: ActionParser::new() }
    }

    /// Takes in the next piece of the command's output: decodes it, carries
    /// out the actions that it completes and returns what is to be sent back
    /// to the command.
    pub fn feed(&mut self, chunk: &[u8]) -> (reply: Vec<u8>)
        requires
            old(self).wf(),
            old(self)@.grid.rows >= 1,
        ensures
            final(self)@ == run_effect(old(self)@, decoded(old(self).fed(), chunk@)),
            reply@ == run_reply(old(self)@, decoded(old(self).fed(), chunk@)),
            final(self).fed() == old(self).fed().push(chunk@),
            final(self).wf(),
            final(self)@.same_size(old(self)@),
    {
        let mut actions: Vec<Action> = Vec::new();
        self.parser.parse(chunk, &mut actions);
        assert(action_views(actions@) =~= decoded(old(self).fed(), chunk@)) by {
            assert(action_views(Seq::<Action>::empty()) =~= Seq::<ActionView>::empty());
        }
        self.dispatch(&actions)
    }

    /// The screen that the output of a command leaves behind: the output is
    /// decoded in one piece and carried out on a blank screen, and the screen
    /// is cropped along each axis whose dimension was left open.  What would
    /// be sent back to the command is dropped.
    pub fn run(output: &[u8], cols: &Dimension, rows: &Dimension) -> (screen: Screen)
        requires
            rows.resolve(SCREEN_MAX_HEIGHT) >= 1,
        ensures
            screen@ == finished(
                run_effect(
                    initial_screen(*cols, *rows),
                    decoded(Seq::<Seq<u8>>::empty(), output@),
                ),
                *cols,
                *rows,
            ),
    {
        let mut terminal = TerminalBuilder::new(cols, rows);
        let _ = terminal.feed(output);
        terminal.finish(cols, rows)
    }

    /// Carries out `actions` in order and returns what is to be sent back to
    /// the program.
    pub fn dispatch(&mut self, actions: &Vec<Action>) -> (reply: Vec<u8>)
        requires
            old(self).wf(),
            old(self)@.grid.rows >= 1 || forall|i: int|
                0 <= i < actions@.len() ==> !action_prints(#[trigger] actions@[i]@),
        ensures
            final(self)@ == run_effect(old(self)@, action_views(actions@)),
            reply@ == run_reply(old(self)@, action_views(actions@)),
            final(self).fed() == old(self).fed(),
            final(self).wf(),
            final(self)@.same_size(old(self)@),
    {
        let ghost views = action_views(actions@);
        let mut reply: Vec<u8> = Vec::new();
        let mut i: usize = 0;
        assert(views.skip(0) =~= views);
        assert(reply@ + run_reply(self@, views) =~= run_reply(self@, views));
        while i < actions.len()
            invariant
                0 <= i <= actions.len(),
                views == action_views(actions@),
                self.fed() == old(self).fed(),
                self.wf(),
                self@.same_size(old(self)@),
                self@.grid.rows >= 1 || forall|i: int|
                    0 <= i < actions@.len() ==> !action_prints(#[trigger] actions@[i]@),
                run_effect(old(self)@, views) == run_effect(self@, views.skip(i as int)),
                run_reply(old(self)@, views) == reply@ + run_reply(self@, views.skip(i as int)),
            decreases actions.len() - i,
        {
            let ghost before = self@;
            let ghost so_far = reply@;
            let mut answer = process_action(&mut self.screen, &actions[i]);
            self.screen.forget_changes();
            proof {
                lemma_run_step(before, views, i as int);
                assert(so_far + (answer@ + run_reply(self@, views.skip(i + 1))) =~= (so_far
                    + answer@) + run_reply(self@, views.skip(i + 1)));
            }
            reply.append(&mut answer);
            i = i + 1;
        }
        proof {
            lemma_run_end(self@, views);
            assert(reply@ + Seq::<u8>::empty() =~= reply@);
        }
        reply
    }

    /// Crops the screen to its content: along the columns if `resize_cols`,
    /// along the rows if `resize_rows`.
    pub fn resize_surface(&mut self, resize_cols: bool, resize_rows: bool)
        requires
            old(self).wf(),
        ensures
            final(self)@ == cropped(old(self)@, resize_cols, resize_rows),
            resize_cols && old(self)@.grid.cols + 2 <= MAX_SCREEN_SIDE ==> final(self)@.grid.cols
                == cols_extent(old(self)@.grid.lines()),
            resize_rows ==> final(self)@.grid.rows == rows_extent(old(self)@.grid.lines()),
            final(self).fed() == old(self).fed(),
            final(self).wf(),
    {
        proof {
            lemma_crop_width_is_the_extent(self@);
        }
        let (current_cols, current_rows) = self.screen.dimensions();
        let mut max_col: usize = 0;
        let mut max_row: usize = 0;
        let mut row: usize = 0;
        let ghost lines = self@.grid.lines();
        assert(lines.take(0) =~= Seq::<Seq<CellView>>::empty());
        while row < current_rows
            invariant
                0 <= row <= current_rows,
                self.wf(),
                self@ == old(self)@,
                self.fed() == old(self).fed(),
                lines == self@.grid.lines(),
                current_rows == lines.len(),
                max_col == capped(cols_extent(lines.take(row as int))),
                max_row == rows_extent(lines.take(row as int)),
                max_col <= MAX_SCREEN_SIDE,
                max_row <= row,
            decreases current_rows - row,
        {
            let ghost before = lines.take(row as int);
            let ghost after = lines.take(row + 1);
            assert(after.drop_last() =~= before);
            assert(after.last() == lines[row as int]);
            let last_idx = self.screen.content_extent(row);
            if last_idx > max_col {
                max_col = last_idx;
            }
            if last_idx > 0 {
                max_row = row + 1;
            }
            row = row + 1;
        }
        assert(lines.take(current_rows as int) =~= lines);
        let new_cols: usize = if resize_cols {
            max_col
        } else {
            current_cols
        };
        let new_rows: usize = if resize_rows {
            max_row
        } else {
            current_rows
        };
        self.screen.resize(new_cols, new_rows);
    }

    /// Crops the screen along each axis whose dimension was left open, and
    /// hands out a copy of it.
    pub fn finish(&mut self, cols: &Dimension, rows: &Dimension) -> (screen: Screen)
        requires
            old(self).wf(),
        ensures
            final(self)@ == finished(old(self)@, *cols, *rows),
            screen@ == final(self)@,
            final(self).fed() == old(self).fed(),
            final(self).wf(),
    {
        match (cols, rows) {
            (Dimension::Auto, Dimension::Auto) => self.resize_surface(true, true),
            (Dimension::Auto, Dimension::Value(_)) => self.resize_surface(true, false),
            (Dimension::Value(_), Dimension::Auto) => self.resize_surface(false, true),
            (Dimension::Value(_), Dimension::Value(_)) => (),
        }
        self.screen.clone()
    }

    /// The screen as it is now.
    pub fn screen(&self) -> (screen: &Screen)
        ensures
            screen@ == self@,
    {
        &self.screen
    }
}

} // verus!
