//! The mathematical model of a screen: a grid of cells with a cursor and a
//! pen, and what printing, moving and resizing do to it.

use vstd::prelude::*;
use vstd::arithmetic::div_mod::{
    lemma_basic_div, lemma_div_plus_one, lemma_mod_add_multiples_vanish, lemma_small_mod,
};
use crate::cell::{
    Blink, CellAttributes, CellView, ColorAttribute, Intensity, RawCell, Underline,
};

verus! {

/// Where to put the cursor along one axis.
#[derive(Debug, Clone, Copy, PartialEq, Eq)]
pub enum Position {
    /// So many cells from where it is: negative is left or up.
    Relative(isize),
    /// So many cells from the left or top edge.
    Absolute(usize),
}

/// A change of one attribute of the pen.
#[derive(Debug, Clone, Copy, PartialEq, Eq)]
pub enum AttributeChange {
    Intensity(Intensity),
    Underline(Underline),
    Blink(Blink),
    Italic(bool),
    Reverse(bool),
    StrikeThrough(bool),
    Invisible(bool),
    Foreground(ColorAttribute),
    Background(ColorAttribute),
}

/// One of the pen's four switches.
#[derive(Debug, Clone, Copy, PartialEq, Eq)]
pub enum Flag {
    Italic,
    Reverse,
    StrikeThrough,
    Invisible,
}

/// One of the pen's two colours.
#[derive(Debug, Clone, Copy, PartialEq, Eq)]
pub enum Layer {
    Foreground,
    Background,
}

/// One of the three colours of a cell.
#[derive(Debug, Clone, Copy, PartialEq, Eq)]
pub enum ColorSlot {
    Foreground,
    Background,
    Underline,
}

/// A grid of cells: its size, the cursor, the pen and, row by row from the
/// top, the cells from the left.
pub ghost struct GridView {
    pub cols: nat,
    pub rows: nat,
    pub x: nat,
    pub y: nat,
    pub pen: CellAttributes,
    pub cells: Seq<Seq<RawCell>>,
}

/// A cell that holds one space in the default colours.
pub open spec fn blank_cell() -> RawCell {
    RawCell { text: seq![' '], width: 1, attrs: CellAttributes::blank_spec() }
}

/// A row of `cols` blank cells.
pub open spec fn blank_row(cols: nat) -> Seq<RawCell> {
    Seq::new(cols, |c: int| blank_cell())
}

/// The visible cells of a row from column `start` on: the cell in that
/// column, then the visible cells after the columns it covers.  A cell that
/// covers no column counts as covering one.
pub open spec fn visible_from(row: Seq<RawCell>, start: nat) -> Seq<CellView>
    decreases
            if start < row.len() {
                row.len() - start
            } else {
                0
            },
{
    if start >= row.len() {
        Seq::empty()
    } else {
        let c = row[start as int];
        let step = if c.width >= 1 {
            c.width
        } else {
            1
        };
        seq![CellView { index: start, text: c.text, width: c.width, attrs: c.attrs }]
            + visible_from(row, start + step)
    }
}

/// The visible cells of a row, from the left.
pub open spec fn visible(row: Seq<RawCell>) -> Seq<CellView> {
    visible_from(row, 0)
}

impl GridView {
    /// The visible cells, row by row from the top.
    pub open spec fn lines(self) -> Seq<Seq<CellView>> {
        Seq::new(self.cells.len(), |r: int| visible(self.cells[r]))
    }
}

/// The grid a new screen shows: blank, cursor at the top left, default pen.
pub open spec fn blank_grid(cols: nat, rows: nat) -> GridView {
    GridView {
        cols,
        rows,
        x: 0,
        y: 0,
        pen: CellAttributes::blank_spec(),
        cells: Seq::new(rows, |r: int| blank_row(cols)),
    }
}

/// The last valid coordinate along an axis of `limit` cells; 0 on an empty axis.
pub open spec fn last_index(limit: nat) -> nat {
    if limit == 0 {
        0
    } else {
        (limit - 1) as nat
    }
}

/// The coordinate that `pos` leads to from `current` on an axis of `limit`
/// cells.  Moves forward and absolute positions stop at the last cell, moves
/// backward stop at 0.
pub open spec fn place(current: nat, pos: Position, limit: nat) -> nat {
    match pos {
        Position::Relative(d) => {
            if d >= 0 {
                if current + d <= last_index(limit) {
                    (current + d) as nat
                } else {
                    last_index(limit)
                }
            } else if current + d >= 0 {
                (current + d) as nat
            } else {
                0
            }
        },
        Position::Absolute(a) => {
            if a <= last_index(limit) {
                a as nat
            } else {
                last_index(limit)
            }
        },
    }
}

/// A move of `n` cells right or down.
pub open spec fn forward(n: u32) -> Position {
    if n <= isize::MAX {
        Position::Relative(n as isize)
    } else {
        Position::Relative(isize::MAX)
    }
}

/// A move of `n` cells left or up.
pub open spec fn backward(n: u32) -> Position {
    if n <= isize::MAX {
        Position::Relative((0 - n) as isize)
    } else {
        Position::Relative((0 - isize::MAX) as isize)
    }
}

/// Computes `forward`.
pub fn forward_by(n: u32) -> (p: Position)
    ensures
        p == forward(n),
        p matches Position::Relative(d) && d >= 0,
{
    if n as u64 <= isize::MAX as u64 {
        Position::Relative(n as isize)
    } else {
        Position::Relative(isize::MAX)
    }
}

/// Computes `backward`.
pub fn backward_by(n: u32) -> (p: Position)
    ensures
        p == backward(n),
        p matches Position::Relative(d) && isize::MIN < d <= 0,
{
    if n as u64 <= isize::MAX as u64 {
        Position::Relative(0 - (n as isize))
    } else {
        Position::Relative(0 - isize::MAX)
    }
}

/// The grid after the cursor went to `x`, `y`.
pub open spec fn moved(v: GridView, x: Position, y: Position) -> GridView {
    GridView { x: place(v.x, x, v.cols), y: place(v.y, y, v.rows), ..v }
}

/// The pen after one switch was set.
pub open spec fn with_flag(pen: CellAttributes, flag: Flag, on: bool) -> CellAttributes {
    match flag {
        Flag::Italic => CellAttributes { italic: on, ..pen },
        Flag::Reverse => CellAttributes { reverse: on, ..pen },
        Flag::StrikeThrough => CellAttributes { strikethrough: on, ..pen },
        Flag::Invisible => CellAttributes { invisible: on, ..pen },
    }
}

/// The pen after one colour was set.
pub open spec fn with_color(pen: CellAttributes, layer: Layer, color: ColorAttribute)
    -> CellAttributes {
    match layer {
        Layer::Foreground => CellAttributes { foreground: color, ..pen },
        Layer::Background => CellAttributes { background: color, ..pen },
    }
}

/// The pen after one attribute changed.
pub open spec fn with_attribute(pen: CellAttributes, change: AttributeChange) -> CellAttributes {
    match change {
        AttributeChange::Intensity(v) => CellAttributes { intensity: v, ..pen },
        AttributeChange::Underline(v) => CellAttributes { underline: v, ..pen },
        AttributeChange::Blink(v) => CellAttributes { blink: v, ..pen },
        AttributeChange::Italic(v) => with_flag(pen, Flag::Italic, v),
        AttributeChange::Reverse(v) => with_flag(pen, Flag::Reverse, v),
        AttributeChange::StrikeThrough(v) => with_flag(pen, Flag::StrikeThrough, v),
        AttributeChange::Invisible(v) => with_flag(pen, Flag::Invisible, v),
        AttributeChange::Foreground(c) => with_color(pen, Layer::Foreground, c),
        AttributeChange::Background(c) => with_color(pen, Layer::Background, c),
    }
}

/// The grid with another pen.
pub open spec fn with_pen(v: GridView, pen: CellAttributes) -> GridView {
    GridView { pen, ..v }
}

/// `c` is a printable ASCII character: space to tilde.
pub open spec fn is_printable(c: char) -> bool {
    ' ' <= c && c <= '~'
}

/// `c` is printable ASCII, a carriage return or a line feed.
pub open spec fn is_plain_char(c: char) -> bool {
    is_printable(c) || c == '\r' || c == '\n'
}

/// Every character of `t` is plain.
pub open spec fn is_plain_text(t: Seq<char>) -> bool {
    forall|i: int| 0 <= i < t.len() ==> is_plain_char(#[trigger] t[i])
}

/// There are `rows` rows of exactly `cols` cells.
pub open spec fn has_full_rows(v: GridView) -> bool {
    &&& v.cells.len() == v.rows
    &&& forall|r: int| 0 <= r < v.rows ==> (#[trigger] v.cells[r]).len() == v.cols
}

/// There are `rows` rows of exactly `cols` cells, each one column wide: no
/// wide or empty cell anywhere.
pub open spec fn is_plain_grid(v: GridView) -> bool {
    &&& v.cols >= 1
    &&& v.cells.len() == v.rows
    &&& forall|r: int| 0 <= r < v.rows ==> (#[trigger] v.cells[r]).len() == v.cols
    &&& forall|r: int, c: int|
        0 <= r < v.rows && 0 <= c < v.cols ==> (#[trigger] v.cells[r][c]).width == 1
}

/// There are `rows` rows of at least `cols` cells and at most two more, none
/// wider than two columns.
pub open spec fn is_regular_grid(v: GridView) -> bool {
    &&& v.cells.len() == v.rows
    &&& forall|r: int|
        0 <= r < v.rows ==> v.cols <= (#[trigger] v.cells[r]).len() <= v.cols + 2
    &&& forall|r: int, c: int|
        0 <= r < v.rows && 0 <= c < v.cells[r].len() ==> (#[trigger] v.cells[r][c]).width <= 2
}

/// A cell that holds one space, with the attributes of `c`.
pub open spec fn blank_like(c: RawCell) -> RawCell {
    RawCell { text: seq![' '], width: 1, attrs: c.attrs }
}

/// The row made ready for a cell to be written in column `x`: if the cell
/// before that column is wide, it and the cells it covers become spaces
/// with its attributes.
pub open spec fn cleared_before(row: Seq<RawCell>, x: int) -> Seq<RawCell> {
    if x > 0 && row[x - 1].width > 1 {
        Seq::new(
            row.len(),
            |j: int|
                if x - 1 <= j < x - 1 + row[x - 1].width {
                    blank_like(row[x - 1])
                } else {
                    row[j]
                },
        )
    } else {
        row
    }
}

/// The grid after the cursor went down one row.  On the last row the cursor
/// stays and the rows move up instead: the top row is lost and a blank one
/// comes in at the bottom.
pub open spec fn line_feed(v: GridView) -> GridView {
    if v.y + 1 >= v.rows {
        GridView { cells: v.cells.drop_first().push(blank_row(v.cols)), ..v }
    } else {
        GridView { y: v.y + 1, ..v }
    }
}

/// The grid after one plain character was printed.  A carriage return goes to
/// column 0, a line feed goes down a row.  A printable character first wraps
/// to the start of the next row if the cursor is past the last column, then
/// replaces the cell under the cursor, with the pen, and advances the cursor.
/// A wide cell just before the cursor is blanked, as it can no longer be
/// shown whole.
pub open spec fn put_char(v: GridView, c: char) -> GridView {
    if c == '\r' {
        GridView { x: 0, ..v }
    } else if c == '\n' {
        line_feed(v)
    } else {
        let w = if v.x >= v.cols {
            GridView { x: 0, ..line_feed(v) }
        } else {
            v
        };
        let cell = RawCell { text: seq![c], width: 1, attrs: w.pen };
        GridView {
            x: w.x + 1,
            cells: w.cells.update(
                w.y as int,
                cleared_before(w.cells[w.y as int], w.x as int).update(w.x as int, cell),
            ),
            ..w
        }
    }
}

/// The grid after the plain text `t` was printed, character by character.
pub open spec fn put_plain(v: GridView, t: Seq<char>) -> GridView
    decreases t.len(),
{
    if t.len() == 0 {
        v
    } else {
        put_plain(put_char(v, t[0]), t.drop_first())
    }
}

/// What printing one cluster of characters does to the cursor.
pub ghost enum Step {
    /// A carriage return: to column 0.
    Return,
    /// A line feed: down a row.
    Feed,
    /// A carriage return and a line feed in one.
    ReturnFeed,
    /// A cell of this width is written: the cursor wraps first if it is past
    /// the last column, and then goes right.
    Advance(nat),
}

/// How far the cursor goes right for a cell of width `width`: one column,
/// or two for a wide cell.
pub open spec fn stride(width: nat) -> nat {
    if width >= 2 {
        2
    } else {
        1
    }
}

/// The row of the cursor after it went down from row `y`: the next row, or
/// the same on the last row, where the rows move up instead.
pub open spec fn fed_row(y: nat, rows: nat) -> nat {
    if y + 1 >= rows {
        y
    } else {
        y + 1
    }
}

/// Column and row of the cursor after one step from column `x` of row `y`.
pub open spec fn walk_step(cols: nat, rows: nat, x: nat, y: nat, step: Step) -> (nat, nat) {
    match step {
        Step::Return => (0, y),
        Step::Feed => (x, fed_row(y, rows)),
        Step::ReturnFeed => (0, fed_row(y, rows)),
        Step::Advance(width) => if x >= cols {
            (stride(width), fed_row(y, rows))
        } else {
            (x + stride(width), y)
        },
    }
}

/// Column and row of the cursor after a run of steps, taken in order.
pub open spec fn walk(cols: nat, rows: nat, x: nat, y: nat, steps: Seq<Step>) -> (nat, nat)
    decreases steps.len(),
{
    if steps.len() == 0 {
        (x, y)
    } else {
        let next = walk_step(cols, rows, x, y, steps[0]);
        walk(cols, rows, next.0, next.1, steps.drop_first())
    }
}

/// No step writes a wide cell.
pub open spec fn all_narrow(steps: Seq<Step>) -> bool {
    forall|i: int|
        0 <= i < steps.len() ==> ((#[trigger] steps[i]) matches Step::Advance(w) ==> w <= 1)
}

/// The grid after `t` was printed.  Size and pen stay.  The cursor walks the
/// steps of the text, `steps`; for plain text that is where `put_plain`
/// leaves it.  The cells of plain text on a regular grid with at least one
/// column are those that `put_plain` leaves; other cells are taken from
/// `other`.
pub open spec fn print_model(
    v: GridView,
    t: Seq<char>,
    steps: Seq<Step>,
    other: Seq<Seq<RawCell>>,
) -> GridView {
    GridView {
        cols: v.cols,
        rows: v.rows,
        pen: v.pen,
        x: if is_plain_text(t) {
            put_plain(v, t).x
        } else {
            walk(v.cols, v.rows, v.x, v.y, steps).0
        },
        y: if is_plain_text(t) {
            put_plain(v, t).y
        } else {
            walk(v.cols, v.rows, v.x, v.y, steps).1
        },
        cells: if is_plain_text(t) && v.cols >= 1 && is_regular_grid(v) {
            put_plain(v, t).cells
        } else {
            other
        },
    }
}

/// The cells of a grid cut or padded with blank cells to `cols` by `rows`.
pub open spec fn resized_cells(v: GridView, cols: nat, rows: nat) -> Seq<Seq<RawCell>> {
    Seq::new(
        rows,
        |r: int|
            Seq::new(
                cols,
                |c: int|
                    if r < v.cells.len() && c < v.cells[r].len() {
                        v.cells[r][c]
                    } else {
                        blank_cell()
                    },
            ),
    )
}

/// The grid after a resize to `cols` by `rows`: the cells are cut or padded
/// with blank cells, and the cursor is pulled back into the grid.
pub open spec fn resize_model(v: GridView, cols: nat, rows: nat) -> GridView {
    GridView {
        cols,
        rows,
        x: if v.x <= last_index(cols) {
            v.x
        } else {
            last_index(cols)
        },
        y: if v.y <= last_index(rows) {
            v.y
        } else {
            last_index(rows)
        },
        pen: v.pen,
        cells: resized_cells(v, cols, rows),
    }
}

/// A move keeps the cursor on the grid, if it was no more than `slack`
/// columns past the last one.
pub proof fn lemma_moved_keeps_cursor_in_bounds(v: GridView, x: Position, y: Position, slack: nat)
    requires
        v.x <= v.cols + slack,
        v.y < v.rows,
    ensures
        moved(v, x, y).x <= v.cols + slack,
        moved(v, x, y).y < v.rows,
{
}

/// Steps keep the cursor on a row of the grid.
pub proof fn lemma_walk_keeps_row_in_grid(cols: nat, rows: nat, x: nat, y: nat, steps: Seq<Step>)
    requires
        y < rows,
    ensures
        walk(cols, rows, x, y, steps).1 < rows,
    decreases steps.len(),
{
    if steps.len() > 0 {
        let next = walk_step(cols, rows, x, y, steps[0]);
        lemma_walk_keeps_row_in_grid(cols, rows, next.0, next.1, steps.drop_first());
    }
}

/// Steps leave the cursor at most one column past the last, and at most on
/// it if no step writes a wide cell.
pub proof fn lemma_walk_keeps_cursor_in_bounds(
    cols: nat,
    rows: nat,
    x: nat,
    y: nat,
    steps: Seq<Step>,
    slack: nat,
)
    requires
        cols >= 1,
        x <= cols + slack,
        y < rows,
        slack >= 1 || all_narrow(steps),
    ensures
        walk(cols, rows, x, y, steps).0 <= cols + slack,
        walk(cols, rows, x, y, steps).1 < rows,
    decreases steps.len(),
{
    if steps.len() > 0 {
        let next = walk_step(cols, rows, x, y, steps[0]);
        assert(slack >= 1 || (steps[0] matches Step::Advance(w) ==> w <= 1));
        assert(slack >= 1 || all_narrow(steps.drop_first())) by {
            if slack < 1 {
                assert forall|i: int| 0 <= i < steps.drop_first().len() implies ((
                #[trigger] steps.drop_first()[i]) matches Step::Advance(w) ==> w <= 1) by {
                    assert(steps.drop_first()[i] == steps[i + 1]);
                }
            }
        }
        lemma_walk_keeps_cursor_in_bounds(cols, rows, next.0, next.1, steps.drop_first(), slack);
    }
}

/// Every character of `t` is printable ASCII.
pub open spec fn is_printable_text(t: Seq<char>) -> bool {
    forall|i: int| 0 <= i < t.len() ==> is_printable(#[trigger] t[i])
}

/// The column of the cursor after `n` printable characters were printed from
/// column `x` on a grid `cols` wide: `n` columns further, counted round the
/// rows, and never on column 0, as the cursor waits past the last column
/// before it wraps.
pub open spec fn advanced_x(x: nat, n: nat, cols: nat) -> nat {
    if n == 0 {
        x
    } else {
        ((x + n - 1) % (cols as int) + 1) as nat
    }
}

/// The row of the cursor after `n` printable characters were printed from
/// column `x` of row `y`: one row down for each wrap, but not below the last
/// row, where the rows move up instead.
pub open spec fn advanced_y(x: nat, y: nat, n: nat, cols: nat, rows: nat) -> nat {
    if n == 0 {
        y
    } else if y + (x + n - 1) / (cols as int) <= rows - 1 {
        (y + (x + n - 1) / (cols as int)) as nat
    } else {
        (rows - 1) as nat
    }
}

/// Printing plain text keeps the size of the grid and the pen.
pub proof fn lemma_put_plain_keeps_frame(v: GridView, t: Seq<char>)
    ensures
        put_plain(v, t).cols == v.cols,
        put_plain(v, t).rows == v.rows,
        put_plain(v, t).pen == v.pen,
    decreases t.len(),
{
    if t.len() > 0 {
        lemma_put_plain_keeps_frame(put_char(v, t[0]), t.drop_first());
    }
}

/// Printing one plain character on a regular grid leaves a regular grid.
pub proof fn lemma_put_char_keeps_grid_regular(v: GridView, c: char)
    requires
        is_regular_grid(v),
        v.cols >= 1,
        v.y < v.rows,
        is_plain_char(c),
    ensures
        is_regular_grid(put_char(v, c)),
        put_char(v, c).cols == v.cols,
        put_char(v, c).rows == v.rows,
        put_char(v, c).y < v.rows,
{
    let after = put_char(v, c);
    if c == '\r' {
    } else if c == '\n' {
        lemma_line_feed_keeps_grid_regular(v);
    } else {
        let w = if v.x >= v.cols {
            GridView { x: 0, ..line_feed(v) }
        } else {
            v
        };
        lemma_line_feed_keeps_grid_regular(v);
        assert(is_regular_grid(w));
        let row = w.cells[w.y as int];
        let cleared = cleared_before(row, w.x as int);
        assert(cleared.len() == row.len());
        assert forall|j: int| 0 <= j < cleared.len() implies (#[trigger] cleared[j]).width <= 2 by {
            assert(row[j].width <= 2);
        }
        assert forall|r: int, k: int|
            0 <= r < after.rows && 0 <= k < after.cells[r].len() implies (
        #[trigger] after.cells[r][k]).width <= 2 by {
            if r == w.y {
                if k != w.x {
                    assert(after.cells[r][k] == cleared[k]);
                }
            } else {
                assert(after.cells[r][k] == w.cells[r][k]);
            }
        }
        assert forall|r: int| 0 <= r < after.rows implies after.cols <= (
        #[trigger] after.cells[r]).len() <= after.cols + 2 by {
            if r != w.y {
                assert(after.cells[r] == w.cells[r]);
            }
        }
    }
}

/// A line feed on a regular grid leaves a regular grid.
pub proof fn lemma_line_feed_keeps_grid_regular(v: GridView)
    requires
        is_regular_grid(v),
        v.y < v.rows,
    ensures
        is_regular_grid(line_feed(v)),
        line_feed(v).y < v.rows,
{
    let after = line_feed(v);
    if v.y + 1 >= v.rows {
        assert forall|r: int| 0 <= r < after.rows implies after.cols <= (
        #[trigger] after.cells[r]).len() <= after.cols + 2 by {
            if r < v.rows - 1 {
                assert(after.cells[r] == v.cells[r + 1]);
            }
        }
        assert forall|r: int, k: int|
            0 <= r < after.rows && 0 <= k < after.cells[r].len() implies (
        #[trigger] after.cells[r][k]).width <= 2 by {
            if r < v.rows - 1 {
                assert(after.cells[r][k] == v.cells[r + 1][k]);
            }
        }
    }
}

/// Printing plain text on a regular grid leaves a regular grid.
pub proof fn lemma_put_plain_keeps_grid_regular(v: GridView, t: Seq<char>)
    requires
        is_regular_grid(v),
        v.cols >= 1,
        v.y < v.rows,
        is_plain_text(t),
    ensures
        is_regular_grid(put_plain(v, t)),
    decreases t.len(),
{
    if t.len() > 0 {
        assert(is_plain_char(t[0]));
        lemma_put_char_keeps_grid_regular(v, t[0]);
        assert forall|i: int| 0 <= i < t.drop_first().len() implies is_plain_char(
            #[trigger] t.drop_first()[i],
        ) by {
            assert(t.drop_first()[i] == t[i + 1]);
        }
        lemma_put_plain_keeps_grid_regular(put_char(v, t[0]), t.drop_first());
    }
}

/// A resize of a regular grid leaves a regular grid, and so is a blank grid.
pub proof fn lemma_resize_keeps_grid_regular(v: GridView, cols: nat, rows: nat)
    requires
        is_regular_grid(v),
    ensures
        is_regular_grid(resize_model(v, cols, rows)),
        is_regular_grid(blank_grid(cols, rows)),
{
}

/// Printing plain text keeps the cursor on a row of the grid.
pub proof fn lemma_put_plain_keeps_row_in_grid(v: GridView, t: Seq<char>)
    requires
        v.y < v.rows,
    ensures
        put_plain(v, t).y < v.rows,
    decreases t.len(),
{
    if t.len() > 0 {
        let w = put_char(v, t[0]);
        lemma_put_plain_keeps_frame(w, t.drop_first());
        lemma_put_plain_keeps_row_in_grid(w, t.drop_first());
    }
}

/// Printing one printable character on a grid without wide cells changes
/// the cell under the cursor and no other, where the cursor is on a cell.
pub proof fn lemma_put_printable_changes_one_cell(v: GridView, c: char)
    requires
        is_printable(c),
        is_plain_grid(v),
        v.x < v.cols,
        v.y < v.rows,
    ensures
        put_plain(v, seq![c]).cells == v.cells.update(
            v.y as int,
            v.cells[v.y as int].update(
                v.x as int,
                (RawCell { text: seq![c], width: 1, attrs: v.pen }),
            ),
        ),
        put_plain(v, seq![c]).x == v.x + 1,
        put_plain(v, seq![c]).y == v.y,
        is_plain_grid(put_plain(v, seq![c])),
{
    reveal_with_fuel(put_plain, 2);
    assert(seq![c].drop_first() =~= Seq::<char>::empty());
}

/// Printing plain text keeps the cursor on the grid, if it was no more than
/// `slack` columns past the last one.
pub proof fn lemma_put_plain_keeps_cursor_in_bounds(v: GridView, t: Seq<char>, slack: nat)
    requires
        is_plain_text(t),
        v.cols >= 1,
        v.x <= v.cols + slack,
        v.y < v.rows,
    ensures
        put_plain(v, t).x <= v.cols + slack,
        put_plain(v, t).y < v.rows,
    decreases t.len(),
{
    if t.len() > 0 {
        let w = put_char(v, t[0]);
        assert(is_plain_char(t[0]));
        assert forall|i: int| 0 <= i < t.drop_first().len() implies is_plain_char(
            #[trigger] t.drop_first()[i],
        ) by {
            assert(t.drop_first()[i] == t[i + 1]);
        }
        lemma_put_plain_keeps_frame(w, t.drop_first());
        lemma_put_plain_keeps_cursor_in_bounds(w, t.drop_first(), slack);
    }
}

/// Printing `n` printable characters advances the cursor by exactly `n`
/// columns.  Where the text fits on the row the cursor just moves right; in
/// general it wraps at the end of each row, as `advanced_x` and `advanced_y`
/// say.
pub proof fn lemma_print_advances_cursor(v: GridView, t: Seq<char>)
    requires
        is_printable_text(t),
        v.cols >= 1,
        v.x <= v.cols,
        v.y < v.rows,
    ensures
        put_plain(v, t).x == advanced_x(v.x, t.len(), v.cols),
        put_plain(v, t).y == advanced_y(v.x, v.y, t.len(), v.cols, v.rows),
        v.x + t.len() <= v.cols ==> put_plain(v, t).x == v.x + t.len() && put_plain(v, t).y
            == v.y,
    decreases t.len(),
{
    let n = t.len() as int;
    let cols = v.cols as int;
    if n > 0 {
        let w = put_char(v, t[0]);
        let rest = t.drop_first();
        assert(is_printable(t[0]));
        assert forall|i: int| 0 <= i < rest.len() implies is_printable(#[trigger] rest[i]) by {
            assert(rest[i] == t[i + 1]);
        }
        lemma_print_advances_cursor(w, rest);
        if v.x < v.cols {
            assert(w.x == v.x + 1 && w.y == v.y);
        } else {
            assert(w.x == 1);
            lemma_mod_add_multiples_vanish(n - 1, cols);
            lemma_div_plus_one(n - 1, cols);
            if n == 1 {
                lemma_small_mod(0, v.cols);
                lemma_basic_div(0, cols);
            }
        }
        if n == 1 {
            if v.x < v.cols {
                lemma_small_mod(v.x, v.cols);
                lemma_basic_div(v.x as int, cols);
            }
        }
        if v.x + n <= v.cols {
            lemma_small_mod((v.x + n - 1) as nat, v.cols);
            lemma_basic_div(v.x + n - 1, cols);
        }
    }
}

/// Every visible cell of a row starts in a column of the row.
pub proof fn lemma_visible_starts_in_row(row: Seq<RawCell>, start: nat)
    ensures
        forall|k: int|
            0 <= k < visible_from(row, start).len() ==> (#[trigger] visible_from(
                row,
                start,
            )[k]).index < row.len(),
    decreases
            if start < row.len() {
                row.len() - start
            } else {
                0
            },
{
    if start < row.len() {
        let c = row[start as int];
        let step = if c.width >= 1 {
            c.width
        } else {
            1
        };
        lemma_visible_starts_in_row(row, start + step);
        let rest = visible_from(row, start + step);
        let all = visible_from(row, start);
        assert forall|k: int| 0 <= k < all.len() implies (#[trigger] all[k]).index < row.len() by {
            if k > 0 {
                assert(all[k] == rest[k - 1]);
            }
        }
    }
}

/// In a row of cells that are all one column wide, every cell is visible,
/// in its column.
pub proof fn lemma_visible_of_narrow_row(row: Seq<RawCell>, start: nat)
    requires
        start <= row.len(),
        forall|c: int| 0 <= c < row.len() ==> (#[trigger] row[c]).width == 1,
    ensures
        visible_from(row, start).len() == row.len() - start,
        forall|k: int|
            0 <= k < row.len() - start ==> #[trigger] visible_from(row, start)[k] == (CellView {
                index: (start + k) as nat,
                text: row[start + k].text,
                width: 1,
                attrs: row[start + k].attrs,
            }),
    decreases row.len() - start,
{
    if start < row.len() {
        lemma_visible_of_narrow_row(row, start + 1);
        let rest = visible_from(row, start + 1);
        let all = visible_from(row, start);
        assert(all =~= seq![
            CellView {
                index: start,
                text: row[start as int].text,
                width: 1,
                attrs: row[start as int].attrs,
            },
        ] + rest);
        assert forall|k: int| 0 <= k < row.len() - start implies #[trigger] all[k] == (CellView {
            index: (start + k) as nat,
            text: row[start + k].text,
            width: 1,
            attrs: row[start + k].attrs,
        }) by {
            if k > 0 {
                assert(all[k] == rest[k - 1]);
            }
        }
    }
}

} // verus!
