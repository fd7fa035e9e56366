//! The screen of the terminal: a grid of attributed cells, a cursor, a pen
//! and the stack of saved cursor positions.

use vstd::prelude::*;
use termwiz::surface::Surface;
use crate::cell::{Cell, CellAttributes, CellView, ColorAttribute};
use crate::constants::{MAX_SAVED_CURSORS, MAX_SCREEN_SIDE};
use crate::grid::{
    blank_grid, has_full_rows, is_regular_grid, last_index, lemma_resize_keeps_grid_regular, moved,
    resized_cells, with_attribute, with_pen,
    AttributeChange, ColorSlot, Flag, GridView, Layer, Position,
};
use crate::surface::{
    chars_of, lemma_printed_keeps_row_in_grid, position_ok, printed, resized, surface_chars_to_string, surface_clone,
    surface_cursor_position, surface_dimensions, surface_forget_changes, surface_move_cursor,
    surface_new, surface_put_text, surface_reset_attributes, surface_resize,
    surface_row_blinks, surface_row_colors, surface_row_flags, surface_row_indices,
    surface_row_intensities, surface_row_texts, surface_row_underlines, surface_row_widths,
    surface_set_blink, surface_set_color, surface_set_flag, surface_set_intensity,
    surface_set_underline, surface_view,
};
use crate::text::{all_whitespace, is_blank};

verus! {

/// One change to a screen.
#[derive(Debug, Clone, PartialEq, Eq)]
pub enum Change {
    /// Print the text at the cursor, with the pen.
    Text(String),
    /// Move the cursor.
    CursorPosition { x: Position, y: Position },
    /// Change one attribute of the pen.
    Attribute(AttributeChange),
    /// Replace the pen.
    AllAttributes(CellAttributes),
}

/// The screen of the terminal.
pub struct Screen {
    surface: Surface,
    saved: Vec<(usize, usize)>,
}

/// What a screen is: its grid and the saved cursor positions, oldest first.
pub ghost struct ScreenView {
    pub grid: GridView,
    pub saved: Seq<(usize, usize)>,
}

impl ScreenView {
    /// The screen is one that the functions of this crate can work on: it is
    /// no larger than a terminal can be, it has as many rows of cells as its
    /// height says, each with a cell or more for every column and none wider
    /// than two columns, the cursor is on one of the rows (on row 0 if there
    /// is none) and the stack of saved cursors is within its limit.
    pub open spec fn wf(self) -> bool {
        &&& self.grid.cols <= MAX_SCREEN_SIDE
        &&& self.grid.rows <= MAX_SCREEN_SIDE
        &&& is_regular_grid(self.grid)
        &&& self.grid.y <= last_index(self.grid.rows)
        &&& self.saved.len() <= MAX_SAVED_CURSORS
    }

    /// The cursor is within the grid, or just past the last column.
    pub open spec fn cursor_in_bounds(self) -> bool {
        self.cursor_within(0)
    }

    /// The cursor is on a row of the grid and no more than `slack` columns
    /// past where it waits after the last column was written.
    pub open spec fn cursor_within(self, slack: nat) -> bool {
        &&& self.grid.x <= self.grid.cols + slack
        &&& self.grid.y < self.grid.rows
    }

    /// The screen is as wide and as high as `other`.
    pub open spec fn same_size(self, other: ScreenView) -> bool {
        self.grid.cols == other.grid.cols && self.grid.rows == other.grid.rows
    }

    /// The screen with another grid.
    pub open spec fn with_grid(self, grid: GridView) -> ScreenView {
        ScreenView { grid, ..self }
    }

    /// The screen after `text` was printed.
    pub open spec fn printed(self, text: Seq<char>) -> ScreenView {
        self.with_grid(printed(self.grid, text))
    }

    /// The screen after the cursor moved.
    pub open spec fn moved(self, x: Position, y: Position) -> ScreenView {
        self.with_grid(moved(self.grid, x, y))
    }

    /// The screen with another pen.
    pub open spec fn with_pen(self, pen: CellAttributes) -> ScreenView {
        self.with_grid(with_pen(self.grid, pen))
    }

    /// The screen after one attribute of the pen changed.
    pub open spec fn with_attribute(self, change: AttributeChange) -> ScreenView {
        self.with_pen(with_attribute(self.grid.pen, change))
    }

    /// The screen after a resize.
    pub open spec fn resized(self, cols: nat, rows: nat) -> ScreenView {
        self.with_grid(resized(self.grid, cols, rows))
    }

    /// The screen after the cursor position was saved.  A full stack takes no
    /// more.
    pub open spec fn cursor_saved(self) -> ScreenView {
        if self.saved.len() < MAX_SAVED_CURSORS {
            ScreenView { saved: self.saved.push((self.grid.x as usize, self.grid.y as usize)), ..self }
        } else {
            self
        }
    }

    /// The screen after the cursor went back to the position saved last,
    /// which is forgotten.  With nothing saved nothing happens.
    pub open spec fn cursor_restored(self) -> ScreenView {
        if self.saved.len() > 0 {
            let (x, y) = self.saved.last();
            ScreenView {
                grid: moved(self.grid, Position::Absolute(x), Position::Absolute(y)),
                saved: self.saved.drop_last(),
            }
        } else {
            self
        }
    }

    /// The screen after `change`.
    pub open spec fn changed(self, change: Change) -> ScreenView {
        match change {
            Change::Text(text) => self.printed(text@),
            Change::CursorPosition { x, y } => self.moved(x, y),
            Change::Attribute(a) => self.with_attribute(a),
            Change::AllAttributes(attrs) => self.with_pen(attrs),
        }
    }
}

/// The cell shows something: text that is not all white space, or a
/// background that is not the default.
pub open spec fn has_content(c: CellView) -> bool {
    !all_whitespace(c.text) || c.attrs.background != ColorAttribute::Default
}

/// `n`, or the largest side of a screen if `n` is more.
pub open spec fn capped(n: nat) -> nat {
    if n <= MAX_SCREEN_SIDE {
        n
    } else {
        MAX_SCREEN_SIDE as nat
    }
}

/// How far the content of a row reaches: one more than the largest column at
/// which a cell with content starts, 0 for a row without content.
pub open spec fn row_extent(row: Seq<CellView>) -> nat
    decreases row.len(),
{
    if row.len() == 0 {
        0
    } else {
        let rest = row_extent(row.drop_last());
        if has_content(row.last()) && row.last().index + 1 > rest {
            row.last().index + 1
        } else {
            rest
        }
    }
}

/// `change` can be applied to a screen that shows `v`: text needs a row to be
/// printed on, and a move backward needs a magnitude.
pub open spec fn change_ok(v: ScreenView, change: Change) -> bool {
    match change {
        Change::Text(_) => v.grid.rows >= 1,
        Change::CursorPosition { x, y } => position_ok(x) && position_ok(y),
        _ => true,
    }
}

/// A resize to the size the screen has is no change, where the cursor is on
/// a cell of the screen and every row has as many cells as the screen is
/// wide.
pub proof fn lemma_resize_to_same_size(v: ScreenView)
    requires
        has_full_rows(v.grid),
        v.grid.x < v.grid.cols,
        v.grid.y < v.grid.rows,
    ensures
        v.resized(v.grid.cols, v.grid.rows) == v,
{
    let cells = resized_cells(v.grid, v.grid.cols, v.grid.rows);
    assert(cells =~= v.grid.cells) by {
        assert forall|r: int| 0 <= r < cells.len() implies #[trigger] cells[r] =~= v.grid.cells[r] by {
            assert(v.grid.cells[r].len() == v.grid.cols);
        }
    }
}

impl View for Screen {
    type V = ScreenView;

    closed spec fn view(&self) -> ScreenView {
        ScreenView { grid: surface_view(self.surface), saved: self.saved@ }
    }
}

impl Screen {
    /// The screen is well formed: see `ScreenView::wf`.
    pub open spec fn wf(&self) -> bool {
        self@.wf()
    }

    /// A blank screen of `cols` by `rows` cells: every cell a space in the
    /// default colours, cursor at the top left, default pen, nothing saved.
    pub fn new(cols: usize, rows: usize) -> (s: Screen)
        requires
            cols <= MAX_SCREEN_SIDE,
            rows <= MAX_SCREEN_SIDE,
        ensures
            s@ == (ScreenView { grid: blank_grid(cols as nat, rows as nat), saved: Seq::empty() }),
            s.wf(),
    {
        Screen { surface: surface_new(cols, rows), saved: Vec::new() }
    }

    /// Width and height, in cells.
    pub fn dimensions(&self) -> (r: (usize, usize))
        ensures
            r.0 == self@.grid.cols,
            r.1 == self@.grid.rows,
    {
        surface_dimensions(&self.surface)
    }

    /// Column and row of the cursor.
    pub fn cursor_position(&self) -> (r: (usize, usize))
        ensures
            r.0 == self@.grid.x,
            r.1 == self@.grid.y,
    {
        surface_cursor_position(&self.surface)
    }

    /// Cuts or pads the grid to `cols` by `rows` and pulls the cursor back
    /// into it.
    pub fn resize(&mut self, cols: usize, rows: usize)
        requires
            old(self).wf(),
            cols <= MAX_SCREEN_SIDE,
            rows <= MAX_SCREEN_SIDE,
        ensures
            final(self)@ == old(self)@.resized(cols as nat, rows as nat),
            final(self).wf(),
    {
        proof {
            lemma_resize_keeps_grid_regular(self@.grid, cols as nat, rows as nat);
        }
        surface_resize(&mut self.surface, cols, rows);
    }

    /// Prints `text` at the cursor, with the pen.
    pub fn print(&mut self, text: &str)
        requires
            old(self).wf(),
            old(self)@.grid.rows >= 1,
        ensures
            final(self)@ == old(self)@.printed(text@),
            final(self).wf(),
    {
        proof {
            lemma_printed_keeps_row_in_grid(self@.grid, text@);
        }
        surface_put_text(&mut self.surface, text);
    }

    /// Moves the cursor along both axes.
    pub fn move_cursor(&mut self, x: Position, y: Position)
        requires
            old(self).wf(),
            position_ok(x),
            position_ok(y),
        ensures
            final(self)@ == old(self)@.moved(x, y),
            final(self).wf(),
    {
        surface_move_cursor(&mut self.surface, x, y);
    }

    /// Puts the cursor at column `x` of row `y`, or at the last column or row
    /// where that lies outside the grid.
    pub fn set_cursor(&mut self, x: usize, y: usize)
        requires
            old(self).wf(),
        ensures
            final(self)@ == old(self)@.moved(Position::Absolute(x), Position::Absolute(y)),
            final(self).wf(),
    {
        self.move_cursor(Position::Absolute(x), Position::Absolute(y));
    }

    /// Changes one attribute of the pen.
    pub fn set_attribute(&mut self, change: AttributeChange)
        requires
            old(self).wf(),
        ensures
            final(self)@ == old(self)@.with_attribute(change),
            final(self).wf(),
    {
        match change {
            AttributeChange::Intensity(v) => surface_set_intensity(&mut self.surface, v),
            AttributeChange::Underline(v) => surface_set_underline(&mut self.surface, v),
            AttributeChange::Blink(v) => surface_set_blink(&mut self.surface, v),
            AttributeChange::Italic(v) => surface_set_flag(&mut self.surface, Flag::Italic, v),
            AttributeChange::Reverse(v) => surface_set_flag(&mut self.surface, Flag::Reverse, v),
            AttributeChange::StrikeThrough(v) => surface_set_flag(
                &mut self.surface,
                Flag::StrikeThrough,
                v,
            ),
            AttributeChange::Invisible(v) => surface_set_flag(
                &mut self.surface,
                Flag::Invisible,
                v,
            ),
            AttributeChange::Foreground(c) => surface_set_color(
                &mut self.surface,
                Layer::Foreground,
                c,
            ),
            AttributeChange::Background(c) => surface_set_color(
                &mut self.surface,
                Layer::Background,
                c,
            ),
        }
    }

    /// Makes the pen the default pen.
    pub fn reset_attributes(&mut self)
        requires
            old(self).wf(),
        ensures
            final(self)@ == old(self)@.with_pen(CellAttributes::blank_spec()),
            final(self).wf(),
    {
        surface_reset_attributes(&mut self.surface, ColorAttribute::Default);
    }

    /// Replaces the pen by `attrs`.
    pub fn set_all_attributes(&mut self, attrs: &CellAttributes)
        requires
            old(self).wf(),
        ensures
            final(self)@ == old(self)@.with_pen(*attrs),
            final(self).wf(),
    {
        surface_reset_attributes(&mut self.surface, attrs.underline_color);
        self.set_attribute(AttributeChange::Intensity(attrs.intensity));
        self.set_attribute(AttributeChange::Underline(attrs.underline));
        self.set_attribute(AttributeChange::Blink(attrs.blink));
        self.set_attribute(AttributeChange::Italic(attrs.italic));
        self.set_attribute(AttributeChange::Reverse(attrs.reverse));
        self.set_attribute(AttributeChange::StrikeThrough(attrs.strikethrough));
        self.set_attribute(AttributeChange::Invisible(attrs.invisible));
        self.set_attribute(AttributeChange::Foreground(attrs.foreground));
        self.set_attribute(AttributeChange::Background(attrs.background));
    }

    /// Applies one change.
    pub fn apply(&mut self, change: &Change)
        requires
            old(self).wf(),
            change_ok(old(self)@, *change),
        ensures
            final(self)@ == old(self)@.changed(*change),
            final(self).wf(),
    {
        match change {
            Change::Text(text) => self.print(text.as_str()),
            Change::CursorPosition { x, y } => self.move_cursor(*x, *y),
            Change::Attribute(a) => self.set_attribute(*a),
            Change::AllAttributes(attrs) => self.set_all_attributes(attrs),
        }
    }

    /// The visible cells of row `row`, from the left.
    pub fn row(&self, row: usize) -> (cells: Vec<Cell>)
        requires
            self.wf(),
            row < self@.grid.rows,
        ensures
            cells@.len() == self@.grid.lines()[row as int].len(),
            forall|k: int|
                0 <= k < cells@.len() ==> (#[trigger] cells@[k])@ == self@.grid.lines()[row as int][k],
    {
        let s = &self.surface;
        let texts = surface_row_texts(s, row);
        let indices = surface_row_indices(s, row);
        let widths = surface_row_widths(s, row);
        let intensities = surface_row_intensities(s, row);
        let underlines = surface_row_underlines(s, row);
        let blinks = surface_row_blinks(s, row);
        let italics = surface_row_flags(s, row, Flag::Italic);
        let reverses = surface_row_flags(s, row, Flag::Reverse);
        let strikes = surface_row_flags(s, row, Flag::StrikeThrough);
        let invisibles = surface_row_flags(s, row, Flag::Invisible);
        let foregrounds = surface_row_colors(s, row, ColorSlot::Foreground);
        let backgrounds = surface_row_colors(s, row, ColorSlot::Background);
        let underline_colors = surface_row_colors(s, row, ColorSlot::Underline);
        let ghost line = self@.grid.lines()[row as int];
        let n: usize = texts.len();
        let mut cells: Vec<Cell> = Vec::new();
        let mut k: usize = 0;
        while k < n
            invariant
                0 <= k <= n,
                line == surface_view(self.surface).lines()[row as int],
                n == line.len(),
                texts@.len() == n,
                indices@.len() == n,
                widths@.len() == n,
                intensities@.len() == n,
                underlines@.len() == n,
                blinks@.len() == n,
                italics@.len() == n,
                reverses@.len() == n,
                strikes@.len() == n,
                invisibles@.len() == n,
                foregrounds@.len() == n,
                backgrounds@.len() == n,
                underline_colors@.len() == n,
                forall|j: int| 0 <= j < n ==> (#[trigger] texts@[j])@ == line[j].text,
                forall|j: int| 0 <= j < n ==> #[trigger] indices@[j] == line[j].index,
                forall|j: int| 0 <= j < n ==> #[trigger] widths@[j] == line[j].width,
                forall|j: int| 0 <= j < n ==> #[trigger] intensities@[j] == line[j].attrs.intensity,
                forall|j: int| 0 <= j < n ==> #[trigger] underlines@[j] == line[j].attrs.underline,
                forall|j: int| 0 <= j < n ==> #[trigger] blinks@[j] == line[j].attrs.blink,
                forall|j: int| 0 <= j < n ==> #[trigger] italics@[j] == line[j].attrs.italic,
                forall|j: int| 0 <= j < n ==> #[trigger] reverses@[j] == line[j].attrs.reverse,
                forall|j: int|
                    0 <= j < n ==> #[trigger] strikes@[j] == line[j].attrs.strikethrough,
                forall|j: int| 0 <= j < n ==> #[trigger] invisibles@[j] == line[j].attrs.invisible,
                forall|j: int|
                    0 <= j < n ==> #[trigger] foregrounds@[j] == line[j].attrs.foreground,
                forall|j: int|
                    0 <= j < n ==> #[trigger] backgrounds@[j] == line[j].attrs.background,
                forall|j: int|
                    0 <= j < n ==> #[trigger] underline_colors@[j]
                        == line[j].attrs.underline_color,
                cells@.len() == k,
                forall|j: int| 0 <= j < k ==> (#[trigger] cells@[j])@ == line[j],
            decreases n - k,
        {
            let cell = Cell {
                index: indices[k],
                text: texts[k].clone(),
                width: widths[k],
                attrs: CellAttributes {
                    intensity: intensities[k],
                    underline: underlines[k],
                    blink: blinks[k],
                    italic: italics[k],
                    reverse: reverses[k],
                    strikethrough: strikes[k],
                    invisible: invisibles[k],
                    foreground: foregrounds[k],
                    background: backgrounds[k],
                    underline_color: underline_colors[k],
                },
            };
            cells.push(cell);
            k = k + 1;
        }
        cells
    }

    /// The visible cells of all rows, from the top.
    pub fn screen_lines(&self) -> (lines: Vec<Vec<Cell>>)
        requires
            self.wf(),
        ensures
            lines@.len() == self@.grid.rows,
            forall|r: int|
                0 <= r < lines@.len() ==> (#[trigger] lines@[r])@.len()
                    == self@.grid.lines()[r].len(),
            forall|r: int, k: int|
                0 <= r < lines@.len() && 0 <= k < lines@[r]@.len() ==> (#[trigger] lines@[r]@[k])@
                    == self@.grid.lines()[r][k],
    {
        let (_, rows) = self.dimensions();
        let mut lines: Vec<Vec<Cell>> = Vec::new();
        let mut r: usize = 0;
        while r < rows
            invariant
                0 <= r <= rows,
                self.wf(),
                rows == self@.grid.rows,
                lines@.len() == r,
                forall|i: int|
                    0 <= i < r ==> (#[trigger] lines@[i])@.len() == self@.grid.lines()[i].len(),
                forall|i: int, k: int|
                    0 <= i < r && 0 <= k < lines@[i]@.len() ==> (#[trigger] lines@[i]@[k])@
                        == self@.grid.lines()[i][k],
            decreases rows - r,
        {
            let cells = self.row(r);
            lines.push(cells);
            r = r + 1;
        }
        lines
    }

    /// How far the content of row `row` reaches, see `row_extent`; no more
    /// than the largest side of a screen.
    pub fn content_extent(&self, row: usize) -> (extent: usize)
        requires
            self.wf(),
            row < self@.grid.rows,
        ensures
            extent == capped(row_extent(self@.grid.lines()[row as int])),
    {
        let texts = surface_row_texts(&self.surface, row);
        let indices = surface_row_indices(&self.surface, row);
        let backgrounds = surface_row_colors(&self.surface, row, ColorSlot::Background);
        let ghost line = self@.grid.lines()[row as int];
        let n: usize = texts.len();
        let mut extent: usize = 0;
        let mut k: usize = 0;
        assert(line.take(0) =~= Seq::<CellView>::empty());
        while k < n
            invariant
                0 <= k <= n,
                n == line.len(),
                texts@.len() == n,
                indices@.len() == n,
                backgrounds@.len() == n,
                forall|j: int| 0 <= j < n ==> (#[trigger] texts@[j])@ == line[j].text,
                forall|j: int| 0 <= j < n ==> #[trigger] indices@[j] == line[j].index,
                forall|j: int|
                    0 <= j < n ==> #[trigger] backgrounds@[j] == line[j].attrs.background,
                extent == capped(row_extent(line.take(k as int))),
            decreases n - k,
        {
            let ghost before = line.take(k as int);
            let ghost after = line.take(k + 1);
            assert(after.drop_last() =~= before);
            assert(after.last() == line[k as int]);
            let blank = is_blank(texts[k].as_str());
            let plain = match backgrounds[k] {
                ColorAttribute::Default => true,
                _ => false,
            };
            if !blank || !plain {
                let index: usize = indices[k];
                let end: usize = if index < MAX_SCREEN_SIDE {
                    index + 1
                } else {
                    MAX_SCREEN_SIDE
                };
                if end > extent {
                    extent = end;
                }
            }
            k = k + 1;
        }
        assert(line.take(n as int) =~= line);
        extent
    }

    /// The text on the screen: the texts of the visible cells row by row, a
    /// line feed after each row.
    pub fn screen_chars_to_string(&self) -> (text: String)
        ensures
            text@ == chars_of(self@.grid.lines()),
    {
        surface_chars_to_string(&self.surface)
    }

    /// Forgets the log of applied changes that the buffer keeps.  The screen
    /// stays as it is.
    pub fn forget_changes(&mut self)
        ensures
            final(self)@ == old(self)@,
    {
        surface_forget_changes(&mut self.surface);
    }

    /// Saves the cursor position on top of the stack.  A full stack takes no
    /// more: the position is then not saved.
    pub fn save_cursor(&mut self)
        requires
            old(self).wf(),
        ensures
            final(self)@ == old(self)@.cursor_saved(),
            final(self).wf(),
    {
        if self.saved.len() < MAX_SAVED_CURSORS {
            let position = surface_cursor_position(&self.surface);
            self.saved.push(position);
        }
    }

    /// Puts the cursor back where it was saved last and forgets that
    /// position.  With nothing saved nothing happens.
    pub fn restore_cursor(&mut self)
        requires
            old(self).wf(),
        ensures
            final(self)@ == old(self)@.cursor_restored(),
            final(self).wf(),
    {
        match self.saved.pop() {
            Some((x, y)) => {
                surface_move_cursor(
                    &mut self.surface,
                    Position::Absolute(x),
                    Position::Absolute(y),
                );
            },
            None => {},
        }
    }
}

impl Clone for Screen {
    /// A second screen that shows the same.
    fn clone(&self) -> (copy: Screen)
        ensures
            copy@ == self@,
    {
        let mut saved: Vec<(usize, usize)> = Vec::new();
        let mut i: usize = 0;
        while i < self.saved.len()
            invariant
                0 <= i <= self.saved.len(),
                saved@ =~= self.saved@.take(i as int),
            decreases self.saved.len() - i,
        {
            let position = self.saved[i];
            saved.push(position);
            i = i + 1;
        }
        assert(self.saved@.take(self.saved.len() as int) =~= self.saved@);
        Screen { surface: surface_clone(&self.surface), saved }
    }
}

} // verus!
