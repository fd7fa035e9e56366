//! The cell buffer.  The screen keeps its cells in a `termwiz` surface; this
//! module says what each call into it does, in terms of the grid model.  The
//! contracts of the functions that make those calls are not proved: they
//! restate the behaviour of `termwiz`.

use vstd::prelude::*;
use termwiz::color::ColorAttribute as Outside;
use termwiz::surface::line::CellRef;
use termwiz::surface::Surface;
use crate::cell::{
    Blink, CellAttributes, CellView, ColorAttribute, Intensity, RawCell, Rgba, Underline,
};
use crate::constants::MAX_SCREEN_SIDE;
use crate::grid::{
    all_narrow, blank_grid, is_plain_text, is_regular_grid, lemma_put_plain_keeps_cursor_in_bounds,
    lemma_put_plain_keeps_row_in_grid, lemma_walk_keeps_cursor_in_bounds,
    lemma_walk_keeps_row_in_grid, moved, print_model, resize_model, with_color, with_flag,
    with_pen, ColorSlot, Flag, GridView, Layer, Position, Step,
};

verus! {

#[verifier::external_type_specification]
#[verifier::external_body]
pub struct ExSurface(Surface);

/// What a surface holds: its size, cursor, pen and cells.
pub uninterp spec fn surface_view(s: Surface) -> GridView;

/// What the clusters of characters of a text do to the cursor when the text
/// is printed, cluster by cluster: a carriage return, a line feed, both in
/// one, or a cell of the width that the cluster takes.
pub uninterp spec fn text_steps(text: Seq<char>) -> Seq<Step>;

/// The cells that a surface that held `v` holds after `text` was printed on
/// it, where `text` is not plain.
pub uninterp spec fn printed_cells(v: GridView, text: Seq<char>) -> Seq<Seq<RawCell>>;

/// The grid after `text` was printed on it.
pub open spec fn printed(v: GridView, text: Seq<char>) -> GridView {
    print_model(v, text, text_steps(text), printed_cells(v, text))
}

/// The text is plain, or none of its clusters takes a wide cell.
pub open spec fn is_narrow_text(text: Seq<char>) -> bool {
    is_plain_text(text) || all_narrow(text_steps(text))
}

/// Printing keeps the cursor on a row of the grid.
pub proof fn lemma_printed_keeps_row_in_grid(v: GridView, text: Seq<char>)
    requires
        v.y < v.rows,
    ensures
        printed(v, text).y < v.rows,
{
    lemma_put_plain_keeps_row_in_grid(v, text);
    lemma_walk_keeps_row_in_grid(v.cols, v.rows, v.x, v.y, text_steps(text));
}

/// Printing leaves the cursor at most one column past the last one, and at
/// most on it where the text is narrow.
pub proof fn lemma_printed_keeps_cursor_in_bounds(v: GridView, text: Seq<char>, slack: nat)
    requires
        v.cols >= 1,
        v.x <= v.cols + slack,
        v.y < v.rows,
        slack >= 1 || is_narrow_text(text),
    ensures
        printed(v, text).x <= v.cols + slack,
        printed(v, text).y < v.rows,
{
    if is_plain_text(text) {
        lemma_put_plain_keeps_cursor_in_bounds(v, text, slack);
    } else {
        lemma_walk_keeps_cursor_in_bounds(v.cols, v.rows, v.x, v.y, text_steps(text), slack);
    }
}

/// The grid after a resize to `cols` by `rows`.
pub open spec fn resized(v: GridView, cols: nat, rows: nat) -> GridView {
    resize_model(v, cols, rows)
}

/// The texts of the cells of a row, one after the other.
pub open spec fn row_chars(row: Seq<CellView>) -> Seq<char>
    decreases row.len(),
{
    if row.len() == 0 {
        Seq::empty()
    } else {
        row_chars(row.drop_last()) + row.last().text
    }
}

/// The texts of the cells of all rows, a line feed after each row.
pub open spec fn chars_of(lines: Seq<Seq<CellView>>) -> Seq<char>
    decreases lines.len(),
{
    if lines.len() == 0 {
        Seq::empty()
    } else {
        chars_of(lines.drop_last()) + row_chars(lines.last()) + seq!['\n']
    }
}

/// `pos` can be handed to the surface: a move backward must have a magnitude.
pub open spec fn position_ok(pos: Position) -> bool {
    match pos {
        Position::Relative(d) => d > isize::MIN,
        Position::Absolute(_) => true,
    }
}

/// `Surface::new`: a blank surface of the given size, cursor at the top left,
/// default pen.
#[verifier::external_body]
pub(crate) fn surface_new(cols: usize, rows: usize) -> (s: Surface)
    requires
        cols <= MAX_SCREEN_SIDE,
        rows <= MAX_SCREEN_SIDE,
    ensures
        surface_view(s) == blank_grid(cols as nat, rows as nat),
{
    Surface::new(cols, rows)
}

/// `Surface::dimensions`: width and height.
#[verifier::external_body]
pub(crate) fn surface_dimensions(s: &Surface) -> (r: (usize, usize))
    ensures
        r.0 == surface_view(*s).cols,
        r.1 == surface_view(*s).rows,
{
    s.dimensions()
}

/// `Surface::cursor_position`: column and row of the cursor.
#[verifier::external_body]
pub(crate) fn surface_cursor_position(s: &Surface) -> (r: (usize, usize))
    ensures
        r.0 == surface_view(*s).x,
        r.1 == surface_view(*s).y,
{
    s.cursor_position()
}

/// `Surface::resize`: rows and columns are cut or padded with blank cells and
/// the cursor is pulled back inside.
#[verifier::external_body]
pub(crate) fn surface_resize(s: &mut Surface, cols: usize, rows: usize)
    requires
        cols <= MAX_SCREEN_SIDE,
        rows <= MAX_SCREEN_SIDE,
    ensures
        surface_view(*final(s)) == resize_model(surface_view(*old(s)), cols as nat, rows as nat),
{
    s.resize(cols, rows);
}

/// `Surface::add_change` with `Change::Text`: the text is printed at the
/// cursor with the pen.  Size and pen stay, no row is added or lost and a
/// regular grid stays regular: a row grows to at most one cell past the last
/// column, or to two cells where there is no column, and no cell is wider
/// than two columns.  The cursor takes the steps of the text: it
/// wraps to the start of the next row before a cell is written past the last
/// column, goes right by one column for a cell, by two for a wide one, and
/// the rows move up instead of the cursor going below the last.  Plain text
/// moves the cursor as `put_plain` says and, on a regular grid with at least
/// one column, changes the cells as `put_plain` says.
#[verifier::external_body]
pub(crate) fn surface_put_text(s: &mut Surface, text: &str)
    requires
        surface_view(*old(s)).y < surface_view(*old(s)).rows,
        surface_view(*old(s)).cells.len() == surface_view(*old(s)).rows,
    ensures
        surface_view(*final(s)) == print_model(
            surface_view(*old(s)),
            text@,
            text_steps(text@),
            printed_cells(surface_view(*old(s)), text@),
        ),
        surface_view(*final(s)).cells.len() == surface_view(*old(s)).rows,
        is_regular_grid(surface_view(*old(s))) ==> is_regular_grid(surface_view(*final(s))),
{
    s.add_change(termwiz::surface::Change::Text(text.to_string()));
}

/// `Surface::add_change` with `Change::CursorPosition`: the cursor moves along
/// each axis as `place` says; nothing else changes.
#[verifier::external_body]
pub(crate) fn surface_move_cursor(s: &mut Surface, x: Position, y: Position)
    requires
        position_ok(x),
        position_ok(y),
    ensures
        surface_view(*final(s)) == moved(surface_view(*old(s)), x, y),
{
    let x = match x {
        Position::Relative(d) => termwiz::surface::Position::Relative(d),
        Position::Absolute(a) => termwiz::surface::Position::Absolute(a),
    };
    let y = match y {
        Position::Relative(d) => termwiz::surface::Position::Relative(d),
        Position::Absolute(a) => termwiz::surface::Position::Absolute(a),
    };
    s.add_change(termwiz::surface::Change::CursorPosition { x, y });
}

/// `Surface::add_change` with `AttributeChange::Intensity`: the pen's
/// intensity changes; nothing else does.
#[verifier::external_body]
pub(crate) fn surface_set_intensity(s: &mut Surface, value: Intensity)
    ensures
        surface_view(*final(s)) == with_pen(
            surface_view(*old(s)),
            (CellAttributes { intensity: value, ..surface_view(*old(s)).pen }),
        ),
{
    let value = match value {
        Intensity::Normal => termwiz::cell::Intensity::Normal,
        Intensity::Bold => termwiz::cell::Intensity::Bold,
        Intensity::Half => termwiz::cell::Intensity::Half,
    };
    s.add_change(termwiz::cell::AttributeChange::Intensity(value));
}

/// `Surface::add_change` with `AttributeChange::Underline`: the pen's
/// underline changes; nothing else does.
#[verifier::external_body]
pub(crate) fn surface_set_underline(s: &mut Surface, value: Underline)
    ensures
        surface_view(*final(s)) == with_pen(
            surface_view(*old(s)),
            (CellAttributes { underline: value, ..surface_view(*old(s)).pen }),
        ),
{
    let value = match value {
        Underline::Off => termwiz::cell::Underline::None,
        Underline::Single => termwiz::cell::Underline::Single,
        Underline::Double => termwiz::cell::Underline::Double,
        Underline::Curly => termwiz::cell::Underline::Curly,
        Underline::Dotted => termwiz::cell::Underline::Dotted,
        Underline::Dashed => termwiz::cell::Underline::Dashed,
    };
    s.add_change(termwiz::cell::AttributeChange::Underline(value));
}

/// `Surface::add_change` with `AttributeChange::Blink`: the pen's blink
/// changes; nothing else does.
#[verifier::external_body]
pub(crate) fn surface_set_blink(s: &mut Surface, value: Blink)
    ensures
        surface_view(*final(s)) == with_pen(
            surface_view(*old(s)),
            (CellAttributes { blink: value, ..surface_view(*old(s)).pen }),
        ),
{
    let value = match value {
        Blink::Off => termwiz::cell::Blink::None,
        Blink::Slow => termwiz::cell::Blink::Slow,
        Blink::Rapid => termwiz::cell::Blink::Rapid,
    };
    s.add_change(termwiz::cell::AttributeChange::Blink(value));
}

/// `Surface::add_change` with `AttributeChange::Italic`, `Reverse`,
/// `StrikeThrough` or `Invisible`: that switch of the pen is set; nothing else
/// changes.
#[verifier::external_body]
pub(crate) fn surface_set_flag(s: &mut Surface, flag: Flag, on: bool)
    ensures
        surface_view(*final(s)) == with_pen(
            surface_view(*old(s)),
            with_flag(surface_view(*old(s)).pen, flag, on),
        ),
{
    let change = match flag {
        Flag::Italic => termwiz::cell::AttributeChange::Italic(on),
        Flag::Reverse => termwiz::cell::AttributeChange::Reverse(on),
        Flag::StrikeThrough => termwiz::cell::AttributeChange::StrikeThrough(on),
        Flag::Invisible => termwiz::cell::AttributeChange::Invisible(on),
    };
    s.add_change(change);
}

/// `Surface::add_change` with `AttributeChange::Foreground` or `Background`:
/// that colour of the pen is set; nothing else changes.
#[verifier::external_body]
pub(crate) fn surface_set_color(s: &mut Surface, layer: Layer, color: ColorAttribute)
    ensures
        surface_view(*final(s)) == with_pen(
            surface_view(*old(s)),
            with_color(surface_view(*old(s)).pen, layer, color),
        ),
{
    let c = match color {
        ColorAttribute::Default => Outside::Default,
        ColorAttribute::PaletteIndex(i) => Outside::PaletteIndex(i),
        ColorAttribute::TrueColorWithDefaultFallback(c) => Outside::TrueColorWithDefaultFallback((c.r, c.g, c.b, c.a).into()),
        ColorAttribute::TrueColorWithPaletteFallback(c, i) => Outside::TrueColorWithPaletteFallback((c.r, c.g, c.b, c.a).into(), i),
    };
    s.add_change(match layer {
        Layer::Foreground => termwiz::cell::AttributeChange::Foreground(c),
        Layer::Background => termwiz::cell::AttributeChange::Background(c),
    });
}

/// `Surface::add_change` with `Change::AllAttributes` of the default
/// attributes with the underline colour set by
/// `CellAttributes::set_underline_color`: the pen becomes the default pen
/// but for the underline colour, which is the one given; nothing else
/// changes.
#[verifier::external_body]
pub(crate) fn surface_reset_attributes(s: &mut Surface, underline: ColorAttribute)
    ensures
        surface_view(*final(s)) == with_pen(
            surface_view(*old(s)),
            (CellAttributes { underline_color: underline, ..CellAttributes::blank_spec() }),
        ),
{
    let c = match underline {
        ColorAttribute::Default => Outside::Default,
        ColorAttribute::PaletteIndex(i) => Outside::PaletteIndex(i),
        ColorAttribute::TrueColorWithDefaultFallback(c) => Outside::TrueColorWithDefaultFallback((c.r, c.g, c.b, c.a).into()),
        ColorAttribute::TrueColorWithPaletteFallback(c, i) => Outside::TrueColorWithPaletteFallback((c.r, c.g, c.b, c.a).into(), i),
    };
    let mut pen = termwiz::cell::CellAttributes::default();
    pen.set_underline_color(c);
    s.add_change(termwiz::surface::Change::AllAttributes(pen));
}

/// The visible cells of row `row`.
pub open spec fn row_of(s: Surface, row: usize) -> Seq<CellView> {
    surface_view(s).lines()[row as int]
}

/// `row` is a row of the surface.
pub open spec fn row_ok(s: Surface, row: usize) -> bool {
    row < surface_view(s).cells.len()
}

/// `Line::visible_cells` on a line of `Surface::screen_lines`, `CellRef::str`:
/// the texts of the visible cells of a row, from the left.
#[verifier::external_body]
pub(crate) fn surface_row_texts(s: &Surface, row: usize) -> (r: Vec<String>)
    requires
        row_ok(*s, row),
    ensures
        r@.len() == row_of(*s, row).len(),
        forall|k: int| 0 <= k < r@.len() ==> (#[trigger] r@[k])@ == row_of(*s, row)[k].text,
{
    s.screen_lines()[row].visible_cells().map(|c| c.str().to_string()).collect()
}

/// `CellRef::cell_index` of the visible cells of a row: the column each
/// starts at.
#[verifier::external_body]
pub(crate) fn surface_row_indices(s: &Surface, row: usize) -> (r: Vec<usize>)
    requires
        row_ok(*s, row),
    ensures
        r@.len() == row_of(*s, row).len(),
        forall|k: int| 0 <= k < r@.len() ==> #[trigger] r@[k] == row_of(*s, row)[k].index,
{
    s.screen_lines()[row].visible_cells().map(|c| c.cell_index()).collect()
}

/// `CellRef::width` of the visible cells of a row: the columns each covers.
#[verifier::external_body]
pub(crate) fn surface_row_widths(s: &Surface, row: usize) -> (r: Vec<usize>)
    requires
        row_ok(*s, row),
    ensures
        r@.len() == row_of(*s, row).len(),
        forall|k: int| 0 <= k < r@.len() ==> #[trigger] r@[k] == row_of(*s, row)[k].width,
{
    s.screen_lines()[row].visible_cells().map(|c| c.width()).collect()
}

/// `CellAttributes::intensity` of the visible cells of a row.
#[verifier::external_body]
pub(crate) fn surface_row_intensities(s: &Surface, row: usize) -> (r: Vec<Intensity>)
    requires
        row_ok(*s, row),
    ensures
        r@.len() == row_of(*s, row).len(),
        forall|k: int|
            0 <= k < r@.len() ==> #[trigger] r@[k] == row_of(*s, row)[k].attrs.intensity,
{
    let convert = |c: CellRef| match c.attrs().intensity() {
        termwiz::cell::Intensity::Normal => Intensity::Normal,
        termwiz::cell::Intensity::Bold => Intensity::Bold,
        termwiz::cell::Intensity::Half => Intensity::Half,
    };
    s.screen_lines()[row].visible_cells().map(convert).collect()
}

/// `CellAttributes::underline` of the visible cells of a row.
#[verifier::external_body]
pub(crate) fn surface_row_underlines(s: &Surface, row: usize) -> (r: Vec<Underline>)
    requires
        row_ok(*s, row),
    ensures
        r@.len() == row_of(*s, row).len(),
        forall|k: int|
            0 <= k < r@.len() ==> #[trigger] r@[k] == row_of(*s, row)[k].attrs.underline,
{
    let convert = |c: CellRef| match c.attrs().underline() {
        termwiz::cell::Underline::None => Underline::Off,
        termwiz::cell::Underline::Single => Underline::Single,
        termwiz::cell::Underline::Double => Underline::Double,
        termwiz::cell::Underline::Curly => Underline::Curly,
        termwiz::cell::Underline::Dotted => Underline::Dotted,
        termwiz::cell::Underline::Dashed => Underline::Dashed,
    };
    s.screen_lines()[row].visible_cells().map(convert).collect()
}

/// `CellAttributes::blink` of the visible cells of a row.
#[verifier::external_body]
pub(crate) fn surface_row_blinks(s: &Surface, row: usize) -> (r: Vec<Blink>)
    requires
        row_ok(*s, row),
    ensures
        r@.len() == row_of(*s, row).len(),
        forall|k: int| 0 <= k < r@.len() ==> #[trigger] r@[k] == row_of(*s, row)[k].attrs.blink,
{
    let convert = |c: CellRef| match c.attrs().blink() {
        termwiz::cell::Blink::None => Blink::Off,
        termwiz::cell::Blink::Slow => Blink::Slow,
        termwiz::cell::Blink::Rapid => Blink::Rapid,
    };
    s.screen_lines()[row].visible_cells().map(convert).collect()
}

/// The value of one switch in a cell's attributes.
pub open spec fn flag_of(attrs: CellAttributes, flag: Flag) -> bool {
    match flag {
        Flag::Italic => attrs.italic,
        Flag::Reverse => attrs.reverse,
        Flag::StrikeThrough => attrs.strikethrough,
        Flag::Invisible => attrs.invisible,
    }
}

/// `CellAttributes::italic`, `reverse`, `strikethrough` or `invisible` of the
/// visible cells of a row.
#[verifier::external_body]
pub(crate) fn surface_row_flags(s: &Surface, row: usize, flag: Flag) -> (r: Vec<bool>)
    requires
        row_ok(*s, row),
    ensures
        r@.len() == row_of(*s, row).len(),
        forall|k: int|
            0 <= k < r@.len() ==> #[trigger] r@[k] == flag_of(row_of(*s, row)[k].attrs, flag),
{
    let pick = |c: CellRef| match flag {
        Flag::Italic => c.attrs().italic(),
        Flag::Reverse => c.attrs().reverse(),
        Flag::StrikeThrough => c.attrs().strikethrough(),
        Flag::Invisible => c.attrs().invisible(),
    };
    s.screen_lines()[row].visible_cells().map(pick).collect()
}

/// One of the colours in a cell's attributes.
pub open spec fn color_of(attrs: CellAttributes, slot: ColorSlot) -> ColorAttribute {
    match slot {
        ColorSlot::Foreground => attrs.foreground,
        ColorSlot::Background => attrs.background,
        ColorSlot::Underline => attrs.underline_color,
    }
}

/// `CellAttributes::foreground`, `background` or `underline_color` of the
/// visible cells of a row, each channel of a true colour as eight bits.
#[verifier::external_body]
pub(crate) fn surface_row_colors(s: &Surface, row: usize, slot: ColorSlot) -> (r: Vec<
    ColorAttribute,
>)
    requires
        row_ok(*s, row),
    ensures
        r@.len() == row_of(*s, row).len(),
        forall|k: int|
            0 <= k < r@.len() ==> #[trigger] r@[k] == color_of(row_of(*s, row)[k].attrs, slot),
{
    let pick = |c: CellRef| match slot {
        ColorSlot::Foreground => c.attrs().foreground(),
        ColorSlot::Background => c.attrs().background(),
        ColorSlot::Underline => c.attrs().underline_color(),
    };
    let rgba = |(r, g, b, a)| Rgba { r, g, b, a };
    let convert = |c: Outside| match c {
        Outside::Default => ColorAttribute::Default,
        Outside::PaletteIndex(i) => ColorAttribute::PaletteIndex(i),
        Outside::TrueColorWithDefaultFallback(t) => ColorAttribute::TrueColorWithDefaultFallback(rgba(t.to_srgb_u8())),
        Outside::TrueColorWithPaletteFallback(t, i) => ColorAttribute::TrueColorWithPaletteFallback(rgba(t.to_srgb_u8()), i),
    };
    s.screen_lines()[row].visible_cells().map(|c| convert(pick(c))).collect()
}

/// `Surface::screen_chars_to_string`: the texts of the visible cells, row by
/// row, a line feed after each row.
#[verifier::external_body]
pub(crate) fn surface_chars_to_string(s: &Surface) -> (r: String)
    ensures
        r@ == chars_of(surface_view(*s).lines()),
{
    s.screen_chars_to_string()
}

/// `Clone::clone` of a surface: a surface that shows the same.
#[verifier::external_body]
pub(crate) fn surface_clone(s: &Surface) -> (r: Surface)
    ensures
        surface_view(r) == surface_view(*s),
{
    s.clone()
}

/// `Surface::flush_changes_older_than` with `Surface::current_seqno`: the log
/// of applied changes is emptied.  What the surface shows stays.
#[verifier::external_body]
pub(crate) fn surface_forget_changes(s: &mut Surface)
    ensures
        surface_view(*final(s)) == surface_view(*old(s)),
{
    s.flush_changes_older_than(s.current_seqno());
}

} // verus!
