//! What the renderer computes before it draws.

use vstd::prelude::*;
use vstd::string::*;
use crate::cell::{Cell, CellView};
use crate::image_renderer::render_size::views;
use crate::window_decoration::WindowMetrics;

pub mod canvas;
pub mod render_size;
pub mod utils;

verus! {

/// Why the image could not be rendered.
#[derive(Debug)]
pub enum ImageRendererError {
    FontLoadError,
    /// A coordinate does not fit its type.
    Conversion(core::num::TryFromIntError),
    CanvasInitFailed,
    ImageCreationFailed,
}

/// The number of columns that `c` takes when displayed, as the crate
/// `unicode-width` has it; none for a control character.
pub uninterp spec fn char_columns(c: char) -> Option<usize>;

/// `UnicodeWidthChar::width`.
#[verifier::external_body]
pub(crate) fn columns_of_char(c: char) -> (r: Option<usize>)
    ensures
        r == char_columns(c),
{
    unicode_width::UnicodeWidthChar::width(c)
}

/// The number of columns that a text takes when displayed: those of its
/// characters together, control characters taking none.
pub open spec fn text_columns(t: Seq<char>) -> nat
    decreases t.len(),
{
    if t.len() == 0 {
        0
    } else {
        text_columns(t.drop_last()) + match char_columns(t.last()) {
            Some(w) => w as nat,
            None => 0,
        }
    }
}

/// How far right of the first cell the `k`-th cell of a row is drawn, in
/// pixels: the columns of the cells before it, each `char_width` wide.
pub open spec fn offset(cells: Seq<CellView>, k: int, char_width: u32) -> nat
    decreases k,
{
    if k <= 0 {
        0
    } else {
        (offset(cells, k - 1, char_width) + char_width * text_columns(cells[k - 1].text)) as nat
    }
}

/// Where the content starts: right of border and padding, and below border,
/// title bar and padding.
pub open spec fn origin(metrics: WindowMetrics) -> (nat, nat) {
    (
        (metrics.border_width + metrics.padding) as nat,
        (metrics.border_width + metrics.title_bar_height + metrics.padding) as nat,
    )
}

/// The prefix of a text takes no more columns than the text.
proof fn lemma_text_columns_grows(t: Seq<char>, k: int)
    requires
        0 <= k <= t.len(),
    ensures
        text_columns(t.take(k)) <= text_columns(t),
    decreases t.len() - k,
{
    if k == t.len() {
        assert(t.take(k) =~= t);
    } else {
        lemma_text_columns_grows(t, k + 1);
        assert(t.take(k + 1).drop_last() =~= t.take(k));
    }
}

/// The offsets of the cells of a row do not decrease from left to right.
pub proof fn lemma_offset_grows(cells: Seq<CellView>, j: int, k: int, char_width: u32)
    requires
        0 <= j <= k,
    ensures
        offset(cells, j, char_width) <= offset(cells, k, char_width),
    decreases k - j,
{
    if j < k {
        lemma_offset_grows(cells, j, k - 1, char_width);
        assert(char_width * text_columns(cells[k - 1].text) >= 0) by (nonlinear_arith);
    }
}

/// The number of columns that `text` takes when displayed.
pub fn text_width(text: &str) -> (r: usize)
    requires
        text_columns(text@) <= usize::MAX,
    ensures
        r == text_columns(text@),
{
    let n: usize = text.unicode_len();
    let mut total: usize = 0;
    let mut i: usize = 0;
    assert(text@.take(0) =~= Seq::<char>::empty());
    while i < n
        invariant
            0 <= i <= n,
            n == text@.len(),
            total == text_columns(text@.take(i as int)),
            text_columns(text@) <= usize::MAX,
        decreases n - i,
    {
        proof {
            assert(text@.take(i + 1).drop_last() =~= text@.take(i as int));
            assert(text@.take(i + 1).last() == text@[i as int]);
            lemma_text_columns_grows(text@, i + 1);
        }
        let w: usize = match columns_of_char(text.get_char(i)) {
            Some(w) => w,
            None => 0,
        };
        total = total + w;
        i = i + 1;
    }
    assert(text@.take(n as int) =~= text@);
    total
}

/// The number of columns that `text` takes when displayed, or nothing where
/// that number is more than can be counted.
pub fn try_text_width(text: &str) -> (r: Option<usize>)
    ensures
        r is Some <==> text_columns(text@) <= usize::MAX,
        r is Some ==> r->0 == text_columns(text@),
{
    let n: usize = text.unicode_len();
    let mut total: usize = 0;
    let mut i: usize = 0;
    assert(text@.take(0) =~= Seq::<char>::empty());
    while i < n
        invariant
            0 <= i <= n,
            n == text@.len(),
            total == text_columns(text@.take(i as int)),
        decreases n - i,
    {
        proof {
            assert(text@.take(i + 1).drop_last() =~= text@.take(i as int));
            assert(text@.take(i + 1).last() == text@[i as int]);
            lemma_text_columns_grows(text@, i + 1);
        }
        let w: usize = match columns_of_char(text.get_char(i)) {
            Some(w) => w,
            None => 0,
        };
        if w > usize::MAX - total {
            return None;
        }
        total = total + w;
        i = i + 1;
    }
    assert(text@.take(n as int) =~= text@);
    Some(text_width(text))
}

/// The positions of the cells of a row fit the numbers they are counted in:
/// no text takes more columns than 32 bits count, and the last cell does
/// not end further right than 32 bits count.
pub open spec fn positions_fit(cells: Seq<CellView>, start_x: u32, char_width: u32) -> bool {
    &&& forall|k: int| 0 <= k < cells.len() ==> text_columns(#[trigger] cells[k].text) <= u32::MAX
    &&& start_x + offset(cells, cells.len() as int, char_width) <= u32::MAX
}

/// What `cell_positions` returns for a row: the positions, or the refusal
/// where one of them does not fit.
pub open spec fn is_positions_of(
    r: Result<Vec<i32>, ImageRendererError>,
    cells: Seq<CellView>,
    start_x: u32,
    char_width: u32,
) -> bool {
    &&& r is Ok <==> forall|k: int|
        0 <= k < cells.len() ==> start_x + #[trigger] offset(cells, k, char_width) <= i32::MAX
    &&& r is Ok ==> r->Ok_0@.len() == cells.len() && forall|k: int|
        0 <= k < cells.len() ==> #[trigger] r->Ok_0@[k] == start_x + offset(cells, k, char_width)
    &&& r is Err ==> r->Err_0 is Conversion
}

/// The horizontal position at which each cell of a row is drawn, as
/// `cell_positions` gives it, or nothing where the positions do not fit the
/// numbers they are counted in.
pub fn try_cell_positions(cells: &Vec<Cell>, start_x: u32, char_width: u32) -> (r: Option<
    Result<Vec<i32>, ImageRendererError>,
>)
    ensures
        r is Some <==> positions_fit(views(cells@), start_x, char_width),
        r is Some ==> is_positions_of(r->0, views(cells@), start_x, char_width),
{
    let ghost row = views(cells@);
    let mut end: u64 = start_x as u64;
    let mut i: usize = 0;
    while i < cells.len()
        invariant
            0 <= i <= cells.len(),
            row == views(cells@),
            row.len() == cells@.len(),
            forall|k: int| 0 <= k < i ==> text_columns(#[trigger] row[k].text) <= u32::MAX,
            end == start_x + offset(row, i as int, char_width),
            end <= u32::MAX,
        decreases cells.len() - i,
    {
        proof {
            assert(row[i as int] == cells@[i as int]@);
            lemma_offset_grows(row, i + 1, cells@.len() as int, char_width);
        }
        let columns: usize = match try_text_width(cells[i].text.as_str()) {
            Some(w) => w,
            None => {
                return None;
            },
        };
        if columns > 0xffff_ffff {
            return None;
        }
        assert(char_width * columns <= 0xffff_ffff * 0xffff_ffff) by (nonlinear_arith)
            requires
                0 <= char_width <= 0xffff_ffff,
                0 <= columns <= 0xffff_ffff,
        ;
        let step: u64 = (char_width as u64) * (columns as u64);
        if step > 0xffff_ffff - end {
            return None;
        }
        end = end + step;
        i = i + 1;
    }
    Some(cell_positions(cells, start_x, char_width))
}

/// Where the content starts, see `origin`.
pub fn content_origin(metrics: &WindowMetrics) -> (r: (u32, u32))
    requires
        metrics.border_width + metrics.title_bar_height + metrics.padding <= u32::MAX,
    ensures
        r.0 == origin(*metrics).0,
        r.1 == origin(*metrics).1,
{
    (
        metrics.border_width + metrics.padding,
        metrics.border_width + metrics.title_bar_height + metrics.padding,
    )
}

/// The vertical position at which row `row_idx` of the screen is drawn: one
/// row is left free above for the command line.  Fails where the position
/// does not fit.
pub fn row_position(start_y: u32, row_idx: usize, char_height: u32) -> (r: Result<
    i32,
    ImageRendererError,
>)
    requires
        row_idx < usize::MAX,
        row_idx + 1 <= u32::MAX ==> start_y + (row_idx + 1) * char_height <= u32::MAX,
    ensures
        r is Ok <==> row_idx + 1 <= u32::MAX && start_y + (row_idx + 1) * char_height <= i32::MAX,
        r is Ok ==> r->Ok_0 == start_y + (row_idx + 1) * char_height,
        r is Err ==> r->Err_0 is Conversion,
{
    let row: u32 = match u32::try_from(row_idx + 1) {
        Ok(v) => v,
        Err(e) => {
            return Err(ImageRendererError::Conversion(e));
        },
    };
    assert(row * char_height >= 0) by (nonlinear_arith)
        requires
            row >= 0,
            char_height >= 0,
    ;
    match i32_from_u32(start_y + row * char_height) {
        Ok(y) => Ok(y),
        Err(e) => Err(ImageRendererError::Conversion(e)),
    }
}

/// The horizontal position at which each cell of a row is drawn: the first
/// at `start_x`, each further one right of the one before by as many times
/// `char_width` as that one's text takes columns.  Fails where a position
/// does not fit.
pub fn cell_positions(cells: &Vec<Cell>, start_x: u32, char_width: u32) -> (r: Result<
    Vec<i32>,
    ImageRendererError,
>)
    requires
        positions_fit(views(cells@), start_x, char_width),
    ensures
        is_positions_of(r, views(cells@), start_x, char_width),
{
    let ghost row = views(cells@);
    let mut positions: Vec<i32> = Vec::new();
    let mut x_offset: u32 = 0;
    let mut i: usize = 0;
    while i < cells.len()
        invariant
            0 <= i <= cells.len(),
            row == views(cells@),
            row.len() == cells@.len(),
            positions_fit(row, start_x, char_width),
            x_offset == offset(row, i as int, char_width),
            positions@.len() == i,
            forall|k: int|
                0 <= k < i ==> #[trigger] positions@[k] == start_x + offset(row, k, char_width),
            forall|k: int| 0 <= k < i ==> start_x + #[trigger] offset(row, k, char_width) <= i32::MAX,
        decreases cells.len() - i,
    {
        proof {
            lemma_offset_grows(row, i as int, cells@.len() as int, char_width);
            lemma_offset_grows(row, i + 1, cells@.len() as int, char_width);
            assert(row[i as int] == cells@[i as int]@);
        }
        let x: i32 = match i32_from_u32(start_x + x_offset) {
            Ok(v) => v,
            Err(e) => {
                return Err(ImageRendererError::Conversion(e));
            },
        };
        positions.push(x);
        let columns: usize = text_width(cells[i].text.as_str());
        let columns: u32 = match u32::try_from(columns) {
            Ok(v) => v,
            Err(e) => {
                return Err(ImageRendererError::Conversion(e));
            },
        };
        assert(char_width * columns >= 0) by (nonlinear_arith)
            requires
                char_width >= 0,
                columns >= 0,
        ;
        x_offset = x_offset + char_width * columns;
        i = i + 1;
    }
    Ok(positions)
}

/// `i32::try_from` on a `u32`: the same number, or an error where it is more
/// than an `i32` can hold.
#[verifier::external_body]
pub(crate) fn i32_from_u32(value: u32) -> (r: Result<i32, core::num::TryFromIntError>)
    ensures
        value <= i32::MAX <==> r is Ok,
        r is Ok ==> r->Ok_0 == value,
{
    i32::try_from(value)
}

} // verus!
