//! The size of the image.

use vstd::prelude::*;
use crate::cell::{Cell, CellView};
use crate::window_decoration::WindowMetrics;

verus! {

/// A width and a height, in pixels.
#[derive(Debug, Clone, Copy)]
pub struct Size {
    pub width: u32,
    pub height: u32,
}

/// The number of characters in the cells of `cells`, all together.
pub open spec fn total_chars(cells: Seq<CellView>) -> nat
    decreases cells.len(),
{
    if cells.len() == 0 {
        0
    } else {
        total_chars(cells.drop_last()) + cells.last().text.len()
    }
}

/// The views of a run of cells.
pub open spec fn views(cells: Seq<Cell>) -> Seq<CellView> {
    cells.map_values(|c: Cell| c@)
}

/// The width of the frame: padding and border, on both sides.
pub open spec fn frame(metrics: WindowMetrics) -> nat {
    (2 * metrics.padding + 2 * metrics.border_width) as nat
}

/// The width of the image: that of the screen or of the command line,
/// whichever is wider, and the frame.
pub open spec fn image_width(
    command_chars: nat,
    cols: nat,
    metrics: WindowMetrics,
    char_size: Size,
) -> nat {
    let screen = cols * char_size.width + frame(metrics);
    let command = command_chars * char_size.width + frame(metrics);
    if screen >= command {
        screen as nat
    } else {
        command as nat
    }
}

/// The height of the image: the rows of the screen and one more for the
/// command line, the frame and the title bar.
pub open spec fn image_height(rows: nat, metrics: WindowMetrics, char_size: Size) -> nat {
    ((rows + 1) * char_size.height + frame(metrics) + metrics.title_bar_height) as nat
}

/// The size of the image that shows a screen of `cols` by `rows` cells under
/// the command line.
pub fn calculate_image_size(
    command_line: &Vec<Cell>,
    cols: usize,
    rows: usize,
    metrics: &WindowMetrics,
    char_size: Size,
) -> (size: Size)
    requires
        cols <= u32::MAX,
        rows <= u32::MAX,
        total_chars(views(command_line@)) <= u32::MAX,
        image_width(total_chars(views(command_line@)), cols as nat, *metrics, char_size)
            <= u32::MAX,
        image_height(rows as nat, *metrics, char_size) <= u32::MAX,
    ensures
        size.width == image_width(
            total_chars(views(command_line@)),
            cols as nat,
            *metrics,
            char_size,
        ),
        size.height == image_height(rows as nat, *metrics, char_size),
{
    let char_width: u32 = char_size.width;
    let char_height: u32 = char_size.height;
    let ghost cells = views(command_line@);
    let ghost w = image_width(total_chars(cells), cols as nat, *metrics, char_size);
    let ghost h = image_height(rows as nat, *metrics, char_size);
    assert((cols as nat) * char_width >= 0 && total_chars(cells) * char_width >= 0
        && (rows as nat + 1) * char_height >= 0) by (nonlinear_arith);
    assert((rows as nat + 1) * char_height == rows * char_height + char_height)
        by (nonlinear_arith);
    let padding: u32 = 2 * metrics.padding;
    let border: u32 = 2 * metrics.border_width;
    let mut content_width: u32 = (cols as u32) * char_width + padding + border;
    let mut content_height: u32 = (rows as u32) * char_height + padding + border
        + metrics.title_bar_height;
    let mut count: u32 = 0;
    let mut i: usize = 0;
    assert(cells.take(0) =~= Seq::<CellView>::empty());
    while i < command_line.len()
        invariant
            0 <= i <= command_line.len(),
            cells == views(command_line@),
            cells.len() == command_line@.len(),
            count == total_chars(cells.take(i as int)),
            total_chars(cells) <= u32::MAX,
        decreases command_line.len() - i,
    {
        proof {
            assert(cells.take(i + 1).drop_last() =~= cells.take(i as int));
            assert(cells.take(i + 1).last() == command_line@[i as int]@);
            lemma_total_chars_grows(cells, i + 1);
        }
        let n: usize = command_line[i].text.as_str().unicode_len();
        count = count + (n as u32);
        i = i + 1;
    }
    assert(cells.take(command_line.len() as int) =~= cells);
    let command_line_width: u32 = count * char_width + padding + border;
    if command_line_width > content_width {
        content_width = command_line_width;
    }
    content_height = content_height + char_height;
    assert(content_height == h) by (nonlinear_arith)
        requires
            content_height == rows * char_height + 2 * metrics.padding + 2 * metrics.border_width
                + metrics.title_bar_height + char_height,
            h == (rows as nat + 1) * char_height + frame(*metrics) + metrics.title_bar_height,
            frame(*metrics) == 2 * metrics.padding + 2 * metrics.border_width,
    ;
    Size { width: content_width, height: content_height }
}

/// The characters of the first `k` cells are no more than those of all.
proof fn lemma_total_chars_grows(cells: Seq<CellView>, k: int)
    requires
        0 <= k <= cells.len(),
    ensures
        total_chars(cells.take(k)) <= total_chars(cells),
    decreases cells.len() - k,
{
    if k == cells.len() {
        assert(cells.take(k) =~= cells);
    } else {
        lemma_total_chars_grows(cells, k + 1);
        assert(cells.take(k + 1).drop_last() =~= cells.take(k));
    }
}

} // verus!
