//! What is drawn for a cell: the colour and font of its text, and the
//! rectangles behind and through it.

use vstd::prelude::*;
use vstd::array::*;
use vstd::string::*;
use crate::cell::{CellAttributes, Intensity, Rgba, Underline};
use crate::image_renderer::render_size::Size;
use crate::image_renderer::utils::{resolve_rgba_with_palette, resolved};

verus! {

/// The cut of the font.
#[derive(Debug, Clone, Copy, PartialEq, Eq, Structural)]
pub enum FontStyle {
    Regular,
    Bold,
    Italic,
    BoldItalic,
}

/// How the text of a cell is drawn.
#[derive(Debug, Clone, Copy, PartialEq, Eq)]
pub struct TextStyle {
    pub color: Rgba,
    pub font: FontStyle,
}

/// A filled rectangle on the canvas.
#[derive(Debug, Clone, Copy, PartialEq, Eq)]
pub struct Rect {
    pub x: i32,
    pub y: i32,
    pub width: u32,
    pub height: u32,
    pub color: Rgba,
}

/// The colour of the text of a cell: palette entry 0 on reversed cells,
/// else the foreground, or palette entry 7 where that is the default.
pub open spec fn text_color(palette: Seq<Rgba>, attrs: CellAttributes) -> Rgba {
    if attrs.reverse {
        palette[0]
    } else {
        match resolved(palette, attrs.foreground) {
            Some(c) => c,
            None => palette[7],
        }
    }
}

/// The cut of the font for a cell: bold for bold cells, italic for italic
/// ones, both for both.
pub open spec fn font_style(attrs: CellAttributes) -> FontStyle {
    let bold = attrs.intensity is Bold;
    if bold && attrs.italic {
        FontStyle::BoldItalic
    } else if bold {
        FontStyle::Bold
    } else if attrs.italic {
        FontStyle::Italic
    } else {
        FontStyle::Regular
    }
}

/// The colour behind a cell, if any is drawn: on reversed cells the
/// foreground, or palette entry 7 where that is the default; else the
/// background, and nothing where that is the default.
pub open spec fn fill_color(palette: Seq<Rgba>, attrs: CellAttributes) -> Option<Rgba> {
    if attrs.reverse {
        match resolved(palette, attrs.foreground) {
            Some(c) => Some(c),
            None => Some(palette[7]),
        }
    } else {
        resolved(palette, attrs.background)
    }
}

/// The colour of the underline of a cell: its underline colour, or palette
/// entry 7 where that is the default.
pub open spec fn underline_color(palette: Seq<Rgba>, attrs: CellAttributes) -> Rgba {
    match resolved(palette, attrs.underline_color) {
        Some(c) => c,
        None => palette[7],
    }
}

/// The rectangles drawn for a cell whose text has `chars` characters and is
/// drawn at `x`, `y`: the background as wide as the text and as high as a
/// row, where there is one; a line one pixel high under the row for
/// underlined cells; and a line one pixel high half way down the row, in
/// palette entry 7, for struck-through cells.
pub open spec fn cell_rects(
    chars: nat,
    x: i32,
    y: i32,
    char_size: Size,
    palette: Seq<Rgba>,
    attrs: CellAttributes,
) -> Seq<Rect> {
    let width = (chars * char_size.width) as u32;
    let fill = match fill_color(palette, attrs) {
        Some(color) => seq![Rect { x, y, width, height: char_size.height, color }],
        None => Seq::empty(),
    };
    let under = if attrs.underline != Underline::Off {
        seq![
            Rect {
                x,
                y: (y + char_size.height) as i32,
                width,
                height: 1,
                color: underline_color(palette, attrs),
            },
        ]
    } else {
        Seq::empty()
    };
    let strike = if attrs.strikethrough {
        seq![
            Rect { x, y: (y + char_size.height / 2) as i32, width, height: 1, color: palette[7] },
        ]
    } else {
        Seq::empty()
    };
    fill + under + strike
}

/// Colour and font for the text of a cell.
pub fn text_style(color_palette: &[Rgba; 256], attributes: &CellAttributes) -> (style: TextStyle)
    ensures
        style.color == text_color(color_palette@, *attributes),
        style.font == font_style(*attributes),
{
    let color = if attributes.reverse {
        color_palette[0]
    } else {
        match resolve_rgba_with_palette(color_palette, attributes.foreground) {
            Some(c) => c,
            None => color_palette[7],
        }
    };
    let is_bold = match attributes.intensity {
        Intensity::Bold => true,
        _ => false,
    };
    let font = if is_bold && attributes.italic {
        FontStyle::BoldItalic
    } else if is_bold {
        FontStyle::Bold
    } else if attributes.italic {
        FontStyle::Italic
    } else {
        FontStyle::Regular
    };
    TextStyle { color, font }
}

/// The rectangles to draw for a cell, in the order in which they are drawn.
pub fn cell_decorations(
    text: &str,
    x: i32,
    y: i32,
    char_size: Size,
    color_palette: &[Rgba; 256],
    attributes: &CellAttributes,
) -> (rects: Vec<Rect>)
    requires
        text@.len() <= u32::MAX,
        text@.len() * char_size.width <= u32::MAX,
        char_size.height <= i32::MAX,
        y + char_size.height <= i32::MAX,
    ensures
        rects@ == cell_rects(text@.len(), x, y, char_size, color_palette@, *attributes),
{
    let chars: usize = text.unicode_len();
    let width: u32 = (chars as u32) * char_size.width;
    let mut rects: Vec<Rect> = Vec::new();
    let bg_color = if attributes.reverse {
        match resolve_rgba_with_palette(color_palette, attributes.foreground) {
            Some(c) => Some(c),
            None => Some(color_palette[7]),
        }
    } else {
        resolve_rgba_with_palette(color_palette, attributes.background)
    };
    let ghost fill = match fill_color(color_palette@, *attributes) {
        Some(color) => seq![Rect { x, y, width, height: char_size.height, color }],
        None => Seq::<Rect>::empty(),
    };
    if let Some(color) = bg_color {
        rects.push(Rect { x, y, width, height: char_size.height, color });
    }
    assert(rects@ =~= fill);
    let ghost under = if attributes.underline != Underline::Off {
        seq![
            Rect {
                x,
                y: (y + char_size.height) as i32,
                width,
                height: 1,
                color: underline_color(color_palette@, *attributes),
            },
        ]
    } else {
        Seq::<Rect>::empty()
    };
    let underlined = match attributes.underline {
        Underline::Off => false,
        _ => true,
    };
    if underlined {
        let color = match resolve_rgba_with_palette(color_palette, attributes.underline_color) {
            Some(c) => c,
            None => color_palette[7],
        };
        rects.push(Rect { x, y: y + (char_size.height as i32), width, height: 1, color });
    }
    assert(rects@ =~= fill + under);
    if attributes.strikethrough {
        rects.push(
            Rect {
                x,
                y: y + ((char_size.height as i32) / 2),
                width,
                height: 1,
                color: color_palette[7],
            },
        );
    }
    assert(rects@ =~= cell_rects(text@.len(), x, y, char_size, color_palette@, *attributes));
    rects
}

} // verus!
