//! What all window decorations share: the colours and the command line.

use vstd::prelude::*;
use vstd::array::*;
use vstd::string::*;
use crate::cell::{Cell, CellAttributes, CellView, ColorAttribute, Rgba};

verus! {

/// The background of the window.
pub open spec fn default_bg_color() -> Rgba {
    Rgba { r: 0x28, g: 0x2c, b: 0x34, a: 0xff }
}

/// The colour of text that sets none.
pub open spec fn default_fg_color() -> Rgba {
    Rgba { r: 0xee, g: 0xe8, b: 0xd5, a: 0xff }
}

/// One step of the six by six by six colour cube.
pub open spec fn cube_level(step: int) -> u8 {
    if step == 0 {
        0x00
    } else if step == 1 {
        0x5f
    } else if step == 2 {
        0x87
    } else if step == 3 {
        0xaf
    } else if step == 4 {
        0xd7
    } else {
        0xff
    }
}

/// Entry `i` of the 256-colour palette.
///
/// 0 to 15 are the named colours: 0 the background, 7 the foreground, 8 grey
/// and 15 white; of the others, 1 to 6 are dark and 9 to 14 bright, with red
/// in bit 0, green in bit 1 and blue in bit 2.  16 to 231 are the colour
/// cube, red changing slowest.  232 to 255 are greys from dark to light.
pub open spec fn palette_color(i: u8) -> Rgba {
    if i == 0 {
        Rgba { r: 0x28, g: 0x2c, b: 0x34, a: 0xff }
    } else if i == 7 {
        Rgba { r: 0xee, g: 0xe8, b: 0xd5, a: 0xff }
    } else if i == 8 {
        Rgba { r: 0x80, g: 0x80, b: 0x80, a: 0xff }
    } else if i == 15 {
        Rgba { r: 0xff, g: 0xff, b: 0xff, a: 0xff }
    } else if i < 16 {
        let k: u8 = if i >= 8 {
            0xff
        } else {
            0x80
        };
        Rgba {
            r: if i % 2 == 1 {
                k
            } else {
                0
            },
            g: if (i / 2) % 2 == 1 {
                k
            } else {
                0
            },
            b: if (i / 4) % 2 == 1 {
                k
            } else {
                0
            },
            a: 0xff,
        }
    } else if i < 232 {
        Rgba {
            r: cube_level((i - 16) / 36),
            g: cube_level(((i - 16) / 6) % 6),
            b: cube_level((i - 16) % 6),
            a: 0xff,
        }
    } else {
        let x = (8 + (i - 232) * 10) as u8;
        Rgba { r: x, g: x, b: x, a: 0xff }
    }
}

/// The attributes of the prompt sign: bright green text.
pub open spec fn prompt_attributes() -> CellAttributes {
    CellAttributes { foreground: ColorAttribute::PaletteIndex(10), ..CellAttributes::blank_spec() }
}

/// Cell `k` of the command line for `command`: the prompt sign, a space, then
/// the command, one character to a cell.
pub open spec fn command_line_cell(command: Seq<char>, k: int) -> CellView {
    if k == 0 {
        CellView { index: 0, text: seq!['$'], width: 1, attrs: prompt_attributes() }
    } else if k == 1 {
        CellView { index: 1, text: seq![' '], width: 1, attrs: CellAttributes::blank_spec() }
    } else {
        CellView {
            index: k as nat,
            text: seq![command[k - 2]],
            width: 1,
            attrs: CellAttributes::blank_spec(),
        }
    }
}

fn level(step: u8) -> (r: u8)
    requires
        step < 6,
    ensures
        r == cube_level(step as int),
{
    if step == 0 {
        0x00
    } else if step == 1 {
        0x5f
    } else if step == 2 {
        0x87
    } else if step == 3 {
        0xaf
    } else if step == 4 {
        0xd7
    } else {
        0xff
    }
}

fn palette_entry(i: u8) -> (c: Rgba)
    ensures
        c == palette_color(i),
{
    if i == 0 {
        Rgba { r: 0x28, g: 0x2c, b: 0x34, a: 0xff }
    } else if i == 7 {
        Rgba { r: 0xee, g: 0xe8, b: 0xd5, a: 0xff }
    } else if i == 8 {
        Rgba { r: 0x80, g: 0x80, b: 0x80, a: 0xff }
    } else if i == 15 {
        Rgba { r: 0xff, g: 0xff, b: 0xff, a: 0xff }
    } else if i < 16 {
        let k: u8 = if i >= 8 {
            0xff
        } else {
            0x80
        };
        let r: u8 = if i % 2 == 1 {
            k
        } else {
            0
        };
        let g: u8 = if (i / 2) % 2 == 1 {
            k
        } else {
            0
        };
        let b: u8 = if (i / 4) % 2 == 1 {
            k
        } else {
            0
        };
        Rgba { r, g, b, a: 0xff }
    } else if i < 232 {
        let j: u8 = i - 16;
        Rgba { r: level(j / 36), g: level((j / 6) % 6), b: level(j % 6), a: 0xff }
    } else {
        let x: u8 = 8 + (i - 232) * 10;
        Rgba { r: x, g: x, b: x, a: 0xff }
    }
}

/// The 256-colour palette.
pub fn get_default_color_palette() -> (palette: [Rgba; 256])
    ensures
        forall|i: int| 0 <= i < 256 ==> #[trigger] palette@[i] == palette_color(i as u8),
{
    let mut palette: [Rgba; 256] = [Rgba { r: 0, g: 0, b: 0, a: 0xff };256];
    let mut i: usize = 0;
    while i < 256
        invariant
            0 <= i <= 256,
            forall|j: int| 0 <= j < i ==> #[trigger] palette@[j] == palette_color(j as u8),
        decreases 256 - i,
    {
        palette[i] = palette_entry(i as u8);
        i = i + 1;
    }
    palette
}

/// The command line as it is shown above the output: a prompt sign in bright
/// green, a space, and the command.
pub fn default_build_command_line(command: &str) -> (cells: Vec<Cell>)
    requires
        command@.len() + 2 <= usize::MAX,
    ensures
        cells@.len() == command@.len() + 2,
        forall|k: int|
            0 <= k < cells@.len() ==> (#[trigger] cells@[k])@ == command_line_cell(command@, k),
{
    let mut prompt_attrs = CellAttributes::blank();
    prompt_attrs.foreground = ColorAttribute::PaletteIndex(10);
    let default_attrs = CellAttributes::blank();
    let mut cells: Vec<Cell> = Vec::new();
    proof {
        reveal_strlit("$");
        reveal_strlit(" ");
        assert("$"@ =~= seq!['$']);
        assert(" "@ =~= seq![' ']);
    }
    cells.push(Cell { index: 0, text: String::from_str("$"), width: 1, attrs: prompt_attrs });
    cells.push(Cell { index: 1, text: String::from_str(" "), width: 1, attrs: default_attrs });
    let n: usize = command.unicode_len();
    let mut i: usize = 0;
    while i < n
        invariant
            0 <= i <= n,
            n == command@.len(),
            n + 2 <= usize::MAX,
            default_attrs == CellAttributes::blank_spec(),
            cells@.len() == i + 2,
            forall|k: int|
                0 <= k < cells@.len() ==> (#[trigger] cells@[k])@ == command_line_cell(
                    command@,
                    k,
                ),
        decreases n - i,
    {
        let text = crate::text::string_of_char(command.get_char(i));
        cells.push(Cell { index: i + 2, text, width: 1, attrs: default_attrs });
        i = i + 1;
    }
    cells
}

} // verus!
