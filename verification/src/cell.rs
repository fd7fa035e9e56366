//! What one cell of the screen looks like: colours, weight and decorations.

use vstd::prelude::*;

verus! {

/// A colour with eight bits for each of red, green, blue and opacity.
#[derive(Debug, Clone, Copy, PartialEq, Eq, Structural)]
pub struct Rgba {
    pub r: u8,
    pub g: u8,
    pub b: u8,
    pub a: u8,
}

/// A colour as an escape sequence names it.
#[derive(Debug, Clone, Copy, PartialEq, Eq, Structural)]
pub enum ColorSpec {
    /// Whatever the terminal uses when nothing is set.
    Default,
    /// An entry of the 256-colour palette.
    PaletteIndex(u8),
    /// A colour given by its channels.
    TrueColor(Rgba),
}

/// A colour as a cell stores it.
#[derive(Debug, Clone, Copy, PartialEq, Eq, Structural)]
pub enum ColorAttribute {
    /// A colour given by its channels; a renderer without true colour falls
    /// back to the palette entry.
    TrueColorWithPaletteFallback(Rgba, u8),
    /// A colour given by its channels; a renderer without true colour falls
    /// back to its default.
    TrueColorWithDefaultFallback(Rgba),
    /// An entry of the 256-colour palette.
    PaletteIndex(u8),
    /// Whatever the renderer uses when nothing is set.
    Default,
}

/// Weight of the glyph.
#[derive(Debug, Clone, Copy, PartialEq, Eq, Structural)]
pub enum Intensity {
    Normal,
    Bold,
    Half,
}

/// Line drawn under the glyph.
#[derive(Debug, Clone, Copy, PartialEq, Eq, Structural)]
pub enum Underline {
    Off,
    Single,
    Double,
    Curly,
    Dotted,
    Dashed,
}

/// Whether and how fast the glyph blinks.
#[derive(Debug, Clone, Copy, PartialEq, Eq, Structural)]
pub enum Blink {
    Off,
    Slow,
    Rapid,
}

/// Everything about a cell but its text.  The pen of a screen is one of these:
/// it is stamped on each cell that is written.
#[derive(Debug, Clone, Copy, PartialEq, Eq, Structural)]
pub struct CellAttributes {
    pub intensity: Intensity,
    pub underline: Underline,
    pub blink: Blink,
    pub italic: bool,
    pub reverse: bool,
    pub strikethrough: bool,
    pub invisible: bool,
    pub foreground: ColorAttribute,
    pub background: ColorAttribute,
    pub underline_color: ColorAttribute,
}

/// One visible cell of a screen.
#[derive(Debug, Clone, PartialEq, Eq)]
pub struct Cell {
    /// The column the cell starts at.
    pub index: usize,
    /// What the cell shows.
    pub text: String,
    /// How many columns the cell covers.
    pub width: usize,
    pub attrs: CellAttributes,
}

/// One cell of the buffer: its text, the number of columns it covers and its
/// attributes.  A cell that covers more than one column hides the cells in
/// the columns it covers.
pub ghost struct RawCell {
    pub text: Seq<char>,
    pub width: nat,
    pub attrs: CellAttributes,
}

/// A visible cell: the column it starts at, its text, the number of columns
/// it covers and its attributes.
pub ghost struct CellView {
    pub index: nat,
    pub text: Seq<char>,
    pub width: nat,
    pub attrs: CellAttributes,
}

impl View for Cell {
    type V = CellView;

    open spec fn view(&self) -> CellView {
        CellView {
            index: self.index as nat,
            text: self.text@,
            width: self.width as nat,
            attrs: self.attrs,
        }
    }
}

impl ColorSpec {
    /// The stored form of a named colour: a true colour falls back to the
    /// default, the other two stay what they are.
    pub open spec fn attribute(self) -> ColorAttribute {
        match self {
            ColorSpec::Default => ColorAttribute::Default,
            ColorSpec::PaletteIndex(n) => ColorAttribute::PaletteIndex(n),
            ColorSpec::TrueColor(c) => ColorAttribute::TrueColorWithDefaultFallback(c),
        }
    }

    /// Computes `attribute`.
    pub fn to_attribute(&self) -> (r: ColorAttribute)
        ensures
            r == self.attribute(),
    {
        match self {
            ColorSpec::Default => ColorAttribute::Default,
            ColorSpec::PaletteIndex(n) => ColorAttribute::PaletteIndex(*n),
            ColorSpec::TrueColor(c) => ColorAttribute::TrueColorWithDefaultFallback(*c),
        }
    }
}

impl CellAttributes {
    /// The attributes of a cell that nothing was done to.
    pub open spec fn blank_spec() -> CellAttributes {
        CellAttributes {
            intensity: Intensity::Normal,
            underline: Underline::Off,
            blink: Blink::Off,
            italic: false,
            reverse: false,
            strikethrough: false,
            invisible: false,
            foreground: ColorAttribute::Default,
            background: ColorAttribute::Default,
            underline_color: ColorAttribute::Default,
        }
    }

    /// Plain text in the default colours.
    pub fn blank() -> (r: CellAttributes)
        ensures
            r == CellAttributes::blank_spec(),
    {
        CellAttributes {
            intensity: Intensity::Normal,
            underline: Underline::Off,
            blink: Blink::Off,
            italic: false,
            reverse: false,
            strikethrough: false,
            invisible: false,
            foreground: ColorAttribute::Default,
            background: ColorAttribute::Default,
            underline_color: ColorAttribute::Default,
        }
    }
}

} // verus!
