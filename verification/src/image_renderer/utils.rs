//! Colours of cells as colours of pixels.

use vstd::prelude::*;
use vstd::array::*;
use crate::cell::{ColorAttribute, Rgba};

verus! {

/// The colour of the pixels for a colour of a cell: none for the default,
/// the palette entry for a palette index, the colour itself for a true
/// colour, whatever it falls back to.
pub open spec fn resolved(palette: Seq<Rgba>, attr: ColorAttribute) -> Option<Rgba> {
    match attr {
        ColorAttribute::Default => None,
        ColorAttribute::PaletteIndex(idx) => Some(palette[idx as int]),
        ColorAttribute::TrueColorWithDefaultFallback(c) => Some(c),
        ColorAttribute::TrueColorWithPaletteFallback(c, _) => Some(c),
    }
}

/// Looks up the colour of the pixels for a colour of a cell.
pub fn resolve_rgba_with_palette(color_palette: &[Rgba; 256], attr: ColorAttribute) -> (r: Option<
    Rgba,
>)
    ensures
        r == resolved(color_palette@, attr),
{
    match attr {
        ColorAttribute::Default => None,
        ColorAttribute::PaletteIndex(idx) => {
            let index: usize = (idx as usize) % 256;
            Some(color_palette[index])
        },
        ColorAttribute::TrueColorWithDefaultFallback(c)
        | ColorAttribute::TrueColorWithPaletteFallback(c, _) => Some(c),
    }
}

} // verus!
