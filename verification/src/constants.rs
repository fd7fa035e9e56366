//! Sizes shared by the terminal and the renderer.

use vstd::prelude::*;

verus! {

/// Height of one text row before supersampling, in pixels.
pub const FONT_SIZE: u32 = 20;

/// Factor by which the image is rendered larger than its nominal size.
pub const IMAGE_QUALITY_MULTIPLIER: u32 = 2;

/// Rows of a screen whose height is left to be found.
pub const SCREEN_MAX_HEIGHT: u16 = 500;

/// Columns of a screen whose width is left to be found.
pub const SCREEN_MAX_WIDTH: u16 = 250;

/// The largest width or height of a screen: two more than a pseudo-terminal
/// can be asked for, which is as far as the content of its screen can reach.
pub const MAX_SCREEN_SIDE: usize = 65_537;

/// How many cursor positions can be saved at once; saving beyond that is
/// ignored.
pub const MAX_SAVED_CURSORS: usize = 1024;

} // verus!
