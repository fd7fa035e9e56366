//! The window drawn around the output.

use vstd::prelude::*;
use crate::cell::{Cell, Rgba};
use crate::image_renderer::render_size::Size;
use crate::window_decoration::classic::{classic_metrics, Classic};
use crate::window_decoration::common::{
    command_line_cell, default_build_command_line, get_default_color_palette, palette_color,
};
use crate::window_decoration::no_decoration::{bare_metrics, NoDecoration};

pub mod classic;
pub mod common;
pub mod no_decoration;

verus! {

/// The decorations a user can ask for.
#[derive(Debug, Clone, Copy)]
pub enum WindowDecorationType {
    /// A title bar with three buttons.
    Classic,
}

/// Sizes of the parts of a window, in pixels.
#[derive(Debug, Clone, Copy)]
pub struct WindowMetrics {
    pub padding: u32,
    pub border_width: u32,
    pub title_bar_height: u32,
}

/// A window decoration.
#[derive(Debug, Clone, Copy)]
pub enum WindowDecoration {
    Classic(Classic),
    NoDecoration(NoDecoration),
}

/// The decoration for what the user asked: the one named, or none.
pub fn create_window_decoration(decoration_type: Option<&WindowDecorationType>) -> (r:
    WindowDecoration)
    ensures
        decoration_type is Some ==> r is Classic,
        decoration_type is None ==> r is NoDecoration,
{
    match decoration_type {
        Some(WindowDecorationType::Classic) => WindowDecoration::Classic(Classic),
        None => WindowDecoration::NoDecoration(NoDecoration),
    }
}

impl WindowDecoration {
    /// The metrics of this decoration for text of the given size.
    pub open spec fn metrics(self, char_size: Size) -> WindowMetrics {
        match self {
            WindowDecoration::Classic(_) => classic_metrics(char_size),
            WindowDecoration::NoDecoration(_) => bare_metrics(char_size),
        }
    }

    /// The command line as it is shown above the output.
    pub fn build_command_line(&self, command: &str) -> (cells: Vec<Cell>)
        requires
            command@.len() + 2 <= usize::MAX,
        ensures
            cells@.len() == command@.len() + 2,
            forall|k: int|
                0 <= k < cells@.len() ==> (#[trigger] cells@[k])@ == command_line_cell(
                    command@,
                    k,
                ),
    {
        default_build_command_line(command)
    }

    /// Padding, border and title bar for text of the given size.
    pub fn compute_metrics(&self, char_size: Size) -> (metrics: WindowMetrics)
        ensures
            metrics == self.metrics(char_size),
    {
        match self {
            WindowDecoration::Classic(d) => d.compute_metrics(char_size),
            WindowDecoration::NoDecoration(d) => d.compute_metrics(char_size),
        }
    }

    /// The colour of text that sets none.
    pub fn default_fg_color(&self) -> (c: Rgba)
        ensures
            c == crate::window_decoration::common::default_fg_color(),
    {
        Rgba { r: 0xee, g: 0xe8, b: 0xd5, a: 0xff }
    }

    /// The colour behind the text.
    pub fn default_bg_color(&self) -> (c: Rgba)
        ensures
            c == crate::window_decoration::common::default_bg_color(),
    {
        Rgba { r: 0x28, g: 0x2c, b: 0x34, a: 0xff }
    }

    /// The 256-colour palette.
    pub fn get_color_palette(&self) -> (palette: [Rgba; 256])
        ensures
            forall|i: int| 0 <= i < 256 ==> #[trigger] palette@[i] == palette_color(i as u8),
    {
        get_default_color_palette()
    }
}

} // verus!
