//! No decoration: the text on a plain background.

use vstd::prelude::*;
use crate::image_renderer::render_size::Size;
use crate::window_decoration::WindowMetrics;

verus! {

/// A window without title bar or border.
#[derive(Debug, Clone, Copy)]
pub struct NoDecoration;

/// The metrics without decoration for text of the given size: padding as
/// high as a row of text, no border and no title bar.
pub open spec fn bare_metrics(char_size: Size) -> WindowMetrics {
    WindowMetrics { padding: char_size.height, border_width: 0, title_bar_height: 0 }
}

impl NoDecoration {
    /// Padding, border and title bar for text of the given size.
    pub fn compute_metrics(&self, char_size: Size) -> (metrics: WindowMetrics)
        ensures
            metrics == bare_metrics(char_size),
    {
        WindowMetrics { padding: char_size.height, border_width: 0, title_bar_height: 0 }
    }
}

} // verus!
