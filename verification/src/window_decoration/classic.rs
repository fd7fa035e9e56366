//! The classic decoration: a title bar with three buttons.

use vstd::prelude::*;
use crate::cell::Rgba;
use crate::image_renderer::render_size::Size;
use crate::image_renderer::{i32_from_u32, ImageRendererError};
use crate::window_decoration::WindowMetrics;

verus! {

/// A window with a title bar and three round buttons.
#[derive(Debug, Clone, Copy)]
pub struct Classic;

/// A filled circle on the canvas.
#[derive(Debug, Clone, Copy, PartialEq, Eq)]
pub struct Circle {
    pub x: i32,
    pub y: i32,
    pub radius: i32,
    pub color: Rgba,
}

/// Which corners of a panel are rounded.
#[derive(Debug, Clone, Copy, PartialEq, Eq)]
pub struct Corners {
    pub top_left: bool,
    pub top_right: bool,
    pub bottom_right: bool,
    pub bottom_left: bool,
}

/// A filled panel with rounded corners on the canvas.
#[derive(Debug, Clone, Copy, PartialEq, Eq)]
pub struct Panel {
    pub x: i32,
    pub y: i32,
    pub width: u32,
    pub height: u32,
    pub color: Rgba,
    pub corners: Corners,
}

/// All four corners.
pub open spec fn all_corners() -> Corners {
    Corners { top_left: true, top_right: true, bottom_right: true, bottom_left: true }
}

/// The two upper corners.
pub open spec fn top_corners() -> Corners {
    Corners { top_left: true, top_right: true, bottom_right: false, bottom_left: false }
}

/// The panels of the classic window on a canvas of the given size, from the
/// back: the border over the whole canvas, the body inside the border, and
/// the title bar at the top of the body.
pub open spec fn classic_panels(width: u32, height: u32, metrics: WindowMetrics) -> Seq<Panel> {
    let border = metrics.border_width as i32;
    seq![
        Panel { x: 0, y: 0, width, height, color: border_color(), corners: all_corners() },
        Panel {
            x: border,
            y: border,
            width: (width - 2 * metrics.border_width) as u32,
            height: (height - 2 * metrics.border_width) as u32,
            color: crate::window_decoration::common::default_bg_color(),
            corners: all_corners(),
        },
        Panel {
            x: border,
            y: border,
            width: (width - 2 * metrics.border_width) as u32,
            height: metrics.title_bar_height,
            color: title_bar_color(),
            corners: top_corners(),
        },
    ]
}

/// The colour of the close button.
pub open spec fn red() -> Rgba {
    Rgba { r: 255, g: 95, b: 87, a: 255 }
}

/// The colour of the minimise button.
pub open spec fn yellow() -> Rgba {
    Rgba { r: 255, g: 189, b: 45, a: 255 }
}

/// The colour of the maximise button.
pub open spec fn green() -> Rgba {
    Rgba { r: 52, g: 199, b: 89, a: 255 }
}

/// The colour of the border.
pub open spec fn border_color() -> Rgba {
    Rgba { r: 128, g: 128, b: 128, a: 255 }
}

/// The colour of the title bar.
pub open spec fn title_bar_color() -> Rgba {
    Rgba { r: 30, g: 34, b: 42, a: 255 }
}

/// The metrics of the classic decoration for text of the given size: padding
/// and title bar are as high as a row of text, and there is no border.
pub open spec fn classic_metrics(char_size: Size) -> WindowMetrics {
    WindowMetrics {
        padding: char_size.height,
        border_width: 0,
        title_bar_height: char_size.height,
    }
}

/// The buttons can be laid out on a canvas of this width: the numbers that
/// say where fit their types.
pub open spec fn buttons_fit(canvas_width: u32, metrics: WindowMetrics) -> bool {
    &&& metrics.border_width + metrics.title_bar_height / 2 <= i32::MAX
    &&& canvas_width - metrics.border_width <= i32::MAX
}

/// Button `k` of three, counted from the right: its centre is half way up
/// the title bar, its radius is a quarter of the bar's height, and from the
/// right edge each centre is three radii further left than the one before.
pub open spec fn button(canvas_width: u32, metrics: WindowMetrics, k: int) -> Circle {
    let radius = (metrics.title_bar_height / 4) as i32;
    let spacing = 3 * radius;
    let right = canvas_width - metrics.border_width;
    Circle {
        x: if k == 0 {
            (right - spacing) as i32
        } else if k == 1 {
            (right - 2 * spacing) as i32
        } else {
            (right - 3 * spacing) as i32
        },
        y: (metrics.border_width + metrics.title_bar_height / 2) as i32,
        radius,
        color: if k == 0 {
            red()
        } else if k == 1 {
            yellow()
        } else {
            green()
        },
    }
}

impl Classic {
    /// Padding, border and title bar for text of the given size.
    pub fn compute_metrics(&self, char_size: Size) -> (metrics: WindowMetrics)
        ensures
            metrics == classic_metrics(char_size),
    {
        let char_height = char_size.height;
        WindowMetrics { padding: char_height, border_width: 0, title_bar_height: char_height }
    }
}

/// The panels of the classic window, from the back.  Fails when the width of
/// the border does not fit a coordinate.
pub fn window_panels(canvas_width: u32, canvas_height: u32, metrics: &WindowMetrics) -> (r: Result<
    Vec<Panel>,
    ImageRendererError,
>)
    requires
        2 * metrics.border_width <= canvas_width,
        2 * metrics.border_width <= canvas_height,
    ensures
        metrics.border_width <= i32::MAX <==> r is Ok,
        r is Ok ==> r->Ok_0@ =~= classic_panels(canvas_width, canvas_height, *metrics),
        r is Err ==> r->Err_0 is Conversion,
{
    let border: i32 = match i32_from_u32(metrics.border_width) {
        Ok(v) => v,
        Err(e) => {
            return Err(ImageRendererError::Conversion(e));
        },
    };
    let all = Corners { top_left: true, top_right: true, bottom_right: true, bottom_left: true };
    let top = Corners { top_left: true, top_right: true, bottom_right: false, bottom_left: false };
    let inner_width: u32 = canvas_width - 2 * metrics.border_width;
    let mut panels: Vec<Panel> = Vec::new();
    panels.push(
        Panel {
            x: 0,
            y: 0,
            width: canvas_width,
            height: canvas_height,
            color: Rgba { r: 128, g: 128, b: 128, a: 255 },
            corners: all,
        },
    );
    panels.push(
        Panel {
            x: border,
            y: border,
            width: inner_width,
            height: canvas_height - 2 * metrics.border_width,
            color: Rgba { r: 0x28, g: 0x2c, b: 0x34, a: 0xff },
            corners: all,
        },
    );
    panels.push(
        Panel {
            x: border,
            y: border,
            width: inner_width,
            height: metrics.title_bar_height,
            color: Rgba { r: 30, g: 34, b: 42, a: 255 },
            corners: top,
        },
    );
    Ok(panels)
}

/// Where the three buttons of the title bar go: close, minimise and maximise,
/// from the right.  Fails when a coordinate does not fit.
pub fn window_buttons(canvas_width: u32, metrics: &WindowMetrics) -> (r: Result<
    Vec<Circle>,
    ImageRendererError,
>)
    requires
        metrics.border_width + metrics.title_bar_height / 2 <= u32::MAX,
        metrics.border_width <= canvas_width,
        9 * (metrics.title_bar_height / 4) <= i32::MAX,
    ensures
        buttons_fit(canvas_width, *metrics) <==> r is Ok,
        r is Ok ==> r->Ok_0@ =~= seq![
            button(canvas_width, *metrics, 0),
            button(canvas_width, *metrics, 1),
            button(canvas_width, *metrics, 2),
        ],
        r is Err ==> r->Err_0 is Conversion,
{
    let btn_y: i32 = match i32_from_u32(metrics.border_width + metrics.title_bar_height / 2) {
        Ok(v) => v,
        Err(e) => {
            return Err(ImageRendererError::Conversion(e));
        },
    };
    let radius: i32 = match i32_from_u32(metrics.title_bar_height / 4) {
        Ok(v) => v,
        Err(e) => {
            return Err(ImageRendererError::Conversion(e));
        },
    };
    let spacing: i32 = radius * 3;
    let right: i32 = match i32_from_u32(canvas_width - metrics.border_width) {
        Ok(v) => v,
        Err(e) => {
            return Err(ImageRendererError::Conversion(e));
        },
    };
    let mut buttons: Vec<Circle> = Vec::new();
    buttons.push(
        Circle { x: right - spacing, y: btn_y, radius, color: Rgba { r: 255, g: 95, b: 87, a: 255 } },
    );
    buttons.push(
        Circle {
            x: right - 2 * spacing,
            y: btn_y,
            radius,
            color: Rgba { r: 255, g: 189, b: 45, a: 255 },
        },
    );
    buttons.push(
        Circle {
            x: right - 3 * spacing,
            y: btn_y,
            radius,
            color: Rgba { r: 52, g: 199, b: 89, a: 255 },
        },
    );
    Ok(buttons)
}

} // verus!
