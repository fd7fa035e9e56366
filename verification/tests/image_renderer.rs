use shellshot::cell::{Cell, CellAttributes, ColorAttribute, Intensity, Rgba, Underline};
use shellshot::image_renderer::canvas::{cell_decorations, text_style, FontStyle, Rect};
use shellshot::image_renderer::render_size::{calculate_image_size, Size};
use shellshot::image_renderer::utils::resolve_rgba_with_palette;
use shellshot::image_renderer::{
    cell_positions, content_origin, row_position, text_width, try_cell_positions,
    try_text_width, ImageRendererError,
};
use shellshot::window_decoration::common::get_default_color_palette;
use shellshot::window_decoration::WindowMetrics;

fn sample_palette() -> [Rgba; 256] {
    let mut palette = [Rgba { r: 0, g: 0, b: 0, a: 255 }; 256];
    for (i, color) in palette.iter_mut().enumerate() {
        *color = Rgba { r: i as u8, g: (255 - i) as u8, b: i as u8 / 2, a: 255 };
    }
    palette
}

fn rounded(c: (f32, f32, f32, f32)) -> Rgba {
    Rgba {
        r: (c.0 * 255.0_f32).round() as u8,
        g: (c.1 * 255.0_f32).round() as u8,
        b: (c.2 * 255.0_f32).round() as u8,
        a: (c.3 * 255.0_f32).round() as u8,
    }
}

fn cell(text: &str) -> Cell {
    Cell { index: 0, text: text.to_string(), width: 1, attrs: CellAttributes::blank() }
}

#[test]
fn test_default_returns_none() {
    let palette = sample_palette();
    let result = resolve_rgba_with_palette(&palette, ColorAttribute::Default);
    assert!(result.is_none());
}

#[test]
fn test_truecolor_with_default_fallback() {
    let palette = sample_palette();

    let c: (f32, f32, f32, f32) = (0.5, 0.25, 1.0, 0.75);
    let result = resolve_rgba_with_palette(
        &palette,
        ColorAttribute::TrueColorWithDefaultFallback(rounded(c)),
    );

    assert_eq!(
        result,
        Some(Rgba {
            r: (c.0 * 255.0_f32).round() as u8,
            g: (c.1 * 255.0_f32).round() as u8,
            b: (c.2 * 255.0_f32).round() as u8,
            a: (c.3 * 255.0_f32).round() as u8,
        })
    );
}

#[test]
fn test_truecolor_with_palette_fallback() {
    let palette = sample_palette();

    let c: (f32, f32, f32, f32) = (0.1, 0.2, 0.3, 0.4);
    let fallback_index = 42;
    let result = resolve_rgba_with_palette(
        &palette,
        ColorAttribute::TrueColorWithPaletteFallback(rounded(c), fallback_index),
    );

    assert_eq!(
        result,
        Some(Rgba {
            r: (c.0 * 255.0_f32).round() as u8,
            g: (c.1 * 255.0_f32).round() as u8,
            b: (c.2 * 255.0_f32).round() as u8,
            a: (c.3 * 255.0_f32).round() as u8,
        })
    );
}

#[test]
fn test_palette_index_wrap_around() {
    let palette = sample_palette();

    for idx in 256..260 {
        let expected = palette[idx % 256];
        let result = resolve_rgba_with_palette(&palette, ColorAttribute::PaletteIndex(idx as u8));
        assert_eq!(result, Some(expected));
    }
}

#[test]
fn test_truecolor_edge_cases() {
    let palette = sample_palette();

    let c: (f32, f32, f32, f32) = (0.0, 1.0, 0.0, 1.0);
    let result = resolve_rgba_with_palette(
        &palette,
        ColorAttribute::TrueColorWithDefaultFallback(rounded(c)),
    );
    assert_eq!(result, Some(Rgba { r: 0, g: 255, b: 0, a: 255 }));
}

#[test]
fn every_palette_index_resolves_to_its_entry() {
    let palette = sample_palette();
    for i in 0..=255u8 {
        assert_eq!(
            resolve_rgba_with_palette(&palette, ColorAttribute::PaletteIndex(i)),
            Some(palette[i as usize])
        );
    }
}

#[test]
fn image_size_is_screen_plus_frame_and_one_row_for_the_command() {
    let metrics = WindowMetrics { padding: 10, border_width: 2, title_bar_height: 30 };
    let char_size = Size { width: 8, height: 16 };
    let command_line = vec![cell("$"), cell(" "), cell("l"), cell("s")];
    let size = calculate_image_size(&command_line, 80, 24, &metrics, char_size);
    assert_eq!(size.width, 80 * 8 + 2 * 10 + 2 * 2);
    assert_eq!(size.height, 24 * 16 + 2 * 10 + 2 * 2 + 30 + 16);

    // a command line wider than the screen sets the width
    let size = calculate_image_size(&command_line, 3, 0, &metrics, char_size);
    assert_eq!(size.width, 4 * 8 + 24);
    assert_eq!(size.height, 16 + 24 + 30);

    // characters are counted, not cells
    let long = vec![cell("abc"), cell(""), cell("\u{4e16}\u{754c}")];
    let size = calculate_image_size(&long, 1, 1, &metrics, char_size);
    assert_eq!(size.width, 5 * 8 + 24);
}

#[test]
fn text_is_drawn_in_the_foreground_or_palette_entry_seven() {
    let palette = get_default_color_palette();
    let mut attrs = CellAttributes::blank();
    assert_eq!(text_style(&palette, &attrs).color, palette[7]);
    assert_eq!(text_style(&palette, &attrs).font, FontStyle::Regular);

    attrs.foreground = ColorAttribute::PaletteIndex(1);
    assert_eq!(text_style(&palette, &attrs).color, palette[1]);

    attrs.reverse = true;
    assert_eq!(text_style(&palette, &attrs).color, palette[0]);

    attrs.intensity = Intensity::Bold;
    assert_eq!(text_style(&palette, &attrs).font, FontStyle::Bold);
    attrs.italic = true;
    assert_eq!(text_style(&palette, &attrs).font, FontStyle::BoldItalic);
    attrs.intensity = Intensity::Half;
    assert_eq!(text_style(&palette, &attrs).font, FontStyle::Italic);
}

#[test]
fn a_plain_cell_has_no_decorations() {
    let palette = get_default_color_palette();
    let size = Size { width: 8, height: 16 };
    let rects = cell_decorations("ab", 5, 7, size, &palette, &CellAttributes::blank());
    assert!(rects.is_empty());
}

#[test]
fn decorations_are_background_then_underline_then_strike() {
    let palette = get_default_color_palette();
    let size = Size { width: 8, height: 16 };
    let blue = Rgba { r: 0, g: 0, b: 200, a: 255 };
    let attrs = CellAttributes {
        background: ColorAttribute::PaletteIndex(4),
        underline: Underline::Single,
        underline_color: ColorAttribute::TrueColorWithDefaultFallback(blue),
        strikethrough: true,
        ..CellAttributes::blank()
    };
    let rects = cell_decorations("abc", 5, 7, size, &palette, &attrs);
    assert_eq!(
        rects,
        vec![
            Rect { x: 5, y: 7, width: 24, height: 16, color: palette[4] },
            Rect { x: 5, y: 23, width: 24, height: 1, color: blue },
            Rect { x: 5, y: 15, width: 24, height: 1, color: palette[7] },
        ]
    );

    let reversed = CellAttributes { reverse: true, ..CellAttributes::blank() };
    assert_eq!(
        cell_decorations("a", 0, 0, size, &palette, &reversed),
        vec![Rect { x: 0, y: 0, width: 8, height: 16, color: palette[7] }]
    );
    let reversed = CellAttributes {
        reverse: true,
        foreground: ColorAttribute::PaletteIndex(2),
        background: ColorAttribute::PaletteIndex(3),
        ..CellAttributes::blank()
    };
    assert_eq!(
        cell_decorations("a", 0, 0, size, &palette, &reversed),
        vec![Rect { x: 0, y: 0, width: 8, height: 16, color: palette[2] }]
    );
    let underlined = CellAttributes { underline: Underline::Curly, ..CellAttributes::blank() };
    assert_eq!(
        cell_decorations("a", 0, 0, size, &palette, &underlined),
        vec![Rect { x: 0, y: 16, width: 8, height: 1, color: palette[7] }]
    );
}

#[test]
fn text_width_counts_columns() {
    assert_eq!(text_width(""), 0);
    assert_eq!(text_width("abc"), 3);
    assert_eq!(text_width("\u{4e16}\u{754c}"), 4);
    assert_eq!(text_width("a\u{301}"), 1);
    assert_eq!(text_width("\u{7}"), 0);
}

#[test]
fn cells_are_placed_by_the_columns_before_them() {
    let cells = vec![cell("$"), cell(" "), cell("\u{4e16}"), cell("x"), cell(""), cell("y")];
    assert_eq!(cell_positions(&cells, 12, 10).unwrap(), vec![12, 22, 32, 52, 62, 62]);
    assert_eq!(cell_positions(&Vec::new(), 12, 10).unwrap(), Vec::<i32>::new());
}

#[test]
fn a_position_that_does_not_fit_is_refused() {
    let cells = vec![cell("a"), cell("b")];
    assert_eq!(
        cell_positions(&cells, i32::MAX as u32 - 5, 5).unwrap(),
        vec![i32::MAX - 5, i32::MAX]
    );
    let r = cell_positions(&cells, i32::MAX as u32 - 4, 5);
    assert!(matches!(r, Err(ImageRendererError::Conversion(_))));
    let r = cell_positions(&cells, i32::MAX as u32 + 1, 0);
    assert!(matches!(r, Err(ImageRendererError::Conversion(_))));
}

#[test]
fn rows_are_placed_below_the_command_line() {
    assert_eq!(row_position(40, 0, 16).unwrap(), 56);
    assert_eq!(row_position(40, 3, 16).unwrap(), 104);
    assert_eq!(row_position(0, 0, i32::MAX as u32).unwrap(), i32::MAX);
    assert!(matches!(row_position(1, 0, i32::MAX as u32), Err(ImageRendererError::Conversion(_))));
}

#[test]
fn content_starts_inside_border_title_bar_and_padding() {
    let metrics = WindowMetrics { padding: 10, border_width: 2, title_bar_height: 30 };
    assert_eq!(content_origin(&metrics), (12, 42));
}

#[test]
fn checked_width_and_positions_agree_with_the_unchecked() {
    assert_eq!(try_text_width("a\u{4e16}b"), Some(4));
    assert_eq!(try_text_width(""), Some(0));
    let cells = vec![cell("$"), cell(" "), cell("\u{4e16}"), cell("x")];
    assert_eq!(try_cell_positions(&cells, 12, 10).unwrap().unwrap(), vec![12, 22, 32, 52]);
    let far = try_cell_positions(&cells, i32::MAX as u32, 1).unwrap();
    assert!(matches!(far, Err(ImageRendererError::Conversion(_))));
}

#[test]
fn positions_that_cannot_be_counted_are_not_computed() {
    let cells = vec![cell("ab"), cell("c")];
    assert!(try_cell_positions(&cells, u32::MAX - 3, 1).is_some());
    assert!(try_cell_positions(&cells, u32::MAX - 2, 1).is_none());
    assert!(try_cell_positions(&cells, 0, u32::MAX).is_none());
    assert!(try_cell_positions(&cells, u32::MAX, 0).is_some());
}
