use shellshot::cell::{CellAttributes, ColorAttribute, Rgba};
use shellshot::image_renderer::render_size::Size;
use shellshot::image_renderer::ImageRendererError;
use shellshot::window_decoration::classic::{
    window_buttons, window_panels, Circle, Classic, Corners, Panel,
};
use shellshot::window_decoration::common::{default_build_command_line, get_default_color_palette};
use shellshot::window_decoration::no_decoration::NoDecoration;
use shellshot::window_decoration::{
    create_window_decoration, WindowDecoration, WindowDecorationType, WindowMetrics,
};

fn all_window_decorations() -> Vec<Option<WindowDecorationType>> {
    vec![Some(WindowDecorationType::Classic), None]
}

fn rgb(r: u8, g: u8, b: u8) -> Rgba {
    Rgba { r, g, b, a: 255 }
}

#[test]
fn test_all_window_decorations_command_line() {
    for decoration_type in all_window_decorations() {
        let window_decoration = create_window_decoration(decoration_type.as_ref());
        let command_line = window_decoration.build_command_line("echo test");

        assert!(
            !command_line.is_empty(),
            "Unexpected number of cells for {decoration_type:?}",
        );
    }
}

#[test]
fn the_decoration_is_the_one_asked_for() {
    assert!(matches!(
        create_window_decoration(Some(&WindowDecorationType::Classic)),
        WindowDecoration::Classic(_)
    ));
    assert!(matches!(create_window_decoration(None), WindowDecoration::NoDecoration(_)));
}

#[test]
fn the_command_line_is_prompt_space_command() {
    let cells = default_build_command_line("ls -l");
    assert_eq!(cells.len(), 7);
    let text: String = cells.iter().map(|c| c.text.clone()).collect();
    assert_eq!(text, "$ ls -l");
    for (k, cell) in cells.iter().enumerate() {
        assert_eq!(cell.index, k);
        assert_eq!(cell.width, 1);
        if k == 0 {
            assert_eq!(
                cell.attrs,
                CellAttributes {
                    foreground: ColorAttribute::PaletteIndex(10),
                    ..CellAttributes::blank()
                }
            );
        } else {
            assert_eq!(cell.attrs, CellAttributes::blank());
        }
    }
    assert_eq!(default_build_command_line("").len(), 2);
}

#[test]
fn metrics_follow_the_height_of_the_text() {
    let char_size = Size { width: 9, height: 21 };
    let classic = Classic.compute_metrics(char_size);
    assert_eq!((classic.padding, classic.border_width, classic.title_bar_height), (21, 0, 21));
    let bare = NoDecoration.compute_metrics(char_size);
    assert_eq!((bare.padding, bare.border_width, bare.title_bar_height), (21, 0, 0));
    let d = create_window_decoration(Some(&WindowDecorationType::Classic));
    assert_eq!(d.compute_metrics(char_size).title_bar_height, 21);
    let d = create_window_decoration(None);
    assert_eq!(d.compute_metrics(char_size).title_bar_height, 0);
}

#[test]
fn the_named_colours_of_the_palette() {
    let p = get_default_color_palette();
    assert_eq!(p[0], rgb(0x28, 0x2c, 0x34));
    assert_eq!(p[1], rgb(0x80, 0, 0));
    assert_eq!(p[2], rgb(0, 0x80, 0));
    assert_eq!(p[3], rgb(0x80, 0x80, 0));
    assert_eq!(p[4], rgb(0, 0, 0x80));
    assert_eq!(p[5], rgb(0x80, 0, 0x80));
    assert_eq!(p[6], rgb(0, 0x80, 0x80));
    assert_eq!(p[7], rgb(0xee, 0xe8, 0xd5));
    assert_eq!(p[8], rgb(0x80, 0x80, 0x80));
    assert_eq!(p[9], rgb(0xff, 0, 0));
    assert_eq!(p[10], rgb(0, 0xff, 0));
    assert_eq!(p[11], rgb(0xff, 0xff, 0));
    assert_eq!(p[12], rgb(0, 0, 0xff));
    assert_eq!(p[13], rgb(0xff, 0, 0xff));
    assert_eq!(p[14], rgb(0, 0xff, 0xff));
    assert_eq!(p[15], rgb(0xff, 0xff, 0xff));
}

#[test]
fn the_colour_cube_and_the_greys_of_the_palette() {
    let p = get_default_color_palette();
    let levels = [0x00u8, 0x5f, 0x87, 0xaf, 0xd7, 0xff];
    for r in 0..6usize {
        for g in 0..6usize {
            for b in 0..6usize {
                assert_eq!(p[16 + 36 * r + 6 * g + b], rgb(levels[r], levels[g], levels[b]));
            }
        }
    }
    for k in 0..24u8 {
        let x = 8 + 10 * k;
        assert_eq!(p[232 + k as usize], rgb(x, x, x));
    }
    assert_eq!(p[16], rgb(0, 0, 0));
    assert_eq!(p[231], rgb(255, 255, 255));
    assert_eq!(p[255], rgb(238, 238, 238));
    let d = create_window_decoration(None);
    assert_eq!(d.get_color_palette(), p);
    assert_eq!(d.default_fg_color(), p[7]);
    assert_eq!(d.default_bg_color(), p[0]);
}

#[test]
fn the_buttons_sit_in_the_title_bar_from_the_right() {
    let metrics = WindowMetrics { padding: 40, border_width: 2, title_bar_height: 40 };
    let buttons = window_buttons(800, &metrics).unwrap();
    assert_eq!(
        buttons,
        vec![
            Circle { x: 798 - 30, y: 22, radius: 10, color: rgb(255, 95, 87) },
            Circle { x: 798 - 60, y: 22, radius: 10, color: rgb(255, 189, 45) },
            Circle { x: 798 - 90, y: 22, radius: 10, color: rgb(52, 199, 89) },
        ]
    );
    let narrow = window_buttons(20, &metrics).unwrap();
    assert_eq!(narrow[2].x, 18 - 90);
    let wide = WindowMetrics { padding: 0, border_width: 0, title_bar_height: 0 };
    assert!(matches!(
        window_buttons(u32::MAX, &wide),
        Err(ImageRendererError::Conversion(_))
    ));
}

#[test]
fn the_panels_of_the_classic_window() {
    let metrics = WindowMetrics { padding: 40, border_width: 3, title_bar_height: 40 };
    let all = Corners { top_left: true, top_right: true, bottom_right: true, bottom_left: true };
    let top = Corners { top_left: true, top_right: true, bottom_right: false, bottom_left: false };
    assert_eq!(
        window_panels(800, 600, &metrics).unwrap(),
        vec![
            Panel { x: 0, y: 0, width: 800, height: 600, color: rgb(128, 128, 128), corners: all },
            Panel { x: 3, y: 3, width: 794, height: 594, color: rgb(0x28, 0x2c, 0x34), corners: all },
            Panel { x: 3, y: 3, width: 794, height: 40, color: rgb(30, 34, 42), corners: top },
        ]
    );
    let thick = WindowMetrics { padding: 0, border_width: i32::MAX as u32 + 1, title_bar_height: 0 };
    assert!(matches!(
        window_panels(u32::MAX, u32::MAX, &thick),
        Err(ImageRendererError::Conversion(_))
    ));
}
