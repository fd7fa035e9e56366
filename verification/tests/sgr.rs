use shellshot::cell::{Blink, CellAttributes, ColorAttribute, ColorSpec, Intensity, Rgba, Underline};
use shellshot::escape::Sgr;
use shellshot::screen::Screen;
use shellshot::terminal_builder::action::csi::sgr::process_sgr;

fn make_surface() -> Screen {
    Screen::new(80, 24)
}

fn apply_sgr(surface: &mut Screen, sgr: Sgr) {
    process_sgr(surface, &sgr);
}

#[test]
fn sgr_reset() {
    let mut s = make_surface();
    apply_sgr(&mut s, Sgr::Reset);

    s.print("A");
    let screen = s.screen_lines();
    let first_cell = &screen[0][0];

    assert_eq!(first_cell.attrs.intensity, Intensity::Normal);
    assert_eq!(first_cell.attrs.underline, Underline::Off);
}

#[test]
fn sgr_intensity() {
    let mut s = make_surface();
    apply_sgr(&mut s, Sgr::Intensity(Intensity::Bold));

    s.print("B");
    let screen = s.screen_lines();
    let first_cell = &screen[0][0];

    assert_eq!(first_cell.attrs.intensity, Intensity::Bold);
}

#[test]
fn sgr_underline() {
    let mut s = make_surface();
    apply_sgr(&mut s, Sgr::Underline(Underline::Single));

    s.print("C");
    let screen = s.screen_lines();
    let first_cell = &screen[0][0];
    assert_eq!(first_cell.attrs.underline, Underline::Single);

    apply_sgr(&mut s, Sgr::Underline(Underline::Double));
    s.print("D");
    let screen = s.screen_lines();
    let second_cell = &screen[0][1];
    assert_eq!(second_cell.attrs.underline, Underline::Double);

    apply_sgr(&mut s, Sgr::Underline(Underline::Off));
    s.print("E");
    let screen = s.screen_lines();
    let third_cell = &screen[0][2];
    assert_eq!(third_cell.attrs.underline, Underline::Off);
}

#[test]
fn sgr_inverse() {
    let mut s = make_surface();
    apply_sgr(&mut s, Sgr::Inverse(true));

    s.print("F");
    let screen = s.screen_lines();
    let first_cell = &screen[0][0];
    assert!(first_cell.attrs.reverse);

    apply_sgr(&mut s, Sgr::Inverse(false));
    s.print("G");
    let screen = s.screen_lines();
    let second_cell = &screen[0][1];
    assert!(!second_cell.attrs.reverse);
}

#[test]
fn sgr_italic() {
    let mut s = make_surface();
    apply_sgr(&mut s, Sgr::Italic(true));

    s.print("H");
    let screen = s.screen_lines();
    let first_cell = &screen[0][0];
    assert!(first_cell.attrs.italic);
}

#[test]
fn sgr_strikethrough() {
    let mut s = make_surface();
    apply_sgr(&mut s, Sgr::StrikeThrough(true));

    s.print("I");
    let screen = s.screen_lines();
    let first_cell = &screen[0][0];
    assert!(first_cell.attrs.strikethrough);
}

#[test]
fn sgr_invisible() {
    let mut s = make_surface();
    apply_sgr(&mut s, Sgr::Invisible(true));

    s.print("J");
    let screen = s.screen_lines();
    let first_cell = &screen[0][0];
    assert!(first_cell.attrs.invisible);
}

#[test]
fn sgr_foreground_background() {
    let mut s = make_surface();
    apply_sgr(&mut s, Sgr::Foreground(ColorSpec::PaletteIndex(120)));

    s.print("K");
    let screen = s.screen_lines();
    let first_cell = &screen[0][0];
    assert_eq!(first_cell.attrs.foreground, ColorAttribute::PaletteIndex(120));

    apply_sgr(&mut s, Sgr::Background(ColorSpec::Default));
    s.print("L");
    let screen = s.screen_lines();
    let second_cell = &screen[0][1];
    assert_eq!(second_cell.attrs.background, ColorAttribute::Default);
}

#[test]
fn sgr_foreground_truecolor() {
    let mut s = make_surface();
    let color = Rgba { r: 255, g: 0, b: 0, a: 255 };
    apply_sgr(&mut s, Sgr::Foreground(ColorSpec::TrueColor(color)));

    s.print("M");
    let screen = s.screen_lines();
    let first_cell = &screen[0][0];
    assert_eq!(
        first_cell.attrs.foreground,
        ColorAttribute::TrueColorWithDefaultFallback(color)
    );
}

#[test]
fn reset_makes_the_pen_the_default_pen_whatever_it_was() {
    let mut s = make_surface();
    apply_sgr(&mut s, Sgr::Intensity(Intensity::Half));
    apply_sgr(&mut s, Sgr::Underline(Underline::Dashed));
    apply_sgr(&mut s, Sgr::Inverse(true));
    apply_sgr(&mut s, Sgr::Italic(true));
    apply_sgr(&mut s, Sgr::StrikeThrough(true));
    apply_sgr(&mut s, Sgr::Invisible(true));
    apply_sgr(&mut s, Sgr::Foreground(ColorSpec::PaletteIndex(3)));
    apply_sgr(&mut s, Sgr::Background(ColorSpec::TrueColor(Rgba { r: 1, g: 2, b: 3, a: 4 })));
    s.print("a");
    assert_ne!(s.row(0)[0].attrs, CellAttributes::blank());
    apply_sgr(&mut s, Sgr::Reset);
    s.print("b");
    assert_eq!(s.row(0)[1].attrs, CellAttributes::blank());
}

#[test]
fn unsupported_renditions_are_ignored() {
    let mut s = make_surface();
    for sgr in [
        Sgr::UnderlineColor(ColorSpec::PaletteIndex(4)),
        Sgr::Blink(Blink::Slow),
        Sgr::Font,
        Sgr::Overline(true),
        Sgr::VerticalAlign,
    ] {
        apply_sgr(&mut s, sgr);
    }
    s.print("a");
    assert_eq!(s.row(0)[0].attrs, CellAttributes::blank());
}

#[test]
fn named_colours_become_stored_colours() {
    let c = Rgba { r: 9, g: 8, b: 7, a: 6 };
    assert_eq!(ColorSpec::Default.to_attribute(), ColorAttribute::Default);
    assert_eq!(ColorSpec::PaletteIndex(17).to_attribute(), ColorAttribute::PaletteIndex(17));
    assert_eq!(
        ColorSpec::TrueColor(c).to_attribute(),
        ColorAttribute::TrueColorWithDefaultFallback(c)
    );
}
