use shellshot::cell::{Blink, ColorAttribute, ColorSpec, Intensity, Rgba, Underline};
use shellshot::escape::parser::ActionParser;
use shellshot::escape::{
    Action, ControlCode, Cursor, DynamicColorNumber, Edit, OneBased, OperatingSystemCommand, Sgr,
    CSI,
};
use shellshot::grid::{AttributeChange, Position};
use shellshot::pty_executor::dimension::Dimension;
use shellshot::screen::{Change, Screen};
use shellshot::terminal_builder::utils::{tabulate, tabulate_back};
use shellshot::terminal_builder::TerminalBuilder;

fn row_text(screen: &Screen, row: usize) -> String {
    screen.row(row).iter().map(|c| c.text.clone()).collect()
}

fn fed(cols: u16, rows: u16, bytes: &[u8]) -> (Screen, Vec<u8>) {
    let mut builder = TerminalBuilder::new(&Dimension::Value(cols), &Dimension::Value(rows));
    let reply = builder.feed(bytes);
    (builder.screen().clone(), reply)
}

#[test]
fn test_terminal_builder_run_simple_text() {
    let content = b"Hello, Terminal!";

    let surface = TerminalBuilder::run(content, &Dimension::Value(10), &Dimension::Value(5));

    let (cols, rows) = surface.dimensions();
    assert_eq!(cols, 10);
    assert_eq!(rows, 5);

    let first_line: String = row_text(&surface, 0);
    assert!(first_line.contains('H') || first_line.contains('e'));
}

#[test]
fn test_run_loop_empty_content() {
    let mut builder = TerminalBuilder::with_screen(Screen::new(5, 5));

    let reply = builder.feed(b"");
    assert!(reply.is_empty());
    let surface = builder.screen().clone();
    let (cols, rows) = surface.dimensions();
    assert_eq!(cols, 5);
    assert_eq!(rows, 5);
}

#[test]
fn test_resize_surface() {
    let mut surface = Screen::new(10, 5);

    surface.apply(&Change::Text("ABC    ".to_string()));
    surface.apply(&Change::CursorPosition { x: Position::Absolute(0), y: Position::Relative(1) });

    surface.apply(&Change::Text("       ".to_string()));
    surface.apply(&Change::CursorPosition { x: Position::Absolute(0), y: Position::Relative(1) });

    let mut builder = TerminalBuilder::with_screen(surface);

    builder.resize_surface(true, true);

    let (new_cols, new_rows) = builder.screen().dimensions();

    assert_eq!(new_cols, 3, "Expected 3 columns");
    assert_eq!(new_rows, 1, "Expected 1 rows");
}

#[test]
fn test_resize_surface_with_colored_background_exact() {
    let mut surface = Screen::new(10, 5);

    surface.apply(&Change::Attribute(AttributeChange::Background(ColorAttribute::PaletteIndex(7))));
    surface.apply(&Change::Text("   ".to_string()));
    surface.apply(&Change::CursorPosition { x: Position::Absolute(0), y: Position::Relative(1) });

    surface.apply(&Change::Text("X".to_string()));
    surface.apply(&Change::CursorPosition { x: Position::Absolute(0), y: Position::Relative(1) });

    surface.apply(&Change::Text("  ".to_string()));
    surface.apply(&Change::CursorPosition { x: Position::Absolute(0), y: Position::Relative(1) });

    surface.apply(&Change::Attribute(AttributeChange::Background(ColorAttribute::Default)));
    surface.apply(&Change::Text("   ".to_string()));

    let mut builder = TerminalBuilder::with_screen(surface);

    builder.resize_surface(true, true);

    let (new_cols, new_rows) = builder.screen().dimensions();

    assert_eq!(new_cols, 3, "Expected 3 columns");
    assert_eq!(new_rows, 3, "Expected 3 rows");
}

#[test]
fn plain_text_is_cropped_to_one_row() {
    let mut builder = TerminalBuilder::new(&Dimension::Value(40), &Dimension::Value(3));
    builder.feed(b"Hello World\r\n");
    builder.resize_surface(true, true);
    let screen = builder.screen();
    assert_eq!(screen.dimensions(), (11, 1));
    assert_eq!(screen.screen_chars_to_string(), "Hello World\n");
    let (x, y) = screen.cursor_position();
    assert!(x <= 11 && y < 1);
}

#[test]
fn open_dimensions_start_large_and_are_cropped() {
    let builder = TerminalBuilder::new(&Dimension::Auto, &Dimension::Auto);
    assert_eq!(builder.screen().dimensions(), (250, 500));

    let screen = TerminalBuilder::run(b"ab\r\ncde\r\n", &Dimension::Auto, &Dimension::Auto);
    assert_eq!(screen.dimensions(), (3, 2));
    assert_eq!(screen.screen_chars_to_string(), "ab \ncde\n");

    let screen = TerminalBuilder::run(b"ab\r\ncde\r\n", &Dimension::Auto, &Dimension::Value(4));
    assert_eq!(screen.dimensions(), (3, 4));
    let screen = TerminalBuilder::run(b"ab\r\ncde\r\n", &Dimension::Value(7), &Dimension::Auto);
    assert_eq!(screen.dimensions(), (7, 2));
    let screen = TerminalBuilder::run(b"ab\r\ncde\r\n", &Dimension::Value(7), &Dimension::Value(4));
    assert_eq!(screen.dimensions(), (7, 4));
}

#[test]
fn a_screen_without_content_is_cropped_to_nothing() {
    let screen = TerminalBuilder::run(b"   \r\n \r\n", &Dimension::Auto, &Dimension::Auto);
    assert_eq!(screen.dimensions(), (0, 0));
    assert_eq!(screen.cursor_position(), (0, 0));
}

#[test]
fn the_crop_keeps_rows_above_the_content() {
    let screen = TerminalBuilder::run(b"\r\n\r\n  x", &Dimension::Auto, &Dimension::Auto);
    assert_eq!(screen.dimensions(), (3, 3));
    assert_eq!(screen.screen_chars_to_string(), "   \n   \n  x\n");
}

#[test]
fn destructive_backspace() {
    let (screen, _) = fed(10, 2, b"AB\x08C");
    let row = screen.row(0);
    assert_eq!(row[0].text, "A");
    assert_eq!(row[1].text, "C");
    assert_eq!(screen.cursor_position().0, 2);
}

#[test]
fn cursor_save_and_restore() {
    let mut builder = TerminalBuilder::new(&Dimension::Value(20), &Dimension::Value(10));
    builder.dispatch(&vec![Action::CSI(CSI::Cursor(Cursor::Position {
        line: OneBased::from_zero_based(4),
        col: OneBased::from_zero_based(3),
    }))]);
    assert_eq!(builder.screen().cursor_position(), (3, 4));
    let before = builder.screen().screen_chars_to_string();
    builder.feed(b"\x1b[s\x1b[5C\x1b[u");
    assert_eq!(builder.screen().cursor_position(), (3, 4));
    assert_eq!(builder.screen().screen_chars_to_string(), before);
}

#[test]
fn bold_red() {
    let (screen, _) = fed(10, 2, b"\x1b[1;31mX");
    let cell = &screen.row(0)[0];
    assert_eq!(cell.text, "X");
    assert_eq!(cell.attrs.intensity, Intensity::Bold);
    assert_eq!(cell.attrs.foreground, ColorAttribute::PaletteIndex(1));
}

#[test]
fn tab_then_reverse_tab_in_bytes() {
    let mut builder = TerminalBuilder::new(&Dimension::Value(40), &Dimension::Value(3));
    builder.feed(b"ab");
    builder.feed(b"\x09");
    assert_eq!(builder.screen().cursor_position().0, 8);
    builder.feed(b"\x1b[Z");
    assert_eq!(builder.screen().cursor_position().0, 0);
}

#[test]
fn carriage_return_overwrites() {
    let (screen, _) = fed(5, 2, b"ABCDE\rXY");
    assert_eq!(row_text(&screen, 0), "XYCDE");
    assert_eq!(screen.cursor_position().0, 2);
}

#[test]
fn requests_are_answered_in_order() {
    let (_, reply) = fed(20, 5, b"ab\x1b[6n\r\n\x1b]10;?\x07c\x1b[6n");
    assert_eq!(reply, b"\x1b[1;3R\x1b]10;?\x1b\\\x1b[2;2R".to_vec());
}

#[test]
fn pieces_give_the_same_screen_as_the_whole() {
    let bytes: &[u8] = b"one\x1b[1;32mtwo\r\n\x1b[3Cthr\xc3\xa9e\x1b]11;rgb:ff/00/00\x07!\x1b[0m\x08\x08x";
    let (whole, whole_reply) = fed(12, 4, bytes);
    for cut in 0..=bytes.len() {
        let mut builder = TerminalBuilder::new(&Dimension::Value(12), &Dimension::Value(4));
        let mut reply = builder.feed(&bytes[..cut]);
        reply.extend(builder.feed(&bytes[cut..]));
        assert_eq!(reply, whole_reply);
        assert_eq!(builder.screen().cursor_position(), whole.cursor_position());
        assert_eq!(builder.screen().screen_lines(), whole.screen_lines());
    }
}

#[test]
fn the_parser_decodes_each_kind_of_action() {
    let mut parser = ActionParser::new();
    let mut actions = Vec::new();
    parser.parse(b"a", &mut actions);
    parser.parse(b"bc\n\x1b[2;3H\x1b[4X\x1b[38;2;1;2;3m\x1b[4:3m\x1b[5m\x1bc", &mut actions);
    parser.parse(b"\x1b]0;title\x07\x1b]110\x07\x1b]104;10;11\x07\x1b[?25l\x1b[2J\x1b[3I", &mut actions);
    let expected = vec![
        Action::Print('a'),
        Action::PrintString("bc".to_string()),
        Action::Control(ControlCode::LineFeed),
        Action::CSI(CSI::Cursor(Cursor::Position { line: OneBased::new(2), col: OneBased::new(3) })),
        Action::CSI(CSI::Edit(Edit::EraseCharacter(4))),
        Action::CSI(CSI::Sgr(Sgr::Foreground(ColorSpec::TrueColor(Rgba { r: 1, g: 2, b: 3, a: 255 })))),
        Action::CSI(CSI::Sgr(Sgr::Underline(Underline::Curly))),
        Action::CSI(CSI::Sgr(Sgr::Blink(Blink::Slow))),
        Action::Esc,
        Action::OperatingSystemCommand(OperatingSystemCommand::SetIconNameAndWindowTitle),
        Action::OperatingSystemCommand(OperatingSystemCommand::ResetDynamicColor(
            DynamicColorNumber::TextForegroundColor,
        )),
        Action::OperatingSystemCommand(OperatingSystemCommand::ResetColors(vec![10, 11])),
        Action::CSI(CSI::Mode),
        Action::CSI(CSI::Edit(Edit::EraseInDisplay)),
        Action::CSI(CSI::Cursor(Cursor::ForwardTabulation(3))),
    ];
    assert_eq!(actions, expected);
}

#[test]
fn dispatch_runs_actions_in_order() {
    let mut builder = TerminalBuilder::new(&Dimension::Value(10), &Dimension::Value(3));
    let reply = builder.dispatch(&vec![
        Action::PrintString("abc".to_string()),
        Action::Control(ControlCode::CarriageReturn),
        Action::Print('X'),
        Action::CSI(CSI::Cursor(Cursor::RequestActivePositionReport)),
        Action::Esc,
        Action::DeviceControl,
        Action::Sixel,
        Action::XtGetTcap,
        Action::KittyImage,
    ]);
    assert_eq!(reply, b"\x1b[1;2R".to_vec());
    assert_eq!(builder.screen().screen_chars_to_string(), "Xbc       \n          \n          \n");
}

#[test]
fn tab_stops() {
    assert_eq!(tabulate(0, 1), 8);
    assert_eq!(tabulate(7, 1), 8);
    assert_eq!(tabulate(8, 1), 16);
    assert_eq!(tabulate(3, 2), 16);
    assert_eq!(tabulate(5, 0), 5);
    assert_eq!(tabulate_back(10, 1), 8);
    assert_eq!(tabulate_back(8, 1), 0);
    assert_eq!(tabulate_back(16, 1), 8);
    assert_eq!(tabulate_back(17, 2), 8);
    assert_eq!(tabulate_back(3, 1), 0);
    assert_eq!(tabulate_back(3, 5), 0);
    assert_eq!(tabulate_back(5, 0), 5);
}

#[test]
fn the_cuts_between_pieces_count_for_the_actions() {
    let mut whole = ActionParser::new();
    let mut actions = Vec::new();
    whole.parse(b"AB", &mut actions);
    assert_eq!(actions, vec![Action::PrintString("AB".to_string())]);

    let mut cut = ActionParser::new();
    let mut first = Vec::new();
    cut.parse(b"A", &mut first);
    let mut second = Vec::new();
    cut.parse(b"B", &mut second);
    assert_eq!(first, vec![Action::Print('A')]);
    assert_eq!(second, vec![Action::Print('B')]);
}

#[test]
fn device_control_passthrough_is_taken_in_any_cut() {
    for pieces in [
        vec![&b"\x1bP1000p\x7f"[..], &b"%exit\n"[..], &b"ok"[..]],
        vec![&b"\x1bP1000p"[..], &b"\x7f"[..], &b"%exit\n"[..], &b"ok"[..]],
    ] {
        let mut builder = TerminalBuilder::new(&Dimension::Value(10), &Dimension::Value(2));
        for piece in pieces {
            builder.feed(piece);
        }
        assert_eq!(builder.screen().dimensions(), (10, 2));
        let (x, y) = builder.screen().cursor_position();
        assert!(x <= 11 && y < 2);
    }
}
