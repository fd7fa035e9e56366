use shellshot::cell::{CellAttributes, ColorSpec};
use shellshot::escape::{Action, ControlCode, Cursor, Edit, OneBased, Sgr, CSI};
use shellshot::pty_executor::dimension::Dimension;
use shellshot::screen::Screen;
use shellshot::terminal_builder::action::{prints, process_action};
use shellshot::text::{is_blank, is_space};
use shellshot::terminal_builder::TerminalBuilder;

/// A fixed, varied run of actions with plain text only.
fn plain_actions() -> Vec<Action> {
    let mut actions = Vec::new();
    let mut seed: u32 = 12345;
    for _ in 0..600 {
        seed = seed.wrapping_mul(1_103_515_245).wrapping_add(12345);
        let n = (seed >> 16) % 23;
        let k = (seed >> 8) % 50;
        actions.push(match n {
            0 => Action::Print('x'),
            1 => Action::PrintString("hello, world".to_string()),
            2 => Action::PrintString("a\r\nb\rc\nd".to_string()),
            3 => Action::Control(ControlCode::LineFeed),
            4 => Action::Control(ControlCode::CarriageReturn),
            5 => Action::Control(ControlCode::HorizontalTab),
            6 => Action::Control(ControlCode::Backspace),
            7 => Action::Control(ControlCode::RI),
            8 => Action::CSI(CSI::Cursor(Cursor::Right(k))),
            9 => Action::CSI(CSI::Cursor(Cursor::Left(k))),
            10 => Action::CSI(CSI::Cursor(Cursor::Up(k))),
            11 => Action::CSI(CSI::Cursor(Cursor::Down(k))),
            12 => Action::CSI(CSI::Cursor(Cursor::Position {
                line: OneBased::new(k),
                col: OneBased::new(n * k),
            })),
            13 => Action::CSI(CSI::Cursor(Cursor::ForwardTabulation(k % 4))),
            14 => Action::CSI(CSI::Cursor(Cursor::BackwardTabulation(k % 4))),
            15 => Action::CSI(CSI::Cursor(Cursor::SaveCursor)),
            16 => Action::CSI(CSI::Cursor(Cursor::RestoreCursor)),
            17 => Action::CSI(CSI::Edit(Edit::EraseCharacter(k))),
            18 => Action::CSI(CSI::Sgr(Sgr::Foreground(ColorSpec::PaletteIndex(k as u8)))),
            19 => Action::CSI(CSI::Cursor(Cursor::NextLine(k % 3))),
            20 => Action::CSI(CSI::Cursor(Cursor::LinePositionAbsolute(k))),
            21 => Action::PrintString("0123456789".repeat(k as usize % 5)),
            _ => Action::Esc,
        });
    }
    actions
}

#[test]
fn the_cursor_stays_within_the_screen() {
    for (cols, rows) in [(1usize, 1usize), (7, 3), (10, 5), (80, 24)] {
        let mut s = Screen::new(cols, rows);
        for action in plain_actions() {
            process_action(&mut s, &action);
            let (x, y) = s.cursor_position();
            assert!(x <= cols && y < rows, "{action:?} left the cursor at ({x}, {y})");
            assert_eq!(s.dimensions(), (cols, rows));
        }
    }
}

#[test]
fn the_cursor_stays_on_a_row_whatever_is_printed() {
    let mut s = Screen::new(5, 3);
    for text in ["\u{4e16}\u{754c}\u{4e16}\u{754c}", "a\u{301}\u{7}\t\u{0}", "\u{1f600}\n\n\n\n", "ab\u{4e16}"] {
        s.print(text);
        let (_, y) = s.cursor_position();
        assert!(y < 3);
        assert_eq!(s.dimensions(), (5, 3));
        assert_eq!(s.screen_lines().len(), 3);
    }
}

#[test]
fn restore_undoes_what_happened_since_save() {
    let between = plain_actions()
        .into_iter()
        .filter(|a| {
            !matches!(
                a,
                Action::CSI(CSI::Cursor(Cursor::SaveCursor))
                    | Action::CSI(CSI::Cursor(Cursor::RestoreCursor))
            )
        })
        .collect::<Vec<_>>();
    for start in [(0usize, 0usize), (3, 4), (9, 4), (5, 0)] {
        let mut builder = TerminalBuilder::new(&Dimension::Value(10), &Dimension::Value(5));
        builder.dispatch(&vec![Action::CSI(CSI::Cursor(Cursor::Position {
            line: OneBased::from_zero_based(start.1 as u32),
            col: OneBased::from_zero_based(start.0 as u32),
        }))]);
        assert_eq!(builder.screen().cursor_position(), start);
        builder.dispatch(&vec![Action::CSI(CSI::Cursor(Cursor::SaveCursor))]);
        builder.dispatch(&between);
        builder.dispatch(&vec![Action::CSI(CSI::Cursor(Cursor::RestoreCursor))]);
        assert_eq!(builder.screen().cursor_position(), start);
    }
}

#[test]
fn a_cursor_saved_past_the_last_column_comes_back_on_it() {
    let mut builder = TerminalBuilder::new(&Dimension::Value(5), &Dimension::Value(2));
    builder.feed(b"abcde\x1b[s\x1b[u");
    assert_eq!(builder.screen().cursor_position(), (4, 0));
}

#[test]
fn the_crop_is_the_smallest_cover_of_the_content() {
    let mut builder = TerminalBuilder::new(&Dimension::Value(20), &Dimension::Value(10));
    builder.feed(b"\r\n  ab\r\n\r\n      x   \r\n \x1b[41m \x1b[0m  \r\n");
    let before = builder.screen().screen_lines();
    builder.resize_surface(true, true);
    let (cols, rows) = builder.screen().dimensions();
    assert_eq!((cols, rows), (7, 5));
    let has_content = |c: &shellshot::cell::Cell| {
        !c.text.chars().all(char::is_whitespace) || c.attrs != CellAttributes::blank()
    };
    for (r, line) in before.iter().enumerate() {
        for cell in line {
            if has_content(cell) {
                assert!(cell.index < cols && r < rows);
            }
        }
    }
    assert!(before.iter().flatten().any(|c| has_content(c) && c.index + 1 == cols));
    assert!(before[rows - 1].iter().any(has_content));
    let after = builder.screen().screen_lines();
    for r in 0..rows {
        assert_eq!(after[r][..], before[r][..cols]);
    }
}

#[test]
fn printing_advances_by_the_length_round_the_rows() {
    for cols in 1usize..7 {
        for x0 in 0..cols {
            for n in 1usize..20 {
                let rows = 30;
                let mut s = Screen::new(cols, rows);
                s.set_cursor(x0, 2);
                s.print(&"z".repeat(n));
                let expected = ((x0 + n - 1) % cols + 1, 2 + (x0 + n - 1) / cols);
                assert_eq!(s.cursor_position(), expected);
            }
        }
    }
}

#[test]
fn white_space_of_any_kind_is_no_content() {
    let mut s = Screen::new(6, 1);
    s.print("a\u{a0}\u{3000}");
    assert_eq!(s.content_extent(0), 1);
    let mut s = Screen::new(6, 1);
    s.print("  \u{200b}");
    assert_eq!(s.content_extent(0), 3);
}

#[test]
fn white_space_in_ascii() {
    for c in 0u8..=0x7f {
        let c = c as char;
        assert_eq!(is_space(c), c.is_whitespace());
        assert_eq!(is_space(c), c == ' ' || ('\t'..='\r').contains(&c));
    }
    assert!(is_space('\u{a0}') && is_space('\u{2003}') && is_space('\u{3000}'));
    assert!(!is_space('\u{200b}') && !is_space('\u{4e16}'));
    assert!(is_blank(" \t\r\n\u{b}\u{c}\u{85}") && !is_blank(" a "));
}

#[test]
fn the_cursor_is_at_most_one_column_out_whatever_is_printed() {
    for cols in 1usize..6 {
        let mut s = Screen::new(cols, 3);
        for text in ["\u{4e16}", "a\u{301}\u{4e16}\u{754c}", "\u{e9}t\u{e9}", "\u{1f600}x\u{4e16}", "\t\u{7}"] {
            for _ in 0..4 {
                s.print(text);
                let (x, y) = s.cursor_position();
                assert!(x <= cols + 1 && y < 3, "{text:?} on {cols} columns: ({x}, {y})");
            }
        }
        let mut t = Screen::new(cols, 3);
        for _ in 0..7 {
            t.print("\u{e9}t\u{e9}");
            assert!(t.cursor_position().0 <= cols);
        }
    }
}

#[test]
fn actions_that_do_not_print_need_no_row() {
    let mut builder = TerminalBuilder::new(&Dimension::Value(4), &Dimension::Value(0));
    let actions = vec![
        Action::Control(ControlCode::CarriageReturn),
        Action::Control(ControlCode::HorizontalTab),
        Action::Control(ControlCode::RI),
        Action::CSI(CSI::Cursor(Cursor::Down(2))),
        Action::CSI(CSI::Cursor(Cursor::RequestActivePositionReport)),
        Action::CSI(CSI::Sgr(Sgr::Reset)),
        Action::CSI(CSI::Edit(Edit::EraseCharacter(0))),
        Action::Esc,
    ];
    assert!(actions.iter().all(|a| !prints(a)));
    let reply = builder.dispatch(&actions);
    assert_eq!(reply, b"\x1b[1;4R".to_vec());
    assert_eq!(builder.screen().dimensions(), (4, 0));
    for a in [
        Action::Print('a'),
        Action::PrintString("ab".to_string()),
        Action::Control(ControlCode::LineFeed),
        Action::Control(ControlCode::Backspace),
        Action::CSI(CSI::Edit(Edit::EraseCharacter(1))),
    ] {
        assert!(prints(&a));
    }
}
