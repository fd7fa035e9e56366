use shellshot::escape::{Cursor as CsiCursor, OneBased};
use shellshot::grid::Position;
use shellshot::screen::{Change, Screen};
use shellshot::terminal_builder::action::csi::cursor::process_cursor;

fn make_surface() -> Screen {
    Screen::new(80, 24)
}

fn apply_cursor(surface: &mut Screen, cursor: &CsiCursor) -> Vec<u8> {
    process_cursor(surface, cursor)
}

fn place(s: &mut Screen, x: usize, y: usize) {
    s.apply(&Change::CursorPosition { x: Position::Absolute(x), y: Position::Absolute(y) });
}

#[test]
fn cursor_right_moves_relative_x() {
    let mut s = make_surface();
    let before = s.cursor_position();

    let seq = apply_cursor(&mut s, &CsiCursor::Right(5));
    let after = s.cursor_position();

    assert_eq!(after.1, before.1);
    assert_eq!(after.0, before.0 + 5);
    let _ = seq;
}

#[test]
fn cursor_left_moves_relative_x() {
    let mut s = make_surface();
    place(&mut s, 10, 0);
    let before = s.cursor_position();

    apply_cursor(&mut s, &CsiCursor::Left(3));
    let after = s.cursor_position();

    assert_eq!(after.1, before.1);
    assert_eq!(after.0, before.0 - 3);
}

#[test]
fn cursor_up_and_down_move_relative_y() {
    let mut s = make_surface();
    place(&mut s, 2, 5);
    let before = s.cursor_position();

    apply_cursor(&mut s, &CsiCursor::Up(2));
    let mid = s.cursor_position();
    assert_eq!(mid.0, before.0);
    assert_eq!(mid.1, before.1 - 2);

    apply_cursor(&mut s, &CsiCursor::Down(4));
    let after = s.cursor_position();
    assert_eq!(after.0, before.0);
    assert_eq!(after.1, mid.1 + 4);
}

#[test]
fn character_absolute_and_forward_backward() {
    let mut s = make_surface();
    place(&mut s, 1, 1);

    apply_cursor(&mut s, &CsiCursor::CharacterAbsolute(OneBased::from_zero_based(12)));
    assert_eq!(s.cursor_position().0, 12);

    apply_cursor(&mut s, &CsiCursor::CharacterPositionForward(3));
    assert_eq!(s.cursor_position().0, 15);

    apply_cursor(&mut s, &CsiCursor::CharacterPositionBackward(2));
    assert_eq!(s.cursor_position().0, 13);
}

#[test]
fn character_and_line_position_sets_both() {
    let mut s = make_surface();

    let line = OneBased::from_zero_based(4);
    let col = OneBased::from_zero_based(7);

    apply_cursor(&mut s, &CsiCursor::CharacterAndLinePosition { line, col });

    assert_eq!(s.cursor_position().0, 7);
    assert_eq!(s.cursor_position().1, 4);
}

#[test]
fn position_variant_sets_abs_position() {
    let mut s = make_surface();
    let line = OneBased::from_zero_based(2);
    let col = OneBased::from_zero_based(3);

    apply_cursor(&mut s, &CsiCursor::Position { line, col });

    assert_eq!(s.cursor_position(), (3, 2));
}

#[test]
fn next_and_preceding_line_affect_y_and_reset_x() {
    let mut s = make_surface();

    place(&mut s, 10, 2);

    apply_cursor(&mut s, &CsiCursor::NextLine(1));
    let (x1, y1) = s.cursor_position();
    assert_eq!(x1, 0);
    assert_eq!(y1, 3);

    apply_cursor(&mut s, &CsiCursor::PrecedingLine(2));
    let (x2, y2) = s.cursor_position();
    assert_eq!(x2, 0);
    assert_eq!(y2, 1);
}

#[test]
fn character_absolute_and_line_absolute_variants() {
    let mut s = make_surface();

    apply_cursor(
        &mut s,
        &CsiCursor::CharacterAndLinePosition {
            line: OneBased::from_zero_based(10),
            col: OneBased::from_zero_based(20),
        },
    );

    let (x, y) = s.cursor_position();
    assert_eq!(x, 20);
    assert_eq!(y, 10);
}

#[test]
fn save_and_restore_cursor_position_stack_behaviour() {
    let mut s = make_surface();

    place(&mut s, 3, 4);

    apply_cursor(&mut s, &CsiCursor::SaveCursor);
    apply_cursor(&mut s, &CsiCursor::Right(4));
    apply_cursor(&mut s, &CsiCursor::SaveCursor);
    apply_cursor(&mut s, &CsiCursor::Down(2));

    apply_cursor(&mut s, &CsiCursor::RestoreCursor);
    let (x1, y1) = s.cursor_position();
    assert!(x1 > 0);
    assert!(y1 > 0);

    apply_cursor(&mut s, &CsiCursor::RestoreCursor);
    let (x2, y2) = s.cursor_position();
    assert!(x2 > 0);
    assert!(y2 > 0);
}

#[test]
fn request_active_position_report_writes_report_to_writer() {
    let mut s = make_surface();

    place(&mut s, 7, 12);

    let csr = CsiCursor::RequestActivePositionReport;
    let buf = process_cursor(&mut s, &csr);

    assert!(!buf.is_empty());
}

#[test]
fn forward_and_backward_tabulation() {
    let mut s = make_surface();
    place(&mut s, 2, 0);

    apply_cursor(&mut s, &CsiCursor::ForwardTabulation(1));
    let (x_after, _) = s.cursor_position();
    assert!(x_after > 0);
    assert_eq!(x_after, 8);

    apply_cursor(&mut s, &CsiCursor::BackwardTabulation(1));
    let (x_after2, _) = s.cursor_position();
    assert_eq!(x_after2, 0);
}

#[test]
fn test_relative_movements() {
    let mut s = make_surface();
    let initial = s.cursor_position();

    apply_cursor(&mut s, &CsiCursor::Right(5));
    let (x, y) = s.cursor_position();
    assert_eq!(y, initial.1);
    assert_eq!(x, initial.0 + 5);

    apply_cursor(&mut s, &CsiCursor::Left(3));
    let (x2, _) = s.cursor_position();
    assert_eq!(x2, x - 3);

    apply_cursor(&mut s, &CsiCursor::Down(4));
    let (_, y2) = s.cursor_position();
    assert_eq!(y2, initial.1 + 4);

    apply_cursor(&mut s, &CsiCursor::Up(2));
    let (_, y3) = s.cursor_position();
    assert_eq!(y3, y2 - 2);
}

#[test]
fn test_absolute_movements() {
    let mut s = make_surface();

    apply_cursor(&mut s, &CsiCursor::CharacterAbsolute(OneBased::from_zero_based(10)));
    assert_eq!(s.cursor_position().0, 10);

    apply_cursor(&mut s, &CsiCursor::LinePositionAbsolute(5));
    assert_eq!(s.cursor_position().1, 5);

    apply_cursor(
        &mut s,
        &CsiCursor::CharacterAndLinePosition {
            line: OneBased::from_zero_based(3),
            col: OneBased::from_zero_based(7),
        },
    );
    let (x, y) = s.cursor_position();
    assert_eq!(x, 7);
    assert_eq!(y, 3);

    apply_cursor(
        &mut s,
        &CsiCursor::Position {
            line: OneBased::from_zero_based(2),
            col: OneBased::from_zero_based(4),
        },
    );
    let (x, y) = s.cursor_position();
    assert_eq!((x, y), (4, 2));
}

#[test]
fn test_forward_and_backward_tabulation() {
    let mut s = make_surface();
    place(&mut s, 2, 0);

    apply_cursor(&mut s, &CsiCursor::ForwardTabulation(1));
    let (x1, _) = s.cursor_position();
    assert!(x1 > 2);

    apply_cursor(&mut s, &CsiCursor::BackwardTabulation(1));
    let (x2, _) = s.cursor_position();
    assert!(x2 <= x1);
}

#[test]
fn test_next_and_preceding_line() {
    let mut s = make_surface();
    place(&mut s, 5, 5);

    apply_cursor(&mut s, &CsiCursor::NextLine(2));
    let (x, y) = s.cursor_position();
    assert_eq!(x, 0);
    assert_eq!(y, 7);

    apply_cursor(&mut s, &CsiCursor::PrecedingLine(3));
    let (x, y) = s.cursor_position();
    assert_eq!(x, 0);
    assert_eq!(y, 4);
}

#[test]
fn test_save_and_restore_cursor_stack() {
    let mut s = make_surface();
    place(&mut s, 2, 3);

    apply_cursor(&mut s, &CsiCursor::SaveCursor);
    apply_cursor(&mut s, &CsiCursor::Right(4));
    apply_cursor(&mut s, &CsiCursor::SaveCursor);
    apply_cursor(&mut s, &CsiCursor::Down(2));

    apply_cursor(&mut s, &CsiCursor::RestoreCursor);
    let (x1, y1) = s.cursor_position();
    assert_eq!((x1, y1), (6, 3));

    apply_cursor(&mut s, &CsiCursor::RestoreCursor);
    let (x2, y2) = s.cursor_position();
    assert_eq!((x2, y2), (2, 3));
}

#[test]
fn test_request_active_position_report_writes_to_writer() {
    let mut s = make_surface();
    place(&mut s, 7, 8);

    let buf = process_cursor(&mut s, &CsiCursor::RequestActivePositionReport);
    assert!(!buf.is_empty());
}

#[test]
fn character_position_absolute_moves_x_only() {
    let mut s = make_surface();
    place(&mut s, 2, 5);

    apply_cursor(&mut s, &CsiCursor::CharacterPositionAbsolute(OneBased::from_zero_based(10)));
    let (x, y) = s.cursor_position();
    assert_eq!(x, 10);
    assert_eq!(y, 5);
}

#[test]
fn line_position_forward_moves_y_only() {
    let mut s = make_surface();
    place(&mut s, 3, 4);

    apply_cursor(&mut s, &CsiCursor::LinePositionForward(3));
    let (x, y) = s.cursor_position();
    assert_eq!(x, 3);
    assert_eq!(y, 7);
}

#[test]
fn line_position_backward_moves_y_only_and_clamped() {
    let mut s = make_surface();
    place(&mut s, 3, 2);

    apply_cursor(&mut s, &CsiCursor::LinePositionBackward(1));
    let (x, y) = s.cursor_position();
    assert_eq!(x, 3);
    assert_eq!(y, 1);

    apply_cursor(&mut s, &CsiCursor::LinePositionBackward(5));
    let (x2, y2) = s.cursor_position();
    assert_eq!(x2, 3);
    assert_eq!(y2, 0);
}

#[test]
fn position_report_names_line_then_column_counted_from_one() {
    let mut s = make_surface();
    place(&mut s, 7, 12);
    let reply = process_cursor(&mut s, &CsiCursor::RequestActivePositionReport);
    assert_eq!(reply, b"\x1b[13;8R".to_vec());
    assert_eq!(s.cursor_position(), (7, 12));

    place(&mut s, 0, 0);
    assert_eq!(process_cursor(&mut s, &CsiCursor::RequestActivePositionReport), b"\x1b[1;1R".to_vec());
    place(&mut s, 79, 23);
    assert_eq!(
        process_cursor(&mut s, &CsiCursor::RequestActivePositionReport),
        b"\x1b[24;80R".to_vec()
    );
}

#[test]
fn only_the_position_request_is_answered() {
    let mut s = make_surface();
    for cursor in [
        CsiCursor::Right(1),
        CsiCursor::SaveCursor,
        CsiCursor::RestoreCursor,
        CsiCursor::ActivePositionReport { line: OneBased::new(1), col: OneBased::new(1) },
        CsiCursor::CursorStyle,
    ] {
        assert!(apply_cursor(&mut s, &cursor).is_empty());
    }
}

#[test]
fn tabs_go_by_stops_of_eight() {
    let mut s = make_surface();
    place(&mut s, 2, 1);
    apply_cursor(&mut s, &CsiCursor::ForwardTabulation(1));
    assert_eq!(s.cursor_position(), (8, 1));
    apply_cursor(&mut s, &CsiCursor::ForwardTabulation(3));
    assert_eq!(s.cursor_position(), (32, 1));
    apply_cursor(&mut s, &CsiCursor::BackwardTabulation(1));
    assert_eq!(s.cursor_position(), (24, 1));
    place(&mut s, 27, 1);
    apply_cursor(&mut s, &CsiCursor::BackwardTabulation(2));
    assert_eq!(s.cursor_position(), (16, 1));
    apply_cursor(&mut s, &CsiCursor::BackwardTabulation(9));
    assert_eq!(s.cursor_position(), (0, 1));
    place(&mut s, 5, 1);
    apply_cursor(&mut s, &CsiCursor::ForwardTabulation(0));
    assert_eq!(s.cursor_position(), (5, 1));
    apply_cursor(&mut s, &CsiCursor::BackwardTabulation(0));
    assert_eq!(s.cursor_position(), (5, 1));
    apply_cursor(&mut s, &CsiCursor::ForwardTabulation(u32::MAX));
    assert_eq!(s.cursor_position(), (79, 1));
}

#[test]
fn tab_then_reverse_tab() {
    let mut s = make_surface();
    place(&mut s, 2, 0);
    apply_cursor(&mut s, &CsiCursor::ForwardTabulation(1));
    assert_eq!(s.cursor_position().0, 8);
    apply_cursor(&mut s, &CsiCursor::BackwardTabulation(1));
    assert_eq!(s.cursor_position().0, 0);
}

#[test]
fn moves_stop_at_the_edges() {
    let mut s = make_surface();
    apply_cursor(&mut s, &CsiCursor::Left(5));
    assert_eq!(s.cursor_position(), (0, 0));
    apply_cursor(&mut s, &CsiCursor::Up(u32::MAX));
    assert_eq!(s.cursor_position(), (0, 0));
    apply_cursor(&mut s, &CsiCursor::Right(u32::MAX));
    assert_eq!(s.cursor_position(), (79, 0));
    apply_cursor(&mut s, &CsiCursor::Down(1000));
    assert_eq!(s.cursor_position(), (79, 23));
    apply_cursor(&mut s, &CsiCursor::Position { line: OneBased::new(500), col: OneBased::new(500) });
    assert_eq!(s.cursor_position(), (79, 23));
    apply_cursor(&mut s, &CsiCursor::Position { line: OneBased::new(0), col: OneBased::new(0) });
    assert_eq!(s.cursor_position(), (0, 0));
}

#[test]
fn line_position_absolute_goes_to_column_zero() {
    let mut s = make_surface();
    place(&mut s, 9, 9);
    apply_cursor(&mut s, &CsiCursor::LinePositionAbsolute(0));
    assert_eq!(s.cursor_position(), (0, 0));
}

#[test]
fn ignored_cursor_instructions_change_nothing() {
    let mut s = make_surface();
    place(&mut s, 9, 9);
    for cursor in [
        CsiCursor::TabulationClear,
        CsiCursor::TabulationControl,
        CsiCursor::LineTabulation(3),
        CsiCursor::SetTopAndBottomMargins { top: OneBased::new(2), bottom: OneBased::new(5) },
        CsiCursor::SetLeftAndRightMargins { left: OneBased::new(2), right: OneBased::new(5) },
        CsiCursor::CursorStyle,
        CsiCursor::ActivePositionReport { line: OneBased::new(3), col: OneBased::new(4) },
    ] {
        apply_cursor(&mut s, &cursor);
        assert_eq!(s.cursor_position(), (9, 9));
    }
}

#[test]
fn one_based_numbers() {
    assert_eq!(OneBased::from_zero_based(0).as_one_based(), 1);
    assert_eq!(OneBased::from_zero_based(41).as_zero_based(), 41);
    assert_eq!(OneBased::new(0).as_zero_based(), 0);
    assert_eq!(OneBased::new(1).as_zero_based(), 0);
    assert_eq!(OneBased::new(7).as_one_based(), 7);
}
