use shellshot::cell::Intensity;
use shellshot::escape::{Cursor as CsiCursor, Edit, Sgr, CSI};
use shellshot::screen::Screen;
use shellshot::terminal_builder::action::csi::{process_csi, process_edit};

fn make_surface() -> Screen {
    Screen::new(10, 3)
}

#[test]
fn csi_sgr_applies_intensity() {
    let mut s = make_surface();
    let csi = CSI::Sgr(Sgr::Intensity(Intensity::Bold));
    process_csi(&mut s, &csi);
    s.print("A");
    let screen = s.screen_lines();
    let cell = &screen[0][0];
    assert_eq!(cell.attrs.intensity, Intensity::Bold);
}

#[test]
fn csi_cursor_moves_right() {
    let mut s = make_surface();
    s.print("X");
    let csi = CSI::Cursor(CsiCursor::Right(3));
    process_csi(&mut s, &csi);
    let (x, y) = s.cursor_position();
    assert_eq!(x, 4);
    assert_eq!(y, 0);
}

#[test]
fn csi_edit_erase_character() {
    let mut s = make_surface();
    s.print("ABCDE");
    let csi = CSI::Edit(Edit::EraseCharacter(3));
    process_csi(&mut s, &csi);
    let content = s.screen_chars_to_string();
    println!("{content}");
    assert!(content.starts_with("ABCDE   "));
    assert_eq!(s.cursor_position(), (5, 0));
}

#[test]
fn erase_character_blanks_from_the_cursor_on() {
    let mut s = make_surface();
    s.print("ABCDE");
    s.set_cursor(2, 0);
    let csi = CSI::Edit(Edit::EraseCharacter(3));
    process_csi(&mut s, &csi);
    let content = s.screen_chars_to_string();
    assert!(content.starts_with("AB   "));
    assert_eq!(s.cursor_position(), (2, 0));
}

#[test]
fn erase_character_puts_the_cursor_back() {
    for n in [0u32, 1, 3, 8, 25, 1000] {
        let mut s = make_surface();
        s.print("ABCDE\r\nFGH");
        s.set_cursor(4, 1);
        process_edit(&mut s, &Edit::EraseCharacter(n));
        assert_eq!(s.cursor_position(), (4, 1));
    }
}

#[test]
fn erase_character_wraps_like_text() {
    let mut s = make_surface();
    s.print("0123456789abcdefghij");
    s.set_cursor(8, 0);
    process_edit(&mut s, &Edit::EraseCharacter(4));
    assert_eq!(s.screen_chars_to_string(), "01234567  \n  cdefghij\n          \n");
    assert_eq!(s.cursor_position(), (8, 0));
}

#[test]
fn erase_character_writes_with_the_pen() {
    let mut s = make_surface();
    s.print("ABC");
    process_csi(&mut s, &CSI::Sgr(Sgr::Inverse(true)));
    s.set_cursor(1, 0);
    process_edit(&mut s, &Edit::EraseCharacter(1));
    let row = s.row(0);
    assert_eq!(row[1].text, " ");
    assert!(row[1].attrs.reverse);
    assert!(!row[0].attrs.reverse);
}

#[test]
fn other_edits_do_nothing() {
    for edit in [
        Edit::DeleteCharacter(2),
        Edit::DeleteLine(1),
        Edit::EraseInLine,
        Edit::InsertCharacter(3),
        Edit::InsertLine(1),
        Edit::ScrollDown(1),
        Edit::ScrollUp(1),
        Edit::EraseInDisplay,
        Edit::Repeat(4),
    ] {
        let mut s = make_surface();
        s.print("ABCDE");
        process_edit(&mut s, &edit);
        assert_eq!(s.screen_chars_to_string(), "ABCDE     \n          \n          \n");
        assert_eq!(s.cursor_position(), (5, 0));
    }
}

#[test]
fn other_control_sequences_do_nothing() {
    for csi in [
        CSI::Mode,
        CSI::Device,
        CSI::Mouse,
        CSI::Window,
        CSI::Keyboard,
        CSI::SelectCharacterPath,
        CSI::Unspecified,
    ] {
        let mut s = make_surface();
        s.print("ab");
        assert!(process_csi(&mut s, &csi).is_empty());
        assert_eq!(s.screen_chars_to_string(), "ab        \n          \n          \n");
        assert_eq!(s.cursor_position(), (2, 0));
    }
}
