//! One action at a time.

use vstd::prelude::*;
use crate::escape::{Action, ActionView, ControlCode, Edit, CSI};
use crate::surface::{
    is_narrow_text, lemma_printed_keeps_cursor_in_bounds, lemma_printed_keeps_row_in_grid,
};
use crate::screen::{Screen, ScreenView};
use crate::terminal_builder::action::control::{
    control_effect, control_prints, lemma_control_keeps_cursor_in_bounds, lemma_control_keeps_row_in_grid,
    process_control,
};
use crate::terminal_builder::action::csi::{
    csi_effect, csi_prints, csi_reply, lemma_csi_keeps_cursor_in_bounds, lemma_csi_keeps_row_in_grid,
    process_csi,
};
use crate::terminal_builder::action::operating_system_command::{
    lemma_osc_keeps_frame, osc_effect, osc_reply, process_operating_system_command,
};
use crate::terminal_builder::action::print::{process_print, process_print_string};

pub mod control;
pub mod csi;
pub mod operating_system_command;
pub mod print;

verus! {

/// The screen after one action.  Text is printed, control codes, control
/// sequences and operating system commands are obeyed, and the rest does
/// nothing.
pub open spec fn action_effect(v: ScreenView, action: ActionView) -> ScreenView {
    match action {
        ActionView::Print(ch) => v.printed(seq![ch]),
        ActionView::PrintString(text) => v.printed(text),
        ActionView::Control(code) => control_effect(v, code),
        ActionView::OperatingSystemCommand(command) => osc_effect(v, command),
        ActionView::CSI(csi) => csi_effect(v, csi),
        ActionView::DeviceControl | ActionView::Esc | ActionView::Sixel | ActionView::XtGetTcap
        | ActionView::KittyImage => v,
    }
}

/// What is sent back to the program for one action.
pub open spec fn action_reply(v: ScreenView, action: ActionView) -> Seq<u8> {
    match action {
        ActionView::OperatingSystemCommand(command) => osc_reply(command),
        ActionView::CSI(csi) => csi_reply(v, csi),
        _ => Seq::empty(),
    }
}

/// The text of the action, if it prints any, is narrow: it is plain, or
/// none of its clusters takes a wide cell.
pub open spec fn is_narrow_action(action: ActionView) -> bool {
    match action {
        ActionView::Print(ch) => is_narrow_text(seq![ch]),
        ActionView::PrintString(text) => is_narrow_text(text),
        _ => true,
    }
}

/// The action prints: it is text, or a control code or control sequence
/// that prints.
pub open spec fn action_prints(action: ActionView) -> bool {
    match action {
        ActionView::Print(_) => true,
        ActionView::PrintString(_) => true,
        ActionView::Control(code) => control_prints(code),
        ActionView::CSI(csi) => csi_prints(csi),
        _ => false,
    }
}

/// Whether the action prints, and so needs a row to print on.
pub fn prints(action: &Action) -> (r: bool)
    ensures
        r == action_prints(action@),
{
    match action {
        Action::Print(_) => true,
        Action::PrintString(_) => true,
        Action::Control(code) => match code {
            ControlCode::LineFeed | ControlCode::VerticalTab | ControlCode::FormFeed
            | ControlCode::NEL | ControlCode::Backspace => true,
            _ => false,
        },
        Action::CSI(CSI::Edit(Edit::EraseCharacter(n))) => *n >= 1,
        _ => false,
    }
}

/// The action saves or restores the cursor.
pub open spec fn uses_saved_cursors(action: ActionView) -> bool {
    action matches ActionView::CSI(CSI::Cursor(c)) && (c is SaveCursor || c is RestoreCursor)
}

/// No action changes the size of the screen.
pub proof fn lemma_action_keeps_size(v: ScreenView, action: ActionView)
    ensures
        action_effect(v, action).same_size(v),
{
    match action {
        ActionView::OperatingSystemCommand(command) => {
            lemma_osc_keeps_frame(v, command);
        },
        _ => {},
    }
}

/// Only saving and restoring the cursor changes the stack of saved cursors.
pub proof fn lemma_action_keeps_saved_cursors(v: ScreenView, action: ActionView)
    requires
        !uses_saved_cursors(action),
    ensures
        action_effect(v, action).saved == v.saved,
{
    match action {
        ActionView::OperatingSystemCommand(command) => {
            lemma_osc_keeps_frame(v, command);
        },
        _ => {},
    }
}

/// Whatever the action, the cursor stays on a row of the screen.
pub proof fn lemma_action_keeps_row_in_grid(v: ScreenView, action: ActionView)
    requires
        v.grid.y < v.grid.rows,
    ensures
        action_effect(v, action).grid.y < v.grid.rows,
{
    match action {
        ActionView::Print(ch) => {
            lemma_printed_keeps_row_in_grid(v.grid, seq![ch]);
        },
        ActionView::PrintString(text) => {
            lemma_printed_keeps_row_in_grid(v.grid, text);
        },
        ActionView::Control(code) => {
            lemma_control_keeps_row_in_grid(v, code);
        },
        ActionView::OperatingSystemCommand(command) => {
            lemma_osc_keeps_frame(v, command);
        },
        ActionView::CSI(csi) => {
            lemma_csi_keeps_row_in_grid(v, csi);
        },
        _ => {},
    }
}

/// An action keeps the cursor on the screen, if it was no more than `slack`
/// columns past the last one.  With no slack that holds of the actions with
/// narrow text, with one column of slack of every action: a wide cell
/// written in the last column leaves the cursor one column further out.
pub proof fn lemma_action_keeps_cursor_in_bounds(v: ScreenView, action: ActionView, slack: nat)
    requires
        v.grid.cols >= 1,
        v.cursor_within(slack),
        slack >= 1 || is_narrow_action(action),
    ensures
        action_effect(v, action).cursor_within(slack),
{
    lemma_action_keeps_size(v, action);
    match action {
        ActionView::Print(ch) => {
            lemma_printed_keeps_cursor_in_bounds(v.grid, seq![ch], slack);
        },
        ActionView::PrintString(text) => {
            lemma_printed_keeps_cursor_in_bounds(v.grid, text, slack);
        },
        ActionView::Control(code) => {
            lemma_control_keeps_cursor_in_bounds(v, code, slack);
        },
        ActionView::OperatingSystemCommand(command) => {
            lemma_osc_keeps_frame(v, command);
        },
        ActionView::CSI(csi) => {
            lemma_csi_keeps_cursor_in_bounds(v, csi, slack);
        },
        _ => {},
    }
}

/// Carries out one action on the screen and returns what is to be sent back
/// to the program.
pub fn process_action(screen: &mut Screen, action: &Action) -> (reply: Vec<u8>)
    requires
        old(screen).wf(),
        action_prints(action@) ==> old(screen)@.grid.rows >= 1,
    ensures
        final(screen)@ == action_effect(old(screen)@, action@),
        reply@ == action_reply(old(screen)@, action@),
        old(screen)@.grid.cols >= 1 && old(screen)@.cursor_within(1)
            ==> final(screen)@.cursor_within(1),
        old(screen)@.grid.cols >= 1 && old(screen)@.cursor_in_bounds()
            && is_narrow_action(action@) ==> final(screen)@.cursor_in_bounds(),
        final(screen).wf(),
        final(screen)@.same_size(old(screen)@),
{
    proof {
        let v = screen@;
        if v.grid.cols >= 1 && v.cursor_within(1) {
            lemma_action_keeps_cursor_in_bounds(v, action@, 1);
        }
        if v.grid.cols >= 1 && v.cursor_in_bounds() && is_narrow_action(action@) {
            lemma_action_keeps_cursor_in_bounds(v, action@, 0);
        }
    }
    match action {
        Action::Print(ch) => {
            process_print(screen, *ch);
            Vec::new()
        },
        Action::PrintString(text) => {
            process_print_string(screen, text.as_str());
            Vec::new()
        },
        Action::Control(code) => {
            process_control(screen, *code);
            Vec::new()
        },
        Action::OperatingSystemCommand(command) => process_operating_system_command(
            screen,
            command,
        ),
        Action::CSI(csi) => process_csi(screen, csi),
        Action::DeviceControl | Action::Esc | Action::Sixel | Action::XtGetTcap
        | Action::KittyImage => Vec::new(),
    }
}

} // verus!
