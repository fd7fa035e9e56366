//! Decoding the bytes of a command's output into actions.  The decoding is
//! done by `termwiz`; this module takes what it hands out apart, piece by
//! piece, and proves that the pieces are put together again as they were.

use vstd::prelude::*;
use termwiz::color::ColorSpec as OutSpec;
use termwiz::escape::csi::Cursor as OutCursor;
use termwiz::escape::csi::Edit as OutEdit;
use termwiz::escape::csi::Sgr as OutSgr;
use termwiz::escape::osc::ColorOrQuery as OutColor;
use termwiz::escape::parser::Parser;
use termwiz::escape::Action as Outside;
use termwiz::escape::OperatingSystemCommand as OutOsc;
use termwiz::escape::CSI as OutCsi;
use crate::cell::{Blink, ColorSpec, Intensity, Rgba, Underline};
use crate::escape::{
    Action, ActionView, ColorOrQuery, ControlCode, Cursor, DynamicColorNumber, Edit, OneBased,
    OperatingSystemCommand, OperatingSystemCommandView, Sgr, CSI,
};

verus! {

#[verifier::external_type_specification]
#[verifier::external_body]
pub struct ExParser(Parser);

#[verifier::external_type_specification]
#[verifier::external_body]
pub struct ExOutside(Outside);

/// The pieces of output that a parser was fed since it was made, in the
/// order and with the cuts in which it was fed them.
pub uninterp spec fn parser_fed(p: Parser) -> Seq<Seq<u8>>;

/// The actions that the piece `bytes` decodes to when a parser is fed it
/// after the pieces `fed`.  The cuts between the pieces count: the same bytes
/// cut otherwise can decode otherwise.
pub uninterp spec fn decoded(fed: Seq<Seq<u8>>, bytes: Seq<u8>) -> Seq<ActionView>;

/// What an action of `termwiz` says, in the terms of this crate.  True
/// colours are taken with eight bits for each channel; of the actions that
/// this crate does not obey, only the kind is kept.
pub uninterp spec fn action_view(a: Outside) -> ActionView;

/// The kinds of action.
#[derive(Debug, Clone, Copy, PartialEq, Eq)]
pub enum ActionKind {
    Print,
    PrintString,
    Control,
    DeviceControl,
    OperatingSystemCommand,
    CSI,
    Esc,
    Sixel,
    XtGetTcap,
    KittyImage,
}

/// The kinds of control sequence.
#[derive(Debug, Clone, Copy, PartialEq, Eq)]
pub enum CsiKind {
    Sgr,
    Cursor,
    Edit,
    Mode,
    Device,
    Mouse,
    Window,
    Keyboard,
    SelectCharacterPath,
    Unspecified,
}

/// The kind of an action.
pub open spec fn kind_of(a: ActionView) -> ActionKind {
    match a {
        ActionView::Print(_) => ActionKind::Print,
        ActionView::PrintString(_) => ActionKind::PrintString,
        ActionView::Control(_) => ActionKind::Control,
        ActionView::DeviceControl => ActionKind::DeviceControl,
        ActionView::OperatingSystemCommand(_) => ActionKind::OperatingSystemCommand,
        ActionView::CSI(_) => ActionKind::CSI,
        ActionView::Esc => ActionKind::Esc,
        ActionView::Sixel => ActionKind::Sixel,
        ActionView::XtGetTcap => ActionKind::XtGetTcap,
        ActionView::KittyImage => ActionKind::KittyImage,
    }
}

/// The kind of a control sequence.
pub open spec fn csi_kind_of(c: CSI) -> CsiKind {
    match c {
        CSI::Sgr(_) => CsiKind::Sgr,
        CSI::Cursor(_) => CsiKind::Cursor,
        CSI::Edit(_) => CsiKind::Edit,
        CSI::Mode => CsiKind::Mode,
        CSI::Device => CsiKind::Device,
        CSI::Mouse => CsiKind::Mouse,
        CSI::Window => CsiKind::Window,
        CSI::Keyboard => CsiKind::Keyboard,
        CSI::SelectCharacterPath => CsiKind::SelectCharacterPath,
        CSI::Unspecified => CsiKind::Unspecified,
    }
}

/// The character of a print action.
pub open spec fn char_of(a: ActionView) -> Option<char> {
    match a {
        ActionView::Print(c) => Some(c),
        _ => None,
    }
}

/// The text of a print-string action.
pub open spec fn text_of(a: ActionView) -> Option<Seq<char>> {
    match a {
        ActionView::PrintString(s) => Some(s),
        _ => None,
    }
}

/// The byte of a control action.
pub open spec fn control_of(a: ActionView) -> Option<u8> {
    match a {
        ActionView::Control(c) => Some(c.code()),
        _ => None,
    }
}

/// The kind of the control sequence of an action.
pub open spec fn csi_of(a: ActionView) -> Option<CsiKind> {
    match a {
        ActionView::CSI(c) => Some(csi_kind_of(c)),
        _ => None,
    }
}

/// The rendition instruction of an action.
pub open spec fn sgr_of(a: ActionView) -> Option<Sgr> {
    match a {
        ActionView::CSI(CSI::Sgr(s)) => Some(s),
        _ => None,
    }
}

/// The cursor instruction of an action.
pub open spec fn cursor_of(a: ActionView) -> Option<Cursor> {
    match a {
        ActionView::CSI(CSI::Cursor(c)) => Some(c),
        _ => None,
    }
}

/// The edit instruction of an action.
pub open spec fn edit_of(a: ActionView) -> Option<Edit> {
    match a {
        ActionView::CSI(CSI::Edit(e)) => Some(e),
        _ => None,
    }
}

/// The operating system command of an action.
pub open spec fn osc_of(a: ActionView) -> Option<OperatingSystemCommandView> {
    match a {
        ActionView::OperatingSystemCommand(c) => Some(c),
        _ => None,
    }
}

/// `which`, if it is there and `wanted`.
pub open spec fn only<T>(which: Option<T>, wanted: spec_fn(T) -> bool) -> Option<T> {
    match which {
        Some(t) => if wanted(t) {
            Some(t)
        } else {
            None
        },
        None => None,
    }
}

/// The rendition instruction is a reset, a switch or one without a value.
pub open spec fn is_sgr_switch(s: Sgr) -> bool {
    s is Reset || s is Italic || s is Inverse || s is Invisible || s is StrikeThrough
        || s is Overline || s is Font || s is VerticalAlign
}

/// The rendition instruction sets the intensity or the blinking.
pub open spec fn is_sgr_level(s: Sgr) -> bool {
    s is Intensity || s is Blink
}

/// The rendition instruction sets the underline.
pub open spec fn is_sgr_underline(s: Sgr) -> bool {
    s is Underline
}

/// The rendition instruction sets a colour.
pub open spec fn is_sgr_color(s: Sgr) -> bool {
    s is Foreground || s is Background || s is UnderlineColor
}

/// The cursor instruction is a move by a number of cells.
pub open spec fn is_cursor_step(c: Cursor) -> bool {
    c is Left || c is Right || c is Up || c is Down || c is CharacterPositionForward
        || c is CharacterPositionBackward || c is LinePositionForward
        || c is LinePositionBackward
}

/// The cursor instruction is a tab or a move to a line.
pub open spec fn is_cursor_jump(c: Cursor) -> bool {
    c is BackwardTabulation || c is ForwardTabulation || c is LinePositionAbsolute
        || c is NextLine || c is PrecedingLine || c is LineTabulation
}

/// The cursor instruction names a column or a position.
pub open spec fn is_cursor_place(c: Cursor) -> bool {
    c is CharacterAbsolute || c is CharacterPositionAbsolute || c is CharacterAndLinePosition
        || c is Position
}

/// The cursor instruction is a report or sets margins.
pub open spec fn is_cursor_frame(c: Cursor) -> bool {
    c is ActivePositionReport || c is SetTopAndBottomMargins || c is SetLeftAndRightMargins
}

/// The cursor instruction carries nothing.
pub open spec fn is_cursor_plain(c: Cursor) -> bool {
    c is RequestActivePositionReport || c is SaveCursor || c is RestoreCursor
        || c is TabulationClear || c is TabulationControl || c is CursorStyle
}

/// The operating system command is about titles, links, the selection or
/// notifications.
pub open spec fn is_osc_front(c: OperatingSystemCommandView) -> bool {
    c is SetIconNameAndWindowTitle || c is SetWindowTitle || c is SetWindowTitleSun
        || c is SetIconName || c is SetIconNameSun || c is SetHyperlink || c is ClearSelection
        || c is QuerySelection || c is SetSelection || c is SystemNotification
}

/// The operating system command is one of the other kinds that carry nothing
/// this crate keeps.
pub open spec fn is_osc_back(c: OperatingSystemCommandView) -> bool {
    c is ITermProprietary || c is FinalTermSemanticPrompt || c is ChangeColorNumber
        || c is CurrentWorkingDirectory || c is RxvtExtension || c is ConEmuProgress
        || c is Unspecified
}

/// The number of the dynamic colour of an action that changes such colours
/// (with `true`) or resets one (with `false`).
pub open spec fn osc_number_of(a: ActionView) -> Option<(bool, u8)> {
    match a {
        ActionView::OperatingSystemCommand(
            OperatingSystemCommandView::ChangeDynamicColors(n, _),
        ) => Some((true, n.code())),
        ActionView::OperatingSystemCommand(OperatingSystemCommandView::ResetDynamicColor(n)) => {
            Some((false, n.code()))
        },
        _ => None,
    }
}

/// The colours of an action that changes dynamic colours.
pub open spec fn osc_colors_of(a: ActionView) -> Option<Seq<ColorOrQuery>> {
    match a {
        ActionView::OperatingSystemCommand(
            OperatingSystemCommandView::ChangeDynamicColors(_, colors),
        ) => Some(colors),
        _ => None,
    }
}

/// The numbers of an action that resets colours.
pub open spec fn osc_numbers_of(a: ActionView) -> Option<Seq<u8>> {
    match a {
        ActionView::OperatingSystemCommand(OperatingSystemCommandView::ResetColors(numbers)) => {
            Some(numbers)
        },
        _ => None,
    }
}

/// `Parser::new`: a parser that was fed nothing.
#[verifier::external_body]
fn parser_new() -> (p: Parser)
    ensures
        parser_fed(p) == Seq::<Seq<u8>>::empty(),
{
    Parser::new()
}

/// `Parser::parse`, the actions gathered with `Action::append_to`: the
/// actions that the piece decodes to after the pieces fed before.
#[verifier::external_body]
fn parser_parse(p: &mut Parser, bytes: &[u8]) -> (actions: Vec<Outside>)
    ensures
        parser_fed(*final(p)) == parser_fed(*old(p)).push(bytes@),
        actions@.len() == decoded(parser_fed(*old(p)), bytes@).len(),
        forall|i: int|
            0 <= i < actions@.len() ==> action_view(#[trigger] actions@[i]) == decoded(
                parser_fed(*old(p)),
                bytes@,
            )[i],
{
    let mut actions = Vec::new();
    p.parse(bytes, |action| action.append_to(&mut actions));
    actions
}

/// The variant of an action of `termwiz`.
#[verifier::external_body]
fn outside_kind(a: &Outside) -> (k: ActionKind)
    ensures
        k == kind_of(action_view(*a)),
{
    match a {
        Outside::Print(_) => ActionKind::Print,
        Outside::PrintString(_) => ActionKind::PrintString,
        Outside::Control(_) => ActionKind::Control,
        Outside::DeviceControl(_) => ActionKind::DeviceControl,
        Outside::OperatingSystemCommand(_) => ActionKind::OperatingSystemCommand,
        Outside::CSI(_) => ActionKind::CSI,
        Outside::Esc(_) => ActionKind::Esc,
        Outside::Sixel(_) => ActionKind::Sixel,
        Outside::XtGetTcap(_) => ActionKind::XtGetTcap,
        Outside::KittyImage(_) => ActionKind::KittyImage,
    }
}

/// The character of `Action::Print`.
#[verifier::external_body]
fn outside_char(a: &Outside) -> (r: Option<char>)
    ensures
        r == char_of(action_view(*a)),
{
    match a {
        Outside::Print(c) => Some(*c),
        _ => None,
    }
}

/// The text of `Action::PrintString`.
#[verifier::external_body]
fn outside_text(a: &Outside) -> (r: Option<String>)
    ensures
        r is Some <==> text_of(action_view(*a)) is Some,
        r is Some ==> r->0@ == text_of(action_view(*a))->0,
{
    match a {
        Outside::PrintString(s) => Some(s.clone()),
        _ => None,
    }
}

/// The byte of the control code of `Action::Control`.
#[verifier::external_body]
fn outside_control(a: &Outside) -> (r: Option<u8>)
    ensures
        r == control_of(action_view(*a)),
{
    match a {
        Outside::Control(c) => Some(*c as u8),
        _ => None,
    }
}

/// The variant of the control sequence of `Action::CSI`.
#[verifier::external_body]
fn outside_csi_kind(a: &Outside) -> (r: Option<CsiKind>)
    ensures
        r == csi_of(action_view(*a)),
{
    let Outside::CSI(c) = a else { return None };
    Some(match c {
        OutCsi::Sgr(_) => CsiKind::Sgr,
        OutCsi::Cursor(_) => CsiKind::Cursor,
        OutCsi::Edit(_) => CsiKind::Edit,
        OutCsi::Mode(_) => CsiKind::Mode,
        OutCsi::Device(_) => CsiKind::Device,
        OutCsi::Mouse(_) => CsiKind::Mouse,
        OutCsi::Window(_) => CsiKind::Window,
        OutCsi::Keyboard(_) => CsiKind::Keyboard,
        OutCsi::SelectCharacterPath(_, _) => CsiKind::SelectCharacterPath,
        OutCsi::Unspecified(_) => CsiKind::Unspecified,
    })
}

/// `Sgr::Reset`, the switches, `Sgr::Font` and `Sgr::VerticalAlign`.
#[verifier::external_body]
fn outside_sgr_switch(a: &Outside) -> (r: Option<Sgr>)
    ensures
        r == only(sgr_of(action_view(*a)), |s: Sgr| is_sgr_switch(s)),
{
    let Outside::CSI(OutCsi::Sgr(s)) = a else { return None };
    match s {
        OutSgr::Reset => Some(Sgr::Reset),
        OutSgr::Italic(on) => Some(Sgr::Italic(*on)),
        OutSgr::Inverse(on) => Some(Sgr::Inverse(*on)),
        OutSgr::Invisible(on) => Some(Sgr::Invisible(*on)),
        OutSgr::StrikeThrough(on) => Some(Sgr::StrikeThrough(*on)),
        OutSgr::Overline(on) => Some(Sgr::Overline(*on)),
        OutSgr::Font(_) => Some(Sgr::Font),
        OutSgr::VerticalAlign(_) => Some(Sgr::VerticalAlign),
        _ => None,
    }
}

/// `Sgr::Intensity` and `Sgr::Blink`.
#[verifier::external_body]
fn outside_sgr_level(a: &Outside) -> (r: Option<Sgr>)
    ensures
        r == only(sgr_of(action_view(*a)), |s: Sgr| is_sgr_level(s)),
{
    let Outside::CSI(OutCsi::Sgr(s)) = a else { return None };
    match s {
        OutSgr::Intensity(termwiz::cell::Intensity::Normal) => Some(Sgr::Intensity(Intensity::Normal)),
        OutSgr::Intensity(termwiz::cell::Intensity::Bold) => Some(Sgr::Intensity(Intensity::Bold)),
        OutSgr::Intensity(termwiz::cell::Intensity::Half) => Some(Sgr::Intensity(Intensity::Half)),
        OutSgr::Blink(termwiz::cell::Blink::None) => Some(Sgr::Blink(Blink::Off)),
        OutSgr::Blink(termwiz::cell::Blink::Slow) => Some(Sgr::Blink(Blink::Slow)),
        OutSgr::Blink(termwiz::cell::Blink::Rapid) => Some(Sgr::Blink(Blink::Rapid)),
        _ => None,
    }
}

/// `Sgr::Underline`.
#[verifier::external_body]
fn outside_sgr_underline(a: &Outside) -> (r: Option<Sgr>)
    ensures
        r == only(sgr_of(action_view(*a)), |s: Sgr| is_sgr_underline(s)),
{
    let Outside::CSI(OutCsi::Sgr(OutSgr::Underline(u))) = a else { return None };
    Some(Sgr::Underline(match u {
        termwiz::cell::Underline::None => Underline::Off,
        termwiz::cell::Underline::Single => Underline::Single,
        termwiz::cell::Underline::Double => Underline::Double,
        termwiz::cell::Underline::Curly => Underline::Curly,
        termwiz::cell::Underline::Dotted => Underline::Dotted,
        termwiz::cell::Underline::Dashed => Underline::Dashed,
    }))
}

/// `Sgr::Foreground`, `Sgr::Background` and `Sgr::UnderlineColor`, each
/// channel of a true colour as eight bits.
#[verifier::external_body]
fn outside_sgr_color(a: &Outside) -> (r: Option<Sgr>)
    ensures
        r == only(sgr_of(action_view(*a)), |s: Sgr| is_sgr_color(s)),
{
    let rgba = |(r, g, b, a)| Rgba { r, g, b, a };
    let convert = |c: &OutSpec| match c {
        OutSpec::Default => ColorSpec::Default,
        OutSpec::PaletteIndex(i) => ColorSpec::PaletteIndex(*i),
        OutSpec::TrueColor(t) => ColorSpec::TrueColor(rgba(t.to_srgb_u8())),
    };
    match a {
        Outside::CSI(OutCsi::Sgr(OutSgr::Foreground(c))) => Some(Sgr::Foreground(convert(c))),
        Outside::CSI(OutCsi::Sgr(OutSgr::Background(c))) => Some(Sgr::Background(convert(c))),
        Outside::CSI(OutCsi::Sgr(OutSgr::UnderlineColor(c))) => Some(Sgr::UnderlineColor(convert(c))),
        _ => None,
    }
}

/// The moves of `csi::Cursor` by a number of cells.
#[verifier::external_body]
fn outside_cursor_step(a: &Outside) -> (r: Option<Cursor>)
    ensures
        r == only(cursor_of(action_view(*a)), |c: Cursor| is_cursor_step(c)),
{
    let Outside::CSI(OutCsi::Cursor(c)) = a else { return None };
    match c {
        OutCursor::Left(n) => Some(Cursor::Left(*n)),
        OutCursor::Right(n) => Some(Cursor::Right(*n)),
        OutCursor::Up(n) => Some(Cursor::Up(*n)),
        OutCursor::Down(n) => Some(Cursor::Down(*n)),
        OutCursor::CharacterPositionForward(n) => Some(Cursor::CharacterPositionForward(*n)),
        OutCursor::CharacterPositionBackward(n) => Some(Cursor::CharacterPositionBackward(*n)),
        OutCursor::LinePositionForward(n) => Some(Cursor::LinePositionForward(*n)),
        OutCursor::LinePositionBackward(n) => Some(Cursor::LinePositionBackward(*n)),
        _ => None,
    }
}

/// The tabs and line moves of `csi::Cursor`.
#[verifier::external_body]
fn outside_cursor_jump(a: &Outside) -> (r: Option<Cursor>)
    ensures
        r == only(cursor_of(action_view(*a)), |c: Cursor| is_cursor_jump(c)),
{
    let Outside::CSI(OutCsi::Cursor(c)) = a else { return None };
    match c {
        OutCursor::BackwardTabulation(n) => Some(Cursor::BackwardTabulation(*n)),
        OutCursor::ForwardTabulation(n) => Some(Cursor::ForwardTabulation(*n)),
        OutCursor::LinePositionAbsolute(n) => Some(Cursor::LinePositionAbsolute(*n)),
        OutCursor::NextLine(n) => Some(Cursor::NextLine(*n)),
        OutCursor::PrecedingLine(n) => Some(Cursor::PrecedingLine(*n)),
        OutCursor::LineTabulation(n) => Some(Cursor::LineTabulation(*n)),
        _ => None,
    }
}

/// The columns and positions of `csi::Cursor`, each number as
/// `OneBased::as_one_based` gives it.
#[verifier::external_body]
fn outside_cursor_place(a: &Outside) -> (r: Option<Cursor>)
    ensures
        r == only(cursor_of(action_view(*a)), |c: Cursor| is_cursor_place(c)),
{
    let Outside::CSI(OutCsi::Cursor(c)) = a else { return None };
    let one = |v: &termwiz::escape::OneBased| OneBased { value: v.as_one_based() };
    match c {
        OutCursor::CharacterAbsolute(col) => Some(Cursor::CharacterAbsolute(one(col))),
        OutCursor::CharacterPositionAbsolute(col) => Some(Cursor::CharacterPositionAbsolute(one(col))),
        OutCursor::CharacterAndLinePosition { line, col } => Some(Cursor::CharacterAndLinePosition { line: one(line), col: one(col) }),
        OutCursor::Position { line, col } => Some(Cursor::Position { line: one(line), col: one(col) }),
        _ => None,
    }
}

/// The report and the margins of `csi::Cursor`, each number as
/// `OneBased::as_one_based` gives it.
#[verifier::external_body]
fn outside_cursor_frame(a: &Outside) -> (r: Option<Cursor>)
    ensures
        r == only(cursor_of(action_view(*a)), |c: Cursor| is_cursor_frame(c)),
{
    let Outside::CSI(OutCsi::Cursor(c)) = a else { return None };
    let one = |v: &termwiz::escape::OneBased| OneBased { value: v.as_one_based() };
    match c {
        OutCursor::ActivePositionReport { line, col } => Some(Cursor::ActivePositionReport { line: one(line), col: one(col) }),
        OutCursor::SetTopAndBottomMargins { top, bottom } => Some(Cursor::SetTopAndBottomMargins { top: one(top), bottom: one(bottom) }),
        OutCursor::SetLeftAndRightMargins { left, right } => Some(Cursor::SetLeftAndRightMargins { left: one(left), right: one(right) }),
        _ => None,
    }
}

/// The variants of `csi::Cursor` of which nothing is kept but the kind.
#[verifier::external_body]
fn outside_cursor_plain(a: &Outside) -> (r: Option<Cursor>)
    ensures
        r == only(cursor_of(action_view(*a)), |c: Cursor| is_cursor_plain(c)),
{
    let Outside::CSI(OutCsi::Cursor(c)) = a else { return None };
    match c {
        OutCursor::RequestActivePositionReport => Some(Cursor::RequestActivePositionReport),
        OutCursor::SaveCursor => Some(Cursor::SaveCursor),
        OutCursor::RestoreCursor => Some(Cursor::RestoreCursor),
        OutCursor::TabulationClear(_) => Some(Cursor::TabulationClear),
        OutCursor::TabulationControl(_) => Some(Cursor::TabulationControl),
        OutCursor::CursorStyle(_) => Some(Cursor::CursorStyle),
        _ => None,
    }
}

/// The variants of `csi::Edit`.
#[verifier::external_body]
fn outside_edit(a: &Outside) -> (r: Option<Edit>)
    ensures
        r == edit_of(action_view(*a)),
{
    let Outside::CSI(OutCsi::Edit(e)) = a else { return None };
    Some(match e {
        OutEdit::DeleteCharacter(n) => Edit::DeleteCharacter(*n),
        OutEdit::DeleteLine(n) => Edit::DeleteLine(*n),
        OutEdit::EraseCharacter(n) => Edit::EraseCharacter(*n),
        OutEdit::EraseInLine(_) => Edit::EraseInLine,
        OutEdit::InsertCharacter(n) => Edit::InsertCharacter(*n),
        OutEdit::InsertLine(n) => Edit::InsertLine(*n),
        OutEdit::ScrollDown(n) => Edit::ScrollDown(*n),
        OutEdit::ScrollUp(n) => Edit::ScrollUp(*n),
        OutEdit::EraseInDisplay(_) => Edit::EraseInDisplay,
        OutEdit::Repeat(n) => Edit::Repeat(*n),
    })
}

/// The variants of `OperatingSystemCommand` on titles, links, the selection
/// and notifications.
#[verifier::external_body]
fn outside_osc_front(a: &Outside) -> (r: Option<OperatingSystemCommand>)
    ensures
        r is Some <==> only(
            osc_of(action_view(*a)),
            |c: OperatingSystemCommandView| is_osc_front(c),
        ) is Some,
        r is Some ==> r->0@ == osc_of(action_view(*a))->0,
{
    let Outside::OperatingSystemCommand(c) = a else { return None };
    match &**c {
        OutOsc::SetIconNameAndWindowTitle(_) => Some(OperatingSystemCommand::SetIconNameAndWindowTitle),
        OutOsc::SetWindowTitle(_) => Some(OperatingSystemCommand::SetWindowTitle),
        OutOsc::SetWindowTitleSun(_) => Some(OperatingSystemCommand::SetWindowTitleSun),
        OutOsc::SetIconName(_) => Some(OperatingSystemCommand::SetIconName),
        OutOsc::SetIconNameSun(_) => Some(OperatingSystemCommand::SetIconNameSun),
        OutOsc::SetHyperlink(_) => Some(OperatingSystemCommand::SetHyperlink),
        OutOsc::ClearSelection(_) => Some(OperatingSystemCommand::ClearSelection),
        OutOsc::QuerySelection(_) => Some(OperatingSystemCommand::QuerySelection),
        OutOsc::SetSelection(_, _) => Some(OperatingSystemCommand::SetSelection),
        OutOsc::SystemNotification(_) => Some(OperatingSystemCommand::SystemNotification),
        _ => None,
    }
}

/// The other variants of `OperatingSystemCommand` of which nothing is kept
/// but the kind.
#[verifier::external_body]
fn outside_osc_back(a: &Outside) -> (r: Option<OperatingSystemCommand>)
    ensures
        r is Some <==> only(
            osc_of(action_view(*a)),
            |c: OperatingSystemCommandView| is_osc_back(c),
        ) is Some,
        r is Some ==> r->0@ == osc_of(action_view(*a))->0,
{
    let Outside::OperatingSystemCommand(c) = a else { return None };
    match &**c {
        OutOsc::ITermProprietary(_) => Some(OperatingSystemCommand::ITermProprietary),
        OutOsc::FinalTermSemanticPrompt(_) => Some(OperatingSystemCommand::FinalTermSemanticPrompt),
        OutOsc::ChangeColorNumber(_) => Some(OperatingSystemCommand::ChangeColorNumber),
        OutOsc::CurrentWorkingDirectory(_) => Some(OperatingSystemCommand::CurrentWorkingDirectory),
        OutOsc::RxvtExtension(_) => Some(OperatingSystemCommand::RxvtExtension),
        OutOsc::ConEmuProgress(_) => Some(OperatingSystemCommand::ConEmuProgress),
        OutOsc::Unspecified(_) => Some(OperatingSystemCommand::Unspecified),
        _ => None,
    }
}

/// The number of the dynamic colour of
/// `OperatingSystemCommand::ChangeDynamicColors` (with `true`) and
/// `ResetDynamicColor` (with `false`).
#[verifier::external_body]
fn outside_osc_number(a: &Outside) -> (r: Option<(bool, u8)>)
    ensures
        r == osc_number_of(action_view(*a)),
{
    let Outside::OperatingSystemCommand(c) = a else { return None };
    match &**c {
        OutOsc::ChangeDynamicColors(n, _) => Some((true, *n as u8)),
        OutOsc::ResetDynamicColor(n) => Some((false, *n as u8)),
        _ => None,
    }
}

/// The colours of `OperatingSystemCommand::ChangeDynamicColors`, each channel
/// as eight bits.
#[verifier::external_body]
fn outside_osc_colors(a: &Outside) -> (r: Option<Vec<ColorOrQuery>>)
    ensures
        r is Some <==> osc_colors_of(action_view(*a)) is Some,
        r is Some ==> r->0@ == osc_colors_of(action_view(*a))->0,
{
    let Outside::OperatingSystemCommand(c) = a else { return None };
    let OutOsc::ChangeDynamicColors(_, colors) = &**c else { return None };
    let rgba = |(r, g, b, a)| Rgba { r, g, b, a };
    let convert = |c: &OutColor| match c {
        OutColor::Color(t) => ColorOrQuery::Color(rgba(t.to_srgb_u8())),
        OutColor::Query => ColorOrQuery::Query,
    };
    Some(colors.iter().map(convert).collect())
}

/// The numbers of `OperatingSystemCommand::ResetColors`.
#[verifier::external_body]
fn outside_osc_numbers(a: &Outside) -> (r: Option<Vec<u8>>)
    ensures
        r is Some <==> osc_numbers_of(action_view(*a)) is Some,
        r is Some ==> r->0@ == osc_numbers_of(action_view(*a))->0,
{
    let Outside::OperatingSystemCommand(c) = a else { return None };
    match &**c {
        OutOsc::ResetColors(numbers) => Some(numbers.clone()),
        _ => None,
    }
}

/// Two control codes with the same byte are the same.
proof fn lemma_control_code_of_byte(a: ControlCode, b: ControlCode)
    requires
        a.code() == b.code(),
    ensures
        a == b,
{
}

/// Two dynamic colours with the same number are the same.
proof fn lemma_dynamic_color_of_number(a: DynamicColorNumber, b: DynamicColorNumber)
    requires
        a.code() == b.code(),
    ensures
        a == b,
{
}

/// The rendition instruction of a `termwiz` action that holds one.
fn convert_sgr(a: &Outside) -> (r: Sgr)
    requires
        sgr_of(action_view(*a)) is Some,
    ensures
        Some(r) == sgr_of(action_view(*a)),
{
    if let Some(s) = outside_sgr_switch(a) {
        return s;
    }
    if let Some(s) = outside_sgr_level(a) {
        return s;
    }
    if let Some(s) = outside_sgr_underline(a) {
        return s;
    }
    match outside_sgr_color(a) {
        Some(s) => s,
        None => {
            assert(false);
            Sgr::Reset
        },
    }
}

/// The cursor instruction of a `termwiz` action that holds one.
fn convert_cursor(a: &Outside) -> (r: Cursor)
    requires
        cursor_of(action_view(*a)) is Some,
    ensures
        Some(r) == cursor_of(action_view(*a)),
{
    if let Some(c) = outside_cursor_step(a) {
        return c;
    }
    if let Some(c) = outside_cursor_jump(a) {
        return c;
    }
    if let Some(c) = outside_cursor_place(a) {
        return c;
    }
    if let Some(c) = outside_cursor_frame(a) {
        return c;
    }
    match outside_cursor_plain(a) {
        Some(c) => c,
        None => {
            assert(false);
            Cursor::SaveCursor
        },
    }
}

/// The control sequence of a `termwiz` action that holds one.
fn convert_csi(a: &Outside) -> (r: CSI)
    requires
        action_view(*a) is CSI,
    ensures
        ActionView::CSI(r) == action_view(*a),
{
    match outside_csi_kind(a) {
        Some(CsiKind::Sgr) => CSI::Sgr(convert_sgr(a)),
        Some(CsiKind::Cursor) => CSI::Cursor(convert_cursor(a)),
        Some(CsiKind::Edit) => match outside_edit(a) {
            Some(e) => CSI::Edit(e),
            None => {
                assert(false);
                CSI::Unspecified
            },
        },
        Some(CsiKind::Mode) => CSI::Mode,
        Some(CsiKind::Device) => CSI::Device,
        Some(CsiKind::Mouse) => CSI::Mouse,
        Some(CsiKind::Window) => CSI::Window,
        Some(CsiKind::Keyboard) => CSI::Keyboard,
        Some(CsiKind::SelectCharacterPath) => CSI::SelectCharacterPath,
        Some(CsiKind::Unspecified) => CSI::Unspecified,
        None => {
            assert(false);
            CSI::Unspecified
        },
    }
}

/// The dynamic colour with the number `byte`, which is known to be one.
fn dynamic_color_of(byte: u8, Ghost(n): Ghost<DynamicColorNumber>) -> (r: DynamicColorNumber)
    requires
        n.code() == byte,
    ensures
        r == n,
{
    match DynamicColorNumber::from_u8(byte) {
        Some(found) => {
            proof {
                lemma_dynamic_color_of_number(found, n);
            }
            found
        },
        None => {
            assert(false);
            DynamicColorNumber::TextForegroundColor
        },
    }
}

/// The operating system command of a `termwiz` action that holds one.
fn convert_osc(a: &Outside) -> (r: OperatingSystemCommand)
    requires
        action_view(*a) is OperatingSystemCommand,
    ensures
        ActionView::OperatingSystemCommand(r@) == action_view(*a),
{
    let ghost view = osc_of(action_view(*a))->0;
    if let Some(c) = outside_osc_front(a) {
        return c;
    }
    if let Some(c) = outside_osc_back(a) {
        return c;
    }
    match outside_osc_number(a) {
        Some((true, byte)) => {
            let first = dynamic_color_of(byte, Ghost(view->ChangeDynamicColors_0));
            match outside_osc_colors(a) {
                Some(colors) => OperatingSystemCommand::ChangeDynamicColors(first, colors),
                None => {
                    assert(false);
                    OperatingSystemCommand::Unspecified
                },
            }
        },
        Some((false, byte)) => {
            let target = dynamic_color_of(byte, Ghost(view->ResetDynamicColor_0));
            OperatingSystemCommand::ResetDynamicColor(target)
        },
        None => match outside_osc_numbers(a) {
            Some(numbers) => OperatingSystemCommand::ResetColors(numbers),
            None => {
                assert(false);
                OperatingSystemCommand::Unspecified
            },
        },
    }
}

/// The action of this crate for an action of `termwiz`.
fn convert(a: &Outside) -> (r: Action)
    ensures
        r@ == action_view(*a),
{
    match outside_kind(a) {
        ActionKind::Print => match outside_char(a) {
            Some(c) => Action::Print(c),
            None => {
                assert(false);
                Action::Esc
            },
        },
        ActionKind::PrintString => match outside_text(a) {
            Some(text) => Action::PrintString(text),
            None => {
                assert(false);
                Action::Esc
            },
        },
        ActionKind::Control => match outside_control(a) {
            Some(byte) => match ControlCode::from_u8(byte) {
                Some(code) => {
                    proof {
                        lemma_control_code_of_byte(code, action_view(*a)->Control_0);
                    }
                    Action::Control(code)
                },
                None => {
                    assert(false);
                    Action::Esc
                },
            },
            None => {
                assert(false);
                Action::Esc
            },
        },
        ActionKind::DeviceControl => Action::DeviceControl,
        ActionKind::OperatingSystemCommand => Action::OperatingSystemCommand(convert_osc(a)),
        ActionKind::CSI => Action::CSI(convert_csi(a)),
        ActionKind::Esc => Action::Esc,
        ActionKind::Sixel => Action::Sixel,
        ActionKind::XtGetTcap => Action::XtGetTcap,
        ActionKind::KittyImage => Action::KittyImage,
    }
}

/// Turns the bytes that a command writes into actions.  The bytes may come
/// in pieces of any size: what is left undecided at the end of one piece is
/// kept for the next.
pub struct ActionParser {
    parser: Parser,
}

impl ActionParser {
    /// The pieces fed to the parser so far, in order.
    pub closed spec fn fed(&self) -> Seq<Seq<u8>> {
        parser_fed(self.parser)
    }

    /// A parser that was fed nothing.
    pub fn new() -> (p: ActionParser)
        ensures
            p.fed() == Seq::<Seq<u8>>::empty(),
    {
        ActionParser { parser: parser_new() }
    }

    /// Decodes the next piece and adds the actions that it completes to
    /// `sink`.
    pub fn parse(&mut self, chunk: &[u8], sink: &mut Vec<Action>)
        ensures
            final(self).fed() == old(self).fed().push(chunk@),
            crate::escape::action_views(final(sink)@) == crate::escape::action_views(old(sink)@)
                + decoded(old(self).fed(), chunk@),
    {
        let ghost start = crate::escape::action_views(sink@);
        let ghost target = decoded(self.fed(), chunk@);
        let found = parser_parse(&mut self.parser, chunk);
        let mut i: usize = 0;
        assert(start + target.take(0) =~= start);
        while i < found.len()
            invariant
                0 <= i <= found.len(),
                found@.len() == target.len(),
                forall|j: int| 0 <= j < found@.len() ==> action_view(#[trigger] found@[j]) == target[j],
                crate::escape::action_views(sink@) == start + target.take(i as int),
            decreases found.len() - i,
        {
            let action = convert(&found[i]);
            let ghost before = sink@;
            sink.push(action);
            proof {
                assert(crate::escape::action_views(sink@) =~= crate::escape::action_views(before)
                    .push(action@));
                assert(target.take(i + 1) =~= target.take(i as int).push(target[i as int]));
                assert(start + target.take(i + 1) =~= (start + target.take(i as int)).push(
                    target[i as int],
                ));
            }
            i = i + 1;
        }
        assert(target.take(found.len() as int) =~= target);
    }
}

} // verus!
