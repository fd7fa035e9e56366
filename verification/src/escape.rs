//! What a terminal is told to do: the actions that the byte stream of a
//! command decodes to.

use vstd::prelude::*;
use crate::cell::{Blink, ColorSpec, Intensity, Rgba, Underline};

pub mod parser;



verus! {

/// A C0 or C1 control code.
#[derive(Debug, Clone, Copy, PartialEq, Eq, Structural)]
pub enum ControlCode {
    Null,
    StartOfHeading,
    StartOfText,
    EndOfText,
    EndOfTransmission,
    Enquiry,
    Acknowledge,
    Bell,
    Backspace,
    HorizontalTab,
    LineFeed,
    VerticalTab,
    FormFeed,
    CarriageReturn,
    ShiftOut,
    ShiftIn,
    DataLinkEscape,
    DeviceControlOne,
    DeviceControlTwo,
    DeviceControlThree,
    DeviceControlFour,
    NegativeAcknowledge,
    SynchronousIdle,
    EndOfTransmissionBlock,
    Cancel,
    EndOfMedium,
    Substitute,
    Escape,
    FileSeparator,
    GroupSeparator,
    RecordSeparator,
    UnitSeparator,
    BPH,
    NBH,
    IND,
    NEL,
    SSA,
    ESA,
    HTS,
    HTJ,
    VTS,
    PLD,
    PLU,
    RI,
    SS2,
    SS3,
    DCS,
    PU1,
    PU2,
    STS,
    CCH,
    MW,
    SPA,
    EPA,
    SOS,
    SCI,
    CSI,
    ST,
    OSC,
    PM,
    APC,
}

impl ControlCode {
    /// The byte that stands for this code.
    pub open spec fn code(self) -> u8 {
        match self {
            ControlCode::Null => 0u8,
            ControlCode::StartOfHeading => 1u8,
            ControlCode::StartOfText => 2u8,
            ControlCode::EndOfText => 3u8,
            ControlCode::EndOfTransmission => 4u8,
            ControlCode::Enquiry => 5u8,
            ControlCode::Acknowledge => 6u8,
            ControlCode::Bell => 7u8,
            ControlCode::Backspace => 8u8,
            ControlCode::HorizontalTab => 9u8,
            ControlCode::LineFeed => 10u8,
            ControlCode::VerticalTab => 11u8,
            ControlCode::FormFeed => 12u8,
            ControlCode::CarriageReturn => 13u8,
            ControlCode::ShiftOut => 14u8,
            ControlCode::ShiftIn => 15u8,
            ControlCode::DataLinkEscape => 16u8,
            ControlCode::DeviceControlOne => 17u8,
            ControlCode::DeviceControlTwo => 18u8,
            ControlCode::DeviceControlThree => 19u8,
            ControlCode::DeviceControlFour => 20u8,
            ControlCode::NegativeAcknowledge => 21u8,
            ControlCode::SynchronousIdle => 22u8,
            ControlCode::EndOfTransmissionBlock => 23u8,
            ControlCode::Cancel => 24u8,
            ControlCode::EndOfMedium => 25u8,
            ControlCode::Substitute => 26u8,
            ControlCode::Escape => 27u8,
            ControlCode::FileSeparator => 28u8,
            ControlCode::GroupSeparator => 29u8,
            ControlCode::RecordSeparator => 30u8,
            ControlCode::UnitSeparator => 31u8,
            ControlCode::BPH => 130u8,
            ControlCode::NBH => 131u8,
            ControlCode::IND => 132u8,
            ControlCode::NEL => 133u8,
            ControlCode::SSA => 134u8,
            ControlCode::ESA => 135u8,
            ControlCode::HTS => 136u8,
            ControlCode::HTJ => 137u8,
            ControlCode::VTS => 138u8,
            ControlCode::PLD => 139u8,
            ControlCode::PLU => 140u8,
            ControlCode::RI => 141u8,
            ControlCode::SS2 => 142u8,
            ControlCode::SS3 => 143u8,
            ControlCode::DCS => 144u8,
            ControlCode::PU1 => 145u8,
            ControlCode::PU2 => 146u8,
            ControlCode::STS => 147u8,
            ControlCode::CCH => 148u8,
            ControlCode::MW => 149u8,
            ControlCode::SPA => 150u8,
            ControlCode::EPA => 151u8,
            ControlCode::SOS => 152u8,
            ControlCode::SCI => 154u8,
            ControlCode::CSI => 155u8,
            ControlCode::ST => 156u8,
            ControlCode::OSC => 157u8,
            ControlCode::PM => 158u8,
            ControlCode::APC => 159u8,
        }
    }

    /// Computes `code`.
    pub fn as_u8(self) -> (r: u8)
        ensures
            r == self.code(),
    {
        match self {
            ControlCode::Null => 0u8,
            ControlCode::StartOfHeading => 1u8,
            ControlCode::StartOfText => 2u8,
            ControlCode::EndOfText => 3u8,
            ControlCode::EndOfTransmission => 4u8,
            ControlCode::Enquiry => 5u8,
            ControlCode::Acknowledge => 6u8,
            ControlCode::Bell => 7u8,
            ControlCode::Backspace => 8u8,
            ControlCode::HorizontalTab => 9u8,
            ControlCode::LineFeed => 10u8,
            ControlCode::VerticalTab => 11u8,
            ControlCode::FormFeed => 12u8,
            ControlCode::CarriageReturn => 13u8,
            ControlCode::ShiftOut => 14u8,
            ControlCode::ShiftIn => 15u8,
            ControlCode::DataLinkEscape => 16u8,
            ControlCode::DeviceControlOne => 17u8,
            ControlCode::DeviceControlTwo => 18u8,
            ControlCode::DeviceControlThree => 19u8,
            ControlCode::DeviceControlFour => 20u8,
            ControlCode::NegativeAcknowledge => 21u8,
            ControlCode::SynchronousIdle => 22u8,
            ControlCode::EndOfTransmissionBlock => 23u8,
            ControlCode::Cancel => 24u8,
            ControlCode::EndOfMedium => 25u8,
            ControlCode::Substitute => 26u8,
            ControlCode::Escape => 27u8,
            ControlCode::FileSeparator => 28u8,
            ControlCode::GroupSeparator => 29u8,
            ControlCode::RecordSeparator => 30u8,
            ControlCode::UnitSeparator => 31u8,
            ControlCode::BPH => 130u8,
            ControlCode::NBH => 131u8,
            ControlCode::IND => 132u8,
            ControlCode::NEL => 133u8,
            ControlCode::SSA => 134u8,
            ControlCode::ESA => 135u8,
            ControlCode::HTS => 136u8,
            ControlCode::HTJ => 137u8,
            ControlCode::VTS => 138u8,
            ControlCode::PLD => 139u8,
            ControlCode::PLU => 140u8,
            ControlCode::RI => 141u8,
            ControlCode::SS2 => 142u8,
            ControlCode::SS3 => 143u8,
            ControlCode::DCS => 144u8,
            ControlCode::PU1 => 145u8,
            ControlCode::PU2 => 146u8,
            ControlCode::STS => 147u8,
            ControlCode::CCH => 148u8,
            ControlCode::MW => 149u8,
            ControlCode::SPA => 150u8,
            ControlCode::EPA => 151u8,
            ControlCode::SOS => 152u8,
            ControlCode::SCI => 154u8,
            ControlCode::CSI => 155u8,
            ControlCode::ST => 156u8,
            ControlCode::OSC => 157u8,
            ControlCode::PM => 158u8,
            ControlCode::APC => 159u8,
        }
    }

    /// The code that `byte` stands for, if it stands for one.
    pub fn from_u8(byte: u8) -> (r: Option<ControlCode>)
        ensures
            r is Some ==> r->0.code() == byte,
            r is None ==> forall|c: ControlCode| c.code() != byte,
    {
        match byte {
            0u8 => Some(ControlCode::Null),
            1u8 => Some(ControlCode::StartOfHeading),
            2u8 => Some(ControlCode::StartOfText),
            3u8 => Some(ControlCode::EndOfText),
            4u8 => Some(ControlCode::EndOfTransmission),
            5u8 => Some(ControlCode::Enquiry),
            6u8 => Some(ControlCode::Acknowledge),
            7u8 => Some(ControlCode::Bell),
            8u8 => Some(ControlCode::Backspace),
            9u8 => Some(ControlCode::HorizontalTab),
            10u8 => Some(ControlCode::LineFeed),
            11u8 => Some(ControlCode::VerticalTab),
            12u8 => Some(ControlCode::FormFeed),
            13u8 => Some(ControlCode::CarriageReturn),
            14u8 => Some(ControlCode::ShiftOut),
            15u8 => Some(ControlCode::ShiftIn),
            16u8 => Some(ControlCode::DataLinkEscape),
            17u8 => Some(ControlCode::DeviceControlOne),
            18u8 => Some(ControlCode::DeviceControlTwo),
            19u8 => Some(ControlCode::DeviceControlThree),
            20u8 => Some(ControlCode::DeviceControlFour),
            21u8 => Some(ControlCode::NegativeAcknowledge),
            22u8 => Some(ControlCode::SynchronousIdle),
            23u8 => Some(ControlCode::EndOfTransmissionBlock),
            24u8 => Some(ControlCode::Cancel),
            25u8 => Some(ControlCode::EndOfMedium),
            26u8 => Some(ControlCode::Substitute),
            27u8 => Some(ControlCode::Escape),
            28u8 => Some(ControlCode::FileSeparator),
            29u8 => Some(ControlCode::GroupSeparator),
            30u8 => Some(ControlCode::RecordSeparator),
            31u8 => Some(ControlCode::UnitSeparator),
            130u8 => Some(ControlCode::BPH),
            131u8 => Some(ControlCode::NBH),
            132u8 => Some(ControlCode::IND),
            133u8 => Some(ControlCode::NEL),
            134u8 => Some(ControlCode::SSA),
            135u8 => Some(ControlCode::ESA),
            136u8 => Some(ControlCode::HTS),
            137u8 => Some(ControlCode::HTJ),
            138u8 => Some(ControlCode::VTS),
            139u8 => Some(ControlCode::PLD),
            140u8 => Some(ControlCode::PLU),
            141u8 => Some(ControlCode::RI),
            142u8 => Some(ControlCode::SS2),
            143u8 => Some(ControlCode::SS3),
            144u8 => Some(ControlCode::DCS),
            145u8 => Some(ControlCode::PU1),
            146u8 => Some(ControlCode::PU2),
            147u8 => Some(ControlCode::STS),
            148u8 => Some(ControlCode::CCH),
            149u8 => Some(ControlCode::MW),
            150u8 => Some(ControlCode::SPA),
            151u8 => Some(ControlCode::EPA),
            152u8 => Some(ControlCode::SOS),
            154u8 => Some(ControlCode::SCI),
            155u8 => Some(ControlCode::CSI),
            156u8 => Some(ControlCode::ST),
            157u8 => Some(ControlCode::OSC),
            158u8 => Some(ControlCode::PM),
            159u8 => Some(ControlCode::APC),
            _ => None,
        }
    }
}

/// A line or column counted from 1, as escape sequences count them.
#[derive(Debug, Clone, Copy, PartialEq, Eq, Structural)]
pub struct OneBased {
    pub value: u32,
}

impl OneBased {
    /// The number as it is written in the escape sequence.
    pub open spec fn get(self) -> u32 {
        self.value
    }

    /// The same line or column counted from 0.  A 0 in the escape sequence
    /// means the first one, as a 1 does.
    pub open spec fn zero_based(self) -> u32 {
        if self.get() == 0 {
            0
        } else {
            (self.get() - 1) as u32
        }
    }

    /// The line or column written as `value` in an escape sequence.
    pub fn new(value: u32) -> (r: OneBased)
        ensures
            r.get() == value,
    {
        OneBased { value }
    }

    /// The line or column that is `value` when counted from 0.
    pub fn from_zero_based(value: u32) -> (r: OneBased)
        requires
            value < u32::MAX,
        ensures
            r.get() == value + 1,
            r.zero_based() == value,
    {
        OneBased { value: value + 1 }
    }

    /// Computes `zero_based`.
    pub fn as_zero_based(self) -> (r: u32)
        ensures
            r == self.zero_based(),
    {
        if self.value == 0 {
            0
        } else {
            self.value - 1
        }
    }

    /// Computes `get`.
    pub fn as_one_based(self) -> (r: u32)
        ensures
            r == self.get(),
    {
        self.value
    }
}

/// An instruction that concerns the cursor.
#[derive(Debug, Clone, Copy, PartialEq, Eq)]
pub enum Cursor {
    BackwardTabulation(u32),
    TabulationClear,
    CharacterAbsolute(OneBased),
    CharacterPositionAbsolute(OneBased),
    CharacterPositionBackward(u32),
    CharacterPositionForward(u32),
    CharacterAndLinePosition { line: OneBased, col: OneBased },
    LinePositionAbsolute(u32),
    LinePositionBackward(u32),
    LinePositionForward(u32),
    ForwardTabulation(u32),
    NextLine(u32),
    PrecedingLine(u32),
    ActivePositionReport { line: OneBased, col: OneBased },
    RequestActivePositionReport,
    SaveCursor,
    RestoreCursor,
    TabulationControl,
    Left(u32),
    Down(u32),
    Right(u32),
    Position { line: OneBased, col: OneBased },
    Up(u32),
    LineTabulation(u32),
    SetTopAndBottomMargins { top: OneBased, bottom: OneBased },
    SetLeftAndRightMargins { left: OneBased, right: OneBased },
    CursorStyle,
}

/// An instruction that edits what is on the screen.
#[derive(Debug, Clone, Copy, PartialEq, Eq)]
pub enum Edit {
    DeleteCharacter(u32),
    DeleteLine(u32),
    EraseCharacter(u32),
    EraseInLine,
    InsertCharacter(u32),
    InsertLine(u32),
    ScrollDown(u32),
    ScrollUp(u32),
    EraseInDisplay,
    Repeat(u32),
}

/// An instruction that changes how text is drawn from here on.
#[derive(Debug, Clone, Copy, PartialEq, Eq)]
pub enum Sgr {
    Reset,
    Intensity(Intensity),
    Underline(Underline),
    UnderlineColor(ColorSpec),
    Blink(Blink),
    Italic(bool),
    Inverse(bool),
    Invisible(bool),
    StrikeThrough(bool),
    Font,
    Foreground(ColorSpec),
    Background(ColorSpec),
    Overline(bool),
    VerticalAlign,
}

/// A control sequence, by what it is about.
#[derive(Debug, Clone, Copy, PartialEq, Eq)]
pub enum CSI {
    Sgr(Sgr),
    Cursor(Cursor),
    Edit(Edit),
    Mode,
    Device,
    Mouse,
    Window,
    Keyboard,
    SelectCharacterPath,
    Unspecified,
}

/// One of the ten colours that a program can set or ask for by number.
#[derive(Debug, Clone, Copy, PartialEq, Eq, Structural)]
pub enum DynamicColorNumber {
    TextForegroundColor,
    TextBackgroundColor,
    TextCursorColor,
    MouseForegroundColor,
    MouseBackgroundColor,
    TektronixForegroundColor,
    TektronixBackgroundColor,
    HighlightBackgroundColor,
    TektronixCursorColor,
    HighlightForegroundColor,
}

impl DynamicColorNumber {
    /// The number that stands for this colour.
    pub open spec fn code(self) -> u8 {
        match self {
            DynamicColorNumber::TextForegroundColor => 10u8,
            DynamicColorNumber::TextBackgroundColor => 11u8,
            DynamicColorNumber::TextCursorColor => 12u8,
            DynamicColorNumber::MouseForegroundColor => 13u8,
            DynamicColorNumber::MouseBackgroundColor => 14u8,
            DynamicColorNumber::TektronixForegroundColor => 15u8,
            DynamicColorNumber::TektronixBackgroundColor => 16u8,
            DynamicColorNumber::HighlightBackgroundColor => 17u8,
            DynamicColorNumber::TektronixCursorColor => 18u8,
            DynamicColorNumber::HighlightForegroundColor => 19u8,
        }
    }

    /// Computes `code`.
    pub fn as_u8(self) -> (r: u8)
        ensures
            r == self.code(),
    {
        match self {
            DynamicColorNumber::TextForegroundColor => 10u8,
            DynamicColorNumber::TextBackgroundColor => 11u8,
            DynamicColorNumber::TextCursorColor => 12u8,
            DynamicColorNumber::MouseForegroundColor => 13u8,
            DynamicColorNumber::MouseBackgroundColor => 14u8,
            DynamicColorNumber::TektronixForegroundColor => 15u8,
            DynamicColorNumber::TektronixBackgroundColor => 16u8,
            DynamicColorNumber::HighlightBackgroundColor => 17u8,
            DynamicColorNumber::TektronixCursorColor => 18u8,
            DynamicColorNumber::HighlightForegroundColor => 19u8,
        }
    }

    /// The colour that `byte` stands for, if it stands for one.
    pub fn from_u8(byte: u8) -> (r: Option<DynamicColorNumber>)
        ensures
            r is Some ==> r->0.code() == byte,
            r is None ==> forall|c: DynamicColorNumber| c.code() != byte,
    {
        match byte {
            10u8 => Some(DynamicColorNumber::TextForegroundColor),
            11u8 => Some(DynamicColorNumber::TextBackgroundColor),
            12u8 => Some(DynamicColorNumber::TextCursorColor),
            13u8 => Some(DynamicColorNumber::MouseForegroundColor),
            14u8 => Some(DynamicColorNumber::MouseBackgroundColor),
            15u8 => Some(DynamicColorNumber::TektronixForegroundColor),
            16u8 => Some(DynamicColorNumber::TektronixBackgroundColor),
            17u8 => Some(DynamicColorNumber::HighlightBackgroundColor),
            18u8 => Some(DynamicColorNumber::TektronixCursorColor),
            19u8 => Some(DynamicColorNumber::HighlightForegroundColor),
            _ => None,
        }
    }
}

/// A colour to set, or the question what the colour is.
#[derive(Debug, Clone, Copy, PartialEq, Eq)]
pub enum ColorOrQuery {
    Color(Rgba),
    Query,
}

/// An operating system command.
#[derive(Debug, Clone, PartialEq, Eq)]
pub enum OperatingSystemCommand {
    SetIconNameAndWindowTitle,
    SetWindowTitle,
    SetWindowTitleSun,
    SetIconName,
    SetIconNameSun,
    SetHyperlink,
    ClearSelection,
    QuerySelection,
    SetSelection,
    SystemNotification,
    ITermProprietary,
    FinalTermSemanticPrompt,
    ChangeColorNumber,
    /// Sets or asks for dynamic colours: the first colour is for the number
    /// given, each further one for the number after.
    ChangeDynamicColors(DynamicColorNumber, Vec<ColorOrQuery>),
    ResetDynamicColor(DynamicColorNumber),
    CurrentWorkingDirectory,
    /// Resets the dynamic colours with these numbers.
    ResetColors(Vec<u8>),
    RxvtExtension,
    ConEmuProgress,
    Unspecified,
}

/// One thing the terminal is told to do.
#[derive(Debug, Clone, PartialEq, Eq)]
pub enum Action {
    /// Show one character.
    Print(char),
    /// Show a run of characters.
    PrintString(String),
    Control(ControlCode),
    DeviceControl,
    OperatingSystemCommand(OperatingSystemCommand),
    CSI(CSI),
    Esc,
    Sixel,
    XtGetTcap,
    KittyImage,
}

/// What an operating system command says.
pub ghost enum OperatingSystemCommandView {
    SetIconNameAndWindowTitle,
    SetWindowTitle,
    SetWindowTitleSun,
    SetIconName,
    SetIconNameSun,
    SetHyperlink,
    ClearSelection,
    QuerySelection,
    SetSelection,
    SystemNotification,
    ITermProprietary,
    FinalTermSemanticPrompt,
    ChangeColorNumber,
    ChangeDynamicColors(DynamicColorNumber, Seq<ColorOrQuery>),
    ResetDynamicColor(DynamicColorNumber),
    CurrentWorkingDirectory,
    ResetColors(Seq<u8>),
    RxvtExtension,
    ConEmuProgress,
    Unspecified,
}

impl View for OperatingSystemCommand {
    type V = OperatingSystemCommandView;

    open spec fn view(&self) -> OperatingSystemCommandView {
        match *self {
            OperatingSystemCommand::SetIconNameAndWindowTitle => OperatingSystemCommandView::SetIconNameAndWindowTitle,
            OperatingSystemCommand::SetWindowTitle => OperatingSystemCommandView::SetWindowTitle,
            OperatingSystemCommand::SetWindowTitleSun => OperatingSystemCommandView::SetWindowTitleSun,
            OperatingSystemCommand::SetIconName => OperatingSystemCommandView::SetIconName,
            OperatingSystemCommand::SetIconNameSun => OperatingSystemCommandView::SetIconNameSun,
            OperatingSystemCommand::SetHyperlink => OperatingSystemCommandView::SetHyperlink,
            OperatingSystemCommand::ClearSelection => OperatingSystemCommandView::ClearSelection,
            OperatingSystemCommand::QuerySelection => OperatingSystemCommandView::QuerySelection,
            OperatingSystemCommand::SetSelection => OperatingSystemCommandView::SetSelection,
            OperatingSystemCommand::SystemNotification => OperatingSystemCommandView::SystemNotification,
            OperatingSystemCommand::ITermProprietary => OperatingSystemCommandView::ITermProprietary,
            OperatingSystemCommand::FinalTermSemanticPrompt => OperatingSystemCommandView::FinalTermSemanticPrompt,
            OperatingSystemCommand::ChangeColorNumber => OperatingSystemCommandView::ChangeColorNumber,
            OperatingSystemCommand::CurrentWorkingDirectory => OperatingSystemCommandView::CurrentWorkingDirectory,
            OperatingSystemCommand::RxvtExtension => OperatingSystemCommandView::RxvtExtension,
            OperatingSystemCommand::ConEmuProgress => OperatingSystemCommandView::ConEmuProgress,
            OperatingSystemCommand::Unspecified => OperatingSystemCommandView::Unspecified,
            OperatingSystemCommand::ChangeDynamicColors(n, colors) => {
                OperatingSystemCommandView::ChangeDynamicColors(n, colors@)
            },
            OperatingSystemCommand::ResetDynamicColor(n) => {
                OperatingSystemCommandView::ResetDynamicColor(n)
            },
            OperatingSystemCommand::ResetColors(numbers) => {
                OperatingSystemCommandView::ResetColors(numbers@)
            },
        }
    }
}

/// What an action says.
pub ghost enum ActionView {
    Print(char),
    PrintString(Seq<char>),
    Control(ControlCode),
    DeviceControl,
    OperatingSystemCommand(OperatingSystemCommandView),
    CSI(CSI),
    Esc,
    Sixel,
    XtGetTcap,
    KittyImage,
}

impl View for Action {
    type V = ActionView;

    open spec fn view(&self) -> ActionView {
        match *self {
            Action::Print(c) => ActionView::Print(c),
            Action::PrintString(text) => ActionView::PrintString(text@),
            Action::Control(code) => ActionView::Control(code),
            Action::DeviceControl => ActionView::DeviceControl,
            Action::OperatingSystemCommand(command) => ActionView::OperatingSystemCommand(command@),
            Action::CSI(csi) => ActionView::CSI(csi),
            Action::Esc => ActionView::Esc,
            Action::Sixel => ActionView::Sixel,
            Action::XtGetTcap => ActionView::XtGetTcap,
            Action::KittyImage => ActionView::KittyImage,
        }
    }
}

/// What each of a run of actions says.
pub open spec fn action_views(actions: Seq<Action>) -> Seq<ActionView> {
    actions.map_values(|a: Action| a@)
}

} // verus!
