//! The answers a terminal sends back to the program that asks.

use vstd::prelude::*;
use termwiz::escape::osc::ColorOrQuery as Query;
use termwiz::escape::osc::DynamicColorNumber as Outside;
use termwiz::escape::OperatingSystemCommand as Command;
use crate::escape::DynamicColorNumber;

verus! {

/// The decimal digits of `n`, as ASCII bytes.
pub open spec fn decimal(n: nat) -> Seq<u8>
    decreases n,
{
    if n < 10 {
        seq![(48 + n) as u8]
    } else {
        decimal(n / 10).push((48 + n % 10) as u8)
    }
}

/// The cursor position report for line `line` and column `col`, both counted
/// from 1: `ESC [ line ; col R`.
pub open spec fn position_report(line: u32, col: u32) -> Seq<u8> {
    seq![0x1bu8, 0x5bu8] + decimal(line as nat) + seq![0x3bu8] + decimal(col as nat) + seq![0x52u8]
}

/// The answer to the question what dynamic colour `number` is.  The terminal
/// keeps no such colour, so it echoes the question: `ESC ] number ; ? ESC \`.
pub open spec fn color_query_report(number: DynamicColorNumber) -> Seq<u8> {
    seq![0x1bu8, 0x5du8] + decimal(number.code() as nat) + seq![0x3bu8, 0x3fu8, 0x1bu8, 0x5cu8]
}

/// The `Display` form of `termwiz`'s `CSI::Cursor(Cursor::ActivePositionReport)`:
/// the bytes of `position_report`.
#[verifier::external_body]
pub(crate) fn encode_position_report(line: u32, col: u32) -> (r: Vec<u8>)
    requires
        line >= 1,
        col >= 1,
    ensures
        r@ == position_report(line, col),
{
    let report = termwiz::escape::csi::Cursor::ActivePositionReport {
        line: termwiz::escape::OneBased::new(line),
        col: termwiz::escape::OneBased::new(col),
    };
    format!("{}", termwiz::escape::CSI::Cursor(report)).into_bytes()
}

/// The `Display` form of `termwiz`'s `OperatingSystemCommand::ChangeDynamicColors`
/// with one query: the bytes of `color_query_report`.
#[verifier::external_body]
pub(crate) fn encode_color_query(number: DynamicColorNumber) -> (r: Vec<u8>)
    ensures
        r@ == color_query_report(number),
{
    let number = match number {
        DynamicColorNumber::TextForegroundColor => Outside::TextForegroundColor,
        DynamicColorNumber::TextBackgroundColor => Outside::TextBackgroundColor,
        DynamicColorNumber::TextCursorColor => Outside::TextCursorColor,
        DynamicColorNumber::MouseForegroundColor => Outside::MouseForegroundColor,
        DynamicColorNumber::MouseBackgroundColor => Outside::MouseBackgroundColor,
        DynamicColorNumber::TektronixForegroundColor => Outside::TektronixForegroundColor,
        DynamicColorNumber::TektronixBackgroundColor => Outside::TektronixBackgroundColor,
        DynamicColorNumber::HighlightBackgroundColor => Outside::HighlightBackgroundColor,
        DynamicColorNumber::TektronixCursorColor => Outside::TektronixCursorColor,
        DynamicColorNumber::HighlightForegroundColor => Outside::HighlightForegroundColor,
    };
    format!("{}", Command::ChangeDynamicColors(number, vec![Query::Query])).into_bytes()
}

} // verus!
