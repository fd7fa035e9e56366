//! Operating system commands: the dynamic colours.

use vstd::prelude::*;
use crate::cell::ColorAttribute;
use crate::escape::{
    ColorOrQuery, DynamicColorNumber, OperatingSystemCommand, OperatingSystemCommandView,
};
use crate::grid::AttributeChange;
use crate::report::{color_query_report, encode_color_query};
use crate::screen::{Screen, ScreenView};

verus! {

/// The dynamic colour with number `number`, if there is one.
pub open spec fn dynamic_color(number: int) -> Option<DynamicColorNumber> {
    if number == 10 {
        Some(DynamicColorNumber::TextForegroundColor)
    } else if number == 11 {
        Some(DynamicColorNumber::TextBackgroundColor)
    } else if number == 12 {
        Some(DynamicColorNumber::TextCursorColor)
    } else if number == 13 {
        Some(DynamicColorNumber::MouseForegroundColor)
    } else if number == 14 {
        Some(DynamicColorNumber::MouseBackgroundColor)
    } else if number == 15 {
        Some(DynamicColorNumber::TektronixForegroundColor)
    } else if number == 16 {
        Some(DynamicColorNumber::TektronixBackgroundColor)
    } else if number == 17 {
        Some(DynamicColorNumber::HighlightBackgroundColor)
    } else if number == 18 {
        Some(DynamicColorNumber::TektronixCursorColor)
    } else if number == 19 {
        Some(DynamicColorNumber::HighlightForegroundColor)
    } else {
        None
    }
}

/// The screen after dynamic colour `target` was set or asked for.  Setting
/// the text foreground or background sets that colour of the pen; asking
/// changes nothing, and neither do the other colours.
pub open spec fn color_set(v: ScreenView, target: DynamicColorNumber, color: ColorOrQuery)
    -> ScreenView {
    match (target, color) {
        (DynamicColorNumber::TextForegroundColor, ColorOrQuery::Color(c)) => v.with_attribute(
            AttributeChange::Foreground(ColorAttribute::TrueColorWithDefaultFallback(c)),
        ),
        (DynamicColorNumber::TextBackgroundColor, ColorOrQuery::Color(c)) => v.with_attribute(
            AttributeChange::Background(ColorAttribute::TrueColorWithDefaultFallback(c)),
        ),
        _ => v,
    }
}

/// What is sent back when dynamic colour `target` is set or asked for: the
/// question itself when the text foreground or background is asked for,
/// nothing otherwise.
pub open spec fn color_answer(target: DynamicColorNumber, color: ColorOrQuery) -> Seq<u8> {
    match (target, color) {
        (DynamicColorNumber::TextForegroundColor, ColorOrQuery::Query) => color_query_report(
            target,
        ),
        (DynamicColorNumber::TextBackgroundColor, ColorOrQuery::Query) => color_query_report(
            target,
        ),
        _ => Seq::empty(),
    }
}

/// The screen after a list of dynamic colours was set or asked for, the
/// first of them for number `first`, each further one for the number after.
/// A number that names no dynamic colour is passed over.
pub open spec fn colors_changed(v: ScreenView, first: int, colors: Seq<ColorOrQuery>) -> ScreenView
    decreases colors.len(),
{
    if colors.len() == 0 {
        v
    } else {
        let next = match dynamic_color(first) {
            Some(target) => color_set(v, target, colors[0]),
            None => v,
        };
        colors_changed(next, first + 1, colors.drop_first())
    }
}

/// What is sent back for such a list: the answers, in order.
pub open spec fn colors_answered(first: int, colors: Seq<ColorOrQuery>) -> Seq<u8>
    decreases colors.len(),
{
    if colors.len() == 0 {
        Seq::empty()
    } else {
        let answer = match dynamic_color(first) {
            Some(target) => color_answer(target, colors[0]),
            None => Seq::empty(),
        };
        answer + colors_answered(first + 1, colors.drop_first())
    }
}

/// The screen after dynamic colour `target` was reset: the text foreground
/// and background of the pen go back to the default, the others change
/// nothing.
pub open spec fn color_reset(v: ScreenView, target: DynamicColorNumber) -> ScreenView {
    match target {
        DynamicColorNumber::TextForegroundColor => v.with_attribute(
            AttributeChange::Foreground(ColorAttribute::Default),
        ),
        DynamicColorNumber::TextBackgroundColor => v.with_attribute(
            AttributeChange::Background(ColorAttribute::Default),
        ),
        _ => v,
    }
}

/// The screen after the dynamic colours with the numbers `numbers` were
/// reset, in order.  A number that names no dynamic colour is passed over.
pub open spec fn colors_reset(v: ScreenView, numbers: Seq<u8>) -> ScreenView
    decreases numbers.len(),
{
    if numbers.len() == 0 {
        v
    } else {
        let next = match dynamic_color(numbers[0] as int) {
            Some(target) => color_reset(v, target),
            None => v,
        };
        colors_reset(next, numbers.drop_first())
    }
}

/// The screen after an operating system command.  Only those on dynamic
/// colours do anything.
pub open spec fn osc_effect(v: ScreenView, command: OperatingSystemCommandView) -> ScreenView {
    match command {
        OperatingSystemCommandView::ChangeDynamicColors(first, colors) => colors_changed(
            v,
            first.code() as int,
            colors,
        ),
        OperatingSystemCommandView::ResetDynamicColor(target) => color_reset(v, target),
        OperatingSystemCommandView::ResetColors(numbers) => colors_reset(v, numbers),
        _ => v,
    }
}

/// What is sent back for an operating system command.
pub open spec fn osc_reply(command: OperatingSystemCommandView) -> Seq<u8> {
    match command {
        OperatingSystemCommandView::ChangeDynamicColors(first, colors) => colors_answered(
            first.code() as int,
            colors,
        ),
        _ => Seq::empty(),
    }
}

/// A change of dynamic colours changes the pen and nothing else.
pub proof fn lemma_colors_changed_keeps_frame(v: ScreenView, first: int, colors: Seq<ColorOrQuery>)
    ensures
        colors_changed(v, first, colors).with_pen(v.grid.pen) == v,
    decreases colors.len(),
{
    if colors.len() > 0 {
        let next = match dynamic_color(first) {
            Some(target) => color_set(v, target, colors[0]),
            None => v,
        };
        lemma_colors_changed_keeps_frame(next, first + 1, colors.drop_first());
    }
}

/// A reset of dynamic colours changes the pen and nothing else.
pub proof fn lemma_colors_reset_keeps_frame(v: ScreenView, numbers: Seq<u8>)
    ensures
        colors_reset(v, numbers).with_pen(v.grid.pen) == v,
    decreases numbers.len(),
{
    if numbers.len() > 0 {
        let next = match dynamic_color(numbers[0] as int) {
            Some(target) => color_reset(v, target),
            None => v,
        };
        lemma_colors_reset_keeps_frame(next, numbers.drop_first());
    }
}

/// An operating system command changes the pen and nothing else.
pub proof fn lemma_osc_keeps_frame(v: ScreenView, command: OperatingSystemCommandView)
    ensures
        osc_effect(v, command).with_pen(v.grid.pen) == v,
{
    match command {
        OperatingSystemCommandView::ChangeDynamicColors(first, colors) => {
            lemma_colors_changed_keeps_frame(v, first.code() as int, colors);
        },
        OperatingSystemCommandView::ResetColors(numbers) => {
            lemma_colors_reset_keeps_frame(v, numbers);
        },
        _ => {},
    }
}

/// To reset a dynamic colour twice is to reset it once.
pub proof fn lemma_reset_twice_is_reset_once(v: ScreenView, target: DynamicColorNumber)
    ensures
        osc_effect(
            osc_effect(v, OperatingSystemCommandView::ResetDynamicColor(target)),
            OperatingSystemCommandView::ResetDynamicColor(target),
        ) == osc_effect(v, OperatingSystemCommandView::ResetDynamicColor(target)),
{
}

/// `from_u8` finds the colour that `dynamic_color` names.
proof fn lemma_dynamic_color_of_code(byte: u8, found: Option<DynamicColorNumber>)
    requires
        found is Some ==> found->0.code() == byte,
        found is None ==> forall|c: DynamicColorNumber| c.code() != byte,
    ensures
        found == dynamic_color(byte as int),
{
    match dynamic_color(byte as int) {
        Some(c) => {
            assert(c.code() == byte);
        },
        None => {},
    }
}

/// Obeys an operating system command and returns what is to be sent back.
pub fn process_operating_system_command(
    screen: &mut Screen,
    operating_system_command: &OperatingSystemCommand,
) -> (reply: Vec<u8>)
    requires
        old(screen).wf(),
    ensures
        final(screen)@ == osc_effect(old(screen)@, operating_system_command@),
        reply@ == osc_reply(operating_system_command@),
        final(screen).wf(),
        final(screen)@.same_size(old(screen)@),
{
    match operating_system_command {
        OperatingSystemCommand::ChangeDynamicColors(first, colors) => {
            process_change_dynamic_colors(screen, *first, colors)
        },
        OperatingSystemCommand::ResetDynamicColor(target) => {
            process_reset_dynamic_color(screen, *target);
            Vec::new()
        },
        OperatingSystemCommand::ResetColors(numbers) => {
            let mut i: usize = 0;
            assert(numbers@.skip(0) =~= numbers@);
            while i < numbers.len()
                invariant
                    0 <= i <= numbers.len(),
                    screen.wf(),
                    screen@.same_size(old(screen)@),
                    colors_reset(old(screen)@, numbers@) == colors_reset(
                        screen@,
                        numbers@.skip(i as int),
                    ),
                decreases numbers.len() - i,
            {
                let byte: u8 = numbers[i];
                let found = DynamicColorNumber::from_u8(byte);
                proof {
                    lemma_dynamic_color_of_code(byte, found);
                    assert(numbers@.skip(i as int).drop_first() =~= numbers@.skip(i + 1));
                }
                match found {
                    Some(target) => process_reset_dynamic_color(screen, target),
                    None => {},
                }
                i = i + 1;
            }
            Vec::new()
        },
        _ => Vec::new(),
    }
}

/// Sets or asks for a run of dynamic colours that starts at `first_color`.
fn process_change_dynamic_colors(
    screen: &mut Screen,
    first_color: DynamicColorNumber,
    colors: &Vec<ColorOrQuery>,
) -> (reply: Vec<u8>)
    requires
        old(screen).wf(),
    ensures
        final(screen)@ == colors_changed(old(screen)@, first_color.code() as int, colors@),
        reply@ == colors_answered(first_color.code() as int, colors@),
        final(screen).wf(),
        final(screen)@.same_size(old(screen)@),
{
    let first: u8 = first_color.as_u8();
    let mut reply: Vec<u8> = Vec::new();
    let mut i: usize = 0;
    assert(colors@.skip(0) =~= colors@);
    assert(reply@ + colors_answered(first as int, colors@) =~= colors_answered(
        first as int,
        colors@,
    ));
    while i < colors.len()
        invariant
            0 <= i <= colors.len(),
            first == first_color.code(),
            screen.wf(),
            screen@.same_size(old(screen)@),
            colors_changed(old(screen)@, first as int, colors@) == colors_changed(
                screen@,
                first + i,
                colors@.skip(i as int),
            ),
            colors_answered(first as int, colors@) == reply@ + colors_answered(
                first + i,
                colors@.skip(i as int),
            ),
        decreases colors.len() - i,
    {
        let color: ColorOrQuery = colors[i];
        let found = if i <= 255 - (first as usize) {
            DynamicColorNumber::from_u8(first + (i as u8))
        } else {
            None
        };
        proof {
            if i <= 255 - first {
                lemma_dynamic_color_of_code((first + i) as u8, found);
            }
            assert(found == dynamic_color(first + i));
            assert(colors@.skip(i as int).drop_first() =~= colors@.skip(i + 1));
        }
        match found {
            Some(target) => {
                let mut answer = color_or_query(screen, target, color);
                assert(reply@ + (answer@ + colors_answered(first + i + 1, colors@.skip(i + 1)))
                    =~= (reply@ + answer@) + colors_answered(first + i + 1, colors@.skip(i + 1)));
                reply.append(&mut answer);
            },
            None => {
                assert(reply@ + (Seq::<u8>::empty() + colors_answered(
                    first + i + 1,
                    colors@.skip(i + 1),
                )) =~= reply@ + colors_answered(first + i + 1, colors@.skip(i + 1)));
            },
        }
        i = i + 1;
    }
    reply
}

/// Resets one dynamic colour.
fn process_reset_dynamic_color(screen: &mut Screen, dynamic_color_number: DynamicColorNumber)
    requires
        old(screen).wf(),
    ensures
        final(screen)@ == color_reset(old(screen)@, dynamic_color_number),
        final(screen).wf(),
        final(screen)@.same_size(old(screen)@),
{
    match dynamic_color_number {
        DynamicColorNumber::TextForegroundColor => screen.set_attribute(
            AttributeChange::Foreground(ColorAttribute::Default),
        ),
        DynamicColorNumber::TextBackgroundColor => screen.set_attribute(
            AttributeChange::Background(ColorAttribute::Default),
        ),
        _ => {},
    }
}

/// Sets one dynamic colour or answers the question for it.
fn color_or_query(screen: &mut Screen, target: DynamicColorNumber, color: ColorOrQuery) -> (reply:
    Vec<u8>)
    requires
        old(screen).wf(),
    ensures
        final(screen)@ == color_set(old(screen)@, target, color),
        reply@ == color_answer(target, color),
        final(screen).wf(),
        final(screen)@.same_size(old(screen)@),
{
    match target {
        DynamicColorNumber::TextForegroundColor => match color {
            ColorOrQuery::Color(c) => {
                screen.set_attribute(
                    AttributeChange::Foreground(ColorAttribute::TrueColorWithDefaultFallback(c)),
                );
                Vec::new()
            },
            ColorOrQuery::Query => encode_color_query(target),
        },
        DynamicColorNumber::TextBackgroundColor => match color {
            ColorOrQuery::Color(c) => {
                screen.set_attribute(
                    AttributeChange::Background(ColorAttribute::TrueColorWithDefaultFallback(c)),
                );
                Vec::new()
            },
            ColorOrQuery::Query => encode_color_query(target),
        },
        _ => Vec::new(),
    }
}

} // verus!
