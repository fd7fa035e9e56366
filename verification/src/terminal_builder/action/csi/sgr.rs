//! Select graphic rendition: the pen.

use vstd::prelude::*;
use crate::cell::CellAttributes;
use crate::escape::Sgr;
use crate::grid::AttributeChange;
use crate::screen::{Screen, ScreenView};

verus! {

/// The screen after a rendition instruction.  A reset makes the pen the
/// default pen whatever it was; intensity, underline, inverse, italic,
/// strike-through, invisible, foreground and background each set that one
/// attribute; the others do nothing.
pub open spec fn sgr_effect(v: ScreenView, sgr: Sgr) -> ScreenView {
    match sgr {
        Sgr::Reset => v.with_pen(CellAttributes::blank_spec()),
        Sgr::Intensity(i) => v.with_attribute(AttributeChange::Intensity(i)),
        Sgr::Underline(u) => v.with_attribute(AttributeChange::Underline(u)),
        Sgr::Inverse(on) => v.with_attribute(AttributeChange::Reverse(on)),
        Sgr::Foreground(c) => v.with_attribute(AttributeChange::Foreground(c.attribute())),
        Sgr::Background(c) => v.with_attribute(AttributeChange::Background(c.attribute())),
        Sgr::Italic(on) => v.with_attribute(AttributeChange::Italic(on)),
        Sgr::StrikeThrough(on) => v.with_attribute(AttributeChange::StrikeThrough(on)),
        Sgr::Invisible(on) => v.with_attribute(AttributeChange::Invisible(on)),
        Sgr::UnderlineColor(_) | Sgr::Blink(_) | Sgr::Font | Sgr::Overline(_)
        | Sgr::VerticalAlign => v,
    }
}

/// A reset makes the pen the default pen, whatever the pen was, and changes
/// nothing else.
pub proof fn lemma_reset_restores_default_pen(v: ScreenView)
    ensures
        sgr_effect(v, Sgr::Reset).grid.pen == CellAttributes::blank_spec(),
        sgr_effect(v, Sgr::Reset) == v.with_pen(CellAttributes::blank_spec()),
{
}

/// Obeys a rendition instruction.
pub fn process_sgr(screen: &mut Screen, sgr: &Sgr)
    requires
        old(screen).wf(),
    ensures
        final(screen)@ == sgr_effect(old(screen)@, *sgr),
        *sgr is Reset ==> final(screen)@.grid.pen == CellAttributes::blank_spec(),
        final(screen).wf(),
        final(screen)@.same_size(old(screen)@),
{
    match sgr {
        Sgr::Reset => screen.reset_attributes(),
        Sgr::Intensity(i) => screen.set_attribute(AttributeChange::Intensity(*i)),
        Sgr::Underline(u) => screen.set_attribute(AttributeChange::Underline(*u)),
        Sgr::Inverse(on) => screen.set_attribute(AttributeChange::Reverse(*on)),
        Sgr::Foreground(c) => screen.set_attribute(AttributeChange::Foreground(c.to_attribute())),
        Sgr::Background(c) => screen.set_attribute(AttributeChange::Background(c.to_attribute())),
        Sgr::Italic(on) => screen.set_attribute(AttributeChange::Italic(*on)),
        Sgr::StrikeThrough(on) => screen.set_attribute(AttributeChange::StrikeThrough(*on)),
        Sgr::Invisible(on) => screen.set_attribute(AttributeChange::Invisible(*on)),
        Sgr::UnderlineColor(_) | Sgr::Blink(_) | Sgr::Font | Sgr::Overline(_)
        | Sgr::VerticalAlign => {},
    }
}

} // verus!
