//! Tab stops: one every eight columns.

use vstd::prelude::*;

verus! {

/// Distance between two tab stops, in columns.
pub const TAB_WIDTH: usize = 8;

/// The column `n` tab stops after `pos`: the `n`-th multiple of 8 that is
/// greater than `pos`.  No tab stop after `pos` is `pos` itself.
pub open spec fn tab_forward(pos: nat, n: nat) -> nat {
    if n == 0 {
        pos
    } else {
        (pos + 8 * n - pos % 8) as nat
    }
}

/// The column `n` tab stops before `pos`: the `n`-th multiple of 8 that is
/// less than `pos`, or 0 if there are not so many.  No tab stop before `pos`
/// is `pos` itself.
pub open spec fn tab_backward(pos: nat, n: nat) -> nat {
    if n == 0 {
        pos
    } else {
        let first = if pos % 8 == 0 {
            8
        } else {
            pos % 8
        };
        if pos >= first + 8 * (n - 1) {
            (pos - first - 8 * (n - 1)) as nat
        } else {
            0
        }
    }
}

/// The column `n` tab stops to the right of `pos`.
pub fn tabulate(pos: usize, n: usize) -> (r: usize)
    requires
        pos + TAB_WIDTH * n <= usize::MAX,
    ensures
        r == tab_forward(pos as nat, n as nat),
        n >= 1 ==> r % 8 == 0 && pos + 8 * (n - 1) < r <= pos + 8 * n,
{
    if n == 0 {
        pos
    } else {
        pos + (TAB_WIDTH * n - pos % TAB_WIDTH)
    }
}

/// The column `n` tab stops to the left of `pos`, or column 0 where there are
/// not so many.
pub fn tabulate_back(pos: usize, n: usize) -> (r: usize)
    requires
        TAB_WIDTH * n <= usize::MAX,
    ensures
        r == tab_backward(pos as nat, n as nat),
        n >= 1 ==> r % 8 == 0 && r <= pos && (r == 0 || pos - 8 * n <= r < pos - 8 * (n - 1)),
{
    if n == 0 {
        pos
    } else {
        let first: usize = if pos % TAB_WIDTH == 0 {
            TAB_WIDTH
        } else {
            pos % TAB_WIDTH
        };
        let back: usize = TAB_WIDTH * (n - 1);
        if pos >= first && pos - first >= back {
            pos - first - back
        } else {
            0
        }
    }
}

} // verus!
