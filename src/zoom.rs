//! The visible window of an envelope editor's time axis, as fractions of the
//! whole axis (scaled by `UNIT`), and how dragging its handles moves it.

use vstd::prelude::*;
use std::ops::RangeInclusive;
use crate::UNIT;
use crate::extensions::RangeExt;

verus! {

/// The narrowest window the handles can make: a tenth of the axis.
pub const SMALLEST_RANGE: u32 = 100_000;

/// What a drag on the zoomer currently moves.
#[derive(Clone, Copy, Debug, PartialEq, Eq, Structural)]
pub enum ZoomerEvent {
    SetStart,
    SetEnd,
    SetBoth,
    FinishSet,
}

/// A window no narrower than `SMALLEST_RANGE`, inside the axis.
pub open spec fn window_valid(start: int, end: int) -> bool {
    0 <= start && start + SMALLEST_RANGE <= end <= UNIT as int
}

pub open spec fn clamp(x: int, lo: int, hi: int) -> int {
    if x < lo {
        lo
    } else if x > hi {
        hi
    } else {
        x
    }
}

/// The window after the pointer moves to `x` while `status` is being set:
/// the start follows the pointer up to the narrowest window, and so does the
/// end; otherwise the window stays.
pub open spec fn dragged(status: ZoomerEvent, start: int, end: int, x: int) -> (int, int) {
    match status {
        ZoomerEvent::SetStart => (clamp(x, 0, end - SMALLEST_RANGE), end),
        ZoomerEvent::SetEnd => (start, clamp(x, start + SMALLEST_RANGE, UNIT as int)),
        _ => (start, end),
    }
}

/// Moves the window for a pointer at `x`.
pub fn drag_window(status: ZoomerEvent, window: &RangeInclusive<u32>, x: u32) -> (r: RangeInclusive<u32>)
    requires
        window_valid(window@.start as int, window@.end as int),
    ensures
        (r@.start as int, r@.end as int) == dragged(
            status,
            window@.start as int,
            window@.end as int,
            x as int,
        ),
        window_valid(r@.start as int, r@.end as int),
{
    let start = *window.start();
    let end = *window.end();
    match status {
        ZoomerEvent::SetStart => {
            let hi = end - SMALLEST_RANGE;
            let s = if x > hi {
                hi
            } else {
                x
            };
            RangeInclusive::new(s, end)
        },
        ZoomerEvent::SetEnd => {
            let lo = start + SMALLEST_RANGE;
            let e = if x < lo {
                lo
            } else if x > UNIT {
                UNIT
            } else {
                x
            };
            RangeInclusive::new(start, e)
        },
        _ => RangeInclusive::new(start, end),
    }
}

/// The share of the axis that the window shows.
pub fn window_width(window: &RangeInclusive<u32>) -> (r: u32)
    requires
        window_valid(window@.start as int, window@.end as int),
    ensures
        r == window@.end - window@.start,
        SMALLEST_RANGE <= r <= UNIT,
{
    window.width()
}

} // verus!
