use vstd::arithmetic::div_mod::{lemma_div_is_ordered, lemma_div_multiples_vanish};
use vstd::prelude::*;

verus! {

/// The size of a rectangular drawing region, in device units.
#[derive(Clone, Copy, Debug, PartialEq, Eq, Structural)]
pub struct Region {
    pub width: u32,
    pub height: u32,
}

/// A point of a drawing region; the origin is the top-left corner and `y` grows downwards.
#[derive(Clone, Copy, Debug, PartialEq, Eq, Structural)]
pub struct ChartPoint {
    pub x: u64,
    pub y: u64,
}

impl Region {
    pub fn new(width: u32, height: u32) -> (r: Self)
        ensures
            r.width == width,
            r.height == height,
    {
        Region { width, height }
    }
}

impl ChartPoint {
    pub fn new(x: u64, y: u64) -> (r: Self)
        ensures
            r.x == x,
            r.y == y,
    {
        ChartPoint { x, y }
    }
}

/// `i * w / d` stays within `[0, w]` when `i` does not exceed `d`.
pub proof fn lemma_scaled_bounded(i: int, d: int, w: int)
    requires
        0 <= i <= d,
        0 < d,
        0 <= w,
    ensures
        0 <= i * w / d <= w,
{
    assert(i * w <= d * w) by (nonlinear_arith)
        requires
            0 <= i <= d,
            0 <= w,
    ;
    assert(0 <= i * w) by (nonlinear_arith)
        requires
            0 <= i,
            0 <= w,
    ;
    lemma_div_is_ordered(i * w, d * w, d);
    lemma_div_is_ordered(0, i * w, d);
    lemma_div_multiples_vanish(w, d);
}

} // verus!
