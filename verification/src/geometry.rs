use vstd::prelude::*;

verus! {

/// Extent of a rectangle along one axis: `hi - lo`, clamped to zero when the
/// corners are inverted, so a degenerate rectangle has an empty extent rather
/// than a negative one.
pub open spec fn spec_extent(lo: int, hi: int) -> int {
    if hi >= lo { hi - lo } else { 0 }
}

/// The rectangle that four reported corner coordinates describe, with both
/// extents clamped to zero when the corners are inverted.
pub open spec fn rect_of(left: i32, top: i32, right: i32, bottom: i32) -> Rect {
    Rect {
        left,
        top,
        right,
        bottom,
        width: spec_extent(left as int, right as int) as u32,
        height: spec_extent(top as int, bottom as int) as u32,
    }
}

/// A window rectangle in screen coordinates, with the two extents
/// precomputed from its corners.
#[derive(Clone, Copy, PartialEq, Eq, Structural, Debug)]
pub struct Rect {
    pub left: i32,
    pub top: i32,
    pub right: i32,
    pub bottom: i32,
    pub width: u32,
    pub height: u32,
}

impl Rect {
    /// The stored extents agree with the corners.
    pub open spec fn wf(self) -> bool {
        &&& self.width == spec_extent(self.left as int, self.right as int)
        &&& self.height == spec_extent(self.top as int, self.bottom as int)
    }

    /// Builds a rectangle from the four corner coordinates reported by the
    /// windowing system, computing the clamped extents.
    pub fn from_corners(left: i32, top: i32, right: i32, bottom: i32) -> (r: Rect)
        ensures
            r == rect_of(left, top, right, bottom),
            r.wf(),
    {
        let width: u32 = extent(left, right);
        let height: u32 = extent(top, bottom);
        Rect { left, top, right, bottom, width, height }
    }
}

/// Computes the clamped extent between two coordinates without overflow.
fn extent(lo: i32, hi: i32) -> (r: u32)
    ensures
        r == spec_extent(lo as int, hi as int),
{
    if hi >= lo {
        let wide: i64 = hi as i64 - lo as i64;
        assert(0 <= wide < 0x1_0000_0000i64);
        wide as u32
    } else {
        0
    }
}

} // verus!
