//! Axis-aligned rectangles and the overlap test between two of them.

use vstd::prelude::*;

verus! {

/// A rectangle given by its centre and its full extent along each axis.
#[derive(Clone, Copy, Debug, PartialEq, Eq)]
pub struct Rect {
    pub x: i64,
    pub y: i64,
    pub width: u64,
    pub height: u64,
}

/// Distance between two coordinates on one axis.
pub open spec fn distance(a: int, b: int) -> int {
    if a >= b {
        a - b
    } else {
        b - a
    }
}

impl Rect {
    /// Twice the coordinate of the left edge.
    pub open spec fn left2(self) -> int {
        2 * self.x - self.width
    }

    /// Twice the coordinate of the right edge.
    pub open spec fn right2(self) -> int {
        2 * self.x + self.width
    }

    /// Twice the coordinate of the bottom edge.
    pub open spec fn bottom2(self) -> int {
        2 * self.y - self.height
    }

    /// Twice the coordinate of the top edge.
    pub open spec fn top2(self) -> int {
        2 * self.y + self.height
    }

    /// Two rectangles overlap when, on both axes, their centres are closer
    /// than the sum of their half extents. Rectangles that merely touch do
    /// not overlap. Both sides are doubled so that no half is ever taken.
    pub open spec fn overlaps_spec(self, other: Rect) -> bool {
        &&& 2 * distance(self.x as int, other.x as int) < self.width + other.width
        &&& 2 * distance(self.y as int, other.y as int) < self.height + other.height
    }

    /// The overlap test; it rejects on the first axis that separates the two.
    #[verifier::when_used_as_spec(overlaps_spec)]
    pub fn overlaps(self, other: Rect) -> (hit: bool)
        ensures
            hit == self.overlaps_spec(other),
    {
        let gap_x: i128 = if self.x >= other.x {
            self.x as i128 - other.x as i128
        } else {
            other.x as i128 - self.x as i128
        };
        if 2 * gap_x >= self.width as i128 + other.width as i128 {
            return false;
        }
        let gap_y: i128 = if self.y >= other.y {
            self.y as i128 - other.y as i128
        } else {
            other.y as i128 - self.y as i128
        };
        2 * gap_y < self.height as i128 + other.height as i128
    }
}

/// The overlap test is the test on the edges: each rectangle begins before
/// the other ends, from left to right and from bottom to top. It does not
/// depend on which of the two is asked.
pub proof fn lemma_overlap_is_edge_test(a: Rect, b: Rect)
    ensures
        a.overlaps(b) <==> a.left2() < b.right2() && b.left2() < a.right2() && a.bottom2()
            < b.top2() && b.bottom2() < a.top2(),
        a.overlaps(b) == b.overlaps(a),
{
}

} // verus!
