//! Field regions in the editing-preview coordinate space.
//!
//! A region is a rectangle given by two corner points, positionally
//! associated with one column of the record set. The corners may be set in
//! any order; `TextRect::min` normalizes them so that `p1` is the top-left
//! and `p2` the bottom-right corner. A region whose corners both sit at the
//! origin is "unset": the field is skipped, not an error.

use vstd::prelude::*;

verus! {

/// A point in the preview coordinate space, in whole preview units.
#[derive(Clone, Copy, PartialEq, Eq, Structural, Debug)]
pub struct PreviewPoint {
    pub x: u32,
    pub y: u32,
}

impl PreviewPoint {
    /// Both coordinates zero.
    pub open spec fn is_origin(self) -> bool {
        self.x == 0 && self.y == 0
    }

    /// Componentwise minimum of two points.
    pub open spec fn spec_component_min(self, other: Self) -> Self {
        PreviewPoint {
            x: if self.x <= other.x {
                self.x
            } else {
                other.x
            },
            y: if self.y <= other.y {
                self.y
            } else {
                other.y
            },
        }
    }

    /// Componentwise maximum of two points.
    pub open spec fn spec_component_max(self, other: Self) -> Self {
        PreviewPoint {
            x: if self.x >= other.x {
                self.x
            } else {
                other.x
            },
            y: if self.y >= other.y {
                self.y
            } else {
                other.y
            },
        }
    }

    /// The origin of the preview space.
    pub fn origin() -> (p: Self)
        ensures
            p.is_origin(),
    {
        PreviewPoint { x: 0, y: 0 }
    }

    /// Componentwise minimum, executable.
    pub fn component_min(&self, other: &Self) -> (r: Self)
        ensures
            r == self.spec_component_min(*other),
    {
        PreviewPoint {
            x: if self.x <= other.x {
                self.x
            } else {
                other.x
            },
            y: if self.y <= other.y {
                self.y
            } else {
                other.y
            },
        }
    }

    /// Componentwise maximum, executable.
    pub fn component_max(&self, other: &Self) -> (r: Self)
        ensures
            r == self.spec_component_max(*other),
    {
        PreviewPoint {
            x: if self.x >= other.x {
                self.x
            } else {
                other.x
            },
            y: if self.y >= other.y {
                self.y
            } else {
                other.y
            },
        }
    }
}

impl Default for PreviewPoint {
    fn default() -> (p: Self)
        ensures
            p.is_origin(),
    {
        PreviewPoint { x: 0, y: 0 }
    }
}

/// The rectangle in which one field's text is drawn, as two corner points
/// in preview space. The corners carry no order: whichever corner was set
/// first may be either one.
#[derive(Clone, Copy, PartialEq, Eq, Structural, Debug)]
pub struct TextRect {
    pub p1: PreviewPoint,
    pub p2: PreviewPoint,
}

impl TextRect {
    /// Both corners at the origin: the field is not rendered.
    pub open spec fn is_unset(self) -> bool {
        self.p1.is_origin() && self.p2.is_origin()
    }

    /// The same rectangle with `p1` the top-left and `p2` the bottom-right
    /// corner.
    pub open spec fn spec_normalized(self) -> TextRect {
        TextRect {
            p1: self.p1.spec_component_min(self.p2),
            p2: self.p1.spec_component_max(self.p2),
        }
    }

    /// Normalizes the corner order: in the result `p1` is componentwise at
    /// most `p2`.
    pub fn min(&self) -> (r: Self)
        ensures
            r == self.spec_normalized(),
            r.p1.x <= r.p2.x,
            r.p1.y <= r.p2.y,
    {
        TextRect { p1: self.p1.component_min(&self.p2), p2: self.p1.component_max(&self.p2) }
    }
}

impl Default for TextRect {
    fn default() -> (r: Self)
        ensures
            r.is_unset(),
    {
        TextRect { p1: PreviewPoint { x: 0, y: 0 }, p2: PreviewPoint { x: 0, y: 0 } }
    }
}

/// Normalization does not depend on which corner was set first.
pub proof fn lemma_normalize_order_independent(r: TextRect)
    ensures
        (TextRect { p1: r.p2, p2: r.p1 }).spec_normalized() == r.spec_normalized(),
{
}

} // verus!
