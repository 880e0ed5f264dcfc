//! Mapping field regions from preview space to native pixel space.
//!
//! The preview shown while editing is the native template scaled down by a
//! fixed ratio. Rendering goes the other way: each region's corners are
//! normalized, then the top-left point and the width are multiplied by the
//! ratio, once per batch. The ratio is an exact fraction, so a preview
//! ratio such as five halves loses nothing.

use vstd::math::abs;
use vstd::prelude::*;

use crate::geom::TextRect;

verus! {

/// The fixed preview-to-native ratio, as the exact fraction `num / den`.
#[derive(Clone, Copy, PartialEq, Eq, Structural, Debug)]
pub struct Scale {
    pub num: u32,
    pub den: u32,
}

impl Scale {
    /// A ratio needs a nonzero denominator.
    pub open spec fn wf(self) -> bool {
        self.den >= 1
    }

    /// A length scaled by `num / den`, rounded down to a whole pixel.
    pub open spec fn spec_apply_int(self, v: int) -> int {
        (v * self.num) / (self.den as int)
    }

    /// `spec_apply_int` on a preview coordinate, as a native pixel count.
    pub open spec fn spec_apply(self, v: u32) -> u64 {
        self.spec_apply_int(v as int) as u64
    }

    /// Scales one preview length to native pixels.
    pub fn apply(&self, v: u32) -> (r: u64)
        requires
            self.wf(),
        ensures
            r == self.spec_apply(v),
    {
        let a = v as u64;
        let b = self.num as u64;
        proof {
            assert(a * b <= 0xffff_ffff * 0xffff_ffff) by (nonlinear_arith)
                requires
                    a <= 0xffff_ffff,
                    b <= 0xffff_ffff,
            ;
        }
        (a * b) / (self.den as u64)
    }
}

/// One field's draw target in native pixel space: the normalized top-left
/// point and the width of the text box. Computed once per batch and shared
/// read-only by every job.
#[derive(Clone, Copy, PartialEq, Eq, Structural, Debug)]
pub struct ScaledRegion {
    pub x: u64,
    pub y: u64,
    pub width: u64,
}

impl ScaledRegion {
    /// A zero-sized region at the origin comes from an unset field region
    /// and means "omit this field", not "draw a point".
    pub open spec fn is_skip(self) -> bool {
        self.x == 0 && self.y == 0 && self.width == 0
    }

    /// Executable form of [`Self::is_skip`].
    pub fn skip(&self) -> (r: bool)
        ensures
            r == self.is_skip(),
    {
        self.x == 0 && self.y == 0 && self.width == 0
    }
}

/// The draw target of one region: corners normalized, top-left point and
/// width scaled.
pub open spec fn spec_scale_rect(s: Scale, r: TextRect) -> ScaledRegion {
    let n = r.spec_normalized();
    ScaledRegion {
        x: s.spec_apply(n.p1.x),
        y: s.spec_apply(n.p1.y),
        width: s.spec_apply((n.p2.x - n.p1.x) as u32),
    }
}

/// Scales one region to its native draw target.
pub fn scale_rect(s: &Scale, r: &TextRect) -> (sr: ScaledRegion)
    requires
        s.wf(),
    ensures
        sr == spec_scale_rect(*s, *r),
{
    let n = r.min();
    let w: u32 = n.p2.x - n.p1.x;
    ScaledRegion { x: s.apply(n.p1.x), y: s.apply(n.p1.y), width: s.apply(w) }
}

/// Scales an ordered region list; the result has the same cardinality and
/// order as the input.
pub fn scale_regions(s: &Scale, rects: &Vec<TextRect>) -> (out: Vec<ScaledRegion>)
    requires
        s.wf(),
    ensures
        out@.len() == rects@.len(),
        forall|i: int| 0 <= i < rects@.len() ==> out@[i] == spec_scale_rect(*s, rects@[i]),
{
    let mut out: Vec<ScaledRegion> = Vec::new();
    let n = rects.len();
    let mut i: usize = 0;
    while i < n
        invariant
            n == rects@.len(),
            i <= n,
            out@.len() == i,
            s.wf(),
            forall|j: int| 0 <= j < i ==> out@[j] == spec_scale_rect(*s, rects@[j]),
        decreases n - i,
    {
        out.push(scale_rect(s, &rects[i]));
        i = i + 1;
    }
    out
}

/// The scaled width is the scaled absolute difference of the corners'
/// x coordinates, and the whole draw target is the same regardless of
/// which corner was set first.
pub proof fn lemma_scale_order_independent(s: Scale, r: TextRect)
    requires
        s.wf(),
    ensures
        spec_scale_rect(s, r).width == s.spec_apply_int(abs(r.p1.x - r.p2.x) as int) as u64,
        spec_scale_rect(s, TextRect { p1: r.p2, p2: r.p1 }) == spec_scale_rect(s, r),
{
    crate::geom::lemma_normalize_order_independent(r);
}

/// An unset region — both corners at the origin — scales to the zero-sized
/// draw target that the renderer omits.
pub proof fn lemma_unset_scales_to_skip(s: Scale, r: TextRect)
    requires
        s.wf(),
        r.is_unset(),
    ensures
        spec_scale_rect(s, r).is_skip(),
{
    assert(r.spec_normalized().p1.x == 0);
    assert(spec_scale_rect(s, r).x == ((0 * s.num) / (s.den as int)) as u64);
}

} // verus!
