//! The edge test on the three scaled barycentric coordinates.

use vstd::prelude::*;
use crate::single::Single;

verus! {

/// The scaled barycentric coordinates of the point where the ray meets the
/// triangle's plane: `u` belongs to the first vertex, `v` to the second and `w`
/// to the third. They are scaled by a common factor, the determinant, so only
/// their signs and ratios carry meaning.
#[derive(Clone, Copy, Debug)]
pub struct Coordinates {
    pub u: Single,
    pub v: Single,
    pub w: Single,
}

/// `a` and `b` lie on opposite sides of zero, or both are neither negative nor
/// positive. Holds of a value and its negation, and of any two zeros.
pub open spec fn opposes(a: Single, b: Single) -> bool {
    &&& a.is_negative() == b.is_positive()
    &&& a.is_positive() == b.is_negative()
}

impl Coordinates {
    /// Some coordinate compares less than zero.
    pub open spec fn any_negative(self) -> bool {
        self.u.is_negative() || self.v.is_negative() || self.w.is_negative()
    }

    /// Some coordinate compares greater than zero.
    pub open spec fn any_positive(self) -> bool {
        self.u.is_positive() || self.v.is_positive() || self.w.is_positive()
    }

    /// Some coordinate is smaller in absolute value than the machine epsilon,
    /// so that its sign may be an artefact of cancellation.
    pub open spec fn any_tiny(self) -> bool {
        self.u.is_tiny() || self.v.is_tiny() || self.w.is_tiny()
    }

    /// No coordinate is negative: the point lies in the triangle, seen from its
    /// front.
    pub open spec fn front(self) -> bool {
        !self.any_negative()
    }

    /// The coordinates do not disagree in sign: the point lies in the triangle,
    /// seen from either side.
    pub open spec fn uniform(self) -> bool {
        !(self.any_negative() && self.any_positive())
    }

    /// What the edge test lets pass: front hits alone where back faces are
    /// culled, hits from either side where they are not.
    pub open spec fn accepted(self, cull_backfaces: bool) -> bool {
        if cull_backfaces {
            self.front()
        } else {
            self.uniform()
        }
    }

    /// Each coordinate with its sign inverted.
    pub open spec fn negated(self) -> Coordinates {
        Coordinates { u: self.u.negated(), v: self.v.negated(), w: self.w.negated() }
    }

    /// The coordinates with those of the second and third vertex exchanged.
    pub open spec fn exchanged(self) -> Coordinates {
        Coordinates { u: self.u, v: self.w, w: self.v }
    }

    /// `other` describes the same point for the triangle with the opposite
    /// winding, that is with its second and third vertex exchanged: each
    /// coordinate lies opposite the one of the same vertex.
    pub open spec fn mirrors(self, other: Coordinates) -> bool {
        &&& opposes(self.u, other.u)
        &&& opposes(self.v, other.w)
        &&& opposes(self.w, other.v)
    }

    /// The coordinates of three bit patterns.
    pub fn from_bits(u: u32, v: u32, w: u32) -> (c: Coordinates)
        ensures
            c.u.bits == u,
            c.v.bits == v,
            c.w.bits == w,
    {
        Coordinates { u: Single { bits: u }, v: Single { bits: v }, w: Single { bits: w } }
    }

    /// Whether the coordinates have to be computed again in double precision
    /// before their signs are trusted.
    pub fn needs_refinement(&self) -> (r: bool)
        ensures
            r == self.any_tiny(),
    {
        self.u.abs_lt_epsilon() || self.v.abs_lt_epsilon() || self.w.abs_lt_epsilon()
    }

    /// The edge test.
    pub fn passes(&self, cull_backfaces: bool) -> (r: bool)
        ensures
            r == self.accepted(cull_backfaces),
    {
        let negative: bool = self.u.lt_zero() || self.v.lt_zero() || self.w.lt_zero();
        if cull_backfaces {
            !negative
        } else {
            let positive: bool = self.u.gt_zero() || self.v.gt_zero() || self.w.gt_zero();
            !(negative && positive)
        }
    }

    /// Inverts the sign of each coordinate.
    pub fn negate(self) -> (r: Coordinates)
        ensures
            r == self.negated(),
    {
        Coordinates { u: self.u.negate(), v: self.v.negate(), w: self.w.negate() }
    }
}

/// Exchanging the second and third vertex of a triangle inverts the sign of
/// each coordinate and exchanges the coordinates of the two vertices. The
/// result mirrors the coordinates it was made from.
pub proof fn lemma_reversed_mirrors(c: Coordinates)
    ensures
        c.mirrors(c.negated().exchanged()),
        c.negated().exchanged().negated().exchanged() == c,
{
}

/// Without culling a triangle and the same triangle with the opposite winding
/// fare alike in the edge test.
pub proof fn lemma_winding_unculled(c: Coordinates, d: Coordinates)
    requires
        c.mirrors(d),
    ensures
        c.accepted(false) == d.accepted(false),
{
}

/// With culling, a point that passes the edge test without culling passes it
/// for exactly one of the two windings, unless no coordinate is negative or
/// positive: then the point lies on all three edge lines, and both pass.
pub proof fn lemma_winding_culled(c: Coordinates, d: Coordinates)
    requires
        c.mirrors(d),
        c.accepted(false),
    ensures
        c.any_negative() || c.any_positive() ==> c.accepted(true) != d.accepted(true),
        !c.any_negative() && !c.any_positive() ==> c.accepted(true) && d.accepted(true),
{
}

/// A ray aimed at an edge or a vertex is not turned away for it. Where a
/// coordinate is zero, of either sign, the coordinates count as too small to
/// be trusted and are computed again; and the edge test goes by the other
/// coordinates alone: with none of them negative the point passes under both
/// policies, with none of them positive it passes where back faces are kept.
pub proof fn lemma_boundary_passes(c: Coordinates)
    requires
        c.u.is_zero() || c.v.is_zero() || c.w.is_zero(),
    ensures
        c.any_tiny(),
        !c.any_negative() ==> c.accepted(true) && c.accepted(false),
        !c.any_positive() ==> c.accepted(false),
{
}

} // verus!
