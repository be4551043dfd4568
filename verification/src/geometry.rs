//! Sides of a rectangle as a set of flags, and the orientation of a
//! rectangle.

use vstd::prelude::*;

verus! {

/// Whether a rectangle is at least as wide as it is tall.
#[derive(Debug, Clone, Copy, PartialEq, Eq, Structural)]
pub enum Orientation {
    Landscape,
    Portrait,
}

/// A set of rectangle sides, one bit per side.
#[derive(Debug, Clone, Copy, PartialEq, Eq, Structural)]
pub struct Edge(u8);

impl Edge {
    /// No side.
    pub fn none() -> (edge: Edge)
        ensures
            edge.bits() == 0,
    {
        Edge(0)
    }

    /// The left side.
    pub fn left() -> (edge: Edge)
        ensures
            edge.bits() == 1,
    {
        Edge(1)
    }

    /// The right side.
    pub fn right() -> (edge: Edge)
        ensures
            edge.bits() == 2,
    {
        Edge(2)
    }

    /// The top side.
    pub fn top() -> (edge: Edge)
        ensures
            edge.bits() == 4,
    {
        Edge(4)
    }

    /// The bottom side.
    pub fn bottom() -> (edge: Edge)
        ensures
            edge.bits() == 8,
    {
        Edge(8)
    }

    /// The bits of the set.
    pub closed spec fn bits(self) -> u8 {
        self.0
    }

    /// Whether every side of `other` is in `self`.
    pub open spec fn spec_contains(self, other: Edge) -> bool {
        self.bits() & other.bits() == other.bits()
    }

    /// Returns whether every side of `other` is in `self`.
    pub fn contains(self, other: Edge) -> (contained: bool)
        ensures
            contained == self.spec_contains(other),
    {
        self.0 & other.0 == other.0
    }

    /// Returns the sides of both sets.
    pub fn union(self, other: Edge) -> (both: Edge)
        ensures
            both.bits() == self.bits() | other.bits(),
    {
        Edge(self.0 | other.0)
    }
}

/// A union holds both of its operands, every set holds itself and the empty
/// set, and holding is transitive.
pub proof fn lemma_edge_laws(a: Edge, b: Edge, c: Edge)
    ensures
        ({
            let both = a.bits() | b.bits();
            both & a.bits() == a.bits() && both & b.bits() == b.bits()
        }),
        a.spec_contains(a),
        a.bits() & 0u8 == 0u8,
        a.spec_contains(b) && b.spec_contains(c) ==> a.spec_contains(c),
{
    let (x, y, z) = (a.bits(), b.bits(), c.bits());
    assert((x | y) & x == x && (x | y) & y == y) by (bit_vector);
    assert(x & x == x) by (bit_vector);
    assert(x & 0u8 == 0u8) by (bit_vector);
    assert((x & y == y && y & z == z) ==> x & z == z) by (bit_vector);
}

/// Opposite sides do not hold each other.
pub proof fn lemma_opposite_sides_are_distinct(left: Edge, right: Edge, top: Edge, bottom: Edge)
    requires
        left.bits() == 1,
        right.bits() == 2,
        top.bits() == 4,
        bottom.bits() == 8,
    ensures
        !left.spec_contains(right),
        !right.spec_contains(left),
        !top.spec_contains(bottom),
        !bottom.spec_contains(top),
{
    assert(1u8 & 2u8 != 2u8) by (bit_vector);
    assert(2u8 & 1u8 != 1u8) by (bit_vector);
    assert(4u8 & 8u8 != 8u8) by (bit_vector);
    assert(8u8 & 4u8 != 4u8) by (bit_vector);
}

} // verus!
