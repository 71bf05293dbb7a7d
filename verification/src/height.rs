use vstd::prelude::*;

verus! {

/// A point in a chain's history: a revision (hard-fork epoch) together with a
/// height inside that revision. Heights are totally ordered lexicographically,
/// revision number first.
#[derive(Clone, Copy, Debug, PartialEq, Eq, Structural)]
pub struct Height {
    pub revision_number: u64,
    pub revision_height: u64,
}

/// Strict lexicographic order on heights: revision number first, then
/// revision height.
pub open spec fn height_lt(a: Height, b: Height) -> bool {
    a.revision_number < b.revision_number
        || (a.revision_number == b.revision_number && a.revision_height < b.revision_height)
}

pub open spec fn height_le(a: Height, b: Height) -> bool {
    height_lt(a, b) || a == b
}

impl Height {
    pub fn new(revision_number: u64, revision_height: u64) -> (r: Height)
        ensures
            r.revision_number == revision_number,
            r.revision_height == revision_height,
    {
        Height { revision_number, revision_height }
    }

    pub fn lt(&self, other: &Height) -> (r: bool)
        ensures
            r == height_lt(*self, *other),
    {
        self.revision_number < other.revision_number
            || (self.revision_number == other.revision_number
                && self.revision_height < other.revision_height)
    }

    pub fn le(&self, other: &Height) -> (r: bool)
        ensures
            r == height_le(*self, *other),
    {
        self.lt(other)
            || (self.revision_number == other.revision_number
                && self.revision_height == other.revision_height)
    }
}

pub proof fn lemma_height_lt_transitive(a: Height, b: Height, c: Height)
    requires
        height_lt(a, b),
        height_lt(b, c),
    ensures
        height_lt(a, c),
{
}

pub proof fn lemma_height_le_lt_transitive(a: Height, b: Height, c: Height)
    requires
        height_le(a, b),
        height_lt(b, c),
    ensures
        height_lt(a, c),
{
}

pub proof fn lemma_height_lt_asymmetric(a: Height, b: Height)
    requires
        height_lt(a, b),
    ensures
        !height_lt(b, a),
        a != b,
{
}

} // verus!
