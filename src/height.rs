use vstd::prelude::*;

verus! {

/// A point in a chain's history: a revision number and a height within it.
#[derive(Debug, Clone, Copy, PartialEq, Eq, Structural)]
pub struct Height {
    pub revision_number: u64,
    pub revision_height: u64,
}

/// Lexicographic order on (revision number, revision height).
pub open spec fn height_lt(a: Height, b: Height) -> bool {
    a.revision_number < b.revision_number || (a.revision_number == b.revision_number
        && a.revision_height < b.revision_height)
}

pub open spec fn height_le(a: Height, b: Height) -> bool {
    height_lt(a, b) || a == b
}

impl Height {
    /// A valid height has a non-zero height within its revision.
    pub open spec fn valid(self) -> bool {
        self.revision_height > 0
    }

    /// Builds a height; the height within the revision must not be zero.
    pub fn new(revision_number: u64, revision_height: u64) -> (r: Option<Height>)
        ensures
            revision_height == 0 <==> r.is_none(),
            r matches Some(h) ==> h.revision_number == revision_number && h.revision_height
                == revision_height && h.valid(),
    {
        if revision_height == 0 {
            None
        } else {
            Some(Height { revision_number, revision_height })
        }
    }

    pub fn revision_number(&self) -> (r: u64)
        ensures
            r == self.revision_number,
    {
        self.revision_number
    }

    pub fn revision_height(&self) -> (r: u64)
        ensures
            r == self.revision_height,
    {
        self.revision_height
    }

    /// Whether `self` comes strictly before `other`.
    pub fn lt(&self, other: &Height) -> (r: bool)
        ensures
            r == height_lt(*self, *other),
    {
        self.revision_number < other.revision_number || (self.revision_number
            == other.revision_number && self.revision_height < other.revision_height)
    }

    /// Whether `self` comes at or before `other`.
    pub fn le(&self, other: &Height) -> (r: bool)
        ensures
            r == height_le(*self, *other),
    {
        self.lt(other) || *self == *other
    }
}

/// The order on heights is transitive.
pub proof fn lemma_height_le_trans(a: Height, b: Height, c: Height)
    requires
        height_le(a, b),
        height_le(b, c),
    ensures
        height_le(a, c),
{
}

} // verus!
