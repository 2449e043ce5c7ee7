use vstd::prelude::*;

verus! {

/// A half-open range `lo..hi` of byte positions in the source text.
/// Composite AST nodes carry spans that contain the spans of their children.
#[derive(Clone, Copy, PartialEq, Eq, Structural, Debug)]
pub struct Span {
    pub lo: u32,
    pub hi: u32,
}

impl Span {
    /// `self` encloses `other`.
    pub open spec fn spec_contains(self, other: Span) -> bool {
        self.lo <= other.lo && other.hi <= self.hi
    }

    pub fn new(lo: u32, hi: u32) -> (r: Span)
        ensures
            r == (Span { lo, hi }),
    {
        Span { lo, hi }
    }
}

} // verus!
