//! The kinds of image a record can be enriched with.

use vstd::prelude::*;

verus! {

/// The two kinds of image a record can be enriched with.
#[derive(Clone, Copy, Debug, PartialEq, Eq, Structural)]
pub enum Kind {
    Logo,
    Hero,
}

impl Kind {
    /// The path segment of the catalog's endpoint for this kind.
    pub open spec fn spec_segment(self) -> Seq<char> {
        match self {
            Kind::Logo => "logos"@,
            Kind::Hero => "heroes"@,
        }
    }

    /// The path segment of the catalog's endpoint for this kind.
    pub fn segment(self) -> (s: &'static str)
        ensures
            s@ == self.spec_segment(),
    {
        match self {
            Kind::Logo => "logos",
            Kind::Hero => "heroes",
        }
    }
}

} // verus!
