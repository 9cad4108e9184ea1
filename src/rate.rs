//! The configured failure weight of the shim, in parts per million.
use vstd::prelude::*;

verus! {

/// One whole, in the units of a [`FailureRate`].
pub const PARTS_PER_MILLION: u32 = 1_000_000;

/// A failure weight strictly between zero and one, held as a count of
/// millionths.
#[derive(Clone, Copy, Debug, PartialEq, Eq, Structural)]
pub struct FailureRate {
    parts: u32,
}

impl FailureRate {
    #[verifier::type_invariant]
    spec fn well_formed(self) -> bool {
        0 < self.parts < PARTS_PER_MILLION
    }

    /// The weight as a count of millionths.
    pub closed spec fn parts_spec(self) -> nat {
        self.parts as nat
    }

    /// The weight `parts / 1_000_000`, if it lies strictly between zero and
    /// one.
    pub fn per_million(parts: u32) -> (r: Option<FailureRate>)
        ensures
            r is Some <==> 0 < parts < PARTS_PER_MILLION,
            r is Some ==> r->0.parts_spec() == parts,
    {
        if 0 < parts && parts < PARTS_PER_MILLION {
            Some(FailureRate { parts })
        } else {
            None
        }
    }

    /// The weight as a count of millionths.
    pub fn parts(&self) -> (r: u32)
        ensures
            r == self.parts_spec(),
            0 < r < PARTS_PER_MILLION,
    {
        proof {
            use_type_invariant(self);
        }
        self.parts
    }
}

} // verus!
