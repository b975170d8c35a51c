//! Points on a chain's timeline.
use vstd::prelude::*;

verus! {

/// The revision number of every height of the execution chain.
pub const EXECUTION_REVISION_NUMBER: u64 = 0;

/// A height: a revision (fork) number and a height within that revision.
#[derive(Debug, Clone, Copy, PartialEq, Eq, Structural)]
pub struct Height {
    pub revision_number: u64,
    pub revision_height: u64,
}

/// A height as the light client contract stores it, in two 32-bit words.
#[derive(Debug, Clone, Copy, PartialEq, Eq, Structural)]
pub struct ClientHeight {
    pub revision_number: u32,
    pub revision_height: u32,
}

/// Conversion of a light client height to a height.
pub trait IntoUnionHeight: Sized {
    /// The height that `self` stands for.
    spec fn spec_union_height(self) -> Height;

    /// Converts `self` to a height.
    fn into_unionlabs_height(self) -> (r: Height)
        ensures
            r == self.spec_union_height(),
    ;
}

impl IntoUnionHeight for ClientHeight {
    open spec fn spec_union_height(self) -> Height {
        Height {
            revision_number: self.revision_number as u64,
            revision_height: self.revision_height as u64,
        }
    }

    fn into_unionlabs_height(self) -> (r: Height) {
        Height {
            revision_number: self.revision_number as u64,
            revision_height: self.revision_height as u64,
        }
    }
}

} // verus!
