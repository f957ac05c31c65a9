//! The chain's protocol-rule identifiers.

use vstd::prelude::*;

verus! {

/// The chain's hardfork schedule. A later entry enables every rule of the
/// earlier ones.
#[derive(Clone, Copy, Debug, PartialEq, Eq, Structural, Default)]
pub enum ZkSpecId {
    #[default]
    Atlas,
}

impl ZkSpecId {
    /// The position of the fork in the schedule.
    pub open spec fn ordinal(self) -> int {
        match self {
            ZkSpecId::Atlas => 0,
        }
    }

    /// Whether the rules of `other` are active under `self`.
    pub fn is_enabled_in(self, other: ZkSpecId) -> (r: bool)
        ensures
            r == (other.ordinal() <= self.ordinal()),
    {
        let s: u8 = match self {
            ZkSpecId::Atlas => 0,
        };
        let o: u8 = match other {
            ZkSpecId::Atlas => 0,
        };
        o <= s
    }
}

} // verus!
