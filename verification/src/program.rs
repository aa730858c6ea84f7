//! The identity under which the program is deployed.

use vstd::prelude::*;
use crate::identity::Identity;

verus! {

/// The deployed program. Its identity is fixed when the process starts and
/// never changes afterwards; nothing in the library is tied to one
/// particular value of it.
#[derive(Clone, Copy, Debug, PartialEq, Eq)]
pub struct Program {
    pub identity: Identity,
}

impl Program {
    /// The program deployed as `identity`.
    pub fn new(identity: Identity) -> (program: Program)
        ensures
            program.identity == identity,
    {
        Program { identity }
    }

    /// The identity under which the program is deployed.
    pub fn identity(&self) -> (identity: Identity)
        ensures
            identity == self.identity,
    {
        self.identity
    }

    /// Whether an invocation addressed to `target` is meant for this
    /// program. The runtime delivers no other; what an invocation does is
    /// decided without looking at the identity again.
    pub fn is_addressed_by(&self, target: &Identity) -> (addressed: bool)
        ensures
            addressed == (target@ == self.identity@),
    {
        self.identity.same_as(target)
    }
}

} // verus!
