//! The platform's authorization capability, made explicit.
//!
//! On the ledger platform, a call aborts outright unless the invoking
//! transaction was authorized by the demanded principal; that demand is an
//! ambient capability there.  Here it is an injected value: an
//! [`Authorizer`] carries the set of principals that authorized the current
//! call, every privileged operation states `allows(...)` in its `requires`,
//! and callers check with [`Authorizer::verify`] before calling.  A call
//! that would have aborted on the platform is thereby ruled out up front,
//! and the demand is visible in each operation's contract.

use vstd::prelude::*;

use crate::common::Address;

verus! {

/// The set of principals that authorized the current call.
pub struct Authorizer {
    granted: Vec<Address>,
}

impl Authorizer {
    /// Which principals this capability vouches for.
    pub closed spec fn allows(self, id: Address) -> bool {
        self.granted@.contains(id)
    }

    /// An authorizer that vouches for nobody.
    pub fn none() -> (a: Authorizer)
        ensures
            forall|id: Address| !a.allows(id),
    {
        Authorizer { granted: Vec::new() }
    }

    /// An authorizer that vouches exactly for the given principals.
    pub fn granting(ids: Vec<Address>) -> (a: Authorizer)
        ensures
            forall|id: Address| a.allows(id) == ids@.contains(id),
    {
        Authorizer { granted: ids }
    }

    /// Whether `id` authorized the current call.
    pub fn verify(&self, id: Address) -> (r: bool)
        ensures
            r == self.allows(id),
    {
        let mut i: usize = 0;
        while i < self.granted.len()
            invariant
                0 <= i <= self.granted.len(),
                forall|j: int| 0 <= j < i ==> self.granted@[j] != id,
            decreases self.granted.len() - i,
        {
            if self.granted[i] == id {
                return true;
            }
            i = i + 1;
        }
        false
    }
}

} // verus!
