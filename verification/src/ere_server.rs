//! The zkVM server of the first Docker driver.
use vstd::prelude::*;

verus! {

/// Serves one zkVM to clients by forwarding their requests to it.
pub struct zkVMServer<T> {
    zkvm: T,
}

impl<T> zkVMServer<T> {
    /// The zkVM served.
    pub closed spec fn spec_zkvm(&self) -> T {
        self.zkvm
    }

    /// A server of `zkvm`.
    pub fn new(zkvm: T) -> (r: Self)
        ensures
            r.spec_zkvm() == zkvm,
    {
        zkVMServer { zkvm }
    }

    /// The zkVM served.
    pub fn zkvm(&self) -> (r: &T)
        ensures
            *r == self.spec_zkvm(),
    {
        &self.zkvm
    }
}

} // verus!
