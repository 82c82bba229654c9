//! Why an exit could not be handled.

use vstd::prelude::*;

verus! {

/// Why an exit could not be handled.
#[derive(Debug, PartialEq, Eq)]
pub enum Error {
    /// The hypervisor refused an access to the virtual CPU, with this code.
    Hypervisor(u32),
    /// Nothing is implemented for what the guest did: the basic exit reason,
    /// and what the guest did in words.
    Unhandled(u64, String),
}

} // verus!
