//! Identity of an OS thread's message mailbox.

use vstd::prelude::*;

verus! {

/// A thread's mailbox identifier: the integer the OS uses to address a
/// per-thread message queue.
#[derive(Debug, Copy, Clone, PartialEq, Eq, Structural)]
pub struct ThreadId(pub u32);

impl ThreadId {
    /// The raw integer identity.
    pub fn value(self) -> (r: u32)
        ensures
            r == self.0,
    {
        self.0
    }
}

} // verus!
