//! The uniform mirror: a CPU-held value paired with a ghost image of
//! its GPU-resident copy.
//!
//! The GPU buffer itself lives outside this crate; `sync` records that
//! the mirror now holds the CPU value and hands that value out for the
//! shell to upload.  A uniform whose mirror equals its value is what a
//! submitted frame reads.

use vstd::prelude::*;

verus! {

/// A CPU value and the ghost state of its GPU mirror.
pub struct Uniform<U> {
    pub uniform: U,
    pub mirror: Ghost<U>,
}

impl<U: Copy> Uniform<U> {
    /// The value the GPU-resident copy holds.
    pub open spec fn mirror_spec(self) -> U {
        self.mirror@
    }

    /// The GPU copy is up to date.
    pub open spec fn synced(self) -> bool {
        self.mirror_spec() == self.uniform
    }

    /// A uniform whose mirror starts out holding the initial value,
    /// as the shell uploads it at creation.
    pub fn new(uniform: U) -> (u: Uniform<U>)
        ensures
            u.uniform == uniform,
            u.synced(),
    {
        Uniform { uniform, mirror: Ghost(uniform) }
    }

    /// Replaces the CPU value; the mirror keeps what it had.
    pub fn set(&mut self, value: U)
        ensures
            final(self).uniform == value,
            final(self).mirror_spec() == old(self).mirror_spec(),
    {
        self.uniform = value;
    }

    /// Marks the mirror written and returns the value for the shell to
    /// upload.  Writing an unchanged value is harmless: the operation
    /// is idempotent.
    pub fn sync(&mut self) -> (value: U)
        ensures
            final(self).uniform == old(self).uniform,
            final(self).synced(),
            value == old(self).uniform,
    {
        proof {
            self.mirror@ = self.uniform;
        }
        self.uniform
    }
}

} // verus!
