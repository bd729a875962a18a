use crate::foreign::{ForeignHandle, RefLedger};
use vstd::prelude::*;

verus! {

/// A reusable OpenGL-compatible image buffer vended by a buffer pool. A
/// vended buffer comes back under the create rule, matching the pool's own
/// pattern: the creation call leaves it at one reference, which the wrapper
/// owns and gives up on drop.
pub struct CVOpenGLBuffer {
    handle: ForeignHandle,
}

impl CVOpenGLBuffer {
    /// The raw address of the wrapped buffer object.
    pub closed spec fn id(self) -> u64 {
        self.handle.id()
    }

    /// A wrapped buffer reference is never null.
    pub open spec fn wf(self) -> bool {
        self.id() != 0
    }

    /// Create rule: adopt a buffer a create-style call returned already
    /// retained; the ledger is untouched.
    pub fn wrap_under_create_rule(id: u64, ledger: &RefLedger) -> (r: CVOpenGLBuffer)
        requires
            id != 0,
            ledger.live(id),
        ensures
            r.id() == id,
            r.wf(),
    {
        CVOpenGLBuffer { handle: ForeignHandle::wrap_under_create_rule(id, ledger) }
    }

    /// Get rule: wrap a borrowed buffer reference, retaining it at once.
    pub fn wrap_under_get_rule(id: u64, ledger: &mut RefLedger) -> (r: CVOpenGLBuffer)
        requires
            id != 0,
            old(ledger).live(id),
            old(ledger).count(id) < u64::MAX,
        ensures
            r.id() == id,
            r.wf(),
            final(ledger).count(id) == old(ledger).count(id) + 1,
            final(ledger).unchanged_except(*old(ledger), id),
    {
        CVOpenGLBuffer { handle: ForeignHandle::wrap_under_get_rule(id, ledger) }
    }

    /// One more owning reference to the same buffer.
    pub fn retain_clone(&self, ledger: &mut RefLedger) -> (r: CVOpenGLBuffer)
        requires
            self.wf(),
            old(ledger).live(self.id()),
            old(ledger).count(self.id()) < u64::MAX,
        ensures
            r.id() == self.id(),
            r.wf(),
            final(ledger).count(self.id()) == old(ledger).count(self.id()) + 1,
            final(ledger).unchanged_except(*old(ledger), self.id()),
    {
        CVOpenGLBuffer { handle: self.handle.retain_clone(ledger) }
    }

    /// Drop of the wrapper: releases its one owned reference.
    pub fn release(self, ledger: &mut RefLedger)
        requires
            old(ledger).live(self.id()),
        ensures
            final(ledger).count(self.id()) == old(ledger).count(self.id()) - 1,
            final(ledger).unchanged_except(*old(ledger), self.id()),
    {
        self.handle.release(ledger);
    }

    /// The raw address, for handing back into foreign calls.
    pub fn as_raw(&self) -> (r: u64)
        ensures
            r == self.id(),
    {
        self.handle.as_raw()
    }
}

} // verus!
