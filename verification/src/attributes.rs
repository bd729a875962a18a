use crate::foreign::{ForeignHandle, RefLedger};
use vstd::prelude::*;

verus! {

/// An attribute dictionary: an opaque, string-keyed foreign value map.
/// Callers pass one by reference into creation calls to configure a pool or
/// a texture; accessors that hand one back do so under the create rule — a
/// freshly retained dictionary the receiver owns outright, never a borrowed
/// view.
pub struct AttributeDictionary {
    handle: ForeignHandle,
}

impl AttributeDictionary {
    /// The raw address of the wrapped dictionary object.
    pub closed spec fn id(self) -> u64 {
        self.handle.id()
    }

    /// A wrapped dictionary reference is never null.
    pub open spec fn wf(self) -> bool {
        self.id() != 0
    }

    /// Create rule: adopt a dictionary a create- or copy-style call
    /// returned already retained; the ledger is untouched.
    pub fn wrap_under_create_rule(id: u64, ledger: &RefLedger) -> (r: AttributeDictionary)
        requires
            id != 0,
            ledger.live(id),
        ensures
            r.id() == id,
            r.wf(),
    {
        AttributeDictionary { handle: ForeignHandle::wrap_under_create_rule(id, ledger) }
    }

    /// Get rule: wrap a borrowed dictionary, retaining it at once.
    pub fn wrap_under_get_rule(id: u64, ledger: &mut RefLedger) -> (r: AttributeDictionary)
        requires
            id != 0,
            old(ledger).live(id),
            old(ledger).count(id) < u64::MAX,
        ensures
            r.id() == id,
            r.wf(),
            final(ledger).count(id) == old(ledger).count(id) + 1,
            final(ledger).unchanged_except(*old(ledger), id),
    {
        AttributeDictionary { handle: ForeignHandle::wrap_under_get_rule(id, ledger) }
    }

    /// One more owning reference to the same dictionary.
    pub fn retain_clone(&self, ledger: &mut RefLedger) -> (r: AttributeDictionary)
        requires
            self.wf(),
            old(ledger).live(self.id()),
            old(ledger).count(self.id()) < u64::MAX,
        ensures
            r.id() == self.id(),
            r.wf(),
            final(ledger).count(self.id()) == old(ledger).count(self.id()) + 1,
            final(ledger).unchanged_except(*old(ledger), self.id()),
    {
        AttributeDictionary { handle: self.handle.retain_clone(ledger) }
    }

    /// Drop of the wrapper: releases its one owned reference.
    pub fn release(self, ledger: &mut RefLedger)
        requires
            old(ledger).live(self.id()),
        ensures
            final(ledger).count(self.id()) == old(ledger).count(self.id()) - 1,
            final(ledger).unchanged_except(*old(ledger), self.id()),
    {
        self.handle.release(ledger);
    }

    /// The raw address, for handing into creation calls.
    pub fn as_raw(&self) -> (r: u64)
        ensures
            r == self.id(),
    {
        self.handle.as_raw()
    }
}

} // verus!
