use std::collections::HashMap;
use vstd::prelude::*;

verus! {

broadcast use vstd::std_specs::hash::group_hash_axioms;

/// Ledger of foreign reference counts, one entry per opaque foreign object.
///
/// The foreign runtime keeps a retain count for every object it vends. This
/// ledger is the model of that counter: registering an object records the
/// count its producing call left it with, a retain adds one, a release takes
/// one away. Every handle operation states its effect against this ledger, so
/// leaks (a retain never released) and premature frees (a release of a dead
/// object) are verification errors rather than runtime corruption.
pub struct RefLedger {
    counts: HashMap<u64, u64>,
}

impl RefLedger {
    /// Whether `id` names an object the runtime has produced.
    pub closed spec fn registered(self, id: u64) -> bool {
        self.counts@.contains_key(id)
    }

    /// The reference count the runtime holds for object `id`; zero for an
    /// id that was never registered.
    pub closed spec fn count(self, id: u64) -> nat {
        if self.counts@.contains_key(id) {
            self.counts@[id] as nat
        } else {
            0
        }
    }

    /// An object is live while at least one reference to it remains.
    pub open spec fn live(self, id: u64) -> bool {
        self.count(id) >= 1
    }

    /// Every id other than `id` keeps its registration and its count.
    pub open spec fn unchanged_except(self, pre: RefLedger, id: u64) -> bool {
        forall|j: u64|
            j != id ==> #[trigger] self.count(j) == pre.count(j) && self.registered(j)
                == pre.registered(j)
    }

    /// A ledger with no objects.
    pub fn new() -> (r: RefLedger)
        ensures
            forall|id: u64| !(#[trigger] r.registered(id)) && r.count(id) == 0,
    {
        RefLedger { counts: HashMap::new() }
    }

    /// Models the runtime allocating a fresh object whose producing call
    /// left it at reference count `initial` (one, for a create-style call).
    pub fn register(&mut self, id: u64, initial: u64)
        requires
            !old(self).registered(id),
            id != 0,
        ensures
            final(self).registered(id),
            final(self).count(id) == initial,
            final(self).unchanged_except(*old(self), id),
    {
        self.counts.insert(id, initial);
    }

    /// Models the foreign retain call: one more owned reference to `id`.
    pub fn retain(&mut self, id: u64)
        requires
            old(self).live(id),
            old(self).count(id) < u64::MAX,
        ensures
            final(self).registered(id),
            final(self).count(id) == old(self).count(id) + 1,
            final(self).unchanged_except(*old(self), id),
    {
        let c: u64 = *self.counts.get(&id).unwrap();
        self.counts.insert(id, c + 1);
    }

    /// Models the foreign release call: one owned reference to `id` given
    /// up. When the count reaches zero the runtime destroys the object;
    /// the ledger keeps the id at count zero, so a second release of a
    /// dead object is a verification error.
    pub fn release_one(&mut self, id: u64)
        requires
            old(self).live(id),
        ensures
            final(self).registered(id),
            final(self).count(id) == old(self).count(id) - 1,
            final(self).unchanged_except(*old(self), id),
    {
        let c: u64 = *self.counts.get(&id).unwrap();
        self.counts.insert(id, c - 1);
    }

    /// The current count of `id`, zero for an unregistered id.
    pub fn count_of(&self, id: u64) -> (r: u64)
        ensures
            r == self.count(id),
    {
        match self.counts.get(&id) {
            Some(c) => *c,
            None => 0,
        }
    }
}

/// An owning reference to one opaque foreign object: its raw, non-null
/// object address. A handle stands for exactly one unit of the object's
/// reference count, whichever acquisition convention produced it; the
/// constructors below are the only ways to make that unit exist.
pub struct ForeignHandle {
    id: u64,
}

impl ForeignHandle {
    /// The raw address of the wrapped object.
    pub closed spec fn id(self) -> u64 {
        self.id
    }

    /// A handle never wraps a null address.
    pub open spec fn wf(self) -> bool {
        self.id() != 0
    }

    /// Create rule: adopt a reference that a create- or copy-style call
    /// returned already retained. The ledger is untouched — the one unit
    /// the call produced is the unit this handle now owns.
    pub fn wrap_under_create_rule(id: u64, ledger: &RefLedger) -> (r: ForeignHandle)
        requires
            id != 0,
            ledger.live(id),
        ensures
            r.id() == id,
            r.wf(),
    {
        ForeignHandle { id }
    }

    /// Get rule: wrap a reference that a get-style call returned borrowed,
    /// without passing ownership. A retain is issued at once, so the
    /// eventual drop releases exactly that retain. A null address from a
    /// get-style call is a foreign-contract violation and is excluded here,
    /// never handled at run time.
    pub fn wrap_under_get_rule(id: u64, ledger: &mut RefLedger) -> (r: ForeignHandle)
        requires
            id != 0,
            old(ledger).live(id),
            old(ledger).count(id) < u64::MAX,
        ensures
            r.id() == id,
            r.wf(),
            final(ledger).count(id) == old(ledger).count(id) + 1,
            final(ledger).unchanged_except(*old(ledger), id),
    {
        ledger.retain(id);
        ForeignHandle { id }
    }

    /// One more interchangeable owning reference to the same object; the
    /// foreign count rises by one.
    pub fn retain_clone(&self, ledger: &mut RefLedger) -> (r: ForeignHandle)
        requires
            self.wf(),
            old(ledger).live(self.id()),
            old(ledger).count(self.id()) < u64::MAX,
        ensures
            r.id() == self.id(),
            r.wf(),
            final(ledger).count(self.id()) == old(ledger).count(self.id()) + 1,
            final(ledger).unchanged_except(*old(ledger), self.id()),
    {
        ledger.retain(self.id);
        ForeignHandle { id: self.id }
    }

    /// Drop of a handle: gives up its one owned reference. The foreign
    /// release runs exactly once per handle, and consuming `self` makes a
    /// second release through the same handle impossible.
    pub fn release(self, ledger: &mut RefLedger)
        requires
            old(ledger).live(self.id()),
        ensures
            final(ledger).count(self.id()) == old(ledger).count(self.id()) - 1,
            final(ledger).unchanged_except(*old(ledger), self.id()),
    {
        ledger.release_one(self.id);
    }

    /// The raw address, for handing back into foreign calls.
    pub fn as_raw(&self) -> (r: u64)
        ensures
            r == self.id(),
    {
        self.id
    }
}

/// Type-id check that validates a downcast: a generic foreign object may
/// be downcast to a concrete wrapper family exactly when the type id the
/// runtime reports for the object equals the family's registered type id.
pub fn downcast_allowed(reported_type_id: u64, family_type_id: u64) -> (r: bool)
    ensures
        r == (reported_type_id == family_type_id),
{
    reported_type_id == family_type_id
}

/// Ownership count invariant: making `n` clones of a live handle and then
/// dropping all of them leaves every foreign reference count — the cloned
/// object's included — exactly where it began. Clones are interchangeable;
/// no one of them is privileged as the owner.
pub fn clones_then_drops_net_zero(h: &ForeignHandle, n: usize, ledger: &mut RefLedger)
    requires
        h.wf(),
        old(ledger).live(h.id()),
        old(ledger).count(h.id()) + n <= u64::MAX,
    ensures
        forall|j: u64| #[trigger]
            final(ledger).count(j) == old(ledger).count(j) && final(ledger).registered(j) == old(
                ledger,
            ).registered(j),
{
    let ghost pre = *ledger;
    let mut clones: Vec<ForeignHandle> = Vec::new();
    let mut i: usize = 0;
    while i < n
        invariant
            i <= n,
            clones.len() == i,
            h.wf(),
            pre.live(h.id()),
            pre.count(h.id()) + n <= u64::MAX,
            ledger.count(h.id()) == pre.count(h.id()) + i,
            ledger.registered(h.id()) == pre.registered(h.id()),
            ledger.unchanged_except(pre, h.id()),
            forall|k: int| 0 <= k < i ==> (#[trigger] clones@[k]).id() == h.id(),
        decreases n - i,
    {
        let c = h.retain_clone(ledger);
        clones.push(c);
        i = i + 1;
    }
    while clones.len() > 0
        invariant
            h.wf(),
            pre.live(h.id()),
            ledger.count(h.id()) == pre.count(h.id()) + clones.len(),
            ledger.registered(h.id()) == pre.registered(h.id()),
            ledger.unchanged_except(pre, h.id()),
            forall|k: int| 0 <= k < clones.len() ==> (#[trigger] clones@[k]).id() == h.id(),
        decreases clones.len(),
    {
        let c = clones.pop().unwrap();
        c.release(ledger);
    }
    proof {
        assert(ledger.count(h.id()) == pre.count(h.id()));
        assert forall|j: u64|
            ledger.count(j) == pre.count(j) && ledger.registered(j) == pre.registered(j) by {
            if j != h.id() {
                assert(ledger.count(j) == pre.count(j));
            }
        }
    }
}

} // verus!
