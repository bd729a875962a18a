use crate::attributes::AttributeDictionary;
use crate::cv_return::{CVReturn, KCV_RETURN_SUCCESS};
use crate::foreign::{ForeignHandle, RefLedger};
use crate::opengl_buffer::CVOpenGLBuffer;
use vstd::prelude::*;

verus! {

/// Configuration keys for an OpenGL buffer pool. Each variant names one
/// fixed foreign string constant, used only as a dictionary key in the
/// pool-attribute dictionary handed to the pool creation call.
#[derive(Clone, Copy, Debug, PartialEq, Eq, Structural)]
pub enum CVOpenGLBufferPoolKeys {
    MinimumBufferCount,
    MaximumBufferAge,
}

impl CVOpenGLBufferPoolKeys {
    /// The foreign string constant this key names.
    pub closed spec fn spec_key_string(self) -> Seq<char> {
        match self {
            CVOpenGLBufferPoolKeys::MinimumBufferCount => "kCVOpenGLBufferPoolMinimumBufferCountKey"@,
            CVOpenGLBufferPoolKeys::MaximumBufferAge => "kCVOpenGLBufferPoolMaximumBufferAgeKey"@,
        }
    }

    /// The key a foreign string constant stands for, if any.
    pub open spec fn spec_key_of_string(s: Seq<char>) -> Option<CVOpenGLBufferPoolKeys> {
        if s == CVOpenGLBufferPoolKeys::MinimumBufferCount.spec_key_string() {
            Some(CVOpenGLBufferPoolKeys::MinimumBufferCount)
        } else if s == CVOpenGLBufferPoolKeys::MaximumBufferAge.spec_key_string() {
            Some(CVOpenGLBufferPoolKeys::MaximumBufferAge)
        } else {
            None
        }
    }

    /// The foreign dictionary-key constant for this key.
    pub fn key_string(&self) -> (r: &'static str)
        ensures
            r@ == self.spec_key_string(),
    {
        match self {
            CVOpenGLBufferPoolKeys::MinimumBufferCount => "kCVOpenGLBufferPoolMinimumBufferCountKey",
            CVOpenGLBufferPoolKeys::MaximumBufferAge => "kCVOpenGLBufferPoolMaximumBufferAgeKey",
        }
    }

    /// Round-trip key mapping: every key maps to a non-empty constant, and
    /// that constant maps back to the key it came from.
    pub proof fn lemma_key_string_round_trip(k: CVOpenGLBufferPoolKeys)
        ensures
            Self::spec_key_of_string(k.spec_key_string()) == Some(k),
            k.spec_key_string().len() > 0,
    {
        reveal_strlit("kCVOpenGLBufferPoolMinimumBufferCountKey");
        reveal_strlit("kCVOpenGLBufferPoolMaximumBufferAgeKey");
        assert(CVOpenGLBufferPoolKeys::MinimumBufferCount.spec_key_string().len() == 40);
        assert(CVOpenGLBufferPoolKeys::MaximumBufferAge.spec_key_string().len() == 38);
    }

    /// Distinct constants: two keys share a foreign string constant only
    /// when they are the same key.
    pub proof fn lemma_key_strings_distinct(k1: CVOpenGLBufferPoolKeys, k2: CVOpenGLBufferPoolKeys)
        requires
            k1.spec_key_string() == k2.spec_key_string(),
        ensures
            k1 == k2,
    {
        Self::lemma_key_string_round_trip(k1);
        Self::lemma_key_string_round_trip(k2);
    }
}

/// What a foreign create-style call came back with: its status code, and
/// the value its output slot holds afterwards. The foreign contract is that
/// on a non-success status the slot is untouched, so `out` is meaningful
/// only when `status` reports success.
#[derive(Clone, Copy, Debug, PartialEq, Eq, Structural)]
pub struct CreateReply {
    pub status: CVReturn,
    pub out: u64,
}

/// An owned handle to a pool of reusable OpenGL-compatible image buffers.
/// The pool is created explicitly, carries two optional attribute
/// dictionaries (pool-level and vended-buffer-level), vends buffers under
/// the create rule, and is destroyed when its last owning reference drops.
pub struct CVOpenGLBufferPool {
    handle: ForeignHandle,
}

impl CVOpenGLBufferPool {
    /// The raw address of the wrapped pool object.
    pub closed spec fn id(self) -> u64 {
        self.handle.id()
    }

    /// A wrapped pool reference is never null.
    pub open spec fn wf(self) -> bool {
        self.id() != 0
    }

    /// The raw arguments the pool creation call is given: each optional
    /// attribute dictionary becomes its object address, and an absent one
    /// becomes null (zero), which asks the platform for its defaults.
    pub fn creation_request(
        pool_attributes: Option<&AttributeDictionary>,
        opengl_buffer_attributes: Option<&AttributeDictionary>,
    ) -> (r: (u64, u64))
        ensures
            (match pool_attributes {
                Some(d) => r.0 == d.id(),
                None => r.0 == 0,
            }),
            (match opengl_buffer_attributes {
                Some(d) => r.1 == d.id(),
                None => r.1 == 0,
            }),
    {
        let pool_raw: u64 = match pool_attributes {
            Some(d) => d.as_raw(),
            None => 0,
        };
        let buffer_raw: u64 = match opengl_buffer_attributes {
            Some(d) => d.as_raw(),
            None => 0,
        };
        (pool_raw, buffer_raw)
    }

    /// Outcome of the pool creation call — the only fallible entry path of
    /// this binding besides buffer vending. On a success status the output
    /// slot holds a pool reference already at one retain, adopted here under
    /// the create rule. On any other status that status is the error, and
    /// nothing is wrapped: the foreign call leaves the slot untouched on
    /// failure, so there is no reference to adopt and none to leak. The
    /// ledger is only read, never changed.
    pub fn new(reply: CreateReply, ledger: &RefLedger) -> (r: Result<CVOpenGLBufferPool, CVReturn>)
        requires
            reply.status == KCV_RETURN_SUCCESS ==> reply.out != 0 && ledger.live(reply.out),
        ensures
            reply.status == KCV_RETURN_SUCCESS ==> (r matches Ok(p) && p.id() == reply.out
                && p.wf()),
            reply.status != KCV_RETURN_SUCCESS ==> r == Err::<CVOpenGLBufferPool, CVReturn>(
                reply.status,
            ),
    {
        if reply.status == KCV_RETURN_SUCCESS {
            Ok(CVOpenGLBufferPool::wrap_under_create_rule(reply.out, ledger))
        } else {
            Err(reply.status)
        }
    }

    /// Decision logic of the pool-attribute accessor. `raw` is what the
    /// foreign accessor returned: null means the pool has no attribute
    /// dictionary — a legitimate absence answered with `None`. A non-null
    /// address is a freshly retained dictionary and is adopted under the
    /// create rule — not the get rule: unlike the borrowed texture of the
    /// Metal binding, this accessor hands over ownership, so no further
    /// retain is issued and the ledger is only read.
    pub fn get_attributes(&self, raw: u64, ledger: &RefLedger) -> (r: Option<AttributeDictionary>)
        requires
            raw != 0 ==> ledger.live(raw),
        ensures
            raw == 0 ==> r is None,
            raw != 0 ==> (r matches Some(d) && d.id() == raw && d.wf()),
    {
        if raw == 0 {
            None
        } else {
            Some(AttributeDictionary::wrap_under_create_rule(raw, ledger))
        }
    }

    /// Decision logic of the vended-buffer-attribute accessor: the same
    /// contract as `get_attributes`, over the separate attribute namespace
    /// that describes the buffers the pool vends.
    pub fn get_opengl_buffer_attributes(&self, raw: u64, ledger: &RefLedger) -> (r: Option<
        AttributeDictionary,
    >)
        requires
            raw != 0 ==> ledger.live(raw),
        ensures
            raw == 0 ==> r is None,
            raw != 0 ==> (r matches Some(d) && d.id() == raw && d.wf()),
    {
        if raw == 0 {
            None
        } else {
            Some(AttributeDictionary::wrap_under_create_rule(raw, ledger))
        }
    }

    /// Outcome of vending one buffer from the pool: the same success and
    /// failure pattern as `new`. A success status means the output slot
    /// holds a buffer at one retain, adopted under the create rule; any
    /// other status is surfaced unchanged as the error, with nothing
    /// wrapped and the ledger only read.
    pub fn create_open_gl_buffer(&self, reply: CreateReply, ledger: &RefLedger) -> (r: Result<
        CVOpenGLBuffer,
        CVReturn,
    >)
        requires
            reply.status == KCV_RETURN_SUCCESS ==> reply.out != 0 && ledger.live(reply.out),
        ensures
            reply.status == KCV_RETURN_SUCCESS ==> (r matches Ok(b) && b.id() == reply.out
                && b.wf()),
            reply.status != KCV_RETURN_SUCCESS ==> r == Err::<CVOpenGLBuffer, CVReturn>(
                reply.status,
            ),
    {
        if reply.status == KCV_RETURN_SUCCESS {
            Ok(CVOpenGLBuffer::wrap_under_create_rule(reply.out, ledger))
        } else {
            Err(reply.status)
        }
    }

    /// Create rule: adopt a pool reference a create-style call returned
    /// already retained; the ledger is untouched.
    pub fn wrap_under_create_rule(id: u64, ledger: &RefLedger) -> (r: CVOpenGLBufferPool)
        requires
            id != 0,
            ledger.live(id),
        ensures
            r.id() == id,
            r.wf(),
    {
        CVOpenGLBufferPool { handle: ForeignHandle::wrap_under_create_rule(id, ledger) }
    }

    /// Get rule: wrap a borrowed pool reference, retaining it at once.
    pub fn wrap_under_get_rule(id: u64, ledger: &mut RefLedger) -> (r: CVOpenGLBufferPool)
        requires
            id != 0,
            old(ledger).live(id),
            old(ledger).count(id) < u64::MAX,
        ensures
            r.id() == id,
            r.wf(),
            final(ledger).count(id) == old(ledger).count(id) + 1,
            final(ledger).unchanged_except(*old(ledger), id),
    {
        CVOpenGLBufferPool { handle: ForeignHandle::wrap_under_get_rule(id, ledger) }
    }

    /// One more owning reference to the same pool; clones are
    /// interchangeable and none is privileged as the owner.
    pub fn retain_clone(&self, ledger: &mut RefLedger) -> (r: CVOpenGLBufferPool)
        requires
            self.wf(),
            old(ledger).live(self.id()),
            old(ledger).count(self.id()) < u64::MAX,
        ensures
            r.id() == self.id(),
            r.wf(),
            final(ledger).count(self.id()) == old(ledger).count(self.id()) + 1,
            final(ledger).unchanged_except(*old(ledger), self.id()),
    {
        CVOpenGLBufferPool { handle: self.handle.retain_clone(ledger) }
    }

    /// Drop of the wrapper: gives up its one owned reference; the foreign
    /// release runs exactly once for it. The pool object itself is
    /// destroyed only when the last owning reference anywhere is gone.
    pub fn release(self, ledger: &mut RefLedger)
        requires
            old(ledger).live(self.id()),
        ensures
            final(ledger).count(self.id()) == old(ledger).count(self.id()) - 1,
            final(ledger).unchanged_except(*old(ledger), self.id()),
    {
        self.handle.release(ledger);
    }

    /// The raw address, for handing back into foreign calls.
    pub fn as_raw(&self) -> (r: u64)
        ensures
            r == self.id(),
    {
        self.handle.as_raw()
    }
}

} // verus!
