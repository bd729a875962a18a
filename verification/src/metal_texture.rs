use crate::foreign::{ForeignHandle, RefLedger};
use vstd::prelude::*;

verus! {

/// Configuration keys for Metal texture wrapping. Each variant names one
/// fixed foreign string constant, used only as a dictionary key when
/// building the attribute dictionary handed to a texture-cache creation
/// call.
#[derive(Clone, Copy, Debug, PartialEq, Eq, Structural)]
pub enum CVMetalTextureKeys {
    Usage,
    StorageMode,
}

impl CVMetalTextureKeys {
    /// The foreign string constant this key names.
    pub closed spec fn spec_key_string(self) -> Seq<char> {
        match self {
            CVMetalTextureKeys::Usage => "kCVMetalTextureUsage"@,
            CVMetalTextureKeys::StorageMode => "kCVMetalTextureStorageMode"@,
        }
    }

    /// The key a foreign string constant stands for, if any.
    pub open spec fn spec_key_of_string(s: Seq<char>) -> Option<CVMetalTextureKeys> {
        if s == CVMetalTextureKeys::Usage.spec_key_string() {
            Some(CVMetalTextureKeys::Usage)
        } else if s == CVMetalTextureKeys::StorageMode.spec_key_string() {
            Some(CVMetalTextureKeys::StorageMode)
        } else {
            None
        }
    }

    /// The foreign dictionary-key constant for this key.
    pub fn key_string(&self) -> (r: &'static str)
        ensures
            r@ == self.spec_key_string(),
    {
        match self {
            CVMetalTextureKeys::Usage => "kCVMetalTextureUsage",
            CVMetalTextureKeys::StorageMode => "kCVMetalTextureStorageMode",
        }
    }

    /// Round-trip key mapping: every key maps to a non-empty constant, and
    /// that constant maps back to the key it came from.
    pub proof fn lemma_key_string_round_trip(k: CVMetalTextureKeys)
        ensures
            Self::spec_key_of_string(k.spec_key_string()) == Some(k),
            k.spec_key_string().len() > 0,
    {
        reveal_strlit("kCVMetalTextureUsage");
        reveal_strlit("kCVMetalTextureStorageMode");
        assert(CVMetalTextureKeys::Usage.spec_key_string().len() == 20);
        assert(CVMetalTextureKeys::StorageMode.spec_key_string().len() == 26);
    }

    /// Distinct constants: two keys share a foreign string constant only
    /// when they are the same key.
    pub proof fn lemma_key_strings_distinct(k1: CVMetalTextureKeys, k2: CVMetalTextureKeys)
        requires
            k1.spec_key_string() == k2.spec_key_string(),
        ensures
            k1 == k2,
    {
        Self::lemma_key_string_round_trip(k1);
        Self::lemma_key_string_round_trip(k2);
    }
}

/// The platform graphics texture backing a CoreVideo Metal texture. The
/// graphics layer owns this object independently; wrapping or dropping a
/// value of this type never touches the CoreVideo reference ledger.
pub struct GpuTexture {
    id: u64,
}

impl GpuTexture {
    /// The raw address of the graphics-layer texture object.
    pub closed spec fn id(self) -> u64 {
        self.id
    }

    /// A wrapped texture is never null.
    pub open spec fn wf(self) -> bool {
        self.id() != 0
    }

    /// The raw address, for handing to the graphics layer.
    pub fn as_raw(&self) -> (r: u64)
        ensures
            r == self.id(),
    {
        self.id
    }
}

/// A read-only handle to a CoreVideo Metal texture: an image buffer that
/// exposes a Metal texture, a flip flag and the clean texture-coordinate
/// rectangle. Such a texture is only ever produced by an external texture
/// cache; this binding wraps an already-obtained reference and reads it.
/// Dropping the wrapper releases this binding's one reference, which need
/// not destroy the underlying object.
pub struct CVMetalTexture {
    handle: ForeignHandle,
}

impl CVMetalTexture {
    /// The raw address of the wrapped texture object.
    pub closed spec fn id(self) -> u64 {
        self.handle.id()
    }

    /// A wrapped texture reference is never null.
    pub open spec fn wf(self) -> bool {
        self.id() != 0
    }

    /// Create rule: adopt a reference a create-style call returned already
    /// retained; the ledger is untouched.
    pub fn wrap_under_create_rule(id: u64, ledger: &RefLedger) -> (r: CVMetalTexture)
        requires
            id != 0,
            ledger.live(id),
        ensures
            r.id() == id,
            r.wf(),
    {
        CVMetalTexture { handle: ForeignHandle::wrap_under_create_rule(id, ledger) }
    }

    /// Get rule: wrap a borrowed reference, retaining it at once.
    pub fn wrap_under_get_rule(id: u64, ledger: &mut RefLedger) -> (r: CVMetalTexture)
        requires
            id != 0,
            old(ledger).live(id),
            old(ledger).count(id) < u64::MAX,
        ensures
            r.id() == id,
            r.wf(),
            final(ledger).count(id) == old(ledger).count(id) + 1,
            final(ledger).unchanged_except(*old(ledger), id),
    {
        CVMetalTexture { handle: ForeignHandle::wrap_under_get_rule(id, ledger) }
    }

    /// One more owning reference to the same texture.
    pub fn retain_clone(&self, ledger: &mut RefLedger) -> (r: CVMetalTexture)
        requires
            self.wf(),
            old(ledger).live(self.id()),
            old(ledger).count(self.id()) < u64::MAX,
        ensures
            r.id() == self.id(),
            r.wf(),
            final(ledger).count(self.id()) == old(ledger).count(self.id()) + 1,
            final(ledger).unchanged_except(*old(ledger), self.id()),
    {
        CVMetalTexture { handle: self.handle.retain_clone(ledger) }
    }

    /// Drop of the wrapper: releases this binding's one reference.
    pub fn release(self, ledger: &mut RefLedger)
        requires
            old(ledger).live(self.id()),
        ensures
            final(ledger).count(self.id()) == old(ledger).count(self.id()) - 1,
            final(ledger).unchanged_except(*old(ledger), self.id()),
    {
        self.handle.release(ledger);
    }

    /// The raw address, for handing back into foreign calls.
    pub fn as_raw(&self) -> (r: u64)
        ensures
            r == self.id(),
    {
        self.handle.as_raw()
    }

    /// Decision logic of the texture accessor. `raw_texture` is what the
    /// foreign accessor returned for this texture: null means the texture
    /// has no backing platform texture right now — a documented, legitimate
    /// absence, answered with `None`, never an error. A non-null address is
    /// wrapped as a borrowed graphics-layer texture whose ownership is
    /// independent of CoreVideo: no CoreVideo-side retain or release is
    /// issued for it, which is why no ledger is touched here.
    pub fn get_texture(&self, raw_texture: u64) -> (r: Option<GpuTexture>)
        ensures
            raw_texture == 0 ==> r is None,
            raw_texture != 0 ==> (r matches Some(t) && t.id() == raw_texture && t.wf()),
    {
        if raw_texture == 0 {
            None
        } else {
            Some(GpuTexture { id: raw_texture })
        }
    }

    /// Decision logic of the flipped-flag accessor: foreign boolean
    /// truthiness. `raw` is the foreign boolean the accessor returned;
    /// zero means false and every non-zero value means true.
    pub fn is_flipped(&self, raw: u8) -> (r: bool)
        ensures
            r == (raw != 0),
    {
        raw != 0
    }

    /// Decision logic of the clean-texture-coordinate accessor. The foreign
    /// call always succeeds on a valid handle and fills the four output
    /// slots it is handed in a fixed argument order: lower-left first, then
    /// lower-right, upper-right, upper-left. `slots` holds the filled slot
    /// values in that foreign argument order, each the raw bit pattern of
    /// one 32-bit float coordinate; the accessor returns them as a tuple in
    /// exactly that order, whatever their numeric values.
    pub fn get_clean_tex_coords(&self, slots: [u32; 4]) -> (r: (u32, u32, u32, u32))
        ensures
            r.0 == slots[0],
            r.1 == slots[1],
            r.2 == slots[2],
            r.3 == slots[3],
    {
        (slots[0], slots[1], slots[2], slots[3])
    }
}

} // verus!
