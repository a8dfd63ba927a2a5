//! Boundary-owned text buffers.
//!
//! Callers receive entity names as owned, null-terminated byte buffers and
//! give them back through [`vdex_free_name`]. Freeing nulls the caller's
//! reference in place, so a second free of the same reference is a defined
//! no-op rather than a double free.

use vstd::prelude::*;

verus! {

/// A freshly allocated, null-terminated text buffer owned by the caller.
pub struct NameBuffer {
    bytes: Vec<u8>,
}

impl View for NameBuffer {
    type V = Seq<u8>;

    closed spec fn view(&self) -> Seq<u8> {
        self.bytes@
    }
}

impl NameBuffer {
    /// The buffer's bytes, terminator included.
    pub fn as_bytes(&self) -> (r: &Vec<u8>)
        ensures
            r@ == self@,
    {
        &self.bytes
    }
}

/// True when `text` can be carried in a null-terminated buffer.
pub open spec fn terminatable(text: Seq<u8>) -> bool {
    forall|i: int| 0 <= i < text.len() ==> text[i] != 0
}

/// Decides whether `text` can be carried in a null-terminated buffer.
pub fn check_terminatable(text: &Vec<u8>) -> (r: bool)
    ensures
        r == terminatable(text@),
{
    let mut i: usize = 0;
    while i < text.len()
        invariant
            i <= text@.len(),
            forall|j: int| 0 <= j < i ==> text@[j] != 0,
        decreases text@.len() - i,
    {
        if text[i] == 0 {
            assert(!terminatable(text@)) by {
                assert(text@[i as int] == 0);
            }
            return false;
        }
        i = i + 1;
    }
    true
}

/// Copies `text` into a freshly allocated, null-terminated buffer and
/// transfers ownership of the buffer to the caller.
pub fn allocate_name(text: &Vec<u8>) -> (r: NameBuffer)
    requires
        terminatable(text@),
    ensures
        r@ == text@.push(0),
{
    let mut bytes: Vec<u8> = Vec::new();
    let mut i: usize = 0;
    while i < text.len()
        invariant
            i <= text@.len(),
            bytes@ == text@.subrange(0, i as int),
        decreases text@.len() - i,
    {
        bytes.push(text[i]);
        i = i + 1;
    }
    assert(bytes@ == text@) by {
        assert(text@.subrange(0, text@.len() as int) =~= text@);
    }
    bytes.push(0);
    NameBuffer { bytes }
}

/// What freeing does to the caller's reference: it is nulled, whatever it
/// held before.
pub open spec fn spec_free_name(name: Option<NameBuffer>) -> Option<NameBuffer> {
    None
}

/// Reclaims a name buffer and nulls the caller's reference in place.
/// A reference that is already null is accepted and left null.
pub fn vdex_free_name(name: &mut Option<NameBuffer>)
    ensures
        *final(name) == spec_free_name(*old(name)),
        *final(name) is None,
{
    *name = None;
}

/// Freeing is idempotent: once a reference has been freed (and thereby
/// nulled), freeing it again changes nothing.
pub proof fn lemma_free_name_idempotent(name: Option<NameBuffer>)
    ensures
        spec_free_name(spec_free_name(name)) == spec_free_name(name),
{
}

} // verus!
