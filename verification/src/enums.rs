//! Numeric codec for closed domain enumerations.
//!
//! Every enumeration the boundary publishes is closed: its encoded values
//! are the contiguous integers `0..count`, in declaration order. An
//! [`EnumInfo`] carries the declared variant names in that order; the codec
//! offers the element count, the ordered sequence of valid encoded values,
//! decoding (defined exactly on `0..count`, rejected elsewhere) and the text
//! of each variant. A variant is identified by its declaration index.

use vstd::prelude::*;

use crate::names::terminatable;
use crate::VdexError;

verus! {

/// Metadata of one closed enumeration: its variant names, in declaration
/// order. The encoded value (repr) of the `i`-th declared variant is `i`.
pub struct EnumInfo {
    pub names: Vec<Vec<u8>>,
}

impl EnumInfo {
    /// The declared element count.
    pub open spec fn spec_count(self) -> nat {
        self.names@.len()
    }

    /// A declared enumeration is well formed when its reprs fit the repr
    /// width, no two variants share a name, and every name fits a text
    /// buffer.
    pub open spec fn wf(self) -> bool {
        &&& self.names@.len() <= 0xFFFF
        &&& forall|i: int, j: int|
            #![auto]
            0 <= i < j < self.names@.len() ==> self.names@[i]@ != self.names@[j]@
        &&& forall|i: int| #![auto] 0 <= i < self.names@.len() ==> terminatable(self.names@[i]@)
    }

    /// Decoding a repr: defined exactly on `0..count`, where it yields the
    /// repr-th declared variant's name.
    pub open spec fn spec_decode(self, repr: u16) -> Option<Seq<u8>> {
        if (repr as int) < self.names@.len() {
            Some(self.names@[repr as int]@)
        } else {
            None
        }
    }

    /// Whether some declared variant carries this name.
    pub open spec fn has_variant(self, name: Seq<u8>) -> bool {
        exists|i: int| 0 <= i < self.names@.len() && self.names@[i]@ == name
    }

    /// The declaration index of the variant carrying this name.
    pub open spec fn spec_encode(self, name: Seq<u8>) -> int {
        choose|i: int| 0 <= i < self.names@.len() && self.names@[i]@ == name
    }

    /// The fixed element count of the enumeration.
    pub fn count(&self) -> (n: usize)
        ensures
            n == self.spec_count(),
    {
        self.names.len()
    }

    /// The ordered sequence of every valid encoded value: `0, 1, ...,
    /// count - 1`, in declaration order.
    pub fn values(&self) -> (r: Vec<u16>)
        requires
            self.wf(),
        ensures
            r@.len() == self.spec_count(),
            forall|i: int| 0 <= i < r@.len() ==> r@[i] == i,
    {
        let n = self.names.len();
        let mut r: Vec<u16> = Vec::new();
        let mut i: usize = 0;
        while i < n
            invariant
                n == self.spec_count(),
                n <= 0xFFFF,
                i <= n,
                r@.len() == i,
                forall|j: int| 0 <= j < i ==> r@[j] == j,
            decreases n - i,
        {
            r.push(i as u16);
            i = i + 1;
        }
        r
    }

    /// Decodes a repr into its variant, given as the variant's declaration
    /// index. Rejects every repr outside `0..count`.
    pub fn decode(&self, repr: u16) -> (r: Result<u16, VdexError>)
        ensures
            r is Ok <==> (repr as int) < self.spec_count(),
            r matches Ok(v) ==> v == repr,
            r matches Err(e) ==> e == VdexError::BadRepr,
    {
        if (repr as usize) < self.names.len() {
            Ok(repr)
        } else {
            Err(VdexError::BadRepr)
        }
    }

    /// The declared name of the variant a repr encodes. Rejects every repr
    /// outside `0..count`.
    pub fn variant_name(&self, repr: u16) -> (r: Result<&Vec<u8>, VdexError>)
        ensures
            r is Ok <==> self.spec_decode(repr) is Some,
            r matches Ok(name) ==> self.spec_decode(repr) == Some(name@),
            r matches Err(e) ==> e == VdexError::BadRepr,
    {
        if (repr as usize) < self.names.len() {
            Ok(&self.names[repr as usize])
        } else {
            Err(VdexError::BadRepr)
        }
    }

    /// Encodes a variant, given by its declared name, back into its repr:
    /// the variant's declaration index.
    pub fn encode(&self, name: &Vec<u8>) -> (r: Result<u16, VdexError>)
        requires
            self.wf(),
        ensures
            r is Ok <==> self.has_variant(name@),
            r matches Ok(v) ==> v == self.spec_encode(name@) && self.names@[v as int]@ == name@,
            r matches Err(e) ==> e == VdexError::BadRepr,
    {
        let n = self.names.len();
        let mut i: usize = 0;
        while i < n
            invariant
                self.wf(),
                n == self.spec_count(),
                i <= n,
                forall|j: int| #![auto] 0 <= j < i ==> self.names@[j]@ != name@,
            decreases n - i,
        {
            if bytes_eq(&self.names[i], name) {
                proof {
                    assert(self.has_variant(name@));
                    let w = self.spec_encode(name@);
                    assert(0 <= w < self.names@.len() && self.names@[w]@ == name@);
                    assert(w == i);
                }
                return Ok(i as u16);
            }
            i = i + 1;
        }
        assert(!self.has_variant(name@));
        Err(VdexError::BadRepr)
    }
}

/// Whether two byte strings hold the same bytes.
pub fn bytes_eq(a: &Vec<u8>, b: &Vec<u8>) -> (r: bool)
    ensures
        r == (a@ == b@),
{
    if a.len() != b.len() {
        return false;
    }
    let mut i: usize = 0;
    while i < a.len()
        invariant
            a@.len() == b@.len(),
            i <= a@.len(),
            forall|j: int| 0 <= j < i ==> a@[j] == b@[j],
        decreases a@.len() - i,
    {
        if a[i] != b[i] {
            return false;
        }
        i = i + 1;
    }
    proof {
        assert(a@ =~= b@);
    }
    true
}

/// Enum round-trip law: for every declared enumeration and every `i` in
/// `0..count`, decoding `i` yields the `i`-th declared variant, encoding
/// that variant yields `i` back, and every repr outside `0..count` is
/// rejected by decoding, never aliased to a declared variant.
pub proof fn lemma_enum_round_trip(e: EnumInfo)
    requires
        e.wf(),
    ensures
        forall|i: int|
            #![auto]
            0 <= i < e.spec_count() ==> e.spec_decode(i as u16) == Some(e.names@[i]@),
        forall|i: int|
            #![auto]
            0 <= i < e.spec_count() ==> e.has_variant(e.names@[i]@) && e.spec_encode(e.names@[i]@)
                == i,
        forall|r: u16| e.spec_count() <= r ==> e.spec_decode(r) is None,
{
    assert forall|i: int| #![auto] 0 <= i < e.spec_count() implies e.has_variant(e.names@[i]@)
        && e.spec_encode(e.names@[i]@) == i by {
        assert(e.names@[i]@ == e.names@[i]@);
        assert(e.has_variant(e.names@[i]@));
        let w = e.spec_encode(e.names@[i]@);
        assert(0 <= w < e.names@.len() && e.names@[w]@ == e.names@[i]@);
        assert(w == i);
    }
}

} // verus!
