//! Identities: opaque 32-byte addresses compared only for equality and used
//! as derivation seed material.

use vstd::prelude::*;

verus! {

/// The width in bytes of every identity (public address) in the protocol.
pub const IDENTITY_LEN: usize = 32;

/// An opaque fixed-width public address. No structure is assumed beyond
/// byte equality and use as derivation input.
#[derive(Clone, Debug)]
pub struct Identity {
    pub bytes: Vec<u8>,
}

impl Identity {
    /// An identity is well formed when it has exactly the fixed width.
    pub open spec fn wf(&self) -> bool {
        self.bytes@.len() == IDENTITY_LEN
    }

    /// Builds an identity from its raw bytes.
    pub fn new(bytes: Vec<u8>) -> (r: Identity)
        requires
            bytes@.len() == IDENTITY_LEN,
        ensures
            r.wf(),
            r.bytes@ == bytes@,
    {
        Identity { bytes }
    }

    /// Copies the identity.
    pub fn dup(&self) -> (r: Identity)
        ensures
            r@ == self@,
            r.wf() == self.wf(),
    {
        Identity { bytes: copy_bytes(&self.bytes) }
    }
}

impl View for Identity {
    type V = Seq<u8>;

    open spec fn view(&self) -> Seq<u8> {
        self.bytes@
    }
}

/// Copies a byte vector.
pub fn copy_bytes(v: &Vec<u8>) -> (r: Vec<u8>)
    ensures
        r@ == v@,
{
    let mut r: Vec<u8> = Vec::new();
    let n = v.len();
    let mut i: usize = 0;
    while i < n
        invariant
            n == v@.len(),
            i <= n,
            r@ == v@.subrange(0, i as int),
        decreases n - i,
    {
        r.push(v[i]);
        assert(r@ =~= v@.subrange(0, i + 1));
        i = i + 1;
    }
    assert(r@ =~= v@);
    r
}

/// Compares two byte vectors for equality of their contents.
pub fn bytes_eq(a: &Vec<u8>, b: &Vec<u8>) -> (r: bool)
    ensures
        r == (a@ == b@),
{
    if a.len() != b.len() {
        assert(a@ != b@);
        return false;
    }
    let n = a.len();
    let mut i: usize = 0;
    while i < n
        invariant
            n == a@.len(),
            n == b@.len(),
            i <= n,
            forall|j: int| 0 <= j < i ==> a@[j] == b@[j],
        decreases n - i,
    {
        if a[i] != b[i] {
            assert(a@ != b@);
            return false;
        }
        i = i + 1;
    }
    assert(a@ =~= b@);
    true
}

impl PartialEq for Identity {
    fn eq(&self, other: &Identity) -> (r: bool) {
        bytes_eq(&self.bytes, &other.bytes)
    }
}

impl vstd::std_specs::cmp::PartialEqSpecImpl for Identity {
    open spec fn obeys_eq_spec() -> bool {
        true
    }

    open spec fn eq_spec(&self, other: &Identity) -> bool {
        self.bytes@ == other.bytes@
    }
}

} // verus!
