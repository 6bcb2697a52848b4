//! Identities: immutable 32-byte public-key values used as registry keys and
//! as Merkle-leaf input.

use vstd::prelude::*;

verus! {

/// An immutable 32-byte public key identifying one participant.
#[derive(Clone, Copy, PartialEq, Eq, Hash, Debug)]
pub struct PubKey([u8; 32]);

impl PubKey {
    pub fn new(bytes: [u8; 32]) -> (pk: Self)
        ensures
            pk@ == bytes@,
    {
        Self(bytes)
    }

    pub fn as_bytes(&self) -> (b: &[u8; 32])
        ensures
            b@ == self@,
    {
        &self.0
    }
}

impl View for PubKey {
    type V = Seq<u8>;

    closed spec fn view(&self) -> Seq<u8> {
        self.0@
    }
}

/// Byte-wise equality of two identities; usable where the derived `==`
/// carries no meaning for verified callers.
pub fn pk_eq(a: &PubKey, b: &PubKey) -> (r: bool)
    ensures
        r == (a@ == b@),
{
    let mut i: usize = 0;
    while i < 32
        invariant
            i <= 32,
            forall|j: int| 0 <= j < i ==> a@[j] == b@[j],
        decreases 32 - i,
    {
        if a.0[i] != b.0[i] {
            assert(a@[i as int] != b@[i as int]);
            return false;
        }
        i += 1;
    }
    assert(a@ =~= b@);
    true
}

} // verus!
