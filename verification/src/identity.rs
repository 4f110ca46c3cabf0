//! Fixed-width public identifiers.

use vstd::prelude::*;

verus! {

/// Number of bytes in an identifier.
pub const IDENTITY_LEN: usize = 32;

/// A 32-byte public identifier: an account address, a validator's voting
/// identity or a program's identity. Its view is the sequence of its bytes.
#[derive(Clone, Copy, Debug, PartialEq, Eq, Hash)]
pub struct Identity {
    pub bytes: [u8; 32],
}

impl View for Identity {
    type V = Seq<u8>;

    open spec fn view(&self) -> Seq<u8> {
        self.bytes@
    }
}

impl Identity {
    /// Reads an identifier from a slice, which must hold exactly 32 bytes.
    pub fn from_slice(data: &[u8]) -> (id: Option<Identity>)
        ensures
            id is Some <==> data@.len() == 32,
            id matches Some(i) ==> i@ == data@,
    {
        if data.len() != IDENTITY_LEN {
            return None;
        }
        let mut bytes: [u8; 32] = [0u8; 32];
        let mut i: usize = 0;
        while i < IDENTITY_LEN
            invariant
                i <= 32,
                data@.len() == 32,
                forall|k: int| 0 <= k < i ==> bytes@[k] == data@[k],
            decreases 32 - i,
        {
            bytes[i] = data[i];
            i += 1;
        }
        let id = Identity { bytes };
        assert(id@ =~= data@);
        Some(id)
    }

    /// The identifier's bytes, as a vector.
    pub fn to_vec(&self) -> (out: Vec<u8>)
        ensures
            out@ == self@,
    {
        let mut out: Vec<u8> = Vec::with_capacity(IDENTITY_LEN);
        let mut i: usize = 0;
        while i < IDENTITY_LEN
            invariant
                i <= 32,
                out@.len() == i,
                forall|k: int| 0 <= k < i ==> out@[k] == self.bytes@[k],
            decreases 32 - i,
        {
            out.push(self.bytes[i]);
            i += 1;
        }
        assert(out@ =~= self@);
        out
    }

    /// Whether two identifiers hold the same bytes.
    pub fn same(&self, other: &Identity) -> (eq: bool)
        ensures
            eq <==> self@ == other@,
    {
        let mut i: usize = 0;
        while i < IDENTITY_LEN
            invariant
                i <= 32,
                forall|k: int| 0 <= k < i ==> self.bytes@[k] == other.bytes@[k],
            decreases 32 - i,
        {
            if self.bytes[i] != other.bytes[i] {
                return false;
            }
            i += 1;
        }
        assert(self@ =~= other@);
        true
    }
}

} // verus!
