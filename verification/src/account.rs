//! The library's model of an account id: the 32-byte address of a contract
//! instance, with value semantics and verified equality.

use vstd::prelude::*;

verus! {

/// A 32-byte account identifier: the address of a contract instance.
///
/// This is the plain-value form of the host environment's account id type;
/// the codec and storage wrappers convert between the two at the boundary.
#[derive(Debug, Clone, Copy, Hash)]
pub struct AccountId {
    bytes: [u8; 32],
}

impl View for AccountId {
    type V = Seq<u8>;

    closed spec fn view(&self) -> Seq<u8> {
        self.bytes@
    }
}

impl AccountId {
    /// Builds an account id from its raw 32 bytes.
    pub fn new(bytes: [u8; 32]) -> (r: Self)
        ensures
            r@ == bytes@,
    {
        AccountId { bytes }
    }

    /// Returns the raw 32 bytes of the account id.
    pub fn to_bytes(&self) -> (r: [u8; 32])
        ensures
            r@ == self@,
    {
        self.bytes
    }

    /// An account id has a fixed binary shape: it views as exactly 32 bytes.
    pub proof fn lemma_view_len(self)
        ensures
            self@.len() == 32,
    {
        assert(self.bytes@.len() == 32);
    }

    /// An account id is nothing but its bytes: two account ids with the
    /// same byte view are the same value.
    pub proof fn lemma_view_injective(a1: AccountId, a2: AccountId)
        requires
            a1@ == a2@,
        ensures
            a1 == a2,
    {
        assert(a1.bytes =~= a2.bytes);
    }
}

impl PartialEq for AccountId {
    fn eq(&self, other: &Self) -> (r: bool) {
        let mut i: usize = 0;
        while i < 32
            invariant
                i <= 32,
                forall|j: int| 0 <= j < i ==> self.bytes@[j] == other.bytes@[j],
            decreases 32 - i,
        {
            if self.bytes[i] != other.bytes[i] {
                return false;
            }
            i += 1;
        }
        proof {
            assert(self.bytes@ =~= other.bytes@);
        }
        true
    }
}

impl Eq for AccountId {}

impl vstd::std_specs::cmp::PartialEqSpecImpl for AccountId {
    open spec fn obeys_eq_spec() -> bool {
        true
    }

    open spec fn eq_spec(&self, other: &Self) -> bool {
        self@ == other@
    }
}

} // verus!
