//! The call builder handle: one account id plus a compile-time tag naming
//! the target contract.
//!
//! The tag contributes no bytes: a handle encodes, decodes, compares and
//! occupies storage exactly as the bare account id does.

use vstd::prelude::*;
use vstd::std_specs::cmp::PartialEqSpec;
use core::marker::PhantomData;
use crate::ContractName;
use crate::account::AccountId;
use crate::codec::{DecodeError, spec_decoded_account, encode_account, account_size_hint,
    decode_account};
use crate::layout::{pull_account_spread, push_account_spread, clear_account_spread};

verus! {

/// A call builder for the contract `T`: holds the callee's account id and
/// carries `T` as a zero-sized compile-time tag, so that call sites are
/// checked against the right contract's operation set.
#[derive(Debug, Hash)]
#[verifier::reject_recursive_types(T)]
pub struct CallBuilderBase<T> {
    account_id: AccountId,
    marker: PhantomData<T>,
}

impl<T> View for CallBuilderBase<T> {
    type V = Seq<u8>;

    open spec fn view(&self) -> Seq<u8> {
        self.account_id_spec()@
    }
}

impl<T> CallBuilderBase<T> {
    /// The account id the handle wraps.
    pub closed spec fn account_id_spec(self) -> AccountId {
        self.account_id
    }

    /// The handle that wraps a given account id: the address verbatim and
    /// nothing else.
    pub closed spec fn spec_from_account_id(account_id: AccountId) -> Self {
        CallBuilderBase { account_id, marker: PhantomData }
    }

    /// The number of storage units the handle occupies under the spread
    /// layout: one, the account id's own cell, whatever the tag `T` is.
    pub const FOOTPRINT: u64 = 1;

    /// The handle owns no nested storage structures, so clearing it needs
    /// no deep clean-up.
    pub const REQUIRES_DEEP_CLEAN_UP: bool = false;

    /// Wraps an account id in a call builder handle.  Total: the address is
    /// stored verbatim.
    pub fn from_account_id(account_id: AccountId) -> (r: Self)
        ensures
            r == Self::spec_from_account_id(account_id),
            r.account_id_spec() == account_id,
            r@ == account_id@,
    {
        CallBuilderBase { account_id, marker: PhantomData }
    }

    /// Returns a duplicate of the wrapped account id.
    pub fn to_account_id(&self) -> (r: AccountId)
        ensures
            r == self.account_id_spec(),
            r@ == self@,
    {
        self.account_id
    }

    /// Encodes the handle: exactly the bytes the wrapped account id
    /// produces, with no contribution from the tag.
    pub fn encode(&self) -> (r: Vec<u8>)
        ensures
            r@ == self@,
    {
        encode_account(&self.account_id)
    }

    /// The size hint for the encoding: equal to the account id's own hint,
    /// the 32 bytes of the address.
    pub fn size_hint(&self) -> (r: usize)
        ensures
            r == 32,
    {
        account_size_hint(&self.account_id)
    }

    /// Decodes a handle from bytes by running the account id decoder on
    /// them: succeeds if and only if that decoder succeeds, and on success
    /// is the same as wrapping the decoded address with `from_account_id`.
    pub fn decode(bytes: &[u8]) -> (r: Result<Self, DecodeError>)
        ensures
            r is Ok <==> spec_decoded_account(bytes@) is Some,
            r matches Ok(h) ==> spec_decoded_account(bytes@) == Option::Some(h@),
    {
        match decode_account(bytes) {
            Ok(account_id) => Ok(Self::from_account_id(account_id)),
            Err(_) => Err(DecodeError),
        }
    }

    /// The display name of the target contract, the capability marker's
    /// constant, for diagnostics only.
    pub fn contract_name(&self) -> (r: &'static str) where T: ContractName
        ensures
            r == T::NAME,
    {
        T::NAME
    }

    /// Reads a handle from the cell at the storage cursor and advances the
    /// cursor by one unit.  What it returns depends on the contract's
    /// storage; the returned handle wraps whatever account id was stored.
    pub fn pull_spread(ptr: &mut ink_primitives::KeyPtr) -> Self {
        Self::from_account_id(pull_account_spread(ptr))
    }

    /// Writes the wrapped account id into the cell at the storage cursor
    /// and advances the cursor by one unit.
    pub fn push_spread(&self, ptr: &mut ink_primitives::KeyPtr) {
        push_account_spread(&self.account_id, ptr)
    }

    /// Erases the cell at the storage cursor and advances the cursor by one
    /// unit.
    pub fn clear_spread(&self, ptr: &mut ink_primitives::KeyPtr) {
        clear_account_spread(&self.account_id, ptr)
    }

    /// Packed layout pull: a no-op, since the handle's bytes are already
    /// part of the packed value that embeds it.  The handle is left
    /// unchanged and no storage is touched.
    pub fn pull_packed(&mut self, _at: &ink_primitives::Key)
        ensures
            *final(self) == *old(self),
    {
    }

    /// Packed layout push: a no-op that touches no storage; the embedding
    /// packed value already carries the handle's bytes.
    pub fn push_packed(&self, _at: &ink_primitives::Key) {
    }

    /// Packed layout clear: a no-op that touches no storage; the embedding
    /// packed value owns the handle's bytes.
    pub fn clear_packed(&self, _at: &ink_primitives::Key) {
    }
}

impl<T> Clone for CallBuilderBase<T> {
    /// Duplicates the handle: a full, independent copy of the address.
    fn clone(&self) -> (r: Self)
        ensures
            r == *self,
    {
        CallBuilderBase { account_id: self.account_id, marker: PhantomData }
    }
}

impl<T> Copy for CallBuilderBase<T> {}

impl<T> PartialEq for CallBuilderBase<T> {
    fn eq(&self, other: &Self) -> bool {
        self.account_id == other.account_id
    }
}

impl<T> Eq for CallBuilderBase<T> {}

impl<T> vstd::std_specs::cmp::PartialEqSpecImpl for CallBuilderBase<T> {
    open spec fn obeys_eq_spec() -> bool {
        true
    }

    open spec fn eq_spec(&self, other: &Self) -> bool {
        self@ == other@
    }
}

/// Identity of conversion: wrapping an account id and unwrapping it again
/// yields the original address, for every address and every tag.
pub proof fn lemma_conversion_identity<T>(a: AccountId)
    ensures
        CallBuilderBase::<T>::spec_from_account_id(a).account_id_spec() == a,
{
}

/// Round trip: a handle's encoding is its 32 address bytes, and the address
/// decoder run on those bytes yields exactly them back, so decoding an
/// encoded handle succeeds with a handle equal to the original.
pub proof fn lemma_codec_round_trip<T>(h: CallBuilderBase<T>)
    ensures
        spec_decoded_account(h@) == Option::Some(h@),
{
    h.account_id_spec().lemma_view_len();
    assert(h@.take(32) =~= h@);
}

/// Delegation equivalence: two handles built from two account ids are equal
/// exactly when the account ids are equal.
pub proof fn lemma_delegation_equivalence<T>(a1: AccountId, a2: AccountId)
    ensures
        CallBuilderBase::<T>::spec_from_account_id(a1).eq_spec(
            &CallBuilderBase::<T>::spec_from_account_id(a2),
        ) <==> a1.eq_spec(&a2),
{
}

/// Storage footprint constancy: the spread-layout footprint of a call
/// builder handle is one unit, independent of the compile-time tag.
pub proof fn lemma_footprint_constant<T>()
    ensures
        CallBuilderBase::<T>::FOOTPRINT == 1,
        !CallBuilderBase::<T>::REQUIRES_DEEP_CLEAN_UP,
{
}

} // verus!
