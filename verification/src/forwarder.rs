//! The call forwarder handle: a transparent wrapper around exactly one call
//! builder.
//!
//! The forwarder adds no state and never inspects or alters bytes: every
//! codec, equality, conversion and storage operation forwards to the inner
//! builder unchanged.

use vstd::prelude::*;
use vstd::std_specs::cmp::PartialEqSpec;
use crate::ContractName;
use crate::account::AccountId;
use crate::builder::CallBuilderBase;
use crate::builder::lemma_codec_round_trip;
use crate::codec::{DecodeError, spec_decoded_account};

verus! {

/// A call forwarder for the contract `T`: wraps the contract's call
/// builder and serves as the interface through which generated call
/// construction methods reach it.
#[derive(Debug, Hash)]
#[verifier::reject_recursive_types(T)]
pub struct ContractRef<T> {
    call_builder: CallBuilderBase<T>,
}

impl<T> View for ContractRef<T> {
    type V = Seq<u8>;

    open spec fn view(&self) -> Seq<u8> {
        self.call_builder_spec()@
    }
}

impl<T> ContractRef<T> {
    /// The inner call builder.
    pub closed spec fn call_builder_spec(self) -> CallBuilderBase<T> {
        self.call_builder
    }

    /// The forwarder that wraps a given account id: the builder for that
    /// address and nothing else.
    pub closed spec fn spec_from_account_id(account_id: AccountId) -> Self {
        ContractRef { call_builder: CallBuilderBase::spec_from_account_id(account_id) }
    }

    /// The number of storage units the forwarder occupies under the spread
    /// layout: one, the same cell its builder occupies.
    pub const FOOTPRINT: u64 = 1;

    /// The forwarder owns no nested storage structures, so clearing it
    /// needs no deep clean-up.
    pub const REQUIRES_DEEP_CLEAN_UP: bool = false;

    /// Returns a reference to the inner call builder, for read-only call
    /// construction operations.
    pub fn call(&self) -> (r: &CallBuilderBase<T>)
        ensures
            *r == self.call_builder_spec(),
    {
        &self.call_builder
    }

    /// Returns a mutable reference to the inner call builder, for call
    /// construction operations that thread builder state through a chained
    /// API.  The forwarder afterwards holds exactly the builder the caller
    /// leaves behind.
    pub fn call_mut(&mut self) -> (r: &mut CallBuilderBase<T>)
        ensures
            *r == old(self).call_builder_spec(),
            final(self).call_builder_spec() == *final(r),
    {
        &mut self.call_builder
    }

    /// Wraps an account id in a call forwarder handle.  Total: the address
    /// is stored verbatim in the inner builder.
    pub fn from_account_id(account_id: AccountId) -> (r: Self)
        ensures
            r == Self::spec_from_account_id(account_id),
            r.call_builder_spec() == CallBuilderBase::<T>::spec_from_account_id(account_id),
            r@ == account_id@,
    {
        ContractRef { call_builder: CallBuilderBase::from_account_id(account_id) }
    }

    /// Returns a duplicate of the account id wrapped by the inner builder.
    pub fn to_account_id(&self) -> (r: AccountId)
        ensures
            r == self.call_builder_spec().account_id_spec(),
            r@ == self@,
    {
        self.call_builder.to_account_id()
    }

    /// Encodes the forwarder: exactly the bytes the inner builder — and so
    /// the bare account id — produces.
    pub fn encode(&self) -> (r: Vec<u8>)
        ensures
            r@ == self@,
    {
        self.call_builder.encode()
    }

    /// The size hint for the encoding: the inner builder's own hint, the
    /// 32 bytes of the address.
    pub fn size_hint(&self) -> (r: usize)
        ensures
            r == 32,
    {
        self.call_builder.size_hint()
    }

    /// Decodes a forwarder from bytes by running the builder's decoder:
    /// succeeds if and only if the account id decoder succeeds, and on
    /// success wraps the decoded builder unchanged.
    pub fn decode(bytes: &[u8]) -> (r: Result<Self, DecodeError>)
        ensures
            r is Ok <==> spec_decoded_account(bytes@) is Some,
            r matches Ok(f) ==> spec_decoded_account(bytes@) == Option::Some(f@),
    {
        match CallBuilderBase::decode(bytes) {
            Ok(call_builder) => Ok(ContractRef { call_builder }),
            Err(e) => Err(e),
        }
    }

    /// The display name of the target contract, the capability marker's
    /// constant, for diagnostics only.
    pub fn contract_name(&self) -> (r: &'static str) where T: ContractName
        ensures
            r == T::NAME,
    {
        self.call_builder.contract_name()
    }

    /// Reads a forwarder from the cell at the storage cursor and advances
    /// the cursor by one unit, by pulling the inner builder.
    pub fn pull_spread(ptr: &mut ink_primitives::KeyPtr) -> Self {
        ContractRef { call_builder: CallBuilderBase::pull_spread(ptr) }
    }

    /// Writes the inner builder's account id into the cell at the storage
    /// cursor and advances the cursor by one unit.
    pub fn push_spread(&self, ptr: &mut ink_primitives::KeyPtr) {
        self.call_builder.push_spread(ptr)
    }

    /// Erases the cell at the storage cursor and advances the cursor by
    /// one unit.
    pub fn clear_spread(&self, ptr: &mut ink_primitives::KeyPtr) {
        self.call_builder.clear_spread(ptr)
    }

    /// Packed layout pull: a no-op, forwarded to the inner builder's
    /// no-op.  The forwarder is left unchanged and no storage is touched.
    pub fn pull_packed(&mut self, at: &ink_primitives::Key)
        ensures
            *final(self) == *old(self),
    {
        self.call_builder.pull_packed(at)
    }

    /// Packed layout push: a no-op that touches no storage.
    pub fn push_packed(&self, at: &ink_primitives::Key) {
        self.call_builder.push_packed(at)
    }

    /// Packed layout clear: a no-op that touches no storage.
    pub fn clear_packed(&self, at: &ink_primitives::Key) {
        self.call_builder.clear_packed(at)
    }
}

impl<T> Clone for ContractRef<T> {
    /// Duplicates the forwarder: a full, independent copy of the inner
    /// builder.
    fn clone(&self) -> (r: Self)
        ensures
            r == *self,
    {
        ContractRef { call_builder: self.call_builder }
    }
}

impl<T> Copy for ContractRef<T> {}

impl<T> PartialEq for ContractRef<T> {
    fn eq(&self, other: &Self) -> bool {
        self.call_builder == other.call_builder
    }
}

impl<T> Eq for ContractRef<T> {}

impl<T> vstd::std_specs::cmp::PartialEqSpecImpl for ContractRef<T> {
    open spec fn obeys_eq_spec() -> bool {
        true
    }

    open spec fn eq_spec(&self, other: &Self) -> bool {
        self@ == other@
    }
}

/// Forwarder transparency: a forwarder's observable bytes are exactly its
/// inner builder's, so every delegated operation — encoding, size hint,
/// decoding, conversion, storage layout — yields through the forwarder the
/// same result it yields on the builder directly.
pub proof fn lemma_forwarder_transparency<T>(f: ContractRef<T>)
    ensures
        f@ == f.call_builder_spec()@,
{
}

/// Forwarder equality transparency: two forwarders compare equal exactly
/// when their inner builders do.
pub proof fn lemma_forwarder_eq_transparency<T>(f1: ContractRef<T>, f2: ContractRef<T>)
    ensures
        f1.eq_spec(&f2) <==> f1.call_builder_spec().eq_spec(&f2.call_builder_spec()),
{
}

/// Identity of conversion, through the forwarder: wrapping an account id
/// and unwrapping it again yields the original address.
pub proof fn lemma_forwarder_conversion_identity<T>(a: AccountId)
    ensures
        ContractRef::<T>::spec_from_account_id(a).call_builder_spec().account_id_spec() == a,
{
    crate::builder::lemma_conversion_identity::<T>(a);
}

/// Round trip, through the forwarder: decoding an encoded forwarder
/// succeeds with a forwarder equal to the original.
pub proof fn lemma_forwarder_codec_round_trip<T>(f: ContractRef<T>)
    ensures
        spec_decoded_account(f@) == Option::Some(f@),
{
    lemma_codec_round_trip(f.call_builder_spec());
}

/// Storage footprint constancy: the spread-layout footprint of a call
/// forwarder handle is one unit, independent of the compile-time tag.
pub proof fn lemma_forwarder_footprint_constant<T>()
    ensures
        ContractRef::<T>::FOOTPRINT == 1,
        !ContractRef::<T>::REQUIRES_DEEP_CLEAN_UP,
{
}

} // verus!
