//! Persistent-storage access for account ids.
//!
//! The spread storage protocol reads and writes one address-sized unit at
//! the current cursor position; the handle types delegate to the account
//! id's own layout through the trusted wrappers in this module.  The cursor
//! and key types belong to the host environment and stay opaque here.

use vstd::prelude::*;
use crate::account::AccountId;

verus! {

/// The host environment's storage key: the location of one storage cell.
#[verifier::external_type_specification]
#[verifier::external_body]
pub struct ExKey(ink_primitives::Key);

/// The host environment's storage cursor: a key that call sites advance
/// while walking the cells of a composite value.
#[verifier::external_type_specification]
#[verifier::external_body]
pub struct ExKeyPtr(ink_primitives::KeyPtr);

/// Relies on the account id's spread layout: reads the account id stored in
/// the cell at the cursor and advances the cursor by one unit.  As in the
/// host environment, the call aborts when no decodable value is stored
/// there; what it returns depends on the contract's storage, so nothing is
/// stated of the result.
#[verifier::external_body]
pub(crate) fn pull_account_spread(ptr: &mut ink_primitives::KeyPtr) -> AccountId {
    let pulled = <ink_env::AccountId as ink_storage::traits::SpreadLayout>::pull_spread(ptr);
    AccountId::new(*AsRef::<[u8; 32]>::as_ref(&pulled))
}

/// Relies on the account id's spread layout: writes the given account id
/// into the cell at the cursor and advances the cursor by one unit.
#[verifier::external_body]
pub(crate) fn push_account_spread(a: &AccountId, ptr: &mut ink_primitives::KeyPtr) {
    let stored = ink_env::AccountId::from(a.to_bytes());
    <ink_env::AccountId as ink_storage::traits::SpreadLayout>::push_spread(&stored, ptr)
}

/// Relies on the account id's spread layout: erases the cell at the cursor
/// and advances the cursor by one unit.
#[verifier::external_body]
pub(crate) fn clear_account_spread(a: &AccountId, ptr: &mut ink_primitives::KeyPtr) {
    let stored = ink_env::AccountId::from(a.to_bytes());
    <ink_env::AccountId as ink_storage::traits::SpreadLayout>::clear_spread(&stored, ptr)
}

} // verus!
