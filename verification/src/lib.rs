//! Typed remote-call handles for cross-contract calls.
//!
//! A handle wraps one account id together with a compile-time tag naming the
//! target contract, and behaves byte-for-byte like the bare account id in
//! wire encoding and in persistent contract storage.

use vstd::prelude::*;

pub mod account;
pub mod builder;
pub mod codec;
pub mod forwarder;
pub mod layout;

pub use account::AccountId;
pub use builder::CallBuilderBase;
pub use codec::DecodeError;
pub use forwarder::ContractRef;

verus! {

/// Names the generated contract reference type of a contract storage struct.
pub trait ContractReference {
    /// The generated contract reference type.
    type Type;
}

/// Names the generated contract call builder of a contract storage struct.
///
/// The generated contract call builder implements the long-hand calling API
/// for all messages of the contract.
pub trait ContractCallBuilder {
    /// The generated contract call builder type.
    type Type;
}

/// Tells the display name of a contract, used only for diagnostics.
pub trait ContractName {
    /// The name of the contract.
    const NAME: &'static str;
}

} // verus!
