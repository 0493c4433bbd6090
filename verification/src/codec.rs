//! Wire encoding of account ids.
//!
//! The handle types delegate their encoding and decoding to the host
//! environment's account id codec, reached through the trusted wrappers in
//! this module.  The encoding of a 32-byte account id is exactly its raw
//! bytes: no length prefix, no tag.

use vstd::prelude::*;
use crate::account::AccountId;

verus! {

/// The error kind of the handle types: a byte sequence did not parse as an
/// account id.  The underlying decoder's error carries no data that this
/// library reads, so the kind stands alone.
#[derive(Debug, Clone, Copy, PartialEq, Eq, Structural)]
pub struct DecodeError;

/// The outside codec's error type, as the decoder wrapper returns it.
#[verifier::external_type_specification]
#[verifier::external_body]
pub struct ExScaleError(parity_scale_codec::Error);

/// What the address decoder yields on a byte sequence: the first 32 bytes
/// when at least 32 are present, nothing otherwise.
pub open spec fn spec_decoded_account(bytes: Seq<u8>) -> Option<Seq<u8>> {
    if bytes.len() >= 32 {
        Option::Some(bytes.take(32))
    } else {
        Option::None
    }
}

/// Relies on scale's `Encode` for the environment's account id: a 32-byte
/// account id encodes as its raw bytes, nothing more.
#[verifier::external_body]
pub(crate) fn encode_account(a: &AccountId) -> (r: Vec<u8>)
    ensures
        r@ == a@,
{
    parity_scale_codec::Encode::encode(&ink_env::AccountId::from(a.to_bytes()))
}

/// Relies on scale's `Encode::size_hint` for the environment's account id:
/// the hint is the byte size of the encoding, 32.
#[verifier::external_body]
pub(crate) fn account_size_hint(a: &AccountId) -> (r: usize)
    ensures
        r == 32,
{
    parity_scale_codec::Encode::size_hint(&ink_env::AccountId::from(a.to_bytes()))
}

/// Relies on scale's `Decode` for the environment's account id: it reads
/// exactly 32 bytes from the front of the input, and fails when fewer
/// remain.
#[verifier::external_body]
pub(crate) fn decode_account(bytes: &[u8]) -> (r: Result<
    AccountId,
    parity_scale_codec::Error,
>)
    ensures
        r is Ok <==> spec_decoded_account(bytes@) is Some,
        r matches Ok(a) ==> spec_decoded_account(bytes@) == Option::Some(a@),
{
    let decoded: ink_env::AccountId =
        parity_scale_codec::Decode::decode(&mut &bytes[..])?;
    Ok(AccountId::new(*AsRef::<[u8; 32]>::as_ref(&decoded)))
}

} // verus!
