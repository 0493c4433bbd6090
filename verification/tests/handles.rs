//! Behavioral tests for the call builder and call forwarder handles:
//! codec round trips, conversion identity, equality and hashing
//! delegation, forwarder transparency, and the packed-layout no-ops.

use std::collections::hash_map::DefaultHasher;
use std::hash::{Hash, Hasher};

use contract_ref::{AccountId, CallBuilderBase, ContractCallBuilder, ContractName,
    ContractRef, ContractReference};

#[derive(Debug, Clone, Copy, PartialEq, Eq, Hash)]
struct Flipper;

impl ContractName for Flipper {
    const NAME: &'static str = "Flipper";
}

impl ContractReference for Flipper {
    type Type = ContractRef<Flipper>;
}

impl ContractCallBuilder for Flipper {
    type Type = CallBuilderBase<Flipper>;
}

#[derive(Debug, Clone, Copy, PartialEq, Eq, Hash)]
struct Incrementer;

impl ContractName for Incrementer {
    const NAME: &'static str = "Incrementer";
}

fn hash_of<T: Hash>(value: &T) -> u64 {
    let mut hasher = DefaultHasher::new();
    value.hash(&mut hasher);
    hasher.finish()
}

#[test]
fn builder_round_trip_encode_decode() {
    let a = AccountId::new([0x42; 32]);
    let h = CallBuilderBase::<Flipper>::from_account_id(a);
    let encoded = h.encode();
    let decoded = CallBuilderBase::<Flipper>::decode(&encoded);
    assert_eq!(decoded, Ok(h));
}

#[test]
fn forwarder_round_trip_encode_decode() {
    let a = AccountId::new([0x17; 32]);
    let f = ContractRef::<Flipper>::from_account_id(a);
    let encoded = f.encode();
    let decoded = ContractRef::<Flipper>::decode(&encoded);
    assert_eq!(decoded, Ok(f));
}

#[test]
fn conversion_identity() {
    let mut bytes = [0u8; 32];
    for (i, b) in bytes.iter_mut().enumerate() {
        *b = i as u8;
    }
    let a = AccountId::new(bytes);
    assert_eq!(CallBuilderBase::<Flipper>::from_account_id(a).to_account_id(), a);
    assert_eq!(ContractRef::<Flipper>::from_account_id(a).to_account_id(), a);
    assert_eq!(a.to_bytes(), bytes);
}

#[test]
fn encoding_matches_bare_account_id() {
    let raw = [0xAB; 32];
    let h = CallBuilderBase::<Flipper>::from_account_id(AccountId::new(raw));
    let bare = ink_env::AccountId::from(raw);
    let expected: Vec<u8> = parity_scale_codec::Encode::encode(&bare);
    assert_eq!(h.encode(), expected);
    assert_eq!(expected.len(), 32);
    assert_eq!(h.size_hint(), parity_scale_codec::Encode::size_hint(&bare));
    let f = ContractRef::<Flipper>::from_account_id(AccountId::new(raw));
    assert_eq!(f.encode(), expected);
    assert_eq!(f.size_hint(), parity_scale_codec::Encode::size_hint(&bare));
}

#[test]
fn delegation_equivalence_of_equality() {
    let a1 = AccountId::new([1; 32]);
    let a2 = AccountId::new([2; 32]);
    let h1 = CallBuilderBase::<Flipper>::from_account_id(a1);
    let h1_again = CallBuilderBase::<Flipper>::from_account_id(a1);
    let h2 = CallBuilderBase::<Flipper>::from_account_id(a2);
    assert_eq!(a1 == a1, h1 == h1_again);
    assert_eq!(a1 == a2, h1 == h2);
    assert!(h1 != h2);
    assert_eq!(h1, h1_again);
}

#[test]
fn hashing_delegates_to_account_id() {
    let a = AccountId::new([9; 32]);
    let h1 = CallBuilderBase::<Flipper>::from_account_id(a);
    let h2 = CallBuilderBase::<Flipper>::from_account_id(a);
    assert_eq!(hash_of(&h1), hash_of(&h2));
    let f1 = ContractRef::<Flipper>::from_account_id(a);
    let f2 = ContractRef::<Flipper>::from_account_id(a);
    assert_eq!(hash_of(&f1), hash_of(&f2));
}

#[test]
fn forwarder_is_transparent() {
    let a = AccountId::new([0x5A; 32]);
    let b = CallBuilderBase::<Flipper>::from_account_id(a);
    let f = ContractRef::<Flipper>::from_account_id(a);
    assert_eq!(f.encode(), b.encode());
    assert_eq!(f.size_hint(), b.size_hint());
    assert_eq!(f.to_account_id(), b.to_account_id());
    assert_eq!(f.contract_name(), b.contract_name());
    assert_eq!(*f.call(), b);
    let decoded_b = CallBuilderBase::<Flipper>::decode(&b.encode()).unwrap();
    let decoded_f = ContractRef::<Flipper>::decode(&f.encode()).unwrap();
    assert_eq!(*decoded_f.call(), decoded_b);
}

#[test]
fn call_mut_gives_access_to_inner_builder() {
    let a = AccountId::new([3; 32]);
    let replacement = AccountId::new([4; 32]);
    let mut f = ContractRef::<Flipper>::from_account_id(a);
    let inner = f.call_mut();
    assert_eq!(inner.to_account_id(), a);
    *inner = CallBuilderBase::<Flipper>::from_account_id(replacement);
    assert_eq!(f.to_account_id(), replacement);
}

#[test]
fn footprint_is_one_for_every_tag() {
    assert_eq!(CallBuilderBase::<Flipper>::FOOTPRINT, 1);
    assert_eq!(CallBuilderBase::<Incrementer>::FOOTPRINT, 1);
    assert_eq!(ContractRef::<Flipper>::FOOTPRINT, 1);
    assert_eq!(ContractRef::<Incrementer>::FOOTPRINT, 1);
    assert!(!CallBuilderBase::<Flipper>::REQUIRES_DEEP_CLEAN_UP);
    assert!(!ContractRef::<Flipper>::REQUIRES_DEEP_CLEAN_UP);
}

#[test]
fn packed_hooks_leave_bytes_unchanged() {
    let key = ink_primitives::Key::from([0u8; 32]);
    let a = AccountId::new([0xCD; 32]);
    let mut h = CallBuilderBase::<Flipper>::from_account_id(a);
    let before = h.encode();
    h.pull_packed(&key);
    assert_eq!(h.encode(), before);
    h.push_packed(&key);
    assert_eq!(h.encode(), before);
    h.clear_packed(&key);
    assert_eq!(h.encode(), before);
    let mut f = ContractRef::<Flipper>::from_account_id(a);
    f.pull_packed(&key);
    f.push_packed(&key);
    f.clear_packed(&key);
    assert_eq!(f.encode(), before);
}

#[test]
fn decode_rejects_short_input() {
    let short = [0x42; 31];
    assert_eq!(CallBuilderBase::<Flipper>::decode(&short), Err(contract_ref::DecodeError));
    assert_eq!(ContractRef::<Flipper>::decode(&short), Err(contract_ref::DecodeError));
    let empty: [u8; 0] = [];
    assert!(CallBuilderBase::<Flipper>::decode(&empty).is_err());
}

#[test]
fn decode_reads_exactly_thirty_two_bytes() {
    let mut long = Vec::new();
    long.extend_from_slice(&[0x11; 32]);
    long.push(0xFF);
    let decoded = CallBuilderBase::<Flipper>::decode(&long).unwrap();
    assert_eq!(decoded.to_account_id(), AccountId::new([0x11; 32]));
}

#[test]
fn end_to_end_scenario() {
    let raw = [0x77; 32];
    let bytes: Vec<u8> = parity_scale_codec::Encode::encode(&ink_env::AccountId::from(raw));
    let handle = ContractRef::<Flipper>::decode(&bytes).unwrap();
    assert_eq!(handle.encode(), bytes);
    assert_eq!(handle.to_account_id(), AccountId::new(raw));
    let malformed = &bytes[..31];
    assert!(ContractRef::<Flipper>::decode(malformed).is_err());
}

#[test]
fn contract_name_comes_from_the_marker() {
    let a = AccountId::new([0; 32]);
    let h = CallBuilderBase::<Flipper>::from_account_id(a);
    assert_eq!(h.contract_name(), "Flipper");
    let h2 = CallBuilderBase::<Incrementer>::from_account_id(a);
    assert_eq!(h2.contract_name(), "Incrementer");
    let f = ContractRef::<Incrementer>::from_account_id(a);
    assert_eq!(f.contract_name(), "Incrementer");
}

#[test]
fn handles_are_cheap_value_copies() {
    let a = AccountId::new([8; 32]);
    let h = CallBuilderBase::<Flipper>::from_account_id(a);
    let copy = h;
    assert_eq!(h.clone(), copy);
    let f = ContractRef::<Flipper>::from_account_id(a);
    let fcopy = f;
    assert_eq!(f.clone(), fcopy);
}
