//! The hash functions of the Starknet protocol, as provided by the
//! `starknet-core` and `starknet-crypto` crates.

use vstd::prelude::*;
use crate::felt::{Felt, felts_view};

verus! {

/// What `starknet_core::crypto::compute_hash_on_elements` returns on the
/// field elements encoded by `s`.
pub uninterp spec fn pedersen_on_elements(s: Seq<Seq<u8>>) -> Seq<u8>;

/// What `starknet_crypto::poseidon_hash_many` returns on the field elements
/// encoded by `s`.
pub uninterp spec fn poseidon_on_elements(s: Seq<Seq<u8>>) -> Seq<u8>;

/// What `starknet_core::utils::get_contract_address` returns for the given
/// salt, class hash, constructor calldata and deployer address.
pub uninterp spec fn contract_address_of(
    salt: Seq<u8>,
    class_hash: Seq<u8>,
    calldata: Seq<Seq<u8>>,
    deployer: Seq<u8>,
) -> Seq<u8>;

/// Relies on `starknet_core::crypto::compute_hash_on_elements`: the chained
/// Pedersen hash of the elements and their count, a function of them alone.
#[verifier::external_body]
pub(crate) fn hash_on_elements(data: &Vec<Felt>) -> (r: Felt)
    ensures
        r.bytes@ == pedersen_on_elements(felts_view(data@)),
{
    let outside: Vec<starknet_crypto::Felt> =
        data.iter().map(|f| starknet_crypto::Felt::from_bytes_be(&f.bytes)).collect();
    Felt { bytes: starknet_core::crypto::compute_hash_on_elements(&outside).to_bytes_be() }
}

/// Relies on `starknet_crypto::poseidon_hash_many`: the Poseidon sponge hash
/// of the elements, a function of them alone.
#[verifier::external_body]
pub(crate) fn poseidon_many(data: &Vec<Felt>) -> (r: Felt)
    ensures
        r.bytes@ == poseidon_on_elements(felts_view(data@)),
{
    let outside: Vec<starknet_crypto::Felt> =
        data.iter().map(|f| starknet_crypto::Felt::from_bytes_be(&f.bytes)).collect();
    Felt { bytes: starknet_crypto::poseidon_hash_many(&outside).to_bytes_be() }
}

/// Relies on `starknet_core::utils::get_contract_address`: the address that a
/// deployment with these values yields, a function of them alone.
#[verifier::external_body]
pub(crate) fn contract_address(
    salt: &Felt,
    class_hash: &Felt,
    calldata: &Vec<Felt>,
    deployer: &Felt,
) -> (r: Felt)
    ensures
        r.bytes@ == contract_address_of(
            salt.bytes@,
            class_hash.bytes@,
            felts_view(calldata@),
            deployer.bytes@,
        ),
{
    let outside: Vec<starknet_crypto::Felt> =
        calldata.iter().map(|f| starknet_crypto::Felt::from_bytes_be(&f.bytes)).collect();
    let r = starknet_core::utils::get_contract_address(
        starknet_crypto::Felt::from_bytes_be(&salt.bytes),
        starknet_crypto::Felt::from_bytes_be(&class_hash.bytes),
        &outside,
        starknet_crypto::Felt::from_bytes_be(&deployer.bytes),
    );
    Felt { bytes: r.to_bytes_be() }
}

} // verus!
