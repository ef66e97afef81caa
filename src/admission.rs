//! Admission of account deployments: the fee and class checks, then the
//! derivation of hash and address.

use vstd::prelude::*;
use crate::felt::Felt;
use crate::errors::{Error, StateError, ConversionError};
use crate::transaction::{
    BroadcastedDeployAccountTransaction, BroadcastedDeployAccountTransactionV1,
    BroadcastedDeployAccountTransactionV3,
};
use crate::starknet::{
    Starknet, DeployAccountTransaction, DeployAccountTransactionV1, DeployAccountTransactionV3,
    StoredTransaction, find_by_hash,
};

verus! {

/// Admits a legacy deployment and builds the transaction for the engine.
///
/// A zero maximal fee is refused first, then an undeclared class, then a
/// field that is not an element of the field; otherwise
/// the result carries the payload with its hash on the session's chain and
/// its address. The session is not changed.
pub fn add_deploy_account_transaction_v1(
    starknet: &Starknet,
    broadcasted_deploy_account_transaction: BroadcastedDeployAccountTransactionV1,
) -> (r: Result<DeployAccountTransaction, Error>)
    ensures
        broadcasted_deploy_account_transaction.max_fee == 0 ==> (r matches Err(
            Error::MaxFeeZeroError { tx_type },
        ) && tx_type@ == "deploy account transaction"@),
        broadcasted_deploy_account_transaction.max_fee != 0 && !starknet.is_declared(
            broadcasted_deploy_account_transaction.class_hash.bytes@,
        ) ==> r == Err::<DeployAccountTransaction, Error>(
            Error::StateError(
                StateError::NoneClassHash(broadcasted_deploy_account_transaction.class_hash),
            ),
        ),
        broadcasted_deploy_account_transaction.max_fee != 0 && starknet.is_declared(
            broadcasted_deploy_account_transaction.class_hash.bytes@,
        ) && !broadcasted_deploy_account_transaction.is_canonical()
            ==> r == Err::<DeployAccountTransaction, Error>(
            Error::ConversionError(ConversionError::OutOfRangeFelt),
        ),
        broadcasted_deploy_account_transaction.max_fee != 0 && starknet.is_declared(
            broadcasted_deploy_account_transaction.class_hash.bytes@,
        ) && broadcasted_deploy_account_transaction.is_canonical() ==> (r matches Ok(t) && t is Version1 && t.hash_view()
            == broadcasted_deploy_account_transaction.hash_spec(starknet.chain_id.bytes@)
            && t.address_view() == broadcasted_deploy_account_transaction.address_spec()
            && t.built_from(
            BroadcastedDeployAccountTransaction::V1(broadcasted_deploy_account_transaction),
        ) && starknet.admits(t)),
{
    if broadcasted_deploy_account_transaction.max_fee == 0 {
        return Err(Error::MaxFeeZeroError { tx_type: "deploy account transaction".to_owned() });
    }
    if !starknet.is_contract_declared(&broadcasted_deploy_account_transaction.class_hash) {
        return Err(
            Error::StateError(
                StateError::NoneClassHash(broadcasted_deploy_account_transaction.class_hash),
            ),
        );
    }
    if !broadcasted_deploy_account_transaction.fields_are_canonical() {
        return Err(Error::ConversionError(ConversionError::OutOfRangeFelt));
    }
    let contract_address = broadcasted_deploy_account_transaction.contract_address();
    let transaction_hash = broadcasted_deploy_account_transaction.transaction_hash(
        &starknet.chain_id,
        &contract_address,
    );
    Ok(
        DeployAccountTransaction::Version1(
            DeployAccountTransactionV1 {
                transaction_hash,
                contract_address,
                payload: broadcasted_deploy_account_transaction,
            },
        ),
    )
}

/// Admits a V3 deployment and builds the transaction for the engine.
///
/// Resource bounds that allow no fee are refused first, then an undeclared
/// class, then a field that is not an element of the field; otherwise the result carries the payload with its hash on the
/// session's chain and its address. The session is not changed.
pub fn add_deploy_account_transaction_v3(
    starknet: &Starknet,
    broadcasted_deploy_account_transaction: BroadcastedDeployAccountTransactionV3,
) -> (r: Result<DeployAccountTransaction, Error>)
    ensures
        broadcasted_deploy_account_transaction.common.resource_bounds.fee_potential() == 0 ==> (r matches Err(
            Error::MaxFeeZeroError { tx_type },
        ) && tx_type@ == "deploy account transaction v3"@),
        broadcasted_deploy_account_transaction.common.resource_bounds.fee_potential() != 0
            && !starknet.is_declared(broadcasted_deploy_account_transaction.class_hash.bytes@)
            ==> r == Err::<DeployAccountTransaction, Error>(
            Error::StateError(
                StateError::NoneClassHash(broadcasted_deploy_account_transaction.class_hash),
            ),
        ),
        broadcasted_deploy_account_transaction.common.resource_bounds.fee_potential() != 0
            && starknet.is_declared(broadcasted_deploy_account_transaction.class_hash.bytes@)
            && !broadcasted_deploy_account_transaction.is_canonical()
            ==> r == Err::<DeployAccountTransaction, Error>(
            Error::ConversionError(ConversionError::OutOfRangeFelt),
        ),
        broadcasted_deploy_account_transaction.common.resource_bounds.fee_potential() != 0
            && starknet.is_declared(broadcasted_deploy_account_transaction.class_hash.bytes@)
            && broadcasted_deploy_account_transaction.is_canonical()
            ==> (r matches Ok(t) && t is Version3 && t.hash_view()
            == broadcasted_deploy_account_transaction.hash_spec(starknet.chain_id.bytes@)
            && t.address_view() == broadcasted_deploy_account_transaction.address_spec()
            && t.built_from(
            BroadcastedDeployAccountTransaction::V3(broadcasted_deploy_account_transaction),
        ) && starknet.admits(t)),
{
    if broadcasted_deploy_account_transaction.common.is_max_fee_zero_value() {
        return Err(Error::MaxFeeZeroError { tx_type: "deploy account transaction v3".to_owned() });
    }
    if !starknet.is_contract_declared(&broadcasted_deploy_account_transaction.class_hash) {
        return Err(
            Error::StateError(
                StateError::NoneClassHash(broadcasted_deploy_account_transaction.class_hash),
            ),
        );
    }
    if !broadcasted_deploy_account_transaction.fields_are_canonical() {
        return Err(Error::ConversionError(ConversionError::OutOfRangeFelt));
    }
    let contract_address = broadcasted_deploy_account_transaction.contract_address();
    let transaction_hash = broadcasted_deploy_account_transaction.transaction_hash(
        &starknet.chain_id,
        &contract_address,
    );
    Ok(
        DeployAccountTransaction::Version3(
            DeployAccountTransactionV3 {
                transaction_hash,
                contract_address,
                payload: broadcasted_deploy_account_transaction,
            },
        ),
    )
}

/// Two legacy payloads with the same fields, on the same chain, have the same
/// hash and the same address.
pub proof fn deploy_account_v1_identifiers_are_deterministic(
    a: BroadcastedDeployAccountTransactionV1,
    b: BroadcastedDeployAccountTransactionV1,
    chain_id: Seq<u8>,
)
    requires
        a.same(b),
    ensures
        a.hash_spec(chain_id) == b.hash_spec(chain_id),
        a.address_spec() == b.address_spec(),
{
}

/// Two V3 payloads with the same fields, on the same chain, have the same
/// hash and the same address.
pub proof fn deploy_account_v3_identifiers_are_deterministic(
    a: BroadcastedDeployAccountTransactionV3,
    b: BroadcastedDeployAccountTransactionV3,
    chain_id: Seq<u8>,
)
    requires
        a.same(b),
    ensures
        a.hash_spec(chain_id) == b.hash_spec(chain_id),
        a.address_spec() == b.address_spec(),
{
}

/// A transaction just appended to the store is what a lookup by its hash
/// finds.
pub proof fn recorded_transaction_is_found(s: Seq<StoredTransaction>, t: StoredTransaction)
    ensures
        find_by_hash(s.push(t), t.transaction.hash_view()) == Some(t),
{
    assert(s.push(t).last() == t);
}

} // verus!
