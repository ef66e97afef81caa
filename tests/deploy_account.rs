use starknet_core::crypto::compute_hash_on_elements;
use starknet_crypto::poseidon_hash_many;
use starknet_crypto::Felt as F;
use deploy_account_core::admission::{
    add_deploy_account_transaction_v1, add_deploy_account_transaction_v3,
};
use deploy_account_core::errors::{
    ConversionError, Error, StateError, TransactionValidationError,
};
use deploy_account_core::felt::Felt;
use deploy_account_core::starknet::{
    DeployAccountTransaction, DumpEvent, EngineFailure, ExecutionOutcome, Starknet,
    TransactionExecutionStatus, TransactionFinalityStatus, DEVNET_DEFAULT_CHAIN_ID,
};
use deploy_account_core::transaction::{
    BroadcastedDeployAccountTransaction, BroadcastedDeployAccountTransactionV1,
    BroadcastedDeployAccountTransactionV3, BroadcastedTransactionCommonV3, DataAvailabilityMode,
    ResourceBoundsWrapper,
};

fn felt(x: u128) -> Felt {
    Felt::from_u128(x)
}

fn test_deploy_account_transaction_v3(
    class_hash: Felt,
    nonce: u128,
    l1_gas_amount: u64,
) -> BroadcastedDeployAccountTransactionV3 {
    BroadcastedDeployAccountTransactionV3 {
        common: BroadcastedTransactionCommonV3 {
            version: felt(3),
            signature: vec![],
            nonce: felt(nonce),
            resource_bounds: ResourceBoundsWrapper::new(l1_gas_amount, 1, 0, 0),
            tip: 0,
            paymaster_data: vec![],
            nonce_data_availability_mode: DataAvailabilityMode::L1,
            fee_data_availability_mode: DataAvailabilityMode::L1,
        },
        contract_address_salt: felt(0),
        constructor_calldata: vec![],
        class_hash,
    }
}

fn test_deploy_account_transaction_v1(class_hash: Felt, fee: u128) -> BroadcastedDeployAccountTransactionV1 {
    BroadcastedDeployAccountTransactionV1::new(
        &vec![],
        fee,
        &vec![],
        felt(0),
        class_hash,
        felt(13),
        felt(1),
    )
}

/// A session on the default chain with one declared account class.
fn setup() -> (Starknet, Felt) {
    let mut starknet = Starknet::default();
    let class_hash = felt(0x1234_5678_9abc_def0);
    starknet.declare_class(class_hash);
    (starknet, class_hash)
}

fn same(a: &Felt, b: &Felt) -> bool {
    a.bytes == b.bytes
}

#[test]
fn account_deploy_transaction_v1_with_max_fee_zero_should_return_an_error() {
    let deploy_account_transaction = BroadcastedDeployAccountTransactionV1::new(
        &vec![felt(0), felt(1)],
        0,
        &vec![felt(0), felt(1)],
        felt(0),
        felt(0),
        felt(0),
        felt(0),
    );

    let starknet = Starknet::default();
    let result = add_deploy_account_transaction_v1(&starknet, deploy_account_transaction);

    assert!(result.is_err());
    match result.err().unwrap() {
        err @ Error::MaxFeeZeroError { .. } => {
            assert_eq!(err.message(), "deploy account transaction: max_fee cannot be zero")
        }
        _ => panic!("Wrong error type"),
    }
    assert!(starknet.transactions.is_empty());
    assert!(starknet.dump_events.is_empty());
}

#[test]
fn deploy_account_transaction_v3_with_max_fee_zero_should_return_an_error() {
    let (starknet, account_class_hash) = setup();
    let deploy_account_transaction = test_deploy_account_transaction_v3(account_class_hash, 0, 0);

    let txn_err =
        add_deploy_account_transaction_v3(&starknet, deploy_account_transaction).unwrap_err();
    match txn_err {
        err @ Error::MaxFeeZeroError { .. } => {
            assert_eq!(err.message(), "deploy account transaction v3: max_fee cannot be zero")
        }
        _ => panic!("Wrong error type"),
    }
}

#[test]
fn deploy_account_transaction_v1_should_return_an_error_due_to_not_enough_balance() {
    let (mut starknet, account_class_hash) = setup();

    let fee_raw: u128 = 4000;
    let transaction = test_deploy_account_transaction_v1(account_class_hash, fee_raw);
    let admitted = add_deploy_account_transaction_v1(&starknet, transaction).unwrap();

    // the account was never funded: the engine refuses it
    let outcome = ExecutionOutcome::Failed(EngineFailure::InsufficientAccountBalance);
    match starknet.handle_transaction_result(admitted, outcome).unwrap_err() {
        Error::TransactionValidationError(TransactionValidationError::InsufficientAccountBalance) => {}
        err => {
            panic!("Wrong error type: {:?}", err);
        }
    }
    assert!(starknet.transactions.is_empty());
    assert!(starknet.dump_events.is_empty());
}

#[test]
fn deploy_account_transaction_v3_should_return_an_error_due_to_not_enough_balance() {
    let (mut starknet, account_class_hash) = setup();
    let transaction = test_deploy_account_transaction_v3(account_class_hash, 0, 4000);
    let admitted = add_deploy_account_transaction_v3(&starknet, transaction).unwrap();

    let outcome = ExecutionOutcome::Failed(EngineFailure::InsufficientAccountBalance);
    match starknet.handle_transaction_result(admitted, outcome).unwrap_err() {
        Error::TransactionValidationError(TransactionValidationError::InsufficientAccountBalance) => {}
        err => {
            panic!("Wrong error type: {:?}", err);
        }
    }
    assert!(starknet.transactions.is_empty());
}

#[test]
fn deploy_account_transaction_v1_should_return_an_error_due_to_not_enough_fee() {
    let (mut starknet, account_class_hash) = setup();

    let fee_raw: u128 = 2000;
    let transaction = test_deploy_account_transaction_v1(account_class_hash, fee_raw);
    let admitted = add_deploy_account_transaction_v1(&starknet, transaction).unwrap();

    // funded with exactly the raw fee, which is below what execution costs
    let outcome = ExecutionOutcome::Failed(EngineFailure::InsufficientMaxFee);
    match starknet.handle_transaction_result(admitted, outcome).unwrap_err() {
        Error::TransactionValidationError(TransactionValidationError::InsufficientMaxFee) => {}
        err => {
            panic!("Wrong error type: {:?}", err);
        }
    }
    assert!(starknet.transactions.is_empty());
}

#[test]
fn test_deploy_account_transaction_v3_successful_execution() {
    let (mut starknet, account_class_hash) = setup();
    let transaction = test_deploy_account_transaction_v3(account_class_hash, 0, 4000);
    let expected_address = transaction.contract_address();

    let admitted = add_deploy_account_transaction_v3(&starknet, transaction).unwrap();
    let (txn_hash, address) =
        starknet.handle_transaction_result(admitted, ExecutionOutcome::Succeeded).unwrap();
    assert!(same(&address, &expected_address));

    let txn = starknet.get_by_hash(&txn_hash).unwrap();
    assert_eq!(txn.finality_status, TransactionFinalityStatus::AcceptedOnL2);
    assert_eq!(txn.execution_status, TransactionExecutionStatus::Succeeded);
    assert_eq!(starknet.dump_events.len(), 1);
    match &starknet.dump_events[0] {
        DumpEvent::AddDeployAccountTransaction(BroadcastedDeployAccountTransaction::V3(p)) => {
            assert_eq!(p.common.resource_bounds.l1_gas.max_amount, 4000);
        }
        _ => panic!("Wrong replay event"),
    }
}

#[test]
fn deploy_account_transaction_v1_successful_execution() {
    let (mut starknet, account_class_hash) = setup();
    let transaction = test_deploy_account_transaction_v1(account_class_hash, 4000);

    let admitted = add_deploy_account_transaction_v1(&starknet, transaction).unwrap();
    let (txn_hash, _) =
        starknet.handle_transaction_result(admitted, ExecutionOutcome::Succeeded).unwrap();

    let txn = starknet.get_by_hash(&txn_hash).unwrap();
    assert_eq!(txn.finality_status, TransactionFinalityStatus::AcceptedOnL2);
    assert_eq!(txn.execution_status, TransactionExecutionStatus::Succeeded);
    assert_eq!(starknet.transactions.len(), 1);
    match &starknet.dump_events[0] {
        DumpEvent::AddDeployAccountTransaction(BroadcastedDeployAccountTransaction::V1(p)) => {
            assert_eq!(p.max_fee, 4000);
            assert!(same(&p.contract_address_salt, &felt(13)));
        }
        _ => panic!("Wrong replay event"),
    }
}

#[test]
fn undeclared_class_is_refused_for_v1() {
    let (starknet, _) = setup();
    let transaction = test_deploy_account_transaction_v1(felt(77), 4000);
    match add_deploy_account_transaction_v1(&starknet, transaction).unwrap_err() {
        Error::StateError(StateError::NoneClassHash(h)) => assert!(same(&h, &felt(77))),
        err => panic!("Wrong error type: {:?}", err),
    }
}

#[test]
fn undeclared_class_is_refused_for_v3() {
    let (starknet, _) = setup();
    let transaction = test_deploy_account_transaction_v3(felt(78), 0, 4000);
    match add_deploy_account_transaction_v3(&starknet, transaction).unwrap_err() {
        Error::StateError(StateError::NoneClassHash(h)) => assert!(same(&h, &felt(78))),
        err => panic!("Wrong error type: {:?}", err),
    }
}

#[test]
fn zero_fee_is_reported_before_an_undeclared_class() {
    let starknet = Starknet::default();
    let transaction = test_deploy_account_transaction_v1(felt(5), 0);
    match add_deploy_account_transaction_v1(&starknet, transaction).unwrap_err() {
        Error::MaxFeeZeroError { tx_type } => assert_eq!(tx_type, "deploy account transaction"),
        err => panic!("Wrong error type: {:?}", err),
    }
}

#[test]
fn identical_payloads_give_identical_identifiers() {
    let (starknet, class_hash) = setup();
    let a = add_deploy_account_transaction_v3(
        &starknet,
        test_deploy_account_transaction_v3(class_hash, 2, 4000),
    )
    .unwrap();
    let b = add_deploy_account_transaction_v3(
        &starknet,
        test_deploy_account_transaction_v3(class_hash, 2, 4000),
    )
    .unwrap();
    assert!(same(&a.transaction_hash(), &b.transaction_hash()));
    assert!(same(&a.contract_address(), &b.contract_address()));

    let c = add_deploy_account_transaction_v3(
        &starknet,
        test_deploy_account_transaction_v3(class_hash, 3, 4000),
    )
    .unwrap();
    assert!(!same(&a.transaction_hash(), &c.transaction_hash()));
    assert!(same(&a.contract_address(), &c.contract_address()));
}

#[test]
fn identical_v1_payloads_give_identical_identifiers() {
    let (starknet, class_hash) = setup();
    let a = add_deploy_account_transaction_v1(&starknet, test_deploy_account_transaction_v1(class_hash, 4000))
        .unwrap();
    let b = add_deploy_account_transaction_v1(&starknet, test_deploy_account_transaction_v1(class_hash, 4000))
        .unwrap();
    let c = add_deploy_account_transaction_v1(&starknet, test_deploy_account_transaction_v1(class_hash, 4001))
        .unwrap();
    assert!(same(&a.transaction_hash(), &b.transaction_hash()));
    assert!(!same(&a.transaction_hash(), &c.transaction_hash()));
    assert!(same(&a.contract_address(), &c.contract_address()));
}

#[test]
fn v1_identifiers_follow_the_pedersen_rule() {
    let (starknet, class_hash) = setup();
    let transaction = BroadcastedDeployAccountTransactionV1::new(
        &vec![felt(9), felt(10)],
        4000,
        &vec![],
        felt(0),
        class_hash,
        felt(13),
        felt(1),
    );
    let admitted = add_deploy_account_transaction_v1(&starknet, transaction).unwrap();

    let class = F::from(0x1234_5678_9abc_def0u128);
    let calldata = [F::from(9u8), F::from(10u8)];
    let address = starknet_core::utils::get_contract_address(F::from(13u8), class, &calldata, F::ZERO);
    let inner = compute_hash_on_elements(&[class, F::from(13u8), F::from(9u8), F::from(10u8)]);
    let expected = compute_hash_on_elements(&[
        F::from_bytes_be_slice(b"deploy_account"),
        F::ONE,
        address,
        F::ZERO,
        inner,
        F::from(4000u32),
        F::from(DEVNET_DEFAULT_CHAIN_ID),
        F::ZERO,
    ]);
    assert_eq!(admitted.contract_address().bytes, address.to_bytes_be());
    assert_eq!(admitted.transaction_hash().bytes, expected.to_bytes_be());
}

#[test]
fn v3_hash_follows_the_poseidon_rule() {
    let (starknet, class_hash) = setup();
    let mut transaction = test_deploy_account_transaction_v3(class_hash, 1, 4000);
    transaction.common.tip = 5;
    transaction.common.resource_bounds = ResourceBoundsWrapper::new(4000, 7, 2, 3);
    transaction.common.nonce_data_availability_mode = DataAvailabilityMode::L2;
    let admitted = add_deploy_account_transaction_v3(&starknet, transaction).unwrap();

    let class = F::from(0x1234_5678_9abc_def0u128);
    let address = starknet_core::utils::get_contract_address(F::ZERO, class, &[], F::ZERO);
    let two_128 = F::from(u128::MAX) + F::ONE;
    let l1 = F::from_bytes_be_slice(b"L1_GAS") * two_128 * F::from(1u128 << 64)
        + F::from(4000u32) * two_128
        + F::from(7u8);
    let l2 = F::from_bytes_be_slice(b"L2_GAS") * two_128 * F::from(1u128 << 64)
        + F::from(2u8) * two_128
        + F::from(3u8);
    let expected = poseidon_hash_many(&[
        F::from_bytes_be_slice(b"deploy_account"),
        F::from(3u8),
        address,
        poseidon_hash_many(&[F::from(5u8), l1, l2]),
        poseidon_hash_many(&[]),
        F::from(DEVNET_DEFAULT_CHAIN_ID),
        F::ONE,
        F::from(1u64 << 32),
        poseidon_hash_many(&[]),
        class,
        F::ZERO,
    ]);
    assert_eq!(admitted.transaction_hash().bytes, expected.to_bytes_be());
}

#[test]
fn reverted_execution_is_recorded_and_logged() {
    let (mut starknet, class_hash) = setup();
    let admitted = add_deploy_account_transaction_v1(
        &starknet,
        test_deploy_account_transaction_v1(class_hash, 4000),
    )
    .unwrap();
    let outcome = ExecutionOutcome::Reverted { reason: "out of gas".to_string() };
    let (hash, _) = starknet.handle_transaction_result(admitted, outcome).unwrap();
    let txn = starknet.get_by_hash(&hash).unwrap();
    assert_eq!(txn.finality_status, TransactionFinalityStatus::AcceptedOnL2);
    assert_eq!(txn.execution_status, TransactionExecutionStatus::Reverted);
    assert_eq!(txn.revert_reason.as_deref(), Some("out of gas"));
    assert_eq!(starknet.dump_events.len(), 1);
}

#[test]
fn other_engine_failures_are_propagated() {
    let (mut starknet, class_hash) = setup();
    let admitted = add_deploy_account_transaction_v1(
        &starknet,
        test_deploy_account_transaction_v1(class_hash, 4000),
    )
    .unwrap();
    let outcome = ExecutionOutcome::Failed(EngineFailure::Other { reason: "boom".to_string() });
    match starknet.handle_transaction_result(admitted, outcome).unwrap_err() {
        Error::ExecutionError { reason } => assert_eq!(reason, "boom"),
        err => panic!("Wrong error type: {:?}", err),
    }
    assert!(starknet.dump_events.is_empty());
}

#[test]
fn replay_log_keeps_submission_order() {
    let (mut starknet, class_hash) = setup();
    for fee in [4000u128, 4001, 4002] {
        let admitted = add_deploy_account_transaction_v1(
            &starknet,
            test_deploy_account_transaction_v1(class_hash, fee),
        )
        .unwrap();
        starknet.handle_transaction_result(admitted, ExecutionOutcome::Succeeded).unwrap();
    }
    let fees: Vec<u128> = starknet
        .dump_events
        .iter()
        .map(|e| match e {
            DumpEvent::AddDeployAccountTransaction(BroadcastedDeployAccountTransaction::V1(p)) => {
                p.max_fee
            }
            _ => 0,
        })
        .collect();
    assert_eq!(fees, vec![4000, 4001, 4002]);
    assert_eq!(starknet.transactions.len(), 3);
    match &starknet.transactions[2].transaction {
        DeployAccountTransaction::Version1(t) => assert_eq!(t.payload.max_fee, 4002),
        _ => panic!("Wrong record"),
    }
}

#[test]
fn fee_potential_is_zero_only_without_any_chargeable_resource() {
    let (starknet, class_hash) = setup();
    let mut transaction = test_deploy_account_transaction_v3(class_hash, 0, 0);
    transaction.common.resource_bounds = ResourceBoundsWrapper::new(0, 5, 7, 0);
    assert!(transaction.common.is_max_fee_zero_value());
    assert!(add_deploy_account_transaction_v3(&starknet, transaction).is_err());

    let mut transaction = test_deploy_account_transaction_v3(class_hash, 0, 0);
    transaction.common.resource_bounds = ResourceBoundsWrapper::new(0, 0, 1, 1);
    assert!(!transaction.common.is_max_fee_zero_value());
    assert!(add_deploy_account_transaction_v3(&starknet, transaction).is_ok());
}

#[test]
fn felt_from_u128_is_big_endian() {
    let f = felt(0x0102);
    let mut expected = [0u8; 32];
    expected[30] = 1;
    expected[31] = 2;
    assert_eq!(f.bytes, expected);
    assert_eq!(Felt::zero().bytes, [0u8; 32]);
    assert!(felt(7).same_as(&felt(7)));
    assert!(!felt(7).same_as(&felt(8)));
}

fn prime() -> Felt {
    let mut bytes = [0u8; 32];
    bytes[0] = 0x08;
    bytes[7] = 0x11;
    bytes[31] = 0x01;
    Felt { bytes }
}

#[test]
fn felt_canonical_bound_is_the_prime() {
    let p = prime();
    assert!(!p.is_canonical());
    let mut below = p;
    below.bytes[31] = 0;
    assert!(below.is_canonical());
    assert!(Felt { bytes: [0xff; 32] }.is_canonical() == false);
    assert!(felt(u128::MAX).is_canonical());
}

#[test]
fn out_of_range_felt_is_a_conversion_error() {
    let (starknet, class_hash) = setup();
    let transaction = BroadcastedDeployAccountTransactionV1::new(
        &vec![prime()],
        4000,
        &vec![],
        felt(0),
        class_hash,
        felt(13),
        felt(1),
    );
    let err = add_deploy_account_transaction_v1(&starknet, transaction).unwrap_err();
    match &err {
        Error::ConversionError(ConversionError::OutOfRangeFelt) => {}
        err => panic!("Wrong error type: {:?}", err),
    }
    assert_eq!(err.message(), "felt is not below the field prime");

    let mut transaction = test_deploy_account_transaction_v3(class_hash, 0, 4000);
    transaction.contract_address_salt = prime();
    match add_deploy_account_transaction_v3(&starknet, transaction).unwrap_err() {
        Error::ConversionError(ConversionError::OutOfRangeFelt) => {}
        err => panic!("Wrong error type: {:?}", err),
    }
}
