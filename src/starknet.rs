//! The session of a simulated node: admission of account deployments, their
//! record, and the replay log.

use vstd::prelude::*;
use crate::felt::{Felt, u128_felt};
use crate::errors::{Error, StateError, TransactionValidationError};
use crate::transaction::{
    BroadcastedDeployAccountTransaction, BroadcastedDeployAccountTransactionV1,
    BroadcastedDeployAccountTransactionV3,
};

verus! {

/// The chain that a session runs on unless told otherwise: "SN_SEPOLIA".
pub const DEVNET_DEFAULT_CHAIN_ID: u128 = 0x534e5f5345504f4c4941;

/// A legacy deployment as it is recorded, with its derived identifiers.
#[derive(Debug)]
pub struct DeployAccountTransactionV1 {
    pub transaction_hash: Felt,
    pub contract_address: Felt,
    pub payload: BroadcastedDeployAccountTransactionV1,
}

/// A V3 deployment as it is recorded, with its derived identifiers.
#[derive(Debug)]
pub struct DeployAccountTransactionV3 {
    pub transaction_hash: Felt,
    pub contract_address: Felt,
    pub payload: BroadcastedDeployAccountTransactionV3,
}

/// A deployment that passed admission, ready for the execution engine.
#[derive(Debug)]
pub enum DeployAccountTransaction {
    Version1(DeployAccountTransactionV1),
    Version3(DeployAccountTransactionV3),
}

impl DeployAccountTransaction {
    pub open spec fn hash_view(self) -> Seq<u8> {
        match self {
            DeployAccountTransaction::Version1(t) => t.transaction_hash.bytes@,
            DeployAccountTransaction::Version3(t) => t.transaction_hash.bytes@,
        }
    }

    pub open spec fn address_view(self) -> Seq<u8> {
        match self {
            DeployAccountTransaction::Version1(t) => t.contract_address.bytes@,
            DeployAccountTransaction::Version3(t) => t.contract_address.bytes@,
        }
    }

    /// Whether `p` is the payload that this transaction was built from.
    pub open spec fn built_from(self, p: BroadcastedDeployAccountTransaction) -> bool {
        match (self, p) {
            (DeployAccountTransaction::Version1(t), BroadcastedDeployAccountTransaction::V1(b)) => {
                t.payload.same(b)
            },
            (DeployAccountTransaction::Version3(t), BroadcastedDeployAccountTransaction::V3(b)) => {
                t.payload.same(b)
            },
            _ => false,
        }
    }

    pub fn transaction_hash(&self) -> (r: Felt)
        ensures
            r.bytes@ == self.hash_view(),
    {
        match self {
            DeployAccountTransaction::Version1(t) => t.transaction_hash,
            DeployAccountTransaction::Version3(t) => t.transaction_hash,
        }
    }

    pub fn contract_address(&self) -> (r: Felt)
        ensures
            r.bytes@ == self.address_view(),
    {
        match self {
            DeployAccountTransaction::Version1(t) => t.contract_address,
            DeployAccountTransaction::Version3(t) => t.contract_address,
        }
    }

    /// A copy of the payload, tagged with its version.
    pub fn broadcasted(&self) -> (r: BroadcastedDeployAccountTransaction)
        ensures
            self.built_from(r),
    {
        match self {
            DeployAccountTransaction::Version1(t) => {
                BroadcastedDeployAccountTransaction::V1(t.payload.duplicate())
            },
            DeployAccountTransaction::Version3(t) => {
                BroadcastedDeployAccountTransaction::V3(t.payload.duplicate())
            },
        }
    }
}

/// Why the execution engine refused a transaction.
#[derive(Debug)]
pub enum EngineFailure {
    InsufficientMaxFee,
    InvalidTransactionNonce,
    InsufficientAccountBalance,
    ValidationFailure { reason: String },
    Other { reason: String },
}

/// What the execution engine reports after running a transaction.
#[derive(Debug)]
pub enum ExecutionOutcome {
    /// Executed, and its logic succeeded.
    Succeeded,
    /// Executed and charged, but its logic reverted.
    Reverted { reason: String },
    /// Not executed: the engine refused it.
    Failed(EngineFailure),
}

/// Whether a transaction is part of the simulated ledger.
#[derive(Clone, Copy, Debug, PartialEq, Eq, Structural)]
pub enum TransactionFinalityStatus {
    AcceptedOnL2,
}

/// Whether an included transaction's logic succeeded.
#[derive(Clone, Copy, Debug, PartialEq, Eq, Structural)]
pub enum TransactionExecutionStatus {
    Succeeded,
    Reverted,
}

/// A transaction in the store, with its statuses.
#[derive(Debug)]
pub struct StoredTransaction {
    pub transaction: DeployAccountTransaction,
    pub finality_status: TransactionFinalityStatus,
    pub execution_status: TransactionExecutionStatus,
    pub revert_reason: Option<String>,
}

/// An entry of the replay log.
#[derive(Debug)]
pub enum DumpEvent {
    AddDeployAccountTransaction(BroadcastedDeployAccountTransaction),
}

/// The session state that admission reads and recording extends.
#[derive(Debug)]
pub struct Starknet {
    pub chain_id: Felt,
    pub declared_classes: Vec<Felt>,
    pub transactions: Vec<StoredTransaction>,
    pub dump_events: Vec<DumpEvent>,
}

/// The last transaction of `s` whose hash is `h`.
pub open spec fn find_by_hash(s: Seq<StoredTransaction>, h: Seq<u8>) -> Option<StoredTransaction>
    decreases s.len(),
{
    if s.len() == 0 {
        None
    } else if s.last().transaction.hash_view() == h {
        Some(s.last())
    } else {
        find_by_hash(s.drop_last(), h)
    }
}

/// The error that the engine's refusal becomes.
pub open spec fn failure_error(f: EngineFailure) -> Error {
    match f {
        EngineFailure::InsufficientMaxFee => Error::TransactionValidationError(
            TransactionValidationError::InsufficientMaxFee,
        ),
        EngineFailure::InvalidTransactionNonce => Error::TransactionValidationError(
            TransactionValidationError::InvalidTransactionNonce,
        ),
        EngineFailure::InsufficientAccountBalance => Error::TransactionValidationError(
            TransactionValidationError::InsufficientAccountBalance,
        ),
        EngineFailure::ValidationFailure { reason } => Error::TransactionValidationError(
            TransactionValidationError::ValidationFailure { reason },
        ),
        EngineFailure::Other { reason } => Error::ExecutionError { reason },
    }
}

fn to_error(f: EngineFailure) -> (r: Error)
    ensures
        r == failure_error(f),
{
    match f {
        EngineFailure::InsufficientMaxFee => Error::TransactionValidationError(
            TransactionValidationError::InsufficientMaxFee,
        ),
        EngineFailure::InvalidTransactionNonce => Error::TransactionValidationError(
            TransactionValidationError::InvalidTransactionNonce,
        ),
        EngineFailure::InsufficientAccountBalance => Error::TransactionValidationError(
            TransactionValidationError::InsufficientAccountBalance,
        ),
        EngineFailure::ValidationFailure { reason } => Error::TransactionValidationError(
            TransactionValidationError::ValidationFailure { reason },
        ),
        EngineFailure::Other { reason } => Error::ExecutionError { reason },
    }
}

impl Default for Starknet {
    /// An empty session on the default chain.
    fn default() -> (r: Starknet)
        ensures
            r.chain_id.bytes@ == u128_felt(DEVNET_DEFAULT_CHAIN_ID),
            r.declared_classes@.len() == 0,
            r.transactions@.len() == 0,
            r.dump_events@.len() == 0,
    {
        Starknet::new(Felt::from_u128(DEVNET_DEFAULT_CHAIN_ID))
    }
}

impl Starknet {
    /// Whether `t` is what admission builds in this session: its payload
    /// allows a fee, names a declared class and holds only field elements,
    /// and its hash and address are the ones derived from that payload on
    /// this session's chain.
    pub open spec fn admits(self, t: DeployAccountTransaction) -> bool {
        match t {
            DeployAccountTransaction::Version1(x) => {
                &&& x.payload.max_fee != 0
                &&& self.is_declared(x.payload.class_hash.bytes@)
                &&& x.payload.is_canonical()
                &&& x.transaction_hash.bytes@ == x.payload.hash_spec(self.chain_id.bytes@)
                &&& x.contract_address.bytes@ == x.payload.address_spec()
            },
            DeployAccountTransaction::Version3(x) => {
                &&& x.payload.common.resource_bounds.fee_potential() != 0
                &&& self.is_declared(x.payload.class_hash.bytes@)
                &&& x.payload.is_canonical()
                &&& x.transaction_hash.bytes@ == x.payload.hash_spec(self.chain_id.bytes@)
                &&& x.contract_address.bytes@ == x.payload.address_spec()
            },
        }
    }

    /// Whether the class `h` is declared.
    pub open spec fn is_declared(self, h: Seq<u8>) -> bool {
        exists|i: int| 0 <= i < self.declared_classes@.len() && #[trigger] self.declared_classes@[i].bytes@ == h
    }

    /// An empty session on the chain `chain_id`.
    pub fn new(chain_id: Felt) -> (r: Starknet)
        ensures
            r.chain_id == chain_id,
            r.declared_classes@.len() == 0,
            r.transactions@.len() == 0,
            r.dump_events@.len() == 0,
    {
        Starknet {
            chain_id,
            declared_classes: Vec::new(),
            transactions: Vec::new(),
            dump_events: Vec::new(),
        }
    }

    /// Makes the class `class_hash` known to the session.
    pub fn declare_class(&mut self, class_hash: Felt)
        ensures
            final(self).chain_id == old(self).chain_id,
            final(self).declared_classes@ == old(self).declared_classes@.push(class_hash),
            final(self).transactions@ == old(self).transactions@,
            final(self).dump_events@ == old(self).dump_events@,
    {
        self.declared_classes.push(class_hash);
    }

    /// Whether the class `class_hash` is declared.
    pub fn is_contract_declared(&self, class_hash: &Felt) -> (r: bool)
        ensures
            r == self.is_declared(class_hash.bytes@),
    {
        let mut i: usize = 0;
        while i < self.declared_classes.len()
            invariant
                i <= self.declared_classes@.len(),
                forall|j: int| 0 <= j < i ==> self.declared_classes@[j].bytes@ != class_hash.bytes@,
            decreases self.declared_classes@.len() - i,
        {
            if self.declared_classes[i].same_as(class_hash) {
                return true;
            }
            i = i + 1;
        }
        false
    }

    /// The last recorded transaction with the hash `hash`.
    pub fn get_by_hash(&self, hash: &Felt) -> (r: Option<&StoredTransaction>)
        ensures
            r.is_some() == find_by_hash(self.transactions@, hash.bytes@).is_some(),
            r.is_some() ==> *r.unwrap() == find_by_hash(self.transactions@, hash.bytes@).unwrap(),
    {
        let mut i: usize = self.transactions.len();
        assert(self.transactions@.subrange(0, i as int) =~= self.transactions@);
        while i > 0
            invariant
                i <= self.transactions@.len(),
                find_by_hash(self.transactions@, hash.bytes@)
                    == find_by_hash(self.transactions@.subrange(0, i as int), hash.bytes@),
            decreases i,
        {
            let ghost prefix = self.transactions@.subrange(0, i as int);
            assert(prefix.drop_last() =~= self.transactions@.subrange(0, i - 1));
            let t = &self.transactions[i - 1];
            let h = t.transaction.transaction_hash();
            if h.same_as(hash) {
                return Some(t);
            }
            i = i - 1;
        }
        assert(self.transactions@.subrange(0, 0) =~= Seq::<StoredTransaction>::empty());
        None
    }

    /// Records a transaction that admission built in this session with what the execution engine
    /// reported for it, and appends its payload to the replay log.
    ///
    /// A refusal by the engine records nothing and becomes the matching error.
    /// Otherwise the transaction is stored as accepted, succeeded or reverted
    /// after the engine's verdict, and its payload is logged; the result is
    /// its hash and address.
    pub fn handle_transaction_result(
        &mut self,
        transaction: DeployAccountTransaction,
        outcome: ExecutionOutcome,
    ) -> (r: Result<(Felt, Felt), Error>)
        requires
            old(self).admits(transaction),
        ensures
            final(self).chain_id == old(self).chain_id,
            final(self).declared_classes@ == old(self).declared_classes@,
            outcome matches ExecutionOutcome::Failed(f) ==> {
                &&& r == Err::<(Felt, Felt), Error>(failure_error(f))
                &&& final(self).transactions@ == old(self).transactions@
                &&& final(self).dump_events@ == old(self).dump_events@
            },
            !(outcome is Failed) ==> {
                &&& r is Ok
                &&& r->Ok_0.0.bytes@ == transaction.hash_view()
                &&& r->Ok_0.1.bytes@ == transaction.address_view()
                &&& final(self).transactions@.len() == old(self).transactions@.len() + 1
                &&& final(self).transactions@.drop_last() == old(self).transactions@
                &&& final(self).transactions@.last().transaction == transaction
                &&& final(self).transactions@.last().finality_status
                    == TransactionFinalityStatus::AcceptedOnL2
                &&& final(self).transactions@.last().execution_status == (if outcome is Succeeded {
                    TransactionExecutionStatus::Succeeded
                } else {
                    TransactionExecutionStatus::Reverted
                })
                &&& final(self).transactions@.last().revert_reason == match outcome {
                    ExecutionOutcome::Reverted { reason } => Some(reason),
                    _ => None,
                }
                &&& final(self).dump_events@.len() == old(self).dump_events@.len() + 1
                &&& final(self).dump_events@.drop_last() == old(self).dump_events@
                &&& final(self).dump_events@.last() matches DumpEvent::AddDeployAccountTransaction(p)
                    && transaction.built_from(p)
            },
    {
        let (execution_status, revert_reason) = match outcome {
            ExecutionOutcome::Failed(f) => {
                return Err(to_error(f));
            },
            ExecutionOutcome::Succeeded => (TransactionExecutionStatus::Succeeded, None),
            ExecutionOutcome::Reverted { reason } => (
                TransactionExecutionStatus::Reverted,
                Some(reason),
            ),
        };
        let hash = transaction.transaction_hash();
        let address = transaction.contract_address();
        let payload = transaction.broadcasted();
        self.transactions.push(
            StoredTransaction {
                transaction,
                finality_status: TransactionFinalityStatus::AcceptedOnL2,
                execution_status,
                revert_reason,
            },
        );
        self.dump_events.push(DumpEvent::AddDeployAccountTransaction(payload));
        assert(self.transactions@.drop_last() =~= old(self).transactions@);
        assert(self.dump_events@.drop_last() =~= old(self).dump_events@);
        Ok((hash, address))
    }
}

} // verus!
