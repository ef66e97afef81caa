//! The ways in which an account deployment can be refused.

use vstd::prelude::*;
use crate::felt::Felt;

verus! {

/// A refusal that comes from the ledger state.
#[derive(Debug)]
pub enum StateError {
    /// The class hash names no declared class.
    NoneClassHash(Felt),
}

/// A refusal that the execution engine reports while validating a transaction.
#[derive(Debug)]
pub enum TransactionValidationError {
    InsufficientMaxFee,
    InvalidTransactionNonce,
    InsufficientAccountBalance,
    ValidationFailure { reason: String },
}

/// A payload that cannot be turned into a transaction for the engine.
#[derive(Debug)]
pub enum ConversionError {
    /// A field holds a number that is not below the field's prime.
    OutOfRangeFelt,
}

/// Every error that admitting a deployment can end in.
#[derive(Debug)]
pub enum Error {
    /// The transaction allows no fee; `tx_type` names its kind.
    MaxFeeZeroError { tx_type: String },
    StateError(StateError),
    ConversionError(ConversionError),
    TransactionValidationError(TransactionValidationError),
    /// Any other failure of the execution engine.
    ExecutionError { reason: String },
}

/// The text of a zero-fee error for a transaction of kind `tx_type`.
pub open spec fn max_fee_zero_text(tx_type: Seq<char>) -> Seq<char> {
    tx_type + ": max_fee cannot be zero"@
}

/// The kind, then the fixed sentence.
fn max_fee_zero_message(tx_type: &String) -> (r: String)
    ensures
        r@ == max_fee_zero_text(tx_type@),
{
    let mut s = tx_type.clone();
    s.append(": max_fee cannot be zero");
    proof {
        reveal_strlit(": max_fee cannot be zero");
    }
    s
}

/// The description of each error.
pub open spec fn error_text(e: Error) -> Seq<char> {
    match e {
        Error::MaxFeeZeroError { tx_type } => max_fee_zero_text(tx_type@),
        Error::StateError(StateError::NoneClassHash(_)) => "class hash is not declared"@,
        Error::ConversionError(ConversionError::OutOfRangeFelt) => {
            "felt is not below the field prime"@
        },
        Error::TransactionValidationError(v) => match v {
            TransactionValidationError::InsufficientMaxFee => {
                "max fee is smaller than the minimal transaction cost"@
            },
            TransactionValidationError::InvalidTransactionNonce => "invalid transaction nonce"@,
            TransactionValidationError::InsufficientAccountBalance => {
                "account balance is smaller than the transaction's max fee"@
            },
            TransactionValidationError::ValidationFailure { reason } => reason@,
        },
        Error::ExecutionError { reason } => reason@,
    }
}

impl Error {
    /// A description of the error for humans.
    pub fn message(&self) -> (r: String)
        ensures
            r@ == error_text(*self),
    {
        match self {
            Error::MaxFeeZeroError { tx_type } => max_fee_zero_message(tx_type),
            Error::StateError(StateError::NoneClassHash(_)) => "class hash is not declared".to_owned(),
            Error::ConversionError(ConversionError::OutOfRangeFelt) => {
                "felt is not below the field prime".to_owned()
            },
            Error::TransactionValidationError(e) => match e {
                TransactionValidationError::InsufficientMaxFee => {
                    "max fee is smaller than the minimal transaction cost".to_owned()
                },
                TransactionValidationError::InvalidTransactionNonce => {
                    "invalid transaction nonce".to_owned()
                },
                TransactionValidationError::InsufficientAccountBalance => {
                    "account balance is smaller than the transaction's max fee".to_owned()
                },
                TransactionValidationError::ValidationFailure { reason } => reason.clone(),
            },
            Error::ExecutionError { reason } => reason.clone(),
        }
    }
}

} // verus!
