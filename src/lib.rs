//! Admission, construction and recording of account-deployment transactions
//! for a locally simulated Starknet node.

pub mod felt;
pub mod hashing;
pub mod transaction;
pub mod errors;
pub mod starknet;
pub mod admission;
