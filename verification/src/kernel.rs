//! The node's kernel: addresses and the phase-two (Plutus) views of a transaction.

pub mod address;
pub mod global_parameters;
pub mod withdrawals;
pub mod primitives;
pub mod redeemer_tag;
pub mod required_signers;
pub mod time_range;
pub mod phase_two;
pub mod value;
