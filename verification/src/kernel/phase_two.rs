//! Intermediate representation of a transaction for phase-two (Plutus)
//! validation: an in-memory view tailored for script execution.

pub mod certificate;
pub mod datum_option;
pub mod datums;
pub mod output_reference;
pub mod redeemers;
pub mod script;
pub mod script_context;
pub mod transaction_output;
pub mod tx_info;
pub mod utxos;
pub mod value;
pub mod votes;
