//! Verified core of the Amaru Cardano node: the UPLC machine's cost model,
//! environments and type grammar, the phase-two (Plutus) transaction views
//! of the kernel, and the ledger's state overlay.

pub mod uplc;
pub mod ordered_map;
pub mod kernel;
pub mod ledger;
pub mod text;
pub mod version;
