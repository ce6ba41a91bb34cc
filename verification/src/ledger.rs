//! The ledger: epoch transitions and the state overlaid on the stable store.

pub mod epoch_transition;
pub mod overlay;
