//! The textual syntax of Untyped Plutus Core.

pub mod typ;
