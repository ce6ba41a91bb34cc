//! Untyped Plutus Core: the CEK machine's data, its cost model and the type grammar.

pub mod arena;
pub mod constant;
pub mod ex_budget;
pub mod encode_error;
pub mod env;
pub mod context;
pub mod state;
pub mod syn;
pub mod typ;
pub mod zigzag;
pub mod cost_map;
pub mod machine_costs;
