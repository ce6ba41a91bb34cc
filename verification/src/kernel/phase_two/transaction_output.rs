//! The Plutus-facing view of a transaction output.
use vstd::prelude::*;

use crate::kernel::phase_two::script::{script_of, Script};
use crate::kernel::phase_two::value::{holds_assets, ledger_parts, value_entries, Value};
use crate::kernel::primitives::{MemoizedDatum, MemoizedTransactionOutput};
use crate::ordered_map::keys_increasing;
use pallas_addresses::Address;

verus! {

/// A transaction output with each part in its phase-two form: the address
/// and datum borrowed from the output, the value as Plutus sees it, and the
/// reference script, if any.
pub struct TransactionOutput<'a> {
    pub address: &'a Address,
    pub value: Value,
    pub datum: &'a MemoizedDatum,
    pub script: Option<Script<'a>>,
}

impl<'a> TransactionOutput<'a> {
    /// The phase-two view of an output.
    pub fn from_output(output: &'a MemoizedTransactionOutput) -> (t: Self)
        ensures
            t.address == &output.address,
            t.datum == &output.datum,
            holds_assets(value_entries(&t.value), ledger_parts(output.value).0, ledger_parts(output.value).1),
            keys_increasing(t.value.0@),
            t.script == (match &output.script {
                Some(s) => Some(script_of(s)),
                None => None,
            }),
    {
        let script = match &output.script {
            Some(s) => Some(Script::from(s)),
            None => None,
        };
        TransactionOutput {
            address: &output.address,
            value: Value::from_ledger_value(&output.value),
            datum: &output.datum,
            script,
        }
    }
}

} // verus!
