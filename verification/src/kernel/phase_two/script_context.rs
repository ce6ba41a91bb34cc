//! The context handed to a Plutus validator: the transaction, and the
//! redeemer and datum of the one script being run.
use vstd::prelude::*;

use crate::kernel::phase_two::redeemers::RedeemerEntry;
use crate::kernel::phase_two::tx_info::TxInfo;
use crate::kernel::primitives::{ExUnits, MemoizedDatum, RedeemerKey, RedeemerTag};
use crate::ordered_map::{bytes_key, seq_lookup, SortKey};
use pallas_primitives::PlutusData;

verus! {

/// The datum that a spending script sees: that of the input the redeemer
/// points to, inline or looked up by hash among the transaction's datums.
/// Other purposes, pointers past the inputs and outputs without a datum (or
/// whose hash the transaction does not supply) have none.
pub open spec fn spent_datum<'a, P>(tx_info: &'a TxInfo<'a, P>, key: RedeemerKey) -> Option<&'a PlutusData> {
    if key.tag == RedeemerTag::Spend && (key.index as int) < tx_info.inputs@.len() {
        match tx_info.inputs@[key.index as int].output.datum {
            MemoizedDatum::NoDatum => None,
            MemoizedDatum::Hash(hash) => seq_lookup(tx_info.data.0@, hash.sort_key()),
            MemoizedDatum::Inline(data) => Some(&data.data),
        }
    } else {
        None
    }
}

/// One of the arguments passed to a Plutus validator: the transaction being
/// validated, and the redeemer, datum and purpose of the script being run.
pub struct ScriptContext<'a, P> {
    pub tx_info: &'a TxInfo<'a, P>,
    pub redeemer_data: &'a PlutusData,
    pub redeemer_ex_units: ExUnits,
    pub datum: Option<&'a PlutusData>,
    pub script_purpose: &'a P,
}

impl<'a, P> ScriptContext<'a, P> {
    /// The context of the script execution that a redeemer pointer names;
    /// `None` when the transaction has no redeemer under that pointer.
    pub fn new(tx_info: &'a TxInfo<'a, P>, redeemer_key: &RedeemerKey) -> (r: Option<Self>)
        ensures
            r is Some <==> seq_lookup(tx_info.redeemers@, redeemer_key.sort_key()) is Some,
            match (r, seq_lookup(tx_info.redeemers@, redeemer_key.sort_key())) {
                (Some(context), Some(entry)) => {
                    &&& context.tx_info == tx_info
                    &&& context.redeemer_data == entry.data
                    &&& context.redeemer_ex_units == entry.ex_units
                    &&& context.script_purpose == &entry.purpose
                    &&& context.datum == spent_datum(tx_info, *redeemer_key)
                },
                _ => true,
            },
    {
        let entry: &RedeemerEntry<'a, P> = match tx_info.redeemers.get(redeemer_key) {
            Some(entry) => entry,
            None => return None,
        };
        let datum = if redeemer_key.tag == RedeemerTag::Spend {
            let index = redeemer_key.index as usize;
            if index < tx_info.inputs.len() {
                match &tx_info.inputs[index].output.datum {
                    MemoizedDatum::NoDatum => None,
                    MemoizedDatum::Hash(hash) => match tx_info.data.0.get(hash) {
                        Some(data) => Some(*data),
                        None => None,
                    },
                    MemoizedDatum::Inline(data) => Some(&data.data),
                }
            } else {
                None
            }
        } else {
            None
        };
        Some(ScriptContext {
            tx_info,
            redeemer_data: entry.data,
            redeemer_ex_units: entry.ex_units,
            datum,
            script_purpose: &entry.purpose,
        })
    }

    /// The execution units granted to the script.
    pub fn budget(&self) -> (b: &ExUnits)
        ensures
            *b == self.redeemer_ex_units,
    {
        &self.redeemer_ex_units
    }
}

/// The datum a script sees, case by case: none but for a spending redeemer
/// that points to one of the inputs; for that input's output, the inline
/// datum itself, the datum that the transaction supplies under the output's
/// datum hash, or none where the output has no datum.
pub proof fn lemma_spent_datum_cases<'a, P>(tx_info: &'a TxInfo<'a, P>, key: RedeemerKey)
    ensures
        key.tag != RedeemerTag::Spend ==> spent_datum(tx_info, key) is None,
        key.index >= tx_info.inputs@.len() ==> spent_datum(tx_info, key) is None,
        key.tag == RedeemerTag::Spend && key.index < tx_info.inputs@.len() ==> match tx_info.inputs@[key.index as int].output.datum {
            MemoizedDatum::NoDatum => spent_datum(tx_info, key) is None,
            MemoizedDatum::Inline(data) => spent_datum(tx_info, key) == Some(&data.data),
            MemoizedDatum::Hash(hash) => spent_datum(tx_info, key) == seq_lookup(tx_info.data.0@, bytes_key(hash.0@)),
        },
{
}

} // verus!
