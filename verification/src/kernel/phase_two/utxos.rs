//! A subset of the UTxO set, from which a transaction's inputs are resolved.
use vstd::prelude::*;

use crate::kernel::phase_two::output_reference::OutputReference;
use crate::kernel::primitives::{MemoizedTransactionOutput, TransactionInput};
use crate::ordered_map::{seq_lookup, SortKey, SortedMap};

verus! {

/// A subset of the UTxO set: a map from an input to the output it references.
pub struct Utxos(SortedMap<TransactionInput, MemoizedTransactionOutput>);

impl View for Utxos {
    type V = Seq<(TransactionInput, MemoizedTransactionOutput)>;

    closed spec fn view(&self) -> Self::V {
        self.0@
    }
}

impl core::ops::Deref for Utxos {
    type Target = SortedMap<TransactionInput, MemoizedTransactionOutput>;

    /// The map from input to output.
    fn deref(&self) -> (m: &SortedMap<TransactionInput, MemoizedTransactionOutput>)
        ensures
            m@ == self@,
    {
        &self.0
    }
}

impl Utxos {
    /// The UTxOs of a map from input to output.
    pub fn from_map(map: SortedMap<TransactionInput, MemoizedTransactionOutput>) -> (u: Self)
        ensures
            u@ == map@,
    {
        Utxos(map)
    }

    /// Resolves an input to the output it references; `None` when the input
    /// is not among these UTxOs.
    pub fn resolve_input<'a>(&'a self, input: &'a TransactionInput) -> (r: Option<OutputReference<'a>>)
        ensures
            r == (match seq_lookup(self@, input.sort_key()) {
                Some(output) => Some(OutputReference { input, output: &output }),
                None => None,
            }),
    {
        match self.0.get(input) {
            Some(output) => Some(OutputReference { input, output }),
            None => None,
        }
    }
}

} // verus!
