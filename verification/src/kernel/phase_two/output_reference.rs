//! An input of a transaction together with the output it spends.
use vstd::prelude::*;

use crate::kernel::primitives::{MemoizedTransactionOutput, TransactionInput};

verus! {

/// An input, resolved to the output that it references.
pub struct OutputReference<'a> {
    pub input: &'a TransactionInput,
    pub output: &'a MemoizedTransactionOutput,
}

} // verus!
