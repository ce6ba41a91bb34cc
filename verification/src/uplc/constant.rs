//! Constants of the machine.
use vstd::prelude::*;

verus! {

/// A Plutus integer, held as a 128-bit machine integer.
pub type Integer = i128;

} // verus!
