//! The parts of a transaction's info that a script context reads.
use vstd::prelude::*;

use crate::kernel::phase_two::datums::Datums;
use crate::kernel::phase_two::output_reference::OutputReference;
use crate::kernel::phase_two::redeemers::Redeemers;

verus! {

/// The information about a transaction that a script context points into:
/// its spent inputs (resolved, in order), its redeemers by pointer, and the
/// datums it supplies by hash. `P` is the type of the redeemers' purposes.
pub struct TxInfo<'a, P> {
    pub inputs: Vec<OutputReference<'a>>,
    pub redeemers: Redeemers<'a, P>,
    pub data: Datums<'a>,
}

} // verus!
