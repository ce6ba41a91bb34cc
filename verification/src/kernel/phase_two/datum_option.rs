//! How a transaction output carries its datum, as the phase-two views borrow it.
use vstd::prelude::*;

use crate::kernel::address::Hash32;
use crate::kernel::primitives::MemoizedDatum;
use pallas_primitives::PlutusData;

verus! {

/// How an output carries its datum: not at all, only by the hash of a datum
/// (whose value the transaction's datums then supply), or inline.
#[derive(Debug, Clone, Copy)]
pub enum DatumOption<'a> {
    NoDatum,
    Hash(&'a Hash32),
    Inline(&'a PlutusData),
}

/// The borrowed view of an output's datum.
pub open spec fn datum_option_of(value: &MemoizedDatum) -> DatumOption<'_> {
    match value {
        MemoizedDatum::NoDatum => DatumOption::NoDatum,
        MemoizedDatum::Hash(hash) => DatumOption::Hash(hash),
        MemoizedDatum::Inline(data) => DatumOption::Inline(&data.data),
    }
}

/// The datum option of an optional datum hash.
pub open spec fn datum_option_of_hash(value: Option<&Hash32>) -> DatumOption<'_> {
    match value {
        Some(hash) => DatumOption::Hash(hash),
        None => DatumOption::NoDatum,
    }
}

impl<'a> From<&'a MemoizedDatum> for DatumOption<'a> {
    fn from(value: &'a MemoizedDatum) -> (d: Self) {
        match value {
            MemoizedDatum::NoDatum => DatumOption::NoDatum,
            MemoizedDatum::Hash(hash) => DatumOption::Hash(hash),
            MemoizedDatum::Inline(data) => DatumOption::Inline(&data.data),
        }
    }
}

impl<'a> vstd::std_specs::convert::FromSpecImpl<&'a MemoizedDatum> for DatumOption<'a> {
    open spec fn obeys_from_spec() -> bool {
        true
    }

    open spec fn from_spec(v: &'a MemoizedDatum) -> DatumOption<'a> {
        datum_option_of(v)
    }
}

impl<'a> From<Option<&'a Hash32>> for DatumOption<'a> {
    fn from(value: Option<&'a Hash32>) -> (d: Self) {
        match value {
            Some(hash) => DatumOption::Hash(hash),
            None => DatumOption::NoDatum,
        }
    }
}

impl<'a> vstd::std_specs::convert::FromSpecImpl<Option<&'a Hash32>> for DatumOption<'a> {
    open spec fn obeys_from_spec() -> bool {
        true
    }

    open spec fn from_spec(v: Option<&'a Hash32>) -> DatumOption<'a> {
        datum_option_of_hash(v)
    }
}

} // verus!
