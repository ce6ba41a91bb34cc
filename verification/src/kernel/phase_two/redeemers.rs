//! The redeemers of a transaction: as its witness set carries them (a list or
//! a map), and resolved into one entry per pointer, a later redeemer with the
//! same pointer replacing an earlier one.
use vstd::prelude::*;

use crate::kernel::phase_two::script::Script;
use crate::kernel::primitives::{ExUnits, RedeemerKey, RedeemerTag};
use crate::ordered_map::{last_value_for, lemma_insert_all_last_wins, seq_insert_all, seq_lookup, SortKey, SortedMap};
use pallas_primitives::PlutusData;

verus! {

/// A redeemer as a list of redeemers carries it: its pointer, its data and
/// the execution units it grants.
pub struct Redeemer {
    pub tag: RedeemerTag,
    pub index: u32,
    pub data: PlutusData,
    pub ex_units: ExUnits,
}

/// A redeemer as a map of redeemers carries it under its pointer.
pub struct RedeemerValue {
    pub data: PlutusData,
    pub ex_units: ExUnits,
}

/// The redeemers of a transaction's witness set: a list, or a map from pointer
/// to redeemer; either may name a pointer more than once.
pub enum WitnessRedeemers {
    List(Vec<Redeemer>),
    Keyed(Vec<(RedeemerKey, RedeemerValue)>),
}

/// The redeemers of a witness set, in order: pointer, data, execution units.
pub open spec fn redeemer_items(redeemers: WitnessRedeemers) -> Seq<(RedeemerKey, PlutusData, ExUnits)> {
    match redeemers {
        WitnessRedeemers::List(list) => list@.map_values(
            |r: Redeemer| (RedeemerKey { tag: r.tag, index: r.index }, r.data, r.ex_units),
        ),
        WitnessRedeemers::Keyed(map) => map@.map_values(
            |e: (RedeemerKey, RedeemerValue)| (e.0, e.1.data, e.1.ex_units),
        ),
    }
}

/// The items as pointer and (data, execution units) pairs, as a map takes them.
pub open spec fn keyed_items(items: Seq<(RedeemerKey, PlutusData, ExUnits)>) -> Seq<(RedeemerKey, (PlutusData, ExUnits))> {
    items.map_values(|i: (RedeemerKey, PlutusData, ExUnits)| (i.0, (i.1, i.2)))
}

/// A redeemer resolved against the transaction: the purpose it acts on, its
/// data and execution units, and the script it runs. Each entry is one
/// execution of a Plutus script.
pub struct RedeemerEntry<'a, P> {
    pub purpose: P,
    pub data: &'a PlutusData,
    pub ex_units: ExUnits,
    pub script: Script<'a>,
}

/// A transaction's redeemers, each resolved and indexed by its pointer: one
/// entry per pointer, in pointer order.
pub struct Redeemers<'a, P>(SortedMap<RedeemerKey, RedeemerEntry<'a, P>>);

impl<'a, P> View for Redeemers<'a, P> {
    type V = Seq<(RedeemerKey, RedeemerEntry<'a, P>)>;

    closed spec fn view(&self) -> Self::V {
        self.0@
    }
}

impl<'a, P> core::ops::Deref for Redeemers<'a, P> {
    type Target = SortedMap<RedeemerKey, RedeemerEntry<'a, P>>;

    /// The entries, keyed by pointer.
    fn deref(&self) -> (m: &SortedMap<RedeemerKey, RedeemerEntry<'a, P>>)
        ensures
            m@ == self@,
    {
        &self.0
    }
}

impl<'a, P> Redeemers<'a, P> {
    pub fn new(inner: SortedMap<RedeemerKey, RedeemerEntry<'a, P>>) -> (r: Self)
        ensures
            r@ == inner@,
    {
        Redeemers(inner)
    }

    /// The entry of a pointer, if any.
    pub fn get(&self, key: &RedeemerKey) -> (r: Option<&RedeemerEntry<'a, P>>)
        ensures
            r == (match seq_lookup(self@, key.sort_key()) {
                Some(e) => Some(&e),
                None => None,
            }),
    {
        self.0.get(key)
    }

    /// The redeemers of a witness set, in order, each with its pointer.
    pub fn iter_from(redeemers: &'a WitnessRedeemers) -> (items: Vec<(RedeemerKey, &'a PlutusData, ExUnits)>)
        ensures
            items@.len() == redeemer_items(*redeemers).len(),
            forall|i: int|
                0 <= i < items@.len() ==> {
                    let (key, data, ex_units) = #[trigger] items@[i];
                    (key, *data, ex_units) == redeemer_items(*redeemers)[i]
                },
    {
        let mut items: Vec<(RedeemerKey, &'a PlutusData, ExUnits)> = Vec::new();
        match redeemers {
            WitnessRedeemers::List(list) => {
                let mut i: usize = 0;
                while i < list.len()
                    invariant
                        *redeemers == WitnessRedeemers::List(*list),
                        i <= list@.len(),
                        items@.len() == i,
                        forall|j: int|
                            0 <= j < i ==> {
                                let (key, data, ex_units) = #[trigger] items@[j];
                                (key, *data, ex_units) == redeemer_items(*redeemers)[j]
                            },
                    decreases list@.len() - i,
                {
                    let r = &list[i];
                    items.push((RedeemerKey { tag: r.tag, index: r.index }, &r.data, r.ex_units));
                    i = i + 1;
                }
            },
            WitnessRedeemers::Keyed(map) => {
                let mut i: usize = 0;
                while i < map.len()
                    invariant
                        *redeemers == WitnessRedeemers::Keyed(*map),
                        i <= map@.len(),
                        items@.len() == i,
                        forall|j: int|
                            0 <= j < i ==> {
                                let (key, data, ex_units) = #[trigger] items@[j];
                                (key, *data, ex_units) == redeemer_items(*redeemers)[j]
                            },
                    decreases map@.len() - i,
                {
                    let (key, value) = &map[i];
                    items.push((*key, &value.data, value.ex_units));
                    i = i + 1;
                }
            },
        }
        items
    }
}

/// A pointer that several redeemers of a witness set share resolves to the
/// last of them: collecting the redeemers into a map by pointer keeps, for
/// each pointer, the data and execution units of the last redeemer with that
/// pointer, and nothing for a pointer that no redeemer names.
pub proof fn lemma_last_redeemer_wins(redeemers: WitnessRedeemers, key: RedeemerKey)
    ensures
        seq_lookup(seq_insert_all(Seq::empty(), keyed_items(redeemer_items(redeemers))), key.sort_key())
            == last_value_for(keyed_items(redeemer_items(redeemers)), key.sort_key()),
{
    lemma_insert_all_last_wins(
        Seq::<(RedeemerKey, (PlutusData, ExUnits))>::empty(),
        keyed_items(redeemer_items(redeemers)),
        key.sort_key(),
    );
}

} // verus!
