//! Currencies, and the assets a transaction mints and burns.
use vstd::prelude::*;

use crate::kernel::address::Hash28;
use crate::kernel::primitives::AssetName;
use crate::ordered_map::{lemma_insert_all_map_values, map_entry_values, seq_insert_all, SortedMap};

verus! {

/// An identifier for a currency in a value, used to give a value's Plutus
/// representation its canonical order: lovelace (encoded as the empty byte
/// string) always sorts ahead of native assets.
#[derive(Debug, Copy, Clone, PartialEq, Eq, PartialOrd, Ord, Hash)]
pub enum CurrencySymbol {
    Lovelace,
    Native(Hash28),
}

/// The assets of a policy's bundle, borrowed by name, in order.
pub open spec fn bundle_amounts<'a>(bundle: Seq<(AssetName, i64)>) -> Seq<(&'a AssetName, i64)> {
    bundle.map_values(|p: (AssetName, i64)| (&p.0, p.1))
}

/// Each policy with the map of its bundle's amounts, inserted in order.
pub open spec fn mint_by_policy<'a>(
    mint: Seq<(Hash28, Vec<(AssetName, i64)>)>,
) -> Seq<(Hash28, Seq<(&'a AssetName, i64)>)> {
    mint.map_values(
        |e: (Hash28, Vec<(AssetName, i64)>)| (e.0, seq_insert_all(Seq::empty(), bundle_amounts(e.1@))),
    )
}

/// The assets minted and burned by a transaction: from a minting policy to
/// that policy's assets, each with a signed quantity (positive mints,
/// negative burns). Unlike a value, it has no lovelace entry: only native
/// assets are minted or burned.
pub struct PlutusMint<'a>(pub SortedMap<Hash28, SortedMap<&'a AssetName, i64>>);

/// The mint as nested entries: each policy with its amounts by asset.
pub open spec fn mint_view<'a>(mint: &PlutusMint<'a>) -> Seq<(Hash28, Seq<(&'a AssetName, i64)>)> {
    map_entry_values(mint.0@, |m: SortedMap<&'a AssetName, i64>| m@)
}

impl<'a> Default for PlutusMint<'a> {
    fn default() -> (m: Self)
        ensures
            m.0@ == Seq::<(Hash28, SortedMap<&'a AssetName, i64>)>::empty(),
    {
        PlutusMint(SortedMap::new())
    }
}

impl<'a> PlutusMint<'a> {
    /// The mint of a transaction's mint field: the assets of a policy
    /// inserted in order, then the policies in order, so that a later entry
    /// for the same policy or asset replaces an earlier one.
    pub fn from_mint(mint: &'a Vec<(Hash28, Vec<(AssetName, i64)>)>) -> (m: PlutusMint<'a>)
        ensures
            mint_view(&m) == seq_insert_all(Seq::empty(), mint_by_policy(mint@)),
    {
        let mut by_policy: Vec<(Hash28, SortedMap<&'a AssetName, i64>)> = Vec::new();
        let mut i: usize = 0;
        while i < mint.len()
            invariant
                i <= mint@.len(),
                map_entry_values(by_policy@, |m: SortedMap<&'a AssetName, i64>| m@) == mint_by_policy(
                    mint@.take(i as int),
                ),
            decreases mint@.len() - i,
        {
            let (policy, bundle) = &mint[i];
            let mut amounts: Vec<(&'a AssetName, i64)> = Vec::new();
            let mut j: usize = 0;
            while j < bundle.len()
                invariant
                    j <= bundle@.len(),
                    amounts@ == bundle_amounts(bundle@.take(j as int)),
                decreases bundle@.len() - j,
            {
                let (name, amount) = &bundle[j];
                amounts.push((name, *amount));
                proof {
                    assert(bundle_amounts(bundle@.take(j + 1)) =~= bundle_amounts(bundle@.take(j as int)).push(
                        (name, *amount),
                    ));
                }
                j = j + 1;
            }
            proof {
                assert(bundle@.take(j as int) =~= bundle@);
            }
            let ghost before = by_policy@;
            by_policy.push((*policy, SortedMap::from_pairs(amounts)));
            proof {
                assert(mint@.take(i + 1) =~= mint@.take(i as int).push(mint@[i as int]));
                assert(map_entry_values(by_policy@, |m: SortedMap<&'a AssetName, i64>| m@) =~= map_entry_values(
                    before,
                    |m: SortedMap<&'a AssetName, i64>| m@,
                ).push(mint_by_policy(mint@.take(i + 1)).last()));
                assert(mint_by_policy(mint@.take(i + 1)) =~= mint_by_policy(mint@.take(i as int)).push(
                    mint_by_policy(mint@.take(i + 1)).last(),
                ));
            }
            i = i + 1;
        }
        proof {
            assert(mint@.take(i as int) =~= mint@);
            let f = |m: SortedMap<&'a AssetName, i64>| m@;
            lemma_insert_all_map_values(Seq::empty(), by_policy@, f);
            assert(map_entry_values(Seq::<(Hash28, SortedMap<&'a AssetName, i64>)>::empty(), f) =~= Seq::empty());
        }
        PlutusMint(SortedMap::from_pairs(by_policy))
    }
}

} // verus!
