//! Values as Plutus sees them: one map from currency to assets, in which
//! lovelace is the asset with the empty name under its own currency.
use vstd::prelude::*;

use crate::kernel::address::Hash28;
use crate::kernel::primitives::{lemma_order_cons, AssetName, LedgerValue};
use crate::ordered_map::{
    bytes_key, keys_increasing, last_value_for, lemma_insert_all_last_wins, lemma_insert_all_push,
    lemma_insert_increasing, lemma_lookup_insert, lemma_lookup_map_values, lemma_order_equal,
    map_entry_values, seq_insert_all, seq_lookup, seq_order, KeyOrder, SortKey, SortedMap,
};

verus! {

/// An identifier for a currency in a [`Value`]: lovelace, or the native
/// assets of a minting policy. Lovelace sorts ahead of every policy.
#[derive(Debug, Copy, Clone, PartialEq, Eq, PartialOrd, Ord, Hash)]
pub enum CurrencySymbol {
    Lovelace,
    Native(Hash28),
}

impl SortKey for CurrencySymbol {
    open spec fn sort_key(&self) -> Seq<int> {
        match self {
            CurrencySymbol::Lovelace => seq![0int],
            CurrencySymbol::Native(h) => seq![1int] + h.sort_key(),
        }
    }

    fn compare(&self, other: &Self) -> (o: KeyOrder) {
        proof {
            let k0 = self.sort_key();
            let k1 = other.sort_key();
            assert(seq![0int] =~= seq![0int] + Seq::<int>::empty());
            match (self, other) {
                (CurrencySymbol::Lovelace, CurrencySymbol::Lovelace) => {
                    lemma_order_equal(k0, k1);
                },
                (CurrencySymbol::Lovelace, CurrencySymbol::Native(h)) => {
                    lemma_order_cons(0, Seq::empty(), 1, h.sort_key());
                },
                (CurrencySymbol::Native(h), CurrencySymbol::Lovelace) => {
                    lemma_order_cons(1, h.sort_key(), 0, Seq::empty());
                },
                (CurrencySymbol::Native(g), CurrencySymbol::Native(h)) => {
                    lemma_order_cons(1, g.sort_key(), 1, h.sort_key());
                },
            }
        }
        match (self, other) {
            (CurrencySymbol::Lovelace, CurrencySymbol::Lovelace) => KeyOrder::Equal,
            (CurrencySymbol::Lovelace, CurrencySymbol::Native(_)) => KeyOrder::Less,
            (CurrencySymbol::Native(_), CurrencySymbol::Lovelace) => KeyOrder::Greater,
            (CurrencySymbol::Native(g), CurrencySymbol::Native(h)) => g.compare(h),
        }
    }
}

impl From<Hash28> for CurrencySymbol {
    fn from(value: Hash28) -> (c: Self) {
        CurrencySymbol::Native(value)
    }
}

impl vstd::std_specs::convert::FromSpecImpl<Hash28> for CurrencySymbol {
    open spec fn obeys_from_spec() -> bool {
        true
    }

    open spec fn from_spec(v: Hash28) -> CurrencySymbol {
        CurrencySymbol::Native(v)
    }
}

/// A value as Plutus sees it: a map from currency to a map from asset name to amount.
pub struct Value(pub SortedMap<CurrencySymbol, SortedMap<AssetName, u64>>);

/// The assets of a value, each currency with the entries of its asset map.
pub open spec fn value_entries(v: &Value) -> Seq<(CurrencySymbol, Seq<(AssetName, u64)>)> {
    map_entry_values(v.0@, |m: SortedMap<AssetName, u64>| m@)
}

/// The amount of an asset in the entries of a value.
pub open spec fn amount_of(
    entries: Seq<(CurrencySymbol, Seq<(AssetName, u64)>)>,
    currency: CurrencySymbol,
    name: Seq<u8>,
) -> Option<u64> {
    match seq_lookup(entries, currency.sort_key()) {
        Some(assets) => seq_lookup(assets, bytes_key(name)),
        None => None,
    }
}

/// The amount of an asset given lovelace and bundles of native assets by
/// policy: the lovelace under the empty name, or what the last bundle of the
/// policy says of the name.
pub open spec fn assets_amount(
    coin: u64,
    assets: Seq<(Hash28, Vec<(AssetName, u64)>)>,
    currency: CurrencySymbol,
    name: Seq<u8>,
) -> Option<u64> {
    match currency {
        CurrencySymbol::Lovelace => if name.len() == 0 {
            Some(coin)
        } else {
            None
        },
        CurrencySymbol::Native(policy) => match last_value_for(assets, policy.sort_key()) {
            Some(bundle) => last_value_for(bundle@, bytes_key(name)),
            None => None,
        },
    }
}

/// Whether lovelace and bundles name a currency: lovelace always, a policy
/// when one of its bundles does.
pub open spec fn assets_have(assets: Seq<(Hash28, Vec<(AssetName, u64)>)>, currency: CurrencySymbol) -> bool {
    match currency {
        CurrencySymbol::Lovelace => true,
        CurrencySymbol::Native(policy) => last_value_for(assets, policy.sort_key()) is Some,
    }
}

/// The lovelace and the bundles of native assets of a ledger value.
pub open spec fn ledger_parts(value: LedgerValue) -> (u64, Seq<(Hash28, Vec<(AssetName, u64)>)>) {
    match value {
        LedgerValue::Coin(c) => (c, Seq::empty()),
        LedgerValue::Multiasset(c, assets) => (c, assets@),
    }
}

/// `entries` hold exactly the currencies and amounts of lovelace `coin` and `assets`.
pub open spec fn holds_assets(
    entries: Seq<(CurrencySymbol, Seq<(AssetName, u64)>)>,
    coin: u64,
    assets: Seq<(Hash28, Vec<(AssetName, u64)>)>,
) -> bool {
    &&& forall|c: CurrencySymbol, name: Seq<u8>| #[trigger] amount_of(entries, c, name) == assets_amount(coin, assets, c, name)
    &&& forall|c: CurrencySymbol| #[trigger] seq_lookup(entries, c.sort_key()) is Some <==> assets_have(assets, c)
}

/// The lovelace of an asset map: the amount of the first asset with the
/// empty name and a non-zero amount.
pub open spec fn first_ada(assets: Seq<(AssetName, u64)>) -> Option<u64>
    decreases assets.len(),
{
    if assets.len() == 0 {
        None
    } else if assets[0].0.0@.len() == 0 && assets[0].1 != 0 {
        Some(assets[0].1)
    } else {
        first_ada(assets.drop_first())
    }
}

/// The lovelace of a value, if it holds a non-zero amount of it.
pub open spec fn ada_of(entries: Seq<(CurrencySymbol, Seq<(AssetName, u64)>)>) -> Option<u64> {
    match seq_lookup(entries, CurrencySymbol::Lovelace.sort_key()) {
        Some(assets) => first_ada(assets),
        None => None,
    }
}

/// Lovelace sorts ahead of the native assets of every policy, so that it
/// comes first in a value.
pub proof fn lemma_lovelace_sorts_first(policy: Hash28)
    ensures
        seq_order(CurrencySymbol::Lovelace.sort_key(), CurrencySymbol::Native(policy).sort_key()) == KeyOrder::Less,
{
    assert(seq![0int] =~= seq![0int] + Seq::<int>::empty());
    lemma_order_cons(0, Seq::empty(), 1, policy.sort_key());
}

/// Native assets sort by the bytes of their minting policy.
pub proof fn lemma_native_currency_order(g: Hash28, h: Hash28)
    ensures
        seq_order(CurrencySymbol::Native(g).sort_key(), CurrencySymbol::Native(h).sort_key()) == seq_order(
            bytes_key(g.0@),
            bytes_key(h.0@),
        ),
{
    lemma_order_cons(1, g.sort_key(), 1, h.sort_key());
}

/// Two currency symbols with the same sort key are the same currency.
proof fn lemma_currency_key(a: CurrencySymbol, b: CurrencySymbol)
    ensures
        (a.sort_key() == b.sort_key()) <==> (a == b),
{
    match (a, b) {
        (CurrencySymbol::Native(g), CurrencySymbol::Native(h)) => {
            if a.sort_key() == b.sort_key() {
                assert(a.sort_key().drop_first() =~= g.sort_key());
                assert(b.sort_key().drop_first() =~= h.sort_key());
                crate::kernel::address::lemma_hash_key_injective(g, h);
            }
        },
        (CurrencySymbol::Lovelace, CurrencySymbol::Native(h)) => {
            assert(a.sort_key()[0] != b.sort_key()[0]);
        },
        (CurrencySymbol::Native(h), CurrencySymbol::Lovelace) => {
            assert(a.sort_key()[0] != b.sort_key()[0]);
        },
        _ => {},
    }
}

/// The asset map of a bundle: each name with its amount, later amounts for
/// the same name replacing earlier ones.
fn collect_assets(bundle: &Vec<(AssetName, u64)>) -> (m: SortedMap<AssetName, u64>)
    ensures
        forall|key: Seq<int>| #[trigger] seq_lookup(m@, key) == last_value_for(bundle@, key),
        keys_increasing(m@),
{
    let mut m: SortedMap<AssetName, u64> = SortedMap::new();
    let mut i: usize = 0;
    while i < bundle.len()
        invariant
            i <= bundle@.len(),
            keys_increasing(m@),
            forall|key: Seq<int>| #[trigger] seq_lookup(m@, key) == last_value_for(bundle@.take(i as int), key),
        decreases bundle@.len() - i,
    {
        let name = AssetName(bundle[i].0.0.clone());
        let amount = bundle[i].1;
        let ghost before = m@;
        proof {
            assert(name.0@ =~= bundle@[i as int].0.0@);
        }
        m.insert(name, amount);
        proof {
            let prefix = bundle@.take(i + 1);
            assert(prefix.drop_last() =~= bundle@.take(i as int));
            assert(prefix.last() == bundle@[i as int]);
            assert forall|key: Seq<int>| #[trigger] seq_lookup(m@, key) == last_value_for(prefix, key) by {
                lemma_lookup_insert(before, name, amount, key);
            }
        }
        i = i + 1;
    }
    proof {
        assert(bundle@.take(i as int) =~= bundle@);
    }
    m
}

impl Value {
    /// A value of lovelace only.
    pub fn from_coin(coin: u64) -> (v: Value)
        ensures
            holds_assets(value_entries(&v), coin, Seq::empty()),
            keys_increasing(v.0@),
            ada_of(value_entries(&v)) == (if coin != 0 {
                Some(coin)
            } else {
                None
            }),
    {
        let empty: Vec<(Hash28, Vec<(AssetName, u64)>)> = Vec::new();
        Self::from_parts(coin, &empty)
    }

    /// The Plutus view of a ledger value: its lovelace under the empty asset
    /// name, then each policy's bundle, a later bundle of the same policy (or
    /// a later amount of the same asset) replacing an earlier one.
    pub fn from_ledger_value(value: &LedgerValue) -> (v: Value)
        ensures
            holds_assets(value_entries(&v), ledger_parts(*value).0, ledger_parts(*value).1),
            keys_increasing(v.0@),
            ada_of(value_entries(&v)) == (if ledger_parts(*value).0 != 0 {
                Some(ledger_parts(*value).0)
            } else {
                None
            }),
    {
        match value {
            LedgerValue::Coin(coin) => Self::from_coin(*coin),
            LedgerValue::Multiasset(coin, assets) => Self::from_parts(*coin, assets),
        }
    }

    fn from_parts(coin: u64, assets: &Vec<(Hash28, Vec<(AssetName, u64)>)>) -> (v: Value)
        ensures
            holds_assets(value_entries(&v), coin, assets@),
            keys_increasing(v.0@),
            ada_of(value_entries(&v)) == (if coin != 0 {
                Some(coin)
            } else {
                None
            }),
    {
        let mut lovelace: SortedMap<AssetName, u64> = SortedMap::new();
        lovelace.insert(AssetName(Vec::new()), coin);
        let mut map: SortedMap<CurrencySymbol, SortedMap<AssetName, u64>> = SortedMap::new();
        let ghost lovelace_map = lovelace;
        map.insert(CurrencySymbol::Lovelace, lovelace);
        proof {
            assert(assets@.take(0) =~= Seq::<(Hash28, Vec<(AssetName, u64)>)>::empty());
            lemma_lovelace_only(map@, lovelace_map, coin);
            assert(lovelace_map@ =~= seq![(lovelace_map@[0].0, coin)]);
            assert(map@[0] == (CurrencySymbol::Lovelace, lovelace_map));
        }
        let mut i: usize = 0;
        while i < assets.len()
            invariant
                i <= assets@.len(),
                keys_increasing(map@),
                holds_assets(map_entry_values(map@, |m: SortedMap<AssetName, u64>| m@), coin, assets@.take(i as int)),
                seq_lookup(map@, CurrencySymbol::Lovelace.sort_key()) == Some(lovelace_map),
                lovelace_map@ == seq![(lovelace_map@[0].0, coin)],
                lovelace_map@[0].0.0@.len() == 0,
            decreases assets@.len() - i,
        {
            let policy = assets[i].0;
            let bundle = collect_assets(&assets[i].1);
            let ghost before = map@;
            let ghost bundle_view = bundle@;
            let ghost bundle_map = bundle;
            map.insert(CurrencySymbol::Native(policy), bundle);
            proof {
                lemma_add_bundle(before, map@, policy, bundle_view, coin, assets@, i as int);
                lemma_lookup_insert(before, CurrencySymbol::Native(policy), bundle_map, CurrencySymbol::Lovelace.sort_key());
                lemma_currency_key(CurrencySymbol::Lovelace, CurrencySymbol::Native(policy));
            }
            i = i + 1;
        }
        proof {
            assert(assets@.take(i as int) =~= assets@);
            lemma_lookup_map_values(map@, CurrencySymbol::Lovelace.sort_key(), |m: SortedMap<AssetName, u64>| m@);
            let only = lovelace_map@;
            assert(only.drop_first().len() == 0);
            assert(first_ada(only.drop_first()) is None);
            assert(first_ada(only) == (if coin != 0 {
                Some(coin)
            } else {
                None
            }));
        }
        let v = Value(map);
        assert(seq_lookup(value_entries(&v), CurrencySymbol::Lovelace.sort_key()) == Some(lovelace_map@));
        v
    }

    /// The lovelace of the value, if it holds a non-zero amount of it.
    pub fn ada(&self) -> (r: Option<u64>)
        ensures
            r == ada_of(value_entries(self)),
    {
        proof {
            lemma_lookup_map_values(self.0@, CurrencySymbol::Lovelace.sort_key(), |m: SortedMap<AssetName, u64>| m@);
        }
        match self.0.get(&CurrencySymbol::Lovelace) {
            Some(assets) => {
                let entries = assets.entries();
                let mut i: usize = 0;
                assert(entries@.skip(0) =~= entries@);
                while i < entries.len()
                    invariant
                        seq_lookup(value_entries(self), CurrencySymbol::Lovelace.sort_key()) == Some(entries@),
                        0 <= i <= entries@.len(),
                        first_ada(entries@) == first_ada(entries@.skip(i as int)),
                    decreases entries@.len() - i,
                {
                    proof {
                        let t = entries@.skip(i as int);
                        assert(t[0] == entries@[i as int]);
                        assert(t.drop_first() =~= entries@.skip(i + 1));
                    }
                    if entries[i].0.is_empty() && entries[i].1 != 0 {
                        return Some(entries[i].1);
                    }
                    i = i + 1;
                }
                proof {
                    assert(entries@.skip(i as int).len() == 0);
                }
                None
            },
            None => None,
        }
    }
}

/// A value of lovelace only holds exactly that lovelace.
proof fn lemma_lovelace_only(
    map: Seq<(CurrencySymbol, SortedMap<AssetName, u64>)>,
    lovelace: SortedMap<AssetName, u64>,
    coin: u64,
)
    requires
        map == seq![(CurrencySymbol::Lovelace, lovelace)],
        lovelace@.len() == 1,
        lovelace@[0].0.0@.len() == 0,
        lovelace@[0].1 == coin,
    ensures
        holds_assets(map_entry_values(map, |m: SortedMap<AssetName, u64>| m@), coin, Seq::empty()),
{
    let f = |m: SortedMap<AssetName, u64>| m@;
    let e = map_entry_values(map, f);
    let none: Seq<(Hash28, Vec<(AssetName, u64)>)> = Seq::empty();
    assert(e.len() == 1);
    assert(e[0] == (CurrencySymbol::Lovelace, lovelace@));
    assert(e.drop_first().len() == 0);
    assert(lovelace@.drop_first().len() == 0);
    assert(lovelace@[0].0.sort_key() =~= Seq::<int>::empty());
    assert forall|c: CurrencySymbol, name: Seq<u8>| #[trigger] amount_of(e, c, name) == assets_amount(coin, none, c, name) by {
        lemma_currency_key(c, CurrencySymbol::Lovelace);
        assert(bytes_key(name).len() == name.len());
        if c == CurrencySymbol::Lovelace {
            assert(seq_lookup(e, c.sort_key()) == Some(lovelace@));
            if name.len() == 0 {
                assert(bytes_key(name) =~= Seq::<int>::empty());
                assert(seq_lookup(lovelace@, bytes_key(name)) == Some(coin));
            } else {
                assert(lovelace@[0].0.sort_key() != bytes_key(name));
                assert(seq_lookup(lovelace@, bytes_key(name)) == seq_lookup(lovelace@.drop_first(), bytes_key(name)));
            }
        } else {
            assert(seq_lookup(e, c.sort_key()) == seq_lookup(e.drop_first(), c.sort_key()));
        }
    }
    assert forall|c: CurrencySymbol| #[trigger] seq_lookup(e, c.sort_key()) is Some <==> assets_have(none, c) by {
        lemma_currency_key(c, CurrencySymbol::Lovelace);
        if c != CurrencySymbol::Lovelace {
            assert(seq_lookup(e, c.sort_key()) == seq_lookup(e.drop_first(), c.sort_key()));
        }
    }
}

/// Adding the bundle of one more policy to the entries of a value.
proof fn lemma_add_bundle(
    before: Seq<(CurrencySymbol, SortedMap<AssetName, u64>)>,
    after: Seq<(CurrencySymbol, SortedMap<AssetName, u64>)>,
    policy: Hash28,
    bundle_view: Seq<(AssetName, u64)>,
    coin: u64,
    assets: Seq<(Hash28, Vec<(AssetName, u64)>)>,
    i: int,
)
    requires
        0 <= i < assets.len(),
        assets[i].0 == policy,
        forall|key: Seq<int>| #[trigger] seq_lookup(bundle_view, key) == last_value_for(assets[i].1@, key),
        keys_increasing(before),
        holds_assets(map_entry_values(before, |m: SortedMap<AssetName, u64>| m@), coin, assets.take(i)),
        exists|m: SortedMap<AssetName, u64>| m@ == bundle_view && after == crate::ordered_map::seq_insert(before, CurrencySymbol::Native(policy), m),
    ensures
        holds_assets(map_entry_values(after, |m: SortedMap<AssetName, u64>| m@), coin, assets.take(i + 1)),
{
    let m = choose|m: SortedMap<AssetName, u64>| m@ == bundle_view && after == crate::ordered_map::seq_insert(before, CurrencySymbol::Native(policy), m);
    let f = |m: SortedMap<AssetName, u64>| m@;
    let prefix = assets.take(i + 1);
    assert(prefix.drop_last() =~= assets.take(i));
    assert(prefix.last() == assets[i]);
    let e0 = map_entry_values(before, f);
    let e1 = map_entry_values(after, f);
    assert forall|c: CurrencySymbol, name: Seq<u8>| #[trigger] amount_of(e1, c, name) == assets_amount(coin, prefix, c, name) by {
        lemma_lookup_map_values(after, c.sort_key(), f);
        lemma_lookup_map_values(before, c.sort_key(), f);
        lemma_lookup_insert(before, CurrencySymbol::Native(policy), m, c.sort_key());
        lemma_currency_key(c, CurrencySymbol::Native(policy));
        assert(amount_of(e0, c, name) == assets_amount(coin, assets.take(i), c, name));
    }
    assert forall|c: CurrencySymbol| #[trigger] seq_lookup(e1, c.sort_key()) is Some <==> assets_have(prefix, c) by {
        lemma_lookup_map_values(after, c.sort_key(), f);
        lemma_lookup_map_values(before, c.sort_key(), f);
        lemma_lookup_insert(before, CurrencySymbol::Native(policy), m, c.sort_key());
        lemma_currency_key(c, CurrencySymbol::Native(policy));
        assert(seq_lookup(e0, c.sort_key()) is Some <==> assets_have(assets.take(i), c));
    }
}

} // verus!
