//! Ordered maps keyed by a canonical sort key.
//!
//! The phase-two views of a transaction are maps that a script reads in a
//! canonical order (withdrawals, values, datums, redeemers, ...). Each key type
//! describes its order by a sequence of integers compared lexicographically; a
//! map holds its entries strictly increasing in that order, so that iterating
//! it yields them in canonical order and no two entries have equivalent keys.
use vstd::prelude::*;

verus! {

/// The outcome of comparing two keys.
#[derive(Debug, Copy, Clone, PartialEq, Eq, Structural)]
pub enum KeyOrder {
    Less,
    Equal,
    Greater,
}

/// Lexicographic comparison of integer sequences; a proper prefix sorts first.
pub open spec fn seq_order(a: Seq<int>, b: Seq<int>) -> KeyOrder
    decreases a.len(),
{
    if a.len() == 0 {
        if b.len() == 0 {
            KeyOrder::Equal
        } else {
            KeyOrder::Less
        }
    } else if b.len() == 0 {
        KeyOrder::Greater
    } else if a[0] < b[0] {
        KeyOrder::Less
    } else if a[0] > b[0] {
        KeyOrder::Greater
    } else {
        seq_order(a.drop_first(), b.drop_first())
    }
}

/// The bytes of a byte string, as integers.
pub open spec fn bytes_key(b: Seq<u8>) -> Seq<int> {
    b.map_values(|x: u8| x as int)
}

/// `seq_order` is `Equal` exactly on equal sequences.
pub proof fn lemma_order_equal(a: Seq<int>, b: Seq<int>)
    ensures
        (seq_order(a, b) == KeyOrder::Equal) <==> (a == b),
    decreases a.len(),
{
    if a.len() == 0 && b.len() == 0 {
        assert(a =~= b);
    }
    if a.len() > 0 && b.len() > 0 && a[0] == b[0] {
        lemma_order_equal(a.drop_first(), b.drop_first());
        if a.drop_first() == b.drop_first() {
            assert(a =~= seq![a[0]] + a.drop_first());
            assert(b =~= seq![b[0]] + b.drop_first());
        }
        if a == b {
            assert(a.drop_first() =~= b.drop_first());
        }
    }
}

/// Swapping the arguments of `seq_order` reverses the outcome.
pub proof fn lemma_order_swap(a: Seq<int>, b: Seq<int>)
    ensures
        (seq_order(a, b) == KeyOrder::Less) <==> (seq_order(b, a) == KeyOrder::Greater),
        (seq_order(a, b) == KeyOrder::Equal) <==> (seq_order(b, a) == KeyOrder::Equal),
    decreases a.len(),
{
    if a.len() > 0 && b.len() > 0 && a[0] == b[0] {
        lemma_order_swap(a.drop_first(), b.drop_first());
    }
}

/// `seq_order` orders sequences transitively.
pub proof fn lemma_order_less_trans(a: Seq<int>, b: Seq<int>, c: Seq<int>)
    requires
        seq_order(a, b) == KeyOrder::Less,
        seq_order(b, c) == KeyOrder::Less,
    ensures
        seq_order(a, c) == KeyOrder::Less,
    decreases a.len(),
{
    if a.len() > 0 && b.len() > 0 && c.len() > 0 && a[0] == b[0] && b[0] == c[0] {
        lemma_order_less_trans(a.drop_first(), b.drop_first(), c.drop_first());
    }
}

/// A key sorted by a canonical sequence of integers.
pub trait SortKey: Sized {
    /// The key's position in its canonical order, compared with `seq_order`.
    spec fn sort_key(&self) -> Seq<int>;

    /// Compares two keys in their canonical order.
    fn compare(&self, other: &Self) -> (o: KeyOrder)
        ensures
            o == seq_order(self.sort_key(), other.sort_key()),
    ;
}

impl<'a, K: SortKey> SortKey for &'a K {
    open spec fn sort_key(&self) -> Seq<int> {
        (**self).sort_key()
    }

    fn compare(&self, other: &Self) -> (o: KeyOrder) {
        (**self).compare(*other)
    }
}

/// Compares two byte strings lexicographically.
pub fn compare_bytes(a: &[u8], b: &[u8]) -> (o: KeyOrder)
    ensures
        o == seq_order(bytes_key(a@), bytes_key(b@)),
{
    let mut i: usize = 0;
    assert(bytes_key(a@).skip(0) =~= bytes_key(a@));
    assert(bytes_key(b@).skip(0) =~= bytes_key(b@));
    while i < a.len() && i < b.len()
        invariant
            i <= a.len(),
            i <= b.len(),
            forall|j: int| 0 <= j < i ==> a@[j] == b@[j],
            seq_order(bytes_key(a@), bytes_key(b@)) == seq_order(
                bytes_key(a@).skip(i as int),
                bytes_key(b@).skip(i as int),
            ),
        decreases a.len() - i,
    {
        let x = a[i];
        let y = b[i];
        let ghost sa = bytes_key(a@).skip(i as int);
        let ghost sb = bytes_key(b@).skip(i as int);
        assert(sa[0] == x as int);
        assert(sb[0] == y as int);
        if x < y {
            return KeyOrder::Less;
        } else if x > y {
            return KeyOrder::Greater;
        }
        assert(sa.drop_first() =~= bytes_key(a@).skip(i + 1));
        assert(sb.drop_first() =~= bytes_key(b@).skip(i + 1));
        i = i + 1;
    }
    let ghost sa = bytes_key(a@).skip(i as int);
    let ghost sb = bytes_key(b@).skip(i as int);
    if i < a.len() {
        assert(sb.len() == 0);
        KeyOrder::Greater
    } else if i < b.len() {
        assert(sa.len() == 0);
        KeyOrder::Less
    } else {
        assert(sa.len() == 0 && sb.len() == 0);
        KeyOrder::Equal
    }
}

/// Entries whose keys strictly increase in canonical order.
pub open spec fn keys_increasing<K: SortKey, V>(s: Seq<(K, V)>) -> bool {
    forall|i: int, j: int|
        0 <= i < j < s.len() ==> seq_order(#[trigger] s[i].0.sort_key(), #[trigger] s[j].0.sort_key())
            == KeyOrder::Less
}

/// Inserting `(k, v)` into increasing entries: an entry with an equivalent key
/// keeps its key and takes the new value; otherwise the pair goes in its place.
pub open spec fn seq_insert<K: SortKey, V>(s: Seq<(K, V)>, k: K, v: V) -> Seq<(K, V)>
    decreases s.len(),
{
    if s.len() == 0 {
        seq![(k, v)]
    } else {
        match seq_order(k.sort_key(), s[0].0.sort_key()) {
            KeyOrder::Less => seq![(k, v)] + s,
            KeyOrder::Equal => seq![(s[0].0, v)] + s.drop_first(),
            KeyOrder::Greater => seq![s[0]] + seq_insert(s.drop_first(), k, v),
        }
    }
}

/// The value of the first entry whose key is equivalent to `key`.
pub open spec fn seq_lookup<K: SortKey, V>(s: Seq<(K, V)>, key: Seq<int>) -> Option<V>
    decreases s.len(),
{
    if s.len() == 0 {
        None
    } else if s[0].0.sort_key() == key {
        Some(s[0].1)
    } else {
        seq_lookup(s.drop_first(), key)
    }
}

/// Inserting into a sequence of pairs, one after the other.
pub open spec fn seq_insert_all<K: SortKey, V>(s: Seq<(K, V)>, pairs: Seq<(K, V)>) -> Seq<(K, V)>
    decreases pairs.len(),
{
    if pairs.len() == 0 {
        s
    } else {
        seq_insert_all(seq_insert(s, pairs[0].0, pairs[0].1), pairs.drop_first())
    }
}

/// Inserting one more pair after a sequence of pairs.
pub proof fn lemma_insert_all_push<K: SortKey, V>(s: Seq<(K, V)>, pairs: Seq<(K, V)>, k: K, v: V)
    ensures
        seq_insert_all(s, pairs.push((k, v))) == seq_insert(seq_insert_all(s, pairs), k, v),
    decreases pairs.len(),
{
    if pairs.len() == 0 {
        let one = pairs.push((k, v));
        assert(one[0] == (k, v));
        assert(one.drop_first() =~= Seq::<(K, V)>::empty());
        assert(seq_insert_all(seq_insert(s, k, v), one.drop_first()) == seq_insert(s, k, v));
    } else {
        let s1 = seq_insert(s, pairs[0].0, pairs[0].1);
        lemma_insert_all_push(s1, pairs.drop_first(), k, v);
        assert(pairs.push((k, v)).drop_first() =~= pairs.drop_first().push((k, v)));
        assert(pairs.push((k, v))[0] == pairs[0]);
    }
}

/// The entries with each value mapped by `f`.
pub open spec fn map_entry_values<K, V, W>(s: Seq<(K, V)>, f: spec_fn(V) -> W) -> Seq<(K, W)> {
    s.map_values(|e: (K, V)| (e.0, f(e.1)))
}

/// Mapping the values commutes with looking up a key.
pub proof fn lemma_lookup_map_values<K: SortKey, V, W>(s: Seq<(K, V)>, key: Seq<int>, f: spec_fn(V) -> W)
    ensures
        seq_lookup(map_entry_values(s, f), key) == (match seq_lookup(s, key) {
            Some(v) => Some(f(v)),
            None => None,
        }),
    decreases s.len(),
{
    if s.len() > 0 {
        assert(map_entry_values(s, f).drop_first() =~= map_entry_values(s.drop_first(), f));
        lemma_lookup_map_values(s.drop_first(), key, f);
    }
}

/// Mapping the values commutes with inserting.
pub proof fn lemma_insert_map_values<K: SortKey, V, W>(s: Seq<(K, V)>, k: K, v: V, f: spec_fn(V) -> W)
    ensures
        map_entry_values(seq_insert(s, k, v), f) == seq_insert(map_entry_values(s, f), k, f(v)),
    decreases s.len(),
{
    let ms = map_entry_values(s, f);
    if s.len() == 0 {
        assert(map_entry_values(seq_insert(s, k, v), f) =~= seq![(k, f(v))]);
    } else {
        assert(ms[0] == (s[0].0, f(s[0].1)));
        assert(ms.drop_first() =~= map_entry_values(s.drop_first(), f));
        let c = seq_order(k.sort_key(), s[0].0.sort_key());
        if c == KeyOrder::Less {
            assert(map_entry_values(seq_insert(s, k, v), f) =~= seq![(k, f(v))] + ms);
        } else if c == KeyOrder::Equal {
            assert(map_entry_values(seq_insert(s, k, v), f) =~= seq![(s[0].0, f(v))] + ms.drop_first());
        } else {
            lemma_insert_map_values(s.drop_first(), k, v, f);
            assert(map_entry_values(seq_insert(s, k, v), f) =~= seq![ms[0]] + map_entry_values(
                seq_insert(s.drop_first(), k, v),
                f,
            ));
        }
    }
}

/// Mapping the values commutes with inserting pairs one after the other.
pub proof fn lemma_insert_all_map_values<K: SortKey, V, W>(s: Seq<(K, V)>, pairs: Seq<(K, V)>, f: spec_fn(V) -> W)
    ensures
        map_entry_values(seq_insert_all(s, pairs), f) == seq_insert_all(map_entry_values(s, f), map_entry_values(pairs, f)),
    decreases pairs.len(),
{
    let mp = map_entry_values(pairs, f);
    if pairs.len() > 0 {
        lemma_insert_map_values(s, pairs[0].0, pairs[0].1, f);
        lemma_insert_all_map_values(seq_insert(s, pairs[0].0, pairs[0].1), pairs.drop_first(), f);
        assert(mp.drop_first() =~= map_entry_values(pairs.drop_first(), f));
        assert(mp[0] == (pairs[0].0, f(pairs[0].1)));
    } else {
        assert(mp.len() == 0);
    }
}

/// The value of the last pair whose key is equivalent to `key`.
pub open spec fn last_value_for<K: SortKey, V>(pairs: Seq<(K, V)>, key: Seq<int>) -> Option<V>
    decreases pairs.len(),
{
    if pairs.len() == 0 {
        None
    } else if pairs.last().0.sort_key() == key {
        Some(pairs.last().1)
    } else {
        last_value_for(pairs.drop_last(), key)
    }
}

/// The value of the last pair with a key is that of the pair at the last
/// position with that key; a key that no pair has finds nothing.
pub proof fn lemma_last_value_is_last<K: SortKey, V>(pairs: Seq<(K, V)>, key: Seq<int>, i: int)
    ensures
        0 <= i < pairs.len() && pairs[i].0.sort_key() == key && (forall|j: int|
            i < j < pairs.len() ==> #[trigger] pairs[j].0.sort_key() != key) ==> last_value_for(pairs, key) == Some(
            pairs[i].1,
        ),
        (forall|j: int| 0 <= j < pairs.len() ==> #[trigger] pairs[j].0.sort_key() != key) ==> last_value_for(pairs, key)
            is None,
    decreases pairs.len(),
{
    if pairs.len() > 0 {
        let fewer = pairs.drop_last();
        lemma_last_value_is_last(fewer, key, i);
        if 0 <= i < pairs.len() - 1 && pairs[i].0.sort_key() == key && (forall|j: int|
            i < j < pairs.len() ==> #[trigger] pairs[j].0.sort_key() != key) {
            assert(pairs.last().0.sort_key() != key);
            assert forall|j: int| i < j < fewer.len() implies #[trigger] fewer[j].0.sort_key() != key by {
                assert(fewer[j] == pairs[j]);
            }
            assert(fewer[i] == pairs[i]);
        }
        if forall|j: int| 0 <= j < pairs.len() ==> #[trigger] pairs[j].0.sort_key() != key {
            assert(pairs.last().0.sort_key() != key);
            assert forall|j: int| 0 <= j < fewer.len() implies #[trigger] fewer[j].0.sort_key() != key by {
                assert(fewer[j] == pairs[j]);
            }
        }
    }
}

proof fn lemma_drop_first_increasing<K: SortKey, V>(s: Seq<(K, V)>)
    requires
        keys_increasing(s),
        s.len() > 0,
    ensures
        keys_increasing(s.drop_first()),
{
    assert forall|i: int, j: int| 0 <= i < j < s.drop_first().len() implies seq_order(
        #[trigger] s.drop_first()[i].0.sort_key(),
        #[trigger] s.drop_first()[j].0.sort_key(),
    ) == KeyOrder::Less by {
        assert(s.drop_first()[i] == s[i + 1]);
        assert(s.drop_first()[j] == s[j + 1]);
    }
}

/// Inserting keeps the keys increasing, and the inserted key is found.
pub proof fn lemma_insert_increasing<K: SortKey, V>(s: Seq<(K, V)>, k: K, v: V)
    requires
        keys_increasing(s),
    ensures
        keys_increasing(seq_insert(s, k, v)),
        forall|i: int|
            0 <= i < seq_insert(s, k, v).len() ==> ({
                let e = #[trigger] seq_insert(s, k, v)[i];
                ||| e.0.sort_key() == k.sort_key()
                ||| exists|j: int| 0 <= j < s.len() && s[j].0 == e.0
            }),
    decreases s.len(),
{
    let r = seq_insert(s, k, v);
    if s.len() == 0 {
    } else {
        let c = seq_order(k.sort_key(), s[0].0.sort_key());
        if c == KeyOrder::Less {
            assert forall|i: int, j: int| 0 <= i < j < r.len() implies seq_order(
                #[trigger] r[i].0.sort_key(),
                #[trigger] r[j].0.sort_key(),
            ) == KeyOrder::Less by {
                if i == 0 {
                    assert(r[j] == s[j - 1]);
                    if j - 1 > 0 {
                        lemma_order_less_trans(k.sort_key(), s[0].0.sort_key(), s[j - 1].0.sort_key());
                    }
                } else {
                    assert(r[i] == s[i - 1]);
                    assert(r[j] == s[j - 1]);
                }
            }
            assert forall|i: int| 0 <= i < r.len() implies ({
                let e = #[trigger] r[i];
                ||| e.0.sort_key() == k.sort_key()
                ||| exists|j: int| 0 <= j < s.len() && s[j].0 == e.0
            }) by {
                if i > 0 {
                    assert(r[i] == s[i - 1]);
                }
            }
        } else if c == KeyOrder::Equal {
            lemma_order_equal(k.sort_key(), s[0].0.sort_key());
            assert forall|i: int, j: int| 0 <= i < j < r.len() implies seq_order(
                #[trigger] r[i].0.sort_key(),
                #[trigger] r[j].0.sort_key(),
            ) == KeyOrder::Less by {
                if i == 0 {
                    assert(r[j] == s[j]);
                } else {
                    assert(r[i] == s[i]);
                    assert(r[j] == s[j]);
                }
            }
            assert forall|i: int| 0 <= i < r.len() implies ({
                let e = #[trigger] r[i];
                ||| e.0.sort_key() == k.sort_key()
                ||| exists|j: int| 0 <= j < s.len() && s[j].0 == e.0
            }) by {
                if i > 0 {
                    assert(r[i] == s[i]);
                }
            }
        } else {
            let t = s.drop_first();
            lemma_drop_first_increasing(s);
            lemma_insert_increasing(t, k, v);
            let rt = seq_insert(t, k, v);
            assert(r == seq![s[0]] + rt);
            lemma_order_swap(k.sort_key(), s[0].0.sort_key());
            assert forall|i: int, j: int| 0 <= i < j < r.len() implies seq_order(
                #[trigger] r[i].0.sort_key(),
                #[trigger] r[j].0.sort_key(),
            ) == KeyOrder::Less by {
                if i == 0 {
                    let e = rt[j - 1];
                    assert(r[j] == e);
                    if e.0.sort_key() == k.sort_key() {
                    } else {
                        let jj = choose|jj: int| 0 <= jj < t.len() && t[jj].0 == e.0;
                        assert(t[jj] == s[jj + 1]);
                    }
                } else {
                    assert(r[i] == rt[i - 1]);
                    assert(r[j] == rt[j - 1]);
                }
            }
            assert forall|i: int| 0 <= i < r.len() implies ({
                let e = #[trigger] r[i];
                ||| e.0.sort_key() == k.sort_key()
                ||| exists|j: int| 0 <= j < s.len() && s[j].0 == e.0
            }) by {
                if i > 0 {
                    let e = rt[i - 1];
                    assert(r[i] == e);
                    if e.0.sort_key() != k.sort_key() {
                        let jj = choose|jj: int| 0 <= jj < t.len() && t[jj].0 == e.0;
                        assert(s[jj + 1].0 == e.0);
                    }
                }
            }
        }
    }
}

/// After inserting `(k, v)`, a key equivalent to `k` finds `v`; any other key
/// finds what it found before.
pub proof fn lemma_lookup_insert<K: SortKey, V>(s: Seq<(K, V)>, k: K, v: V, key: Seq<int>)
    requires
        keys_increasing(s),
    ensures
        seq_lookup(seq_insert(s, k, v), key) == (if key == k.sort_key() {
            Some(v)
        } else {
            seq_lookup(s, key)
        }),
    decreases s.len(),
{
    if s.len() == 0 {
        let r = seq_insert(s, k, v);
        assert(r == seq![(k, v)]);
        assert(r.drop_first().len() == 0);
    } else {
        let c = seq_order(k.sort_key(), s[0].0.sort_key());
        lemma_order_equal(k.sort_key(), s[0].0.sort_key());
        let r = seq_insert(s, k, v);
        if c == KeyOrder::Less {
            assert(r == seq![(k, v)] + s);
            assert(r[0] == (k, v));
            assert(r.drop_first() =~= s);
            if key != k.sort_key() {
                assert(seq_lookup(r, key) == seq_lookup(r.drop_first(), key));
            }
        } else if c == KeyOrder::Equal {
            assert(r == seq![(s[0].0, v)] + s.drop_first());
            assert(r[0] == (s[0].0, v));
            assert(r.drop_first() =~= s.drop_first());
            if key != k.sort_key() {
                assert(seq_lookup(r, key) == seq_lookup(r.drop_first(), key));
                assert(seq_lookup(s, key) == seq_lookup(s.drop_first(), key));
            }
        } else {
            assert(r == seq![s[0]] + seq_insert(s.drop_first(), k, v));
            assert(r[0] == s[0]);
            lemma_drop_first_increasing(s);
            lemma_lookup_insert(s.drop_first(), k, v, key);
            assert(r.drop_first() =~= seq_insert(s.drop_first(), k, v));
        }
    }
}

/// Inserting pairs one after the other keeps, for each key, the value of the
/// last pair with an equivalent key; keys that no pair names keep their value.
pub proof fn lemma_insert_all_last_wins<K: SortKey, V>(
    s: Seq<(K, V)>,
    pairs: Seq<(K, V)>,
    key: Seq<int>,
)
    requires
        keys_increasing(s),
    ensures
        keys_increasing(seq_insert_all(s, pairs)),
        seq_lookup(seq_insert_all(s, pairs), key) == (match last_value_for(pairs, key) {
            Some(v) => Some(v),
            None => seq_lookup(s, key),
        }),
    decreases pairs.len(),
{
    if pairs.len() > 0 {
        let s1 = seq_insert(s, pairs[0].0, pairs[0].1);
        lemma_insert_increasing(s, pairs[0].0, pairs[0].1);
        lemma_lookup_insert(s, pairs[0].0, pairs[0].1, key);
        lemma_insert_all_last_wins(s1, pairs.drop_first(), key);
        lemma_last_value_split(pairs, key);
    }
}

/// The last pair for a key lies in the tail, or else it is the head.
proof fn lemma_last_value_split<K: SortKey, V>(pairs: Seq<(K, V)>, key: Seq<int>)
    requires
        pairs.len() > 0,
    ensures
        last_value_for(pairs, key) == (match last_value_for(pairs.drop_first(), key) {
            Some(v) => Some(v),
            None => if pairs[0].0.sort_key() == key {
                Some(pairs[0].1)
            } else {
                None
            },
        }),
    decreases pairs.len(),
{
    if pairs.len() == 1 {
        assert(pairs.drop_first().len() == 0);
    } else {
        let t = pairs.drop_first();
        assert(t.last() == pairs.last());
        if pairs.last().0.sort_key() != key {
            assert(pairs.drop_last().drop_first() =~= t.drop_last());
            assert(pairs.drop_last()[0] == pairs[0]);
            lemma_last_value_split(pairs.drop_last(), key);
        }
    }
}

/// A map whose entries are kept in increasing canonical key order.
pub struct SortedMap<K: SortKey, V> {
    entries: Vec<(K, V)>,
}

impl<K: SortKey, V> View for SortedMap<K, V> {
    type V = Seq<(K, V)>;

    closed spec fn view(&self) -> Seq<(K, V)> {
        self.entries@
    }
}

impl<K: SortKey, V> SortedMap<K, V> {
    #[verifier::type_invariant]
    closed spec fn entries_increasing(self) -> bool {
        keys_increasing(self.entries@)
    }

    /// An empty map.
    pub fn new() -> (m: Self)
        ensures
            m@ == Seq::<(K, V)>::empty(),
    {
        SortedMap { entries: Vec::new() }
    }

    /// The number of entries.
    pub fn len(&self) -> (n: usize)
        ensures
            n == self@.len(),
    {
        self.entries.len()
    }

    /// The entries, in increasing key order.
    pub fn entries(&self) -> (e: &[(K, V)])
        ensures
            e@ == self@,
            keys_increasing(e@),
    {
        proof {
            use_type_invariant(self);
        }
        self.entries.as_slice()
    }

    /// Inserts `value` under `key`: an entry with an equivalent key keeps its
    /// key and takes the value; otherwise the pair is added in key order.
    pub fn insert(&mut self, key: K, value: V)
        ensures
            final(self)@ == seq_insert(old(self)@, key, value),
            keys_increasing(final(self)@),
    {
        proof {
            use_type_invariant(&*self);
        }
        let mut entries: Vec<(K, V)> = Vec::new();
        std::mem::swap(&mut entries, &mut self.entries);
        let ghost s = entries@;
        let mut i: usize = 0;
        assert(s.take(0) + s.skip(0) =~= s);
        assert(s.skip(0) =~= s);
        let mut found: KeyOrder = KeyOrder::Greater;
        while i < entries.len()
            invariant_except_break
                entries@ == s,
                keys_increasing(s),
                0 <= i <= s.len(),
                seq_insert(s, key, value) == s.take(i as int) + seq_insert(
                    s.skip(i as int),
                    key,
                    value,
                ),
            ensures
                entries@ == s,
                keys_increasing(s),
                0 <= i <= s.len(),
                seq_insert(s, key, value) == s.take(i as int) + seq_insert(
                    s.skip(i as int),
                    key,
                    value,
                ),
                i < s.len() ==> found == seq_order(key.sort_key(), s[i as int].0.sort_key()),
                i < s.len() ==> found != KeyOrder::Greater,
            decreases s.len() - i,
        {
            let c = key.compare(&entries[i].0);
            if c != KeyOrder::Greater {
                found = c;
                break;
            }
            proof {
                let t = s.skip(i as int);
                assert(t[0] == s[i as int]);
                assert(t.drop_first() =~= s.skip(i + 1));
                assert(s.take(i + 1) =~= s.take(i as int) + seq![s[i as int]]);
                assert(seq_insert(t, key, value) == seq![t[0]] + seq_insert(t.drop_first(), key, value));
            }
            i = i + 1;
        }
        proof {
            let t = s.skip(i as int);
            if i < s.len() {
                assert(t[0] == s[i as int]);
            } else {
                assert(t.len() == 0);
            }
        }
        if i < entries.len() && found == KeyOrder::Equal {
            let (old_key, _old_value) = entries.remove(i);
            entries.insert(i, (old_key, value));
            proof {
                let t = s.skip(i as int);
                assert(t.drop_first() =~= s.skip(i + 1));
                assert(entries@ =~= s.take(i as int) + (seq![(s[i as int].0, value)] + t.drop_first()));
            }
        } else {
            entries.insert(i, (key, value));
            proof {
                let t = s.skip(i as int);
                assert(entries@ =~= s.take(i as int) + (seq![(key, value)] + t));
            }
        }
        proof {
            lemma_insert_increasing(s, key, value);
        }
        self.entries = entries;
    }

    /// A map of the pairs, inserted in order: for each key, the value of the
    /// last pair with an equivalent key.
    pub fn from_pairs(pairs: Vec<(K, V)>) -> (m: Self)
        ensures
            m@ == seq_insert_all(Seq::<(K, V)>::empty(), pairs@),
            keys_increasing(m@),
    {
        let ghost all = pairs@;
        let mut pending = pairs;
        let mut reversed: Vec<(K, V)> = Vec::new();
        while pending.len() > 0
            invariant
                pending@ + reversed@.reverse() == all,
            decreases pending@.len(),
        {
            let last = pending.pop().unwrap();
            proof {
                assert(reversed@.push(last).reverse() =~= seq![last] + reversed@.reverse());
            }
            reversed.push(last);
            proof {
                assert(pending@ + reversed@.reverse() =~= all);
            }
        }
        assert(reversed@.reverse() =~= all);
        let mut m = SortedMap::new();
        let ghost mut done: Seq<(K, V)> = Seq::empty();
        assert(all.take(0) =~= Seq::<(K, V)>::empty());
        while reversed.len() > 0
            invariant
                done + reversed@.reverse() == all,
                m@ == seq_insert_all(Seq::<(K, V)>::empty(), done),
                keys_increasing(m@),
            decreases reversed@.len(),
        {
            let (k, v) = reversed.pop().unwrap();
            proof {
                lemma_insert_all_push(Seq::<(K, V)>::empty(), done, k, v);
                assert(reversed@.push((k, v)).reverse() =~= seq![(k, v)] + reversed@.reverse());
            }
            m.insert(k, v);
            proof {
                done = done.push((k, v));
                assert(done + reversed@.reverse() =~= all);
            }
        }
        assert(done =~= all);
        m
    }

    /// The value under a key equivalent to `key`, if any.
    pub fn get(&self, key: &K) -> (r: Option<&V>)
        ensures
            r == (match seq_lookup(self@, key.sort_key()) {
                Some(v) => Some(&v),
                None => None,
            }),
    {
        let mut i: usize = 0;
        assert(self@.skip(0) =~= self@);
        while i < self.entries.len()
            invariant
                0 <= i <= self@.len(),
                seq_lookup(self@, key.sort_key()) == seq_lookup(self@.skip(i as int), key.sort_key()),
            decreases self@.len() - i,
        {
            let c = key.compare(&self.entries[i].0);
            proof {
                lemma_order_equal(key.sort_key(), self@[i as int].0.sort_key());
                let t = self@.skip(i as int);
                assert(t[0] == self@[i as int]);
                assert(t.drop_first() =~= self@.skip(i + 1));
            }
            if c == KeyOrder::Equal {
                return Some(&self.entries[i].1);
            }
            i = i + 1;
        }
        proof {
            assert(self@.skip(i as int).len() == 0);
        }
        None
    }
}

} // verus!
