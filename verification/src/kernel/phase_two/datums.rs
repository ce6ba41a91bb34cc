//! The datums a transaction supplies as witnesses, keyed by their hash.
use vstd::prelude::*;

use crate::kernel::address::Hash32;
use crate::kernel::primitives::MemoizedPlutusData;
use crate::ordered_map::{bytes_key, keys_increasing, lemma_lookup_insert, seq_lookup, SortKey, SortedMap};
use pallas_primitives::PlutusData;

verus! {

/// The BLAKE2b-256 digest of a sequence of bytes.
pub uninterp spec fn blake2b_256(bytes: Seq<u8>) -> Seq<u8>;

/// Hashes bytes with `pallas_crypto::hash::Hasher::<256>::hash`.
///
/// Trusted: the result is the 32-byte BLAKE2b-256 digest of `bytes`, a
/// function of the bytes alone; the digest itself is left unstated.
#[verifier::external_body]
pub(crate) fn blake2b_256_digest(bytes: &[u8]) -> (h: Hash32)
    ensures
        h.0@ == blake2b_256(bytes@),
{
    crate::kernel::address::Hash(*pallas_crypto::hash::Hasher::<256>::hash(bytes))
}

/// The hash of a datum: the digest of the bytes it was decoded from.
pub open spec fn datum_hash_key(datum: MemoizedPlutusData) -> Seq<int> {
    bytes_key(blake2b_256(datum.original_bytes@))
}

/// The last datum among `data` whose hash has the sort key `key`.
pub open spec fn last_datum_for<'a>(data: Seq<MemoizedPlutusData>, key: Seq<int>) -> Option<&'a PlutusData>
    decreases data.len(),
{
    if data.len() == 0 {
        None
    } else if datum_hash_key(data.last()) == key {
        Some(&data.last().data)
    } else {
        last_datum_for(data.drop_last(), key)
    }
}

/// Among datums with the same hash, the last one supplied is the one a hash
/// finds; a hash that no supplied datum has finds nothing.
pub proof fn lemma_last_datum_is_last(data: Seq<MemoizedPlutusData>, key: Seq<int>, i: int)
    ensures
        0 <= i < data.len() && datum_hash_key(data[i]) == key && (forall|j: int|
            i < j < data.len() ==> datum_hash_key(#[trigger] data[j]) != key) ==> last_datum_for(data, key) == Some(
            &data[i].data,
        ),
        (forall|j: int| 0 <= j < data.len() ==> datum_hash_key(#[trigger] data[j]) != key) ==> last_datum_for(data, key)
            is None,
    decreases data.len(),
{
    if data.len() > 0 {
        let fewer = data.drop_last();
        lemma_last_datum_is_last(fewer, key, i);
        if 0 <= i < data.len() - 1 && datum_hash_key(data[i]) == key && (forall|j: int|
            i < j < data.len() ==> datum_hash_key(#[trigger] data[j]) != key) {
            assert(datum_hash_key(data.last()) != key);
            assert forall|j: int| i < j < fewer.len() implies datum_hash_key(#[trigger] fewer[j]) != key by {
                assert(fewer[j] == data[j]);
            }
            assert(fewer[i] == data[i]);
        }
        if forall|j: int| 0 <= j < data.len() ==> datum_hash_key(#[trigger] data[j]) != key {
            assert(datum_hash_key(data.last()) != key);
            assert forall|j: int| 0 <= j < fewer.len() implies datum_hash_key(#[trigger] fewer[j]) != key by {
                assert(fewer[j] == data[j]);
            }
        }
    }
}

/// The datums supplied as witnesses in a transaction: a lookup table from a
/// datum's hash to the datum it commits to.
pub struct Datums<'a>(pub SortedMap<Hash32, &'a PlutusData>);

impl<'a> Datums<'a> {
    /// An empty table.
    pub fn new() -> (d: Self)
        ensures
            d.0@ == Seq::<(Hash32, &'a PlutusData)>::empty(),
    {
        Datums(SortedMap::new())
    }

    /// The table of the supplied datums, each under the hash of the bytes it
    /// was decoded from.
    pub fn from_plutus_data(data: &'a Vec<MemoizedPlutusData>) -> (d: Self)
        ensures
            keys_increasing(d.0@),
            forall|key: Seq<int>| #[trigger] seq_lookup(d.0@, key) == last_datum_for(data@, key),
    {
        let mut map: SortedMap<Hash32, &'a PlutusData> = SortedMap::new();
        let mut i: usize = 0;
        while i < data.len()
            invariant
                i <= data@.len(),
                keys_increasing(map@),
                forall|key: Seq<int>| #[trigger] seq_lookup(map@, key) == last_datum_for(data@.take(i as int), key),
            decreases data@.len() - i,
        {
            let datum = &data[i];
            let hash = blake2b_256_digest(datum.original_bytes.as_slice());
            let ghost before = map@;
            map.insert(hash, &datum.data);
            proof {
                let prefix = data@.take(i + 1);
                assert(prefix.drop_last() =~= data@.take(i as int));
                assert(prefix.last() == data@[i as int]);
                assert forall|key: Seq<int>| #[trigger] seq_lookup(map@, key) == last_datum_for(prefix, key) by {
                    lemma_lookup_insert(before, hash, &datum.data, key);
                }
            }
            i = i + 1;
        }
        proof {
            assert(data@.take(i as int) =~= data@);
        }
        Datums(map)
    }
}

} // verus!
