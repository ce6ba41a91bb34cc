//! Named cost parameters, as read from a protocol's cost model.
use vstd::prelude::*;

use crate::ordered_map::{bytes_key, compare_bytes, lemma_order_equal, KeyOrder};
use vstd::string::StringSliceAdditionalSpecFns;

verus! {

/// Cost parameters by name; a name that occurs twice is read at its first occurrence.
pub struct CostMap {
    pub entries: Vec<(String, i64)>,
}

/// The cost recorded under a name, at its first occurrence.
pub open spec fn cost_named(entries: Seq<(String, i64)>, name: Seq<char>) -> Option<i64>
    decreases entries.len(),
{
    if entries.len() == 0 {
        None
    } else if entries[0].0@ == name {
        Some(entries[0].1)
    } else {
        cost_named(entries.drop_first(), name)
    }
}

/// A name finds the cost of its first entry; a name that no entry has finds
/// nothing.
pub proof fn lemma_cost_named_is_first(entries: Seq<(String, i64)>, name: Seq<char>, i: int)
    ensures
        0 <= i < entries.len() && entries[i].0@ == name && (forall|j: int| 0 <= j < i ==> #[trigger] entries[j].0@ != name)
            ==> cost_named(entries, name) == Some(entries[i].1),
        (forall|j: int| 0 <= j < entries.len() ==> #[trigger] entries[j].0@ != name) ==> cost_named(entries, name) is None,
    decreases entries.len(),
{
    if entries.len() > 0 {
        let rest = entries.drop_first();
        lemma_cost_named_is_first(rest, name, i - 1);
        if 0 < i < entries.len() && entries[i].0@ == name && (forall|j: int| 0 <= j < i ==> #[trigger] entries[j].0@ != name) {
            assert(entries[0].0@ != name);
            assert forall|j: int| 0 <= j < i - 1 implies #[trigger] rest[j].0@ != name by {
                assert(rest[j] == entries[j + 1]);
            }
            assert(rest[i - 1] == entries[i]);
        }
        if forall|j: int| 0 <= j < entries.len() ==> #[trigger] entries[j].0@ != name {
            assert(entries[0].0@ != name);
            assert forall|j: int| 0 <= j < rest.len() implies #[trigger] rest[j].0@ != name by {
                assert(rest[j] == entries[j + 1]);
            }
        }
    }
}

impl CostMap {
    /// The cost recorded under `name`, if any.
    pub fn get(&self, name: &str) -> (r: Option<i64>)
        ensures
            r == cost_named(self.entries@, name@),
    {
        let wanted = name.as_bytes();
        let mut i: usize = 0;
        assert(self.entries@.skip(0) =~= self.entries@);
        while i < self.entries.len()
            invariant
                0 <= i <= self.entries@.len(),
                wanted@ == name.spec_bytes(),
                cost_named(self.entries@, name@) == cost_named(
                    self.entries@.skip(i as int),
                    name@,
                ),
            decreases self.entries@.len() - i,
        {
            let key = self.entries[i].0.as_str().as_bytes();
            let o = compare_bytes(key, wanted);
            proof {
                broadcast use vstd::utf8::group_utf8_lib;

                lemma_order_equal(bytes_key(key@), bytes_key(wanted@));
                if bytes_key(key@) == bytes_key(wanted@) {
                    assert forall|j: int| 0 <= j < key@.len() implies key@[j] == wanted@[j] by {
                        assert(bytes_key(key@)[j] == bytes_key(wanted@)[j]);
                    }
                    assert(key@ =~= wanted@);
                }
                if key@ == wanted@ {
                    assert(bytes_key(key@) =~= bytes_key(wanted@));
                }
                let sk = self.entries@[i as int].0@;
                assert(key@ == vstd::utf8::encode_utf8(sk));
                assert(wanted@ == vstd::utf8::encode_utf8(name@));
                vstd::utf8::encode_utf8_decode_utf8(sk);
                vstd::utf8::encode_utf8_decode_utf8(name@);
                assert(key@ == wanted@ <==> sk == name@);
                let t = self.entries@.skip(i as int);
                assert(t[0] == self.entries@[i as int]);
                assert(t.drop_first() =~= self.entries@.skip(i + 1));
            }
            if o == KeyOrder::Equal {
                return Some(self.entries[i].1);
            }
            i = i + 1;
        }
        proof {
            assert(self.entries@.skip(i as int).len() == 0);
        }
        None
    }

    /// The cost recorded under `name`, which must be present.
    pub fn cost(&self, name: &str) -> (r: i64)
        requires
            cost_named(self.entries@, name@) is Some,
        ensures
            Some(r) == cost_named(self.entries@, name@),
    {
        match self.get(name) {
            Some(c) => c,
            None => 0,
        }
    }
}

} // verus!
