//! The key hashes a transaction declares it must be signed by.
use vstd::prelude::*;

use crate::kernel::address::Hash28;
use crate::ordered_map::{seq_insert_all, SortedMap};

verus! {

/// The public-key hashes a transaction declares it must be signed by: the
/// declared requirement (which phase-one validation holds the witnesses to),
/// each hash once, in order.
pub struct RequiredSigners(pub SortedMap<Hash28, ()>);

/// The hashes as set members.
pub open spec fn signer_entries(hashes: Seq<Hash28>) -> Seq<(Hash28, ())> {
    hashes.map_values(|h: Hash28| (h, ()))
}

impl Default for RequiredSigners {
    fn default() -> (s: Self)
        ensures
            s.0@ == Seq::<(Hash28, ())>::empty(),
    {
        RequiredSigners(SortedMap::new())
    }
}

impl RequiredSigners {
    /// The set of the declared signers.
    pub fn from_hashes(hashes: &Vec<Hash28>) -> (s: Self)
        ensures
            s.0@ == seq_insert_all(Seq::empty(), signer_entries(hashes@)),
    {
        let mut members: Vec<(Hash28, ())> = Vec::new();
        let mut i: usize = 0;
        while i < hashes.len()
            invariant
                i <= hashes@.len(),
                members@ == signer_entries(hashes@.take(i as int)),
            decreases hashes@.len() - i,
        {
            members.push((hashes[i], ()));
            proof {
                assert(signer_entries(hashes@.take(i + 1)) =~= signer_entries(hashes@.take(i as int)).push((hashes@[i as int], ())));
            }
            i = i + 1;
        }
        proof {
            assert(hashes@.take(i as int) =~= hashes@);
        }
        RequiredSigners(SortedMap::from_pairs(members))
    }
}

} // verus!
