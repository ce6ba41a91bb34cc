//! Ledger data as the phase-two views read it: identifiers with their
//! canonical order, and the transaction parts that scripts see.
use vstd::prelude::*;

use crate::kernel::address::{Hash28, Hash32};
use crate::ordered_map::{bytes_key, compare_bytes, lemma_order_equal, seq_order, KeyOrder, SortKey};

verus! {

#[verifier::external_type_specification]
#[verifier::external_body]
pub struct ExPlutusData(pallas_primitives::PlutusData);

#[verifier::external_type_specification]
#[verifier::external_body]
pub struct ExNativeScript(pallas_primitives::alonzo::NativeScript);

/// Ordering `seq![x] + a` against `seq![y] + b`: by the first element, then by the rest.
pub proof fn lemma_order_cons(x: int, a: Seq<int>, y: int, b: Seq<int>)
    ensures
        seq_order(seq![x] + a, seq![y] + b) == (if x < y {
            KeyOrder::Less
        } else if x > y {
            KeyOrder::Greater
        } else {
            seq_order(a, b)
        }),
{
    let l = seq![x] + a;
    let r = seq![y] + b;
    assert(l[0] == x);
    assert(r[0] == y);
    assert(l.drop_first() =~= a);
    assert(r.drop_first() =~= b);
}

/// Ordering concatenations whose first parts have the same length: by the
/// first parts, then by the second parts.
pub proof fn lemma_order_concat(a: Seq<int>, c: Seq<int>, b: Seq<int>, d: Seq<int>)
    requires
        a.len() == b.len(),
    ensures
        seq_order(a + c, b + d) == (if seq_order(a, b) == KeyOrder::Equal {
            seq_order(c, d)
        } else {
            seq_order(a, b)
        }),
    decreases a.len(),
{
    lemma_order_equal(a, b);
    if a.len() == 0 {
        assert(a + c =~= c);
        assert(b + d =~= d);
    } else {
        lemma_order_concat(a.drop_first(), c, b.drop_first(), d);
        assert((a + c).drop_first() =~= a.drop_first() + c);
        assert((b + d).drop_first() =~= b.drop_first() + d);
        assert((a + c)[0] == a[0]);
        assert((b + d)[0] == b[0]);
        lemma_order_equal(a.drop_first(), b.drop_first());
        if a.drop_first() == b.drop_first() && a[0] == b[0] {
            assert(a =~= b);
        }
    }
}

/// The name of a native asset: a byte string of at most 32 bytes.
#[derive(Debug, Clone, PartialEq, Eq, PartialOrd, Ord, Hash)]
pub struct AssetName(pub Vec<u8>);

impl SortKey for AssetName {
    open spec fn sort_key(&self) -> Seq<int> {
        bytes_key(self.0@)
    }

    fn compare(&self, other: &Self) -> (o: KeyOrder) {
        compare_bytes(self.0.as_slice(), other.0.as_slice())
    }
}

impl AssetName {
    pub fn is_empty(&self) -> (b: bool)
        ensures
            b == (self.0@.len() == 0),
    {
        self.0.len() == 0
    }
}

/// A reference to an output of a previous transaction.
#[derive(Debug, Copy, Clone, PartialEq, Eq, PartialOrd, Ord, Hash)]
pub struct TransactionInput {
    pub transaction_id: Hash32,
    pub index: u64,
}

impl SortKey for TransactionInput {
    open spec fn sort_key(&self) -> Seq<int> {
        bytes_key(self.transaction_id.0@) + seq![self.index as int]
    }

    fn compare(&self, other: &Self) -> (o: KeyOrder) {
        let by_id = self.transaction_id.compare(&other.transaction_id);
        proof {
            lemma_order_concat(
                bytes_key(self.transaction_id.0@),
                seq![self.index as int],
                bytes_key(other.transaction_id.0@),
                seq![other.index as int],
            );
            lemma_order_cons(self.index as int, Seq::empty(), other.index as int, Seq::empty());
            assert(seq![self.index as int] =~= seq![self.index as int] + Seq::<int>::empty());
            assert(seq![other.index as int] =~= seq![other.index as int] + Seq::<int>::empty());
        }
        if by_id != KeyOrder::Equal {
            by_id
        } else if self.index < other.index {
            KeyOrder::Less
        } else if self.index > other.index {
            KeyOrder::Greater
        } else {
            KeyOrder::Equal
        }
    }
}

/// The execution units granted to a script: memory and CPU steps.
#[derive(Debug, Copy, Clone, PartialEq, Eq, Structural)]
pub struct ExUnits {
    pub mem: u64,
    pub steps: u64,
}

/// What a redeemer points at: inputs, policies, certificates, withdrawals, voters, proposals.
#[derive(Debug, Copy, Clone, PartialEq, Eq, PartialOrd, Ord, Hash, Structural)]
pub enum RedeemerTag {
    Spend,
    Mint,
    Cert,
    Reward,
    Vote,
    Propose,
}

/// The position of a tag in the canonical order of tags.
pub open spec fn tag_rank(t: RedeemerTag) -> int {
    match t {
        RedeemerTag::Spend => 0,
        RedeemerTag::Mint => 1,
        RedeemerTag::Cert => 2,
        RedeemerTag::Reward => 3,
        RedeemerTag::Vote => 4,
        RedeemerTag::Propose => 5,
    }
}

fn tag_position(t: RedeemerTag) -> (n: u8)
    ensures
        n as int == tag_rank(t),
{
    match t {
        RedeemerTag::Spend => 0,
        RedeemerTag::Mint => 1,
        RedeemerTag::Cert => 2,
        RedeemerTag::Reward => 3,
        RedeemerTag::Vote => 4,
        RedeemerTag::Propose => 5,
    }
}

/// The pointer of a redeemer: a tag and an index among the items of that tag.
#[derive(Debug, Copy, Clone, PartialEq, Eq, PartialOrd, Ord, Hash, Structural)]
pub struct RedeemerKey {
    pub tag: RedeemerTag,
    pub index: u32,
}

impl SortKey for RedeemerKey {
    open spec fn sort_key(&self) -> Seq<int> {
        seq![tag_rank(self.tag), self.index as int]
    }

    fn compare(&self, other: &Self) -> (o: KeyOrder) {
        let a = tag_position(self.tag);
        let b = tag_position(other.tag);
        proof {
            assert(self.sort_key() =~= seq![tag_rank(self.tag)] + seq![self.index as int]);
            assert(other.sort_key() =~= seq![tag_rank(other.tag)] + seq![other.index as int]);
            lemma_order_cons(tag_rank(self.tag), seq![self.index as int], tag_rank(other.tag), seq![other.index as int]);
            assert(seq![self.index as int] =~= seq![self.index as int] + Seq::<int>::empty());
            assert(seq![other.index as int] =~= seq![other.index as int] + Seq::<int>::empty());
            lemma_order_cons(self.index as int, Seq::empty(), other.index as int, Seq::empty());
        }
        if a < b {
            KeyOrder::Less
        } else if a > b {
            KeyOrder::Greater
        } else if self.index < other.index {
            KeyOrder::Less
        } else if self.index > other.index {
            KeyOrder::Greater
        } else {
            KeyOrder::Equal
        }
    }
}

/// A script written in Plutus of the given language version: its bytes,
/// a CBOR byte string wrapping the flat-encoded program.
#[derive(Debug, Clone, PartialEq, Eq)]
pub struct PlutusScript<const VERSION: usize>(pub Vec<u8>);

/// A ledger value: lovelace, and possibly native assets by policy.
pub enum LedgerValue {
    Coin(u64),
    Multiasset(u64, Vec<(Hash28, Vec<(AssetName, u64)>)>),
}

/// A datum together with the bytes it was decoded from.
pub struct MemoizedPlutusData {
    pub original_bytes: Vec<u8>,
    pub data: pallas_primitives::PlutusData,
}

/// The datum of an output: none, the hash of a datum, or the datum itself.
pub enum MemoizedDatum {
    NoDatum,
    Hash(Hash32),
    Inline(MemoizedPlutusData),
}

/// A script of any kind.
pub enum MemoizedScript {
    NativeScript(pallas_primitives::alonzo::NativeScript),
    PlutusV1Script(PlutusScript<1>),
    PlutusV2Script(PlutusScript<2>),
    PlutusV3Script(PlutusScript<3>),
}

/// A transaction output: its address, value, datum and reference script.
pub struct MemoizedTransactionOutput {
    pub address: pallas_addresses::Address,
    pub value: LedgerValue,
    pub datum: MemoizedDatum,
    pub script: Option<MemoizedScript>,
}

/// Who casts a governance vote.
#[derive(Debug, Copy, Clone, PartialEq, Eq, PartialOrd, Ord, Hash)]
pub enum Voter {
    ConstitutionalCommitteeScript(Hash28),
    ConstitutionalCommitteeKey(Hash28),
    DRepScript(Hash28),
    DRepKey(Hash28),
    StakePoolKey(Hash28),
}

impl Voter {
    /// The position of the voter's kind, and its credential.
    pub open spec fn parts(&self) -> (int, Hash28) {
        match self {
            Voter::ConstitutionalCommitteeScript(h) => (0, *h),
            Voter::ConstitutionalCommitteeKey(h) => (1, *h),
            Voter::DRepScript(h) => (2, *h),
            Voter::DRepKey(h) => (3, *h),
            Voter::StakePoolKey(h) => (4, *h),
        }
    }

    fn kind_and_hash(&self) -> (r: (u8, &Hash28))
        ensures
            r.0 as int == self.parts().0,
            *r.1 == self.parts().1,
    {
        match self {
            Voter::ConstitutionalCommitteeScript(h) => (0, h),
            Voter::ConstitutionalCommitteeKey(h) => (1, h),
            Voter::DRepScript(h) => (2, h),
            Voter::DRepKey(h) => (3, h),
            Voter::StakePoolKey(h) => (4, h),
        }
    }
}

impl SortKey for Voter {
    open spec fn sort_key(&self) -> Seq<int> {
        seq![self.parts().0] + self.parts().1.sort_key()
    }

    fn compare(&self, other: &Self) -> (o: KeyOrder) {
        let (a, ha) = self.kind_and_hash();
        let (b, hb) = other.kind_and_hash();
        proof {
            lemma_order_cons(self.parts().0, self.parts().1.sort_key(), other.parts().0, other.parts().1.sort_key());
        }
        if a < b {
            KeyOrder::Less
        } else if a > b {
            KeyOrder::Greater
        } else {
            ha.compare(hb)
        }
    }
}

/// A governance action, by the transaction that proposed it and its index there.
#[derive(Debug, Copy, Clone, PartialEq, Eq, PartialOrd, Ord, Hash)]
pub struct ProposalId {
    pub transaction_id: Hash32,
    pub action_index: u32,
}

impl SortKey for ProposalId {
    open spec fn sort_key(&self) -> Seq<int> {
        bytes_key(self.transaction_id.0@) + seq![self.action_index as int]
    }

    fn compare(&self, other: &Self) -> (o: KeyOrder) {
        let by_id = self.transaction_id.compare(&other.transaction_id);
        proof {
            lemma_order_concat(
                bytes_key(self.transaction_id.0@),
                seq![self.action_index as int],
                bytes_key(other.transaction_id.0@),
                seq![other.action_index as int],
            );
            assert(seq![self.action_index as int] =~= seq![self.action_index as int] + Seq::<int>::empty());
            assert(seq![other.action_index as int] =~= seq![other.action_index as int] + Seq::<int>::empty());
            lemma_order_cons(self.action_index as int, Seq::empty(), other.action_index as int, Seq::empty());
        }
        if by_id != KeyOrder::Equal {
            by_id
        } else if self.action_index < other.action_index {
            KeyOrder::Less
        } else if self.action_index > other.action_index {
            KeyOrder::Greater
        } else {
            KeyOrder::Equal
        }
    }
}

/// A vote on a governance action.
#[derive(Debug, Copy, Clone, PartialEq, Eq, Hash, Structural)]
pub enum Vote {
    No,
    Yes,
    Abstain,
}

/// A vote, and the anchor (URL and content hash) that documents it.
pub struct VotingProcedure {
    pub vote: Vote,
    pub anchor: Option<(String, Hash32)>,
}

/// Redeemer pointers sort by tag, in the order Spend, Mint, Cert, Reward,
/// Vote, Propose, whatever their indices.
pub proof fn lemma_redeemer_tag_order(i: u32, j: u32)
    ensures
        seq_order(RedeemerKey { tag: RedeemerTag::Spend, index: i }.sort_key(), RedeemerKey { tag: RedeemerTag::Mint, index: j }.sort_key()) == KeyOrder::Less,
        seq_order(RedeemerKey { tag: RedeemerTag::Mint, index: i }.sort_key(), RedeemerKey { tag: RedeemerTag::Cert, index: j }.sort_key()) == KeyOrder::Less,
        seq_order(RedeemerKey { tag: RedeemerTag::Cert, index: i }.sort_key(), RedeemerKey { tag: RedeemerTag::Reward, index: j }.sort_key()) == KeyOrder::Less,
        seq_order(RedeemerKey { tag: RedeemerTag::Reward, index: i }.sort_key(), RedeemerKey { tag: RedeemerTag::Vote, index: j }.sort_key()) == KeyOrder::Less,
        seq_order(RedeemerKey { tag: RedeemerTag::Vote, index: i }.sort_key(), RedeemerKey { tag: RedeemerTag::Propose, index: j }.sort_key()) == KeyOrder::Less,
{
    lemma_redeemer_keys_split(RedeemerKey { tag: RedeemerTag::Spend, index: i }, RedeemerKey { tag: RedeemerTag::Mint, index: j });
    lemma_redeemer_keys_split(RedeemerKey { tag: RedeemerTag::Mint, index: i }, RedeemerKey { tag: RedeemerTag::Cert, index: j });
    lemma_redeemer_keys_split(RedeemerKey { tag: RedeemerTag::Cert, index: i }, RedeemerKey { tag: RedeemerTag::Reward, index: j });
    lemma_redeemer_keys_split(RedeemerKey { tag: RedeemerTag::Reward, index: i }, RedeemerKey { tag: RedeemerTag::Vote, index: j });
    lemma_redeemer_keys_split(RedeemerKey { tag: RedeemerTag::Vote, index: i }, RedeemerKey { tag: RedeemerTag::Propose, index: j });
}

/// Redeemer pointers with the same tag sort by index.
pub proof fn lemma_redeemer_index_order(tag: RedeemerTag, i: u32, j: u32)
    ensures
        seq_order(RedeemerKey { tag, index: i }.sort_key(), RedeemerKey { tag, index: j }.sort_key()) == (if i < j {
            KeyOrder::Less
        } else if i > j {
            KeyOrder::Greater
        } else {
            KeyOrder::Equal
        }),
{
    lemma_redeemer_keys_split(RedeemerKey { tag, index: i }, RedeemerKey { tag, index: j });
}

proof fn lemma_redeemer_keys_split(a: RedeemerKey, b: RedeemerKey)
    ensures
        seq_order(a.sort_key(), b.sort_key()) == seq_order(
            seq![tag_rank(a.tag)] + seq![a.index as int],
            seq![tag_rank(b.tag)] + seq![b.index as int],
        ),
        seq_order(seq![tag_rank(a.tag)] + seq![a.index as int], seq![tag_rank(b.tag)] + seq![b.index as int]) == (
        if tag_rank(a.tag) < tag_rank(b.tag) {
            KeyOrder::Less
        } else if tag_rank(a.tag) > tag_rank(b.tag) {
            KeyOrder::Greater
        } else if a.index < b.index {
            KeyOrder::Less
        } else if a.index > b.index {
            KeyOrder::Greater
        } else {
            KeyOrder::Equal
        }),
{
    assert(a.sort_key() =~= seq![tag_rank(a.tag)] + seq![a.index as int]);
    assert(b.sort_key() =~= seq![tag_rank(b.tag)] + seq![b.index as int]);
    lemma_order_cons(tag_rank(a.tag), seq![a.index as int], tag_rank(b.tag), seq![b.index as int]);
    assert(seq![a.index as int] =~= seq![a.index as int] + Seq::<int>::empty());
    assert(seq![b.index as int] =~= seq![b.index as int] + Seq::<int>::empty());
    lemma_order_cons(a.index as int, Seq::empty(), b.index as int, Seq::empty());
}

/// Voters sort by kind, in the order constitutional committee script,
/// constitutional committee key, DRep script, DRep key, stake pool, whatever
/// their credentials.
pub proof fn lemma_voter_kind_order(g: Hash28, h: Hash28)
    ensures
        seq_order(Voter::ConstitutionalCommitteeScript(g).sort_key(), Voter::ConstitutionalCommitteeKey(h).sort_key()) == KeyOrder::Less,
        seq_order(Voter::ConstitutionalCommitteeKey(g).sort_key(), Voter::DRepScript(h).sort_key()) == KeyOrder::Less,
        seq_order(Voter::DRepScript(g).sort_key(), Voter::DRepKey(h).sort_key()) == KeyOrder::Less,
        seq_order(Voter::DRepKey(g).sort_key(), Voter::StakePoolKey(h).sort_key()) == KeyOrder::Less,
{
    lemma_voter_keys_split(Voter::ConstitutionalCommitteeScript(g), Voter::ConstitutionalCommitteeKey(h));
    lemma_voter_keys_split(Voter::ConstitutionalCommitteeKey(g), Voter::DRepScript(h));
    lemma_voter_keys_split(Voter::DRepScript(g), Voter::DRepKey(h));
    lemma_voter_keys_split(Voter::DRepKey(g), Voter::StakePoolKey(h));
}

/// Voters of the same kind sort by the bytes of their credential hash.
pub proof fn lemma_voter_hash_order(g: Hash28, h: Hash28)
    ensures
        seq_order(Voter::ConstitutionalCommitteeScript(g).sort_key(), Voter::ConstitutionalCommitteeScript(h).sort_key()) == seq_order(bytes_key(g.0@), bytes_key(h.0@)),
        seq_order(Voter::ConstitutionalCommitteeKey(g).sort_key(), Voter::ConstitutionalCommitteeKey(h).sort_key()) == seq_order(bytes_key(g.0@), bytes_key(h.0@)),
        seq_order(Voter::DRepScript(g).sort_key(), Voter::DRepScript(h).sort_key()) == seq_order(bytes_key(g.0@), bytes_key(h.0@)),
        seq_order(Voter::DRepKey(g).sort_key(), Voter::DRepKey(h).sort_key()) == seq_order(bytes_key(g.0@), bytes_key(h.0@)),
        seq_order(Voter::StakePoolKey(g).sort_key(), Voter::StakePoolKey(h).sort_key()) == seq_order(bytes_key(g.0@), bytes_key(h.0@)),
{
    lemma_voter_keys_split(Voter::ConstitutionalCommitteeScript(g), Voter::ConstitutionalCommitteeScript(h));
    lemma_voter_keys_split(Voter::ConstitutionalCommitteeKey(g), Voter::ConstitutionalCommitteeKey(h));
    lemma_voter_keys_split(Voter::DRepScript(g), Voter::DRepScript(h));
    lemma_voter_keys_split(Voter::DRepKey(g), Voter::DRepKey(h));
    lemma_voter_keys_split(Voter::StakePoolKey(g), Voter::StakePoolKey(h));
}

proof fn lemma_voter_keys_split(a: Voter, b: Voter)
    ensures
        seq_order(a.sort_key(), b.sort_key()) == (if a.parts().0 < b.parts().0 {
            KeyOrder::Less
        } else if a.parts().0 > b.parts().0 {
            KeyOrder::Greater
        } else {
            seq_order(bytes_key(a.parts().1.0@), bytes_key(b.parts().1.0@))
        }),
{
    lemma_order_cons(a.parts().0, a.parts().1.sort_key(), b.parts().0, b.parts().1.sort_key());
}

/// Governance actions sort by the bytes of the proposing transaction's id,
/// then, within one transaction, by ascending action index.
pub proof fn lemma_proposal_order(a: ProposalId, b: ProposalId)
    ensures
        a.transaction_id == b.transaction_id ==> seq_order(a.sort_key(), b.sort_key()) == (if a.action_index
            < b.action_index {
            KeyOrder::Less
        } else if a.action_index > b.action_index {
            KeyOrder::Greater
        } else {
            KeyOrder::Equal
        }),
        a.transaction_id != b.transaction_id ==> seq_order(a.sort_key(), b.sort_key()) == seq_order(
            bytes_key(a.transaction_id.0@),
            bytes_key(b.transaction_id.0@),
        ) && seq_order(bytes_key(a.transaction_id.0@), bytes_key(b.transaction_id.0@)) != KeyOrder::Equal,
{
    lemma_id_then_index_order(a.transaction_id, a.action_index as int, b.transaction_id, b.action_index as int);
}

/// Transaction inputs sort by the bytes of the transaction id, then, within
/// one transaction, by ascending output index.
pub proof fn lemma_input_order(a: TransactionInput, b: TransactionInput)
    ensures
        a.transaction_id == b.transaction_id ==> seq_order(a.sort_key(), b.sort_key()) == (if a.index < b.index {
            KeyOrder::Less
        } else if a.index > b.index {
            KeyOrder::Greater
        } else {
            KeyOrder::Equal
        }),
        a.transaction_id != b.transaction_id ==> seq_order(a.sort_key(), b.sort_key()) == seq_order(
            bytes_key(a.transaction_id.0@),
            bytes_key(b.transaction_id.0@),
        ) && seq_order(bytes_key(a.transaction_id.0@), bytes_key(b.transaction_id.0@)) != KeyOrder::Equal,
{
    lemma_id_then_index_order(a.transaction_id, a.index as int, b.transaction_id, b.index as int);
}

proof fn lemma_id_then_index_order(x: Hash32, i: int, y: Hash32, j: int)
    ensures
        x == y ==> seq_order(bytes_key(x.0@) + seq![i], bytes_key(y.0@) + seq![j]) == (if i < j {
            KeyOrder::Less
        } else if i > j {
            KeyOrder::Greater
        } else {
            KeyOrder::Equal
        }),
        x != y ==> seq_order(bytes_key(x.0@) + seq![i], bytes_key(y.0@) + seq![j]) == seq_order(
            bytes_key(x.0@),
            bytes_key(y.0@),
        ) && seq_order(bytes_key(x.0@), bytes_key(y.0@)) != KeyOrder::Equal,
{
    lemma_order_concat(bytes_key(x.0@), seq![i], bytes_key(y.0@), seq![j]);
    lemma_order_equal(bytes_key(x.0@), bytes_key(y.0@));
    assert(seq![i] =~= seq![i] + Seq::<int>::empty());
    assert(seq![j] =~= seq![j] + Seq::<int>::empty());
    lemma_order_cons(i, Seq::empty(), j, Seq::empty());
    if bytes_key(x.0@) == bytes_key(y.0@) {
        crate::kernel::address::lemma_hash_key_injective(x, y);
    }
}

} // verus!
