//! Stake addresses, and the order in which Plutus expects them.
use vstd::prelude::*;

use crate::ordered_map::{bytes_key, compare_bytes, lemma_order_equal, lemma_order_less_trans, lemma_order_swap, seq_order, KeyOrder, SortKey};

verus! {

/// A fixed-size hash digest, such as a 28-byte credential hash.
#[derive(Debug, Copy, Clone, PartialEq, Eq, PartialOrd, Ord, Hash)]
pub struct Hash<const N: usize>(pub [u8; N]);

impl<const N: usize> SortKey for Hash<N> {
    open spec fn sort_key(&self) -> Seq<int> {
        bytes_key(self.0@)
    }

    fn compare(&self, other: &Self) -> (o: KeyOrder) {
        let a = self.0.as_slice();
        let b = other.0.as_slice();
        let o = compare_bytes(a, b);
        assert(a@ == self.0@ && b@ == other.0@);
        assert(self.sort_key() == bytes_key(self.0@));
        assert(other.sort_key() == bytes_key(other.0@));
        o
    }
}

/// A 28-byte hash: a credential, policy or script hash.
pub type Hash28 = Hash<28>;

/// A 32-byte hash: a transaction id or a datum hash.
pub type Hash32 = Hash<32>;

/// Two hashes with the same sort key are the same hash.
pub proof fn lemma_hash_key_injective<const N: usize>(a: Hash<N>, b: Hash<N>)
    requires
        a.sort_key() == b.sort_key(),
    ensures
        a == b,
{
    broadcast use vstd::array::group_array_axioms;

    assert forall|i: int| 0 <= i < N implies a.0@[i] == b.0@[i] by {
        assert(bytes_key(a.0@)[i] == bytes_key(b.0@)[i]);
    }
    assert forall|i: int| 0 <= i < N implies a.0[i] == b.0[i] by {
        assert(a.0@[i] == b.0@[i]);
    }
    assert(a.0 =~= b.0);
}

/// The network an address belongs to, by its numeric id: 0 for the testnets,
/// 1 for mainnet, any other id for a custom network.
#[derive(Debug, Copy, Clone, PartialEq, Eq, Structural, Hash)]
pub struct Network {
    pub id: u8,
}

impl Network {
    pub fn testnet() -> (n: Network)
        ensures
            n.id == 0,
    {
        Network { id: 0 }
    }

    pub fn mainnet() -> (n: Network)
        ensures
            n.id == 1,
    {
        Network { id: 1 }
    }

    pub fn from_id(id: u8) -> (n: Network)
        ensures
            n.id == id,
    {
        Network { id }
    }

    pub fn is_mainnet(&self) -> (b: bool)
        ensures
            b == (self.id == 1),
    {
        self.id == 1
    }
}

/// The credential of a stake address: a verification-key hash or a script hash.
#[derive(Debug, Copy, Clone, PartialEq, Eq, Hash)]
pub enum StakePayload {
    Stake(Hash<28>),
    Script(Hash<28>),
}

impl StakePayload {
    /// The credential hash, whatever its kind.
    pub fn as_hash(&self) -> (h: &Hash<28>)
        ensures
            match self {
                StakePayload::Stake(x) => *h == *x,
                StakePayload::Script(x) => *h == *x,
            },
    {
        match self {
            StakePayload::Stake(x) => x,
            StakePayload::Script(x) => x,
        }
    }

    pub fn is_script(&self) -> (b: bool)
        ensures
            b == (self is Script),
    {
        match self {
            StakePayload::Stake(_) => false,
            StakePayload::Script(_) => true,
        }
    }
}

/// A decoded stake (reward) address: a network and a credential.
#[derive(Debug, Copy, Clone, PartialEq, Eq, Hash)]
pub struct StakeAddress {
    pub network: Network,
    pub payload: StakePayload,
}

impl StakeAddress {
    pub fn new(network: Network, payload: StakePayload) -> (a: StakeAddress)
        ensures
            a.network == network,
            a.payload == payload,
    {
        StakeAddress { network, payload }
    }

    pub fn network(&self) -> (n: Network)
        ensures
            n == self.network,
    {
        self.network
    }

    pub fn payload(&self) -> (p: &StakePayload)
        ensures
            *p == self.payload,
    {
        &self.payload
    }
}

/// A stake address ordered the way Plutus expects withdrawal keys to be
/// sorted: by network, then script credentials before key credentials, then
/// by the bytes of the credential hash. Equality agrees with this order.
#[derive(Debug, Copy, Clone)]
pub struct PlutusStakeAddress(pub StakeAddress);

/// The rank of a credential kind: scripts sort before verification keys.
pub open spec fn payload_rank(p: StakePayload) -> int {
    match p {
        StakePayload::Script(_) => 0,
        StakePayload::Stake(_) => 1,
    }
}

/// The hash of a credential.
pub open spec fn payload_hash(p: StakePayload) -> Hash<28> {
    match p {
        StakePayload::Script(h) => h,
        StakePayload::Stake(h) => h,
    }
}

/// The Plutus order of two stake addresses: by network id, then scripts
/// before keys, then by hash bytes.
pub open spec fn plutus_order(a: StakeAddress, b: StakeAddress) -> KeyOrder {
    if a.network.id != b.network.id {
        if a.network.id < b.network.id {
            KeyOrder::Less
        } else {
            KeyOrder::Greater
        }
    } else {
        match (a.payload, b.payload) {
            (StakePayload::Script(..), StakePayload::Stake(..)) => KeyOrder::Less,
            (StakePayload::Stake(..), StakePayload::Script(..)) => KeyOrder::Greater,
            (StakePayload::Script(x), StakePayload::Script(y)) => seq_order(x.sort_key(), y.sort_key()),
            (StakePayload::Stake(x), StakePayload::Stake(y)) => seq_order(x.sort_key(), y.sort_key()),
        }
    }
}

impl SortKey for PlutusStakeAddress {
    open spec fn sort_key(&self) -> Seq<int> {
        seq![self.0.network.id as int, payload_rank(self.0.payload)] + payload_hash(
            self.0.payload,
        ).sort_key()
    }

    fn compare(&self, other: &Self) -> (o: KeyOrder) {
        proof {
            lemma_plutus_order_is_key_order(self.0, other.0);
        }
        self.plutus_compare(other)
    }
}

/// The Plutus order is the lexicographic order of the sort keys.
pub proof fn lemma_plutus_order_is_key_order(a: StakeAddress, b: StakeAddress)
    ensures
        plutus_order(a, b) == seq_order(
            PlutusStakeAddress(a).sort_key(),
            PlutusStakeAddress(b).sort_key(),
        ),
{
    let ka = PlutusStakeAddress(a).sort_key();
    let kb = PlutusStakeAddress(b).sort_key();
    let ta = ka.drop_first();
    let tb = kb.drop_first();
    assert(ka[0] == a.network.id as int);
    assert(kb[0] == b.network.id as int);
    assert(ta[0] == payload_rank(a.payload));
    assert(tb[0] == payload_rank(b.payload));
    assert(ta.drop_first() =~= payload_hash(a.payload).sort_key());
    assert(tb.drop_first() =~= payload_hash(b.payload).sort_key());
    assert(ka.len() >= 2 && kb.len() >= 2);
    assert(seq_order(ka, kb) == (if ka[0] < kb[0] {
        KeyOrder::Less
    } else if ka[0] > kb[0] {
        KeyOrder::Greater
    } else {
        seq_order(ta, tb)
    }));
    assert(seq_order(ta, tb) == (if ta[0] < tb[0] {
        KeyOrder::Less
    } else if ta[0] > tb[0] {
        KeyOrder::Greater
    } else {
        seq_order(ta.drop_first(), tb.drop_first())
    }));
}

impl PlutusStakeAddress {
    /// The Plutus order: by network, then script credentials before key
    /// credentials, then lexicographic order of the hash bytes.
    pub fn plutus_compare(&self, other: &Self) -> (o: KeyOrder)
        ensures
            o == plutus_order(self.0, other.0),
    {
        let a = self.0.network.id;
        let b = other.0.network.id;
        if a != b {
            return if a < b {
                KeyOrder::Less
            } else {
                KeyOrder::Greater
            };
        }
        match (&self.0.payload, &other.0.payload) {
            (StakePayload::Script(..), StakePayload::Stake(..)) => KeyOrder::Less,
            (StakePayload::Stake(..), StakePayload::Script(..)) => KeyOrder::Greater,
            (StakePayload::Script(x), StakePayload::Script(y)) => x.compare(y),
            (StakePayload::Stake(x), StakePayload::Stake(y)) => x.compare(y),
        }
    }

    /// The wrapped stake address.
    pub fn as_ref(&self) -> (a: &StakeAddress)
        ensures
            *a == self.0,
    {
        &self.0
    }
}

impl From<StakeAddress> for PlutusStakeAddress {
    fn from(value: StakeAddress) -> (r: Self) {
        PlutusStakeAddress(value)
    }
}

impl vstd::std_specs::convert::FromSpecImpl<StakeAddress> for PlutusStakeAddress {
    open spec fn obeys_from_spec() -> bool {
        true
    }

    open spec fn from_spec(v: StakeAddress) -> PlutusStakeAddress {
        PlutusStakeAddress(v)
    }
}

impl From<PlutusStakeAddress> for StakeAddress {
    fn from(value: PlutusStakeAddress) -> (r: Self) {
        value.0
    }
}

impl vstd::std_specs::convert::FromSpecImpl<PlutusStakeAddress> for StakeAddress {
    open spec fn obeys_from_spec() -> bool {
        true
    }

    open spec fn from_spec(v: PlutusStakeAddress) -> StakeAddress {
        v.0
    }
}

impl PartialEq for PlutusStakeAddress {
    fn eq(&self, other: &Self) -> (r: bool) {
        proof {
            lemma_plutus_order_is_key_order(self.0, other.0);
        }
        self.plutus_compare(other) == KeyOrder::Equal
    }
}

impl vstd::std_specs::cmp::PartialEqSpecImpl for PlutusStakeAddress {
    open spec fn obeys_eq_spec() -> bool {
        true
    }

    open spec fn eq_spec(&self, other: &PlutusStakeAddress) -> bool {
        plutus_order(self.0, other.0) == KeyOrder::Equal
    }
}

impl Eq for PlutusStakeAddress {
}

/// The standard ordering that a key order stands for.
pub open spec fn ordering_of(o: KeyOrder) -> core::cmp::Ordering {
    match o {
        KeyOrder::Less => core::cmp::Ordering::Less,
        KeyOrder::Equal => core::cmp::Ordering::Equal,
        KeyOrder::Greater => core::cmp::Ordering::Greater,
    }
}

impl PartialOrd for PlutusStakeAddress {
    fn partial_cmp(&self, other: &Self) -> (r: Option<core::cmp::Ordering>) {
        Some(
            match self.plutus_compare(other) {
                KeyOrder::Less => core::cmp::Ordering::Less,
                KeyOrder::Equal => core::cmp::Ordering::Equal,
                KeyOrder::Greater => core::cmp::Ordering::Greater,
            },
        )
    }
}

impl vstd::std_specs::cmp::PartialOrdSpecImpl for PlutusStakeAddress {
    open spec fn obeys_partial_cmp_spec() -> bool {
        true
    }

    open spec fn partial_cmp_spec(&self, other: &PlutusStakeAddress) -> Option<core::cmp::Ordering> {
        Some(ordering_of(plutus_order(self.0, other.0)))
    }
}

/// The Plutus order of stake addresses, case by case: a lower network id
/// sorts first whatever the credentials; on one network a script credential
/// sorts before a key credential whatever the hashes; credentials of the same
/// kind sort by the bytes of their hash.
pub proof fn lemma_plutus_order_cases(n: Network, m: Network, p: StakePayload, q: StakePayload, g: Hash28, h: Hash28)
    ensures
        n.id < m.id ==> plutus_order(StakeAddress { network: n, payload: p }, StakeAddress { network: m, payload: q })
            == KeyOrder::Less,
        plutus_order(
            StakeAddress { network: n, payload: StakePayload::Script(g) },
            StakeAddress { network: n, payload: StakePayload::Stake(h) },
        ) == KeyOrder::Less,
        plutus_order(
            StakeAddress { network: n, payload: StakePayload::Script(g) },
            StakeAddress { network: n, payload: StakePayload::Script(h) },
        ) == seq_order(bytes_key(g.0@), bytes_key(h.0@)),
        plutus_order(
            StakeAddress { network: n, payload: StakePayload::Stake(g) },
            StakeAddress { network: n, payload: StakePayload::Stake(h) },
        ) == seq_order(bytes_key(g.0@), bytes_key(h.0@)),
{
}

/// Plutus-order equality of stake addresses is equality of the addresses.
pub proof fn lemma_plutus_equal_iff_same(a: StakeAddress, b: StakeAddress)
    ensures
        (plutus_order(a, b) == KeyOrder::Equal) <==> (a == b),
{
    lemma_plutus_order_is_key_order(a, b);
    let ka = PlutusStakeAddress(a).sort_key();
    let kb = PlutusStakeAddress(b).sort_key();
    lemma_order_equal(ka, kb);
    if ka == kb {
        assert(ka[0] == kb[0]);
        assert(ka[1] == kb[1]);
        assert(ka.skip(2) =~= payload_hash(a.payload).sort_key());
        assert(kb.skip(2) =~= payload_hash(b.payload).sort_key());
        lemma_hash_key_injective(payload_hash(a.payload), payload_hash(b.payload));
    }
}

/// The Plutus order of stake addresses is a strict total order: exactly one of
/// less, equal or greater holds, swapping the arguments swaps less and
/// greater, and less is transitive.
pub proof fn lemma_plutus_order_total(a: StakeAddress, b: StakeAddress, c: StakeAddress)
    ensures
        (plutus_order(a, b) == KeyOrder::Less) <==> (plutus_order(b, a) == KeyOrder::Greater),
        (plutus_order(a, b) == KeyOrder::Equal) <==> (a == b),
        plutus_order(a, b) == KeyOrder::Less && plutus_order(b, c) == KeyOrder::Less ==> plutus_order(
            a,
            c,
        ) == KeyOrder::Less,
{
    lemma_plutus_order_is_key_order(a, b);
    lemma_plutus_order_is_key_order(b, a);
    lemma_plutus_order_is_key_order(b, c);
    lemma_plutus_order_is_key_order(a, c);
    let ka = PlutusStakeAddress(a).sort_key();
    let kb = PlutusStakeAddress(b).sort_key();
    let kc = PlutusStakeAddress(c).sort_key();
    lemma_order_swap(ka, kb);
    lemma_plutus_equal_iff_same(a, b);
    if seq_order(ka, kb) == KeyOrder::Less && seq_order(kb, kc) == KeyOrder::Less {
        lemma_order_less_trans(ka, kb, kc);
    }
}


#[verifier::external_type_specification]
#[verifier::external_body]
pub struct ExAddress(pallas_addresses::Address);

#[verifier::external_type_specification]
#[verifier::external_body]
pub struct ExAddressError(pallas_addresses::Error);

/// What the bytes of an address decode to, as far as the ledger's phase-two
/// logic reads it: a stake address, or any other kind of address.
pub enum DecodedAddress {
    Stake(StakeAddress),
    Other(pallas_addresses::Address),
}

/// The bytes encode a stake address: a header whose high nibble is 14 (key
/// credential) or 15 (script credential), followed by a 28-byte hash.
pub open spec fn is_stake_encoding(b: Seq<u8>) -> bool {
    &&& b.len() >= 29
    &&& (b[0] / 16 == 14 || b[0] / 16 == 15)
}

/// `a` is the stake address that the bytes `b` encode: the header's low nibble
/// is the network id, its high nibble the credential kind, then the hash.
pub open spec fn encodes_stake_address(b: Seq<u8>, a: StakeAddress) -> bool {
    &&& a.network.id == b[0] % 16
    &&& (a.payload is Script <==> b[0] / 16 == 15)
    &&& payload_hash(a.payload).0@ == b.subrange(1, 29)
}

/// The stake address that the bytes encode.
pub open spec fn stake_address_from_bytes(b: Seq<u8>) -> StakeAddress {
    choose|a: StakeAddress| encodes_stake_address(b, a)
}

/// Bytes encode at most one stake address.
pub proof fn lemma_encoded_stake_address_unique(b: Seq<u8>, a: StakeAddress)
    requires
        is_stake_encoding(b),
        encodes_stake_address(b, a),
    ensures
        stake_address_from_bytes(b) == a,
{
    broadcast use vstd::array::group_array_axioms;

    let c = stake_address_from_bytes(b);
    assert(encodes_stake_address(b, c));
    let ha = payload_hash(a.payload);
    let hc = payload_hash(c.payload);
    assert forall|i: int| 0 <= i < 28 implies ha.0[i] == hc.0[i] by {
        assert(ha.0@[i] == b.subrange(1, 29)[i]);
        assert(hc.0@[i] == b.subrange(1, 29)[i]);
    }
    assert(ha.0 =~= hc.0);
}

/// What the bytes of an address decode to: the address, or why they are none.
pub uninterp spec fn decoded_address(bytes: Seq<u8>) -> Result<pallas_addresses::Address, pallas_addresses::Error>;

/// Whether bytes decode to an address of any kind.
pub open spec fn address_decodes(bytes: Seq<u8>) -> bool {
    decoded_address(bytes) is Ok
}

/// Decodes the raw bytes of an address with `pallas_addresses::Address::from_bytes`,
/// and tells a stake address apart from the other kinds.
///
/// Claimed of the outside decoder, as its source shows: bytes whose header's
/// high nibble is 14 or 15 decode to the stake address they encode when at
/// least 28 bytes follow the header, and fail otherwise; an empty input, and a
/// header whose high nibble is 9 to 13, fail; other headers give a non-stake
/// address or fail. What they decode to, the address or the error, is a
/// function of the bytes alone, named `decoded_address`; which address or
/// error that is, is left unsaid.
#[verifier::external_body]
pub(crate) fn decode_address(bytes: &[u8]) -> (r: Result<DecodedAddress, pallas_addresses::Error>)
    ensures
        (r is Ok) == address_decodes(bytes@),
        match r {
            Ok(DecodedAddress::Stake(a)) => is_stake_encoding(bytes@) && encodes_stake_address(bytes@, a),
            Ok(DecodedAddress::Other(a)) => bytes@.len() > 0 && bytes@[0] / 16 <= 8 && decoded_address(bytes@)
                == Ok::<pallas_addresses::Address, pallas_addresses::Error>(a),
            Err(e) => !is_stake_encoding(bytes@) && decoded_address(bytes@) == Err::<
                pallas_addresses::Address,
                pallas_addresses::Error,
            >(e),
        },
        is_stake_encoding(bytes@) ==> r is Ok,
{
    match pallas_addresses::Address::from_bytes(bytes) {
        Ok(pallas_addresses::Address::Stake(s)) => {
            let network = Network { id: s.network().value() };
            let payload = match s.payload() {
                pallas_addresses::StakePayload::Stake(h) => StakePayload::Stake(Hash(**h)),
                pallas_addresses::StakePayload::Script(h) => StakePayload::Script(Hash(**h)),
            };
            Ok(DecodedAddress::Stake(StakeAddress { network, payload }))
        },
        Ok(other) => Ok(DecodedAddress::Other(other)),
        Err(e) => Err(e),
    }
}

/// The numeric type id of an address.
pub uninterp spec fn address_type_of(address: pallas_addresses::Address) -> u8;

/// The numeric type id of an address, with `pallas_addresses::Address::typeid`.
///
/// Trusted, as the source shows: the id is a function of the address alone,
/// 0 to 7 for the Shelley addresses (odd where the payment part is a script),
/// 8 for Byron, 14 and 15 for stake addresses.
#[verifier::external_body]
fn address_type_id(address: &pallas_addresses::Address) -> (t: u8)
    ensures
        t == address_type_of(*address),
        t <= 8 || t == 14 || t == 15,
{
    address.typeid()
}

/// The type ids of the Shelley addresses whose payment part is a script.
pub open spec fn script_locked_type(type_id: u8) -> bool {
    type_id < 8 && type_id % 2 == 1
}

/// Whether an address type id is that of a Shelley address whose payment
/// part is a script.
pub fn locks_by_script(type_id: u8) -> (b: bool)
    ensures
        b == script_locked_type(type_id),
{
    type_id < 8 && type_id % 2 == 1
}

/// Whether spending from the address is guarded by a script: a Shelley
/// address whose payment credential is a script hash.
pub fn is_locked_by_script(address: &pallas_addresses::Address) -> (b: bool)
    ensures
        b == script_locked_type(address_type_of(*address)),
{
    locks_by_script(address_type_id(address))
}

} // verus!
