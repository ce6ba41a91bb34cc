//! The reward withdrawals requested by a transaction.
use vstd::prelude::*;

use crate::kernel::address::{
    address_decodes, decode_address, decoded_address, encodes_stake_address, lemma_plutus_order_is_key_order, plutus_order, is_stake_encoding, lemma_encoded_stake_address_unique,
    stake_address_from_bytes, DecodedAddress, PlutusStakeAddress,
};
use crate::ordered_map::{keys_increasing, KeyOrder, lemma_insert_all_push, seq_insert_all, SortedMap};

verus! {

/// A map from the stake address being withdrawn from to the amount of
/// lovelace taken. The keys follow the Plutus order of stake addresses, so the
/// map iterates, and serializes, in the order a script expects.
pub struct Withdrawals(SortedMap<PlutusStakeAddress, u64>);

/// Why the withdrawals of a transaction could not be read.
pub enum WithdrawalError {
    /// The reward account's bytes are not an address.
    InvalidRewardAccount(pallas_addresses::Error),
    /// The reward account is an address, but not a stake address.
    InvalidAddressType(pallas_addresses::Address),
}

impl From<pallas_addresses::Error> for WithdrawalError {
    fn from(e: pallas_addresses::Error) -> (r: Self) {
        WithdrawalError::InvalidRewardAccount(e)
    }
}

impl vstd::std_specs::convert::FromSpecImpl<pallas_addresses::Error> for WithdrawalError {
    open spec fn obeys_from_spec() -> bool {
        true
    }

    open spec fn from_spec(e: pallas_addresses::Error) -> WithdrawalError {
        WithdrawalError::InvalidRewardAccount(e)
    }
}

/// The withdrawal pairs of a transaction's reward accounts, keyed by the stake
/// address each account's bytes encode.
pub open spec fn withdrawal_pairs(value: Seq<(Vec<u8>, u64)>) -> Seq<(PlutusStakeAddress, u64)> {
    value.map_values(|p: (Vec<u8>, u64)| (PlutusStakeAddress(stake_address_from_bytes(p.0@)), p.1))
}

impl View for Withdrawals {
    type V = Seq<(PlutusStakeAddress, u64)>;

    closed spec fn view(&self) -> Seq<(PlutusStakeAddress, u64)> {
        self.0@
    }
}

impl Default for Withdrawals {
    fn default() -> (w: Self)
        ensures
            w@ == Seq::<(PlutusStakeAddress, u64)>::empty(),
    {
        Withdrawals(SortedMap::new())
    }
}

impl Withdrawals {
    /// Each withdrawal as a `(stake address, amount)` pair, in canonical order.
    pub fn iter(&self) -> (r: &[(PlutusStakeAddress, u64)])
        ensures
            r@ == self@,
            keys_increasing(r@),
            forall|i: int, j: int|
                0 <= i < j < r@.len() ==> plutus_order(#[trigger] r@[i].0.0, #[trigger] r@[j].0.0)
                    == KeyOrder::Less,
    {
        let r = self.0.entries();
        proof {
            assert forall|i: int, j: int| 0 <= i < j < r@.len() implies plutus_order(
                #[trigger] r@[i].0.0,
                #[trigger] r@[j].0.0,
            ) == KeyOrder::Less by {
                lemma_plutus_order_is_key_order(r@[i].0.0, r@[j].0.0);
            }
        }
        r
    }

    /// The stake addresses withdrawn from, in canonical order.
    pub fn keys(&self) -> (r: Vec<&PlutusStakeAddress>)
        ensures
            r@.len() == self@.len(),
            forall|i: int| 0 <= i < r@.len() ==> *r@[i] == self@[i].0,
    {
        let entries = self.0.entries();
        let mut keys: Vec<&PlutusStakeAddress> = Vec::new();
        let mut i: usize = 0;
        while i < entries.len()
            invariant
                entries@ == self@,
                i <= entries@.len(),
                keys@.len() == i,
                forall|j: int| 0 <= j < i ==> *keys@[j] == self@[j].0,
            decreases entries@.len() - i,
        {
            keys.push(&entries[i].0);
            i = i + 1;
        }
        keys
    }

    /// Reads the withdrawals of a transaction from its reward accounts (the
    /// raw bytes of each account's address) and amounts.
    ///
    /// Succeeds exactly when every reward account is a stake address; the map
    /// then holds each address with its amount, a later amount for the same
    /// address replacing an earlier one. Otherwise the first account that is
    /// not a stake address gives the error: one that does not decode gives
    /// `InvalidRewardAccount` with the decoder's error, one that decodes to
    /// another kind of address gives `InvalidAddressType` with that address.
    pub fn try_from(value: &[(Vec<u8>, u64)]) -> (r: Result<Self, WithdrawalError>)
        ensures
            r is Ok <==> (forall|i: int| 0 <= i < value@.len() ==> is_stake_encoding(#[trigger] value@[i].0@)),
            r matches Ok(w) ==> w@ == seq_insert_all(Seq::empty(), withdrawal_pairs(value@)),
            r matches Err(e) ==> exists|i: int|
                0 <= i < value@.len() && !is_stake_encoding(#[trigger] value@[i].0@) && (forall|j: int|
                    0 <= j < i ==> is_stake_encoding(value@[j].0@)) && (e is InvalidRewardAccount
                    <==> !address_decodes(value@[i].0@)) && (match e {
                    WithdrawalError::InvalidRewardAccount(err) => decoded_address(value@[i].0@) == Err::<
                        pallas_addresses::Address,
                        pallas_addresses::Error,
                    >(err),
                    WithdrawalError::InvalidAddressType(a) => decoded_address(value@[i].0@) == Ok::<
                        pallas_addresses::Address,
                        pallas_addresses::Error,
                    >(a),
                }) && ((value@[i].0@.len() == 0
                    || value@[i].0@[0] / 16 >= 9) ==> e is InvalidRewardAccount),
    {
        let mut map: SortedMap<PlutusStakeAddress, u64> = SortedMap::new();
        let mut i: usize = 0;
        while i < value.len()
            invariant
                i <= value@.len(),
                forall|j: int| 0 <= j < i ==> is_stake_encoding(#[trigger] value@[j].0@),
                map@ == seq_insert_all(Seq::empty(), withdrawal_pairs(value@).take(i as int)),
            decreases value@.len() - i,
        {
            let bytes = &value[i].0;
            let coin = value[i].1;
            match decode_address(bytes.as_slice()) {
                Ok(DecodedAddress::Stake(address)) => {
                    proof {
                        lemma_encoded_stake_address_unique(value@[i as int].0@, address);
                        let pairs = withdrawal_pairs(value@);
                        assert(pairs.take(i + 1) =~= pairs.take(i as int).push(
                            (PlutusStakeAddress(address), coin),
                        ));
                        lemma_insert_all_push(
                            Seq::empty(),
                            pairs.take(i as int),
                            PlutusStakeAddress(address),
                            coin,
                        );
                    }
                    map.insert(PlutusStakeAddress(address), coin);
                },
                Ok(DecodedAddress::Other(address)) => {
                    return Err(WithdrawalError::InvalidAddressType(address));
                },
                Err(e) => {
                    return Err(WithdrawalError::InvalidRewardAccount(e));
                },
            }
            i = i + 1;
        }
        proof {
            assert(withdrawal_pairs(value@).take(i as int) =~= withdrawal_pairs(value@));
        }
        Ok(Withdrawals(map))
    }
}

} // verus!
