use amaru::kernel::address::{is_locked_by_script, locks_by_script, Network, PlutusStakeAddress, StakeAddress, StakePayload};
use amaru::kernel::withdrawals::{WithdrawalError, Withdrawals};
use amaru::ordered_map::KeyOrder;

struct Lcg(u64);

impl Lcg {
    fn next(&mut self) -> u64 {
        self.0 = self.0.wrapping_mul(6364136223846793005).wrapping_add(1442695040888963407);
        self.0 >> 33
    }
}

fn random_address(rng: &mut Lcg) -> PlutusStakeAddress {
    let is_script = rng.next() % 2 == 0;
    let mut hash_bytes = [0u8; 28];
    for b in hash_bytes.iter_mut() {
        // few distinct values, so that equal prefixes and equal hashes occur
        *b = (rng.next() % 3) as u8;
    }
    let network = match rng.next() % 3 {
        0 => Network::testnet(),
        1 => Network::mainnet(),
        _ => Network::from_id((rng.next() % 256) as u8),
    };
    let payload = if is_script { StakePayload::Script(amaru::kernel::address::Hash(hash_bytes)) } else { StakePayload::Stake(amaru::kernel::address::Hash(hash_bytes)) };
    PlutusStakeAddress(StakeAddress::new(network, payload))
}

#[test]
fn proptest_stake_address_ordering() {
    let mut rng = Lcg(20);
    for round in 0..100 {
        let n = 20 + round % 80;
        let addresses: Vec<PlutusStakeAddress> = (0..n).map(|_| random_address(&mut rng)).collect();
        let mut sorted = addresses.clone();
        sorted.sort_by(|a, b| a.partial_cmp(b).unwrap());

        for window in sorted.windows(2) {
            let a = &window[0];
            let b = &window[1];
            let net_a = a.0.network();
            let net_b = b.0.network();
            if net_a != net_b {
                assert!(net_a.id < net_b.id, "Network ordering violated: {:?} should be < {:?}", net_a.id, net_b.id);
            } else {
                match (a.0.payload(), b.0.payload()) {
                    (StakePayload::Script(_), StakePayload::Stake(_)) => {}
                    (StakePayload::Stake(_), StakePayload::Script(_)) => {
                        panic!("Payload type ordering violated: Stake should not come before Script")
                    }
                    (StakePayload::Script(h1), StakePayload::Script(h2)) => {
                        assert!(h1 <= h2, "Script hash ordering violated: {:?} should be <= {:?}", h1, h2)
                    }
                    (StakePayload::Stake(h1), StakePayload::Stake(h2)) => {
                        assert!(h1 <= h2, "Stake hash ordering violated: {:?} should be <= {:?}", h1, h2)
                    }
                }
            }
        }
    }
}

#[test]
fn plutus_equality_agrees_with_the_order() {
    let a = PlutusStakeAddress(StakeAddress::new(Network::mainnet(), StakePayload::Script(amaru::kernel::address::Hash([1; 28]))));
    let b = PlutusStakeAddress(StakeAddress::new(Network::mainnet(), StakePayload::Script(amaru::kernel::address::Hash([1; 28]))));
    let c = PlutusStakeAddress(StakeAddress::new(Network::mainnet(), StakePayload::Stake(amaru::kernel::address::Hash([1; 28]))));
    let d = PlutusStakeAddress(StakeAddress::new(Network::testnet(), StakePayload::Stake(amaru::kernel::address::Hash([9; 28]))));
    assert!(a == b);
    assert_eq!(a.plutus_compare(&b), KeyOrder::Equal);
    assert!(a != c);
    assert_eq!(a.plutus_compare(&c), KeyOrder::Less);
    assert_eq!(c.plutus_compare(&a), KeyOrder::Greater);
    assert_eq!(d.plutus_compare(&a), KeyOrder::Less);
    assert_eq!(d.partial_cmp(&a), Some(std::cmp::Ordering::Less));
    assert!(a < c && d < a && a <= b);
    let back: StakeAddress = StakeAddress::from(c);
    assert_eq!(back, *c.as_ref());
    assert_eq!(PlutusStakeAddress::from(back), c);
}

fn stake_bytes(header: u8, fill: u8) -> Vec<u8> {
    let mut bytes = vec![header];
    bytes.extend_from_slice(&[fill; 28]);
    bytes
}

#[test]
fn withdrawals_are_sorted_the_plutus_way_and_keep_the_last_amount() {
    let raw = vec![
        (stake_bytes(0xe1, 5), 10u64),
        (stake_bytes(0xf1, 9), 20u64),
        (stake_bytes(0xe0, 7), 30u64),
        (stake_bytes(0xe1, 5), 40u64),
    ];
    let withdrawals = Withdrawals::try_from(&raw).ok().unwrap();
    let entries = withdrawals.iter();
    assert_eq!(entries.len(), 3);
    assert_eq!(entries[0].0 .0, StakeAddress::new(Network::testnet(), StakePayload::Stake(amaru::kernel::address::Hash([7; 28]))));
    assert_eq!(entries[0].1, 30);
    assert_eq!(entries[1].0 .0, StakeAddress::new(Network::mainnet(), StakePayload::Script(amaru::kernel::address::Hash([9; 28]))));
    assert_eq!(entries[1].1, 20);
    assert_eq!(entries[2].0 .0, StakeAddress::new(Network::mainnet(), StakePayload::Stake(amaru::kernel::address::Hash([5; 28]))));
    assert_eq!(entries[2].1, 40);
    let keys = withdrawals.keys();
    assert_eq!(keys.len(), 3);
    assert_eq!(*keys[1], entries[1].0);
    assert_eq!(Withdrawals::default().iter().len(), 0);
}

#[test]
fn withdrawals_refuse_what_is_no_reward_account() {
    let truncated = vec![(vec![0xe1u8, 1, 2], 1u64)];
    assert!(matches!(Withdrawals::try_from(&truncated), Err(WithdrawalError::InvalidRewardAccount(_))));
    let empty = vec![(vec![], 1u64)];
    assert!(matches!(Withdrawals::try_from(&empty), Err(WithdrawalError::InvalidRewardAccount(_))));
    let mut enterprise = vec![0x61u8];
    enterprise.extend_from_slice(&[3; 28]);
    let not_stake = vec![(stake_bytes(0xe1, 5), 1u64), (enterprise, 2u64)];
    assert!(matches!(Withdrawals::try_from(&not_stake), Err(WithdrawalError::InvalidAddressType(_))));
    let mut enterprise = vec![0x61u8];
    enterprise.extend_from_slice(&[3; 28]);
    let first_fails = vec![(stake_bytes(0xe1, 5), 1u64), (vec![0xe1u8, 1], 2u64), (enterprise, 3u64)];
    assert!(matches!(Withdrawals::try_from(&first_fails), Err(WithdrawalError::InvalidRewardAccount(_))));
}

#[test]
fn script_locked_addresses_have_a_script_payment_part() {
    let mut script_enterprise = vec![0x71u8];
    script_enterprise.extend_from_slice(&[3; 28]);
    let address = pallas_addresses::Address::from_bytes(&script_enterprise).unwrap();
    assert!(is_locked_by_script(&address));
    let mut key_enterprise = vec![0x61u8];
    key_enterprise.extend_from_slice(&[3; 28]);
    let address = pallas_addresses::Address::from_bytes(&key_enterprise).unwrap();
    assert!(!is_locked_by_script(&address));
    let stake_script = pallas_addresses::Address::from_bytes(&stake_bytes(0xf1, 2)).unwrap();
    assert!(!is_locked_by_script(&stake_script));
    assert!(locks_by_script(3));
    assert!(!locks_by_script(4));
    assert!(!locks_by_script(15));
}
