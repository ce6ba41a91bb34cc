use std::collections::BTreeMap;

use amaru::kernel::phase_two::redeemers::{Redeemer, RedeemerValue, Redeemers, WitnessRedeemers};
use amaru::kernel::primitives::{ExUnits, RedeemerKey, RedeemerTag};
use amaru::kernel::redeemer_tag::redeemer_tag_to_string;
use amaru::ordered_map::SortedMap;
use pallas_primitives::PlutusData;

fn bytes_data(payload: u8) -> PlutusData {
    PlutusData::BoundedBytes(vec![payload].into())
}

#[test]
fn iter_from_into_btreemap_keeps_last_for_duplicate_redeemers() {
    let make_redeemer = |mem: u64, steps: u64, payload: u8| Redeemer {
        tag: RedeemerTag::Spend,
        index: 0,
        data: bytes_data(payload),
        ex_units: ExUnits { mem, steps },
    };

    let r1 = make_redeemer(100, 200, 0xAA);
    let r2 = make_redeemer(999, 888, 0xBB);
    let r2_ex_units = r2.ex_units;
    let r2_data = r2.data.clone();

    let witness_redeemers = WitnessRedeemers::List(vec![r1, r2]);

    let map: BTreeMap<RedeemerKey, (&PlutusData, ExUnits)> = Redeemers::<()>::iter_from(&witness_redeemers)
        .into_iter()
        .map(|(k, data, ex_units)| (k, (data, ex_units)))
        .collect();

    assert_eq!(map.len(), 1, "duplicate (tag, index) should collapse to one entry");

    let (key, (data, ex_units)) = map.iter().next().unwrap();
    assert_eq!(key.tag, RedeemerTag::Spend);
    assert_eq!(key.index, 0);
    assert_eq!(*ex_units, r2_ex_units, "last redeemer's ex_units must win");
    assert_eq!(**data, r2_data, "last redeemer's data must win");
}

#[test]
fn sorted_map_of_redeemers_keeps_last_for_duplicate_pointers() {
    let items = vec![
        (RedeemerKey { tag: RedeemerTag::Mint, index: 1 }, 10u64),
        (RedeemerKey { tag: RedeemerTag::Spend, index: 0 }, 20u64),
        (RedeemerKey { tag: RedeemerTag::Mint, index: 1 }, 30u64),
    ];
    let map = SortedMap::from_pairs(items);
    let entries = map.entries();
    assert_eq!(entries.len(), 2);
    assert_eq!(entries[0], (RedeemerKey { tag: RedeemerTag::Spend, index: 0 }, 20));
    assert_eq!(entries[1], (RedeemerKey { tag: RedeemerTag::Mint, index: 1 }, 30));
}

#[test]
fn iter_from_keeps_the_order_of_a_keyed_witness_set() {
    let witness_redeemers = WitnessRedeemers::Keyed(vec![
        (
            RedeemerKey { tag: RedeemerTag::Vote, index: 3 },
            RedeemerValue { data: bytes_data(1), ex_units: ExUnits { mem: 1, steps: 2 } },
        ),
        (
            RedeemerKey { tag: RedeemerTag::Cert, index: 0 },
            RedeemerValue { data: bytes_data(2), ex_units: ExUnits { mem: 3, steps: 4 } },
        ),
    ]);
    let items = Redeemers::<()>::iter_from(&witness_redeemers);
    assert_eq!(items.len(), 2);
    assert_eq!(items[0].0, RedeemerKey { tag: RedeemerTag::Vote, index: 3 });
    assert_eq!(*items[0].1, bytes_data(1));
    assert_eq!(items[0].2, ExUnits { mem: 1, steps: 2 });
    assert_eq!(items[1].0, RedeemerKey { tag: RedeemerTag::Cert, index: 0 });
    assert_eq!(*items[1].1, bytes_data(2));
    assert_eq!(items[1].2, ExUnits { mem: 3, steps: 4 });
}

#[test]
fn redeemer_keys_sort_by_tag_then_index() {
    let map = SortedMap::from_pairs(vec![
        (RedeemerKey { tag: RedeemerTag::Propose, index: 0 }, 'p'),
        (RedeemerKey { tag: RedeemerTag::Spend, index: 7 }, 'b'),
        (RedeemerKey { tag: RedeemerTag::Spend, index: 2 }, 'a'),
        (RedeemerKey { tag: RedeemerTag::Reward, index: 1 }, 'r'),
    ]);
    let order: Vec<char> = map.entries().iter().map(|(_, c)| *c).collect();
    assert_eq!(order, vec!['a', 'b', 'r', 'p']);
}

#[test]
fn redeemer_tags_have_their_names() {
    assert_eq!(redeemer_tag_to_string(&RedeemerTag::Spend), "Spend");
    assert_eq!(redeemer_tag_to_string(&RedeemerTag::Mint), "Mint");
    assert_eq!(redeemer_tag_to_string(&RedeemerTag::Cert), "Cert");
    assert_eq!(redeemer_tag_to_string(&RedeemerTag::Reward), "Reward");
    assert_eq!(redeemer_tag_to_string(&RedeemerTag::Vote), "Vote");
    assert_eq!(redeemer_tag_to_string(&RedeemerTag::Propose), "Propose");
}
