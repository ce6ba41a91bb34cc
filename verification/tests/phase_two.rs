use amaru::kernel::phase_two::datum_option::DatumOption;
use amaru::kernel::phase_two::datums::Datums;
use amaru::kernel::phase_two::output_reference::OutputReference;
use amaru::kernel::phase_two::redeemers::{RedeemerEntry, Redeemers};
use amaru::kernel::phase_two::script::Script;
use amaru::kernel::phase_two::script_context::ScriptContext;
use amaru::kernel::phase_two::transaction_output::TransactionOutput;
use amaru::kernel::phase_two::tx_info::TxInfo;
use amaru::kernel::phase_two::utxos::Utxos;
use amaru::kernel::phase_two::value::{CurrencySymbol, Value};
use amaru::kernel::phase_two::votes::Votes;
use amaru::kernel::primitives::{
    AssetName, ExUnits, LedgerValue, MemoizedDatum, MemoizedPlutusData, MemoizedScript, MemoizedTransactionOutput,
    PlutusScript, ProposalId, RedeemerKey, RedeemerTag, TransactionInput, Vote, Voter, VotingProcedure,
};
use amaru::ordered_map::SortedMap;
use pallas_primitives::PlutusData;

fn bytes_data(payload: u8) -> PlutusData {
    PlutusData::BoundedBytes(vec![payload].into())
}

fn hex32(s: &str) -> [u8; 32] {
    let mut out = [0u8; 32];
    for i in 0..32 {
        out[i] = u8::from_str_radix(&s[2 * i..2 * i + 2], 16).unwrap();
    }
    out
}

fn enterprise_address() -> pallas_addresses::Address {
    let mut bytes = vec![0x61u8];
    bytes.extend_from_slice(&[7u8; 28]);
    pallas_addresses::Address::from_bytes(&bytes).unwrap()
}

fn output(datum: MemoizedDatum, value: LedgerValue, script: Option<MemoizedScript>) -> MemoizedTransactionOutput {
    MemoizedTransactionOutput { address: enterprise_address(), value, datum, script }
}

#[test]
fn to_bytes_unwraps_a_short_byte_string() {
    let script = PlutusScript::<3>(vec![0x43, 1, 2, 3]);
    assert_eq!(Script::PlutusV3(&script).to_bytes().unwrap(), vec![1, 2, 3]);
}

#[test]
fn to_bytes_reads_a_one_byte_length_and_ignores_what_follows() {
    let script = PlutusScript::<1>(vec![0x58, 0x02, 9, 8, 0xff]);
    assert_eq!(Script::PlutusV1(&script).to_bytes().unwrap(), vec![9, 8]);
    let script = PlutusScript::<2>(vec![0x59, 0x00, 0x01, 5]);
    assert_eq!(Script::PlutusV2(&script).to_bytes().unwrap(), vec![5]);
}

#[test]
fn to_bytes_reads_back_every_head_length() {
    for n in [0usize, 23, 24, 255, 256, 65535, 65536] {
        let content: Vec<u8> = (0..n).map(|i| (i % 251) as u8).collect();
        let mut bytes = if n < 24 {
            vec![0x40 + n as u8]
        } else if n < 256 {
            vec![0x58, n as u8]
        } else if n < 65536 {
            vec![0x59, (n >> 8) as u8, n as u8]
        } else {
            vec![0x5a, (n >> 24) as u8, (n >> 16) as u8, (n >> 8) as u8, n as u8]
        };
        bytes.extend_from_slice(&content);
        bytes.push(0xff);
        let script = PlutusScript::<2>(bytes);
        assert_eq!(Script::PlutusV2(&script).to_bytes().unwrap(), content);
    }
}

#[test]
fn to_bytes_refuses_what_is_no_definite_byte_string() {
    assert!(Script::PlutusV3(&PlutusScript::<3>(vec![])).to_bytes().is_err());
    assert!(Script::PlutusV3(&PlutusScript::<3>(vec![0x5f, 0x41, 1, 0xff])).to_bytes().is_err());
    assert!(Script::PlutusV3(&PlutusScript::<3>(vec![0x44, 1, 2])).to_bytes().is_err());
    assert!(Script::PlutusV3(&PlutusScript::<3>(vec![0x01])).to_bytes().is_err());
    assert!(Script::PlutusV3(&PlutusScript::<3>(vec![0x5c, 0, 0])).to_bytes().is_err());
}

#[test]
fn script_from_keeps_the_language() {
    let owned = MemoizedScript::PlutusV2Script(PlutusScript::<2>(vec![0x41, 7]));
    match Script::from(&owned) {
        Script::PlutusV2(s) => assert_eq!(s.0, vec![0x41, 7]),
        other => panic!("unexpected script {:?}", other),
    }
}

#[test]
fn datums_are_keyed_by_the_hash_of_their_bytes() {
    let data = vec![
        MemoizedPlutusData { original_bytes: vec![0xd8, 0x79, 0x80], data: bytes_data(1) },
        MemoizedPlutusData { original_bytes: vec![0x01], data: bytes_data(2) },
    ];
    let datums = Datums::from_plutus_data(&data);
    assert_eq!(datums.0.len(), 2);
    let unit = amaru::kernel::address::Hash(hex32("923918e403bf43c34b4ef6b48eb2ee04babed17320d8d1b9ff9ad086e86f44ec"));
    assert_eq!(**datums.0.get(&unit).unwrap(), bytes_data(1));
    let one = amaru::kernel::address::Hash(hex32("ee155ace9c40292074cb6aff8c9ccdd273c81648ff1149ef36bcea6ebb8a3e25"));
    assert_eq!(**datums.0.get(&one).unwrap(), bytes_data(2));
    assert!(datums.0.get(&amaru::kernel::address::Hash([0u8; 32])).is_none());
}

#[test]
fn datums_keep_the_last_datum_of_equal_bytes() {
    let data = vec![
        MemoizedPlutusData { original_bytes: vec![0x01], data: bytes_data(1) },
        MemoizedPlutusData { original_bytes: vec![0x01], data: bytes_data(9) },
    ];
    let datums = Datums::from_plutus_data(&data);
    assert_eq!(datums.0.len(), 1);
    assert_eq!(*datums.0.entries()[0].1, bytes_data(9));
}

#[test]
fn datum_options_borrow_from_the_output() {
    let hash = amaru::kernel::address::Hash([3u8; 32]);
    let by_hash = MemoizedDatum::Hash(hash);
    assert!(matches!(DatumOption::from(&by_hash), DatumOption::Hash(h) if *h == hash));
    let inline = MemoizedDatum::Inline(MemoizedPlutusData { original_bytes: vec![0x41, 5], data: bytes_data(5) });
    assert!(matches!(DatumOption::from(&inline), DatumOption::Inline(d) if *d == bytes_data(5)));
    assert!(matches!(DatumOption::from(&MemoizedDatum::NoDatum), DatumOption::NoDatum));
    assert!(matches!(DatumOption::from(Some(&hash)), DatumOption::Hash(h) if *h == hash));
    assert!(matches!(DatumOption::from(None::<&amaru::kernel::address::Hash<32>>), DatumOption::NoDatum));
}

#[test]
fn utxos_resolve_known_inputs_only() {
    let known = TransactionInput { transaction_id: amaru::kernel::address::Hash([1u8; 32]), index: 0 };
    let unknown = TransactionInput { transaction_id: amaru::kernel::address::Hash([1u8; 32]), index: 1 };
    let mut map = SortedMap::new();
    map.insert(known, output(MemoizedDatum::NoDatum, LedgerValue::Coin(42), None));
    let utxos = Utxos::from_map(map);
    let resolved = utxos.resolve_input(&known).unwrap();
    assert_eq!(*resolved.input, known);
    assert!(matches!(resolved.output.value, LedgerValue::Coin(42)));
    assert!(utxos.resolve_input(&unknown).is_none());
}

fn spend_tx_info<'a>(
    spent: &'a [MemoizedTransactionOutput],
    inputs: &'a [TransactionInput],
    datum_witnesses: &'a Vec<MemoizedPlutusData>,
    redeemer_data: &'a PlutusData,
    script: &'a PlutusScript<3>,
) -> TxInfo<'a, &'static str> {
    let references = vec![
        OutputReference { input: &inputs[0], output: &spent[0] },
        OutputReference { input: &inputs[1], output: &spent[1] },
        OutputReference { input: &inputs[2], output: &spent[2] },
    ];
    let entries = vec![
        (
            RedeemerKey { tag: RedeemerTag::Spend, index: 0 },
            RedeemerEntry { purpose: "spend 0", data: redeemer_data, ex_units: ExUnits { mem: 10, steps: 20 }, script: Script::PlutusV3(script) },
        ),
        (
            RedeemerKey { tag: RedeemerTag::Spend, index: 1 },
            RedeemerEntry { purpose: "spend 1", data: redeemer_data, ex_units: ExUnits { mem: 11, steps: 21 }, script: Script::PlutusV3(script) },
        ),
        (
            RedeemerKey { tag: RedeemerTag::Spend, index: 2 },
            RedeemerEntry { purpose: "spend 2", data: redeemer_data, ex_units: ExUnits { mem: 12, steps: 22 }, script: Script::PlutusV3(script) },
        ),
        (
            RedeemerKey { tag: RedeemerTag::Mint, index: 0 },
            RedeemerEntry { purpose: "mint 0", data: redeemer_data, ex_units: ExUnits { mem: 1, steps: 2 }, script: Script::PlutusV3(script) },
        ),
        (
            RedeemerKey { tag: RedeemerTag::Spend, index: 7 },
            RedeemerEntry { purpose: "spend 7", data: redeemer_data, ex_units: ExUnits { mem: 3, steps: 4 }, script: Script::PlutusV3(script) },
        ),
    ];
    TxInfo {
        inputs: references,
        redeemers: Redeemers::new(SortedMap::from_pairs(entries)),
        data: Datums::from_plutus_data(datum_witnesses),
    }
}

#[test]
fn script_context_resolves_the_datum_of_a_spent_output() {
    let datum_witnesses = vec![MemoizedPlutusData { original_bytes: vec![0xd8, 0x79, 0x80], data: bytes_data(1) }];
    let unit = amaru::kernel::address::Hash(hex32("923918e403bf43c34b4ef6b48eb2ee04babed17320d8d1b9ff9ad086e86f44ec"));
    let spent = vec![
        output(MemoizedDatum::Hash(unit), LedgerValue::Coin(1), None),
        output(
            MemoizedDatum::Inline(MemoizedPlutusData { original_bytes: vec![0x41, 4], data: bytes_data(4) }),
            LedgerValue::Coin(2),
            None,
        ),
        output(MemoizedDatum::Hash(amaru::kernel::address::Hash([0u8; 32])), LedgerValue::Coin(3), None),
    ];
    let inputs = vec![
        TransactionInput { transaction_id: amaru::kernel::address::Hash([5u8; 32]), index: 0 },
        TransactionInput { transaction_id: amaru::kernel::address::Hash([5u8; 32]), index: 1 },
        TransactionInput { transaction_id: amaru::kernel::address::Hash([5u8; 32]), index: 2 },
    ];
    let redeemer_data = bytes_data(0xEE);
    let script = PlutusScript::<3>(vec![0x41, 0]);
    let tx_info = spend_tx_info(&spent, &inputs, &datum_witnesses, &redeemer_data, &script);

    let by_hash = ScriptContext::new(&tx_info, &RedeemerKey { tag: RedeemerTag::Spend, index: 0 }).unwrap();
    assert_eq!(by_hash.datum, Some(&bytes_data(1)));
    assert_eq!(*by_hash.budget(), ExUnits { mem: 10, steps: 20 });
    assert_eq!(*by_hash.script_purpose, "spend 0");
    assert_eq!(*by_hash.redeemer_data, bytes_data(0xEE));

    let inline = ScriptContext::new(&tx_info, &RedeemerKey { tag: RedeemerTag::Spend, index: 1 }).unwrap();
    assert_eq!(inline.datum, Some(&bytes_data(4)));
    assert_eq!(*inline.budget(), ExUnits { mem: 11, steps: 21 });

    let unsupplied = ScriptContext::new(&tx_info, &RedeemerKey { tag: RedeemerTag::Spend, index: 2 }).unwrap();
    assert_eq!(unsupplied.datum, None);

    let minting = ScriptContext::new(&tx_info, &RedeemerKey { tag: RedeemerTag::Mint, index: 0 }).unwrap();
    assert_eq!(minting.datum, None);
    assert_eq!(*minting.script_purpose, "mint 0");

    let past_the_inputs = ScriptContext::new(&tx_info, &RedeemerKey { tag: RedeemerTag::Spend, index: 7 }).unwrap();
    assert_eq!(past_the_inputs.datum, None);

    assert!(ScriptContext::new(&tx_info, &RedeemerKey { tag: RedeemerTag::Cert, index: 0 }).is_none());
}

fn policy(b: u8) -> amaru::kernel::address::Hash<28> {
    amaru::kernel::address::Hash([b; 28])
}

#[test]
fn value_puts_lovelace_first_under_the_empty_name() {
    let ledger = LedgerValue::Multiasset(
        5,
        vec![
            (policy(9), vec![(AssetName(vec![b'a']), 1)]),
            (policy(2), vec![(AssetName(vec![b'z']), 3), (AssetName(vec![b'b']), 4), (AssetName(vec![b'z']), 6)]),
            (policy(9), vec![(AssetName(vec![b'c']), 2)]),
        ],
    );
    let value = Value::from_ledger_value(&ledger);
    let entries = value.0.entries();
    assert_eq!(entries.len(), 3);
    assert_eq!(entries[0].0, CurrencySymbol::Lovelace);
    let lovelace = entries[0].1.entries();
    assert_eq!(lovelace.len(), 1);
    assert_eq!(lovelace[0], (AssetName(vec![]), 5));
    assert_eq!(entries[1].0, CurrencySymbol::Native(policy(2)));
    let assets = entries[1].1.entries();
    assert_eq!(assets, &[(AssetName(vec![b'b']), 4), (AssetName(vec![b'z']), 6)]);
    assert_eq!(entries[2].0, CurrencySymbol::from(policy(9)));
    assert_eq!(entries[2].1.entries(), &[(AssetName(vec![b'c']), 2)]);
    assert_eq!(value.ada(), Some(5));
}

#[test]
fn value_has_no_ada_when_its_coin_is_zero() {
    assert_eq!(Value::from_ledger_value(&LedgerValue::Coin(0)).ada(), None);
    assert_eq!(Value::from_ledger_value(&LedgerValue::Coin(7)).ada(), Some(7));
    assert_eq!(Value::from_coin(1_000_000).ada(), Some(1_000_000));
}

#[test]
fn transaction_output_takes_the_plutus_view_of_its_parts() {
    let owned = output(
        MemoizedDatum::NoDatum,
        LedgerValue::Multiasset(3, vec![(policy(1), vec![(AssetName(vec![1]), 8)])]),
        Some(MemoizedScript::PlutusV1Script(PlutusScript::<1>(vec![0x41, 2]))),
    );
    let view = TransactionOutput::from_output(&owned);
    assert_eq!(view.value.ada(), Some(3));
    assert_eq!(view.value.0.len(), 2);
    assert!(matches!(view.script, Some(Script::PlutusV1(s)) if s.0 == vec![0x41, 2]));
    assert!(matches!(view.datum, MemoizedDatum::NoDatum));
    assert_eq!(*view.address, enterprise_address());
}

#[test]
fn votes_keep_the_decision_by_voter_and_action() {
    let action = |i: u32| ProposalId { transaction_id: amaru::kernel::address::Hash([4u8; 32]), action_index: i };
    let procedure = |vote: Vote| VotingProcedure { vote, anchor: None };
    let procedures = vec![
        (Voter::DRepKey(policy(1)), vec![(action(1), procedure(Vote::Yes)), (action(0), procedure(Vote::No))]),
        (Voter::ConstitutionalCommitteeScript(policy(2)), vec![(action(0), procedure(Vote::Abstain))]),
        (Voter::DRepKey(policy(1)), vec![(action(0), procedure(Vote::Yes))]),
    ];
    let votes = Votes::from_procedures(&procedures);
    let by_voter = votes.0.entries();
    assert_eq!(by_voter.len(), 2);
    assert_eq!(by_voter[0].0, Voter::ConstitutionalCommitteeScript(policy(2)));
    assert_eq!(by_voter[0].1.entries(), &[(action(0), Vote::Abstain)]);
    assert_eq!(by_voter[1].0, Voter::DRepKey(policy(1)));
    assert_eq!(by_voter[1].1.entries(), &[(action(0), Vote::Yes)]);
    assert_eq!(Votes::default().0.len(), 0);
}

fn hex28(s: &str) -> [u8; 28] {
    let mut out = [0u8; 28];
    for i in 0..28 {
        out[i] = u8::from_str_radix(&s[2 * i..2 * i + 2], 16).unwrap();
    }
    out
}

#[test]
fn script_hashes_cover_the_language_tag() {
    let v3 = PlutusScript::<3>(vec![0x43, 1, 2, 3]);
    assert_eq!(
        Script::PlutusV3(&v3).script_hash(),
        amaru::kernel::address::Hash(hex28("4c32f0d624777619f7c2b8b99a66cf8045e388c4eed3521d037f9378"))
    );
    let v1 = PlutusScript::<1>(vec![0x43, 1, 2, 3]);
    assert_eq!(
        Script::PlutusV1(&v1).script_hash(),
        amaru::kernel::address::Hash(hex28("84cd5387eeacd5b5a0c45167c165802449c956bf4c1259dbb67937e6"))
    );
    let native = pallas_primitives::alonzo::NativeScript::ScriptPubkey(pallas_primitives::Hash::<28>::new([5u8; 28]));
    assert_eq!(
        Script::Native(&native).script_hash(),
        amaru::kernel::address::Hash(hex28("4a341194053c6a9ef5f585311a9ed0569ecaa7f89e4ac8d64badd672"))
    );
}
