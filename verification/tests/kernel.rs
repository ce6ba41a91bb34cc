use amaru::kernel::global_parameters::{
    default_global_parameters, mainnet_global_parameters, preprod_global_parameters, preview_global_parameters,
};
use amaru::kernel::primitives::AssetName;
use amaru::kernel::required_signers::RequiredSigners;
use amaru::kernel::time_range::{EraHistoryError, TimeRange};
use amaru::kernel::value::PlutusMint;
use amaru::version::{
    display_version, format_display_version, format_package_version, git_commit_hash_short, git_dirty,
    package_version,
};

#[test]
fn global_parameters_of_the_public_networks() {
    let mainnet = mainnet_global_parameters();
    assert_eq!(mainnet.consensus_security_param, 2160);
    assert_eq!(mainnet.active_slot_coeff_inverse, 20);
    assert_eq!(mainnet.epoch_length_scale_factor, 10);
    assert_eq!(mainnet.epoch_length, 432_000);
    assert_eq!(mainnet.stability_window, 129_600);
    assert_eq!(mainnet.randomness_stabilization_window, 172_800);
    assert_eq!(mainnet.max_lovelace_supply, 45_000_000_000_000_000);
    assert_eq!(mainnet.slots_per_kes_period, 129_600);
    assert_eq!(mainnet.max_kes_evolution, 62);
    assert_eq!(mainnet.system_start, 1_506_203_091_000);
    let preprod = preprod_global_parameters();
    assert_eq!(preprod.epoch_length, 432_000);
    assert_eq!(preprod.system_start, 1_654_041_600_000);
    assert_eq!(default_global_parameters(), preprod);
    let preview = preview_global_parameters();
    assert_eq!(preview.consensus_security_param, 432);
    assert_eq!(preview.epoch_length, 86_400);
    assert_eq!(preview.stability_window, 25_920);
    assert_eq!(preview.randomness_stabilization_window, 34_560);
    assert_eq!(preview.system_start, 1_666_656_000_000);
}

fn slot_to_posix_time(slot: u64, tip: u64, system_start: u64) -> Result<u64, EraHistoryError> {
    if slot > tip + 100 {
        Err(EraHistoryError::PastTimeHorizon)
    } else if slot < 10 {
        Err(EraHistoryError::InvalidEraHistory)
    } else {
        Ok(system_start + slot * 1000)
    }
}

#[test]
fn time_range_converts_each_bound() {
    let params = preview_global_parameters();
    let start = params.system_start;
    let range = TimeRange::new(Some(20), Some(50), &40, &slot_to_posix_time, &params).unwrap();
    assert_eq!(range, TimeRange { lower_bound: Some(start + 20_000), upper_bound: Some(start + 50_000) });
    let open = TimeRange::new(None, Some(30), &40, &slot_to_posix_time, &params).unwrap();
    assert_eq!(open, TimeRange { lower_bound: None, upper_bound: Some(start + 30_000) });
    let unbounded = TimeRange::new(None, None, &40, &slot_to_posix_time, &params).unwrap();
    assert_eq!(unbounded, TimeRange { lower_bound: None, upper_bound: None });
}

#[test]
fn time_range_fails_with_the_lower_bound_first() {
    let params = mainnet_global_parameters();
    assert_eq!(
        TimeRange::new(Some(20), Some(1_000), &40, &slot_to_posix_time, &params),
        Err(EraHistoryError::PastTimeHorizon)
    );
    assert_eq!(
        TimeRange::new(Some(1), Some(1_000), &40, &slot_to_posix_time, &params),
        Err(EraHistoryError::InvalidEraHistory)
    );
    assert_eq!(
        TimeRange::from_bounds(Some(Ok(5)), Some(Err(EraHistoryError::InvalidEraHistory))),
        Err(EraHistoryError::InvalidEraHistory)
    );
    assert_eq!(
        TimeRange::from_bounds(Some(Ok(5)), None),
        Ok(TimeRange { lower_bound: Some(5), upper_bound: None })
    );
}

#[test]
fn required_signers_are_a_sorted_set() {
    let signers = RequiredSigners::from_hashes(&vec![amaru::kernel::address::Hash([3; 28]), amaru::kernel::address::Hash([1; 28]), amaru::kernel::address::Hash([3; 28])]);
    let members: Vec<amaru::kernel::address::Hash<28>> = signers.0.entries().iter().map(|(h, _)| *h).collect();
    assert_eq!(members, vec![amaru::kernel::address::Hash([1; 28]), amaru::kernel::address::Hash([3; 28])]);
    assert_eq!(RequiredSigners::default().0.len(), 0);
}

#[test]
fn mint_keeps_signed_amounts_by_policy_and_asset() {
    let mint = vec![
        (amaru::kernel::address::Hash([2; 28]), vec![(AssetName(vec![b'x']), -5), (AssetName(vec![b'a']), 3)]),
        (amaru::kernel::address::Hash([1; 28]), vec![(AssetName(vec![b'q']), 7)]),
        (amaru::kernel::address::Hash([2; 28]), vec![(AssetName(vec![b'a']), -1)]),
    ];
    let plutus_mint = PlutusMint::from_mint(&mint);
    let policies = plutus_mint.0.entries();
    assert_eq!(policies.len(), 2);
    assert_eq!(policies[0].0, amaru::kernel::address::Hash([1; 28]));
    assert_eq!(policies[0].1.entries(), &[(&AssetName(vec![b'q']), 7)]);
    assert_eq!(policies[1].0, amaru::kernel::address::Hash([2; 28]));
    assert_eq!(policies[1].1.entries(), &[(&AssetName(vec![b'a']), -1)]);
    assert_eq!(PlutusMint::default().0.len(), 0);
}

#[test]
fn versions_are_formatted_with_their_commit() {
    assert_eq!(format_package_version(1, 22, 303, ""), "1.22.303");
    assert_eq!(format_package_version(0, 1, 0, "rc.2"), "0.1.0-rc.2");
    assert_eq!(format_display_version("1.2.3", Some("abc1234"), Some(true)), "1.2.3 (abc1234+dirty)");
    assert_eq!(format_display_version("1.2.3", Some("abc1234"), Some(false)), "1.2.3 (abc1234)");
    assert_eq!(format_display_version("1.2.3", Some("abc1234"), None), "1.2.3 (abc1234)");
    assert_eq!(format_display_version("1.2.3", None, Some(true)), "1.2.3");
    assert_eq!(package_version(), "0.1.0");
    assert_eq!(git_commit_hash_short(), None);
    assert_eq!(git_dirty(), None);
    assert_eq!(display_version(), "0.1.0");
}
