//! The parameters of a network that never change over its lifetime, and
//! their values for the public networks.
use vstd::prelude::*;

verus! {

/// Parameters that are fixed for the whole life of a network.
#[derive(Debug, Clone, Copy, PartialEq, Eq, Structural)]
pub struct GlobalParameters {
    /// The maximum depth of a rollback, also known as the security parameter
    /// 'k': the length of the volatile storage, which holds the ledger states
    /// not yet considered final.
    pub consensus_security_param: usize,
    /// Multiplier applied to the security parameter to get the epoch length.
    pub epoch_length_scale_factor: usize,
    /// Inverse of the active slot coefficient (1/f).
    pub active_slot_coeff_inverse: usize,
    /// Maximum supply of ada, in lovelace (1 ada = 1,000,000 lovelace).
    pub max_lovelace_supply: u64,
    /// Number of slots of a single KES validity period.
    pub slots_per_kes_period: u64,
    /// Maximum number of KES key evolutions; with the period length, the
    /// validity period of a KES key before a new one is needed.
    pub max_kes_evolution: u8,
    /// Number of slots in an epoch.
    pub epoch_length: usize,
    /// Relative slot from which data of the previous epoch is stable.
    pub stability_window: u64,
    /// Number of slots at the end of each epoch which do not contribute
    /// randomness to the candidate nonce of the following epoch.
    pub randomness_stabilization_window: u64,
    /// POSIX time, in milliseconds, of the system start.
    pub system_start: u64,
}

/// The parameters a network derives from its security parameter `k`, its
/// active slot coefficient inverse `1/f` and its start: an epoch is `10k/f`
/// slots long, data is stable after `3k/f` slots and the last `4k/f` slots
/// of an epoch give no randomness.
pub open spec fn derived_parameters(k: int, f_inverse: int, system_start: u64, params: GlobalParameters) -> bool {
    &&& params.consensus_security_param == k
    &&& params.active_slot_coeff_inverse == f_inverse
    &&& params.epoch_length_scale_factor == 10
    &&& params.epoch_length == f_inverse * 10 * k
    &&& params.stability_window == f_inverse * k * 3
    &&& params.randomness_stabilization_window == 4 * k * f_inverse
    &&& params.max_lovelace_supply == 45_000_000_000_000_000
    &&& params.slots_per_kes_period == 129_600
    &&& params.max_kes_evolution == 62
    &&& params.system_start == system_start
}

fn public_network_parameters(consensus_security_param: usize, system_start: u64) -> (params: GlobalParameters)
    requires
        consensus_security_param <= 2160,
    ensures
        derived_parameters(consensus_security_param as int, 20, system_start, params),
{
    let active_slot_coeff_inverse: usize = 20;
    let epoch_length_scale_factor: usize = 10;
    assert(active_slot_coeff_inverse * epoch_length_scale_factor * consensus_security_param <= 432_000) by (nonlinear_arith)
        requires
            active_slot_coeff_inverse == 20,
            epoch_length_scale_factor == 10,
            consensus_security_param <= 2160,
    ;
    let epoch_length = active_slot_coeff_inverse * epoch_length_scale_factor * consensus_security_param;
    let stability_window = (active_slot_coeff_inverse * consensus_security_param * 3) as u64;
    let randomness_stabilization_window = (4 * consensus_security_param * active_slot_coeff_inverse) as u64;
    GlobalParameters {
        consensus_security_param,
        epoch_length_scale_factor,
        active_slot_coeff_inverse,
        max_lovelace_supply: 45_000_000_000_000_000,
        slots_per_kes_period: 129_600,
        max_kes_evolution: 62,
        epoch_length,
        stability_window,
        randomness_stabilization_window,
        system_start,
    }
}

/// The parameters of mainnet, which started at 2017-09-23T21:44:51Z.
pub fn mainnet_global_parameters() -> (params: GlobalParameters)
    ensures
        derived_parameters(2160, 20, 1_506_203_091_000, params),
        params.epoch_length == 432_000,
        params.stability_window == 129_600,
        params.randomness_stabilization_window == 172_800,
{
    public_network_parameters(2160, 1_506_203_091_000)
}

/// The parameters of the preprod testnet, which started at 2022-06-01T00:00:00Z.
pub fn preprod_global_parameters() -> (params: GlobalParameters)
    ensures
        derived_parameters(2160, 20, 1_654_041_600_000, params),
        params.epoch_length == 432_000,
        params.stability_window == 129_600,
        params.randomness_stabilization_window == 172_800,
{
    public_network_parameters(2160, 1_654_041_600_000)
}

/// The parameters of the preview testnet, which started at 2022-10-25T00:00:00Z.
pub fn preview_global_parameters() -> (params: GlobalParameters)
    ensures
        derived_parameters(432, 20, 1_666_656_000_000, params),
        params.epoch_length == 86_400,
        params.stability_window == 25_920,
        params.randomness_stabilization_window == 34_560,
{
    public_network_parameters(432, 1_666_656_000_000)
}

/// The parameters of the network a node runs on unless told otherwise: the
/// preprod testnet.
pub fn default_global_parameters() -> (params: GlobalParameters)
    ensures
        derived_parameters(2160, 20, 1_654_041_600_000, params),
{
    preprod_global_parameters()
}

} // verus!
