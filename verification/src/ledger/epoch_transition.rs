//! What an epoch boundary computes: rewards, pool updates and governance updates.
use vstd::prelude::*;

verus! {

/// An epoch number.
pub type Epoch = u64;

/// A protocol version: major and minor.
pub type ProtocolVersion = (u64, u64);

/// The updatable protocol parameters that the ledger state reads.
#[derive(Debug, Copy, Clone, PartialEq, Eq)]
pub struct ProtocolParameters {
    pub protocol_version: ProtocolVersion,
}

/// How many epochs in a row started without any proposal to ratify.
#[derive(Debug, Copy, Clone, PartialEq, Eq, Structural)]
pub struct GovernanceActivity {
    pub consecutive_dormant_epochs: u32,
}

/// The outcome of ratifying and enacting proposals at an epoch boundary.
#[derive(Debug, Copy, Clone, PartialEq, Eq)]
pub struct GovernanceUpdates {
    /// The protocol parameters in force once the updates are enacted.
    pub protocol_parameters: ProtocolParameters,
    /// Whether the epoch starts without any proposal to ratify.
    pub is_dormant_epoch: bool,
}

/// The pools to update or retire, and the deposits to refund, at an epoch boundary.
#[derive(Debug, Clone, PartialEq, Eq)]
pub struct PoolsEpochTransitionUpdates {
    /// Pools whose new parameters take effect, by pool id.
    pub updated: Vec<u64>,
    /// Pools that retire, by pool id.
    pub retired: Vec<u64>,
    /// Deposits refunded to reward accounts: account id and amount.
    pub refunds: Vec<(u64, u64)>,
}

/// Rewards computed during an epoch, not yet due.
#[derive(Debug, Copy, Clone, PartialEq, Eq, Structural)]
pub struct Computed;

/// Rewards due to the accounts still registered at the epoch boundary.
#[derive(Debug, Copy, Clone, PartialEq, Eq, Structural)]
pub struct Effective;

/// A rewards summary in stage `S`: the total of the rewards to pay out.
#[derive(Debug, Clone, PartialEq, Eq)]
pub struct Rewards<S> {
    pub total: u64,
    pub stage: S,
}

impl From<Rewards<Effective>> for Rewards<Computed> {
    /// Effective rewards taken back to the computed summary they came from.
    fn from(effective: Rewards<Effective>) -> (r: Rewards<Computed>) {
        Rewards { total: effective.total, stage: Computed }
    }
}

impl vstd::std_specs::convert::FromSpecImpl<Rewards<Effective>> for Rewards<Computed> {
    open spec fn obeys_from_spec() -> bool {
        true
    }

    open spec fn from_spec(v: Rewards<Effective>) -> Rewards<Computed> {
        Rewards { total: v.total, stage: Computed }
    }
}

/// Where the rewards of the ongoing epoch stand.
#[derive(Debug)]
pub enum RewardsState {
    NotReady,
    Computed(Rewards<Computed>),
    Effective(Rewards<Effective>),
}

impl Default for RewardsState {
    fn default() -> (r: Self)
        ensures
            r is NotReady,
    {
        RewardsState::NotReady
    }
}

impl RewardsState {
    /// Takes a computed summary out, leaving the state `NotReady`; any other
    /// state is left as it is, and nothing is taken.
    pub fn take_computed_rewards(&mut self) -> (r: Option<Rewards<Computed>>)
        ensures
            match *old(self) {
                RewardsState::Computed(c) => r == Some(c) && *final(self) is NotReady,
                _ => r is None && *final(self) == *old(self),
            },
    {
        let mut current = RewardsState::NotReady;
        std::mem::swap(&mut current, self);
        match current {
            RewardsState::Computed(computed) => Some(computed),
            other => {
                *self = other;
                None
            },
        }
    }
}

} // verus!
