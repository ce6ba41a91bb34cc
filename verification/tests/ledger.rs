use amaru::ledger::epoch_transition::{
    Computed, Effective, GovernanceActivity, GovernanceUpdates, PoolsEpochTransitionUpdates, ProtocolParameters,
    Rewards, RewardsState,
};
use amaru::ledger::overlay::{StateError, StateOverlay};

fn parameters(major: u64) -> ProtocolParameters {
    ProtocolParameters { protocol_version: (major, 0) }
}

fn updates() -> PoolsEpochTransitionUpdates {
    PoolsEpochTransitionUpdates { updated: vec![1], retired: vec![2], refunds: vec![] }
}

#[test]
fn a_fresh_overlay_has_nothing_pending() {
    let overlay = StateOverlay::new(100, parameters(9), GovernanceActivity { consecutive_dormant_epochs: 2 });
    assert!(overlay.is_empty());
    assert_eq!(overlay.epoch(), 100);
    assert_eq!(overlay.protocol_version(), (9, 0));
    assert_eq!(*overlay.protocol_parameters(), parameters(9));
    assert_eq!(overlay.governance_activity(), GovernanceActivity { consecutive_dormant_epochs: 2 });
    assert!(matches!(overlay.rewards(), RewardsState::NotReady));
}

#[test]
fn transition_then_rollback_restores_the_epoch_and_computed_rewards() {
    let mut overlay = StateOverlay::new(100, parameters(9), GovernanceActivity { consecutive_dormant_epochs: 2 });
    let governance = GovernanceUpdates { protocol_parameters: parameters(10), is_dormant_epoch: true };
    overlay.transition(Rewards { total: 500, stage: Effective }, updates(), governance);
    assert_eq!(overlay.epoch(), 101);
    assert!(!overlay.is_empty());
    assert_eq!(overlay.protocol_version(), (10, 0));
    assert_eq!(*overlay.protocol_parameters_for(101), parameters(10));
    assert_eq!(*overlay.protocol_parameters_for(100), parameters(9));
    assert_eq!(overlay.governance_activity_for(101), GovernanceActivity { consecutive_dormant_epochs: 3 });
    assert_eq!(overlay.governance_activity_for(100), GovernanceActivity { consecutive_dormant_epochs: 2 });

    overlay.rollback();
    assert_eq!(overlay.epoch(), 100);
    assert!(overlay.is_empty());
    assert_eq!(*overlay.protocol_parameters(), parameters(9));
    assert!(matches!(overlay.rewards(), RewardsState::Computed(r) if r.total == 500));
    assert_eq!(overlay.take_computed_rewards(), Some(Rewards { total: 500, stage: Computed }));
    assert!(matches!(overlay.rewards(), RewardsState::NotReady));
    assert_eq!(overlay.take_computed_rewards(), None);
}

#[test]
fn flushing_takes_out_effective_rewards_and_pending_updates() {
    let mut overlay = StateOverlay::new(7, parameters(9), GovernanceActivity { consecutive_dormant_epochs: 0 });
    let governance = GovernanceUpdates { protocol_parameters: parameters(10), is_dormant_epoch: false };
    overlay.transition(Rewards { total: 42, stage: Effective }, updates(), governance);

    assert_eq!(overlay.end_epoch(false), Ok(None));
    assert_eq!(overlay.end_epoch(true), Ok(Some(Rewards { total: 42, stage: Effective })));
    assert_eq!(overlay.end_epoch(true), Err(StateError::NoEffectiveRewards));
    assert_eq!(overlay.snapshot_epoch(true), Some(7));
    assert_eq!(overlay.snapshot_epoch(false), None);
    assert_eq!(overlay.begin_epoch(false), None);
    assert_eq!(overlay.begin_epoch(true), Some((Some(updates()), Some(governance))));
    assert_eq!(overlay.begin_epoch(true), Some((None, None)));
    overlay.enacted(parameters(10), GovernanceActivity { consecutive_dormant_epochs: 0 });
    assert!(overlay.is_empty());
    assert_eq!(*overlay.protocol_parameters(), parameters(10));
}

#[test]
fn governance_activity_can_be_updated_in_place() {
    let mut overlay = StateOverlay::new(3, parameters(9), GovernanceActivity { consecutive_dormant_epochs: 0 });
    overlay.governance_activity_mut().consecutive_dormant_epochs = 5;
    assert_eq!(overlay.governance_activity(), GovernanceActivity { consecutive_dormant_epochs: 5 });
    *overlay.rewards_mut() = RewardsState::Computed(Rewards { total: 1, stage: Computed });
    assert_eq!(overlay.take_computed_rewards(), Some(Rewards { total: 1, stage: Computed }));
    let computed: Rewards<Computed> = Rewards { total: 9, stage: Effective }.into();
    assert_eq!(computed, Rewards { total: 9, stage: Computed });
}

#[test]
fn the_epoch_counts_transitions_and_rollbacks() {
    let mut overlay = StateOverlay::new(10, parameters(9), GovernanceActivity { consecutive_dormant_epochs: u32::MAX });
    assert_eq!(overlay.governance_activity(), GovernanceActivity { consecutive_dormant_epochs: u32::MAX });
    let governance = GovernanceUpdates { protocol_parameters: parameters(10), is_dormant_epoch: false };
    overlay.transition(Rewards { total: 1, stage: Effective }, updates(), governance);
    overlay.transition(Rewards { total: 2, stage: Effective }, updates(), governance);
    assert!(!overlay.is_empty());
    overlay.rollback();
    assert!(overlay.is_empty());
    overlay.take_computed_rewards();
    *overlay.rewards_mut() = RewardsState::Effective(Rewards { total: 3, stage: Effective });
    assert!(!overlay.is_empty());
    assert_eq!(overlay.epoch(), 11);
}

#[test]
fn a_flushed_overlay_is_empty_and_a_second_flush_takes_nothing() {
    let mut overlay = StateOverlay::new(4, parameters(9), GovernanceActivity { consecutive_dormant_epochs: 0 });
    let governance = GovernanceUpdates { protocol_parameters: parameters(10), is_dormant_epoch: true };
    overlay.transition(Rewards { total: 8, stage: Effective }, updates(), governance);
    assert_eq!(overlay.end_epoch(true), Ok(Some(Rewards { total: 8, stage: Effective })));
    assert_eq!(overlay.snapshot_epoch(true), Some(4));
    assert_eq!(overlay.begin_epoch(true), Some((Some(updates()), Some(governance))));
    overlay.enacted(parameters(10), GovernanceActivity { consecutive_dormant_epochs: 1 });
    assert!(overlay.is_empty());
    assert_eq!(overlay.epoch(), 5);
    assert_eq!(overlay.end_epoch(false), Ok(None));
    assert_eq!(overlay.begin_epoch(false), None);
    assert!(overlay.is_empty());
    assert_eq!(overlay.epoch(), 5);
    assert_eq!(*overlay.protocol_parameters(), parameters(10));
    assert_eq!(overlay.governance_activity(), GovernanceActivity { consecutive_dormant_epochs: 1 });
}
