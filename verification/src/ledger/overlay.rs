//! The part of the ledger state computed at an epoch boundary that is not yet
//! stable, overlaid on top of the stable store until it can be flushed.
use vstd::prelude::*;

use crate::ledger::epoch_transition::{
    Computed, Effective, Epoch, GovernanceActivity, GovernanceUpdates, PoolsEpochTransitionUpdates,
    ProtocolParameters, ProtocolVersion, Rewards, RewardsState,
};

verus! {

/// Why the overlay could not be flushed.
#[derive(Debug, Copy, Clone, PartialEq, Eq, Structural)]
pub enum StateError {
    /// The epoch was to end, but no effective rewards were there to pay.
    NoEffectiveRewards,
}

/// The information overlaid on top of the stable store: computed at each
/// epoch boundary, and flushed once the stability window of the epoch is
/// reached.
pub struct StateOverlay {
    /// The epoch for which this overlay is valid.
    epoch: Epoch,
    /// The rewards of the epoch: computed once in the epoch, due at its end.
    rewards: RewardsState,
    /// Pool updates pending application; only there during the first blocks of an epoch.
    pools_updates: Option<PoolsEpochTransitionUpdates>,
    /// The result of the epoch boundary ratification, until it is stable.
    governance_updates: Option<GovernanceUpdates>,
    /// The protocol parameters, as cached from the stable store.
    protocol_parameters: ProtocolParameters,
    /// The number of dormant epochs, as cached from the stable store.
    governance_activity: GovernanceActivity,
}

impl StateOverlay {
    pub closed spec fn spec_epoch(&self) -> Epoch {
        self.epoch
    }

    pub closed spec fn spec_rewards(&self) -> RewardsState {
        self.rewards
    }

    pub closed spec fn spec_pools_updates(&self) -> Option<PoolsEpochTransitionUpdates> {
        self.pools_updates
    }

    pub closed spec fn spec_governance_updates(&self) -> Option<GovernanceUpdates> {
        self.governance_updates
    }

    /// The protocol parameters cached from the stable store.
    pub closed spec fn spec_stable_protocol_parameters(&self) -> ProtocolParameters {
        self.protocol_parameters
    }

    /// The governance activity cached from the stable store.
    pub closed spec fn spec_stable_governance_activity(&self) -> GovernanceActivity {
        self.governance_activity
    }

    /// No unapplied state: rewards not yet due, no pending pool or governance updates.
    pub open spec fn spec_is_empty(&self) -> bool {
        &&& (self.spec_rewards() is NotReady || self.spec_rewards() is Computed)
        &&& self.spec_pools_updates() is None
        &&& self.spec_governance_updates() is None
    }

    /// The latest protocol parameters: those of the pending governance
    /// updates if any, else those of the stable store.
    pub open spec fn spec_protocol_parameters(&self) -> ProtocolParameters {
        match self.spec_governance_updates() {
            Some(updates) => updates.protocol_parameters,
            None => self.spec_stable_protocol_parameters(),
        }
    }

    /// The latest governance activity: a pending dormant epoch counts one more.
    pub open spec fn spec_governance_activity(&self) -> GovernanceActivity {
        match self.spec_governance_updates() {
            Some(updates) => if updates.is_dormant_epoch {
                GovernanceActivity {
                    consecutive_dormant_epochs: (self.spec_stable_governance_activity().consecutive_dormant_epochs
                        + 1) as u32,
                }
            } else {
                self.spec_stable_governance_activity()
            },
            None => self.spec_stable_governance_activity(),
        }
    }

    /// `after` is `before` rolled back to the previous epoch.
    pub open spec fn rolled_back(before: &StateOverlay, after: &StateOverlay) -> bool {
        &&& after.spec_epoch() == before.spec_epoch() - 1
        &&& after.spec_rewards() == (match before.spec_rewards() {
            RewardsState::Effective(effective) => RewardsState::Computed(
                Rewards { total: effective.total, stage: Computed },
            ),
            other => other,
        })
        &&& after.spec_pools_updates() is None
        &&& after.spec_governance_updates() is None
        &&& after.spec_stable_protocol_parameters() == before.spec_stable_protocol_parameters()
        &&& after.spec_stable_governance_activity() == before.spec_stable_governance_activity()
    }

    /// `after` is `before` with its effective rewards taken out to be paid,
    /// as `end_epoch` leaves it when the store says the epoch ends.
    pub open spec fn ended(before: &StateOverlay, after: &StateOverlay) -> bool {
        &&& after.spec_rewards() is NotReady
        &&& after.spec_epoch() == before.spec_epoch()
        &&& after.spec_pools_updates() == before.spec_pools_updates()
        &&& after.spec_governance_updates() == before.spec_governance_updates()
        &&& after.spec_stable_protocol_parameters() == before.spec_stable_protocol_parameters()
        &&& after.spec_stable_governance_activity() == before.spec_stable_governance_activity()
    }

    /// `after` is `before` with its pending updates taken out to be applied,
    /// as `begin_epoch` leaves it when the store says the epoch begins.
    pub open spec fn begun(before: &StateOverlay, after: &StateOverlay) -> bool {
        &&& after.spec_pools_updates() is None
        &&& after.spec_governance_updates() is None
        &&& after.spec_epoch() == before.spec_epoch()
        &&& after.spec_rewards() == before.spec_rewards()
        &&& after.spec_stable_protocol_parameters() == before.spec_stable_protocol_parameters()
        &&& after.spec_stable_governance_activity() == before.spec_stable_governance_activity()
    }

    /// `after` is `before` moved into the next epoch with these results.
    pub open spec fn transitioned(
        before: &StateOverlay,
        after: &StateOverlay,
        effective_rewards: Rewards<Effective>,
        pools_updates: PoolsEpochTransitionUpdates,
        governance_updates: GovernanceUpdates,
    ) -> bool {
        &&& after.spec_epoch() == before.spec_epoch() + 1
        &&& after.spec_rewards() == RewardsState::Effective(effective_rewards)
        &&& after.spec_pools_updates() == Some(pools_updates)
        &&& after.spec_governance_updates() == Some(governance_updates)
        &&& after.spec_stable_protocol_parameters() == before.spec_stable_protocol_parameters()
        &&& after.spec_stable_governance_activity() == before.spec_stable_governance_activity()
    }

    /// The latest governance activity can be computed without overflow: where
    /// a pending update marks the epoch dormant, the stored count is below the
    /// largest `u32`, so that one more dormant epoch fits.
    pub open spec fn dormant_count_fits(&self) -> bool {
        match self.spec_governance_updates() {
            Some(updates) => updates.is_dormant_epoch
                ==> self.spec_stable_governance_activity().consecutive_dormant_epochs < u32::MAX,
            None => true,
        }
    }

    /// A fresh overlay for an epoch: nothing pending, rewards not ready.
    pub fn new(
        epoch: Epoch,
        protocol_parameters: ProtocolParameters,
        governance_activity: GovernanceActivity,
    ) -> (o: Self)
        ensures
            o.spec_epoch() == epoch,
            o.spec_rewards() is NotReady,
            o.spec_pools_updates() is None,
            o.spec_governance_updates() is None,
            o.spec_stable_protocol_parameters() == protocol_parameters,
            o.spec_stable_governance_activity() == governance_activity,
    {
        StateOverlay {
            epoch,
            rewards: RewardsState::NotReady,
            pools_updates: None,
            governance_updates: None,
            protocol_parameters,
            governance_activity,
        }
    }

    /// Rolls the overlay back to the previous epoch, throwing away the epoch
    /// transition: effective rewards go back to their computed summary, and
    /// the pending updates are dropped.
    pub fn rollback(&mut self)
        requires
            old(self).spec_epoch() >= 1,
        ensures
            Self::rolled_back(&*old(self), &*final(self)),
    {
        let to = self.epoch - 1;
        self.epoch = to;
        let mut rewards = RewardsState::NotReady;
        std::mem::swap(&mut rewards, &mut self.rewards);
        self.rewards = match rewards {
            RewardsState::Effective(effective) => RewardsState::Computed(effective.into()),
            st => st,
        };
        self.pools_updates = None;
        self.governance_updates = None;
    }

    /// Records the transition into the next epoch.
    pub fn transition(
        &mut self,
        effective_rewards: Rewards<Effective>,
        pools_updates: PoolsEpochTransitionUpdates,
        governance_updates: GovernanceUpdates,
    )
        requires
            old(self).spec_epoch() < u64::MAX,
        ensures
            Self::transitioned(
                &*old(self),
                &*final(self),
                effective_rewards,
                pools_updates,
                governance_updates,
            ),
    {
        let to = self.epoch + 1;
        self.epoch = to;
        self.rewards = RewardsState::Effective(effective_rewards);
        self.pools_updates = Some(pools_updates);
        self.governance_updates = Some(governance_updates);
    }

    /// First step of flushing the overlay: when the store says the epoch is
    /// to end, the effective rewards are taken out to be paid. It is an error
    /// for them not to be effective then; the rewards are taken out either way.
    pub fn end_epoch(&mut self, should_end_epoch: bool) -> (r: Result<Option<Rewards<Effective>>, StateError>)
        ensures
            !should_end_epoch ==> r == Ok::<Option<Rewards<Effective>>, StateError>(None) && final(self).spec_rewards()
                == old(self).spec_rewards(),
            should_end_epoch ==> Self::ended(&*old(self), &*final(self)),
            should_end_epoch ==> final(self).spec_rewards() is NotReady && match old(self).spec_rewards() {
                RewardsState::Effective(e) => r == Ok::<Option<Rewards<Effective>>, StateError>(Some(e)),
                _ => r == Err::<Option<Rewards<Effective>>, StateError>(StateError::NoEffectiveRewards),
            },
            final(self).spec_epoch() == old(self).spec_epoch(),
            final(self).spec_pools_updates() == old(self).spec_pools_updates(),
            final(self).spec_governance_updates() == old(self).spec_governance_updates(),
            final(self).spec_stable_protocol_parameters() == old(self).spec_stable_protocol_parameters(),
            final(self).spec_stable_governance_activity() == old(self).spec_stable_governance_activity(),
    {
        if should_end_epoch {
            let mut rewards = RewardsState::NotReady;
            std::mem::swap(&mut rewards, &mut self.rewards);
            match rewards {
                RewardsState::Effective(effective) => Ok(Some(effective)),
                _ => Err(StateError::NoEffectiveRewards),
            }
        } else {
            Ok(None)
        }
    }

    /// Second step of flushing: when the store says the snapshot is to be
    /// taken, the epoch whose snapshot to take, the one before this overlay's.
    pub fn snapshot_epoch(&self, should_snapshot: bool) -> (r: Option<Epoch>)
        requires
            should_snapshot ==> self.spec_epoch() >= 1,
        ensures
            r == (if should_snapshot {
                Some((self.spec_epoch() - 1) as Epoch)
            } else {
                None::<Epoch>
            }),
    {
        if should_snapshot {
            Some(self.epoch - 1)
        } else {
            None
        }
    }

    /// Third step of flushing: when the store says the epoch is to begin, the
    /// pending pool and governance updates are taken out to be applied.
    pub fn begin_epoch(&mut self, should_begin_epoch: bool) -> (r: Option<
        (Option<PoolsEpochTransitionUpdates>, Option<GovernanceUpdates>),
    >)
        ensures
            should_begin_epoch ==> Self::begun(&*old(self), &*final(self)),
            should_begin_epoch ==> r == Some(
                (old(self).spec_pools_updates(), old(self).spec_governance_updates()),
            ) && final(self).spec_pools_updates() is None && final(self).spec_governance_updates() is None,
            !should_begin_epoch ==> r is None && final(self).spec_pools_updates()
                == old(self).spec_pools_updates() && final(self).spec_governance_updates()
                == old(self).spec_governance_updates(),
            final(self).spec_epoch() == old(self).spec_epoch(),
            final(self).spec_rewards() == old(self).spec_rewards(),
            final(self).spec_stable_protocol_parameters() == old(self).spec_stable_protocol_parameters(),
            final(self).spec_stable_governance_activity() == old(self).spec_stable_governance_activity(),
    {
        if should_begin_epoch {
            let pools_updates = self.pools_updates.take();
            let governance_updates = self.governance_updates.take();
            Some((pools_updates, governance_updates))
        } else {
            None
        }
    }

    /// Records what enacting the governance updates left in the stable store.
    pub fn enacted(&mut self, protocol_parameters: ProtocolParameters, governance_activity: GovernanceActivity)
        ensures
            final(self).spec_stable_protocol_parameters() == protocol_parameters,
            final(self).spec_stable_governance_activity() == governance_activity,
            final(self).spec_epoch() == old(self).spec_epoch(),
            final(self).spec_rewards() == old(self).spec_rewards(),
            final(self).spec_pools_updates() == old(self).spec_pools_updates(),
            final(self).spec_governance_updates() == old(self).spec_governance_updates(),
    {
        self.protocol_parameters = protocol_parameters;
        self.governance_activity = governance_activity;
    }

    /// Whether the overlay has no unapplied state.
    pub fn is_empty(&self) -> (b: bool)
        ensures
            b == self.spec_is_empty(),
    {
        (match &self.rewards {
            RewardsState::NotReady | RewardsState::Computed(..) => true,
            _ => false,
        }) && self.pools_updates.is_none() && self.governance_updates.is_none()
    }

    /// The epoch for which this overlay is valid.
    pub fn epoch(&self) -> (e: Epoch)
        ensures
            e == self.spec_epoch(),
    {
        self.epoch
    }

    /// The current protocol version, from the latest protocol parameters.
    pub fn protocol_version(&self) -> (v: ProtocolVersion)
        ensures
            v == self.spec_protocol_parameters().protocol_version,
    {
        let (major, minor) = self.protocol_parameters().protocol_version;
        (major, minor)
    }

    /// The protocol parameters for the current epoch (the latest ones) or for
    /// the previous epoch (those of the stable store); any other epoch is a
    /// broken invariant of the caller.
    pub fn protocol_parameters_for(&self, epoch: Epoch) -> (p: &ProtocolParameters)
        requires
            epoch == self.spec_epoch() || epoch + 1 == self.spec_epoch(),
        ensures
            *p == (if epoch == self.spec_epoch() {
                self.spec_protocol_parameters()
            } else {
                self.spec_stable_protocol_parameters()
            }),
    {
        if epoch == self.epoch {
            self.protocol_parameters()
        } else {
            self.assert_previous_epoch(epoch);
            &self.protocol_parameters
        }
    }

    /// The latest protocol parameters, from the pending governance updates if any.
    pub fn protocol_parameters(&self) -> (p: &ProtocolParameters)
        ensures
            *p == self.spec_protocol_parameters(),
    {
        match &self.governance_updates {
            Some(update) => &update.protocol_parameters,
            None => &self.protocol_parameters,
        }
    }

    /// The governance activity for the current epoch (the latest) or for the
    /// previous epoch (that of the stable store).
    pub fn governance_activity_for(&self, epoch: Epoch) -> (a: GovernanceActivity)
        requires
            epoch == self.spec_epoch() || epoch + 1 == self.spec_epoch(),
            epoch == self.spec_epoch() ==> self.dormant_count_fits(),
        ensures
            a == (if epoch == self.spec_epoch() {
                self.spec_governance_activity()
            } else {
                self.spec_stable_governance_activity()
            }),
    {
        if epoch == self.epoch {
            self.governance_activity()
        } else {
            self.assert_previous_epoch(epoch);
            self.governance_activity
        }
    }

    /// The latest governance activity: a pending dormant epoch counts one more.
    pub fn governance_activity(&self) -> (a: GovernanceActivity)
        requires
            self.dormant_count_fits(),
        ensures
            a == self.spec_governance_activity(),
            match self.spec_governance_updates() {
                Some(updates) => if updates.is_dormant_epoch {
                    a.consecutive_dormant_epochs == self.spec_stable_governance_activity().consecutive_dormant_epochs + 1
                } else {
                    a == self.spec_stable_governance_activity()
                },
                None => a == self.spec_stable_governance_activity(),
            },
    {
        let mut governance_activity = self.governance_activity;
        let dormant = match &self.governance_updates {
            Some(updates) => updates.is_dormant_epoch,
            None => false,
        };
        if dormant {
            governance_activity.consecutive_dormant_epochs = governance_activity.consecutive_dormant_epochs
                + 1;
        }
        governance_activity
    }

    /// The governance activity, to update after applying a block.
    pub fn governance_activity_mut(&mut self) -> (a: &mut GovernanceActivity)
        ensures
            *a == old(self).spec_stable_governance_activity(),
            final(self).spec_stable_governance_activity() == *final(a),
            final(self).spec_epoch() == old(self).spec_epoch(),
            final(self).spec_rewards() == old(self).spec_rewards(),
            final(self).spec_pools_updates() == old(self).spec_pools_updates(),
            final(self).spec_governance_updates() == old(self).spec_governance_updates(),
            final(self).spec_stable_protocol_parameters() == old(self).spec_stable_protocol_parameters(),
    {
        &mut self.governance_activity
    }

    /// The rewards state.
    pub fn rewards(&self) -> (r: &RewardsState)
        ensures
            *r == self.spec_rewards(),
    {
        &self.rewards
    }

    /// The rewards state, to replace the rewards.
    pub fn rewards_mut(&mut self) -> (r: &mut RewardsState)
        ensures
            *r == old(self).spec_rewards(),
            final(self).spec_rewards() == *final(r),
            final(self).spec_epoch() == old(self).spec_epoch(),
            final(self).spec_pools_updates() == old(self).spec_pools_updates(),
            final(self).spec_governance_updates() == old(self).spec_governance_updates(),
            final(self).spec_stable_protocol_parameters() == old(self).spec_stable_protocol_parameters(),
            final(self).spec_stable_governance_activity() == old(self).spec_stable_governance_activity(),
    {
        &mut self.rewards
    }

    /// Takes the computed rewards summary out, marking the rewards not ready.
    pub fn take_computed_rewards(&mut self) -> (r: Option<Rewards<Computed>>)
        ensures
            match old(self).spec_rewards() {
                RewardsState::Computed(c) => r == Some(c) && final(self).spec_rewards() is NotReady,
                _ => r is None && final(self).spec_rewards() == old(self).spec_rewards(),
            },
            final(self).spec_epoch() == old(self).spec_epoch(),
            final(self).spec_pools_updates() == old(self).spec_pools_updates(),
            final(self).spec_governance_updates() == old(self).spec_governance_updates(),
            final(self).spec_stable_protocol_parameters() == old(self).spec_stable_protocol_parameters(),
            final(self).spec_stable_governance_activity() == old(self).spec_stable_governance_activity(),
    {
        self.rewards.take_computed_rewards()
    }

    /// The epoch asked for is the one before the overlay's.
    fn assert_previous_epoch(&self, epoch: Epoch)
        requires
            epoch + 1 == self.spec_epoch(),
    {
    }
}

/// A transition followed by a rollback gives back the epoch, an empty overlay
/// whose rewards are the computed summary of the effective rewards, and the
/// protocol parameters and governance activity of the stable store.
pub proof fn lemma_transition_rollback(
    before: StateOverlay,
    after_transition: StateOverlay,
    after_rollback: StateOverlay,
    effective_rewards: Rewards<Effective>,
    pools_updates: PoolsEpochTransitionUpdates,
    governance_updates: GovernanceUpdates,
)
    requires
        StateOverlay::transitioned(
            &before,
            &after_transition,
            effective_rewards,
            pools_updates,
            governance_updates,
        ),
        StateOverlay::rolled_back(&after_transition, &after_rollback),
    ensures
        after_rollback.spec_epoch() == before.spec_epoch(),
        after_rollback.spec_is_empty(),
        after_rollback.spec_rewards() == RewardsState::Computed(
            Rewards { total: effective_rewards.total, stage: Computed },
        ),
        after_rollback.spec_protocol_parameters() == before.spec_stable_protocol_parameters(),
        after_rollback.spec_governance_activity() == before.spec_stable_governance_activity(),
{
}

/// A rollback always leaves an overlay with no unapplied state.
pub proof fn lemma_rollback_empties(before: StateOverlay, after: StateOverlay)
    requires
        StateOverlay::rolled_back(&before, &after),
    ensures
        after.spec_is_empty(),
{
}

/// While governance updates are pending, the latest protocol parameters are theirs.
pub proof fn lemma_pending_parameters_win(o: StateOverlay, updates: GovernanceUpdates)
    requires
        o.spec_governance_updates() == Some(updates),
    ensures
        o.spec_protocol_parameters() == updates.protocol_parameters,
{
}

/// A step in the life of an overlay: the transition into the next epoch, a
/// rollback to the previous one, the beginning of an epoch that takes the
/// pending updates out (`begin_epoch` when the store says so), or any other
/// call (reading it, taking or writing the rewards, writing the governance
/// activity, ending an epoch, recording enacted parameters), which moves
/// neither the epoch nor the pending updates.
#[derive(Debug, Copy, Clone, PartialEq, Eq, Structural)]
pub enum OverlayStep {
    Transition,
    Rollback,
    BeginEpoch,
    Update,
}

/// `after` is `before` moved into the next epoch with its updates pending,
/// as `transition` leaves it.
pub open spec fn moved_on(before: StateOverlay, after: StateOverlay) -> bool {
    &&& after.spec_epoch() == before.spec_epoch() + 1
    &&& after.spec_pools_updates() is Some
    &&& after.spec_governance_updates() is Some
}

/// `after` keeps the epoch and the pending updates of `before`, as every
/// call but `transition`, `rollback` and `begin_epoch` taking the updates does.
pub open spec fn kept_epoch(before: StateOverlay, after: StateOverlay) -> bool {
    &&& after.spec_epoch() == before.spec_epoch()
    &&& after.spec_pools_updates() == before.spec_pools_updates()
    &&& after.spec_governance_updates() == before.spec_governance_updates()
}

/// `after` follows from `before` by the step.
pub open spec fn step_relates(before: StateOverlay, after: StateOverlay, step: OverlayStep) -> bool {
    match step {
        OverlayStep::Transition => moved_on(before, after),
        OverlayStep::Rollback => StateOverlay::rolled_back(&before, &after),
        OverlayStep::BeginEpoch => StateOverlay::begun(&before, &after),
        OverlayStep::Update => kept_epoch(before, after),
    }
}

/// How many of the steps are `which`.
pub open spec fn step_count(steps: Seq<OverlayStep>, which: OverlayStep) -> int
    decreases steps.len(),
{
    if steps.len() == 0 {
        0
    } else {
        step_count(steps.drop_last(), which) + if steps.last() == which {
            1int
        } else {
            0int
        }
    }
}

/// The last of the steps that moved the epoch, if any.
pub open spec fn last_move(steps: Seq<OverlayStep>) -> Option<OverlayStep>
    decreases steps.len(),
{
    if steps.len() == 0 {
        None
    } else if steps.last() == OverlayStep::Update {
        last_move(steps.drop_last())
    } else {
        Some(steps.last())
    }
}

/// Over any history of an overlay that starts as `new` leaves it (nothing
/// pending), flushing steps included, the epoch is the first one plus the
/// transitions minus the rollbacks; updates are pending exactly when the last
/// transition, rollback or beginning of an epoch was a transition; so the
/// overlay is empty exactly when its rewards are not effective and that last
/// move was not a transition.
pub proof fn lemma_overlay_history(states: Seq<StateOverlay>, steps: Seq<OverlayStep>)
    requires
        states.len() == steps.len() + 1,
        states[0].spec_pools_updates() is None,
        states[0].spec_governance_updates() is None,
        forall|i: int| 0 <= i < steps.len() ==> step_relates(states[i], states[i + 1], #[trigger] steps[i]),
    ensures
        states.last().spec_epoch() == states[0].spec_epoch() + step_count(steps, OverlayStep::Transition)
            - step_count(steps, OverlayStep::Rollback),
        states.last().spec_pools_updates() is Some <==> last_move(steps) == Some(OverlayStep::Transition),
        states.last().spec_governance_updates() is Some <==> last_move(steps) == Some(OverlayStep::Transition),
        states.last().spec_is_empty() <==> (!(states.last().spec_rewards() is Effective) && last_move(steps)
            != Some(OverlayStep::Transition)),
    decreases steps.len(),
{
    if steps.len() > 0 {
        let n = steps.len() - 1;
        let fewer = states.drop_last();
        assert forall|i: int| 0 <= i < steps.drop_last().len() implies step_relates(
            fewer[i],
            fewer[i + 1],
            #[trigger] steps.drop_last()[i],
        ) by {
            assert(step_relates(states[i], states[i + 1], steps[i]));
        }
        lemma_overlay_history(fewer, steps.drop_last());
        assert(step_relates(states[n], states[n + 1], steps[n]));
        assert(fewer.last() == states[n]);
    }
}

/// Flushing an overlay (ending the epoch, then beginning the next one, as the
/// store says both are due) leaves it empty and in the same epoch, with the
/// parameters and activity of the stable store; whatever was recorded as
/// enacted afterwards, it stays empty. A second flush finds nothing to take:
/// no effective rewards, and no pending updates.
pub proof fn lemma_flush_empties(
    before: StateOverlay,
    after_end: StateOverlay,
    after_begin: StateOverlay,
    after_enacted: StateOverlay,
)
    requires
        StateOverlay::ended(&before, &after_end),
        StateOverlay::begun(&after_end, &after_begin),
        kept_epoch(after_begin, after_enacted),
        after_enacted.spec_rewards() == after_begin.spec_rewards(),
    ensures
        after_begin.spec_is_empty(),
        after_enacted.spec_is_empty(),
        after_enacted.spec_epoch() == before.spec_epoch(),
        !(after_enacted.spec_rewards() is Effective),
        after_enacted.spec_pools_updates() is None && after_enacted.spec_governance_updates() is None,
{
}

/// The latest governance activity is that of the stable store, but for a
/// pending update that marks the epoch dormant, which counts one more dormant
/// epoch; an update that does not mark it dormant leaves the count as it is.
pub proof fn lemma_latest_governance_activity(o: StateOverlay)
    requires
        o.dormant_count_fits(),
    ensures
        o.spec_governance_updates() is None ==> o.spec_governance_activity() == o.spec_stable_governance_activity(),
        o.spec_governance_updates() matches Some(updates) && !updates.is_dormant_epoch
            ==> o.spec_governance_activity() == o.spec_stable_governance_activity(),
        o.spec_governance_updates() matches Some(updates) && updates.is_dormant_epoch
            ==> o.spec_governance_activity().consecutive_dormant_epochs
            == o.spec_stable_governance_activity().consecutive_dormant_epochs + 1,
{
}

} // verus!
