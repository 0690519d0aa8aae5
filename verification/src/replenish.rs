//! The replenish reconciler.
//!
//! A pure state machine that rebalances the pool's main stake account and
//! its on-ramp account after external events: delinquency deactivation,
//! incidental lamport transfers, and reward accrual.  It is derived fresh
//! from current on-chain data on every call, may be invoked speculatively
//! by anyone at any time, and every leg skips as a true no-op when it has
//! nothing to do.
//!
//! The leg order is deliberate: stake must be merged before excess
//! lamports are computed (otherwise freshly merged stake would be
//! misclassified as excess), and lamports must be moved before the final
//! delegate decision (otherwise a delegation could start one call too
//! early, before all available lamports are present).

use vstd::prelude::*;

use crate::error::SinglePoolError;

verus! {

/// The lifecycle of a stake delegation at a given epoch.
#[derive(Clone, Copy, Debug, PartialEq, Eq, Structural)]
pub enum DelegationStatus {
    /// Never activated, or fully deactivated.
    Inactive,
    /// Activation begins this epoch; effective stake is still zero.
    Activating,
    /// Fully warmed up.
    Active,
    /// Deactivation has begun but not completed.
    Deactivating,
}

/// A stake delegation as the reconciler reads it.
#[derive(Clone, Copy, Debug, PartialEq, Eq, Structural)]
pub struct DelegationState {
    /// Delegated stake, in lamports.
    pub stake: u64,
    /// Epoch in which activation began.
    pub activation_epoch: u64,
    /// Epoch in which deactivation began; `u64::MAX` when none.
    pub deactivation_epoch: u64,
}

/// One of the pool's stake accounts as the reconciler reads it.
#[derive(Clone, Copy, Debug, PartialEq, Eq, Structural)]
pub struct StakeAccountState {
    /// Total lamports the account holds.
    pub lamports: u64,
    /// The rent-exempt reserve recorded in the account's metadata.
    pub rent_reserve: u64,
    /// The delegation, when the account is delegated.
    pub delegation: Option<DelegationState>,
}

/// Everything the reconciler derives its decisions from: the two pool
/// stake accounts, the current epoch, and the cluster's minimum
/// delegation.
#[derive(Clone, Copy, Debug, PartialEq, Eq, Structural)]
pub struct PoolStakeState {
    /// The pool's main stake account.
    pub main: StakeAccountState,
    /// The pool's on-ramp account; `None` when it has not been
    /// provisioned.
    pub onramp: Option<StakeAccountState>,
    /// The current epoch.
    pub epoch: u64,
    /// The cluster's minimum stake delegation.
    pub minimum_delegation: u64,
}

/// One no-op-safe sub-operation the reconciler asks the collaborating
/// stake program to perform, in list order.
#[derive(Clone, Copy, Debug, PartialEq, Eq, Structural)]
pub enum ReplenishOp {
    /// Re-delegate the deactivated main account to the pool's vote
    /// account.
    RedelegateMain,
    /// Move the on-ramp account's entire active delegation into the main
    /// account, resetting the on-ramp to undelegated.
    MergeOnRamp,
    /// Move this many excess lamports from the main account to the
    /// on-ramp account.
    MoveExcessLamports {
        /// The exact excess beyond the main account's rent reserve plus
        /// delegation.
        amount: u64,
    },
    /// Delegate the on-ramp account so that its delegation covers this
    /// amount: fresh from inactive, or an increase of an activation
    /// begun this same epoch.
    DelegateOnRamp {
        /// All lamports the on-ramp holds beyond its rent reserve.
        amount: u64,
    },
}

impl StakeAccountState {
    /// Validity of an on-chain stake account: the rent reserve is held in
    /// full, and any delegation is covered by lamports beyond the
    /// reserve.
    pub open spec fn wf(self) -> bool {
        &&& self.rent_reserve <= self.lamports
        &&& match self.delegation {
            Some(d) => d.stake + self.rent_reserve <= self.lamports,
            None => true,
        }
    }
}

/// The lamports the on-ramp holds, or zero when it has not been
/// provisioned.
pub open spec fn spec_onramp_lamports(s: PoolStakeState) -> int {
    match s.onramp {
        Some(o) => o.lamports as int,
        None => 0,
    }
}

impl PoolStakeState {
    /// Validity of the whole picture: both accounts are valid on-chain
    /// stake accounts and the pool's lamports fit the currency's bound.
    pub open spec fn wf(self) -> bool {
        &&& self.main.wf()
        &&& match self.onramp {
            Some(o) => o.wf(),
            None => true,
        }
        &&& self.main.lamports + spec_onramp_lamports(self) <= u64::MAX
    }
}

/// The lifecycle of a delegation at an epoch: deactivation takes
/// precedence and completes after its epoch passes; otherwise a
/// delegation activates during its activation epoch and is fully active
/// after it.
pub open spec fn spec_delegation_status(d: DelegationState, epoch: u64) -> DelegationStatus {
    if d.deactivation_epoch != u64::MAX {
        if epoch > d.deactivation_epoch {
            DelegationStatus::Inactive
        } else {
            DelegationStatus::Deactivating
        }
    } else if d.activation_epoch < epoch {
        DelegationStatus::Active
    } else {
        DelegationStatus::Activating
    }
}

/// Computes the lifecycle of a delegation at an epoch.
pub fn delegation_status(d: &DelegationState, epoch: u64) -> (r: DelegationStatus)
    ensures
        r == spec_delegation_status(*d, epoch),
{
    if d.deactivation_epoch != u64::MAX {
        if epoch > d.deactivation_epoch {
            DelegationStatus::Inactive
        } else {
            DelegationStatus::Deactivating
        }
    } else if d.activation_epoch < epoch {
        DelegationStatus::Active
    } else {
        DelegationStatus::Activating
    }
}

/// The stake leg: when the on-ramp's delegation is fully active, its
/// whole delegation moves into the main account and the on-ramp becomes
/// undelegated; otherwise nothing happens.
pub open spec fn spec_stake_leg(main: StakeAccountState, onramp: StakeAccountState, epoch: u64) -> (
    Seq<ReplenishOp>,
    StakeAccountState,
    StakeAccountState,
) {
    match (main.delegation, onramp.delegation) {
        (Some(md), Some(od)) => {
            if spec_delegation_status(od, epoch) == DelegationStatus::Active {
                (
                    seq![ReplenishOp::MergeOnRamp],
                    StakeAccountState {
                        lamports: (main.lamports + od.stake) as u64,
                        delegation: Some(DelegationState { stake: (md.stake + od.stake) as u64, ..md }),
                        ..main
                    },
                    StakeAccountState { lamports: (onramp.lamports - od.stake) as u64, delegation: None, ..onramp },
                )
            } else {
                (seq![], main, onramp)
            }
        },
        _ => (seq![], main, onramp),
    }
}

/// The excess lamports the main account holds beyond its rent reserve
/// plus its delegation.
pub open spec fn spec_main_excess(main: StakeAccountState) -> int {
    match main.delegation {
        Some(d) => main.lamports - main.rent_reserve - d.stake,
        None => 0,
    }
}

/// The lamport leg: the main account's exact excess moves to the
/// on-ramp; a zero excess is a true no-op.
pub open spec fn spec_lamport_leg(main: StakeAccountState, onramp: StakeAccountState) -> (
    Seq<ReplenishOp>,
    StakeAccountState,
    StakeAccountState,
) {
    let excess = spec_main_excess(main);
    if excess > 0 {
        (
            seq![ReplenishOp::MoveExcessLamports { amount: excess as u64 }],
            StakeAccountState { lamports: (main.lamports - excess) as u64, ..main },
            StakeAccountState { lamports: (onramp.lamports + excess) as u64, ..onramp },
        )
    } else {
        (seq![], main, onramp)
    }
}

/// The lamports the on-ramp holds beyond its rent reserve, free to be
/// delegated.
pub open spec fn spec_onramp_free(onramp: StakeAccountState) -> int {
    if onramp.lamports > onramp.rent_reserve {
        onramp.lamports - onramp.rent_reserve
    } else {
        0
    }
}

/// The delegate leg: the on-ramp's free lamports are delegated, fresh
/// from inactive when they reach the minimum delegation floor, or as an
/// increase of a delegation begun this same epoch; anything else is a
/// true no-op.
pub open spec fn spec_delegate_leg(
    onramp: StakeAccountState,
    epoch: u64,
    minimum_delegation: u64,
) -> (Seq<ReplenishOp>, StakeAccountState) {
    let free = spec_onramp_free(onramp);
    match onramp.delegation {
        None => {
            if free >= minimum_delegation && free > 0 {
                (
                    seq![ReplenishOp::DelegateOnRamp { amount: free as u64 }],
                    StakeAccountState {
                        delegation: Some(
                            DelegationState {
                                stake: free as u64,
                                activation_epoch: epoch,
                                deactivation_epoch: u64::MAX,
                            },
                        ),
                        ..onramp
                    },
                )
            } else {
                (seq![], onramp)
            }
        },
        Some(d) => {
            if spec_delegation_status(d, epoch) == DelegationStatus::Activating
                && d.activation_epoch == epoch && free > d.stake {
                (
                    seq![ReplenishOp::DelegateOnRamp { amount: free as u64 }],
                    StakeAccountState {
                        delegation: Some(DelegationState { stake: free as u64, ..d }),
                        ..onramp
                    },
                )
            } else {
                (seq![], onramp)
            }
        },
    }
}

/// The whole reconciliation decision: the sub-operations to issue, in
/// order, and the state the pool's accounts reach once the collaborating
/// stake program has performed them.
pub open spec fn spec_replenish(s: PoolStakeState) -> Result<
    (Seq<ReplenishOp>, PoolStakeState),
    SinglePoolError,
> {
    match (s.onramp, s.main.delegation) {
        (None, _) => Err(SinglePoolError::OnRampDoesntExist),
        (Some(onramp), None) => Err(SinglePoolError::WrongStakeStake),
        (Some(onramp), Some(md)) => {
            let status = spec_delegation_status(md, s.epoch);
            if status == DelegationStatus::Inactive {
                // the main account was deactivated externally: the one
                // and only action is to re-delegate it, with no value
                // movement in the same call
                Ok(
                    (
                        seq![ReplenishOp::RedelegateMain],
                        PoolStakeState {
                            main: StakeAccountState {
                                delegation: Some(
                                    DelegationState {
                                        stake: (s.main.lamports - s.main.rent_reserve) as u64,
                                        activation_epoch: s.epoch,
                                        deactivation_epoch: u64::MAX,
                                    },
                                ),
                                ..s.main
                            },
                            ..s
                        },
                    ),
                )
            } else if status != DelegationStatus::Active {
                // a merely activating (or still deactivating) main
                // account admits no on-ramp state change; doing nothing
                // is a success
                Ok((seq![], s))
            } else {
                let (ops1, main1, onramp1) = spec_stake_leg(s.main, onramp, s.epoch);
                let (ops2, main2, onramp2) = spec_lamport_leg(main1, onramp1);
                let (ops3, onramp3) = spec_delegate_leg(onramp2, s.epoch, s.minimum_delegation);
                Ok(
                    (
                        ops1 + ops2 + ops3,
                        PoolStakeState { main: main2, onramp: Some(onramp3), ..s },
                    ),
                )
            }
        },
    }
}

/// Decides a replenish call: the sub-operations to issue and the state
/// they reach, or the exact error owed: `OnRampDoesntExist` when the
/// on-ramp has not been provisioned, `WrongStakeStake` when the main
/// account is not delegated at all.
pub fn replenish(state: &PoolStakeState) -> (r: Result<
    (Vec<ReplenishOp>, PoolStakeState),
    SinglePoolError,
>)
    requires
        state.wf(),
    ensures
        r is Ok <==> spec_replenish(*state) is Ok,
        r matches Ok(p) ==> spec_replenish(*state) == Ok::<(Seq<ReplenishOp>, PoolStakeState), SinglePoolError>(
            (p.0@, p.1),
        ),
        r matches Err(e) ==> spec_replenish(*state) == Err::<(Seq<ReplenishOp>, PoolStakeState), SinglePoolError>(
            e,
        ),
{
    let onramp = match state.onramp {
        Some(o) => o,
        None => {
            return Err(SinglePoolError::OnRampDoesntExist);
        },
    };
    let md = match state.main.delegation {
        Some(d) => d,
        None => {
            return Err(SinglePoolError::WrongStakeStake);
        },
    };
    let mut ops: Vec<ReplenishOp> = Vec::new();
    let status = delegation_status(&md, state.epoch);
    if matches!(status, DelegationStatus::Inactive) {
        ops.push(ReplenishOp::RedelegateMain);
        let next = PoolStakeState {
            main: StakeAccountState {
                delegation: Some(
                    DelegationState {
                        stake: state.main.lamports - state.main.rent_reserve,
                        activation_epoch: state.epoch,
                        deactivation_epoch: u64::MAX,
                    },
                ),
                ..state.main
            },
            ..*state
        };
        return Ok((ops, next));
    }
    if !matches!(status, DelegationStatus::Active) {
        return Ok((ops, *state));
    }
    // stake leg
    let mut main1 = state.main;
    let mut onramp1 = onramp;
    match onramp.delegation {
        Some(od) => {
            if matches!(delegation_status(&od, state.epoch), DelegationStatus::Active) {
                ops.push(ReplenishOp::MergeOnRamp);
                main1 = StakeAccountState {
                    lamports: state.main.lamports + od.stake,
                    delegation: Some(DelegationState { stake: md.stake + od.stake, ..md }),
                    ..state.main
                };
                onramp1 = StakeAccountState {
                    lamports: onramp.lamports - od.stake,
                    delegation: None,
                    ..onramp
                };
            }
        },
        None => {},
    }
    // lamport leg
    let mut main2 = main1;
    let mut onramp2 = onramp1;
    let main1_stake = match main1.delegation {
        Some(d) => d.stake,
        None => 0,
    };
    if main1.lamports > main1.rent_reserve + main1_stake {
        let excess = main1.lamports - main1.rent_reserve - main1_stake;
        ops.push(ReplenishOp::MoveExcessLamports { amount: excess });
        main2 = StakeAccountState { lamports: main1.lamports - excess, ..main1 };
        onramp2 = StakeAccountState { lamports: onramp1.lamports + excess, ..onramp1 };
    }
    // delegate leg
    let free = if onramp2.lamports > onramp2.rent_reserve {
        onramp2.lamports - onramp2.rent_reserve
    } else {
        0
    };
    let mut onramp3 = onramp2;
    match onramp2.delegation {
        None => {
            if free >= state.minimum_delegation && free > 0 {
                ops.push(ReplenishOp::DelegateOnRamp { amount: free });
                onramp3 = StakeAccountState {
                    delegation: Some(
                        DelegationState {
                            stake: free,
                            activation_epoch: state.epoch,
                            deactivation_epoch: u64::MAX,
                        },
                    ),
                    ..onramp2
                };
            }
        },
        Some(d) => {
            if matches!(delegation_status(&d, state.epoch), DelegationStatus::Activating)
                && d.activation_epoch == state.epoch && free > d.stake {
                ops.push(ReplenishOp::DelegateOnRamp { amount: free });
                onramp3 = StakeAccountState {
                    delegation: Some(DelegationState { stake: free, ..d }),
                    ..onramp2
                };
            }
        },
    }
    proof {
        let legs1 = spec_stake_leg(state.main, onramp, state.epoch);
        let legs2 = spec_lamport_leg(legs1.1, legs1.2);
        let legs3 = spec_delegate_leg(legs2.2, state.epoch, state.minimum_delegation);
        assert(main1 == legs1.1);
        assert(onramp1 == legs1.2);
        assert(main2 == legs2.1);
        assert(onramp2 == legs2.2);
        assert(onramp3 == legs3.1);
        assert(ops@ =~= legs1.0 + legs2.0 + legs3.0);
    }
    let next = PoolStakeState { main: main2, onramp: Some(onramp3), ..*state };
    Ok((ops, next))
}

/// Law: a successful replenish never decreases — indeed never changes —
/// the total lamports held across the main and on-ramp accounts: it only
/// redistributes them, net of nothing.
pub proof fn lemma_replenish_conserves_lamports(s: PoolStakeState)
    requires
        s.wf(),
        spec_replenish(s) is Ok,
    ensures
        ({
            let next = spec_replenish(s)->Ok_0.1;
            next.main.lamports + spec_onramp_lamports(next) == s.main.lamports
                + spec_onramp_lamports(s)
        }),
{
}

/// Law: a successful replenish leaves both accounts valid, with the same
/// total, so the result can be reconciled again.
pub proof fn lemma_replenish_preserves_wf(s: PoolStakeState)
    requires
        s.wf(),
        spec_replenish(s) is Ok,
    ensures
        spec_replenish(s)->Ok_0.1.wf(),
{
}

/// Law: an empty operation list is a true no-op: when the reconciler
/// finds nothing to issue, the state is exactly unchanged.
pub proof fn lemma_replenish_empty_ops_is_noop(s: PoolStakeState)
    requires
        s.wf(),
        spec_replenish(s) is Ok,
        spec_replenish(s)->Ok_0.0.len() == 0,
    ensures
        spec_replenish(s)->Ok_0.1 == s,
{
}

/// Law: replenish is idempotent: calling it a second time in the same
/// epoch, with no intervening state change, succeeds and produces no
/// additional account mutation.
pub proof fn lemma_replenish_idempotent(s: PoolStakeState)
    requires
        s.wf(),
        spec_replenish(s) is Ok,
    ensures
        ({
            let next = spec_replenish(s)->Ok_0.1;
            &&& spec_replenish(next) is Ok
            &&& spec_replenish(next)->Ok_0.1 == next
        }),
{
}

} // verus!
