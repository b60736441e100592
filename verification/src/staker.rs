use vstd::prelude::*;

use crate::errors::Errors;
use crate::rate::{lsd_amount_of, principal_of};
use crate::states::{
    AccountId, StakeManager, StakeManagerView, TokenAccountInfo, UnstakeAccount,
};

verus! {

/// Outcome of a deposit, for the host to log: how much principal came in and
/// how many receipt tokens it must mint.
#[derive(Clone, Copy, Debug, PartialEq, Eq)]
pub struct EventStake {
    pub era: u64,
    pub stake_amount: u64,
    pub lsd_token_amount: u64,
}

/// Outcome of a redeem request, for the host to log: how many receipt tokens
/// it must burn and the principal owed to the new withdrawal record.
#[derive(Clone, Copy, Debug, PartialEq, Eq)]
pub struct EventUnstake {
    pub era: u64,
    pub unstake_amount: u64,
    pub sol_amount: u64,
}

impl StakeManager {
    /// Deposits `stake_amount` principal: the depositor (whose spendable
    /// balance is `staker_balance`) receives receipt tokens at the current
    /// rate, and the principal is credited optimistically — it counts as
    /// active and as awaiting this era's bonding before the external
    /// delegation happens. The host transfers the principal into the pool's
    /// custody and mints the returned receipt-token amount atomically with
    /// this accounting update.
    pub fn stake(&mut self, stake_amount: u64, staker_balance: u64) -> (r: Result<
        EventStake,
        Errors,
    >)
        requires
            old(self).wf(),
        ensures
            final(self).wf(),
            ({
                let lsd = lsd_amount_of(stake_amount as int, old(self).rate as int);
                let fail = if stake_amount < old(self).min_stake_amount {
                    Some(Errors::StakeAmountTooLow)
                } else if staker_balance < stake_amount {
                    Some(Errors::BalanceNotEnough)
                } else if lsd > u64::MAX {
                    Some(Errors::CalculationFail)
                } else if old(self).era_bond + stake_amount > u64::MAX || old(self).active
                    + stake_amount > u64::MAX {
                    Some(Errors::CalculationFail)
                } else {
                    None
                };
                match fail {
                    Some(e) => r == Err::<EventStake, Errors>(e) && final(self)@ == old(self)@,
                    None => r == Ok::<EventStake, Errors>(
                        EventStake {
                            era: old(self).latest_era,
                            stake_amount,
                            lsd_token_amount: lsd as u64,
                        },
                    ) && final(self)@ == (StakeManagerView {
                        era_bond: (old(self).era_bond + stake_amount) as u64,
                        active: (old(self).active + stake_amount) as u64,
                        ..old(self)@
                    }),
                }
            }),
    {
        if stake_amount < self.min_stake_amount {
            return Err(Errors::StakeAmountTooLow);
        }
        if staker_balance < stake_amount {
            return Err(Errors::BalanceNotEnough);
        }
        let lsd_token_amount = match self.calc_lsd_token_amount(stake_amount) {
            Ok(v) => v,
            Err(e) => {
                return Err(e);
            },
        };
        let era_bond = match self.era_bond.checked_add(stake_amount) {
            Some(v) => v,
            None => {
                return Err(Errors::CalculationFail);
            },
        };
        let active = match self.active.checked_add(stake_amount) {
            Some(v) => v,
            None => {
                return Err(Errors::CalculationFail);
            },
        };
        self.era_bond = era_bond;
        self.active = active;
        Ok(EventStake { era: self.latest_era, stake_amount, lsd_token_amount })
    }

    /// Redeems `unstake_amount` receipt tokens out of `burn_from`, a holding
    /// the host has read from the external token ledger. The caller must be
    /// the holding's approved delegate with enough allowance, or its owner
    /// with enough balance. The principal owed moves from active into this
    /// era's unbond obligation, and a withdrawal record for the holding's
    /// owner is created, stamped with the current epoch and payable to the
    /// pool at `stake_manager_account` after the unbonding delay. The host
    /// burns the receipt tokens atomically with this accounting update.
    pub fn unstake(
        &mut self,
        stake_manager_account: AccountId,
        unstake_amount: u64,
        burn_from: &TokenAccountInfo,
        authority: AccountId,
        current_epoch: u64,
    ) -> (r: Result<(EventUnstake, UnstakeAccount), Errors>)
        requires
            old(self).wf(),
        ensures
            final(self).wf(),
            ({
                let sol = principal_of(unstake_amount as int, old(self).rate as int);
                let fail = if unstake_amount == 0 {
                    Some(Errors::UnstakeAmountIsZero)
                } else if burn_from.delegate == Some(authority) && burn_from.delegated_amount
                    < unstake_amount {
                    Some(Errors::BalanceNotEnough)
                } else if burn_from.delegate != Some(authority) && authority == burn_from.owner
                    && burn_from.amount < unstake_amount {
                    Some(Errors::BalanceNotEnough)
                } else if burn_from.delegate != Some(authority) && authority != burn_from.owner {
                    Some(Errors::AuthorityNotMatch)
                } else if sol > u64::MAX {
                    Some(Errors::CalculationFail)
                } else if old(self).era_unbond + sol > u64::MAX || old(self).active < sol {
                    Some(Errors::CalculationFail)
                } else {
                    None
                };
                match fail {
                    Some(e) => r == Err::<(EventUnstake, UnstakeAccount), Errors>(e)
                        && final(self)@ == old(self)@,
                    None => r == Ok::<(EventUnstake, UnstakeAccount), Errors>(
                        (
                            EventUnstake {
                                era: old(self).latest_era,
                                unstake_amount,
                                sol_amount: sol as u64,
                            },
                            UnstakeAccount {
                                stake_manager: stake_manager_account,
                                recipient: burn_from.owner,
                                amount: sol as u64,
                                created_epoch: current_epoch,
                            },
                        ),
                    ) && final(self)@ == (StakeManagerView {
                        era_unbond: (old(self).era_unbond + sol) as u64,
                        active: (old(self).active - sol) as u64,
                        ..old(self)@
                    }),
                }
            }),
    {
        if unstake_amount == 0 {
            return Err(Errors::UnstakeAmountIsZero);
        }
        let is_delegate = match burn_from.delegate {
            Some(d) => d == authority,
            None => false,
        };
        if is_delegate {
            if burn_from.delegated_amount < unstake_amount {
                return Err(Errors::BalanceNotEnough);
            }
        } else if authority == burn_from.owner {
            if burn_from.amount < unstake_amount {
                return Err(Errors::BalanceNotEnough);
            }
        } else {
            return Err(Errors::AuthorityNotMatch);
        }
        let sol_amount = match self.calc_sol_amount(unstake_amount) {
            Ok(v) => v,
            Err(e) => {
                return Err(e);
            },
        };
        let era_unbond = match self.era_unbond.checked_add(sol_amount) {
            Some(v) => v,
            None => {
                return Err(Errors::CalculationFail);
            },
        };
        let active = match self.active.checked_sub(sol_amount) {
            Some(v) => v,
            None => {
                return Err(Errors::CalculationFail);
            },
        };
        self.era_unbond = era_unbond;
        self.active = active;
        Ok(
            (
                EventUnstake { era: self.latest_era, unstake_amount, sol_amount },
                UnstakeAccount {
                    stake_manager: stake_manager_account,
                    recipient: burn_from.owner,
                    amount: sol_amount,
                    created_epoch: current_epoch,
                },
            ),
        )
    }

    /// Settles a withdrawal record once its unbonding delay has elapsed,
    /// returning the principal the host must release to the recipient. The
    /// record lives in an owned slot and settling takes it out, so a record
    /// can pay out exactly once: a second call on the same slot finds it
    /// gone and fails, and an early call leaves it untouched.
    pub fn withdraw(&self, unstake_account: &mut Option<UnstakeAccount>, current_epoch: u64) -> (r:
        Result<u64, Errors>)
        ensures
            ({
                match *old(unstake_account) {
                    None => r == Err::<u64, Errors>(Errors::UnstakeRecordNotExist)
                        && *final(unstake_account) == *old(unstake_account),
                    Some(record) => if current_epoch < record.created_epoch
                        + self.unbonding_duration {
                        r == Err::<u64, Errors>(Errors::WithdrawTooEarly)
                            && *final(unstake_account) == *old(unstake_account)
                    } else {
                        r == Ok::<u64, Errors>(record.amount) && *final(unstake_account)
                            == None::<UnstakeAccount>
                    },
                }
            }),
    {
        let record = match *unstake_account {
            Some(record) => record,
            None => {
                return Err(Errors::UnstakeRecordNotExist);
            },
        };
        let payable_epoch = match record.created_epoch.checked_add(self.unbonding_duration) {
            Some(v) => v,
            None => {
                return Err(Errors::WithdrawTooEarly);
            },
        };
        if current_epoch < payable_epoch {
            return Err(Errors::WithdrawTooEarly);
        }
        *unstake_account = None;
        Ok(record.amount)
    }
}

} // verus!
