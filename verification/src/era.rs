use vstd::prelude::*;

use vstd::arithmetic::div_mod::lemma_div_multiples_vanish;

use crate::errors::Errors;
use crate::rate::{
    lemma_stack_fee_le_raw, platform_fee_of, rate_change_of, rate_of, stack_fee_of,
};
use crate::states::{
    contains_id, remove_id_all, without_id, AccountId, EraProcessDataView, Stack, StackFeeAccount,
    StakeManager, StakeManagerView, CAL_BASE,
};

verus! {

/// Outcome of the skip-bond escape hatch, for the host to log.
#[derive(Clone, Copy, Debug, PartialEq, Eq)]
pub struct EventEraSkipBond {
    pub era: u64,
    pub skip_bond_amount: u64,
}

/// Outcome of a completed rate update: the committed rate and the receipt
/// tokens the host must mint to the platform and umbrella fee recipients.
#[derive(Clone, Copy, Debug, PartialEq, Eq)]
pub struct EventEraUpdateRate {
    pub era: u64,
    pub rate: u64,
    pub platform_fee: u64,
    pub stack_fee: u64,
}

impl StakeManager {
    /// Starts a new era: advances the era counter to the current epoch,
    /// snapshots the active principal, and carries the outstanding bond and
    /// unbond totals into the scratch record. Refused while the previous
    /// era's obligations remain or before a new epoch has begun.
    pub fn era_new(&mut self, current_epoch: u64) -> (r: Result<(), Errors>)
        requires
            old(self).wf(),
        ensures
            final(self).wf(),
            !old(self).era_process_data.spec_is_empty() ==> r == Err::<(), Errors>(
                Errors::EraAlreadyStarted,
            ) && final(self)@ == old(self)@,
            old(self).era_process_data.spec_is_empty() && current_epoch <= old(self).latest_era
                ==> r == Err::<(), Errors>(Errors::EraIntervalNotReached) && final(self)@ == old(
                self,
            )@,
            old(self).era_process_data.spec_is_empty() && current_epoch > old(self).latest_era
                ==> r == Ok::<(), Errors>(()) && final(self)@ == (StakeManagerView {
                latest_era: current_epoch,
                era_bond: 0,
                era_unbond: 0,
                era_process_data: (EraProcessDataView {
                    need_bond: old(self).era_bond,
                    need_unbond: old(self).era_unbond,
                    old_active: old(self).active,
                    new_active: 0,
                    pending_stake_accounts: old(self)@.era_process_data.pending_stake_accounts,
                }),
                ..old(self)@
            }),
    {
        if !self.era_process_data.is_empty() {
            return Err(Errors::EraAlreadyStarted);
        }
        if current_epoch <= self.latest_era {
            return Err(Errors::EraIntervalNotReached);
        }
        self.latest_era = current_epoch;
        self.era_process_data.need_bond = self.era_bond;
        self.era_process_data.need_unbond = self.era_unbond;
        self.era_process_data.old_active = self.active;
        self.era_process_data.new_active = 0;
        self.era_bond = 0;
        self.era_unbond = 0;
        Ok(())
    }

    /// Bonds `bond_amount` of the principal awaiting delegation: the caller
    /// delegates that much to `validator`, which creates
    /// `new_stake_account`; the ledger moves the amount from the scratch
    /// record's bond obligation into the era's active snapshot and tracks
    /// the new account as pending until the update-active phase folds it in.
    pub fn era_bond(
        &mut self,
        validator: AccountId,
        bond_amount: u64,
        minimum_delegation: u64,
        new_stake_account: AccountId,
    ) -> (r: Result<(), Errors>)
        requires
            old(self).wf(),
        ensures
            final(self).wf(),
            ({
                let epd = old(self)@.era_process_data;
                let fail = if !old(self).era_process_data.spec_need_bond() {
                    Some(Errors::EraNoNeedBond)
                } else if !old(self).validators@.contains(validator) {
                    Some(Errors::ValidatorNotExist)
                } else if bond_amount == 0 || bond_amount > epd.need_bond {
                    Some(Errors::AmountUnmatch)
                } else if bond_amount < minimum_delegation {
                    Some(Errors::DelegationBelowMinimum)
                } else if old(self).stake_accounts@.len() + epd.pending_stake_accounts.len()
                    >= old(self).stake_accounts_len_limit {
                    Some(Errors::StakeAccountLenOverLimit)
                } else if epd.new_active + bond_amount > u64::MAX {
                    Some(Errors::CalculationFail)
                } else {
                    None
                };
                match fail {
                    Some(e) => r == Err::<(), Errors>(e) && final(self)@ == old(self)@,
                    None => r == Ok::<(), Errors>(()) && final(self)@ == (StakeManagerView {
                        era_process_data: (EraProcessDataView {
                            need_bond: (epd.need_bond - bond_amount) as u64,
                            new_active: (epd.new_active + bond_amount) as u64,
                            pending_stake_accounts: epd.pending_stake_accounts.push(
                                new_stake_account,
                            ),
                            ..epd
                        }),
                        ..old(self)@
                    }),
                }
            }),
    {
        if !self.era_process_data.need_bond() {
            return Err(Errors::EraNoNeedBond);
        }
        if !contains_id(&self.validators, validator) {
            return Err(Errors::ValidatorNotExist);
        }
        if bond_amount == 0 || bond_amount > self.era_process_data.need_bond {
            return Err(Errors::AmountUnmatch);
        }
        if bond_amount < minimum_delegation {
            return Err(Errors::DelegationBelowMinimum);
        }
        let tracked_len: u64 = self.stake_accounts.len() as u64;
        let pending_len: u64 = self.era_process_data.pending_stake_accounts.len() as u64;
        if tracked_len >= self.stake_accounts_len_limit || pending_len
            >= self.stake_accounts_len_limit - tracked_len {
            return Err(Errors::StakeAccountLenOverLimit);
        }
        let new_active = match self.era_process_data.new_active.checked_add(bond_amount) {
            Some(v) => v,
            None => {
                return Err(Errors::CalculationFail);
            },
        };
        self.era_process_data.need_bond = self.era_process_data.need_bond - bond_amount;
        self.era_process_data.new_active = new_active;
        self.era_process_data.pending_stake_accounts.push(new_stake_account);
        Ok(())
    }

    /// The escape hatch for dust: when everything still awaiting delegation
    /// is below the external minimum delegable amount, treat it as bonded —
    /// it returns to the ledger's bond total for the next era and counts as
    /// active — without issuing a delegation that would be refused.
    pub fn era_skip_bond(&mut self, minimum_delegation: u64) -> (r: Result<
        EventEraSkipBond,
        Errors,
    >)
        requires
            old(self).wf(),
        ensures
            final(self).wf(),
            ({
                let epd = old(self)@.era_process_data;
                let fail = if !old(self).era_process_data.spec_need_skip_bond(minimum_delegation) {
                    Some(Errors::EraNoNeedSkipBond)
                } else if old(self).era_bond + epd.need_bond > u64::MAX || epd.new_active
                    + epd.need_bond > u64::MAX {
                    Some(Errors::CalculationFail)
                } else {
                    None
                };
                match fail {
                    Some(e) => r == Err::<EventEraSkipBond, Errors>(e) && final(self)@ == old(
                        self,
                    )@,
                    None => r == Ok::<EventEraSkipBond, Errors>(
                        EventEraSkipBond {
                            era: old(self).latest_era,
                            skip_bond_amount: epd.need_bond,
                        },
                    ) && final(self)@ == (StakeManagerView {
                        era_bond: (old(self).era_bond + epd.need_bond) as u64,
                        era_process_data: (EraProcessDataView {
                            need_bond: 0,
                            new_active: (epd.new_active + epd.need_bond) as u64,
                            ..epd
                        }),
                        ..old(self)@
                    }),
                }
            }),
    {
        if !self.era_process_data.need_skip_bond(minimum_delegation) {
            return Err(Errors::EraNoNeedSkipBond);
        }
        let need_bond = self.era_process_data.need_bond;
        let era_bond = match self.era_bond.checked_add(need_bond) {
            Some(v) => v,
            None => {
                return Err(Errors::CalculationFail);
            },
        };
        let new_active = match self.era_process_data.new_active.checked_add(need_bond) {
            Some(v) => v,
            None => {
                return Err(Errors::CalculationFail);
            },
        };
        self.era_bond = era_bond;
        self.era_process_data.new_active = new_active;
        self.era_process_data.need_bond = 0;
        Ok(EventEraSkipBond { era: self.latest_era, skip_bond_amount: need_bond })
    }

    /// Unbonds against one tracked stake account, returning the positive
    /// principal the caller must undelegate. If the account's whole
    /// delegation is needed, the account itself is deactivated: it leaves
    /// the tracked set and joins the split accounts awaiting reclaim.
    /// Otherwise the caller splits off exactly the remaining obligation
    /// into `split_account`, which joins the split accounts, and the
    /// obligation is settled. An account with nothing delegated makes no
    /// progress and is refused.
    pub fn era_unbond(
        &mut self,
        stake_account: AccountId,
        account_delegated: u64,
        split_account: AccountId,
    ) -> (r: Result<u64, Errors>)
        requires
            old(self).wf(),
        ensures
            final(self).wf(),
            ({
                let epd = old(self)@.era_process_data;
                let fail = if !old(self).era_process_data.spec_need_unbond() {
                    Some(Errors::EraNoNeedUnbond)
                } else if !old(self).stake_accounts@.contains(stake_account) {
                    Some(Errors::StakeAccountNotExist)
                } else if account_delegated == 0 {
                    Some(Errors::AmountUnmatch)
                } else if old(self).split_accounts@.len() >= old(self).split_accounts_len_limit {
                    Some(Errors::SplitAccountLenOverLimit)
                } else {
                    None
                };
                match fail {
                    Some(e) => r == Err::<u64, Errors>(e) && final(self)@ == old(self)@,
                    None => if account_delegated <= epd.need_unbond {
                        r == Ok::<u64, Errors>(account_delegated) && final(self)@ == (
                        StakeManagerView {
                            stake_accounts: without_id(old(self).stake_accounts@, stake_account),
                            split_accounts: old(self).split_accounts@.push(stake_account),
                            era_process_data: (EraProcessDataView {
                                need_unbond: (epd.need_unbond - account_delegated) as u64,
                                ..epd
                            }),
                            ..old(self)@
                        })
                    } else {
                        r == Ok::<u64, Errors>(epd.need_unbond) && final(self)@ == (
                        StakeManagerView {
                            split_accounts: old(self).split_accounts@.push(split_account),
                            era_process_data: (EraProcessDataView { need_unbond: 0, ..epd }),
                            ..old(self)@
                        })
                    },
                }
            }),
    {
        if !self.era_process_data.need_unbond() {
            return Err(Errors::EraNoNeedUnbond);
        }
        if !contains_id(&self.stake_accounts, stake_account) {
            return Err(Errors::StakeAccountNotExist);
        }
        if account_delegated == 0 {
            return Err(Errors::AmountUnmatch);
        }
        let split_len: u64 = self.split_accounts.len() as u64;
        if split_len >= self.split_accounts_len_limit {
            return Err(Errors::SplitAccountLenOverLimit);
        }
        if account_delegated <= self.era_process_data.need_unbond {
            remove_id_all(&mut self.stake_accounts, stake_account);
            self.split_accounts.push(stake_account);
            self.era_process_data.need_unbond = self.era_process_data.need_unbond
                - account_delegated;
            Ok(account_delegated)
        } else {
            let unbond_amount = self.era_process_data.need_unbond;
            self.split_accounts.push(split_account);
            self.era_process_data.need_unbond = 0;
            Ok(unbond_amount)
        }
    }

    /// Folds the stake accounts created while bonding into the tracked set
    /// and adds the externally measured delegated balance of the
    /// pre-existing tracked accounts — yield included — to the era's active
    /// snapshot. (What was delegated this era was already counted when it
    /// was bonded.)
    pub fn era_update_active(&mut self, reported_active: u64) -> (r: Result<(), Errors>)
        requires
            old(self).wf(),
        ensures
            final(self).wf(),
            ({
                let epd = old(self)@.era_process_data;
                let fail = if !old(self).era_process_data.spec_need_update_active() {
                    Some(Errors::EraNoNeedUpdateActive)
                } else if epd.new_active + reported_active > u64::MAX {
                    Some(Errors::CalculationFail)
                } else {
                    None
                };
                match fail {
                    Some(e) => r == Err::<(), Errors>(e) && final(self)@ == old(self)@,
                    None => r == Ok::<(), Errors>(()) && final(self)@ == (StakeManagerView {
                        stake_accounts: old(self).stake_accounts@ + epd.pending_stake_accounts,
                        era_process_data: (EraProcessDataView {
                            new_active: (epd.new_active + reported_active) as u64,
                            pending_stake_accounts: Seq::empty(),
                            ..epd
                        }),
                        ..old(self)@
                    }),
                }
            }),
    {
        if !self.era_process_data.need_update_active() {
            return Err(Errors::EraNoNeedUpdateActive);
        }
        let new_active = match self.era_process_data.new_active.checked_add(reported_active) {
            Some(v) => v,
            None => {
                return Err(Errors::CalculationFail);
            },
        };
        self.era_process_data.new_active = new_active;
        self.stake_accounts.append(&mut self.era_process_data.pending_stake_accounts);
        Ok(())
    }

    /// Completes the era: computes the reward earned since the era-start
    /// snapshot, skims the platform fee (and the umbrella's share of it, to
    /// be minted in receipt tokens by the host), reconciles the active
    /// principal, and commits the new exchange rate — refusing the whole
    /// transition if the relative rate move would exceed the configured
    /// ceiling. On success the scratch record returns to empty, re-enabling
    /// the next era. `lsd_token_supply` is the receipt-token supply as read
    /// before the fee mints.
    pub fn era_update_rate(
        &mut self,
        stack: &Stack,
        stack_fee_account: &mut StackFeeAccount,
        lsd_token_supply: u64,
    ) -> (r: Result<EventEraUpdateRate, Errors>)
        requires
            old(self).wf(),
            stack.wf(),
        ensures
            final(self).wf(),
            ({
                let epd = old(self)@.era_process_data;
                let reward: int = if epd.new_active > epd.old_active {
                    epd.new_active - epd.old_active
                } else {
                    0
                };
                let fee_raw = platform_fee_of(
                    reward,
                    old(self).platform_fee_commission as int,
                    old(self).rate as int,
                );
                let stack_fee = stack_fee_of(fee_raw, stack.stack_fee_commission as int);
                let platform_fee = fee_raw - stack_fee;
                let cal_temp = old(self).active + epd.new_active;
                let new_active: int = if cal_temp > epd.old_active {
                    cal_temp - epd.old_active
                } else {
                    0
                };
                let new_rate = rate_of(new_active, lsd_token_supply as int);
                let change = rate_change_of(old(self).rate as int, new_rate);
                let fail = if !old(self).era_process_data.spec_need_update_rate() {
                    Some(Errors::EraNoNeedUpdateRate)
                } else if fee_raw > u64::MAX {
                    Some(Errors::CalculationFail)
                } else if old(self).total_platform_fee + platform_fee > u64::MAX {
                    Some(Errors::CalculationFail)
                } else if old(stack_fee_account).amount + stack_fee > u64::MAX {
                    Some(Errors::CalculationFail)
                } else if cal_temp > u64::MAX {
                    Some(Errors::CalculationFail)
                } else if new_rate > u64::MAX {
                    Some(Errors::CalculationFail)
                } else if change > u64::MAX {
                    Some(Errors::CalculationFail)
                } else if change > old(self).rate_change_limit {
                    Some(Errors::RateChangeOverLimit)
                } else {
                    None
                };
                match fail {
                    Some(e) => r == Err::<EventEraUpdateRate, Errors>(e) && final(self)@ == old(
                        self,
                    )@ && *final(stack_fee_account) == *old(stack_fee_account),
                    None => r == Ok::<EventEraUpdateRate, Errors>(
                        EventEraUpdateRate {
                            era: old(self).latest_era,
                            rate: new_rate as u64,
                            platform_fee: platform_fee as u64,
                            stack_fee: stack_fee as u64,
                        },
                    ) && final(self)@ == (StakeManagerView {
                        active: new_active as u64,
                        rate: new_rate as u64,
                        total_platform_fee: (old(self).total_platform_fee + platform_fee) as u64,
                        era_process_data: (EraProcessDataView {
                            old_active: 0,
                            new_active: 0,
                            ..epd
                        }),
                        ..old(self)@
                    }) && *final(stack_fee_account) == (StackFeeAccount {
                        amount: (old(stack_fee_account).amount + stack_fee) as u64,
                        ..*old(stack_fee_account)
                    }),
                }
            }),
    {
        if !self.era_process_data.need_update_rate() {
            return Err(Errors::EraNoNeedUpdateRate);
        }
        let reward: u64 = if self.era_process_data.new_active > self.era_process_data.old_active {
            self.era_process_data.new_active - self.era_process_data.old_active
        } else {
            0
        };
        let platform_fee_raw = match self.calc_platform_fee(reward) {
            Ok(v) => v,
            Err(e) => {
                return Err(e);
            },
        };
        proof {
            lemma_stack_fee_le_raw(platform_fee_raw as int, stack.stack_fee_commission as int);
        }
        let stack_fee = match stack.calc_stack_fee(platform_fee_raw) {
            Ok(v) => v,
            Err(e) => {
                return Err(e);
            },
        };
        let platform_fee = platform_fee_raw - stack_fee;
        let total_platform_fee = match self.total_platform_fee.checked_add(platform_fee) {
            Some(v) => v,
            None => {
                return Err(Errors::CalculationFail);
            },
        };
        let stack_fee_amount = match stack_fee_account.amount.checked_add(stack_fee) {
            Some(v) => v,
            None => {
                return Err(Errors::CalculationFail);
            },
        };
        let cal_temp = match self.active.checked_add(self.era_process_data.new_active) {
            Some(v) => v,
            None => {
                return Err(Errors::CalculationFail);
            },
        };
        let new_active: u64 = if cal_temp > self.era_process_data.old_active {
            cal_temp - self.era_process_data.old_active
        } else {
            0
        };
        let new_rate = match self.calc_rate(new_active, lsd_token_supply) {
            Ok(v) => v,
            Err(e) => {
                return Err(e);
            },
        };
        let rate_change = match self.calc_rate_change(self.rate, new_rate) {
            Ok(v) => v,
            Err(e) => {
                return Err(e);
            },
        };
        if rate_change > self.rate_change_limit {
            return Err(Errors::RateChangeOverLimit);
        }
        proof {
            // A rate clamped to a proper fraction of the base cannot have
            // dropped to zero: that would be a change of the whole base.
            if new_rate == 0 {
                lemma_div_multiples_vanish(CAL_BASE as int, self.rate as int);
                assert(rate_change_of(self.rate as int, 0) == CAL_BASE as int);
            }
            assert(new_rate > 0);
        }
        self.era_process_data.old_active = 0;
        self.era_process_data.new_active = 0;
        self.active = new_active;
        self.rate = new_rate;
        self.total_platform_fee = total_platform_fee;
        stack_fee_account.amount = stack_fee_amount;
        Ok(
            EventEraUpdateRate {
                era: self.latest_era,
                rate: new_rate,
                platform_fee,
                stack_fee,
            },
        )
    }

    /// Consolidates two tracked stake accounts: the caller merges
    /// `from_account` into `to_account` externally and the ledger stops
    /// tracking the source. Merging an account into itself is a no-op, not
    /// a failure.
    pub fn era_merge(&mut self, from_account: AccountId, to_account: AccountId) -> (r: Result<
        (),
        Errors,
    >)
        requires
            old(self).wf(),
        ensures
            final(self).wf(),
            !(old(self).stake_accounts@.contains(from_account)
                && old(self).stake_accounts@.contains(to_account)) ==> r == Err::<(), Errors>(
                Errors::StakeAccountNotExist,
            ) && final(self)@ == old(self)@,
            old(self).stake_accounts@.contains(from_account) && old(
                self,
            ).stake_accounts@.contains(to_account) && from_account == to_account ==> r == Ok::<
                (),
                Errors,
            >(()) && final(self)@ == old(self)@,
            old(self).stake_accounts@.contains(from_account) && old(
                self,
            ).stake_accounts@.contains(to_account) && from_account != to_account ==> r == Ok::<
                (),
                Errors,
            >(()) && final(self)@ == (StakeManagerView {
                stake_accounts: without_id(old(self).stake_accounts@, from_account),
                ..old(self)@
            }),
    {
        if !contains_id(&self.stake_accounts, from_account) || !contains_id(
            &self.stake_accounts,
            to_account,
        ) {
            return Err(Errors::StakeAccountNotExist);
        }
        if from_account == to_account {
            return Ok(());
        }
        remove_id_all(&mut self.stake_accounts, from_account);
        Ok(())
    }

    /// Reclaims one split account whose undelegated principal has become
    /// spendable: the caller withdraws it into the pool's custody and the
    /// ledger stops tracking the account.
    pub fn era_withdraw(&mut self, split_account: AccountId) -> (r: Result<(), Errors>)
        requires
            old(self).wf(),
        ensures
            final(self).wf(),
            !old(self).split_accounts@.contains(split_account) ==> r == Err::<(), Errors>(
                Errors::SplitAccountNotExist,
            ) && final(self)@ == old(self)@,
            old(self).split_accounts@.contains(split_account) ==> r == Ok::<(), Errors>(())
                && final(self)@ == (StakeManagerView {
                split_accounts: without_id(old(self).split_accounts@, split_account),
                ..old(self)@
            }),
    {
        if !contains_id(&self.split_accounts, split_account) {
            return Err(Errors::SplitAccountNotExist);
        }
        remove_id_all(&mut self.split_accounts, split_account);
        Ok(())
    }
}

} // verus!
