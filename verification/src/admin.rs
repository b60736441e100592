use vstd::prelude::*;

use crate::errors::Errors;
use crate::states::{
    contains_id, remove_id_all, without_id, AccountId, Stack, StakeManager, StakeManagerView,
    CAL_BASE,
};

verus! {

impl Stack {
    /// Hands the umbrella to a new admin. The host checks that the caller
    /// is the current admin before applying this.
    pub fn transfer_stack_admin(&mut self, new_admin: AccountId)
        ensures
            *final(self) == (Stack { admin: new_admin, ..*old(self) }),
    {
        self.admin = new_admin;
    }

    /// Sets the umbrella's share of future platform fees. The share is a
    /// fraction: at most the whole fee.
    pub fn set_stack_fee_commission(&mut self, stack_fee_commission: u64)
        requires
            stack_fee_commission <= CAL_BASE,
        ensures
            *final(self) == (Stack { stack_fee_commission, ..*old(self) }),
            final(self).wf(),
    {
        self.stack_fee_commission = stack_fee_commission;
    }

    /// Entrusts a pool to this umbrella; a pool can be entrusted only once.
    pub fn add_entrusted_stake_manager(&mut self, stake_manager: AccountId) -> (r: Result<
        (),
        Errors,
    >)
        ensures
            old(self).entrusted_stake_managers@.contains(stake_manager) ==> r == Err::<(), Errors>(
                Errors::StakeManagerAlreadyExist,
            ) && *final(self) == *old(self),
            !old(self).entrusted_stake_managers@.contains(stake_manager) ==> {
                &&& r == Ok::<(), Errors>(())
                &&& final(self).entrusted_stake_managers@
                    == old(self).entrusted_stake_managers@.push(stake_manager)
                &&& final(self).admin == old(self).admin
                &&& final(self).stack_fee_commission == old(self).stack_fee_commission
                &&& final(self).stake_managers_len_limit == old(self).stake_managers_len_limit
            },
    {
        if contains_id(&self.entrusted_stake_managers, stake_manager) {
            return Err(Errors::StakeManagerAlreadyExist);
        }
        self.entrusted_stake_managers.push(stake_manager);
        Ok(())
    }

    /// Removes an entrusted pool: every entry naming it goes.
    pub fn remove_entrusted_stake_manager(&mut self, stake_manager: AccountId) -> (r: Result<
        (),
        Errors,
    >)
        ensures
            !old(self).entrusted_stake_managers@.contains(stake_manager) ==> r == Err::<(), Errors>(
                Errors::ValidatorNotExist,
            ) && *final(self) == *old(self),
            old(self).entrusted_stake_managers@.contains(stake_manager) ==> {
                &&& r == Ok::<(), Errors>(())
                &&& final(self).entrusted_stake_managers@
                    == without_id(old(self).entrusted_stake_managers@, stake_manager)
                &&& final(self).admin == old(self).admin
                &&& final(self).stack_fee_commission == old(self).stack_fee_commission
                &&& final(self).stake_managers_len_limit == old(self).stake_managers_len_limit
            },
    {
        if !contains_id(&self.entrusted_stake_managers, stake_manager) {
            return Err(Errors::ValidatorNotExist);
        }
        remove_id_all(&mut self.entrusted_stake_managers, stake_manager);
        Ok(())
    }
}

impl StakeManager {
    /// Hands the pool to a new admin. The host checks the caller.
    pub fn transfer_stake_manager_admin(&mut self, new_admin: AccountId)
        requires
            old(self).wf(),
        ensures
            final(self).wf(),
            final(self)@ == (StakeManagerView { admin: new_admin, ..old(self)@ }),
    {
        self.admin = new_admin;
    }

    /// Hands the rebalancing authority to a new balancer.
    pub fn transfer_balancer(&mut self, new_balancer: AccountId)
        requires
            old(self).wf(),
        ensures
            final(self).wf(),
            final(self)@ == (StakeManagerView { balancer: new_balancer, ..old(self)@ }),
    {
        self.balancer = new_balancer;
    }

    /// Sets the smallest accepted deposit.
    pub fn set_min_stake_amount(&mut self, amount: u64)
        requires
            old(self).wf(),
        ensures
            final(self).wf(),
            final(self)@ == (StakeManagerView { min_stake_amount: amount, ..old(self)@ }),
    {
        self.min_stake_amount = amount;
    }

    /// Sets the delay, in eras, between a redeem request and its payout.
    pub fn set_unbonding_duration(&mut self, duration: u64)
        requires
            old(self).wf(),
        ensures
            final(self).wf(),
            final(self)@ == (StakeManagerView { unbonding_duration: duration, ..old(self)@ }),
    {
        self.unbonding_duration = duration;
    }

    /// Sets the ceiling on the relative rate move per era. The ceiling is a
    /// proper fraction of the base: a whole-base move would mean the rate
    /// could be wiped out in one era.
    pub fn set_rate_change_limit(&mut self, rate_change_limit: u64)
        requires
            old(self).wf(),
            rate_change_limit < CAL_BASE,
        ensures
            final(self).wf(),
            final(self)@ == (StakeManagerView { rate_change_limit, ..old(self)@ }),
    {
        self.rate_change_limit = rate_change_limit;
    }

    /// Sets the platform's commission on era rewards.
    pub fn set_platform_fee_commission(&mut self, platform_fee_commission: u64)
        requires
            old(self).wf(),
        ensures
            final(self).wf(),
            final(self)@ == (StakeManagerView { platform_fee_commission, ..old(self)@ }),
    {
        self.platform_fee_commission = platform_fee_commission;
    }

    /// Records the umbrella commission configured for this pool.
    pub fn set_platform_stack_fee_commission(&mut self, stack_fee_commission: u64)
        requires
            old(self).wf(),
        ensures
            final(self).wf(),
            final(self)@ == (StakeManagerView { stack_fee_commission, ..old(self)@ }),
    {
        self.stack_fee_commission = stack_fee_commission;
    }

    /// Adds a validator the pool may delegate to; each only once.
    pub fn add_validator(&mut self, new_validator: AccountId) -> (r: Result<(), Errors>)
        requires
            old(self).wf(),
        ensures
            final(self).wf(),
            old(self).validators@.contains(new_validator) ==> r == Err::<(), Errors>(
                Errors::ValidatorAlreadyExist,
            ) && final(self)@ == old(self)@,
            !old(self).validators@.contains(new_validator) ==> r == Ok::<(), Errors>(())
                && final(self)@ == (StakeManagerView {
                validators: old(self).validators@.push(new_validator),
                ..old(self)@
            }),
    {
        if contains_id(&self.validators, new_validator) {
            return Err(Errors::ValidatorAlreadyExist);
        }
        self.validators.push(new_validator);
        Ok(())
    }

    /// Removes a validator from the pool's set: every entry naming it goes.
    pub fn remove_validator(&mut self, remove_validator: AccountId) -> (r: Result<(), Errors>)
        requires
            old(self).wf(),
        ensures
            final(self).wf(),
            !old(self).validators@.contains(remove_validator) ==> r == Err::<(), Errors>(
                Errors::ValidatorNotExist,
            ) && final(self)@ == old(self)@,
            old(self).validators@.contains(remove_validator) ==> r == Ok::<(), Errors>(())
                && final(self)@ == (StakeManagerView {
                validators: without_id(old(self).validators@, remove_validator),
                ..old(self)@
            }),
    {
        if !contains_id(&self.validators, remove_validator) {
            return Err(Errors::ValidatorNotExist);
        }
        remove_id_all(&mut self.validators, remove_validator);
        Ok(())
    }
}

} // verus!
