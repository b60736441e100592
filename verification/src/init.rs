use vstd::prelude::*;

use crate::errors::Errors;
use crate::states::{
    AccountId, EraProcessData, EraProcessDataView, MintInfo, Stack, StackFeeAccount, StakeManager,
    StakeManagerView, DEFAULT_MIN_STAKE_AMOUNT, DEFAULT_PLATFORM_FEE_COMMISSION,
    DEFAULT_RATE, DEFAULT_RATE_CHANGE_LIMIT, DEFAULT_SPLIT_ACCOUNT_LEN_LIMIT,
    DEFAULT_STACK_FEE_COMMISSION, DEFAULT_STAKE_ACCOUNT_LEN_LIMIT,
    DEFAULT_STAKE_MANAGERS_LEN_LIMIT, DEFAULT_UNBONDING_DURATION,
};

verus! {

/// Creates a fresh umbrella entity owned by `admin`, with the default
/// commission and no entrusted pools yet.
pub fn initialize_stack(admin: AccountId) -> (s: Stack)
    ensures
        s.admin == admin,
        s.stack_fee_commission == DEFAULT_STACK_FEE_COMMISSION,
        s.stake_managers_len_limit == DEFAULT_STAKE_MANAGERS_LEN_LIMIT,
        s.entrusted_stake_managers@ == Seq::<AccountId>::empty(),
        s.wf(),
{
    Stack {
        admin,
        stack_fee_commission: DEFAULT_STACK_FEE_COMMISSION,
        stake_managers_len_limit: DEFAULT_STAKE_MANAGERS_LEN_LIMIT,
        entrusted_stake_managers: Vec::new(),
    }
}

/// Creates a fresh pool ledger under umbrella `stack` (at account
/// `stack_account`), with one initial validator and every limit at its
/// default, plus the umbrella-level fee bucket for the pool. The external
/// receipt-token mint must be virgin and controlled by the pool's custody
/// account `stake_pool`: minting must be the pool's alone, nothing may ever
/// freeze holdings, and no token may exist yet.
pub fn initialize_stake_manager(
    admin: AccountId,
    stack_account: AccountId,
    stack: &Stack,
    lsd_token_mint: AccountId,
    mint: &MintInfo,
    stake_pool: AccountId,
    validator: AccountId,
    current_epoch: u64,
    stack_fee_account_bump: u8,
) -> (r: Result<(StakeManager, StackFeeAccount), Errors>)
    ensures
        ({
            let fail = if mint.mint_authority != Some(stake_pool) {
                Some(Errors::MintAuthorityNotMatch)
            } else if mint.freeze_authority is Some {
                Some(Errors::FreezeAuthorityNotMatch)
            } else if mint.supply != 0 {
                Some(Errors::MintSupplyNotEmpty)
            } else {
                None
            };
            match fail {
                Some(e) => r == Err::<(StakeManager, StackFeeAccount), Errors>(e),
                None => r is Ok && ({
                    let (sm, fee_account) = r->Ok_0;
                    &&& sm.wf()
                    &&& sm@ == (StakeManagerView {
                        admin,
                        balancer: admin,
                        stack: stack_account,
                        lsd_token_mint,
                        min_stake_amount: DEFAULT_MIN_STAKE_AMOUNT,
                        platform_fee_commission: DEFAULT_PLATFORM_FEE_COMMISSION,
                        stack_fee_commission: stack.stack_fee_commission,
                        rate_change_limit: DEFAULT_RATE_CHANGE_LIMIT,
                        stake_accounts_len_limit: DEFAULT_STAKE_ACCOUNT_LEN_LIMIT,
                        split_accounts_len_limit: DEFAULT_SPLIT_ACCOUNT_LEN_LIMIT,
                        unbonding_duration: DEFAULT_UNBONDING_DURATION,
                        latest_era: current_epoch,
                        rate: DEFAULT_RATE,
                        era_bond: 0,
                        era_unbond: 0,
                        active: 0,
                        total_platform_fee: 0,
                        validators: seq![validator],
                        stake_accounts: Seq::empty(),
                        split_accounts: Seq::empty(),
                        era_rates: Seq::empty(),
                        era_process_data: (EraProcessDataView {
                            need_bond: 0,
                            need_unbond: 0,
                            old_active: 0,
                            new_active: 0,
                            pending_stake_accounts: Seq::empty(),
                        }),
                    })
                    &&& fee_account == (StackFeeAccount {
                        bump: stack_fee_account_bump,
                        amount: 0,
                    })
                }),
            }
        }),
{
    match mint.mint_authority {
        Some(authority) => {
            if authority != stake_pool {
                return Err(Errors::MintAuthorityNotMatch);
            }
        },
        None => {
            return Err(Errors::MintAuthorityNotMatch);
        },
    }
    if mint.freeze_authority.is_some() {
        return Err(Errors::FreezeAuthorityNotMatch);
    }
    if mint.supply != 0 {
        return Err(Errors::MintSupplyNotEmpty);
    }
    let mut validators: Vec<AccountId> = Vec::new();
    validators.push(validator);
    proof {
        assert(validators@ =~= seq![validator]);
    }
    let stake_manager = StakeManager {
        admin,
        balancer: admin,
        stack: stack_account,
        lsd_token_mint,
        min_stake_amount: DEFAULT_MIN_STAKE_AMOUNT,
        platform_fee_commission: DEFAULT_PLATFORM_FEE_COMMISSION,
        stack_fee_commission: stack.stack_fee_commission,
        rate_change_limit: DEFAULT_RATE_CHANGE_LIMIT,
        stake_accounts_len_limit: DEFAULT_STAKE_ACCOUNT_LEN_LIMIT,
        split_accounts_len_limit: DEFAULT_SPLIT_ACCOUNT_LEN_LIMIT,
        unbonding_duration: DEFAULT_UNBONDING_DURATION,
        latest_era: current_epoch,
        rate: DEFAULT_RATE,
        era_bond: 0,
        era_unbond: 0,
        active: 0,
        total_platform_fee: 0,
        validators,
        stake_accounts: Vec::new(),
        split_accounts: Vec::new(),
        era_rates: Vec::new(),
        era_process_data: EraProcessData {
            need_bond: 0,
            need_unbond: 0,
            old_active: 0,
            new_active: 0,
            pending_stake_accounts: Vec::new(),
        },
    };
    proof {
        assert(stake_manager@ =~= (StakeManagerView {
            admin,
            balancer: admin,
            stack: stack_account,
            lsd_token_mint,
            min_stake_amount: DEFAULT_MIN_STAKE_AMOUNT,
            platform_fee_commission: DEFAULT_PLATFORM_FEE_COMMISSION,
            stack_fee_commission: stack.stack_fee_commission,
            rate_change_limit: DEFAULT_RATE_CHANGE_LIMIT,
            stake_accounts_len_limit: DEFAULT_STAKE_ACCOUNT_LEN_LIMIT,
            split_accounts_len_limit: DEFAULT_SPLIT_ACCOUNT_LEN_LIMIT,
            unbonding_duration: DEFAULT_UNBONDING_DURATION,
            latest_era: current_epoch,
            rate: DEFAULT_RATE,
            era_bond: 0,
            era_unbond: 0,
            active: 0,
            total_platform_fee: 0,
            validators: seq![validator],
            stake_accounts: Seq::empty(),
            split_accounts: Seq::empty(),
            era_rates: Seq::empty(),
            era_process_data: (EraProcessDataView {
                need_bond: 0,
                need_unbond: 0,
                old_active: 0,
                new_active: 0,
                pending_stake_accounts: Seq::empty(),
            }),
        }));
    }
    Ok((stake_manager, StackFeeAccount { bump: stack_fee_account_bump, amount: 0 }))
}

} // verus!
