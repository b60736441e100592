use lsd_pool::era::{EventEraSkipBond, EventEraUpdateRate};
use lsd_pool::errors::Errors;
use lsd_pool::init::{initialize_stack, initialize_stake_manager};
use lsd_pool::staker::EventStake;
use lsd_pool::states::{EraProcessData, MintInfo, StackFeeAccount, StakeManager, Stack};

fn pool() -> StakeManager {
    StakeManager {
        admin: 1,
        balancer: 1,
        stack: 2,
        lsd_token_mint: 4,
        min_stake_amount: 1_000_000,
        platform_fee_commission: 100_000_000,
        stack_fee_commission: 100_000_000,
        rate_change_limit: 500_000,
        stake_accounts_len_limit: 100,
        split_accounts_len_limit: 20,
        unbonding_duration: 2,
        latest_era: 100,
        rate: 1_000_000_000,
        era_bond: 0,
        era_unbond: 0,
        active: 0,
        total_platform_fee: 0,
        validators: vec![5],
        stake_accounts: vec![],
        split_accounts: vec![],
        era_rates: vec![],
        era_process_data: EraProcessData {
            need_bond: 0,
            need_unbond: 0,
            old_active: 0,
            new_active: 0,
            pending_stake_accounts: vec![],
        },
    }
}

fn umbrella() -> Stack {
    Stack {
        admin: 1,
        stack_fee_commission: 100_000_000,
        stake_managers_len_limit: 20,
        entrusted_stake_managers: vec![],
    }
}

#[test]
fn era_new_carries_totals_and_snapshots() {
    let mut sm = pool();
    sm.era_bond = 10_000_000;
    sm.era_unbond = 3;
    sm.active = 10_000_000;
    assert_eq!(sm.era_new(101), Ok(()));
    assert_eq!(sm.latest_era, 101);
    assert_eq!(sm.era_bond, 0);
    assert_eq!(sm.era_unbond, 0);
    assert_eq!(sm.era_process_data.need_bond, 10_000_000);
    assert_eq!(sm.era_process_data.need_unbond, 3);
    assert_eq!(sm.era_process_data.old_active, 10_000_000);
    assert_eq!(sm.era_process_data.new_active, 0);
}

#[test]
fn era_new_refused_while_record_not_empty() {
    let mut sm = pool();
    sm.era_process_data.old_active = 1;
    let before = sm.clone();
    assert!(!sm.era_process_data.is_empty());
    assert_eq!(sm.era_new(101), Err(Errors::EraAlreadyStarted));
    assert_eq!(sm, before);
}

#[test]
fn era_new_refused_before_epoch_elapses() {
    let mut sm = pool();
    let before = sm.clone();
    assert_eq!(sm.era_new(100), Err(Errors::EraIntervalNotReached));
    assert_eq!(sm, before);
}

#[test]
fn empty_record_means_zero_snapshots() {
    let sm = pool();
    assert!(sm.era_process_data.is_empty());
    assert_eq!(sm.era_process_data.old_active, 0);
    assert_eq!(sm.era_process_data.new_active, 0);
    let mut non_empty = sm.era_process_data.clone();
    non_empty.new_active = 7;
    assert!(!non_empty.is_empty());
}

#[test]
fn skip_bond_takes_dust_without_delegating() {
    let mut sm = pool();
    sm.era_process_data.need_bond = 500;
    // a direct bond in the same state must fail: everything awaiting
    // delegation is below the external minimum
    let mut direct = sm.clone();
    assert_eq!(direct.era_bond(5, 500, 1000, 50), Err(Errors::DelegationBelowMinimum));
    assert_eq!(direct, sm);

    assert_eq!(
        sm.era_skip_bond(1000),
        Ok(EventEraSkipBond { era: 100, skip_bond_amount: 500 })
    );
    assert_eq!(sm.era_bond, 500);
    assert_eq!(sm.era_process_data.new_active, 500);
    assert_eq!(sm.era_process_data.need_bond, 0);
}

#[test]
fn skip_bond_refused_without_dust() {
    let mut sm = pool();
    assert_eq!(sm.era_skip_bond(1000), Err(Errors::EraNoNeedSkipBond));
    sm.era_process_data.need_bond = 1000;
    // at or above the minimum a real bond is possible, so no skipping
    assert_eq!(sm.era_skip_bond(1000), Err(Errors::EraNoNeedSkipBond));
}

#[test]
fn skip_bond_overflow_fails() {
    let mut sm = pool();
    sm.era_bond = u64::MAX;
    sm.era_process_data.need_bond = 500;
    let before = sm.clone();
    assert_eq!(sm.era_skip_bond(1000), Err(Errors::CalculationFail));
    assert_eq!(sm, before);
}

#[test]
fn bond_moves_obligation_into_pending_account() {
    let mut sm = pool();
    sm.era_process_data.need_bond = 10_000_000;
    assert_eq!(sm.era_bond(5, 4_000_000, 1000, 50), Ok(()));
    assert_eq!(sm.era_process_data.need_bond, 6_000_000);
    assert_eq!(sm.era_process_data.new_active, 4_000_000);
    assert_eq!(sm.era_process_data.pending_stake_accounts, vec![50]);
}

#[test]
fn bond_guards() {
    let mut sm = pool();
    assert_eq!(sm.era_bond(5, 1, 1, 50), Err(Errors::EraNoNeedBond));
    sm.era_process_data.need_bond = 1000;
    assert_eq!(sm.era_bond(99, 1000, 1, 50), Err(Errors::ValidatorNotExist));
    assert_eq!(sm.era_bond(5, 0, 0, 50), Err(Errors::AmountUnmatch));
    assert_eq!(sm.era_bond(5, 1001, 1, 50), Err(Errors::AmountUnmatch));
    sm.stake_accounts_len_limit = 0;
    assert_eq!(sm.era_bond(5, 1000, 1, 50), Err(Errors::StakeAccountLenOverLimit));
    sm.stake_accounts_len_limit = 100;
    sm.era_process_data.new_active = u64::MAX;
    assert_eq!(sm.era_bond(5, 1000, 1, 50), Err(Errors::CalculationFail));
}

#[test]
fn unbond_deactivates_whole_account_when_it_fits() {
    let mut sm = pool();
    sm.stake_accounts = vec![50];
    sm.era_process_data.need_unbond = 1000;
    assert_eq!(sm.era_unbond(50, 700, 60), Ok(700));
    assert_eq!(sm.stake_accounts, Vec::<u64>::new());
    assert_eq!(sm.split_accounts, vec![50]);
    assert_eq!(sm.era_process_data.need_unbond, 300);
}

#[test]
fn unbond_splits_when_account_is_larger() {
    let mut sm = pool();
    sm.stake_accounts = vec![50];
    sm.era_process_data.need_unbond = 1000;
    assert_eq!(sm.era_unbond(50, 5000, 60), Ok(1000));
    assert_eq!(sm.stake_accounts, vec![50]);
    assert_eq!(sm.split_accounts, vec![60]);
    assert_eq!(sm.era_process_data.need_unbond, 0);
}

#[test]
fn unbond_guards() {
    let mut sm = pool();
    assert_eq!(sm.era_unbond(50, 1, 60), Err(Errors::EraNoNeedUnbond));
    sm.era_process_data.need_unbond = 1000;
    assert_eq!(sm.era_unbond(50, 1, 60), Err(Errors::StakeAccountNotExist));
    sm.stake_accounts = vec![50];
    sm.split_accounts_len_limit = 0;
    assert_eq!(sm.era_unbond(50, 1, 60), Err(Errors::SplitAccountLenOverLimit));
}

#[test]
fn unbond_refuses_an_empty_account() {
    let mut sm = pool();
    sm.stake_accounts = vec![50];
    sm.era_process_data.need_unbond = 1000;
    let before = sm.clone();
    // an account with nothing delegated would make no progress
    assert_eq!(sm.era_unbond(50, 0, 60), Err(Errors::AmountUnmatch));
    assert_eq!(sm, before);
}

#[test]
fn merge_drops_every_entry_of_the_source() {
    let mut sm = pool();
    // a stake-account id tracked twice disappears entirely
    sm.stake_accounts = vec![50, 60, 50];
    assert_eq!(sm.era_merge(50, 60), Ok(()));
    assert_eq!(sm.stake_accounts, vec![60]);
}

#[test]
fn update_active_folds_pending_and_measures_yield() {
    let mut sm = pool();
    sm.stake_accounts = vec![40];
    sm.era_process_data.old_active = 10_000_000;
    sm.era_process_data.new_active = 4_000_000;
    sm.era_process_data.pending_stake_accounts = vec![50, 60];
    assert_eq!(sm.era_update_active(6_001_000), Ok(()));
    assert_eq!(sm.era_process_data.new_active, 10_001_000);
    assert_eq!(sm.stake_accounts, vec![40, 50, 60]);
    assert_eq!(sm.era_process_data.pending_stake_accounts, Vec::<u64>::new());
}

#[test]
fn update_active_guards() {
    let mut sm = pool();
    sm.era_process_data.need_bond = 5;
    sm.era_process_data.need_unbond = 5;
    let before = sm.clone();
    assert_eq!(sm.era_update_active(1), Err(Errors::EraNoNeedUpdateActive));
    assert_eq!(sm, before);
    sm.era_process_data.need_bond = 0;
    sm.era_process_data.new_active = u64::MAX;
    assert_eq!(sm.era_update_active(1), Err(Errors::CalculationFail));
}

#[test]
fn update_rate_completes_era_with_reward_and_fees() {
    let mut sm = pool();
    sm.latest_era = 101;
    sm.active = 10_000_000;
    sm.stake_accounts = vec![50];
    sm.era_process_data.old_active = 10_000_000;
    sm.era_process_data.new_active = 10_005_000;
    let stack = umbrella();
    let mut fee_account = StackFeeAccount { bump: 7, amount: 0 };
    assert_eq!(
        sm.era_update_rate(&stack, &mut fee_account, 10_000_000),
        Ok(EventEraUpdateRate {
            era: 101,
            rate: 1_000_500_000,
            platform_fee: 450,
            stack_fee: 50,
        })
    );
    assert_eq!(sm.rate, 1_000_500_000);
    assert_eq!(sm.active, 10_005_000);
    assert_eq!(sm.total_platform_fee, 450);
    assert_eq!(fee_account.amount, 50);
    assert!(sm.era_process_data.is_empty());
    // the pipeline is re-enabled: a new era can start
    assert_eq!(sm.era_new(102), Ok(()));
}

#[test]
fn update_rate_clamps_oversized_move() {
    let mut sm = pool();
    sm.active = 10_000_000;
    sm.era_process_data.old_active = 10_000_000;
    // one more unit of yield than the ceiling allows
    sm.era_process_data.new_active = 10_005_001;
    let stack = umbrella();
    let mut fee_account = StackFeeAccount { bump: 7, amount: 0 };
    let before = sm.clone();
    assert_eq!(
        sm.era_update_rate(&stack, &mut fee_account, 10_000_000),
        Err(Errors::RateChangeOverLimit)
    );
    assert_eq!(sm, before);
    assert_eq!(sm.rate, 1_000_000_000);
    assert_eq!(fee_account.amount, 0);
}

#[test]
fn update_rate_refused_before_settlement() {
    let mut sm = pool();
    assert_eq!(
        sm.era_update_rate(&umbrella(), &mut StackFeeAccount { bump: 7, amount: 0 }, 0),
        Err(Errors::EraNoNeedUpdateRate)
    );
    sm.era_process_data.need_bond = 1;
    sm.era_process_data.old_active = 1;
    sm.era_process_data.new_active = 1;
    assert_eq!(
        sm.era_update_rate(&umbrella(), &mut StackFeeAccount { bump: 7, amount: 0 }, 0),
        Err(Errors::EraNoNeedUpdateRate)
    );
}

#[test]
fn merge_consolidates_tracked_accounts() {
    let mut sm = pool();
    sm.stake_accounts = vec![50, 60];
    assert_eq!(sm.era_merge(50, 60), Ok(()));
    assert_eq!(sm.stake_accounts, vec![60]);
    // merging an account into itself is a no-op, not a failure
    assert_eq!(sm.era_merge(60, 60), Ok(()));
    assert_eq!(sm.stake_accounts, vec![60]);
    assert_eq!(sm.era_merge(50, 60), Err(Errors::StakeAccountNotExist));
}

#[test]
fn era_withdraw_reclaims_split_account() {
    let mut sm = pool();
    sm.split_accounts = vec![60];
    assert_eq!(sm.era_withdraw(60), Ok(()));
    assert_eq!(sm.split_accounts, Vec::<u64>::new());
    assert_eq!(sm.era_withdraw(60), Err(Errors::SplitAccountNotExist));
}

#[test]
fn full_era_cycle_from_first_deposit() {
    let stack = initialize_stack(1);
    let mint = MintInfo { mint_authority: Some(3), freeze_authority: None, supply: 0 };
    let (mut sm, mut fee_account) =
        initialize_stake_manager(1, 2, &stack, 4, &mint, 3, 5, 100, 7).unwrap();
    // bootstrap deposit at the identity rate
    assert_eq!(
        sm.stake(10_000_000, 20_000_000),
        Ok(EventStake { era: 100, stake_amount: 10_000_000, lsd_token_amount: 10_000_000 })
    );
    assert_eq!(sm.active, 10_000_000);
    assert_eq!(sm.era_bond, 10_000_000);
    // the keeper drives one era
    assert_eq!(sm.era_new(101), Ok(()));
    assert_eq!(sm.era_bond(5, 10_000_000, 1000, 50), Ok(()));
    assert_eq!(sm.era_update_active(0), Ok(()));
    let event = sm.era_update_rate(&stack, &mut fee_account, 10_000_000).unwrap();
    assert_eq!(
        event,
        EventEraUpdateRate { era: 101, rate: 1_000_000_000, platform_fee: 0, stack_fee: 0 }
    );
    assert_eq!(sm.active, 10_000_000);
    assert_eq!(sm.stake_accounts, vec![50]);
    assert!(sm.era_process_data.is_empty());
    assert_eq!(sm.era_new(102), Ok(()));
}
