use lsd_pool::errors::Errors;
use lsd_pool::init::{initialize_stack, initialize_stake_manager};
use lsd_pool::states::{MintInfo, StackFeeAccount};

fn virgin_mint() -> MintInfo {
    MintInfo { mint_authority: Some(3), freeze_authority: None, supply: 0 }
}

#[test]
fn new_stack_has_defaults() {
    let stack = initialize_stack(1);
    assert_eq!(stack.admin, 1);
    assert_eq!(stack.stack_fee_commission, 100_000_000);
    assert_eq!(stack.stake_managers_len_limit, 20);
    assert!(stack.entrusted_stake_managers.is_empty());
}

#[test]
fn new_pool_has_defaults() {
    let stack = initialize_stack(1);
    let (sm, fee_account) =
        initialize_stake_manager(1, 2, &stack, 4, &virgin_mint(), 3, 5, 100, 7).unwrap();
    assert_eq!(sm.admin, 1);
    assert_eq!(sm.balancer, 1);
    assert_eq!(sm.stack, 2);
    assert_eq!(sm.lsd_token_mint, 4);
    assert_eq!(sm.rate, 1_000_000_000);
    assert_eq!(sm.min_stake_amount, 1_000_000);
    assert_eq!(sm.platform_fee_commission, 100_000_000);
    assert_eq!(sm.stack_fee_commission, stack.stack_fee_commission);
    assert_eq!(sm.rate_change_limit, 500_000);
    assert_eq!(sm.stake_accounts_len_limit, 100);
    assert_eq!(sm.split_accounts_len_limit, 20);
    assert_eq!(sm.unbonding_duration, 2);
    assert_eq!(sm.latest_era, 100);
    assert_eq!(sm.active, 0);
    assert_eq!(sm.era_bond, 0);
    assert_eq!(sm.era_unbond, 0);
    assert_eq!(sm.total_platform_fee, 0);
    assert_eq!(sm.validators, vec![5]);
    assert!(sm.stake_accounts.is_empty());
    assert!(sm.split_accounts.is_empty());
    assert!(sm.era_rates.is_empty());
    assert!(sm.era_process_data.is_empty());
    assert_eq!(fee_account, StackFeeAccount { bump: 7, amount: 0 });
}

#[test]
fn new_pool_demands_a_virgin_mint() {
    let stack = initialize_stack(1);
    let mut mint = virgin_mint();
    mint.mint_authority = Some(9);
    assert_eq!(
        initialize_stake_manager(1, 2, &stack, 4, &mint, 3, 5, 100, 7).unwrap_err(),
        Errors::MintAuthorityNotMatch
    );
    mint.mint_authority = None;
    assert_eq!(
        initialize_stake_manager(1, 2, &stack, 4, &mint, 3, 5, 100, 7).unwrap_err(),
        Errors::MintAuthorityNotMatch
    );
    let mut mint = virgin_mint();
    mint.freeze_authority = Some(3);
    assert_eq!(
        initialize_stake_manager(1, 2, &stack, 4, &mint, 3, 5, 100, 7).unwrap_err(),
        Errors::FreezeAuthorityNotMatch
    );
    let mut mint = virgin_mint();
    mint.supply = 1;
    assert_eq!(
        initialize_stake_manager(1, 2, &stack, 4, &mint, 3, 5, 100, 7).unwrap_err(),
        Errors::MintSupplyNotEmpty
    );
}

#[test]
fn stack_admin_operations() {
    let mut stack = initialize_stack(1);
    stack.transfer_stack_admin(11);
    assert_eq!(stack.admin, 11);
    stack.set_stack_fee_commission(250_000_000);
    assert_eq!(stack.stack_fee_commission, 250_000_000);
}

#[test]
fn entrusted_pools_are_a_set() {
    let mut stack = initialize_stack(1);
    assert_eq!(stack.add_entrusted_stake_manager(21), Ok(()));
    assert_eq!(stack.add_entrusted_stake_manager(22), Ok(()));
    assert_eq!(stack.add_entrusted_stake_manager(21), Err(Errors::StakeManagerAlreadyExist));
    assert_eq!(stack.entrusted_stake_managers, vec![21, 22]);
    assert_eq!(stack.remove_entrusted_stake_manager(21), Ok(()));
    assert_eq!(stack.entrusted_stake_managers, vec![22]);
    assert_eq!(stack.remove_entrusted_stake_manager(21), Err(Errors::ValidatorNotExist));
}

#[test]
fn removal_drops_every_occurrence() {
    let mut stack = initialize_stack(1);
    stack.entrusted_stake_managers = vec![21, 22, 21];
    assert_eq!(stack.remove_entrusted_stake_manager(21), Ok(()));
    assert_eq!(stack.entrusted_stake_managers, vec![22]);
}

#[test]
fn pool_admin_operations() {
    let stack = initialize_stack(1);
    let (mut sm, _) =
        initialize_stake_manager(1, 2, &stack, 4, &virgin_mint(), 3, 5, 100, 7).unwrap();
    sm.transfer_stake_manager_admin(11);
    assert_eq!(sm.admin, 11);
    sm.transfer_balancer(12);
    assert_eq!(sm.balancer, 12);
    sm.set_min_stake_amount(5);
    assert_eq!(sm.min_stake_amount, 5);
    sm.set_unbonding_duration(9);
    assert_eq!(sm.unbonding_duration, 9);
    sm.set_rate_change_limit(123);
    assert_eq!(sm.rate_change_limit, 123);
    sm.set_platform_fee_commission(77);
    assert_eq!(sm.platform_fee_commission, 77);
    sm.set_platform_stack_fee_commission(88);
    assert_eq!(sm.stack_fee_commission, 88);
}

#[test]
fn errors_name_themselves() {
    assert_eq!(Errors::CalculationFail.as_str(), "CalculationFail");
    assert_eq!(Errors::RateChangeOverLimit.as_str(), "RateChangeOverLimit");
    assert_eq!(Errors::WithdrawTooEarly.as_str(), "WithdrawTooEarly");
}

#[test]
fn validators_are_a_set() {
    let stack = initialize_stack(1);
    let (mut sm, _) =
        initialize_stake_manager(1, 2, &stack, 4, &virgin_mint(), 3, 5, 100, 7).unwrap();
    assert_eq!(sm.add_validator(6), Ok(()));
    assert_eq!(sm.add_validator(5), Err(Errors::ValidatorAlreadyExist));
    assert_eq!(sm.validators, vec![5, 6]);
    assert_eq!(sm.remove_validator(5), Ok(()));
    assert_eq!(sm.validators, vec![6]);
    assert_eq!(sm.remove_validator(5), Err(Errors::ValidatorNotExist));
}
