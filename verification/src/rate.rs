use vstd::prelude::*;

use vstd::arithmetic::div_mod::{
    lemma_div_is_ordered, lemma_div_multiples_vanish, lemma_div_pos_is_pos,
};
use vstd::arithmetic::mul::{
    lemma_mul_inequality, lemma_mul_is_commutative, lemma_mul_nonnegative,
};

use crate::errors::Errors;
use crate::states::{Stack, StakeManager, CAL_BASE};

verus! {

/// Receipt tokens minted for `principal` at `rate`: `principal * base / rate`,
/// rounded toward zero.
pub open spec fn lsd_amount_of(principal: int, rate: int) -> int
    recommends
        rate > 0,
{
    principal * (CAL_BASE as int) / rate
}

/// Principal owed for `lsd_amount` receipt tokens at `rate`:
/// `lsd_amount * rate / base`, rounded toward zero.
pub open spec fn principal_of(lsd_amount: int, rate: int) -> int {
    lsd_amount * rate / (CAL_BASE as int)
}

/// Platform fee skimmed from `reward`. The divisor is the current rate, not
/// the base: the fee deliberately scales inversely with the rate.
pub open spec fn platform_fee_of(reward: int, fee_commission: int, rate: int) -> int
    recommends
        rate > 0,
{
    reward * fee_commission / rate
}

/// Umbrella commission skimmed from the raw platform fee.
pub open spec fn stack_fee_of(platform_fee_raw: int, stack_fee_commission: int) -> int {
    platform_fee_raw * stack_fee_commission / (CAL_BASE as int)
}

/// The exchange rate implied by `principal` active against `lsd_supply`
/// receipt tokens, defaulting to 1:1 while either side is still zero.
pub open spec fn rate_of(principal: int, lsd_supply: int) -> int {
    if principal == 0 || lsd_supply == 0 {
        CAL_BASE as int
    } else {
        principal * (CAL_BASE as int) / lsd_supply
    }
}

/// Relative move from `old_rate` to `new_rate` in the same fixed-point base,
/// independent of direction.
pub open spec fn rate_change_of(old_rate: int, new_rate: int) -> int {
    if old_rate == 0 {
        0
    } else {
        (if old_rate > new_rate {
            old_rate - new_rate
        } else {
            new_rate - old_rate
        }) * (CAL_BASE as int) / old_rate
    }
}

/// The umbrella's skim is a proper share: it is non-negative and never
/// exceeds the raw platform fee it is taken from.
pub proof fn lemma_stack_fee_le_raw(platform_fee_raw: int, stack_fee_commission: int)
    requires
        0 <= platform_fee_raw,
        0 <= stack_fee_commission <= CAL_BASE as int,
    ensures
        0 <= stack_fee_of(platform_fee_raw, stack_fee_commission) <= platform_fee_raw,
{
    let b = CAL_BASE as int;
    lemma_mul_nonnegative(platform_fee_raw, stack_fee_commission);
    lemma_div_pos_is_pos(platform_fee_raw * stack_fee_commission, b);
    lemma_mul_inequality(stack_fee_commission, b, platform_fee_raw);
    lemma_mul_is_commutative(platform_fee_raw, stack_fee_commission);
    lemma_mul_is_commutative(b, platform_fee_raw);
    lemma_div_is_ordered(platform_fee_raw * stack_fee_commission, b * platform_fee_raw, b);
    lemma_div_multiples_vanish(platform_fee_raw, b);
}

impl StakeManager {
    /// Receipt tokens to mint for a deposit of `sol_amount` principal;
    /// refused only if the result does not fit in 64 bits.
    pub fn calc_lsd_token_amount(&self, sol_amount: u64) -> (r: Result<u64, Errors>)
        requires
            self.wf(),
        ensures
            ({
                let q = lsd_amount_of(sol_amount as int, self.rate as int);
                r == if q <= u64::MAX {
                    Ok::<u64, Errors>(q as u64)
                } else {
                    Err::<u64, Errors>(Errors::CalculationFail)
                }
            }),
    {
        let prod: u128 = (sol_amount as u128) * (CAL_BASE as u128);
        let q: u128 = prod / (self.rate as u128);
        if q > (u64::MAX as u128) {
            Err(Errors::CalculationFail)
        } else {
            Ok(q as u64)
        }
    }

    /// Principal owed when burning `lsd_token_amount` receipt tokens;
    /// refused only if the result does not fit in 64 bits.
    pub fn calc_sol_amount(&self, lsd_token_amount: u64) -> (r: Result<u64, Errors>)
        requires
            self.wf(),
        ensures
            ({
                let q = principal_of(lsd_token_amount as int, self.rate as int);
                r == if q <= u64::MAX {
                    Ok::<u64, Errors>(q as u64)
                } else {
                    Err::<u64, Errors>(Errors::CalculationFail)
                }
            }),
    {
        proof {
            assert((lsd_token_amount as int) * (self.rate as int) <= (u64::MAX as int) * (
            u64::MAX as int)) by (nonlinear_arith)
                requires
                    lsd_token_amount <= u64::MAX,
                    self.rate <= u64::MAX,
            ;
        }
        let prod: u128 = (lsd_token_amount as u128) * (self.rate as u128);
        let q: u128 = prod / (CAL_BASE as u128);
        if q > (u64::MAX as u128) {
            Err(Errors::CalculationFail)
        } else {
            Ok(q as u64)
        }
    }

    /// Raw platform fee owed on `reward_sol` of era reward; refused only if
    /// the result does not fit in 64 bits.
    pub fn calc_platform_fee(&self, reward_sol: u64) -> (r: Result<u64, Errors>)
        requires
            self.wf(),
        ensures
            ({
                let q = platform_fee_of(
                    reward_sol as int,
                    self.platform_fee_commission as int,
                    self.rate as int,
                );
                r == if q <= u64::MAX {
                    Ok::<u64, Errors>(q as u64)
                } else {
                    Err::<u64, Errors>(Errors::CalculationFail)
                }
            }),
    {
        proof {
            assert((reward_sol as int) * (self.platform_fee_commission as int) <= (u64::MAX as int)
                * (u64::MAX as int)) by (nonlinear_arith)
                requires
                    reward_sol <= u64::MAX,
                    self.platform_fee_commission <= u64::MAX,
            ;
        }
        let prod: u128 = (reward_sol as u128) * (self.platform_fee_commission as u128);
        let q: u128 = prod / (self.rate as u128);
        if q > (u64::MAX as u128) {
            Err(Errors::CalculationFail)
        } else {
            Ok(q as u64)
        }
    }

    /// The rate implied by `sol_amount` active principal against
    /// `lsd_token_amount` receipt tokens in circulation; 1:1 while either is
    /// zero; refused only if the result does not fit in 64 bits.
    pub fn calc_rate(&self, sol_amount: u64, lsd_token_amount: u64) -> (r: Result<u64, Errors>)
        ensures
            ({
                let q = rate_of(sol_amount as int, lsd_token_amount as int);
                r == if q <= u64::MAX {
                    Ok::<u64, Errors>(q as u64)
                } else {
                    Err::<u64, Errors>(Errors::CalculationFail)
                }
            }),
    {
        if sol_amount == 0 || lsd_token_amount == 0 {
            return Ok(CAL_BASE);
        }
        proof {
            assert((sol_amount as int) * (CAL_BASE as int) <= (u64::MAX as int) * (u64::MAX
                as int)) by (nonlinear_arith)
                requires
                    sol_amount <= u64::MAX,
                    CAL_BASE <= u64::MAX,
            ;
        }
        let prod: u128 = (sol_amount as u128) * (CAL_BASE as u128);
        let q: u128 = prod / (lsd_token_amount as u128);
        if q > (u64::MAX as u128) {
            Err(Errors::CalculationFail)
        } else {
            Ok(q as u64)
        }
    }

    /// Relative change between two rates, in the fixed-point base; refused
    /// only if the result does not fit in 64 bits.
    pub fn calc_rate_change(&self, old_rate: u64, new_rate: u64) -> (r: Result<u64, Errors>)
        ensures
            ({
                let q = rate_change_of(old_rate as int, new_rate as int);
                r == if q <= u64::MAX {
                    Ok::<u64, Errors>(q as u64)
                } else {
                    Err::<u64, Errors>(Errors::CalculationFail)
                }
            }),
    {
        if old_rate == 0 {
            return Ok(0);
        }
        let diff: u64 = if old_rate > new_rate {
            old_rate - new_rate
        } else {
            new_rate - old_rate
        };
        proof {
            assert((diff as int) * (CAL_BASE as int) <= (u64::MAX as int) * (u64::MAX as int))
                by (nonlinear_arith)
                requires
                    diff <= u64::MAX,
                    CAL_BASE <= u64::MAX,
            ;
        }
        let prod: u128 = (diff as u128) * (CAL_BASE as u128);
        let q: u128 = prod / (old_rate as u128);
        if q > (u64::MAX as u128) {
            Err(Errors::CalculationFail)
        } else {
            Ok(q as u64)
        }
    }
}

impl Stack {
    /// The umbrella's share of a raw platform fee.
    pub fn calc_stack_fee(&self, platform_fee_raw: u64) -> (r: Result<u64, Errors>)
        ensures
            ({
                let q = stack_fee_of(platform_fee_raw as int, self.stack_fee_commission as int);
                r == if q <= u64::MAX {
                    Ok::<u64, Errors>(q as u64)
                } else {
                    Err::<u64, Errors>(Errors::CalculationFail)
                }
            }),
    {
        proof {
            assert((platform_fee_raw as int) * (self.stack_fee_commission as int) <= (u64::MAX
                as int) * (u64::MAX as int)) by (nonlinear_arith)
                requires
                    platform_fee_raw <= u64::MAX,
                    self.stack_fee_commission <= u64::MAX,
            ;
        }
        let prod: u128 = (platform_fee_raw as u128) * (self.stack_fee_commission as u128);
        let q: u128 = prod / (CAL_BASE as u128);
        if q > (u64::MAX as u128) {
            Err(Errors::CalculationFail)
        } else {
            Ok(q as u64)
        }
    }
}

} // verus!
