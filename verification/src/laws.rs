use vstd::prelude::*;

use vstd::arithmetic::div_mod::{
    lemma_div_is_ordered, lemma_div_multiples_vanish, lemma_div_plus_one, lemma_div_pos_is_pos,
    lemma_fundamental_div_mod, lemma_mod_bound,
};
use vstd::arithmetic::mul::{
    lemma_mul_inequality, lemma_mul_is_commutative, lemma_mul_nonnegative,
};

use crate::rate::{lsd_amount_of, principal_of};
use crate::states::{EraProcessData, CAL_BASE};

verus! {

/// Minting rounds in the pool's favor: at any positive rate, a larger
/// deposit never mints fewer receipt tokens.
pub proof fn lemma_to_receipt_tokens_monotonic(amount_a: int, amount_b: int, rate: int)
    requires
        0 <= amount_a <= amount_b,
        0 < rate,
    ensures
        lsd_amount_of(amount_a, rate) <= lsd_amount_of(amount_b, rate),
{
    let b = CAL_BASE as int;
    lemma_mul_inequality(amount_a, amount_b, b);
    lemma_div_is_ordered(amount_a * b, amount_b * b, rate);
}

/// Floor rounding never creates value: depositing `amount` and then
/// redeeming every receipt token it minted, at an unchanged rate, is owed at
/// most `amount` of principal.
pub proof fn lemma_round_trip_never_gains(amount: int, rate: int)
    requires
        0 <= amount,
        0 < rate,
    ensures
        0 <= principal_of(lsd_amount_of(amount, rate), rate) <= amount,
{
    let b = CAL_BASE as int;
    let t = lsd_amount_of(amount, rate);
    lemma_mul_nonnegative(amount, b);
    lemma_div_pos_is_pos(amount * b, rate);
    // t * rate <= amount * b, since t is the quotient of amount * b by rate
    lemma_fundamental_div_mod(amount * b, rate);
    lemma_mod_bound(amount * b, rate);
    lemma_mul_is_commutative(rate, t);
    // so the second floor division stays at or below amount
    lemma_mul_nonnegative(t, rate);
    lemma_div_pos_is_pos(t * rate, b);
    lemma_div_is_ordered(t * rate, amount * b, b);
    lemma_mul_is_commutative(amount, b);
    lemma_div_multiples_vanish(amount, b);
}

/// The round-trip shortfall is small: what a deposit loses to the two floor
/// roundings is at most one receipt token's worth of principal and one base
/// unit — `rate / base + 1`.
pub proof fn lemma_round_trip_shortfall(amount: int, rate: int)
    requires
        0 <= amount,
        0 < rate,
    ensures
        amount - principal_of(lsd_amount_of(amount, rate), rate) <= rate / (CAL_BASE as int) + 1,
{
    let b = CAL_BASE as int;
    let t = lsd_amount_of(amount, rate);
    let p = principal_of(t, rate);
    // amount * b == rate * t + m1 with m1 < rate, so t * rate > amount * b - rate
    lemma_fundamental_div_mod(amount * b, rate);
    lemma_mod_bound(amount * b, rate);
    lemma_mul_is_commutative(rate, t);
    // t * rate == b * p + m2 with m2 < b, so b * p > amount * b - rate - b
    lemma_fundamental_div_mod(t * rate, b);
    lemma_mod_bound(t * rate, b);
    // hence b * (amount - p) <= rate + b - 2, and dividing by b bounds the
    // shortfall itself
    assert(b * (amount - p) <= rate + b - 2) by {
        assert(b * (amount - p) == amount * b - b * p) by {
            lemma_mul_is_commutative(amount, b);
            assert(b * (amount - p) == b * amount - b * p) by {
                vstd::arithmetic::mul::lemma_mul_is_distributive_sub(b, amount, p);
            }
        }
    }
    assert(amount - p <= (rate + b - 2) / b) by {
        lemma_div_multiples_vanish(amount - p, b);
        lemma_div_is_ordered(b * (amount - p), rate + b - 2, b);
    }
    assert((rate + b - 2) / b <= rate / b + 1) by {
        lemma_div_plus_one(rate - 2, b);
        lemma_div_is_ordered(rate - 2 + b, rate + b - 2, b);
        lemma_div_is_ordered(rate - 2, rate, b);
        assert(rate - 2 >= -b);
        assert((rate - 2) / b >= -1) by {
            lemma_div_is_ordered(-b, rate - 2, b);
            assert((-b) / b == -1) by {
                lemma_div_multiples_vanish(-1, b);
            }
        }
    }
}

/// Emptiness of the era scratch record is exactly the all-zero state: an
/// empty record holds no obligations and no era snapshots.
pub proof fn lemma_empty_record_all_zero(era_process_data: EraProcessData)
    ensures
        era_process_data.spec_is_empty() <==> {
            &&& era_process_data.need_bond == 0
            &&& era_process_data.need_unbond == 0
            &&& era_process_data.old_active == 0
            &&& era_process_data.new_active == 0
            &&& era_process_data.pending_stake_accounts@.len() == 0
        },
{
}

} // verus!
