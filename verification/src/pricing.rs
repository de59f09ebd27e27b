use vstd::prelude::*;

use crate::errors::CurveError;
use vstd::arithmetic::div_mod::{
    lemma_div_is_ordered, lemma_fundamental_div_mod, lemma_fundamental_div_mod_converse,
    lemma_mod_division_less_than_divisor,
};
use vstd::arithmetic::mul::{
    lemma_mul_inequality, lemma_mul_is_distributive_add, lemma_mul_is_distributive_sub,
    lemma_mul_left_inequality,
};

verus! {

/// What pricing a buy of `amount` tokens against reserves
/// `(token_reserve, collateral_reserve)` yields: with
/// `k = token_reserve * collateral_reserve` the buyer pays
/// `collateral_reserve - k / (token_reserve + amount)`, integer division
/// rounding down, so the rounding always favours the curve. A zero amount is
/// rejected, and any step that would leave 64 bits fails rather than wraps.
pub open spec fn cost_result(token_reserve: u64, collateral_reserve: u64, amount: u64) -> Result<
    u64,
    CurveError,
> {
    if amount == 0 {
        Err(CurveError::InvalidAmount)
    } else if token_reserve * collateral_reserve > u64::MAX {
        Err(CurveError::ArithmeticOverflow)
    } else if token_reserve + amount > u64::MAX {
        Err(CurveError::ArithmeticOverflow)
    } else {
        let new_collateral = (token_reserve * collateral_reserve) / (token_reserve + amount);
        if new_collateral > collateral_reserve {
            Err(CurveError::InvalidAmount)
        } else {
            Ok((collateral_reserve - new_collateral) as u64)
        }
    }
}

/// What pricing a sell of `amount` tokens against reserves
/// `(token_reserve, collateral_reserve)` refunds: with
/// `k = token_reserve * collateral_reserve` the seller receives
/// `k / (token_reserve - amount) - collateral_reserve`. Selling the whole
/// token reserve or more is rejected, as is a zero amount; a refund that
/// would come out negative marks the reserves as inconsistent.
pub open spec fn refund_result(token_reserve: u64, collateral_reserve: u64, amount: u64) -> Result<
    u64,
    CurveError,
> {
    if amount == 0 {
        Err(CurveError::InvalidAmount)
    } else if amount >= token_reserve {
        Err(CurveError::InvalidAmount)
    } else if token_reserve * collateral_reserve > u64::MAX {
        Err(CurveError::ArithmeticOverflow)
    } else {
        let new_collateral = (token_reserve * collateral_reserve) / (token_reserve - amount);
        if new_collateral < collateral_reserve {
            Err(CurveError::InvalidState)
        } else {
            Ok((new_collateral - collateral_reserve) as u64)
        }
    }
}

/// Collateral a buyer must pay for `amount` tokens at the given reserves.
pub fn calculate_cost(vtoken_reserve: u64, vsol_reserve: u64, amount: u64) -> (r: Result<
    u64,
    CurveError,
>)
    ensures
        r == cost_result(vtoken_reserve, vsol_reserve, amount),
{
    if amount == 0 {
        return Err(CurveError::InvalidAmount);
    }
    let k = match vtoken_reserve.checked_mul(vsol_reserve) {
        Some(k) => k,
        None => {
            return Err(CurveError::ArithmeticOverflow);
        },
    };
    let new_vtoken_reserve = match vtoken_reserve.checked_add(amount) {
        Some(n) => n,
        None => {
            return Err(CurveError::ArithmeticOverflow);
        },
    };
    let new_vsol_reserve = k / new_vtoken_reserve;
    if new_vsol_reserve > vsol_reserve {
        return Err(CurveError::InvalidAmount);
    }
    Ok(vsol_reserve - new_vsol_reserve)
}

/// Collateral refunded to a seller of `amount` tokens at the given reserves.
pub fn calculate_refund(vtoken_reserve: u64, vsol_reserve: u64, amount: u64) -> (r: Result<
    u64,
    CurveError,
>)
    ensures
        r == refund_result(vtoken_reserve, vsol_reserve, amount),
{
    if amount == 0 {
        return Err(CurveError::InvalidAmount);
    }
    if amount >= vtoken_reserve {
        return Err(CurveError::InvalidAmount);
    }
    let k = match vtoken_reserve.checked_mul(vsol_reserve) {
        Some(k) => k,
        None => {
            return Err(CurveError::ArithmeticOverflow);
        },
    };
    let new_vtoken_reserve = vtoken_reserve - amount;
    let new_vsol_reserve = k / new_vtoken_reserve;
    if new_vsol_reserve < vsol_reserve {
        return Err(CurveError::InvalidState);
    }
    Ok(new_vsol_reserve - vsol_reserve)
}

/// A zero amount is always rejected as invalid, on buys and sells alike,
/// whatever the reserves.
pub proof fn lemma_zero_amount_rejected(token_reserve: u64, collateral_reserve: u64)
    ensures
        cost_result(token_reserve, collateral_reserve, 0) == Err::<u64, CurveError>(
            CurveError::InvalidAmount,
        ),
        refund_result(token_reserve, collateral_reserve, 0) == Err::<u64, CurveError>(
            CurveError::InvalidAmount,
        ),
{
}

/// Selling the whole token reserve or more is always rejected as invalid,
/// whatever the reserves.
pub proof fn lemma_sell_entire_reserve_rejected(
    token_reserve: u64,
    collateral_reserve: u64,
    amount: u64,
)
    requires
        amount >= token_reserve,
    ensures
        refund_result(token_reserve, collateral_reserve, amount) == Err::<u64, CurveError>(
            CurveError::InvalidAmount,
        ),
{
}

/// A reserve product past 64 bits always fails as an overflow, never wraps;
/// only the zero-amount and whole-reserve checks come before it.
pub proof fn lemma_overflowing_product_rejected(
    token_reserve: u64,
    collateral_reserve: u64,
    amount: u64,
)
    requires
        token_reserve * collateral_reserve > u64::MAX,
    ensures
        amount != 0 ==> cost_result(token_reserve, collateral_reserve, amount) == Err::<
            u64,
            CurveError,
        >(CurveError::ArithmeticOverflow),
        0 < amount < token_reserve ==> refund_result(token_reserve, collateral_reserve, amount)
            == Err::<u64, CurveError>(CurveError::ArithmeticOverflow),
{
}

/// The reserve product never shrinks on a buy: whenever pricing succeeds,
/// the product of the updated reserves `(token_reserve + amount,
/// collateral_reserve + cost)` is at least the product before the buy.
pub proof fn lemma_buy_raises_reserve_product(
    token_reserve: u64,
    collateral_reserve: u64,
    amount: u64,
    cost: u64,
)
    requires
        cost_result(token_reserve, collateral_reserve, amount) == Ok::<u64, CurveError>(cost),
    ensures
        token_reserve * collateral_reserve <= (token_reserve + amount) * (collateral_reserve
            + cost),
{
    let t = token_reserve as int;
    let c = collateral_reserve as int;
    let a = amount as int;
    lemma_mul_inequality(t, t + a, c);
    lemma_mul_left_inequality(t + a, c, c + cost);
}

/// The reserve product never grows on a sell: whenever pricing succeeds and
/// the refund fits under the collateral reserve, the product of the updated
/// reserves `(token_reserve - amount, collateral_reserve - refund)` is at
/// most the product before the sell.
pub proof fn lemma_sell_lowers_reserve_product(
    token_reserve: u64,
    collateral_reserve: u64,
    amount: u64,
    refund: u64,
)
    requires
        refund_result(token_reserve, collateral_reserve, amount) == Ok::<u64, CurveError>(refund),
        refund <= collateral_reserve,
    ensures
        (token_reserve - amount) * (collateral_reserve - refund) <= token_reserve
            * collateral_reserve,
{
    let t = token_reserve as int;
    let c = collateral_reserve as int;
    let a = amount as int;
    lemma_mul_left_inequality(t - a, c - refund, c);
    lemma_mul_inequality(t - a, t, c);
}

/// Buying and then selling the same amount never pays out more than it took
/// in. With `cost` the price of buying `amount` at `(token_reserve,
/// collateral_reserve)` and `refund` the proceeds of selling `amount` back
/// at the post-buy reserves, `refund <= cost` — provided the buy is small
/// against the token reserve, exactly: `2 * amount * cost` does not exceed
/// `token_reserve - 1` plus the remainder the buy's division dropped. A
/// large sell against a collateral-heavy curve can otherwise come out ahead.
pub proof fn lemma_sell_after_buy_never_profits(
    token_reserve: u64,
    collateral_reserve: u64,
    amount: u64,
    cost: u64,
    post_token_reserve: u64,
    post_collateral_reserve: u64,
    refund: u64,
)
    requires
        cost_result(token_reserve, collateral_reserve, amount) == Ok::<u64, CurveError>(cost),
        post_token_reserve == token_reserve + amount,
        post_collateral_reserve == collateral_reserve + cost,
        refund_result(post_token_reserve, post_collateral_reserve, amount) == Ok::<
            u64,
            CurveError,
        >(refund),
        2 * amount * cost <= token_reserve - 1 + (token_reserve * collateral_reserve) % (
        token_reserve + amount),
    ensures
        refund <= cost,
{
    let t = token_reserve as int;
    let c = collateral_reserve as int;
    let a = amount as int;
    let k = t * c;
    let nt = t + a;
    let d = k / nt;
    let r = k % nt;

    // The buy succeeded, so its guards all passed.
    assert(a >= 1);
    assert(cost == c - d);

    lemma_fundamental_div_mod(k, nt);
    lemma_mod_division_less_than_divisor(k, nt);
    assert(k == nt * d + r);
    assert(0 <= r < nt);

    // a * c == nt * cost - r.
    assert(nt * c == t * c + a * c) by {
        lemma_mul_is_distributive_add(c, t, a);
        assert(c * (t + a) == c * t + c * a);
    }
    assert(nt * c - nt * d == nt * (c - d)) by {
        lemma_mul_is_distributive_sub(nt, c, d);
    }
    assert(a * c == nt * cost - r);

    // The sell succeeded, so its own guards passed as well.
    let c1 = c + cost;
    assert(a < nt);
    assert(t >= 1);
    let k1 = nt * c1;
    assert(post_token_reserve * post_collateral_reserve == k1);
    let e = k1 / t;
    assert(e >= c1);
    assert(refund == e - c1);

    // k1 == k + 2 * nt * cost - r.
    assert(k1 == nt * c + nt * cost) by {
        lemma_mul_is_distributive_add(nt, c, cost as int);
    }
    assert(k1 == k + 2 * (nt * cost) - r);

    // nt * cost == t * cost + a * cost.
    assert(nt * cost == t * cost + a * cost) by {
        lemma_mul_is_distributive_add(cost as int, t, a);
        assert(cost * (t + a) == cost * t + cost * a);
    }

    // The smallness bound caps k1 by t * (c + 2 * cost + 1) - 1.
    assert(2 * (a * cost) == 2 * amount * cost) by {
        assert((2 * a) * (cost as int) == 2 * (a * (cost as int))) by (nonlinear_arith);
    }
    assert(k1 <= k + 2 * (t * cost) + t - 1 + r - r);
    let m = c + 2 * cost;
    assert(t * (m + 1) == t * m + t) by {
        lemma_mul_is_distributive_add(t, m, 1);
    }
    assert(t * m == t * c + 2 * (t * cost)) by {
        lemma_mul_is_distributive_add(t, c, 2 * cost);
        assert(t * (2 * cost) == 2 * (t * cost)) by {
            assert(t * (2 * cost) == (t * 2) * cost == 2 * (t * cost)) by (nonlinear_arith);
        }
    }
    assert(k1 <= t * m + t - 1);

    // Hence the sell's division cannot reach past m.
    assert((t * m + t - 1) / t == m) by {
        lemma_fundamental_div_mod_converse(t * m + t - 1, t, m, t - 1);
        assert(t * m + t - 1 == m * t + (t - 1)) by {
            assert(t * m == m * t);
        }
    }
    lemma_div_is_ordered(k1, t * m + t - 1, t);
    assert(e <= m);
    assert(refund <= m - c1);
}

} // verus!
