//! The pair's pure quoting arithmetic: proportional quotes for deposits and
//! the constant-product swap formulas with a 0.3% trading fee, together with
//! the laws they obey (rounding always favors the pool, and the reserve
//! product never decreases across a quoted swap).
use vstd::prelude::*;

use crate::amount::{
    pow128, pow256, u128_widening_mul, u256_checked_add, u256_checked_mul, u256_div, Amount,
};
use crate::error::Error;
use vstd::arithmetic::div_mod::{
    lemma_div_is_ordered, lemma_div_multiples_vanish, lemma_div_pos_is_pos,
    lemma_fundamental_div_mod, lemma_mod_division_less_than_divisor,
};

verus! {

/// The floor of the square root of `n` (zero for negative `n`).
pub open spec fn sqrt_floor(n: int) -> int
    decreases n,
{
    if n <= 0 {
        0
    } else {
        let r = sqrt_floor(n - 1);
        if (r + 1) * (r + 1) <= n {
            r + 1
        } else {
            r
        }
    }
}

pub proof fn lemma_sqrt_floor(n: int)
    requires
        n >= 0,
    ensures
        sqrt_floor(n) >= 0,
        sqrt_floor(n) * sqrt_floor(n) <= n,
        (sqrt_floor(n) + 1) * (sqrt_floor(n) + 1) > n,
    decreases n,
{
    if n == 0 {
    } else {
        lemma_sqrt_floor(n - 1);
        let r = sqrt_floor(n - 1);
        if (r + 1) * (r + 1) <= n {
            assert(sqrt_floor(n) == r + 1);
            assert((r + 2) * (r + 2) > n) by (nonlinear_arith)
                requires
                    (r + 1) * (r + 1) > n - 1,
                    r >= 0,
            ;
        } else {
            assert(sqrt_floor(n) == r);
        }
    }
}

/// Two floors of the same square root coincide.
pub proof fn lemma_sqrt_unique(n: int, r: int)
    requires
        n >= 0,
        r >= 0,
        r * r <= n,
        (r + 1) * (r + 1) > n,
    ensures
        r == sqrt_floor(n),
{
    lemma_sqrt_floor(n);
    let s = sqrt_floor(n);
    if r < s {
        assert((r + 1) * (r + 1) <= s * s) by (nonlinear_arith)
            requires
                0 <= r,
                r + 1 <= s,
        ;
    }
    if s < r {
        assert((s + 1) * (s + 1) <= r * r) by (nonlinear_arith)
            requires
                0 <= s,
                s + 1 <= r,
        ;
    }
}

/// `amount_b = amount_a * reserve_b / reserve_a`; an amount error when
/// `reserve_a` is zero, an overflow error when the quote does not fit.
pub open spec fn spec_quote(amount_a: int, reserve_a: int, reserve_b: int) -> Result<u128, Error> {
    if reserve_a == 0 {
        Err(Error::InsufficientAmount)
    } else if amount_a * reserve_b / reserve_a > u128::MAX {
        Err(Error::Overflow)
    } else {
        Ok((amount_a * reserve_b / reserve_a) as u128)
    }
}

/// Proportionally quotes the matching amount for a deposit of `amount_a`
/// against reserves `(reserve_a, reserve_b)`.
pub fn quote(amount_a: u128, reserve: (u128, u128)) -> (r: Result<u128, Error>)
    ensures
        r == spec_quote(amount_a as int, reserve.0 as int, reserve.1 as int),
{
    if reserve.0 == 0 {
        return Err(Error::InsufficientAmount);
    }
    let p = u128_widening_mul(amount_a, reserve.1);
    let q = u256_div(p, Amount::from_u128(reserve.0));
    if q.fits_u128() {
        Ok(q.to_u128())
    } else {
        Err(Error::Overflow)
    }
}

/// The same proportional quote with the reserve pair handed over already
/// swapped; the caller guarantees the dividing reserve is nonzero.
pub fn quote_reserve_unchecked(amount_b: u128, reserve: (u128, u128)) -> (r: Result<u128, Error>)
    requires
        reserve.0 != 0,
    ensures
        r == spec_quote(amount_b as int, reserve.0 as int, reserve.1 as int),
{
    let p = u128_widening_mul(amount_b, reserve.1);
    let q = u256_div(p, Amount::from_u128(reserve.0));
    if q.fits_u128() {
        Ok(q.to_u128())
    } else {
        Err(Error::Overflow)
    }
}

/// The fee-bearing denominator of the exact-in formula.
pub open spec fn out_denom(amount_in: int, reserve_in: int) -> int {
    1000 * reserve_in + 997 * amount_in
}

/// Output of an exact-in swap: `997 * in * reserve_out` over
/// `1000 * reserve_in + 997 * in`, floored.
pub open spec fn out_formula(amount_in: int, reserve_in: int, reserve_out: int) -> int {
    997 * amount_in * reserve_out / out_denom(amount_in, reserve_in)
}

pub open spec fn spec_calculate_out_amount(
    amount_in: int,
    reserve_in: int,
    reserve_out: int,
) -> Result<u128, Error> {
    if reserve_in == 0 || reserve_out == 0 {
        Err(Error::InsufficientLiquidity)
    } else if 997 * amount_in * reserve_out >= pow256() {
        Err(Error::Overflow)
    } else {
        Ok(out_formula(amount_in, reserve_in, reserve_out) as u128)
    }
}

/// The exact-in output never exceeds the output reserve.
pub proof fn lemma_out_formula_bounds(amount_in: int, reserve_in: int, reserve_out: int)
    requires
        amount_in >= 0,
        reserve_in >= 1,
        reserve_out >= 0,
    ensures
        0 <= out_formula(amount_in, reserve_in, reserve_out) <= reserve_out,
{
    let d = out_denom(amount_in, reserve_in);
    let num = 997 * amount_in * reserve_out;
    assert(num >= 0 && d >= 1000 && num <= d * reserve_out) by (nonlinear_arith)
        requires
            num == 997 * amount_in * reserve_out,
            d == 1000 * reserve_in + 997 * amount_in,
            amount_in >= 0,
            reserve_in >= 1,
            reserve_out >= 0,
    ;
    lemma_div_pos_is_pos(num, d);
    lemma_div_is_ordered(num, d * reserve_out, d);
    lemma_div_multiples_vanish(reserve_out, d);
}

/// Quotes the output amount of an exact-in swap against the hop's
/// reserves, applying the 0.3% fee to the input before the
/// constant-product division.
pub fn calculate_out_amount(amount_in: u128, reserve: (u128, u128)) -> (r: Result<u128, Error>)
    ensures
        r == spec_calculate_out_amount(amount_in as int, reserve.0 as int, reserve.1 as int),
{
    if reserve.0 == 0 || reserve.1 == 0 {
        return Err(Error::InsufficientLiquidity);
    }
    let in_fee = u128_widening_mul(amount_in, 997);
    let num = match u256_checked_mul(in_fee, Amount::from_u128(reserve.1)) {
        Some(n) => n,
        None => {
            return Err(Error::Overflow);
        },
    };
    let base = u128_widening_mul(reserve.0, 1000);
    let denom = match u256_checked_add(base, in_fee) {
        Some(d) => d,
        None => {
            proof {
                assert(reserve.0 * 1000 + amount_in * 997 < pow256()) by (nonlinear_arith)
                    requires
                        0 <= reserve.0 <= u128::MAX,
                        0 <= amount_in <= u128::MAX,
                        pow256() == 0x10000000000000000000000000000000000000000000000000000000000000000int,
                ;
            }
            return Err(Error::Overflow);
        },
    };
    let q = u256_div(num, denom);
    proof {
        lemma_out_formula_bounds(amount_in as int, reserve.0 as int, reserve.1 as int);
        assert(q@ == out_formula(amount_in as int, reserve.0 as int, reserve.1 as int));
    }
    Ok(q.to_u128())
}

/// Input of an exact-out swap: `1000 * reserve_in * out` over
/// `997 * (reserve_out - out)`, floored, plus one — rounding up so the
/// invariant is preserved or improved.
pub open spec fn in_formula(amount_out: int, reserve_in: int, reserve_out: int) -> int {
    1000 * reserve_in * amount_out / (997 * (reserve_out - amount_out)) + 1
}

pub open spec fn spec_calculate_in_amount(
    amount_out: int,
    reserve_in: int,
    reserve_out: int,
) -> Result<u128, Error> {
    if reserve_in == 0 || reserve_out == 0 {
        Err(Error::InsufficientLiquidity)
    } else if amount_out >= reserve_out {
        Err(Error::InsufficientLiquidity)
    } else if 1000 * reserve_in * amount_out >= pow256() {
        Err(Error::Overflow)
    } else if in_formula(amount_out, reserve_in, reserve_out) > u128::MAX {
        Err(Error::Overflow)
    } else {
        Ok(in_formula(amount_out, reserve_in, reserve_out) as u128)
    }
}

/// Quotes the input amount an exact-out swap must provide, rounding up;
/// fails when the requested output reaches the output reserve.
pub fn calculate_in_amount(amount_out: u128, reserve: (u128, u128)) -> (r: Result<u128, Error>)
    ensures
        r == spec_calculate_in_amount(amount_out as int, reserve.0 as int, reserve.1 as int),
{
    if reserve.0 == 0 || reserve.1 == 0 {
        return Err(Error::InsufficientLiquidity);
    }
    if amount_out >= reserve.1 {
        return Err(Error::InsufficientLiquidity);
    }
    let base = u128_widening_mul(reserve.0, amount_out);
    let num = match u256_checked_mul(base, Amount::from_u128(1000)) {
        Some(n) => n,
        None => {
            proof {
                assert(reserve.0 * amount_out * 1000 == 1000 * reserve.0 * amount_out)
                    by (nonlinear_arith);
            }
            return Err(Error::Overflow);
        },
    };
    let denom = u128_widening_mul(997, reserve.1 - amount_out);
    proof {
        assert(num@ == 1000 * reserve.0 * amount_out) by (nonlinear_arith)
            requires
                num@ == reserve.0 * amount_out * 1000,
        ;
    }
    let q = u256_div(num, denom);
    proof {
        lemma_fundamental_div_mod(num@, denom@);
        lemma_mod_division_less_than_divisor(num@, denom@);
        lemma_div_pos_is_pos(num@, denom@);
        let rem = num@ % denom@;
        assert(q@ + 1 < pow256()) by (nonlinear_arith)
            requires
                num@ == denom@ * q@ + rem,
                rem >= 0,
                denom@ >= 997,
                0 <= num@ < pow256(),
                q@ >= 0,
        ;
    }
    let one = Amount::from_u128(1);
    let q1 = match u256_checked_add(q, one) {
        Some(s) => s,
        None => {
            proof {
                assert(false);
            }
            return Err(Error::Overflow);
        },
    };
    if q1.fits_u128() {
        Ok(q1.to_u128())
    } else {
        Err(Error::Overflow)
    }
}

/// Law: across a successful exact-in quote, the product of the reserves
/// after moving by `(amount_in, amount_out)` is at least the product
/// before — the fee-adjusted constant-product invariant never decreases.
pub proof fn lemma_out_amount_preserves_product(
    amount_in: int,
    reserve_in: int,
    reserve_out: int,
    amount_out: u128,
)
    requires
        0 <= amount_in <= u128::MAX,
        0 <= reserve_in <= u128::MAX,
        0 <= reserve_out <= u128::MAX,
        spec_calculate_out_amount(amount_in, reserve_in, reserve_out) == Ok::<u128, Error>(
            amount_out,
        ),
    ensures
        amount_out <= reserve_out,
        (reserve_in + amount_in) * (reserve_out - amount_out) >= reserve_in * reserve_out,
{
    let d = out_denom(amount_in, reserve_in);
    let num = 997 * amount_in * reserve_out;
    lemma_out_formula_bounds(amount_in, reserve_in, reserve_out);
    assert(amount_out as int == out_formula(amount_in, reserve_in, reserve_out));
    lemma_fundamental_div_mod(num, d);
    lemma_mod_division_less_than_divisor(num, d);
    let rem = num % d;
    assert((reserve_in + amount_in) * (reserve_out - amount_out) >= reserve_in * reserve_out)
        by (nonlinear_arith)
        requires
            997 * amount_in * reserve_out == (1000 * reserve_in + 997 * amount_in) * (
            amount_out as int) + rem,
            rem >= 0,
            amount_out >= 0,
            amount_in >= 0,
            reserve_in >= 1,
            reserve_out >= 1,
    ;
}

/// Law: across a successful exact-out quote, the product of the reserves
/// after moving by `(amount_in, amount_out)` is at least the product
/// before.
pub proof fn lemma_in_amount_preserves_product(
    amount_out: int,
    reserve_in: int,
    reserve_out: int,
    amount_in: u128,
)
    requires
        0 <= amount_out <= u128::MAX,
        0 <= reserve_in <= u128::MAX,
        0 <= reserve_out <= u128::MAX,
        spec_calculate_in_amount(amount_out, reserve_in, reserve_out) == Ok::<u128, Error>(
            amount_in,
        ),
    ensures
        amount_out < reserve_out,
        (reserve_in + amount_in) * (reserve_out - amount_out) >= reserve_in * reserve_out,
{
    let d = 997 * (reserve_out - amount_out);
    let num = 1000 * reserve_in * amount_out;
    let q = num / d;
    assert(amount_in as int == q + 1);
    lemma_fundamental_div_mod(num, d);
    lemma_mod_division_less_than_divisor(num, d);
    let rem = num % d;
    assert((reserve_in + (q + 1)) * (reserve_out - amount_out) >= reserve_in * reserve_out)
        by (nonlinear_arith)
        requires
            1000 * reserve_in * amount_out == (997 * (reserve_out - amount_out)) * q + rem,
            rem < 997 * (reserve_out - amount_out),
            rem >= 0,
            q >= 0,
            amount_out >= 0,
            reserve_in >= 1,
            reserve_out > amount_out,
    ;
}

/// Law: quoting an exact-in output and then asking, against the same
/// reserves, for the input that exact-out quoting demands for that output
/// yields at most the original input. The one family of inputs left out is
/// the boundary where the exact-in division is exact; there the round trip
/// demands one unit more.
pub proof fn lemma_out_in_roundtrip(
    amount_in: int,
    reserve_in: int,
    reserve_out: int,
    amount_out: u128,
)
    requires
        1 <= amount_in <= u128::MAX,
        0 <= reserve_in <= u128::MAX,
        0 <= reserve_out <= u128::MAX,
        spec_calculate_out_amount(amount_in, reserve_in, reserve_out) == Ok::<u128, Error>(
            amount_out,
        ),
        (997 * amount_in * reserve_out) % out_denom(amount_in, reserve_in) != 0,
    ensures
        spec_calculate_in_amount(amount_out as int, reserve_in, reserve_out) == Ok::<u128, Error>(
            in_formula(amount_out as int, reserve_in, reserve_out) as u128,
        ),
        in_formula(amount_out as int, reserve_in, reserve_out) <= amount_in,
{
    let d = out_denom(amount_in, reserve_in);
    let num = 997 * amount_in * reserve_out;
    let o = amount_out as int;
    lemma_out_formula_bounds(amount_in, reserve_in, reserve_out);
    assert(o == out_formula(amount_in, reserve_in, reserve_out));
    lemma_fundamental_div_mod(num, d);
    lemma_mod_division_less_than_divisor(num, d);
    let rem = num % d;
    // The division is not exact, so the floored output leaves slack.
    assert(o * d <= num - 1 && o < reserve_out) by (nonlinear_arith)
        requires
            num == d * o + rem,
            rem >= 1,
            num == 997 * amount_in * reserve_out,
            d == 1000 * reserve_in + 997 * amount_in,
            o <= reserve_out,
            o >= 0,
            reserve_in >= 1,
            reserve_out >= 1,
            amount_in >= 1,
    ;
    let d2 = 997 * (reserve_out - o);
    let num2 = 1000 * reserve_in * o;
    // The exact-out numerator stays strictly under `amount_in` times the
    // exact-out denominator, and under the exact-in numerator.
    assert(num2 < d2 * amount_in && 0 <= num2 && num2 <= num) by (nonlinear_arith)
        requires
            o * (1000 * reserve_in + 997 * amount_in) <= 997 * amount_in * reserve_out - 1,
            num == 997 * amount_in * reserve_out,
            num2 == 1000 * reserve_in * o,
            d2 == 997 * (reserve_out - o),
            o >= 0,
            amount_in >= 1,
            reserve_in >= 1,
            reserve_out > o,
    ;
    lemma_fundamental_div_mod(num2, d2);
    lemma_mod_division_less_than_divisor(num2, d2);
    let q2 = num2 / d2;
    let rem2 = num2 % d2;
    assert(q2 <= amount_in - 1) by (nonlinear_arith)
        requires
            num2 == d2 * q2 + rem2,
            rem2 >= 0,
            num2 < d2 * amount_in,
            d2 > 0,
    ;
    assert(num2 < pow256());
    assert(in_formula(o, reserve_in, reserve_out) == q2 + 1);
}

} // verus!
