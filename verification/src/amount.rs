//! A 256-bit unsigned quantity, the width the pair uses for liquidity
//! shares, invariant products and price accumulators. The value is held as
//! two 128-bit halves that the contracts read directly; the 256-bit
//! arithmetic itself is done by `primitive_types::U256` behind trusted
//! wrappers whose contracts state the exact integer result.
use vstd::prelude::*;

verus! {

/// The halves of a 256-bit quantity: `hi * 2^128 + lo`.
#[derive(Clone, Copy, Debug, PartialEq, Eq, Structural)]
pub struct Amount {
    pub lo: u128,
    pub hi: u128,
}

/// 2^128, the weight of the high half.
pub open spec fn pow128() -> int {
    0x100000000000000000000000000000000int
}

/// 2^256, the modulus of wrapping 256-bit arithmetic.
pub open spec fn pow256() -> int {
    0x10000000000000000000000000000000000000000000000000000000000000000int
}

impl View for Amount {
    type V = int;

    open spec fn view(&self) -> int {
        self.hi * pow128() + self.lo
    }
}

/// The unique pair of halves representing a 256-bit value.
pub open spec fn amount_of(v: int) -> Amount {
    Amount { lo: (v % pow128()) as u128, hi: (v / pow128()) as u128 }
}

/// Every quantity is the representation of its own value.
pub proof fn lemma_amount_of_view(a: Amount)
    ensures
        amount_of(a@) == a,
{
    vstd::arithmetic::div_mod::lemma_fundamental_div_mod_converse(
        a@,
        pow128(),
        a.hi as int,
        a.lo as int,
    );
}

pub broadcast proof fn lemma_amount_bounds(a: Amount)
    ensures
        0 <= #[trigger] a@ < pow256(),
{
    assert(a.hi * pow128() <= (pow128() - 1) * pow128()) by (nonlinear_arith)
        requires
            0 <= a.hi < pow128(),
    ;
    assert(a.hi * pow128() >= 0) by (nonlinear_arith)
        requires
            a.hi >= 0,
    ;
}

/// The high half is zero exactly when the value fits in 128 bits.
pub broadcast proof fn lemma_amount_fits_u128(a: Amount)
    ensures
        (#[trigger] a.hi == 0) <==> a@ < pow128(),
{
    if a.hi != 0 {
        assert(a.hi * pow128() >= pow128()) by (nonlinear_arith)
            requires
                a.hi >= 1,
        ;
    }
}

impl Amount {
    /// The zero quantity.
    pub fn zero() -> (r: Amount)
        ensures
            r@ == 0,
    {
        Amount { lo: 0, hi: 0 }
    }

    /// Embeds a 128-bit value.
    pub fn from_u128(x: u128) -> (r: Amount)
        ensures
            r@ == x,
    {
        Amount { lo: x, hi: 0 }
    }

    /// A 128-bit value shifted into the high half: `x * 2^128`.
    pub fn from_u128_shifted(x: u128) -> (r: Amount)
        ensures
            r@ == x * pow128(),
    {
        Amount { lo: 0, hi: x }
    }

    pub fn is_zero(&self) -> (r: bool)
        ensures
            r <==> self@ == 0,
    {
        proof {
            lemma_amount_fits_u128(*self);
        }
        self.hi == 0 && self.lo == 0
    }

    /// Extracts a value already known to fit in 128 bits.
    pub fn to_u128(&self) -> (r: u128)
        requires
            self@ < pow128(),
        ensures
            r == self@,
    {
        proof {
            lemma_amount_fits_u128(*self);
        }
        self.lo
    }

    /// Whether the value fits in 128 bits.
    pub fn fits_u128(&self) -> (r: bool)
        ensures
            r <==> self@ < pow128(),
    {
        proof {
            lemma_amount_fits_u128(*self);
        }
        self.hi == 0
    }

    pub fn eq_amount(&self, other: &Amount) -> (r: bool)
        ensures
            r <==> self@ == other@,
    {
        proof {
            if self.hi == other.hi && self.lo == other.lo {
                assert(self@ == other@);
            }
            if self@ == other@ && self.hi != other.hi {
                lemma_halves_determined(*self, *other);
            }
            if self@ == other@ && self.hi == other.hi {
                assert(self.lo == other.lo);
            }
        }
        self.hi == other.hi && self.lo == other.lo
    }

    pub fn lt(&self, other: &Amount) -> (r: bool)
        ensures
            r <==> self@ < other@,
    {
        proof {
            lemma_halves_ordered(*self, *other);
        }
        self.hi < other.hi || (self.hi == other.hi && self.lo < other.lo)
    }
}

/// Two quantities with distinct high halves are ordered by those halves.
proof fn lemma_halves_ordered(a: Amount, b: Amount)
    ensures
        a.hi < b.hi ==> a@ < b@,
        a.hi == b.hi ==> (a@ < b@ <==> a.lo < b.lo),
        a.hi > b.hi ==> a@ > b@,
{
    assert(a.hi < b.hi ==> a.hi * pow128() + pow128() <= b.hi * pow128()) by (nonlinear_arith)
        requires
            0 <= a.hi,
            0 <= b.hi,
    ;
    assert(a.hi > b.hi ==> b.hi * pow128() + pow128() <= a.hi * pow128()) by (nonlinear_arith)
        requires
            0 <= a.hi,
            0 <= b.hi,
    ;
}

proof fn lemma_halves_determined(a: Amount, b: Amount)
    ensures
        a@ == b@ ==> a.hi == b.hi && a.lo == b.lo,
{
    lemma_halves_ordered(a, b);
}

/// Relies on `primitive_types::U256::checked_add`: the exact 256-bit sum,
/// or `None` when the sum does not fit.
#[verifier::external_body]
pub fn u256_checked_add(a: Amount, b: Amount) -> (r: Option<Amount>)
    ensures
        match r {
            Some(s) => s@ == a@ + b@,
            None => a@ + b@ >= pow256(),
        },
{
    let x = (primitive_types::U256::from(a.hi) << 128) | primitive_types::U256::from(a.lo);
    let y = (primitive_types::U256::from(b.hi) << 128) | primitive_types::U256::from(b.lo);
    x.checked_add(y).map(|s| Amount { lo: s.low_u128(), hi: (s >> 128).low_u128() })
}

/// Relies on `primitive_types::U256::checked_sub`: the exact difference,
/// or `None` when the subtrahend is larger.
#[verifier::external_body]
pub fn u256_checked_sub(a: Amount, b: Amount) -> (r: Option<Amount>)
    ensures
        match r {
            Some(s) => s@ == a@ - b@,
            None => a@ < b@,
        },
{
    let x = (primitive_types::U256::from(a.hi) << 128) | primitive_types::U256::from(a.lo);
    let y = (primitive_types::U256::from(b.hi) << 128) | primitive_types::U256::from(b.lo);
    x.checked_sub(y).map(|s| Amount { lo: s.low_u128(), hi: (s >> 128).low_u128() })
}

/// Relies on `primitive_types::U256::checked_mul`: the exact product, or
/// `None` when the product does not fit in 256 bits.
#[verifier::external_body]
pub fn u256_checked_mul(a: Amount, b: Amount) -> (r: Option<Amount>)
    ensures
        match r {
            Some(s) => s@ == a@ * b@,
            None => a@ * b@ >= pow256(),
        },
{
    let x = (primitive_types::U256::from(a.hi) << 128) | primitive_types::U256::from(a.lo);
    let y = (primitive_types::U256::from(b.hi) << 128) | primitive_types::U256::from(b.lo);
    x.checked_mul(y).map(|s| Amount { lo: s.low_u128(), hi: (s >> 128).low_u128() })
}

/// Relies on `primitive_types::U256::div_mod`: floor division by a nonzero
/// divisor.
#[verifier::external_body]
pub fn u256_div(a: Amount, b: Amount) -> (r: Amount)
    requires
        b@ != 0,
    ensures
        r@ == a@ / b@,
{
    let x = (primitive_types::U256::from(a.hi) << 128) | primitive_types::U256::from(a.lo);
    let y = (primitive_types::U256::from(b.hi) << 128) | primitive_types::U256::from(b.lo);
    let (q, _) = x.div_mod(y);
    Amount { lo: q.low_u128(), hi: (q >> 128).low_u128() }
}

/// Relies on `primitive_types::U256::overflowing_add`: the sum modulo
/// 2^256.
#[verifier::external_body]
pub fn u256_overflowing_add(a: Amount, b: Amount) -> (r: Amount)
    ensures
        r@ == (a@ + b@) % pow256(),
{
    let x = (primitive_types::U256::from(a.hi) << 128) | primitive_types::U256::from(a.lo);
    let y = (primitive_types::U256::from(b.hi) << 128) | primitive_types::U256::from(b.lo);
    let (s, _) = x.overflowing_add(y);
    Amount { lo: s.low_u128(), hi: (s >> 128).low_u128() }
}

/// Relies on `primitive_types::U256::overflowing_mul`: the product modulo
/// 2^256.
#[verifier::external_body]
pub fn u256_overflowing_mul(a: Amount, b: Amount) -> (r: Amount)
    ensures
        r@ == (a@ * b@) % pow256(),
{
    let x = (primitive_types::U256::from(a.hi) << 128) | primitive_types::U256::from(a.lo);
    let y = (primitive_types::U256::from(b.hi) << 128) | primitive_types::U256::from(b.lo);
    let (p, _) = x.overflowing_mul(y);
    Amount { lo: p.low_u128(), hi: (p >> 128).low_u128() }
}

/// Relies on `primitive_types::U256::integer_sqrt`: the greatest `r` with
/// `r * r <= a`.
#[verifier::external_body]
pub fn u256_integer_sqrt(a: Amount) -> (r: Amount)
    ensures
        r@ * r@ <= a@,
        (r@ + 1) * (r@ + 1) > a@,
{
    let x = (primitive_types::U256::from(a.hi) << 128) | primitive_types::U256::from(a.lo);
    let s = x.integer_sqrt();
    Amount { lo: s.low_u128(), hi: (s >> 128).low_u128() }
}

/// Relies on `primitive_types::U256::full_mul` being unnecessary here:
/// `Mul` on two 128-bit operands cannot overflow 256 bits, so the plain
/// product is exact.
#[verifier::external_body]
pub fn u128_widening_mul(a: u128, b: u128) -> (r: Amount)
    ensures
        r@ == a * b,
{
    let p = primitive_types::U256::from(a) * primitive_types::U256::from(b);
    Amount { lo: p.low_u128(), hi: (p >> 128).low_u128() }
}

} // verus!
