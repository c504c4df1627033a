use crate::errors::VaultError;
use vstd::arithmetic::div_mod::{
    lemma_fundamental_div_mod, lemma_fundamental_div_mod_converse,
};
use vstd::prelude::*;

verus! {

/// Whether a number is in the range of amounts.
pub open spec fn fits(x: int) -> bool {
    i128::MIN <= x <= i128::MAX
}

/// The quotient of `a` by `b`, rounded toward zero.
pub open spec fn quotient(a: int, b: int) -> int {
    if a >= 0 && b > 0 {
        a / b
    } else if a < 0 && b < 0 {
        (-a) / (-b)
    } else if a < 0 {
        -((-a) / b)
    } else {
        -(a / (-b))
    }
}

/// `a * b / c` rounded toward zero, where the product and the quotient are
/// both in range.
pub open spec fn mul_div_of(a: int, b: int, c: int) -> Option<i128> {
    if fits(a * b) && c != 0 && fits(quotient(a * b, c)) {
        Some(quotient(a * b, c) as i128)
    } else {
        None
    }
}

/// `a * b / c` rounded toward zero, refusing every overflow.
pub fn mul_div(a: i128, b: i128, c: i128) -> (r: Result<i128, VaultError>)
    ensures
        r == (match mul_div_of(a as int, b as int, c as int) {
            Some(x) => Ok(x),
            None => Err(VaultError::MathOverflow),
        }),
{
    let product: i128 = a.checked_mul(b).ok_or(VaultError::MathOverflow)?;
    product.checked_div(c).ok_or(VaultError::MathOverflow)
}

/// `a + b`, refusing overflow.
pub fn plus(a: i128, b: i128) -> (r: Result<i128, VaultError>)
    ensures
        r == (if fits(a + b) {
            Ok((a + b) as i128)
        } else {
            Err(VaultError::MathOverflow)
        }),
{
    a.checked_add(b).ok_or(VaultError::MathOverflow)
}

/// `a - b`, refusing overflow.
pub fn minus(a: i128, b: i128) -> (r: Result<i128, VaultError>)
    ensures
        r == (if fits(a - b) {
            Ok((a - b) as i128)
        } else {
            Err(VaultError::MathOverflow)
        }),
{
    a.checked_sub(b).ok_or(VaultError::MathOverflow)
}

/// `x`, held to the range of amounts.
pub open spec fn clamped(x: int) -> int {
    if x > i128::MAX {
        i128::MAX as int
    } else if x < i128::MIN {
        i128::MIN as int
    } else {
        x
    }
}

/// `a - b`, held to the range of amounts.
pub open spec fn clamped_difference(a: int, b: int) -> int {
    clamped(a - b)
}

/// `a - b`, held to the range of amounts.
pub fn saturating_minus(a: i128, b: i128) -> (r: i128)
    ensures
        r == clamped_difference(a as int, b as int),
{
    match a.checked_sub(b) {
        Some(difference) => difference,
        None => if b < 0 {
            i128::MAX
        } else {
            i128::MIN
        },
    }
}

/// How far `x` is from zero.
fn distance_from_zero(x: i128) -> (r: u128)
    ensures
        r == (if x < 0 {
            -x
        } else {
            x as int
        }),
        r <= 0x8000_0000_0000_0000_0000_0000_0000_0000,
{
    if x >= 0 {
        x as u128
    } else {
        (-(x + 1)) as u128 + 1
    }
}

/// Divides `part * scale` by `whole`, and returns the quotient and the
/// remainder. The product itself is never formed: it may be out of range.
fn scale_part(part: u128, scale: u64, whole: u128) -> (r: (u128, u128))
    requires
        part < whole <= 0x8000_0000_0000_0000_0000_0000_0000_0000,
    ensures
        r.0 * whole + r.1 == part * scale,
        r.0 <= scale,
        r.1 < whole,
    decreases scale,
{
    if scale == 0 {
        assert(0 * whole + 0 == part * 0) by (nonlinear_arith);
        return (0, 0);
    }
    let (half_quotient, half_rest) = scale_part(part, scale / 2, whole);
    let mut quotient: u128 = half_quotient * 2;
    let mut rest: u128 = half_rest * 2;
    proof {
        let h = (scale / 2) as int;
        assert((2 * half_quotient) * whole + 2 * half_rest == part * (2 * h)) by (nonlinear_arith)
            requires
                half_quotient * whole + half_rest == part * h,
        ;
        assert(part * (2 * h + 1) == part * (2 * h) + part) by (nonlinear_arith);
    }
    if rest >= whole {
        assert((quotient + 1) * whole == quotient * whole + whole) by (nonlinear_arith);
        rest = rest - whole;
        quotient = quotient + 1;
    }
    if scale % 2 == 1 {
        rest = rest + part;
        if rest >= whole {
            assert((quotient + 1) * whole == quotient * whole + whole) by (nonlinear_arith);
            rest = rest - whole;
            quotient = quotient + 1;
        }
    }
    assert(quotient <= scale) by (nonlinear_arith)
        requires
            quotient * whole + rest == part * scale,
            part < whole,
            rest >= 0,
    ;
    (quotient, rest)
}

/// `a * scale / c` rounded toward zero and held to the range of amounts. It is
/// exact wherever the result is in range, whether or not the product is.
pub fn saturating_mul_div(a: i128, scale: u64, c: i128) -> (r: i128)
    requires
        scale > 0,
        c != 0,
    ensures
        r == clamped(quotient(a * scale, c as int)),
{
    let dividend: u128 = distance_from_zero(a);
    let divisor: u128 = distance_from_zero(c);
    let whole: u128 = dividend / divisor;
    let part: u128 = dividend % divisor;
    let (fraction, rest) = scale_part(part, scale, divisor);
    proof {
        let exact = whole * scale + fraction;
        lemma_fundamental_div_mod(dividend as int, divisor as int);
        assert(dividend * scale == exact * divisor + rest) by (nonlinear_arith)
            requires
                dividend == divisor * whole + part,
                fraction * divisor + rest == part * scale,
                exact == whole * scale + fraction,
        ;
        lemma_fundamental_div_mod_converse(
            dividend * scale,
            divisor as int,
            exact,
            rest as int,
        );
        assert(a >= 0 ==> a * scale >= 0) by (nonlinear_arith)
            requires
                scale > 0,
        ;
        assert(a < 0 ==> a * scale < 0) by (nonlinear_arith)
            requires
                scale > 0,
        ;
        assert((-a) * scale == -(a * scale)) by (nonlinear_arith);
        assert(quotient(a * scale, c as int) == if (a < 0) == (c < 0) {
            exact
        } else {
            -exact
        });
    }
    let size: Option<u128> = match whole.checked_mul(scale as u128) {
        Some(scaled) => scaled.checked_add(fraction),
        None => None,
    };
    if (a < 0) == (c < 0) {
        match size {
            Some(size) => if size > i128::MAX as u128 {
                i128::MAX
            } else {
                size as i128
            },
            None => i128::MAX,
        }
    } else {
        match size {
            Some(size) => if size > i128::MAX as u128 {
                i128::MIN
            } else {
                -(size as i128)
            },
            None => i128::MIN,
        }
    }
}

} // verus!
