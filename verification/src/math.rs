use vstd::prelude::*;

verus! {

use vstd::arithmetic::power::pow;
use vstd::arithmetic::power::lemma_pow_multiplies;
use vstd::arithmetic::power::lemma_pow_increases;
use vstd::arithmetic::power::lemma_pow1;
use vstd::arithmetic::power::lemma_pow_positive;

use crate::error::H3ErrorCode;

/// The absolute value, kept in `int` so it composes with `pow`.
pub open spec fn iabs(x: int) -> int {
    if x < 0 {
        -x
    } else {
        x
    }
}

/// Integer exponentiation by squaring.
pub fn ipow(base: i64, exp: i64) -> (r: i64)
    requires
        0 <= exp,
        pow(iabs(base as int), exp as nat) <= i64::MAX,
    ensures
        r as int == pow(base as int, exp as nat),
{
    let mut result: i64 = 1;
    let mut b: i64 = base;
    let mut e: u64 = exp as u64;
    proof {
        lemma_abs_pow(base as int, exp as nat);
        vstd::arithmetic::mul::lemma_mul_basics(pow(base as int, exp as nat));
        vstd::arithmetic::mul::lemma_mul_basics(pow(iabs(base as int), exp as nat));
        assert(e as nat == exp as nat);
    }
    loop
        invariant
            result as int * pow(b as int, e as nat) == pow(base as int, exp as nat),
            iabs(result as int) * pow(iabs(b as int), e as nat) == pow(iabs(base as int), exp as nat),
            pow(iabs(base as int), exp as nat) <= i64::MAX,
            result as int == 0 ==> b as int == 0,
        ensures
            e == 0,
        decreases e,
    {
        if e % 2 == 1 {
            proof {
                lemma_mul_in_bounds(result as int, b as int, e as nat, iabs(base as int), exp as nat);
            }
            let r2: i64 = result * b;
            proof {
                assert(pow(b as int, e as nat) == b as int * pow(b as int, (e - 1) as nat)) by {
                    vstd::arithmetic::power::lemma_pow_adds(b as int, 1, (e - 1) as nat);
                    lemma_pow1(b as int);
                }
                vstd::arithmetic::mul::lemma_mul_is_associative(
                    result as int,
                    b as int,
                    pow(b as int, (e - 1) as nat),
                );
                if r2 as int == 0 && b as int != 0 {
                    lemma_abs_mul(result as int, b as int);
                    vstd::arithmetic::mul::lemma_mul_strictly_positive(
                        iabs(result as int),
                        iabs(b as int),
                    );
                }
            }
            result = r2;
            e = e - 1;
        }
        if e == 0 {
            break ;
        }
        proof {
            lemma_square_in_bounds(result as int, b as int, e as nat, iabs(base as int), exp as nat);
            lemma_abs_mul(b as int, b as int);
            lemma_pow_multiplies(b as int, 2, (e / 2) as nat);
            lemma_pow_multiplies(iabs(b as int), 2, (e / 2) as nat);
            lemma_pow_two(b as int);
            lemma_pow_two(iabs(b as int));
        }
        b = b * b;
        e = e / 2;
    }
    proof {
        assert(pow(b as int, 0) == 1) by {
            vstd::arithmetic::power::lemma_pow0(b as int);
        }
    }
    result
}

/// `pow` of the absolute value is the absolute value of `pow`.
proof fn lemma_abs_pow(b: int, e: nat)
    ensures
        pow(iabs(b), e) == iabs(pow(b, e)),
    decreases e,
{
    reveal(vstd::arithmetic::power::pow);
    if e > 0 {
        lemma_abs_pow(b, (e - 1) as nat);
        lemma_abs_mul(b, pow(b, (e - 1) as nat));
    }
}

/// The square as a power.
proof fn lemma_pow_two(b: int)
    ensures
        pow(b, 2) == b * b,
{
    vstd::arithmetic::power::lemma_square_is_pow2(b);
}

/// A pending multiplication in the exponentiation loop stays within the
/// overall bound.
proof fn lemma_mul_in_bounds(result: int, b: int, e: nat, ab: int, exp: nat)
    requires
        e >= 1,
        e % 2 == 1,
        iabs(result) * pow(iabs(b), e) == pow(ab, exp),
        pow(ab, exp) <= i64::MAX,
        result == 0 ==> b == 0,
    ensures
        -i64::MAX <= result * b <= i64::MAX,
        iabs(result * b) * pow(iabs(b), (e - 1) as nat) == pow(ab, exp),
{
    vstd::arithmetic::mul::lemma_mul_is_associative(iabs(result), iabs(b), pow(iabs(b), (e - 1) as nat));
    assert(pow(iabs(b), e) == iabs(b) * pow(iabs(b), (e - 1) as nat)) by {
        vstd::arithmetic::power::lemma_pow_adds(iabs(b), 1, (e - 1) as nat);
        lemma_pow1(iabs(b));
    }
    lemma_abs_mul(result, b);
    if b == 0 {
        assert(result * b == 0) by {
            vstd::arithmetic::mul::lemma_mul_by_zero_is_zero(result);
        }
    } else {
        lemma_pow_positive(iabs(b), (e - 1) as nat);
        assert(pow(iabs(b), (e - 1) as nat) >= 1);
        assert(iabs(result * b) <= iabs(result * b) * pow(iabs(b), (e - 1) as nat)) by {
            vstd::arithmetic::mul::lemma_mul_inequality(
                1,
                pow(iabs(b), (e - 1) as nat),
                iabs(result * b),
            );
            vstd::arithmetic::mul::lemma_mul_is_commutative(
                iabs(result * b),
                pow(iabs(b), (e - 1) as nat),
            );
        }
    }
}

/// A pending squaring in the exponentiation loop stays within the overall
/// bound.
proof fn lemma_square_in_bounds(result: int, b: int, e: nat, ab: int, exp: nat)
    requires
        e >= 2,
        e % 2 == 0,
        iabs(result) * pow(iabs(b), e) == pow(ab, exp),
        pow(ab, exp) <= i64::MAX,
        result == 0 ==> b == 0,
    ensures
        -i64::MAX <= b * b <= i64::MAX,
{
    lemma_abs_mul(b, b);
    if b == 0 {
        assert(b * b == 0);
    } else {
        assert(iabs(result) >= 1);
        assert(pow(iabs(b), e) == iabs(b) * iabs(b) * pow(iabs(b), (e - 2) as nat)) by {
            vstd::arithmetic::power::lemma_pow_adds(iabs(b), 2, (e - 2) as nat);
            lemma_pow_two(iabs(b));
        }
        lemma_pow_positive(iabs(b), (e - 2) as nat);
        assert(iabs(b) * iabs(b) <= iabs(b) * iabs(b) * pow(iabs(b), (e - 2) as nat)) by {
            vstd::arithmetic::mul::lemma_mul_inequality(
                1,
                pow(iabs(b), (e - 2) as nat),
                iabs(b) * iabs(b),
            );
            vstd::arithmetic::mul::lemma_mul_is_commutative(
                iabs(b) * iabs(b),
                pow(iabs(b), (e - 2) as nat),
            );
        }
        assert(iabs(b) * iabs(b) * pow(iabs(b), (e - 2) as nat) <= iabs(result) * pow(iabs(b), e)) by {
            vstd::arithmetic::mul::lemma_mul_inequality(
                1,
                iabs(result),
                pow(iabs(b), e),
            );
            vstd::arithmetic::mul::lemma_mul_is_commutative(iabs(result), pow(iabs(b), e));
        }
        assert(iabs(b * b) == iabs(b) * iabs(b));
    }
}

/// The absolute value of a product is the product of the absolute values.
proof fn lemma_abs_mul(a: int, b: int)
    ensures
        iabs(a * b) == iabs(a) * iabs(b),
{
    vstd::arithmetic::mul::lemma_mul_by_zero_is_zero(a);
    vstd::arithmetic::mul::lemma_mul_by_zero_is_zero(b);
    if a >= 0 && b >= 0 {
        vstd::arithmetic::mul::lemma_mul_nonnegative(a, b);
    } else if a < 0 && b < 0 {
        vstd::arithmetic::mul::lemma_mul_strictly_positive(-a, -b);
        assert((-a) * (-b) == a * b) by (nonlinear_arith);
    } else if a >= 0 && b < 0 {
        vstd::arithmetic::mul::lemma_mul_nonnegative(a, -b);
        assert(a * (-b) == -(a * b)) by (nonlinear_arith);
    } else {
        vstd::arithmetic::mul::lemma_mul_nonnegative(-a, b);
        assert((-a) * b == -(a * b)) by (nonlinear_arith);
    }
}

/// The number of cells the whole grid holds at a resolution: two polar cells
/// plus 120 others, each multiplied sevenfold per refinement level.
pub fn num_cells(resolution: i64) -> (r: Result<i64, H3ErrorCode>)
    ensures
        0 <= resolution <= 15 ==> r == Ok::<i64, H3ErrorCode>(
            (2 + 120 * pow(7, resolution as nat)) as i64,
        ),
        !(0 <= resolution <= 15) ==> r == Err::<i64, H3ErrorCode>(H3ErrorCode::Domain),
{
    if resolution < 0 || resolution > 15 {
        Err(H3ErrorCode::Domain)
    } else {
        proof {
            lemma_pow7_bounds(resolution as nat);
        }
        let p = ipow(7, resolution);
        Ok(2 + 120 * p)
    }
}

/// Powers of seven up to the deepest resolution fit comfortably in a
/// machine word.
proof fn lemma_pow7_bounds(e: nat)
    requires
        e <= 15,
    ensures
        pow(7, e) <= 4747561509943,
        pow(7, e) >= 1,
{
    reveal_with_fuel(vstd::arithmetic::power::pow, 17);
    assert(pow(7, 15) == 4747561509943);
    lemma_pow_increases(7, e, 15);
    lemma_pow_positive(7, e);
}

} // verus!
