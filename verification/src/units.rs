//! Fixed-point length units and the rounding division they rest on.
//!
//! Every length in the library is an integer count of microinches (millionths
//! of an inch), and every motor-shaft quantity is an integer count of steps.
//! A motor's gearing is described in milli-steps per inch, so converting a
//! length to steps multiplies by that gearing and divides by `STEP_SCALE`,
//! rounding to the nearest step.  [`round_div`] is that rounding division;
//! the lemmas here bound its error and are the base of every conversion proof.

use vstd::prelude::*;
use vstd::arithmetic::div_mod::{
    lemma_fundamental_div_mod, lemma_fundamental_div_mod_converse_div, lemma_div_is_ordered,
};

verus! {

/// Microinches in one inch.
pub const UIN_PER_INCH: i64 = 1_000_000;

/// Denominator of the microinch-to-step conversion: microinches per inch
/// times the milli scale of the per-inch step count.
pub const STEP_SCALE: i64 = 1_000_000_000;

/// The machine-travel limit: the largest position magnitude, in
/// microinches, the motors will drive to.  This is a machine limit, not a
/// validation of commands: positions, their step counts, and every value
/// derived from them must stay representable in 64-bit microinches under
/// every admissible gearing, so the motor loop clamps step targets to this
/// travel.  It lies at 512 inches, twice the homing sentinel, so no
/// position the machine can actually establish or a procedure can command
/// from a homed envelope is affected.
pub const MAX_POSITION_UIN: i64 = 512_000_000;

/// Largest position magnitude, in microinches, a position report can carry:
/// [`MAX_POSITION_UIN`] plus one step width of slack for rounding.
pub const MAX_REPORTED_UIN: i64 = 514_000_000;

/// Largest magnitude, in microinches, accepted in a motion command.
pub const MAX_COMMAND_UIN: i64 = 2_000_000_000;

/// Largest magnitude, in microinches or steps, the unit conversions accept.
pub const MAX_CONVERT_UIN: i64 = 4_000_000_000;

pub open spec fn abs_val(n: int) -> int {
    if n < 0 {
        -n
    } else {
        n
    }
}

/// Division rounded to the nearest integer, with halves rounded up.
pub open spec fn round_div(n: int, d: int) -> int
    recommends
        d > 0,
{
    (2 * n + d) / (2 * d)
}

/// The rounded quotient is off from the exact quotient by at most half the
/// divisor: `-d < 2 * (round_div(n, d) * d - n) <= d`.
pub proof fn lemma_round_div_error(n: int, d: int)
    requires
        d > 0,
    ensures
        -d < 2 * (round_div(n, d) * d - n) <= d,
{
    let q = round_div(n, d);
    let m = (2 * n + d) % (2 * d);
    lemma_fundamental_div_mod(2 * n + d, 2 * d);
    assert(2 * n + d == 2 * d * q + m);
    assert(0 <= m < 2 * d);
    assert(2 * (q * d - n) == d - m) by (nonlinear_arith)
        requires
            2 * n + d == 2 * d * q + m,
    ;
}

/// Rounding division is monotonic in the numerator.
pub proof fn lemma_round_div_ordered(n1: int, n2: int, d: int)
    requires
        d > 0,
        n1 <= n2,
    ensures
        round_div(n1, d) <= round_div(n2, d),
{
    lemma_div_is_ordered(2 * n1 + d, 2 * n2 + d, 2 * d);
}

/// An exact multiple of the divisor divides without rounding.
pub proof fn lemma_round_div_exact(k: int, d: int)
    requires
        d > 0,
    ensures
        round_div(k * d, d) == k,
{
    assert(2 * (k * d) + d == k * (2 * d) + d) by (nonlinear_arith);
    lemma_fundamental_div_mod_converse_div(2 * (k * d) + d, 2 * d, k, d);
}

/// A nonnegative numerator rounds to a nonnegative quotient and a negative
/// one to a nonpositive quotient.
pub proof fn lemma_round_div_sign(n: int, d: int)
    requires
        d > 0,
    ensures
        n >= 0 ==> round_div(n, d) >= 0,
        n <= 0 ==> round_div(n, d) <= 0,
{
    lemma_round_div_exact(0, d);
    if n >= 0 {
        lemma_round_div_ordered(0, n, d);
    } else {
        lemma_round_div_ordered(n, 0, d);
    }
}

/// Negating the numerator negates the rounded quotient, except one step of
/// slack where a half rounds up.
pub proof fn lemma_round_div_neg(n: int, d: int)
    requires
        d > 0,
    ensures
        -round_div(n, d) <= round_div(-n, d) <= -round_div(n, d) + 1,
{
    lemma_round_div_error(n, d);
    lemma_round_div_error(-n, d);
    assert(-round_div(n, d) <= round_div(-n, d) <= -round_div(n, d) + 1)
        by (nonlinear_arith)
        requires
            d > 0,
            -d < 2 * (round_div(n, d) * d - n) <= d,
            -d < 2 * (round_div(-n, d) * d - (-n)) <= d,
    ;
}

/// Runtime rounding division on wide integers.
pub fn round_div_i128(n: i128, d: i128) -> (r: i128)
    requires
        0 < d <= 1_000_000_000_000,
        -9_223_372_036_854_775_807 <= n <= 9_223_372_036_854_775_807,
    ensures
        r == round_div(n as int, d as int),
{
    let den: u128 = (2 * d) as u128;
    if n >= 0 {
        let num: u128 = (2 * n) as u128 + (d as u128);
        let q: u128 = num / den;
        q as i128
    } else {
        let a: u128 = (-n) as u128;
        let num: u128 = 2 * a + (d as u128) - 1;
        let q: u128 = num / den;
        proof {
            let ai = a as int;
            let di = d as int;
            let qi = q as int;
            let mi = (2 * ai + di - 1) % (2 * di);
            lemma_fundamental_div_mod(2 * ai + di - 1, 2 * di);
            assert(2 * ai + di - 1 == 2 * di * qi + mi);
            assert(0 <= mi < 2 * di);
            // The numerator of the rounded quotient of n = -a decomposes as
            // (-qi) * (2 d) + (2 d - mi - 1), so the quotient is -qi.
            assert(2 * (n as int) + di == (-qi) * (2 * di) + (2 * di - mi - 1))
                by (nonlinear_arith)
                requires
                    n == -ai,
                    2 * ai + di - 1 == 2 * di * qi + mi,
            ;
            lemma_fundamental_div_mod_converse_div(
                2 * (n as int) + di,
                2 * di,
                -qi,
                2 * di - mi - 1,
            );
        }
        -(q as i128)
    }
}

} // verus!
