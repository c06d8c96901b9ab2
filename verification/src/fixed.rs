//! Q16.16 fixed-point scalars: the numeric model for all geometry.
//!
//! A scalar is an `i64` counting `1/SCALE`-ths of a unit. Products and
//! quotients round toward zero, exactly as Rust's integer division does,
//! and report a result outside the `i64` range as `None`, so every
//! caller can state precisely when its computation stays representable.

use vstd::prelude::*;

verus! {

/// Number of fixed-point steps per unit: a scalar `s` stands for the
/// real number `s / SCALE`.
pub const SCALE: i64 = 65536;

/// Fixed-point product `a * b / SCALE`, rounded toward zero;
/// `None` exactly when the intermediate product or the result leaves
/// the `i64` range.
pub open spec fn qmul_spec(a: i64, b: i64) -> Option<i64> {
    match a.checked_mul(b) {
        Option::None => Option::None::<i64>,
        Option::Some(p) => p.checked_div(SCALE),
    }
}

/// Fixed-point quotient `a * SCALE / b`, rounded toward zero;
/// `None` exactly when `b == 0` or an intermediate value leaves the
/// `i64` range.
pub open spec fn qdiv_spec(a: i64, b: i64) -> Option<i64> {
    match a.checked_mul(SCALE) {
        Option::None => Option::None::<i64>,
        Option::Some(p) => p.checked_div(b),
    }
}

/// Checked sum, mirroring `i64::checked_add`.
pub open spec fn qadd_spec(a: i64, b: i64) -> Option<i64> {
    a.checked_add(b)
}

/// Fixed-point multiplication of two scalars.
pub fn qmul(a: i64, b: i64) -> (r: Option<i64>)
    ensures
        r == qmul_spec(a, b),
{
    match a.checked_mul(b) {
        None => None,
        Some(p) => p.checked_div(SCALE),
    }
}

/// Fixed-point division of two scalars.
pub fn qdiv(a: i64, b: i64) -> (r: Option<i64>)
    ensures
        r == qdiv_spec(a, b),
{
    match a.checked_mul(SCALE) {
        None => None,
        Some(p) => p.checked_div(b),
    }
}

/// Checked sum of two scalars.
pub fn qadd(a: i64, b: i64) -> (r: Option<i64>)
    ensures
        r == qadd_spec(a, b),
{
    a.checked_add(b)
}

/// Checked difference, mirroring `i64::checked_sub`.
pub open spec fn qsub_spec(a: i64, b: i64) -> Option<i64> {
    a.checked_sub(b)
}

/// Checked difference of two scalars.
pub fn qsub(a: i64, b: i64) -> (r: Option<i64>)
    ensures
        r == qsub_spec(a, b),
{
    a.checked_sub(b)
}

/// Plain checked integer product (no rescaling), mirroring
/// `i64::checked_mul`: the product of two Q16.16 scalars read as a
/// Q32.32 value.
pub open spec fn imul_spec(a: i64, b: i64) -> Option<i64> {
    a.checked_mul(b)
}

/// Plain checked integer product of two scalars.
pub fn imul(a: i64, b: i64) -> (r: Option<i64>)
    ensures
        r == imul_spec(a, b),
{
    a.checked_mul(b)
}

/// `qmul` lifted over absent operands: an overflow anywhere poisons the
/// rest of a computation.
pub open spec fn qmul_opt_spec(a: Option<i64>, b: Option<i64>) -> Option<i64> {
    match (a, b) {
        (Option::Some(x), Option::Some(y)) => qmul_spec(x, y),
        _ => Option::None::<i64>,
    }
}

/// `qdiv` lifted over absent operands.
pub open spec fn qdiv_opt_spec(a: Option<i64>, b: Option<i64>) -> Option<i64> {
    match (a, b) {
        (Option::Some(x), Option::Some(y)) => qdiv_spec(x, y),
        _ => Option::None::<i64>,
    }
}

/// `qadd` lifted over absent operands.
pub open spec fn qadd_opt_spec(a: Option<i64>, b: Option<i64>) -> Option<i64> {
    match (a, b) {
        (Option::Some(x), Option::Some(y)) => qadd_spec(x, y),
        _ => Option::None::<i64>,
    }
}

/// `qsub` lifted over absent operands.
pub open spec fn qsub_opt_spec(a: Option<i64>, b: Option<i64>) -> Option<i64> {
    match (a, b) {
        (Option::Some(x), Option::Some(y)) => qsub_spec(x, y),
        _ => Option::None::<i64>,
    }
}

/// `imul` lifted over absent operands.
pub open spec fn imul_opt_spec(a: Option<i64>, b: Option<i64>) -> Option<i64> {
    match (a, b) {
        (Option::Some(x), Option::Some(y)) => imul_spec(x, y),
        _ => Option::None::<i64>,
    }
}

/// Lifted checked difference.
pub fn qsub_opt(a: Option<i64>, b: Option<i64>) -> (r: Option<i64>)
    ensures
        r == qsub_opt_spec(a, b),
{
    match (a, b) {
        (Some(x), Some(y)) => qsub(x, y),
        _ => None,
    }
}

/// Lifted plain checked product.
pub fn imul_opt(a: Option<i64>, b: Option<i64>) -> (r: Option<i64>)
    ensures
        r == imul_opt_spec(a, b),
{
    match (a, b) {
        (Some(x), Some(y)) => imul(x, y),
        _ => None,
    }
}

/// Lifted fixed-point product.
pub fn qmul_opt(a: Option<i64>, b: Option<i64>) -> (r: Option<i64>)
    ensures
        r == qmul_opt_spec(a, b),
{
    match (a, b) {
        (Some(x), Some(y)) => qmul(x, y),
        _ => None,
    }
}

/// Lifted fixed-point quotient.
pub fn qdiv_opt(a: Option<i64>, b: Option<i64>) -> (r: Option<i64>)
    ensures
        r == qdiv_opt_spec(a, b),
{
    match (a, b) {
        (Some(x), Some(y)) => qdiv(x, y),
        _ => None,
    }
}

/// Lifted checked sum.
pub fn qadd_opt(a: Option<i64>, b: Option<i64>) -> (r: Option<i64>)
    ensures
        r == qadd_opt_spec(a, b),
{
    match (a, b) {
        (Some(x), Some(y)) => qadd(x, y),
        _ => None,
    }
}

/// A square of an integer is never negative.
pub proof fn lemma_square_nonneg(a: int)
    ensures
        a * a >= 0,
{
    assert(a * a >= 0) by (nonlinear_arith);
}

} // verus!
