//! Signed fixed-point numbers with eight decimal places.
//!
//! Every amount of the accounting engine (prices, quantities, values, fees,
//! profit and loss, equity) is a [`Fixed`], so that sums of fees and of
//! profit and loss are exact.
use vstd::prelude::*;

verus! {

/// Number of raw units in one whole unit.
pub const SCALE: i64 = 100_000_000;

/// Whether `v` can be held in the raw field of a [`Fixed`].
pub open spec fn fits(v: int) -> bool {
    i64::MIN <= v <= i64::MAX
}

pub open spec fn abs(v: int) -> int {
    if v < 0 {
        -v
    } else {
        v
    }
}

/// Integer division rounded toward zero, as Rust's `/` rounds.
pub open spec fn trunc_div(n: int, d: int) -> int {
    if (n < 0) == (d < 0) {
        abs(n) / abs(d)
    } else {
        -(abs(n) / abs(d))
    }
}

/// Raw value of the product of two fixed-point values held as raw `a` and `b`.
pub open spec fn mul_raw(a: int, b: int) -> int {
    trunc_div(a * b, SCALE as int)
}

/// Raw value of the quotient of two fixed-point values held as raw `a` and `b`.
pub open spec fn div_raw(a: int, b: int) -> int {
    trunc_div(a * SCALE as int, b)
}

/// A signed number with eight decimal places: `raw / 10^8`.
#[derive(Clone, Copy, Debug, PartialEq, Eq, Structural)]
pub struct Fixed {
    /// The value in units of `10^-8`.
    pub raw: i64,
}

impl View for Fixed {
    type V = int;

    open spec fn view(&self) -> int {
        self.raw as int
    }
}

/// Largest magnitude of an operand of [`mul_div_trunc`].
pub open spec fn operand_bound() -> int {
    0x8000_0000_0000_0000
}

/// Computes `a * b / d` rounded toward zero, without overflow in between.
pub(crate) fn mul_div_trunc(a: i128, b: i128, d: i128) -> (r: i64)
    requires
        abs(a as int) <= operand_bound(),
        abs(b as int) <= operand_bound(),
        d != 0,
        abs(d as int) <= operand_bound(),
        fits(trunc_div(a * b, d as int)),
    ensures
        r as int == trunc_div(a * b, d as int),
{
    let ua: u128 = if a < 0 { (-a) as u128 } else { a as u128 };
    let ub: u128 = if b < 0 { (-b) as u128 } else { b as u128 };
    let ud: u128 = if d < 0 { (-d) as u128 } else { d as u128 };
    assert(ua * ub <= operand_bound() * operand_bound()) by (nonlinear_arith)
        requires
            ua <= operand_bound(),
            ub <= operand_bound(),
    ;
    let up: u128 = ua * ub;
    assert(abs(a * b) == ua * ub) by (nonlinear_arith)
        requires
            ua == abs(a as int),
            ub == abs(b as int),
    ;
    let q: u128 = up / ud;
    assert(q <= up) by (nonlinear_arith)
        requires
            q == up / ud,
            ud > 0,
    ;
    let negative = (a < 0) != (b < 0) && up != 0;
    assert(((a * b) < 0) == negative) by (nonlinear_arith)
        requires
            negative == ((a < 0) != (b < 0) && ua * ub != 0),
            ua == abs(a as int),
            ub == abs(b as int),
    ;
    let r: i128 = if negative != (d < 0) && q != 0 { -(q as i128) } else { q as i128 };
    r as i64
}

impl Fixed {
    pub fn from_raw(raw: i64) -> (r: Fixed)
        ensures
            r.raw == raw,
    {
        Fixed { raw }
    }

    /// The whole number `n`.
    pub fn from_int(n: i32) -> (r: Fixed)
        ensures
            r@ == n * SCALE,
    {
        Fixed { raw: n as i64 * SCALE }
    }

    pub fn zero() -> (r: Fixed)
        ensures
            r@ == 0,
    {
        Fixed { raw: 0 }
    }

    /// `self / o`, rounded toward zero to eight decimal places.
    pub fn div(self, o: Fixed) -> (r: Fixed)
        requires
            o@ != 0,
            fits(div_raw(self@, o@)),
        ensures
            r@ == div_raw(self@, o@),
    {
        Fixed { raw: mul_div_trunc(self.raw as i128, SCALE as i128, o.raw as i128) }
    }
}

} // verus!
