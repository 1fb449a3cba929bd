//! Exact fixed-point scalars: a value is a count of `SCALE`-ths, stored in
//! an `i64`.  Addition and subtraction are exact; multiplication divides
//! the product of the counts by `SCALE`, truncating toward zero.

use vstd::prelude::*;

verus! {

/// Number of counts that make up the value one.
pub const SCALE: i64 = 1_000_000;

/// A fixed-point scalar; the value represented is `v / SCALE`.
#[derive(Clone, Copy, Debug, PartialEq, Eq, Structural)]
pub struct Fx {
    pub v: i64,
}

impl View for Fx {
    type V = int;

    open spec fn view(&self) -> int {
        self.v as int
    }
}

/// Whether a mathematical count fits in the stored representation.
pub open spec fn fx_fits(x: int) -> bool {
    i64::MIN <= x <= i64::MAX
}

/// The count of the product of two scalars with counts `a` and `b`:
/// `a * b / SCALE`, truncated toward zero.
pub open spec fn fx_mul_v(a: int, b: int) -> int {
    if a * b >= 0 {
        (a * b) / (SCALE as int)
    } else {
        -((-(a * b)) / (SCALE as int))
    }
}

/// Multiplying by zero yields zero.
pub proof fn lemma_fx_mul_zero(x: int)
    ensures
        fx_mul_v(0, x) == 0,
        fx_mul_v(x, 0) == 0,
{
    assert(0 * x == 0) by (nonlinear_arith);
    assert(x * 0 == 0) by (nonlinear_arith);
}

/// Scaling by a factor in `[0, 1]` shrinks the magnitude: the result lies
/// between zero and the scaled value, so it always fits.
pub proof fn lemma_fx_mul_unit(r: int, x: int)
    requires
        0 <= r <= SCALE as int,
    ensures
        0 <= x ==> 0 <= fx_mul_v(r, x) <= x,
        x < 0 ==> x <= fx_mul_v(r, x) <= 0,
{
    let s = SCALE as int;
    if 0 <= x {
        assert(0 <= r * x <= s * x) by (nonlinear_arith)
            requires
                0 <= r <= s,
                0 <= x,
        ;
        vstd::arithmetic::div_mod::lemma_div_pos_is_pos(r * x, s);
        vstd::arithmetic::div_mod::lemma_div_is_ordered(r * x, s * x, s);
        vstd::arithmetic::div_mod::lemma_div_by_multiple(x, s);
        assert((s * x) / s == x);
    } else {
        assert(r * x <= 0) by (nonlinear_arith)
            requires
                0 <= r,
                x < 0,
        ;
        if r * x == 0 {
            assert(fx_mul_v(r, x) == 0);
        } else {
            let m = -(r * x);
            assert(-(r * x) == r * (-x)) by (nonlinear_arith);
            assert(0 <= r * (-x) <= s * (-x)) by (nonlinear_arith)
                requires
                    0 <= r <= s,
                    x < 0,
            ;
            vstd::arithmetic::div_mod::lemma_div_pos_is_pos(m, s);
            vstd::arithmetic::div_mod::lemma_div_is_ordered(m, s * (-x), s);
            vstd::arithmetic::div_mod::lemma_div_by_multiple(-x, s);
            assert((s * (-x)) / s == -x);
            assert(fx_mul_v(r, x) == -(m / s));
        }
    }
}

impl Fx {
    /// The scalar zero.
    pub fn zero() -> (r: Fx)
        ensures
            r@ == 0,
    {
        Fx { v: 0 }
    }

    /// The scalar one.
    pub fn one() -> (r: Fx)
        ensures
            r@ == SCALE as int,
    {
        Fx { v: SCALE }
    }

    /// Builds a scalar from its count of `SCALE`-ths.
    pub fn from_units(v: i64) -> (r: Fx)
        ensures
            r@ == v as int,
    {
        Fx { v }
    }

    /// The count of `SCALE`-ths this scalar holds.
    pub fn units(self) -> (r: i64)
        ensures
            r as int == self@,
    {
        self.v
    }

    /// Exact addition.
    pub fn add(self, other: Fx) -> (r: Fx)
        requires
            fx_fits(self@ + other@),
        ensures
            r@ == self@ + other@,
    {
        Fx { v: self.v + other.v }
    }

    /// Exact subtraction.
    pub fn sub(self, other: Fx) -> (r: Fx)
        requires
            fx_fits(self@ - other@),
        ensures
            r@ == self@ - other@,
    {
        Fx { v: self.v - other.v }
    }

    /// Exact negation.
    pub fn neg(self) -> (r: Fx)
        requires
            fx_fits(-self@),
        ensures
            r@ == -self@,
    {
        Fx { v: -self.v }
    }

    /// Fixed-point multiplication: the product of the counts divided by
    /// `SCALE`, truncated toward zero.
    pub fn mul(self, other: Fx) -> (r: Fx)
        requires
            fx_fits(fx_mul_v(self@, other@)),
        ensures
            r@ == fx_mul_v(self@, other@),
    {
        let a: i128 = self.v as i128;
        let b: i128 = other.v as i128;
        let negative: bool = (a < 0) != (b < 0);
        let am: u128 = if a >= 0 {
            a as u128
        } else {
            (-a) as u128
        };
        let bm: u128 = if b >= 0 {
            b as u128
        } else {
            (-b) as u128
        };
        proof {
            assert(am * bm <= 0x8000000000000000u128 * 0x8000000000000000u128) by (nonlinear_arith)
                requires
                    am <= 0x8000000000000000u128,
                    bm <= 0x8000000000000000u128,
            ;
            assert(am as int * bm as int == vstd::math::abs((a as int) * (b as int)))
                by (nonlinear_arith)
                requires
                    am as int == vstd::math::abs(a as int),
                    bm as int == vstd::math::abs(b as int),
            ;
        }
        let q: u128 = (am * bm) / (SCALE as u128);
        proof {
            let p = (a as int) * (b as int);
            let s = SCALE as int;
            vstd::arithmetic::div_mod::lemma_div_pos_is_pos(vstd::math::abs(p) as int, s);
            if p >= 0 {
                assert(q as int == p / s);
                assert(!negative || p == 0) by (nonlinear_arith)
                    requires
                        p == (a as int) * (b as int),
                        p >= 0,
                        negative == ((a < 0) != (b < 0)),
                ;
            } else {
                assert(q as int == (-p) / s);
                assert(negative) by (nonlinear_arith)
                    requires
                        p == (a as int) * (b as int),
                        p < 0,
                        negative == ((a < 0) != (b < 0)),
                ;
            }
        }
        if negative {
            let qi: i128 = -(q as i128);
            Fx { v: qi as i64 }
        } else {
            Fx { v: q as i64 }
        }
    }
}

} // verus!
