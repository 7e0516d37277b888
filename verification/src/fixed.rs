//! A saturating fixed-point scalar with 40 fractional bits.
//!
//! Every coordinate, color channel and distance in this crate is an `Fx`: an
//! `i64` raw value that stands for the real number `raw / SCALE`. All
//! operations are total: results are rounded toward negative infinity onto the
//! grid and clamped into `[-FX_MAX_RAW, FX_MAX_RAW]`, and division by zero
//! saturates toward the sign of the dividend. The spec functions below
//! (`sat_v`, `fdiv`, `add_v`, `mul_v`, `div_v`, `isqrt`) are the exact
//! mathematical model of each operation, so every contract in the crate pins
//! its result down to the integer.

use vstd::prelude::*;

verus! {

use vstd::arithmetic::div_mod::{lemma_fundamental_div_mod, lemma_fundamental_div_mod_converse};

/// One unit: 2^40. A raw value `r` stands for the real number `r / SCALE`.
pub const SCALE: i64 = 1099511627776;

/// Largest admitted raw magnitude: 2^62 - 1 (about 2^30 in real units).
pub const FX_MAX_RAW: i64 = 4611686018427387903;

/// Clamp an unbounded integer into the admitted raw range.
pub open spec fn sat_v(x: int) -> int {
    if x > FX_MAX_RAW as int {
        FX_MAX_RAW as int
    } else if x < -(FX_MAX_RAW as int) {
        -(FX_MAX_RAW as int)
    } else {
        x
    }
}

/// Division with the quotient rounded toward negative infinity, for `d != 0`.
pub open spec fn fdiv(n: int, d: int) -> int {
    if d > 0 {
        n / d
    } else {
        (-n) / (-d)
    }
}

pub open spec fn add_v(a: int, b: int) -> int {
    sat_v(a + b)
}

pub open spec fn sub_v(a: int, b: int) -> int {
    sat_v(a - b)
}

pub open spec fn neg_v(a: int) -> int {
    sat_v(-a)
}

pub open spec fn abs_v(a: int) -> int {
    if a < 0 {
        -a
    } else {
        a
    }
}

pub open spec fn min_v(a: int, b: int) -> int {
    if a < b {
        a
    } else {
        b
    }
}

pub open spec fn max_v(a: int, b: int) -> int {
    if a > b {
        a
    } else {
        b
    }
}

/// Raw value of the fixed-point product `a * b / SCALE`, floor-rounded, clamped.
pub open spec fn mul_v(a: int, b: int) -> int {
    sat_v(fdiv(a * b, SCALE as int))
}

/// Raw value of the fixed-point quotient `a / b`, floor-rounded, clamped.
/// A zero divisor saturates toward the sign of the dividend.
pub open spec fn div_v(a: int, b: int) -> int {
    if b == 0 {
        if a > 0 {
            FX_MAX_RAW as int
        } else if a < 0 {
            -(FX_MAX_RAW as int)
        } else {
            0
        }
    } else {
        sat_v(fdiv(a * (SCALE as int), b))
    }
}

/// Raw value of `i` whole units.
pub open spec fn int_v(i: int) -> int {
    sat_v(i * (SCALE as int))
}

/// Raw value of the fraction `n / d`, floor-rounded onto the grid.
pub open spec fn ratio_v(n: int, d: int) -> int {
    sat_v(fdiv(n * (SCALE as int), d))
}

/// Raw value of the fixed-point square root of `a`; nonpositive arguments give 0.
pub open spec fn sqrt_v(a: int) -> int {
    if a <= 0 {
        0
    } else {
        sat_v(isqrt(a * (SCALE as int)))
    }
}

/// Raw value of the fixed-point power `b^e`: `e` rounded products, starting
/// from one.
pub open spec fn pow_v(b: int, e: nat) -> int
    decreases e,
{
    if e == 0 {
        SCALE as int
    } else {
        mul_v(b, pow_v(b, (e - 1) as nat))
    }
}

/// `r` is the integer square root of `x`.
pub open spec fn is_sqrt(x: int, r: int) -> bool {
    0 <= r && r * r <= x && x < (r + 1) * (r + 1)
}

/// The integer square root (meaningful for `x >= 0`).
pub open spec fn isqrt(x: int) -> int {
    choose|r: int| is_sqrt(x, r)
}

pub proof fn lemma_isqrt_unique(x: int, a: int, b: int)
    requires
        is_sqrt(x, a),
        is_sqrt(x, b),
    ensures
        a == b,
{
    assert(a == b) by (nonlinear_arith)
        requires
            0 <= a,
            0 <= b,
            a * a <= x,
            x < (a + 1) * (a + 1),
            b * b <= x,
            x < (b + 1) * (b + 1),
    ;
}

/// Any witness of `is_sqrt` is the value of the `isqrt` spec function.
pub proof fn lemma_isqrt_is(x: int, r: int)
    requires
        is_sqrt(x, r),
    ensures
        isqrt(x) == r,
{
    assert(is_sqrt(x, isqrt(x))) by {
        assert(exists|q: int| is_sqrt(x, q)) by {
            assert(is_sqrt(x, r));
        }
    }
    lemma_isqrt_unique(x, isqrt(x), r);
}

/// The saturating fixed-point scalar.
#[derive(Clone, Copy, Debug, PartialEq, Eq, Structural)]
pub struct Fx {
    raw: i64,
}

proof fn lemma_scale_product_bounded(x: int)
    requires
        -0x8000000000000000 <= x <= 0x7fffffffffffffff,
    ensures
        -0x40000000000000000000000000000000 <= x * (SCALE as int)
            <= 0x40000000000000000000000000000000,
        x > 0 ==> x * (SCALE as int) > 0,
{
    assert(-0x40000000000000000000000000000000 <= x * (SCALE as int)
            <= 0x40000000000000000000000000000000
            && (x > 0 ==> x * (SCALE as int) > 0)) by (nonlinear_arith)
        requires
            -0x8000000000000000 <= x <= 0x7fffffffffffffff,
            SCALE == 1099511627776i64,
    ;
}

/// Clamp an `i128` onto the admitted raw range.
fn sat_i128(x: i128) -> (r: i64)
    ensures
        r as int == sat_v(x as int),
{
    if x > FX_MAX_RAW as i128 {
        FX_MAX_RAW
    } else if x < -(FX_MAX_RAW as i128) {
        -FX_MAX_RAW
    } else {
        x as i64
    }
}

/// Floor division on `i128`, for divisors of at most 64 bits.
fn div_floor(n: i128, d: i128) -> (q: i128)
    requires
        d != 0,
        -0x40000000000000000000000000000000 <= n <= 0x40000000000000000000000000000000,
        -0x10000000000000000 <= d <= 0x10000000000000000,
    ensures
        q as int == fdiv(n as int, d as int),
        -0x40000000000000000000000000000001 <= q <= 0x40000000000000000000000000000000,
{
    let n2: i128 = if d < 0 { -n } else { n };
    let d2: i128 = if d < 0 { -d } else { d };
    if n2 >= 0 {
        let qq: u128 = (n2 as u128) / (d2 as u128);
        proof {
            assert(qq <= n2 as u128) by {
                vstd::arithmetic::div_mod::lemma_div_is_ordered_by_denominator(
                    n2 as int, 1, d2 as int);
                assert(n2 as int / 1 == n2 as int) by {
                    vstd::arithmetic::div_mod::lemma_div_basics(n2 as int);
                }
            }
        }
        qq as i128
    } else {
        let m: u128 = (-n2) as u128;
        let du: u128 = d2 as u128;
        let qq: u128 = m / du;
        let rr: u128 = m % du;
        proof {
            lemma_fundamental_div_mod(m as int, du as int);
            assert(qq <= m) by {
                vstd::arithmetic::div_mod::lemma_div_is_ordered_by_denominator(
                    m as int, 1, du as int);
                assert(m as int / 1 == m as int) by {
                    vstd::arithmetic::div_mod::lemma_div_basics(m as int);
                }
            }
        }
        if rr == 0 {
            proof {
                assert(n2 as int == (-(qq as int)) * (d2 as int) + 0) by (nonlinear_arith)
                    requires
                        m as int == (du as int) * (qq as int) + (rr as int),
                        rr == 0,
                        n2 as int == -(m as int),
                        d2 as int == du as int,
                ;
                lemma_fundamental_div_mod_converse(n2 as int, d2 as int, -(qq as int), 0);
            }
            -(qq as i128)
        } else {
            proof {
                assert(n2 as int == (-(qq as int) - 1) * (d2 as int) + ((d2 as int) - (rr as int)))
                    by (nonlinear_arith)
                    requires
                        m as int == (du as int) * (qq as int) + (rr as int),
                        n2 as int == -(m as int),
                        d2 as int == du as int,
                ;
                lemma_fundamental_div_mod_converse(
                    n2 as int, d2 as int, -(qq as int) - 1, (d2 as int) - (rr as int));
            }
            -(qq as i128) - 1
        }
    }
}

/// Integer square root by bisection.
fn isqrt_u128(x: u128) -> (r: u64)
    requires
        x < 0x40000000000000000000000000000000,
    ensures
        is_sqrt(x as int, r as int),
        r as int == isqrt(x as int),
{
    let mut lo: u128 = 0;
    let mut hi: u128 = 0x8000000000000000;
    proof {
        assert((0x8000000000000000 as int) * (0x8000000000000000 as int)
            == 0x40000000000000000000000000000000) by (nonlinear_arith);
    }
    while hi - lo > 1
        invariant
            lo < hi <= 0x8000000000000000,
            (lo as int) * (lo as int) <= x as int,
            (x as int) < (hi as int) * (hi as int),
        decreases hi - lo,
    {
        let mid: u128 = lo + (hi - lo) / 2;
        proof {
            assert((mid as int) * (mid as int) < 0x40000000000000000000000000000000)
                by (nonlinear_arith)
                requires
                    0 <= mid as int,
                    mid as int <= 0x8000000000000000 - 1,
            ;
        }
        let sq: u128 = mid * mid;
        if sq <= x {
            lo = mid;
        } else {
            hi = mid;
        }
    }
    proof {
        assert(is_sqrt(x as int, lo as int));
        lemma_isqrt_is(x as int, lo as int);
    }
    lo as u64
}

impl Fx {
    #[verifier::type_invariant]
    spec fn inv(self) -> bool {
        -FX_MAX_RAW <= self.raw <= FX_MAX_RAW
    }

    /// The raw value: the real number this scalar stands for, times `SCALE`.
    pub closed spec fn val(self) -> int {
        self.raw as int
    }

    pub fn zero() -> (r: Fx)
        ensures
            r.val() == 0,
    {
        Fx { raw: 0 }
    }

    pub fn one() -> (r: Fx)
        ensures
            r.val() == SCALE as int,
    {
        Fx { raw: SCALE }
    }

    /// The scalar with the given raw value, clamped into the admitted range.
    pub fn from_raw(raw: i64) -> (r: Fx)
        ensures
            r.val() == sat_v(raw as int),
    {
        if raw > FX_MAX_RAW {
            Fx { raw: FX_MAX_RAW }
        } else if raw < -FX_MAX_RAW {
            Fx { raw: -FX_MAX_RAW }
        } else {
            Fx { raw }
        }
    }

    /// `i` whole units.
    pub fn from_int(i: i64) -> (r: Fx)
        ensures
            r.val() == int_v(i as int),
    {
        proof {
            lemma_scale_product_bounded(i as int);
        }
        Fx { raw: sat_i128((i as i128) * (SCALE as i128)) }
    }

    /// The fraction `n / d`, floor-rounded onto the grid.
    pub fn from_ratio(n: i64, d: i64) -> (r: Fx)
        requires
            d != 0,
        ensures
            r.val() == ratio_v(n as int, d as int),
    {
        proof {
            lemma_scale_product_bounded(n as int);
        }
        let p: i128 = (n as i128) * (SCALE as i128);
        Fx { raw: sat_i128(div_floor(p, d as i128)) }
    }

    pub fn add(self, other: Fx) -> (r: Fx)
        ensures
            r.val() == add_v(self.val(), other.val()),
    {
        Fx { raw: sat_i128((self.raw as i128) + (other.raw as i128)) }
    }

    pub fn sub(self, other: Fx) -> (r: Fx)
        ensures
            r.val() == sub_v(self.val(), other.val()),
    {
        Fx { raw: sat_i128((self.raw as i128) - (other.raw as i128)) }
    }

    pub fn neg(self) -> (r: Fx)
        ensures
            r.val() == neg_v(self.val()),
    {
        proof {
            use_type_invariant(self);
        }
        Fx { raw: -self.raw }
    }

    pub fn abs(self) -> (r: Fx)
        ensures
            r.val() == abs_v(self.val()),
    {
        proof {
            use_type_invariant(self);
        }
        if self.raw < 0 {
            Fx { raw: -self.raw }
        } else {
            self
        }
    }

    pub fn min(self, other: Fx) -> (r: Fx)
        ensures
            r.val() == min_v(self.val(), other.val()),
    {
        if self.raw < other.raw {
            self
        } else {
            other
        }
    }

    pub fn max(self, other: Fx) -> (r: Fx)
        ensures
            r.val() == max_v(self.val(), other.val()),
    {
        if self.raw > other.raw {
            self
        } else {
            other
        }
    }

    pub fn mul(self, other: Fx) -> (r: Fx)
        ensures
            r.val() == mul_v(self.val(), other.val()),
    {
        proof {
            use_type_invariant(self);
            use_type_invariant(other);
            assert(
                -0x40000000000000000000000000000000
                <= (self.raw as int) * (other.raw as int)
                <= 0x40000000000000000000000000000000) by (nonlinear_arith)
                requires
                    -FX_MAX_RAW <= self.raw as int <= FX_MAX_RAW,
                    -FX_MAX_RAW <= other.raw as int <= FX_MAX_RAW,
            ;
        }
        let p: i128 = (self.raw as i128) * (other.raw as i128);
        Fx { raw: sat_i128(div_floor(p, SCALE as i128)) }
    }

    pub fn div(self, other: Fx) -> (r: Fx)
        ensures
            r.val() == div_v(self.val(), other.val()),
    {
        proof {
            use_type_invariant(self);
        }
        if other.raw == 0 {
            if self.raw > 0 {
                Fx { raw: FX_MAX_RAW }
            } else if self.raw < 0 {
                Fx { raw: -FX_MAX_RAW }
            } else {
                Fx { raw: 0 }
            }
        } else {
            proof {
                lemma_scale_product_bounded(self.raw as int);
            }
            let p: i128 = (self.raw as i128) * (SCALE as i128);
            Fx { raw: sat_i128(div_floor(p, other.raw as i128)) }
        }
    }

    /// Fixed-point power with a whole-number exponent.
    #[verifier::loop_isolation(false)]
    pub fn powi(self, e: u32) -> (r: Fx)
        ensures
            r.val() == pow_v(self.val(), e as nat),
    {
        let mut acc = Fx::one();
        let mut i: u32 = 0;
        while i < e
            invariant
                i <= e,
                acc.val() == pow_v(self.val(), i as nat),
            decreases e - i,
        {
            acc = self.mul(acc);
            i = i + 1;
        }
        acc
    }

    /// Fixed-point square root; nonpositive arguments give 0.
    pub fn sqrt(self) -> (r: Fx)
        ensures
            r.val() == sqrt_v(self.val()),
    {
        proof {
            use_type_invariant(self);
        }
        if self.raw <= 0 {
            Fx { raw: 0 }
        } else {
            proof {
                lemma_scale_product_bounded(self.raw as int);
            }
            let p: i128 = (self.raw as i128) * (SCALE as i128);
            let rt: u64 = isqrt_u128(p as u128);
            Fx { raw: sat_i128(rt as i128) }
        }
    }

    pub fn lt(self, other: Fx) -> (r: bool)
        ensures
            r == (self.val() < other.val()),
    {
        self.raw < other.raw
    }

    pub fn le(self, other: Fx) -> (r: bool)
        ensures
            r == (self.val() <= other.val()),
    {
        self.raw <= other.raw
    }

    /// The whole-unit part, rounded toward negative infinity.
    pub fn to_int_floor(self) -> (r: i64)
        ensures
            r as int == fdiv(self.val(), SCALE as int),
    {
        proof {
            use_type_invariant(self);
        }
        let q: i128 = div_floor(self.raw as i128, SCALE as i128);
        proof {
            lemma_fundamental_div_mod(self.raw as int, SCALE as int);
            vstd::arithmetic::div_mod::lemma_mod_bound(self.raw as int, SCALE as int);
            assert(-FX_MAX_RAW <= q as int <= FX_MAX_RAW) by (nonlinear_arith)
                requires
                    q as int == (self.raw as int) / (SCALE as int),
                    self.raw as int == (SCALE as int) * ((self.raw as int) / (SCALE as int))
                        + (self.raw as int) % (SCALE as int),
                    0 <= (self.raw as int) % (SCALE as int),
                    (self.raw as int) % (SCALE as int) < SCALE as int,
                    -FX_MAX_RAW <= self.raw as int <= FX_MAX_RAW,
                    SCALE == 1099511627776i64,
            ;
        }
        q as i64
    }
}

} // verus!
