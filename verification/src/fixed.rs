//! Fixed-point scalar arithmetic.
//!
//! Every scalar quantity of the solver (positions, velocities, masses,
//! stresses) is an [`Fx`]: a signed 64-bit raw value denoting `raw / 2^16`.
//! Each operation has an exact specification over mathematical integers:
//! sums and differences saturate at `±FX_MAX_RAW`, products and quotients
//! round toward zero. Divisions by zero yield zero (the "safe inverse" that
//! keeps numerical edge cases from producing garbage that would silently
//! propagate).

use vstd::prelude::*;

verus! {

/// Number of fractional bits in a fixed-point scalar.
pub const FRAC_BITS: u32 = 16;

/// The raw representation of 1.0: `2^16`.
pub const FX_ONE: i64 = 65536;

/// The raw representation of 0.5.
pub const FX_HALF: i64 = 32768;

/// Largest raw magnitude a scalar may reach: `2^62`. Saturating here keeps
/// negation and i128 products of two raw values comfortably representable.
pub const FX_MAX_RAW: i64 = 0x4000_0000_0000_0000;

/// Clamp an unbounded integer into the representable raw range.
pub open spec fn fx_clip(v: int) -> int {
    if v > FX_MAX_RAW as int {
        FX_MAX_RAW as int
    } else if v < -(FX_MAX_RAW as int) {
        -(FX_MAX_RAW as int)
    } else {
        v
    }
}

/// Division truncating toward zero (the rounding used by products and
/// quotients of scalars), for a positive divisor.
pub open spec fn tdiv(n: int, d: int) -> int
    recommends
        d > 0,
{
    if n >= 0 {
        n / d
    } else {
        -((-n) / d)
    }
}

/// A fixed-point scalar: the rational number `raw / 2^16`.
#[derive(Clone, Copy, PartialEq, Eq, Structural, Debug)]
pub struct Fx {
    pub raw: i64,
}

impl View for Fx {
    type V = int;

    open spec fn view(&self) -> int {
        self.raw as int
    }
}

impl Fx {
    /// A scalar is well formed when its raw value lies in the saturation
    /// range; every constructor and operation keeps it there.
    pub open spec fn wf(self) -> bool {
        -(FX_MAX_RAW as int) <= self.raw as int <= FX_MAX_RAW as int
    }

    /// Zero.
    pub fn zero() -> (r: Fx)
        ensures
            r@ == 0,
            r.wf(),
    {
        Fx { raw: 0 }
    }

    /// One (`2^16` raw).
    pub fn one() -> (r: Fx)
        ensures
            r@ == FX_ONE as int,
            r.wf(),
    {
        Fx { raw: FX_ONE }
    }

    /// Build a scalar directly from its raw value, saturating it into range.
    pub fn from_raw(raw: i64) -> (r: Fx)
        ensures
            r@ == fx_clip(raw as int),
            r.wf(),
    {
        if raw > FX_MAX_RAW {
            Fx { raw: FX_MAX_RAW }
        } else if raw < -FX_MAX_RAW {
            Fx { raw: -FX_MAX_RAW }
        } else {
            Fx { raw }
        }
    }

    /// Build the scalar denoting the whole number `units`.
    pub fn from_units(units: i32) -> (r: Fx)
        ensures
            r@ == units as int * FX_ONE as int,
            r.wf(),
    {
        Fx { raw: (units as i64) * FX_ONE }
    }

    /// Saturating addition.
    pub fn add(self, other: Fx) -> (r: Fx)
        requires
            self.wf(),
            other.wf(),
        ensures
            r@ == fx_clip(self@ + other@),
            r.wf(),
    {
        let s: i128 = self.raw as i128 + other.raw as i128;
        Fx { raw: clamp_i128(s) }
    }

    /// Saturating subtraction.
    pub fn sub(self, other: Fx) -> (r: Fx)
        requires
            self.wf(),
            other.wf(),
        ensures
            r@ == fx_clip(self@ - other@),
            r.wf(),
    {
        let s: i128 = self.raw as i128 - other.raw as i128;
        Fx { raw: clamp_i128(s) }
    }

    /// Negation.
    pub fn neg(self) -> (r: Fx)
        requires
            self.wf(),
        ensures
            r@ == -self@,
            r.wf(),
    {
        Fx { raw: -self.raw }
    }

    /// Absolute value.
    pub fn abs(self) -> (r: Fx)
        requires
            self.wf(),
        ensures
            r@ == if self@ >= 0 { self@ } else { -self@ },
            r.wf(),
    {
        if self.raw >= 0 {
            self
        } else {
            Fx { raw: -self.raw }
        }
    }

    /// The larger of two scalars.
    pub fn max(self, other: Fx) -> (r: Fx)
        requires
            self.wf(),
            other.wf(),
        ensures
            r@ == if self@ >= other@ { self@ } else { other@ },
            r.wf(),
    {
        if self.raw >= other.raw {
            self
        } else {
            other
        }
    }

    /// The smaller of two scalars.
    pub fn min(self, other: Fx) -> (r: Fx)
        requires
            self.wf(),
            other.wf(),
        ensures
            r@ == if self@ <= other@ { self@ } else { other@ },
            r.wf(),
    {
        if self.raw <= other.raw {
            self
        } else {
            other
        }
    }

    /// Clamp into the closed interval `[lo, hi]`.
    pub fn clamp(self, lo: Fx, hi: Fx) -> (r: Fx)
        requires
            self.wf(),
            lo.wf(),
            hi.wf(),
            lo@ <= hi@,
        ensures
            r@ == if self@ < lo@ { lo@ } else if self@ > hi@ { hi@ } else { self@ },
            r.wf(),
    {
        if self.raw < lo.raw {
            lo
        } else if self.raw > hi.raw {
            hi
        } else {
            self
        }
    }

    /// `true` when this scalar is strictly positive.
    pub fn is_pos(self) -> (r: bool)
        ensures
            r == (self@ > 0),
    {
        self.raw > 0
    }

    /// Largest whole number of units at or below this scalar.
    pub fn floor_units(self) -> (r: i64)
        requires
            self.wf(),
        ensures
            r as int == self@ / FX_ONE as int,
            -(FX_MAX_RAW as int) <= r as int <= FX_MAX_RAW as int,
    {
        floor_div_fx_one(self.raw)
    }

    /// Nearest whole number of units, halves rounding up.
    pub fn round_units(self) -> (r: i64)
        requires
            self.wf(),
        ensures
            r as int == (self@ + FX_HALF as int) / FX_ONE as int,
    {
        floor_div_fx_one(self.raw + FX_HALF)
    }

    /// Exact product specification: multiply the raw values, rescale by
    /// `2^16` rounding toward zero, then saturate.
    pub open spec fn spec_mul(a: int, b: int) -> int {
        fx_clip(tdiv(a * b, FX_ONE as int))
    }

    /// Saturating product, rounding toward zero.
    pub fn mul(self, other: Fx) -> (r: Fx)
        requires
            self.wf(),
            other.wf(),
        ensures
            r@ == Fx::spec_mul(self@, other@),
            r.wf(),
    {
        proof {
            lemma_raw_product_in_range(self.raw as int, other.raw as int);
        }
        let p: i128 = (self.raw as i128) * (other.raw as i128);
        let q: i128 = tdiv_i128_by(p, FX_ONE as u128);
        Fx { raw: clamp_i128(q) }
    }

    /// Exact specification of a small integer power: `n` successive
    /// fixed-point products starting from one.
    pub open spec fn spec_powi(b: int, n: nat) -> int
        decreases n,
    {
        if n == 0 {
            FX_ONE as int
        } else {
            Fx::spec_mul(Fx::spec_powi(b, (n - 1) as nat), b)
        }
    }

    /// Raise to a small non-negative integer power by repeated products.
    pub fn powi(self, n: u32) -> (r: Fx)
        requires
            self.wf(),
        ensures
            r@ == Fx::spec_powi(self@, n as nat),
            r.wf(),
    {
        let mut acc: Fx = Fx::one();
        let mut i: u32 = 0;
        while i < n
            invariant
                i <= n,
                self.wf(),
                acc.wf(),
                acc@ == Fx::spec_powi(self@, i as nat),
            decreases n - i,
        {
            acc = acc.mul(self);
            i = i + 1;
        }
        acc
    }

    /// Exact quotient specification: `a / b` in fixed point, rounding toward
    /// zero, saturated; a zero divisor yields zero (safe inverse).
    pub open spec fn spec_div(a: int, b: int) -> int {
        if b == 0 {
            0
        } else if b > 0 {
            fx_clip(tdiv(a * FX_ONE as int, b))
        } else {
            fx_clip(tdiv(-(a * FX_ONE as int), -b))
        }
    }

    /// Saturating quotient, rounding toward zero; division by zero returns
    /// zero rather than propagating an invalid value.
    pub fn div_safe(self, other: Fx) -> (r: Fx)
        requires
            self.wf(),
            other.wf(),
        ensures
            r@ == Fx::spec_div(self@, other@),
            r.wf(),
    {
        proof {
            lemma_raw_product_in_range(self.raw as int, FX_ONE as int);
        }
        if other.raw == 0 {
            Fx { raw: 0 }
        } else if other.raw > 0 {
            let n: i128 = (self.raw as i128) * (FX_ONE as i128);
            let q: i128 = tdiv_i128_by(n, other.raw as u128);
            Fx { raw: clamp_i128(q) }
        } else {
            let n: i128 = -((self.raw as i128) * (FX_ONE as i128));
            let q: i128 = tdiv_i128_by(n, (-(other.raw as i128)) as u128);
            Fx { raw: clamp_i128(q) }
        }
    }
}

/// A zero factor gives a zero fixed-point product.
pub proof fn lemma_mul_zero(a: int)
    ensures
        Fx::spec_mul(0, a) == 0,
        Fx::spec_mul(a, 0) == 0,
{
    vstd::arithmetic::div_mod::lemma_div_of0(FX_ONE as int);
}

/// One is neutral for the fixed-point power: `1.0^n == 1.0`.
pub proof fn lemma_powi_one(n: nat)
    ensures
        Fx::spec_powi(FX_ONE as int, n) == FX_ONE as int,
    decreases n,
{
    if n > 0 {
        lemma_powi_one((n - 1) as nat);
        assert((FX_ONE as int * FX_ONE as int) / FX_ONE as int == FX_ONE as int) by {
            vstd::arithmetic::div_mod::lemma_div_by_multiple(FX_ONE as int, FX_ONE as int);
        }
    }
}

/// Truncating division shrinks magnitudes: a bound on the dividend gives
/// a divided bound on the quotient.
pub proof fn lemma_tdiv_range(n: int, d: int, b: int)
    requires
        d > 0,
        0 <= b,
        -b <= n <= b,
    ensures
        -(b / d) <= tdiv(n, d) <= b / d,
{
    if n >= 0 {
        vstd::arithmetic::div_mod::lemma_div_is_ordered(n, b, d);
        vstd::arithmetic::div_mod::lemma_div_pos_is_pos(n, d);
    } else {
        vstd::arithmetic::div_mod::lemma_div_is_ordered(-n, b, d);
        vstd::arithmetic::div_mod::lemma_div_pos_is_pos(-n, d);
    }
}

/// Fourth powers, for the deformation projection's isotropic rescaling.
pub open spec fn pow4(r: int) -> int {
    r * r * r * r
}

/// `r` is the integer fourth root of `v`, rounded down.
pub open spec fn is_fourth_root(v: int, r: int) -> bool {
    0 <= r && pow4(r) <= v && v < pow4(r + 1)
}

/// The integer fourth root of `v`, rounded down (meaningful for
/// non-negative `v`, where it exists and is unique).
pub open spec fn spec_fourth_root(v: int) -> int {
    choose|r: int| is_fourth_root(v, r)
}

/// Fourth powers are strictly monotone on non-negatives, so the rounded
/// fourth root is unique.
pub proof fn lemma_fourth_root_unique(v: int, a: int, b: int)
    requires
        is_fourth_root(v, a),
        is_fourth_root(v, b),
    ensures
        a == b,
{
    if a < b {
        assert(pow4(a + 1) <= pow4(b)) by (nonlinear_arith)
            requires
                0 <= a && 0 <= b && a + 1 <= b,
        ;
    }
    if b < a {
        assert(pow4(b + 1) <= pow4(a)) by (nonlinear_arith)
            requires
                0 <= a && 0 <= b && b + 1 <= a,
        ;
    }
}

impl Fx {
    /// The fourth root of a non-negative scalar, rounded down in raw units:
    /// the result `r` satisfies `(r/2^16)^4 <= self <= ...`, stated exactly as
    /// `is_fourth_root(self.raw * 2^48, r.raw)`.
    pub fn fourth_root(self) -> (r: Fx)
        requires
            self.wf(),
            self@ >= 0,
        ensures
            is_fourth_root(self@ * 0x1_0000_0000_0000, r@),
            r@ == spec_fourth_root(self@ * 0x1_0000_0000_0000),
            r@ >= 0,
            r.wf(),
    {
        let ru: u64 = self.raw as u64;
        let v: u128 = (ru as u128) << 48u32;
        proof {
            assert((ru as u128) << 48u32 == (ru as u128) * 0x1_0000_0000_0000) by (bit_vector)
                requires
                    ru <= 0x4000_0000_0000_0000u64,
            ;
        }
        let root: u64 = fourth_root_u128(v);
        proof {
            let target = self@ * 0x1_0000_0000_0000;
            assert(is_fourth_root(target, root as int));
            lemma_fourth_root_unique(target, root as int, spec_fourth_root(target));
        }
        Fx { raw: root as i64 }
    }
}

/// Binary search for the integer fourth root of `v`.
fn fourth_root_u128(v: u128) -> (r: u64)
    requires
        (v as int) < pow4(0x1000_0000),
    ensures
        is_fourth_root(v as int, r as int),
        r < 0x1000_0000,
{
    let mut lo: u64 = 0;
    let mut hi: u64 = 0x1000_0000;
    while hi - lo > 1
        invariant
            0 <= lo < hi <= 0x1000_0000,
            pow4(lo as int) <= v as int,
            (v as int) < pow4(hi as int),
        decreases hi - lo,
    {
        let mid: u64 = lo + (hi - lo) / 2;
        proof {
            assert(mid as int * mid as int <= 0x1000_0000int * 0x1000_0000int)
                by (nonlinear_arith)
                requires
                    0 <= mid as int <= 0x1000_0000int,
            ;
        }
        let sq: u128 = (mid as u128) * (mid as u128);
        proof {
            assert(sq as int * sq as int <= 0x100_0000_0000_0000int * 0x100_0000_0000_0000int)
                by (nonlinear_arith)
                requires
                    0 <= sq as int <= 0x100_0000_0000_0000int,
            ;
        }
        let p4: u128 = sq * sq;
        proof {
            assert(p4 as int == pow4(mid as int)) by (nonlinear_arith)
                requires
                    sq as int == mid as int * mid as int,
                    p4 as int == sq as int * sq as int,
            ;
        }
        if p4 <= v {
            lo = mid;
        } else {
            hi = mid;
        }
    }
    proof {
        assert(pow4(lo as int) <= v as int && (v as int) < pow4(lo as int + 1));
        if lo >= 0x1000_0000 {
            assert(pow4(lo as int) >= pow4(0x1000_0000)) by (nonlinear_arith)
                requires
                    lo as int >= 0x1000_0000,
            ;
        }
    }
    lo
}

/// Floor division of a raw value by `2^16`, exact over the Euclidean
/// quotient (which rounds toward negative infinity for a positive divisor).
fn floor_div_fx_one(n: i64) -> (q: i64)
    requires
        -0x7000_0000_0000_0000 <= n as int <= 0x7000_0000_0000_0000,
    ensures
        q as int == n as int / FX_ONE as int,
        -(FX_MAX_RAW as int) <= q as int <= FX_MAX_RAW as int,
{
    if n >= 0 {
        let qq: u64 = (n as u64) / (FX_ONE as u64);
        proof {
            assert((n as int) / (FX_ONE as int) <= n as int && 0 <= (n as int) / (
            FX_ONE as int)) by {
                vstd::arithmetic::div_mod::lemma_div_is_ordered_by_denominator(
                    n as int,
                    1,
                    FX_ONE as int,
                );
                vstd::arithmetic::div_mod::lemma_div_basics_1(n as int);
                vstd::arithmetic::div_mod::lemma_div_pos_is_pos(n as int, FX_ONE as int);
            }
            vstd::arithmetic::div_mod::lemma_div_is_ordered(
                n as int,
                0x7000_0000_0000_0000,
                FX_ONE as int,
            );
        }
        qq as i64
    } else {
        let m: u64 = (-n) as u64;
        let qq: u64 = (m + (FX_ONE as u64 - 1)) / (FX_ONE as u64);
        proof {
            lemma_neg_ceil(n as int, FX_ONE as int);
            let t = -(n as int) + FX_ONE as int - 1;
            assert(t / (FX_ONE as int) <= t && 0 <= t / (FX_ONE as int)) by {
                vstd::arithmetic::div_mod::lemma_div_is_ordered_by_denominator(
                    t,
                    1,
                    FX_ONE as int,
                );
                vstd::arithmetic::div_mod::lemma_div_basics_1(t);
                vstd::arithmetic::div_mod::lemma_div_pos_is_pos(t, FX_ONE as int);
            }
            vstd::arithmetic::div_mod::lemma_div_is_ordered(
                t,
                0x7000_0000_0000_0000 + FX_ONE as int,
                FX_ONE as int,
            );
        }
        -(qq as i64)
    }
}

/// For a negative dividend and positive divisor, the negated ceiling of the
/// magnitudes equals the Euclidean (floor) quotient.
proof fn lemma_neg_ceil(n: int, d: int)
    requires
        d > 0,
        n < 0,
    ensures
        -(((-n) + d - 1) / d) == n / d,
{
    vstd::arithmetic::div_mod::lemma_fundamental_div_mod(n, d);
    let q = n / d;
    let r = n % d;
    if r == 0 {
        assert((-n) + d - 1 == (-q) * d + (d - 1)) by (nonlinear_arith)
            requires
                n == d * q + r,
                r == 0,
        ;
        vstd::arithmetic::div_mod::lemma_fundamental_div_mod_converse_div(
            (-n) + d - 1,
            d,
            -q,
            d - 1,
        );
    } else {
        assert((-n) + d - 1 == (-q) * d + (d - r - 1)) by (nonlinear_arith)
            requires
                n == d * q + r,
        ;
        vstd::arithmetic::div_mod::lemma_fundamental_div_mod_converse_div(
            (-n) + d - 1,
            d,
            -q,
            d - r - 1,
        );
    }
}

/// The product of two in-range raw values stays well inside the i128 range.
proof fn lemma_raw_product_in_range(a: int, b: int)
    requires
        -(FX_MAX_RAW as int) <= a <= FX_MAX_RAW as int,
        -(FX_MAX_RAW as int) <= b <= FX_MAX_RAW as int,
    ensures
        -(0x4000_0000_0000_0000_0000_0000_0000_0000int) < a * b,
        a * b < 0x4000_0000_0000_0000_0000_0000_0000_0000int,
{
    assert(-(0x4000_0000_0000_0000_0000_0000_0000_0000int) < a * b
        < 0x4000_0000_0000_0000_0000_0000_0000_0000int) by (nonlinear_arith)
        requires
            -(0x4000_0000_0000_0000i64 as int) <= a <= 0x4000_0000_0000_0000i64 as int,
            -(0x4000_0000_0000_0000i64 as int) <= b <= 0x4000_0000_0000_0000i64 as int,
    ;
}

/// Saturate an i128 intermediate into the raw scalar range.
pub(crate) fn clamp_i128(v: i128) -> (r: i64)
    ensures
        r as int == fx_clip(v as int),
        -(FX_MAX_RAW as int) <= r as int <= FX_MAX_RAW as int,
{
    if v > FX_MAX_RAW as i128 {
        FX_MAX_RAW
    } else if v < -(FX_MAX_RAW as i128) {
        -FX_MAX_RAW
    } else {
        v as i64
    }
}

/// Divide an i128 by a positive divisor, rounding toward zero.
pub(crate) fn tdiv_i128_by(n: i128, d: u128) -> (q: i128)
    requires
        0 < d,
        -(0x4000_0000_0000_0000_0000_0000_0000_0000i128 as int) < n as int,
    ensures
        q as int == tdiv(n as int, d as int),
{
    if n >= 0 {
        let m: u128 = n as u128;
        let qq: u128 = m / d;
        proof {
            assert(qq as int == (n as int) / (d as int));
            assert((n as int) / (d as int) <= n as int) by {
                vstd::arithmetic::div_mod::lemma_div_is_ordered_by_denominator(
                    n as int,
                    1,
                    d as int,
                );
                vstd::arithmetic::div_mod::lemma_div_basics_1(n as int);
            }
            assert((n as int) / (d as int) >= 0) by {
                vstd::arithmetic::div_mod::lemma_div_pos_is_pos(n as int, d as int);
            }
        }
        qq as i128
    } else {
        let m: u128 = (-n) as u128;
        let qq: u128 = m / d;
        proof {
            assert(qq as int == (-(n as int)) / (d as int));
            assert((-(n as int)) / (d as int) <= -(n as int)) by {
                vstd::arithmetic::div_mod::lemma_div_is_ordered_by_denominator(
                    -(n as int),
                    1,
                    d as int,
                );
                vstd::arithmetic::div_mod::lemma_div_basics_1(-(n as int));
            }
            assert((-(n as int)) / (d as int) >= 0) by {
                vstd::arithmetic::div_mod::lemma_div_pos_is_pos(-(n as int), d as int);
            }
        }
        -(qq as i128)
    }
}

} // verus!
