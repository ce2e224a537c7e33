//! Scale factors as exact ratios, and the conversions between logical units
//! and device pixels.

use vstd::prelude::*;

verus! {

/// The quotient of `a` by a positive `b`, cut toward zero.
pub open spec fn quotient_toward_zero(a: int, b: int) -> int {
    if a >= 0 {
        a / b
    } else {
        -((-a) / b)
    }
}

/// `v` held to the range of `i32`.
pub open spec fn clamp_i32(v: int) -> int {
    if v < i32::MIN {
        i32::MIN as int
    } else if v > i32::MAX {
        i32::MAX as int
    } else {
        v
    }
}

/// `v` held to the range of `u32`.
pub open spec fn clamp_u32(v: int) -> int {
    if v < 0 {
        0
    } else if v > u32::MAX {
        u32::MAX as int
    } else {
        v
    }
}

/// Scaling by a whole factor `k` and back gives the value again, however the
/// factor is written (`k / 1`, or `2 k / 2`, and so on).
pub proof fn lemma_scale_round_trip(s: ScaleFactor, k: int, v: int)
    requires
        s.valid(),
        k >= 1,
        s.numer() == k * s.denom(),
    ensures
        s.times(v) == v * k,
        s.divides(s.times(v)) == v,
{
    let n = s.numer();
    let d = s.denom();
    lemma_whole_quotient(v * k, d);
    assert(v * n == (v * k) * d) by (nonlinear_arith)
        requires
            n == k * d,
    ;
    assert(s.times(v) == v * k);
    lemma_whole_quotient(v, n);
    assert((v * k) * d == v * n) by (nonlinear_arith)
        requires
            n == k * d,
    ;
}

/// A multiple of a positive number, divided by that number and cut toward
/// zero, is the other factor.
proof fn lemma_whole_quotient(q: int, d: int)
    requires
        d > 0,
    ensures
        quotient_toward_zero(q * d, d) == q,
{
    if q >= 0 {
        assert(q * d >= 0 && (q * d) / d == q) by (nonlinear_arith)
            requires
                q >= 0,
                d > 0,
        ;
    } else {
        assert(q * d < 0 && (-(q * d)) / d == -q) by (nonlinear_arith)
            requires
                q < 0,
                d > 0,
        ;
    }
}

/// A positive ratio `numer / denom`: device pixels per logical unit for a
/// display, or the share of a display that a window is to cover.
#[derive(Clone, Copy, Debug, PartialEq, Eq, Structural)]
pub struct ScaleFactor {
    num: u16,
    den: u16,
}

impl ScaleFactor {
    #[verifier::type_invariant]
    spec fn positive(self) -> bool {
        self.num > 0 && self.den > 0
    }

    /// The ratio's numerator.
    pub closed spec fn numer(self) -> int {
        self.num as int
    }

    /// The ratio's denominator.
    pub closed spec fn denom(self) -> int {
        self.den as int
    }

    /// Both parts are positive and fit the fields. Every value that executable
    /// code holds is valid; a proof about an arbitrary ratio asks for it.
    pub open spec fn valid(self) -> bool {
        &&& 0 < self.numer() <= u16::MAX
        &&& 0 < self.denom() <= u16::MAX
    }

    /// `v` times the ratio, cut toward zero.
    pub open spec fn times(self, v: int) -> int {
        quotient_toward_zero(v * self.numer(), self.denom())
    }

    /// `v` divided by the ratio, cut toward zero.
    pub open spec fn divides(self, v: int) -> int {
        quotient_toward_zero(v * self.denom(), self.numer())
    }

    /// The ratio `num / den`, if both parts are positive.
    pub fn new(num: u16, den: u16) -> (r: Option<ScaleFactor>)
        ensures
            r is Some <==> num > 0 && den > 0,
            r matches Some(s) ==> s.numer() == num && s.denom() == den && s.valid(),
    {
        if num > 0 && den > 0 {
            Some(ScaleFactor { num, den })
        } else {
            None
        }
    }

    /// The ratio 1 / 1.
    pub fn one() -> (s: ScaleFactor)
        ensures
            s.numer() == 1,
            s.denom() == 1,
            s.valid(),
    {
        ScaleFactor { num: 1, den: 1 }
    }

    /// The numerator.
    pub fn numerator(&self) -> (n: u16)
        ensures
            n == self.numer(),
            n > 0,
    {
        proof {
            use_type_invariant(self);
        }
        self.num
    }

    /// The denominator.
    pub fn denominator(&self) -> (d: u16)
        ensures
            d == self.denom(),
            d > 0,
    {
        proof {
            use_type_invariant(self);
        }
        self.den
    }

    /// `v * numer / denom` on magnitudes. The product cannot overflow.
    fn magnitude_times(&self, v: u64) -> (r: u128)
        ensures
            self.valid(),
            r == (v * self.numer()) / self.denom(),
            r <= v * self.numer(),
    {
        proof {
            use_type_invariant(self);
        }
        let n: u128 = self.num as u128;
        let d: u128 = self.den as u128;
        assert(v * n <= 0xffff_ffff_ffff_ffff * 0xffff) by (nonlinear_arith)
            requires
                0 <= v <= 0xffff_ffff_ffff_ffff,
                0 <= n <= 0xffff,
        ;
        let p: u128 = (v as u128) * n;
        assert(p / d <= p) by (nonlinear_arith)
            requires
                p >= 0,
                d >= 1,
        ;
        p / d
    }

    /// `v * denom / numer` on magnitudes. The product cannot overflow.
    fn magnitude_divided(&self, v: u64) -> (r: u128)
        ensures
            self.valid(),
            r == (v * self.denom()) / self.numer(),
            r <= v * self.denom(),
    {
        proof {
            use_type_invariant(self);
        }
        let n: u128 = self.num as u128;
        let d: u128 = self.den as u128;
        assert(v * d <= 0xffff_ffff_ffff_ffff * 0xffff) by (nonlinear_arith)
            requires
                0 <= v <= 0xffff_ffff_ffff_ffff,
                0 <= d <= 0xffff,
        ;
        let p: u128 = (v as u128) * d;
        assert(p / n <= p) by (nonlinear_arith)
            requires
                p >= 0,
                n >= 1,
        ;
        p / n
    }

    /// A logical coordinate in device pixels: `v` times the ratio, cut toward
    /// zero and held to the range of `i32`.
    pub fn position_to_physical(&self, v: i64) -> (r: i32)
        ensures
            r == clamp_i32(self.times(v as int)),
    {
        if v >= 0 {
            let q: u128 = self.magnitude_times(v as u64);
            assert((v as u64) * self.numer() == v * self.numer());
            if q > i32::MAX as u128 {
                i32::MAX
            } else {
                q as i32
            }
        } else {
            let m: u64 = (-(v as i128)) as u64;
            let q: u128 = self.magnitude_times(m);
            assert(m * self.numer() == -(v * self.numer())) by (nonlinear_arith)
                requires
                    m == -v,
            ;
            assert(v * self.numer() <= 0) by (nonlinear_arith)
                requires
                    v < 0,
                    self.numer() > 0,
            ;
            if q > 0x8000_0000u128 {
                i32::MIN
            } else {
                (-(q as i64)) as i32
            }
        }
    }

    /// A logical extent in device pixels: `v` times the ratio, cut toward zero
    /// and held to the range of `u32`.
    pub fn extent_to_physical(&self, v: u32) -> (r: u32)
        ensures
            r == clamp_u32(self.times(v as int)),
    {
        let q: u128 = self.magnitude_times(v as u64);
        assert((v as u64) * self.numer() == v * self.numer());
        assert(v * self.numer() >= 0) by (nonlinear_arith)
            requires
                v >= 0,
                self.numer() > 0,
        ;
        if q > u32::MAX as u128 {
            u32::MAX
        } else {
            q as u32
        }
    }

    /// A device-pixel coordinate in logical units: `v` divided by the ratio,
    /// cut toward zero. The result always fits.
    pub fn position_to_logical(&self, v: i32) -> (r: i64)
        ensures
            r == self.divides(v as int),
            -0x8000_0000_0000 <= r <= 0x8000_0000_0000,
    {
        if v >= 0 {
            let q: u128 = self.magnitude_divided(v as u64);
            assert((v as u64) * self.denom() == v * self.denom());
            assert(v * self.denom() <= 0x8000_0000 * 0x1_0000) by (nonlinear_arith)
                requires
                    0 <= v <= 0x8000_0000,
                    0 < self.denom() <= 0x1_0000,
            ;
            q as i64
        } else {
            let m: u32 = (-(v as i64)) as u32;
            let q: u128 = self.magnitude_divided(m as u64);
            assert((m as u64) * self.denom() == -(v * self.denom())) by (nonlinear_arith)
                requires
                    m == -v,
            ;
            assert(v * self.denom() <= 0) by (nonlinear_arith)
                requires
                    v < 0,
                    self.denom() > 0,
            ;
            assert(m * self.denom() <= 0x8000_0000 * 0x1_0000) by (nonlinear_arith)
                requires
                    0 <= m <= 0x8000_0000,
                    0 < self.denom() <= 0x1_0000,
            ;
            -(q as i64)
        }
    }

    /// A device-pixel extent in logical units: `v` divided by the ratio, cut
    /// toward zero and held to the range of `u32`.
    pub fn extent_to_logical(&self, v: u32) -> (r: u32)
        ensures
            r == clamp_u32(self.divides(v as int)),
    {
        let q: u128 = self.magnitude_divided(v as u64);
        assert((v as u64) * self.denom() == v * self.denom());
        assert(v * self.denom() >= 0) by (nonlinear_arith)
            requires
                v >= 0,
                self.denom() > 0,
        ;
        if q > u32::MAX as u128 {
            u32::MAX
        } else {
            q as u32
        }
    }
}

} // verus!
