//! Fixed-point numbers with six decimal places.
//!
//! Every length, speed, angle and duration of the simulation is a [`Scalar`]:
//! a whole number of millionths. Arithmetic never wraps and never fails. A
//! result that would leave the range of `i64` stops at the nearest end of it,
//! and a product is rounded toward zero.

use vstd::prelude::*;

verus! {

/// How many millionths make one unit.
pub const SCALE: i64 = 1_000_000;

/// The nearest value to `x` that an `i64` can hold.
pub open spec fn saturate(x: int) -> int {
    if x < i64::MIN {
        i64::MIN as int
    } else if x > i64::MAX {
        i64::MAX as int
    } else {
        x
    }
}

/// The quotient of `p` by a positive `d`, rounded toward zero.
pub open spec fn trunc_div(p: int, d: int) -> int {
    if p >= 0 {
        p / d
    } else {
        -((-p) / d)
    }
}

/// The product of two numbers of millionths, in millionths, rounded toward zero.
pub open spec fn scaled_product(a: int, b: int) -> int {
    trunc_div(a * b, SCALE as int)
}

/// A number of millionths.
#[derive(Clone, Copy, Debug, PartialEq, Eq, Structural)]
pub struct Scalar {
    pub micros: i64,
}

impl View for Scalar {
    type V = int;

    /// The number of millionths, as a mathematical integer.
    open spec fn view(&self) -> int {
        self.micros as int
    }
}

/// A product of two bounded factors is bounded by the product of the bounds.
pub proof fn lemma_product_bound(a: int, b: int, m: int, n: int)
    requires
        -m <= a <= m,
        -n <= b <= n,
    ensures
        -(m * n) <= a * b <= m * n,
{
    assert(-(m * n) <= a * b <= m * n) by (nonlinear_arith)
        requires
            -m <= a <= m,
            -n <= b <= n,
    ;
}

/// Rounding toward zero undoes a multiplication by the divisor.
pub proof fn lemma_trunc_div_of_multiple(x: int, d: int)
    requires
        d > 0,
    ensures
        trunc_div(x * d, d) == x,
{
    if x >= 0 {
        assert(x * d >= 0 && (x * d) / d == x) by (nonlinear_arith)
            requires
                x >= 0,
                d > 0,
        ;
    } else {
        assert(x * d < 0 && (-(x * d)) / d == -x) by (nonlinear_arith)
            requires
                x < 0,
                d > 0,
        ;
    }
}

/// A share `t / d` of `x`, with `0 <= t <= d`, lies between zero and `x`.
pub proof fn lemma_trunc_div_share(x: int, t: int, d: int)
    requires
        d > 0,
        0 <= t <= d,
    ensures
        x >= 0 ==> 0 <= trunc_div(x * t, d) <= x,
        x <= 0 ==> x <= trunc_div(x * t, d) <= 0,
        t == 0 ==> trunc_div(x * t, d) == 0,
{
    if x >= 0 {
        assert(x * t >= 0 && 0 <= (x * t) / d <= x) by (nonlinear_arith)
            requires
                x >= 0,
                d > 0,
                0 <= t <= d,
        ;
    }
    if x <= 0 {
        assert(x * t <= 0 && 0 <= (-(x * t)) / d <= -x) by (nonlinear_arith)
            requires
                x <= 0,
                d > 0,
                0 <= t <= d,
        ;
        assert(x * t == 0 ==> (x * t) / d == 0);
    }
    if t == 0 {
        assert(x * t == 0) by (nonlinear_arith)
            requires
                t == 0,
        ;
    }
}

impl Scalar {
    /// The scalar nearest to `x` millionths.
    pub open spec fn saturated(x: int) -> Scalar {
        Scalar { micros: saturate(x) as i64 }
    }

    /// The sum, held within the range of `i64`.
    pub open spec fn spec_plus(self, other: Scalar) -> Scalar {
        Scalar::saturated(self@ + other@)
    }

    /// The difference, held within the range of `i64`.
    pub open spec fn spec_minus(self, other: Scalar) -> Scalar {
        Scalar::saturated(self@ - other@)
    }

    /// The product, rounded toward zero and held within the range of `i64`.
    pub open spec fn spec_times(self, other: Scalar) -> Scalar {
        Scalar::saturated(scaled_product(self@, other@))
    }

    /// `self` where it lies between `low` and `high`, else the nearer of the
    /// two. A value below `low` gives `low` whatever `high` is.
    pub open spec fn spec_clamp(self, low: Scalar, high: Scalar) -> Scalar {
        if self@ < low@ {
            low
        } else if self@ > high@ {
            high
        } else {
            self
        }
    }

    /// The point that lies the share `t` of the way from `self` to `to`.
    ///
    /// The step `(to - self) * t` is computed without any loss before it is
    /// rounded toward zero; only the end result is held within the range.
    pub open spec fn spec_lerp(self, to: Scalar, t: Scalar) -> Scalar {
        Scalar::saturated(self@ + scaled_product(to@ - self@, t@))
    }

    /// The scalar of `micros` millionths.
    pub fn new(micros: i64) -> (r: Scalar)
        ensures
            r@ == micros,
    {
        Scalar { micros }
    }

    /// The scalar that stands for the whole number `units`.
    pub fn from_units(units: i32) -> (r: Scalar)
        ensures
            r@ == units * SCALE,
    {
        let wide: i64 = units as i64;
        Scalar { micros: wide * SCALE }
    }

    /// Zero.
    pub fn zero() -> (r: Scalar)
        ensures
            r@ == 0,
    {
        Scalar { micros: 0 }
    }

    /// Brings a wide intermediate result back into the range of `i64`.
    fn narrow(wide: i128) -> (r: Scalar)
        ensures
            r == Scalar::saturated(wide as int),
    {
        if wide < i64::MIN as i128 {
            Scalar { micros: i64::MIN }
        } else if wide > i64::MAX as i128 {
            Scalar { micros: i64::MAX }
        } else {
            Scalar { micros: wide as i64 }
        }
    }

    /// Adds `other`, stopping at the ends of the range.
    #[verifier::when_used_as_spec(spec_plus)]
    pub fn plus(self, other: Scalar) -> (r: Scalar)
        ensures
            r == self.spec_plus(other),
            r@ == saturate(self@ + other@),
    {
        Scalar::narrow(self.micros as i128 + other.micros as i128)
    }

    /// Subtracts `other`, stopping at the ends of the range.
    #[verifier::when_used_as_spec(spec_minus)]
    pub fn minus(self, other: Scalar) -> (r: Scalar)
        ensures
            r == self.spec_minus(other),
            r@ == saturate(self@ - other@),
    {
        Scalar::narrow(self.micros as i128 - other.micros as i128)
    }

    /// Multiplies by `other`, rounding toward zero and stopping at the ends of
    /// the range.
    #[verifier::when_used_as_spec(spec_times)]
    pub fn times(self, other: Scalar) -> (r: Scalar)
        ensures
            r == self.spec_times(other),
            r@ == saturate(scaled_product(self@, other@)),
    {
        proof {
            lemma_product_bound(
                self@,
                other@,
                0x8000_0000_0000_0000,
                0x8000_0000_0000_0000,
            );
            assert(0x8000_0000_0000_0000int * 0x8000_0000_0000_0000int
                == 0x4000_0000_0000_0000_0000_0000_0000_0000int);
        }
        let product: i128 = (self.micros as i128) * (other.micros as i128);
        Scalar::narrow(product / (SCALE as i128))
    }

    /// Holds `self` between `low` and `high`. Where `low` is above `high`,
    /// the bound that is tried first wins: `low` for a value below it.
    #[verifier::when_used_as_spec(spec_clamp)]
    pub fn clamp(self, low: Scalar, high: Scalar) -> (r: Scalar)
        ensures
            r == self.spec_clamp(low, high),
            low@ <= high@ ==> low@ <= r@ <= high@,
    {
        if self.micros < low.micros {
            low
        } else if self.micros > high.micros {
            high
        } else {
            self
        }
    }

    /// Moves the share `t` of the way from `self` toward `to`.
    #[verifier::when_used_as_spec(spec_lerp)]
    pub fn lerp(self, to: Scalar, t: Scalar) -> (r: Scalar)
        ensures
            r == self.spec_lerp(to, t),
            r@ == saturate(self@ + scaled_product(to@ - self@, t@)),
    {
        let span: i128 = to.micros as i128 - self.micros as i128;
        proof {
            lemma_product_bound(
                span as int,
                t@,
                0xffff_ffff_ffff_ffff,
                0x8000_0000_0000_0000,
            );
            assert(0xffff_ffff_ffff_ffffint * 0x8000_0000_0000_0000int
                == 0x7fff_ffff_ffff_ffff_8000_0000_0000_0000int);
        }
        let step: i128 = (span * (t.micros as i128)) / (SCALE as i128);
        Scalar::narrow(self.micros as i128 + step)
    }
}

/// The whole of the way from `from` to `to` ends at `to`.
pub proof fn lemma_lerp_whole(from: Scalar, to: Scalar)
    ensures
        from.lerp(to, Scalar { micros: SCALE }) == to,
{
    lemma_trunc_div_of_multiple(to@ - from@, SCALE as int);
}

/// A share of the way from `from` to `to` ends between the two, no further
/// from `from` than the share allows, and nowhere else than at `from` if the
/// share is nothing.
pub proof fn lemma_lerp_share(from: Scalar, to: Scalar, t: Scalar)
    requires
        0 <= t@ <= SCALE,
    ensures
        from@ <= to@ ==> from@ <= from.lerp(to, t)@ <= to@,
        from@ >= to@ ==> from@ >= from.lerp(to, t)@ >= to@,
        from@ <= to@ ==> (from.lerp(to, t)@ - from@) * SCALE <= (to@ - from@) * t@,
        from@ >= to@ ==> (from@ - from.lerp(to, t)@) * SCALE <= (from@ - to@) * t@,
        t@ == 0 ==> from.lerp(to, t) == from,
{
    let span = to@ - from@;
    lemma_trunc_div_share(span, t@, SCALE as int);
    let step = scaled_product(span, t@);
    if span >= 0 {
        assert(span * t@ >= 0) by (nonlinear_arith)
            requires
                span >= 0,
                t@ >= 0,
        ;
        assert(step * SCALE <= span * t@);
    } else {
        assert(-(span * t@) == (-span) * t@ && span * t@ <= 0) by (nonlinear_arith)
            requires
                span < 0,
                t@ >= 0,
        ;
        assert((-step) * SCALE <= (-span) * t@);
    }
}

} // verus!
