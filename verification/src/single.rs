//! Single- and double-precision numbers kept as bit patterns.
//!
//! The engine's numbers are IEEE 754 singles. This module knows what such a pattern means (its
//! sign, its order, its exact value) and everything about it that needs no rounding arithmetic:
//! comparisons, clamping, exact conversions from and to integers, and the nearest single to a
//! decimal constant. Sums, products and the transcendental functions are left to whoever owns a
//! floating-point unit; see [`crate::arith`].
use vstd::arithmetic::power2::{lemma_pow2_adds, lemma_pow2_pos, lemma_pow2_strictly_increases, lemma_pow2_unfold, pow2};
use vstd::prelude::*;

verus! {

/// Patterns of the numbers used all over the engine.
pub const ZERO: u32 = 0;

pub const HALF: u32 = 0x3f00_0000;

pub const ONE: u32 = 0x3f80_0000;

pub const TWO: u32 = 0x4000_0000;

pub const THREE: u32 = 0x4040_0000;

/// The circle constants, rounded to singles.
pub const PI: u32 = 0x4049_0fdb;

pub const TAU: u32 = 0x40c9_0fdb;

/// First magnitude that is no finite number: the pattern of infinity.
pub const INFINITE: u32 = 0x7f80_0000;

/// Weight of the sign bit.
pub const SIGN: u32 = 0x8000_0000;

/// Number of patterns that share one exponent.
pub const FRACTIONS: u32 = 0x0080_0000;

/// An IEEE 754 single-precision number, kept as its bit pattern. `==` compares patterns; the
/// numeric comparisons are [`Single::lt`] and [`Single::le`].
#[derive(Clone, Copy, Debug, PartialEq, Eq, Structural)]
pub struct Single {
    pub bits: u32,
}

impl Single {
    pub open spec fn negative(self) -> bool {
        self.bits >= SIGN
    }

    /// The pattern without its sign.
    pub open spec fn magnitude(self) -> int {
        if self.bits >= SIGN {
            self.bits - SIGN
        } else {
            self.bits as int
        }
    }

    pub open spec fn nan(self) -> bool {
        self.magnitude() > INFINITE
    }

    pub open spec fn finite(self) -> bool {
        self.magnitude() < INFINITE
    }

    /// Position on the number line of everything that is no NaN; both zeros are at 0.
    pub open spec fn order(self) -> int {
        if self.bits >= SIGN {
            -self.magnitude()
        } else {
            self.magnitude()
        }
    }

    /// Numeric `<`: false as soon as a NaN takes part.
    pub open spec fn below(self, other: Single) -> bool {
        !self.nan() && !other.nan() && self.order() < other.order()
    }

    /// Numeric `<=`: false as soon as a NaN takes part.
    pub open spec fn at_most(self, other: Single) -> bool {
        !self.nan() && !other.nan() && self.order() <= other.order()
    }

    /// Exact absolute value of a finite number, in units of the smallest positive single.
    pub open spec fn units(self) -> nat {
        let exponent = self.magnitude() / FRACTIONS as int;
        let fraction = self.magnitude() % FRACTIONS as int;
        if exponent == 0 {
            fraction as nat
        } else {
            ((fraction + FRACTIONS) * pow2((exponent - 1) as nat)) as nat
        }
    }

    /// Exact value of a finite number times 2^149.
    pub open spec fn value(self) -> int {
        if self.bits >= SIGN {
            -(self.units() as int)
        } else {
            self.units() as int
        }
    }

    pub open spec fn negated(self) -> Single {
        Single { bits: (if self.bits >= SIGN { self.bits - SIGN } else { self.bits + SIGN }) as u32 }
    }

    pub open spec fn absolute(self) -> Single {
        Single { bits: self.magnitude() as u32 }
    }

    /// The larger of two numbers; a NaN gives way to the other one.
    pub open spec fn larger(self, other: Single) -> Single {
        if self.nan() || self.below(other) {
            other
        } else {
            self
        }
    }

    /// The smaller of two numbers; a NaN gives way to the other one.
    pub open spec fn smaller(self, other: Single) -> Single {
        if self.nan() || other.below(self) {
            other
        } else {
            self
        }
    }

    /// Nearest number within `lo..=hi`; NaN stays NaN.
    pub open spec fn within(self, lo: Single, hi: Single) -> Single {
        if self.below(lo) {
            lo
        } else if hi.below(self) {
            hi
        } else {
            self
        }
    }

    /// The magnitude of one number with the sign of another.
    pub open spec fn signed_as(self, other: Single) -> Single {
        if other.negative() {
            self.absolute().negated()
        } else {
            self.absolute()
        }
    }

    /// The number with a pattern.
    #[verifier::allow_in_spec]
    pub fn of(bits: u32) -> Single
        returns
            (Single { bits }),
    {
        Single { bits }
    }

    /// Zero, of either sign.
    pub open spec fn zero(self) -> bool {
        self.magnitude() == 0
    }

    pub fn is_zero(self) -> (r: bool)
        ensures
            r == self.zero(),
    {
        self.bits == ZERO || self.bits == SIGN
    }

    pub fn copysign(self, other: Single) -> (r: Single)
        ensures
            r == self.signed_as(other),
    {
        if other.bits >= SIGN {
            self.abs().neg()
        } else {
            self.abs()
        }
    }

    pub fn is_nan(self) -> (r: bool)
        ensures
            r == self.nan(),
    {
        (if self.bits >= SIGN { self.bits - SIGN } else { self.bits }) > INFINITE
    }

    pub fn is_finite(self) -> (r: bool)
        ensures
            r == self.finite(),
    {
        (if self.bits >= SIGN { self.bits - SIGN } else { self.bits }) < INFINITE
    }

    /// Signed position on the number line.
    fn position(self) -> (r: i64)
        ensures
            r == self.order(),
    {
        if self.bits >= SIGN {
            -((self.bits - SIGN) as i64)
        } else {
            self.bits as i64
        }
    }

    pub fn lt(self, other: Single) -> (r: bool)
        ensures
            r == self.below(other),
    {
        !self.is_nan() && !other.is_nan() && self.position() < other.position()
    }

    pub fn le(self, other: Single) -> (r: bool)
        ensures
            r == self.at_most(other),
    {
        !self.is_nan() && !other.is_nan() && self.position() <= other.position()
    }

    pub fn neg(self) -> (r: Single)
        ensures
            r == self.negated(),
    {
        Single { bits: if self.bits >= SIGN { self.bits - SIGN } else { self.bits + SIGN } }
    }

    pub fn abs(self) -> (r: Single)
        ensures
            r == self.absolute(),
    {
        Single { bits: if self.bits >= SIGN { self.bits - SIGN } else { self.bits } }
    }

    pub fn max(self, other: Single) -> (r: Single)
        ensures
            r == self.larger(other),
    {
        if self.is_nan() || self.lt(other) {
            other
        } else {
            self
        }
    }

    pub fn min(self, other: Single) -> (r: Single)
        ensures
            r == self.smaller(other),
    {
        if self.is_nan() || other.lt(self) {
            other
        } else {
            self
        }
    }

    /// The nearest number between the bounds; the lower bound counts first.
    pub fn clamp(self, lo: Single, hi: Single) -> (r: Single)
        ensures
            r == self.within(lo, hi),
    {
        if self.lt(lo) {
            lo
        } else if hi.lt(self) {
            hi
        } else {
            self
        }
    }
}

/// Larger patterns of finite numbers of one sign mean strictly larger values.
proof fn lemma_units_increase(a: Single, b: Single)
    requires
        a.finite(),
        b.finite(),
        a.magnitude() < b.magnitude(),
    ensures
        a.units() < b.units(),
{
    let (ea, eb) = (a.magnitude() / FRACTIONS as int, b.magnitude() / FRACTIONS as int);
    let (fa, fb) = (a.magnitude() % FRACTIONS as int, b.magnitude() % FRACTIONS as int);
    assert(ea <= eb);
    if eb > 0 {
        lemma_pow2_pos((eb - 1) as nat);
        let pb = pow2((eb - 1) as nat) as int;
        assert((fb + FRACTIONS) * pb >= FRACTIONS * pb) by (nonlinear_arith)
            requires
                fb >= 0,
                pb > 0,
        ;
        if ea == 0 {
            assert(FRACTIONS * pb >= FRACTIONS) by (nonlinear_arith)
                requires
                    pb >= 1,
            ;
        } else if ea == eb {
            assert((fa + FRACTIONS) * pb < (fb + FRACTIONS) * pb) by (nonlinear_arith)
                requires
                    fa < fb,
                    pb > 0,
            ;
        } else {
            let pa = pow2((ea - 1) as nat) as int;
            lemma_pow2_pos((ea - 1) as nat);
            lemma_pow2_unfold(ea as nat);
            if ea < eb - 1 {
                lemma_pow2_strictly_increases(ea as nat, (eb - 1) as nat);
            }
            assert(2 * pa <= pb);
            assert((fa + FRACTIONS) * pa < FRACTIONS * pb) by (nonlinear_arith)
                requires
                    fa < FRACTIONS,
                    pa > 0,
                    2 * pa <= pb,
            ;
        }
    }
}

/// Comparing patterns is comparing values: for finite numbers the numeric order of the
/// engine is the order of the exact values.
pub proof fn lemma_order_is_value_order(a: Single, b: Single)
    requires
        a.finite(),
        b.finite(),
    ensures
        a.below(b) <==> a.value() < b.value(),
        a.at_most(b) <==> a.value() <= b.value(),
{
    if a.magnitude() < b.magnitude() {
        lemma_units_increase(a, b);
    } else if b.magnitude() < a.magnitude() {
        lemma_units_increase(b, a);
    }
    let zero = Single { bits: 0 };
    assert(zero.units() == 0);
    if a.magnitude() > 0 {
        lemma_units_increase(zero, a);
    }
    if b.magnitude() > 0 {
        lemma_units_increase(zero, b);
    }
}

/// A clamped number lies within the bounds it was clamped to.
pub proof fn lemma_within_bounds(x: Single, lo: Single, hi: Single)
    requires
        lo.at_most(hi),
        !x.nan(),
    ensures
        lo.at_most(x.within(lo, hi)),
        x.within(lo, hi).at_most(hi),
        lo.at_most(x) && x.at_most(hi) ==> x.within(lo, hi) == x,
        x.within(lo, hi).within(lo, hi) == x.within(lo, hi),
{
}

/// Pattern of the normal number with the given significand (2^23..2^24) and exponent field.
pub open spec fn packed(significand: int, exponent: int) -> Single {
    Single { bits: (exponent * FRACTIONS + (significand - FRACTIONS)) as u32 }
}

fn pack(significand: u32, exponent: u32) -> (r: Single)
    requires
        FRACTIONS <= significand < 2 * FRACTIONS,
        1 <= exponent <= 254,
    ensures
        r == packed(significand as int, exponent as int),
        r.finite(),
        !r.negative(),
        r.units() == significand * pow2((exponent - 1) as nat),
{
    let r = Single { bits: exponent * FRACTIONS + (significand - FRACTIONS) };
    proof {
        assert(r.magnitude() / FRACTIONS as int == exponent);
        assert(r.magnitude() % FRACTIONS as int == significand - FRACTIONS);
    }
    r
}

/// Halving steps that bring `num / den` below 2^24.
pub open spec fn shrink(num: nat, den: nat, exponent: int) -> (nat, int)
    decreases num - den,
{
    if den > 0 && num >= 0x0100_0000 * den {
        shrink(num, 2 * den, exponent + 1)
    } else {
        (den, exponent)
    }
}

/// Doubling steps that bring `num / den` to 2^23 or more.
pub open spec fn grow(num: nat, den: nat, exponent: int) -> (nat, int)
    decreases 0x0100_0000 * den - num,
{
    if num > 0 && num < 0x0080_0000 * den {
        grow(2 * num, den, exponent - 1)
    } else {
        (num, exponent)
    }
}

/// Integer nearest to `num / den`, the even one of two that are equally near.
pub open spec fn round_even(num: nat, den: nat) -> nat {
    let (q, r) = (num / den, num % den);
    if 2 * r > den || (2 * r == den && q % 2 == 1) {
        q + 1
    } else {
        q
    }
}

/// The single nearest to `num / den` (ties to even), for positive quotients of ordinary size.
pub open spec fn nearest(num: nat, den: nat) -> Single {
    let (d, up) = shrink(num, den, 150);
    let (n, exponent) = grow(num, d, up);
    let q = round_even(n, d);
    if q == 2 * FRACTIONS {
        packed(FRACTIONS as int, exponent + 1)
    } else {
        packed(q as int, exponent)
    }
}

pub open spec fn ten_to(places: nat) -> nat
    decreases places,
{
    if places == 0 {
        1
    } else {
        10 * ten_to((places - 1) as nat)
    }
}

/// The single nearest to the decimal constant `num / 10^places`.
pub open spec fn decimal(num: nat, places: nat) -> Single {
    if num == 0 {
        Single { bits: ZERO }
    } else {
        nearest(num, ten_to(places))
    }
}

fn nearest_single(num: u64, den: u64) -> (r: Single)
    requires
        0 < num < 0x1_0000_0000,
        0 < den < 0x1_0000_0000,
    ensures
        r == nearest(num as nat, den as nat),
        r.finite(),
        !r.negative(),
{
    let mut d: u64 = den;
    let mut up: u32 = 150;
    assert(pow2(0) == 1) by {
        vstd::arithmetic::power2::lemma2_to64();
    }
    assert(shrink(num as nat, d as nat, up as int) == shrink(num as nat, den as nat, 150));
    while num >= 0x0100_0000 * d
        invariant
            0 < num < 0x1_0000_0000,
            0 < d < 0x1_0000_0000,
            150 <= up <= 182,
            pow2((up - 150) as nat) <= d,
            shrink(num as nat, d as nat, up as int) == shrink(num as nat, den as nat, 150),
        decreases num - d,
    {
        proof {
            lemma_pow2_unfold((up + 1 - 150) as nat);
            if up == 182 {
                vstd::arithmetic::power2::lemma2_to64();
                assert(false);
            }
        }
        d = 2 * d;
        up = up + 1;
    }
    let mut n: u64 = num;
    let mut exponent: u32 = up;
    assert(grow(n as nat, d as nat, exponent as int) == grow(num as nat, d as nat, up as int));
    let ghost mut steps: nat = 0;
    while n < 0x0080_0000 * d
        invariant
            0 < num,
            0 < n < 0x0100_0000 * d,
            0 < d < 0x1_0000_0000,
            steps <= 55,
            exponent + steps == up,
            150 <= up <= 200,
            n == num * pow2(steps),
            grow(n as nat, d as nat, exponent as int) == grow(num as nat, d as nat, up as int),
        decreases 0x0100_0000 * d - n,
    {
        proof {
            lemma_pow2_unfold((steps + 1) as nat);
            assert(num * pow2((steps + 1) as nat) == 2 * (num * pow2(steps))) by (nonlinear_arith)
                requires
                    pow2((steps + 1) as nat) == 2 * pow2(steps),
            ;
            if steps == 55 {
                vstd::arithmetic::power2::lemma2_to64();
                lemma_pow2_adds(23, 32);
                assert(pow2(55) == 0x0080_0000_0000_0000);
                assert(num * pow2(55) >= pow2(55)) by (nonlinear_arith)
                    requires
                        num >= 1,
                        pow2(55) >= 0,
                ;
                assert(false);
            }
            steps = steps + 1;
        }
        n = 2 * n;
        exponent = exponent - 1;
    }
    let q = n / d;
    let r = n % d;
    proof {
        assert(FRACTIONS <= q < 2 * FRACTIONS) by (nonlinear_arith)
            requires
                q == n / d,
                d > 0,
                0x0080_0000 * d <= n < 0x0100_0000 * d,
        ;
    }
    let rounded = if 2 * r > d || (2 * r == d && q % 2 == 1) {
        q + 1
    } else {
        q
    };
    if rounded == 0x0100_0000 {
        pack(FRACTIONS, exponent + 1)
    } else {
        pack(rounded as u32, exponent)
    }
}

/// The single nearest to the count `n`.
pub open spec fn counted(n: nat) -> Single {
    if n == 0 {
        Single { bits: ZERO }
    } else {
        nearest(n, 1)
    }
}

/// The count `n`, as near as a single gets.
pub fn from_u64(n: u64) -> (r: Single)
    ensures
        r == counted(n as nat),
        r.finite(),
        !r.negative(),
{
    if n == 0 {
        return Single { bits: ZERO };
    }
    if n < 0x1_0000_0000 {
        return nearest_single(n, 1);
    }
    let mut d: u64 = 1;
    let mut exponent: u32 = 150;
    assert(pow2(0) == 1) by {
        vstd::arithmetic::power2::lemma2_to64();
    }
    while n / d >= 0x0100_0000
        invariant
            n >= 0x1_0000_0000,
            0 < d <= 0x100_0000_0000,
            0x0080_0000 * d <= n,
            150 <= exponent <= 190,
            d == pow2((exponent - 150) as nat),
            shrink(n as nat, d as nat, exponent as int) == shrink(n as nat, 1, 150),
        decreases n - d,
    {
        proof {
            lemma_pow2_unfold((exponent + 1 - 150) as nat);
            assert(n >= 0x0100_0000 * d) by (nonlinear_arith)
                requires
                    n / d >= 0x0100_0000,
                    d > 0,
            ;
            if exponent == 190 {
                vstd::arithmetic::power2::lemma2_to64();
                lemma_pow2_adds(20, 20);
                assert(d == 0x100_0000_0000);
                assert(false);
            }
            lemma_pow2_adds(20, 19);
            vstd::arithmetic::power2::lemma2_to64();
            if exponent < 189 {
                vstd::arithmetic::power2::lemma_pow2_strictly_increases((exponent - 150) as nat, 39);
            }
        }
        d = 2 * d;
        exponent = exponent + 1;
    }
    let q = n / d;
    let r = n % d;
    proof {
        assert(FRACTIONS <= q && n < 0x0100_0000 * d) by (nonlinear_arith)
            requires
                q == n / d,
                q < 0x0100_0000,
                d > 0,
                0x0080_0000 * d <= n,
        ;
    }
    let rounded = if 2 * r > d || (2 * r == d && q % 2 == 1) {
        q + 1
    } else {
        q
    };
    if rounded == 0x0100_0000 {
        pack(FRACTIONS, exponent + 1)
    } else {
        pack(rounded as u32, exponent)
    }
}

/// The decimal constant `num / 10^places`, as near as a single gets.
pub fn dec(num: u32, places: u32) -> (r: Single)
    requires
        places <= 6,
    ensures
        r == decimal(num as nat, places as nat),
        r.finite(),
        !r.negative(),
{
    if num == 0 {
        return Single { bits: ZERO };
    }
    let mut den: u64 = 1;
    let mut i: u32 = 0;
    while i < places
        invariant
            i <= places <= 6,
            den == ten_to(i as nat),
            0 < den,
            den * 10 <= ten_to((i + 1) as nat),
            i == 0 ==> den == 1,
            i == 1 ==> den == 10,
            i == 2 ==> den == 100,
            i == 3 ==> den == 1000,
            i == 4 ==> den == 10000,
            i == 5 ==> den == 100000,
            i == 6 ==> den == 1000000,
        decreases places - i,
    {
        den = den * 10;
        i = i + 1;
        assert(ten_to((i + 1) as nat) == 10 * ten_to(i as nat));
    }
    nearest_single(num as u64, den)
}

/// The single nearest to a number of samples, which is that number up to 2^24.
pub open spec fn sized(n: nat) -> Single {
    if n <= 0x0100_0000 {
        integer(n)
    } else {
        counted(n)
    }
}

pub fn from_size(n: usize) -> (r: Single)
    ensures
        r == sized(n as nat),
        r.finite(),
{
    if n <= 0x0100_0000 {
        exact(n as u32, 0)
    } else {
        from_u64(n as u64)
    }
}

/// The number `n / 2^shift`, which a single holds exactly.
pub fn exact(n: u32, shift: u32) -> (r: Single)
    requires
        n <= 0x0100_0000,
        shift <= 64,
    ensures
        r.finite(),
        !r.negative(),
        r.value() == n * pow2((149 - shift) as nat),
        r == with_value(n * pow2((149 - shift) as nat)),
{
    if n == 0 {
        proof {
            lemma_with_value(Single { bits: ZERO });
        }
        return Single { bits: ZERO };
    }
    if n == 0x0100_0000 {
        proof {
            lemma_pow2_unfold((150 - shift) as nat);
            assert(FRACTIONS * pow2((150 - shift) as nat) == n * pow2((149 - shift) as nat)) by (nonlinear_arith)
                requires
                    pow2((150 - shift) as nat) == 2 * pow2((149 - shift) as nat),
                    n == 2 * FRACTIONS,
            ;
        }
        let r = pack(FRACTIONS, 151 - shift);
        proof {
            lemma_pow2_pos((149 - shift) as nat);
            lemma_with_value(r);
        }
        return r;
    }
    let mut m: u32 = n;
    let mut k: u32 = 0;
    assert(pow2(0) == 1) by {
        vstd::arithmetic::power2::lemma2_to64();
    }
    while m < FRACTIONS
        invariant
            0 < n,
            0 < m < 2 * FRACTIONS,
            k <= 23,
            m == n * pow2(k as nat),
        decreases 0x0100_0000 - m,
    {
        proof {
            lemma_pow2_unfold((k + 1) as nat);
            assert(n * pow2((k + 1) as nat) == 2 * (n * pow2(k as nat))) by (nonlinear_arith)
                requires
                    pow2((k + 1) as nat) == 2 * pow2(k as nat),
            ;
            if k == 23 {
                vstd::arithmetic::power2::lemma2_to64();
                assert(n * pow2(23) >= pow2(23)) by (nonlinear_arith)
                    requires
                        n >= 1,
                        pow2(23) >= 0,
                ;
                assert(pow2(23) == 0x800000);
                assert(false);
            }
        }
        m = 2 * m;
        k = k + 1;
    }
    proof {
        lemma_pow2_adds(k as nat, (149 - shift - k) as nat);
        assert(m * pow2((149 - shift - k) as nat) == n * pow2((149 - shift) as nat)) by (nonlinear_arith)
            requires
                m == n * pow2(k as nat),
                pow2((149 - shift) as nat) == pow2(k as nat) * pow2((149 - shift - k) as nat),
        ;
    }
    let r = pack(m, 150 - shift - k);
    proof {
        lemma_pow2_pos((149 - shift - k) as nat);
        assert(r.value() > 0) by (nonlinear_arith)
            requires
                r.value() == m * pow2((149 - shift - k) as nat),
                m > 0,
                pow2((149 - shift - k) as nat) > 0,
        ;
        lemma_with_value(r);
    }
    r
}

/// One, in the units of [`Single::units`].
pub open spec fn unit() -> nat {
    pow2(149)
}

impl Single {
    /// What a saturating cast to an unsigned 64-bit integer makes of the number.
    pub open spec fn whole(self) -> int {
        if self.nan() || self.negative() {
            0
        } else if !self.finite() || self.units() / unit() > u64::MAX {
            u64::MAX as int
        } else {
            (self.units() / unit()) as int
        }
    }

    /// The nearest integer, halves rounded away from zero, saturated to 32 bits; NaN is 0.
    pub open spec fn nearest_int(self) -> int {
        let n: int = if self.nan() {
            0
        } else if !self.finite() {
            i32::MAX as int + 1
        } else {
            ((self.units() + pow2(148)) / unit()) as int
        };
        if self.negative() {
            if n > i32::MAX + 1 {
                i32::MIN as int
            } else {
                -n
            }
        } else if n > i32::MAX {
            i32::MAX as int
        } else {
            n
        }
    }

    /// Cast to an unsigned integer: cut off the fraction, saturate, NaN to 0.
    pub fn trunc(self) -> (r: u64)
        ensures
            r == self.whole(),
    {
        if self.is_nan() || self.bits >= SIGN {
            return 0;
        }
        if !self.is_finite() {
            return u64::MAX;
        }
        let exponent: u32 = self.bits / FRACTIONS;
        let significand: u64 = (self.bits % FRACTIONS) as u64 + 0x0080_0000;
        proof {
            lemma_pow2_pos(149);
        }
        if exponent < 127 {
            proof {
                lemma_small_units(self, 127);
                assert(self.units() / unit() == 0) by {
                    vstd::arithmetic::div_mod::lemma_basic_div(self.units() as int, unit() as int);
                }
            }
            0
        } else if exponent < 150 {
            let cut: u64 = (150 - exponent) as u64;
            proof {
                vstd::bits::lemma_u64_shr_is_div(significand, cut);
                lemma_shift_down(significand as nat, (exponent - 1) as nat, 149);
                lemma_pow2_pos(cut as nat);
                vstd::arithmetic::div_mod::lemma_div_nonincreasing(significand as int, pow2(cut as nat) as int);
            }
            significand >> cut
        } else {
            let rise: u64 = (exponent - 150) as u64;
            proof {
                lemma_shift_up(significand as nat, (exponent - 1) as nat, 149);
                lemma_pow2_pos(rise as nat);
            }
            if rise > 40 {
                proof {
                    lemma_pow2_adds(23, 41);
                    vstd::arithmetic::power2::lemma2_to64();
                    vstd::arithmetic::power2::lemma2_to64_rest();
                    if rise > 41 {
                        lemma_pow2_strictly_increases(41, rise as nat);
                    }
                    assert(significand * pow2(rise as nat) >= pow2(23) * pow2(41)) by (nonlinear_arith)
                        requires
                            significand >= pow2(23),
                            pow2(rise as nat) >= pow2(41),
                            pow2(23) >= 0,
                            pow2(41) >= 0,
                    ;
                }
                u64::MAX
            } else {
                proof {
                    lemma_pow2_adds(24, 40);
                    vstd::arithmetic::power2::lemma2_to64();
                    if rise < 40 {
                        lemma_pow2_strictly_increases(rise as nat, 40);
                    }
                    assert(significand * pow2(rise as nat) < pow2(24) * pow2(40)) by (nonlinear_arith)
                        requires
                            significand < pow2(24),
                            0 < pow2(rise as nat) <= pow2(40),
                    ;
                    vstd::bits::lemma_u64_shl_is_mul(significand, rise);
                }
                significand << rise
            }
        }
    }

    /// Round to the nearest integer (halves away from zero) and cast, saturating.
    pub fn round(self) -> (r: i32)
        ensures
            r == self.nearest_int(),
    {
        if self.is_nan() {
            return 0;
        }
        let size: u32 = if self.bits >= SIGN { self.bits - SIGN } else { self.bits };
        let exponent: u32 = size / FRACTIONS;
        let significand: u64 = (size % FRACTIONS) as u64 + 0x0080_0000;
        proof {
            lemma_pow2_pos(149);
            lemma_pow2_pos(148);
            lemma_pow2_unfold(149);
        }
        let n: u64 = if exponent < 126 {
            proof {
                lemma_small_units(self.absolute(), 126);
                assert((self.units() + pow2(148)) / unit() == 0) by {
                    vstd::arithmetic::div_mod::lemma_basic_div(
                        (self.units() + pow2(148)) as int,
                        unit() as int,
                    );
                }
            }
            0
        } else if exponent < 150 {
            let cut: u64 = (150 - exponent) as u64;
            let half: u64 = 1u64 << (cut - 1);
            proof {
                vstd::arithmetic::power2::lemma2_to64();
                vstd::bits::lemma_u64_shl_is_mul(1, (cut - 1) as u64);
                if cut < 25 {
                    lemma_pow2_strictly_increases((cut - 1) as nat, 24);
                }
                vstd::bits::lemma_u64_shr_is_div((significand + half) as u64, cut);
                lemma_pow2_adds((cut - 1) as nat, (exponent - 1) as nat);
                assert((significand + half) * pow2((exponent - 1) as nat) == self.units() + pow2(148)) by (nonlinear_arith)
                    requires
                        half == pow2((cut - 1) as nat),
                        pow2(148) == pow2((cut - 1) as nat) * pow2((exponent - 1) as nat),
                        self.units() == significand * pow2((exponent - 1) as nat),
                ;
                lemma_shift_down((significand + half) as nat, (exponent - 1) as nat, 149);
                lemma_pow2_pos(cut as nat);
                vstd::arithmetic::div_mod::lemma_div_nonincreasing(
                    significand + half,
                    pow2(cut as nat) as int,
                );
            }
            (significand + half) >> cut
        } else if exponent < 159 {
            let rise: u64 = (exponent - 150) as u64;
            proof {
                vstd::arithmetic::power2::lemma2_to64();
                if rise < 8 {
                    lemma_pow2_strictly_increases(rise as nat, 8);
                }
                assert(significand * pow2(rise as nat) < pow2(24) * 256) by (nonlinear_arith)
                    requires
                        significand < pow2(24),
                        0 < pow2(rise as nat) <= 256,
                ;
                vstd::bits::lemma_u64_shl_is_mul(significand, rise);
                lemma_shift_up_half(significand as nat, (exponent - 1) as nat);
            }
            significand << rise
        } else {
            proof {
                if exponent < 255 {
                    lemma_shift_up_half(significand as nat, (exponent - 1) as nat);
                    lemma_pow2_adds(23, 9);
                    vstd::arithmetic::power2::lemma2_to64();
                    if exponent > 159 {
                        lemma_pow2_strictly_increases(9, (exponent - 150) as nat);
                    }
                    assert(significand * pow2((exponent - 150) as nat) >= pow2(23) * pow2(9)) by (nonlinear_arith)
                        requires
                            significand >= pow2(23),
                            pow2((exponent - 150) as nat) >= pow2(9),
                            pow2(23) >= 0,
                            pow2(9) >= 0,
                    ;
                }
            }
            0x1_0000_0000
        };
        if self.bits >= SIGN {
            if n > 0x8000_0000 {
                i32::MIN
            } else {
                (-(n as i64)) as i32
            }
        } else if n > 0x7fff_ffff {
            i32::MAX
        } else {
            n as i32
        }
    }
}

/// A number whose exponent field is below `e` is below 2^(e+22) units.
proof fn lemma_small_units(x: Single, e: nat)
    requires
        x.finite(),
        e >= 1,
        x.magnitude() / (FRACTIONS as int) < e,
    ensures
        x.units() < pow2((e + 22) as nat),
{
    let exponent = x.magnitude() / FRACTIONS as int;
    vstd::arithmetic::power2::lemma2_to64();
    lemma_pow2_pos((e + 22) as nat);
    if exponent == 0 {
        if e > 1 {
            lemma_pow2_strictly_increases(23, (e + 22) as nat);
        }
    } else {
        let p = pow2((exponent - 1) as nat);
        lemma_pow2_pos((exponent - 1) as nat);
        lemma_pow2_adds(24, (exponent - 1) as nat);
        assert(x.units() < pow2(24) * p) by (nonlinear_arith)
            requires
                x.units() == (x.magnitude() % FRACTIONS as int + FRACTIONS) * p,
                x.magnitude() % FRACTIONS as int + FRACTIONS < pow2(24),
                p > 0,
        ;
        if exponent + 23 < e + 22 {
            lemma_pow2_strictly_increases((exponent + 23) as nat, (e + 22) as nat);
        }
    }
}

proof fn lemma_shift_down(s: nat, have: nat, want: nat)
    requires
        have <= want,
    ensures
        (s * pow2(have)) / pow2(want) == s / pow2((want - have) as nat),
{
    lemma_pow2_adds(have, (want - have) as nat);
    lemma_pow2_pos(have);
    lemma_pow2_pos((want - have) as nat);
    let (p, q) = (pow2(have) as int, pow2((want - have) as nat) as int);
    vstd::arithmetic::div_mod::lemma_div_denominator(s * p, p, q);
    assert(s * p == p * s) by (nonlinear_arith);
    vstd::arithmetic::div_mod::lemma_div_multiples_vanish(s as int, p);
}

proof fn lemma_shift_up(s: nat, have: nat, want: nat)
    requires
        want <= have,
    ensures
        (s * pow2(have)) / pow2(want) == s * pow2((have - want) as nat),
{
    lemma_pow2_adds(want, (have - want) as nat);
    lemma_pow2_pos(want);
    let (p, q) = (pow2(want) as int, pow2((have - want) as nat) as int);
    assert(s * (p * q) == p * (s * q)) by (nonlinear_arith);
    vstd::arithmetic::div_mod::lemma_div_multiples_vanish(s * q, p);
}

/// A whole number of units is its own nearest integer.
proof fn lemma_shift_up_half(s: nat, have: nat)
    requires
        149 <= have,
    ensures
        (s * pow2(have) + pow2(148)) / unit() == s * pow2((have - 149) as nat),
{
    lemma_pow2_adds(149, (have - 149) as nat);
    lemma_pow2_pos(148);
    lemma_pow2_unfold(149);
    let (p, q) = (pow2(149) as int, pow2((have - 149) as nat) as int);
    assert(s * (p * q) == p * (s * q)) by (nonlinear_arith);
    vstd::arithmetic::div_mod::lemma_div_multiples_vanish_fancy(s * q, pow2(148) as int, p);
}

/// The single with the exact value `v` (in units), where there is one; zero is positive.
pub open spec fn with_value(v: int) -> Single {
    choose|s: Single| #[trigger] s.finite() && s.value() == v && (v == 0 ==> s.bits == ZERO)
}

/// A finite number other than zero is determined by its value.
pub proof fn lemma_value_determines(a: Single, b: Single)
    requires
        a.finite(),
        b.finite(),
        a.value() == b.value(),
        a.value() != 0,
    ensures
        a == b,
{
    lemma_order_is_value_order(a, b);
    lemma_order_is_value_order(b, a);
    assert(a.order() == b.order());
    let zero = Single { bits: 0 };
    assert(zero.units() == 0);
    assert(a.magnitude() == b.magnitude());
    if a.magnitude() == 0 {
        assert(a.units() == 0);
    }
}

/// Every finite number but negative zero is the one with its value.
pub proof fn lemma_with_value(s: Single)
    requires
        s.finite(),
        s.value() == 0 ==> s.bits == ZERO,
    ensures
        with_value(s.value()) == s,
{
    let v = s.value();
    let t = choose|t: Single| #[trigger] t.finite() && t.value() == v && (v == 0 ==> t.bits == ZERO);
    assert(t.finite() && t.value() == v && (v == 0 ==> t.bits == ZERO));
    if v != 0 {
        lemma_value_determines(s, t);
    }
}

/// The integer `n`, where a single holds it exactly.
pub open spec fn integer(n: nat) -> Single {
    with_value((n * unit()) as int)
}

/// One is one unit.
pub proof fn lemma_one()
    ensures
        Single::of(ONE).finite(),
        Single::of(ONE).value() == unit(),
{
    lemma_pow2_adds(23, 126);
    vstd::arithmetic::power2::lemma2_to64();
    assert(Single::of(ONE).magnitude() / 0x0080_0000 == 127);
}

/// The integer `n`, positive or negative, where a single holds it exactly.
pub open spec fn signed_integer(n: int) -> Single {
    with_value(n * unit())
}

proof fn lemma_packed(significand: int, exponent: int)
    requires
        FRACTIONS <= significand < 2 * FRACTIONS,
        1 <= exponent <= 254,
    ensures
        packed(significand, exponent).finite(),
        !packed(significand, exponent).negative(),
        packed(significand, exponent).units() == significand * pow2((exponent - 1) as nat),
{
    let r = packed(significand, exponent);
    assert(exponent * FRACTIONS + (significand - FRACTIONS) < 0x8000_0000);
    assert(r.magnitude() / FRACTIONS as int == exponent);
    assert(r.magnitude() % FRACTIONS as int == significand - FRACTIONS);
}

proof fn lemma_small_integer_held(n: nat, k: nat)
    requires
        0 < n < 2 * FRACTIONS,
        k <= 23,
        n * pow2(k) < 2 * FRACTIONS,
    ensures
        exists|s: Single| #[trigger] s.finite() && !s.negative() && s.value() == n * unit(),
    decreases 23 - k,
{
    let sig = n * pow2(k);
    if sig >= FRACTIONS {
        let s = packed(sig as int, 150 - k);
        lemma_packed(sig as int, 150 - k);
        lemma_pow2_adds(k, (149 - k) as nat);
        assert(sig * pow2((149 - k) as nat) == n * unit()) by (nonlinear_arith)
            requires
                sig == n * pow2(k),
                pow2(k) * pow2((149 - k) as nat) == unit(),
        ;
        assert(s.finite());
    } else {
        vstd::arithmetic::power2::lemma2_to64();
        lemma_pow2_unfold(k + 1);
        assert(n * pow2(k + 1) == 2 * sig) by (nonlinear_arith)
            requires
                sig == n * pow2(k),
                pow2(k + 1) == 2 * pow2(k),
        ;
        if k == 23 {
            assert(sig >= pow2(23)) by (nonlinear_arith)
                requires
                    sig == n * pow2(23),
                    n >= 1,
                    pow2(23) >= 0,
            ;
            assert(false);
        }
        lemma_small_integer_held(n, k + 1);
    }
}

/// A whole number of up to 2^24 is held exactly.
pub proof fn lemma_integer_held(n: int)
    requires
        -0x0100_0000 <= n <= 0x0100_0000,
    ensures
        signed_integer(n).finite(),
        signed_integer(n).value() == n * unit(),
{
    vstd::arithmetic::power2::lemma2_to64();
    if n == 0 {
        lemma_with_value(Single { bits: ZERO });
    } else {
        let size: nat = if n > 0 {
            n as nat
        } else {
            (-n) as nat
        };
        if size == 0x0100_0000 {
            let t = packed(FRACTIONS as int, 151);
            lemma_packed(FRACTIONS as int, 151);
            lemma_pow2_adds(1, 149);
            assert(FRACTIONS * pow2(150) == size * unit()) by (nonlinear_arith)
                requires
                    size == 2 * FRACTIONS,
                    pow2(150) == 2 * unit(),
            ;
            assert(t.finite() && !t.negative() && t.value() == size * unit());
        } else {
            lemma_small_integer_held(size, 0);
        }
        let s = choose|s: Single| #[trigger] s.finite() && !s.negative() && s.value() == size * unit();
        lemma_pow2_pos(149);
        assert(size * unit() > 0) by (nonlinear_arith)
            requires
                size > 0,
                unit() > 0,
        ;
        if n > 0 {
            lemma_with_value(s);
        } else {
            assert(s.negated().value() == n * unit()) by {
                assert(-(size * unit()) == n * unit()) by (nonlinear_arith)
                    requires
                        n == -size,
                ;
            }
            lemma_with_value(s.negated());
        }
    }
}

/// The number `n`, which a single holds exactly.
pub fn from_i32(n: i32) -> (r: Single)
    requires
        -0x0100_0000 <= n <= 0x0100_0000,
    ensures
        r == signed_integer(n as int),
        r.finite(),
        r.value() == n * unit(),
{
    if n >= 0 {
        exact(n as u32, 0)
    } else {
        let size = exact((-n) as u32, 0);
        let r = size.neg();
        proof {
            lemma_pow2_pos(149);
            assert((-n) * unit() > 0 && n * unit() == -((-n) * unit())) by (nonlinear_arith)
                requires
                    n < 0,
                    unit() > 0,
            ;
            assert(r.magnitude() == size.magnitude());
            lemma_with_value(r);
        }
        r
    }
}

proof fn lemma_shifted_held(n: nat, e: nat, k: nat)
    requires
        0 < n < 2 * FRACTIONS,
        23 <= e <= 230,
        k <= 23,
        n * pow2(k) < 2 * FRACTIONS,
    ensures
        exists|s: Single| #[trigger] s.finite() && !s.negative() && s.value() == n * pow2(e),
    decreases 23 - k,
{
    let sig = n * pow2(k);
    if sig >= FRACTIONS {
        let s = packed(sig as int, e + 1 - k);
        lemma_packed(sig as int, e + 1 - k);
        lemma_pow2_adds(k, (e - k) as nat);
        assert(sig * pow2((e - k) as nat) == n * pow2(e)) by (nonlinear_arith)
            requires
                sig == n * pow2(k),
                pow2(k) * pow2((e - k) as nat) == pow2(e),
        ;
        assert(s.finite());
    } else {
        vstd::arithmetic::power2::lemma2_to64();
        lemma_pow2_unfold(k + 1);
        assert(n * pow2(k + 1) == 2 * sig) by (nonlinear_arith)
            requires
                sig == n * pow2(k),
                pow2(k + 1) == 2 * pow2(k),
        ;
        if k == 23 {
            assert(sig >= pow2(23)) by (nonlinear_arith)
                requires
                    sig == n * pow2(23),
                    n >= 1,
                    pow2(23) >= 0,
            ;
            assert(false);
        }
        lemma_shifted_held(n, e, k + 1);
    }
}

/// A number of 24 bits times a power of two of ordinary size is held exactly.
pub proof fn lemma_scaled_held(n: int, e: nat)
    requires
        -0x0100_0000 < n < 0x0100_0000,
        23 <= e <= 230,
    ensures
        with_value(n * pow2(e)).finite(),
        with_value(n * pow2(e)).value() == n * pow2(e),
        n >= 0 ==> !with_value(n * pow2(e)).negative(),
{
    lemma_pow2_pos(e);
    vstd::arithmetic::power2::lemma2_to64();
    if n == 0 {
        lemma_with_value(Single { bits: ZERO });
        assert(0 * pow2(e) == 0) by (nonlinear_arith);
    } else {
        let size: nat = if n > 0 {
            n as nat
        } else {
            (-n) as nat
        };
        lemma_shifted_held(size, e, 0);
        let s = choose|s: Single| #[trigger] s.finite() && !s.negative() && s.value() == size * pow2(e);
        assert(size * pow2(e) > 0) by (nonlinear_arith)
            requires
                size > 0,
                pow2(e) > 0,
        ;
        if n > 0 {
            lemma_with_value(s);
        } else {
            assert(-(size * pow2(e)) == n * pow2(e)) by (nonlinear_arith)
                requires
                    n == -size,
            ;
            lemma_with_value(s.negated());
        }
    }
}

} // verus!
