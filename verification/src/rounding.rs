//! What rounded arithmetic keeps of exact arithmetic.
//!
//! Singles are rounded after every operation, so few of the laws of arithmetic hold of them. The
//! ones below do, for every correctly rounded sum, difference, product and quotient; the laws of
//! the engine's formulas rest on them.
use vstd::prelude::*;

use crate::arith::{Prim, Sums};
use crate::single::{Single, HALF, ONE, THREE, TWO, ZERO};

verus! {

/// Pattern of 2^126: sums and differences of smaller numbers are finite.
pub const HUGE: u32 = 0x7e80_0000;

/// Pattern of 2^127, which no sum of two of them exceeds.
pub const HUGE_SUM: u32 = 0x7f00_0000;

/// Patterns of 1/4 and 4.
pub const QUARTER: u32 = 0x3e80_0000;

pub const FOUR: u32 = 0x4080_0000;

/// Pattern of 2^-24: no more is lost of a share that is taken from one and given back.
pub const FINE: u32 = 0x3380_0000;

/// Pattern of 2^24: up to here the whole numbers are singles.
pub const WHOLE_LIMIT: u32 = 0x4b80_0000;

/// The same number: the two zeros count as one.
pub open spec fn same(a: Single, b: Single) -> bool {
    a == b || (a.zero() && b.zero())
}

/// A number so far from overflow that sums and differences with its like are finite.
pub open spec fn modest(x: Single) -> bool {
    x.magnitude() < HUGE
}

/// One changes nothing as a factor or a divisor.
pub open spec fn one_is_neutral(f: Sums) -> bool {
    let one = Single::of(ONE);
    &&& forall|x: Single| !x.nan() ==> #[trigger] f(Prim::Mul, x, one) == x
    &&& forall|x: Single| !x.nan() ==> #[trigger] f(Prim::Mul, one, x) == x
    &&& forall|x: Single| !x.nan() ==> #[trigger] f(Prim::Div, x, one) == x
    &&& forall|x: Single| x.finite() && !x.zero() ==> #[trigger] f(Prim::Div, x, x) == one
}

/// Zero changes nothing as a summand, and makes everything zero as a factor.
pub open spec fn zero_is_neutral(f: Sums) -> bool {
    &&& forall|x: Single, z: Single| !x.nan() && z.zero() ==> same(#[trigger] f(Prim::Add, x, z), x)
    &&& forall|x: Single, z: Single| !x.nan() && z.zero() ==> same(#[trigger] f(Prim::Add, z, x), x)
    &&& forall|x: Single, z: Single| !x.nan() && z.zero() ==> same(#[trigger] f(Prim::Sub, x, z), x)
    &&& forall|x: Single, z: Single| !x.nan() && z.zero() ==> same(#[trigger] f(Prim::Sub, z, x), x.negated())
    &&& forall|x: Single| x.finite() ==> (#[trigger] f(Prim::Sub, x, x)).zero()
    &&& forall|x: Single| x.finite() ==> (#[trigger] f(Prim::Add, x, x.negated())).zero()
    &&& forall|x: Single, z: Single| x.finite() && z.zero() ==> (#[trigger] f(Prim::Mul, x, z)).zero()
    &&& forall|x: Single, z: Single| x.finite() && z.zero() ==> (#[trigger] f(Prim::Mul, z, x)).zero()
    &&& forall|x: Single, z: Single| !x.nan() && !x.zero() && z.zero() ==> (#[trigger] f(Prim::Div, z, x)).zero()
}

/// What is taken from one and what is left of it make one again, a number is one and what it is
/// above it (a share only nearly so), and a number is twice itself less itself.
pub open spec fn parts_make_whole(f: Sums) -> bool {
    &&& forall|x: Single|
        Single::of(ZERO).at_most(x) && x.at_most(Single::of(ONE)) ==> f(
            Prim::Add,
            x,
            #[trigger] f(Prim::Sub, Single::of(ONE), x),
        ) == Single::of(ONE) && f(Prim::Add, f(Prim::Sub, Single::of(ONE), x), x) == Single::of(ONE)
    &&& forall|x: Single|
        Single::of(HALF).at_most(x) && x.at_most(Single::of(WHOLE_LIMIT)) ==> f(
            Prim::Add,
            Single::of(ONE),
            #[trigger] f(Prim::Sub, x, Single::of(ONE)),
        ) == x
    &&& forall|x: Single|
        Single::of(ZERO).at_most(x) && x.at_most(Single::of(ONE)) ==> f(
            Prim::Sub,
            f(Prim::Add, Single::of(ONE), #[trigger] f(Prim::Sub, x, Single::of(ONE))),
            x,
        ).at_most(Single::of(FINE))
    &&& forall|x: Single| modest(x) ==> same(f(Prim::Sub, #[trigger] f(Prim::Mul, Single::of(TWO), x), x), x)
    &&& forall|x: Single| modest(x) ==> #[trigger] f(Prim::Mul, Single::of(TWO), x) == f(Prim::Add, x, x)
}

/// Sums and differences of modest numbers are finite, and so is a sum less one of them and a product
/// with a factor within [-1, 1].
pub open spec fn stays_finite(f: Sums) -> bool {
    &&& forall|x: Single, y: Single| modest(x) && modest(y) ==> (#[trigger] f(Prim::Add, x, y)).magnitude() <= HUGE_SUM
    &&& forall|x: Single, y: Single| x.magnitude() <= HUGE_SUM && modest(y) ==> (#[trigger] f(Prim::Sub, x, y)).finite()
    &&& forall|x: Single, y: Single|
        x.finite() && y.absolute().at_most(Single::of(ONE)) ==> (#[trigger] f(Prim::Mul, x, y)).finite() && f(
            Prim::Mul,
            x,
            y,
        ).magnitude() <= x.magnitude()
    &&& forall|x: Single, y: Single|
        x.finite() && y.absolute().at_most(Single::of(ONE)) ==> (#[trigger] f(Prim::Mul, y, x)).finite() && f(
            Prim::Mul,
            y,
            x,
        ).magnitude() <= x.magnitude()
}

/// Where the transcendental functions start: exponentials of zero are one, a first power is the
/// number itself, sine and tangent of zero are zero, the cosine of zero is one.
pub open spec fn functions_start(f: Sums) -> bool {
    let one = Single::of(ONE);
    &&& forall|z: Single, y: Single| z.zero() ==> #[trigger] f(Prim::Exp, z, y) == one
    &&& forall|z: Single, y: Single| z.zero() ==> #[trigger] f(Prim::Exp2, z, y) == one
    &&& forall|x: Single, z: Single| z.zero() ==> #[trigger] f(Prim::Pow, x, z) == one
    &&& forall|x: Single| !x.nan() ==> #[trigger] f(Prim::Pow, x, one) == x
    &&& forall|z: Single, y: Single| z.zero() ==> (#[trigger] f(Prim::Sin, z, y)).zero()
    &&& forall|z: Single, y: Single| z.zero() ==> #[trigger] f(Prim::Cos, z, y) == one
    &&& forall|z: Single, y: Single| z.zero() ==> (#[trigger] f(Prim::Tan, z, y)).zero()
    &&& forall|z: Single, y: Single| z.zero() ==> (#[trigger] f(Prim::Floor, z, y)).zero()
    &&& forall|z: Single, y: Single| z.zero() ==> (#[trigger] f(Prim::Round, z, y)).zero()
}

/// Arithmetic as a floating-point unit does it, as far as zero and one are concerned.
pub open spec fn unit_exact(f: Sums) -> bool {
    &&& one_is_neutral(f)
    &&& zero_is_neutral(f)
    &&& parts_make_whole(f)
    &&& stays_finite(f)
    &&& functions_start(f)
}

/// The numbers 1/2, 1, 2, 3 and 4 are singles, and so are what the engine makes of them.
pub open spec fn small_exact(f: Sums) -> bool {
    let (half, one, two, three, four) = (Single::of(HALF), Single::of(ONE), Single::of(TWO), Single::of(THREE), Single::of(FOUR));
    &&& f(Prim::Mul, four, half) == two
    &&& f(Prim::Mul, two, half) == one
    &&& f(Prim::Mul, half, two) == one
    &&& f(Prim::Sub, one, two) == one.negated()
    &&& f(Prim::Sub, two, one) == one
    &&& f(Prim::Sub, three, two) == one
    &&& f(Prim::Sub, one, half) == half
    &&& f(Prim::Add, half, half) == one
    &&& f(Prim::Sub, half, one) == half.negated()
    &&& f(Prim::Mul, half, half) == Single::of(QUARTER)
    &&& f(Prim::Sub, half, half.negated()) == one
    &&& f(Prim::Add, half, half.negated()) == Single::of(ZERO)
}

/// Sums, differences, products and quotients of small whole numbers are whole numbers where they are
/// in exact arithmetic, and whole powers of two are those powers. (The sign of a zero is left open.)
pub open spec fn whole_exact(f: Sums) -> bool {
    &&& forall|a: int, b: int|
        -4096 <= a <= 4096 && -4096 <= b <= 4096 ==> #[trigger] f(
            Prim::Add,
            crate::single::signed_integer(a),
            crate::single::signed_integer(b),
        ) == crate::single::signed_integer(a + b)
    &&& forall|a: int, b: int|
        -4096 <= a <= 4096 && -4096 <= b <= 4096 ==> #[trigger] f(
            Prim::Sub,
            crate::single::signed_integer(a),
            crate::single::signed_integer(b),
        ) == crate::single::signed_integer(a - b)
    &&& forall|a: int, b: int|
        -4096 <= a <= 4096 && -4096 <= b <= 4096 && a * b != 0 ==> #[trigger] f(
            Prim::Mul,
            crate::single::signed_integer(a),
            crate::single::signed_integer(b),
        ) == crate::single::signed_integer(a * b)
    &&& forall|a: int, b: int|
        -4096 <= a <= 4096 && -4096 <= b <= 4096 && a != 0 && b != 0 && a % b == 0 ==> #[trigger] f(
            Prim::Div,
            crate::single::signed_integer(a),
            crate::single::signed_integer(b),
        ) == crate::single::signed_integer(a / b)
    &&& forall|k: int, y: Single|
        -100 <= k <= 100 ==> #[trigger] f(Prim::Exp2, crate::single::signed_integer(k), y) == power_of_two(k)
}

/// The number 2^k.
pub open spec fn power_of_two(k: int) -> Single {
    crate::single::with_value(vstd::arithmetic::power2::pow2((149 + k) as nat) as int)
}

/// A product that is a single is that single.
pub open spec fn products_exact(f: Sums) -> bool {
    forall|a: Single, b: Single, r: Single|
        #![trigger f(Prim::Mul, a, b), r.value()]
        a.finite() && b.finite() && r.finite() && r.value() != 0 && a.value() * b.value() == r.value() * crate::single::unit()
            ==> f(Prim::Mul, a, b) == r
}

/// Products and quotients change their sign with either operand.
pub open spec fn signs_multiply(f: Sums) -> bool {
    &&& forall|a: Single, b: Single| !a.nan() && !b.nan() ==> #[trigger] f(Prim::Mul, a.negated(), b) == f(Prim::Mul, a, b).negated()
    &&& forall|a: Single, b: Single| !a.nan() && !b.nan() ==> #[trigger] f(Prim::Mul, a, b.negated()) == f(Prim::Mul, a, b).negated()
    &&& forall|a: Single, b: Single| !a.nan() && !b.nan() ==> #[trigger] f(Prim::Div, a.negated(), b) == f(Prim::Div, a, b).negated()
}

/// Rounding keeps order: sums of larger numbers are no smaller, nor are products with a factor that
/// is not negative and quotients by a positive divisor. A negative factor turns the order round, and a
/// larger divisor brings a quotient nearer to zero.
pub open spec fn keeps_order(f: Sums) -> bool {
    &&& forall|a: Single, b: Single, c: Single|
        a.at_most(b) && a.finite() && b.finite() && c.finite() ==> (#[trigger] f(Prim::Add, a, c)).at_most(
            #[trigger] f(Prim::Add, b, c),
        )
    &&& forall|a: Single, b: Single, c: Single|
        a.at_most(b) && a.finite() && b.finite() && c.finite() ==> (#[trigger] f(Prim::Add, c, a)).at_most(
            #[trigger] f(Prim::Add, c, b),
        )
    &&& forall|a: Single, b: Single, c: Single|
        a.at_most(b) && a.finite() && b.finite() && c.finite() ==> (#[trigger] f(Prim::Sub, a, c)).at_most(
            #[trigger] f(Prim::Sub, b, c),
        )
    &&& forall|a: Single, b: Single, c: Single|
        a.at_most(b) && a.finite() && b.finite() && c.finite() ==> (#[trigger] f(Prim::Sub, c, b)).at_most(
            #[trigger] f(Prim::Sub, c, a),
        )
    &&& forall|a: Single, b: Single, c: Single|
        a.at_most(b) && a.finite() && b.finite() && c.finite() && Single::of(ZERO).at_most(c) ==> (#[trigger] f(
            Prim::Mul,
            a,
            c,
        )).at_most(#[trigger] f(Prim::Mul, b, c))
    &&& forall|a: Single, b: Single, c: Single|
        a.at_most(b) && a.finite() && b.finite() && c.finite() && Single::of(ZERO).at_most(c) ==> (#[trigger] f(
            Prim::Mul,
            c,
            a,
        )).at_most(#[trigger] f(Prim::Mul, c, b))
    &&& forall|a: Single, b: Single, c: Single|
        a.at_most(b) && a.finite() && b.finite() && c.finite() && c.at_most(Single::of(ZERO)) ==> (#[trigger] f(
            Prim::Mul,
            c,
            b,
        )).at_most(#[trigger] f(Prim::Mul, c, a))
    &&& forall|a: Single, b: Single, c: Single|
        a.at_most(b) && a.finite() && b.finite() && c.finite() && Single::of(ZERO).below(c) ==> (#[trigger] f(
            Prim::Div,
            a,
            c,
        )).at_most(#[trigger] f(Prim::Div, b, c))
    &&& forall|a: Single, b: Single, c: Single|
        a.at_most(b) && Single::of(ZERO).below(a) && b.finite() && c.finite() && Single::of(ZERO).at_most(c) ==> (#[trigger] f(
            Prim::Div,
            c,
            b,
        )).at_most(#[trigger] f(Prim::Div, c, a))
    &&& forall|a: Single, b: Single, c: Single|
        a.at_most(b) && Single::of(ZERO).below(a) && b.finite() && c.finite() && c.at_most(Single::of(ZERO)) ==> (#[trigger] f(
            Prim::Div,
            c,
            a,
        )).at_most(#[trigger] f(Prim::Div, c, b))
}

/// Exponentials rise, and are never negative.
pub open spec fn exponentials_rise(f: Sums) -> bool {
    &&& forall|a: Single, b: Single, x: Single, y: Single|
        a.at_most(b) ==> (#[trigger] f(Prim::Exp, a, x)).at_most(#[trigger] f(Prim::Exp, b, y))
    &&& forall|a: Single, b: Single, x: Single, y: Single|
        a.at_most(b) ==> (#[trigger] f(Prim::Exp2, a, x)).at_most(#[trigger] f(Prim::Exp2, b, y))
    &&& forall|a: Single, x: Single| !a.nan() ==> Single::of(ZERO).at_most(#[trigger] f(Prim::Exp, a, x))
    &&& forall|a: Single, x: Single| !a.nan() ==> Single::of(ZERO).at_most(#[trigger] f(Prim::Exp2, a, x))
}

/// Positive powers rise with their base, from zero at zero through one at one.
pub open spec fn powers_rise(f: Sums) -> bool {
    &&& forall|a: Single, b: Single, y: Single|
        Single::of(ZERO).at_most(a) && a.at_most(b) && Single::of(ZERO).below(y) ==> (#[trigger] f(Prim::Pow, a, y)).at_most(
            #[trigger] f(Prim::Pow, b, y),
        )
    &&& forall|z: Single, y: Single| z.zero() && Single::of(ZERO).below(y) ==> (#[trigger] f(Prim::Pow, z, y)).zero()
    &&& forall|y: Single| !y.nan() ==> #[trigger] f(Prim::Pow, Single::of(ONE), y) == Single::of(ONE)
}

/// A whole number of up to 2^24 is a single, and is that number.
pub proof fn lemma_whole_number(k: int)
    requires
        0 <= k <= 0x0100_0000,
    ensures
        crate::single::sized(k as nat).finite(),
        crate::single::sized(k as nat).whole() == k,
        modest(crate::single::sized(k as nat)),
        k > 0 ==> Single::of(ONE).at_most(crate::single::sized(k as nat)),
        k == 0 ==> crate::single::sized(k as nat) == Single::of(ZERO),
{
    let s = crate::single::sized(k as nat);
    crate::single::lemma_integer_held(k);
    crate::single::lemma_integer_held(0x0100_0000);
    crate::single::lemma_one();
    vstd::arithmetic::power2::lemma_pow2_pos(149);
    let u = crate::single::unit() as int;
    assert(s == crate::single::signed_integer(k));
    assert(s.value() == k * u);
    assert(0 <= k * u) by (nonlinear_arith)
        requires
            0 <= k,
            u > 0,
    ;
    if k == 0 {
        let zero = Single::of(ZERO);
        crate::single::lemma_with_value(zero);
        assert(zero.value() == 0);
        assert(k * u == 0) by (nonlinear_arith)
            requires
                k == 0,
        ;
        assert(s == zero);
    } else {
        assert(u <= k * u) by (nonlinear_arith)
            requires
                1 <= k,
                u > 0,
        ;
        crate::single::lemma_order_is_value_order(Single::of(ONE), s);
        let top = crate::single::signed_integer(0x0100_0000);
        assert(k * u <= 0x0100_0000 * u) by (nonlinear_arith)
            requires
                k <= 0x0100_0000,
                u > 0,
        ;
        crate::single::lemma_order_is_value_order(s, top);
        crate::single::lemma_order_is_value_order(Single::of(ONE), top);
        lemma_limit_is_modest(top);
    }
    assert((k * u) / u == k) by (nonlinear_arith)
        requires
            u > 0,
    ;
    assert(!s.negative() || s.units() == 0);
    if k > 0 {
        assert(!s.negative());
    }
}

proof fn lemma_limit_is_modest(top: Single)
    requires
        top.finite(),
        top.value() == 0x0100_0000 * crate::single::unit(),
    ensures
        top == Single::of(WHOLE_LIMIT),
{
    let w = Single::of(WHOLE_LIMIT);
    assert(w.magnitude() / 0x0080_0000 == 151);
    assert(w.magnitude() % 0x0080_0000 == 0);
    vstd::arithmetic::power2::lemma_pow2_adds(1, 149);
    vstd::arithmetic::power2::lemma2_to64();
    vstd::arithmetic::power2::lemma_pow2_pos(149);
    assert(w.units() == 0x0080_0000 * vstd::arithmetic::power2::pow2(150));
    crate::single::lemma_value_determines(top, w);
}

/// Whole numbers of up to 2^24 are in the order of their counts.
pub proof fn lemma_whole_order(j: int, k: int)
    requires
        0 <= j <= k <= 0x0100_0000,
    ensures
        crate::single::sized(j as nat).at_most(crate::single::sized(k as nat)),
        j < k ==> crate::single::sized(j as nat).below(crate::single::sized(k as nat)),
{
    crate::single::lemma_integer_held(j);
    crate::single::lemma_integer_held(k);
    vstd::arithmetic::power2::lemma_pow2_pos(149);
    let u = crate::single::unit() as int;
    assert(j * u <= k * u) by (nonlinear_arith)
        requires
            j <= k,
            u > 0,
    ;
    assert(j < k ==> j * u < k * u) by (nonlinear_arith)
        requires
            u > 0,
    ;
    assert(crate::single::sized(j as nat) == crate::single::signed_integer(j));
    assert(crate::single::sized(k as nat) == crate::single::signed_integer(k));
    crate::single::lemma_order_is_value_order(crate::single::sized(j as nat), crate::single::sized(k as nat));
}

/// A number is no larger than 2^e either way.
pub open spec fn under(x: Single, e: int) -> bool {
    x.magnitude() <= (127 + e) * 0x0080_0000
}

/// Products and sums stay within the powers of two that their operands are within.
pub open spec fn grows(f: Sums) -> bool {
    &&& forall|x: Single, y: Single, a: int, b: int|
        #![trigger under(x, a), under(y, b), f(Prim::Mul, x, y)]
        -60 <= a <= 60 && -60 <= b <= 60 && under(x, a) && under(y, b) ==> under(f(Prim::Mul, x, y), a + b)
    &&& forall|x: Single, y: Single, a: int|
        #![trigger under(x, a), under(y, a), f(Prim::Add, x, y)]
        -60 <= a <= 120 && under(x, a) && under(y, a) ==> under(f(Prim::Add, x, y), a + 1)
    &&& forall|x: Single, y: Single, a: int|
        #![trigger under(x, a), under(y, a), f(Prim::Sub, x, y)]
        -60 <= a <= 120 && under(x, a) && under(y, a) ==> under(f(Prim::Sub, x, y), a + 1)
}

/// Arithmetic as a floating-point unit does it, as far as these laws need it.
pub open spec fn faithful(f: Sums) -> bool {
    unit_exact(f) && keeps_order(f) && grows(f)
}

/// Two numbers that are not negative, in order and no larger than 2^e.
pub open spec fn rising(a: Single, b: Single, e: int) -> bool {
    Single::of(ZERO).at_most(a) && a.at_most(b) && under(b, e)
}

/// A constant does not fall.
pub proof fn lemma_level(c: Single, e: int)
    requires
        -60 <= e <= 120,
        Single::of(ZERO).at_most(c),
        under(c, e),
    ensures
        rising(c, c, e),
{
}

/// Products rise with their factors.
pub proof fn lemma_product_rises(f: Sums, a: Single, b: Single, c: Single, d: Single, m: int, n: int)
    requires
        faithful(f),
        rising(a, b, m),
        rising(c, d, n),
        -60 <= m <= 60,
        -60 <= n <= 60,
    ensures
        rising(f(Prim::Mul, a, c), f(Prim::Mul, b, d), m + n),
        f(Prim::Mul, a, c).finite(),
{
    let zero = Single::of(ZERO);
    assert(under(a, m) && under(c, n));
    assert(a.finite() && b.finite() && c.finite() && d.finite());
    assert(f(Prim::Mul, zero, c).at_most(f(Prim::Mul, a, c)));
    assert(f(Prim::Mul, a, c).at_most(f(Prim::Mul, b, c)));
    assert(f(Prim::Mul, b, c).at_most(f(Prim::Mul, b, d)));
    assert(under(f(Prim::Mul, b, d), m + n));
    assert(under(f(Prim::Mul, a, c), m + n));
}

/// Sums rise with their summands.
pub proof fn lemma_sum_rises(f: Sums, a: Single, b: Single, c: Single, d: Single, m: int)
    requires
        faithful(f),
        rising(a, b, m),
        rising(c, d, m),
        -60 <= m <= 100,
    ensures
        rising(f(Prim::Add, a, c), f(Prim::Add, b, d), m + 1),
        f(Prim::Add, a, c).finite(),
{
    let zero = Single::of(ZERO);
    assert(under(a, m) && under(c, m));
    assert(a.finite() && b.finite() && c.finite() && d.finite());
    assert(f(Prim::Add, zero, c).at_most(f(Prim::Add, a, c)));
    assert(f(Prim::Add, a, c).at_most(f(Prim::Add, b, c)));
    assert(f(Prim::Add, b, c).at_most(f(Prim::Add, b, d)));
    assert(under(f(Prim::Add, b, d), m + 1));
    assert(under(f(Prim::Add, a, c), m + 1));
}

/// `base + slope * t` rises with `t`.
pub proof fn lemma_line_rises(f: Sums, base: Single, slope: Single, t: Single, u: Single, m: int)
    requires
        faithful(f),
        Single::of(ZERO).at_most(base) && under(base, m),
        Single::of(ZERO).at_most(slope) && under(slope, m),
        rising(t, u, 0),
        -60 <= m <= 60,
    ensures
        rising(f(Prim::Add, base, f(Prim::Mul, slope, t)), f(Prim::Add, base, f(Prim::Mul, slope, u)), m + 1),
        f(Prim::Add, base, f(Prim::Mul, slope, t)).finite(),
{
    lemma_level(base, m);
    lemma_level(slope, m);
    lemma_product_rises(f, slope, slope, t, u, m, 0);
    lemma_sum_rises(f, base, base, f(Prim::Mul, slope, t), f(Prim::Mul, slope, u), m);
}

/// Numbers in [0, 1] in order.
pub proof fn lemma_shares_rise(t: Single, u: Single)
    requires
        crate::math::is_share(t),
        crate::math::is_share(u),
        t.at_most(u),
    ensures
        rising(t, u, 0),
{
}

/// Weaker bounds hold too.
pub proof fn lemma_under_more(x: Single, m: int, n: int)
    requires
        under(x, m),
        m <= n,
    ensures
        under(x, n),
{
}

} // verus!
