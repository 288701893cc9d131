//! What notes, decibels and the saturator mean.
use vstd::arithmetic::power2::{lemma2_to64, lemma_pow2_adds, lemma_pow2_pos, pow2};
use vstd::prelude::*;

use crate::arith::{Prim, Sums};
use crate::math::{A4_HZ, A4_NOTE, CLIP_A, CLIP_B, CLIP_LOW, DECADE_DB, OCTAVE, TEN};
use crate::single::{Single, ONE, THREE, ZERO};

verus! {

/// A pattern is a whole number where its significand and its exponent say so.
proof fn lemma_pattern(bits: u32, n: nat, exponent: nat, shift: nat)
    requires
        bits < 0x7f80_0000,
        bits as int / 0x0080_0000 == exponent,
        1 <= exponent,
        exponent - 1 + shift == 149,
        bits as int % 0x0080_0000 + 0x0080_0000 == n * pow2(shift),
        n > 0,
    ensures
        Single::of(bits) == crate::single::signed_integer(n as int),
        Single::of(bits).finite(),
        Single::of(bits).value() == n * crate::single::unit(),
{
    let s = Single::of(bits);
    lemma_pow2_adds((exponent - 1) as nat, shift);
    lemma_pow2_pos(149);
    assert(s.units() == (n * pow2(shift)) * pow2((exponent - 1) as nat));
    assert((n * pow2(shift)) * pow2((exponent - 1) as nat) == n * crate::single::unit()) by (nonlinear_arith)
        requires
            pow2((exponent - 1) as nat) * pow2(shift) == crate::single::unit(),
    ;
    assert(n * crate::single::unit() > 0) by (nonlinear_arith)
        requires
            n > 0,
            crate::single::unit() > 0,
    ;
    crate::single::lemma_with_value(s);
}

/// The constants of pitch and saturation are the whole numbers they stand for.
proof fn lemma_constants()
    ensures
        Single::of(A4_NOTE) == crate::single::signed_integer(69),
        Single::of(OCTAVE) == crate::single::signed_integer(12),
        Single::of(A4_HZ) == crate::single::signed_integer(440),
        Single::of(A4_HZ).finite(),
        Single::of(A4_HZ).value() == 440 * crate::single::unit(),
        Single::of(THREE) == crate::single::signed_integer(3),
        Single::of(CLIP_A) == crate::single::signed_integer(27),
        Single::of(CLIP_B) == crate::single::signed_integer(9),
        Single::of(ONE) == crate::single::signed_integer(1),
{
    lemma2_to64();
    lemma_pattern(A4_NOTE, 69, 133, 17);
    lemma_pattern(OCTAVE, 12, 130, 20);
    lemma_pattern(A4_HZ, 440, 135, 15);
    lemma_pattern(THREE, 3, 128, 22);
    lemma_pattern(CLIP_A, 27, 131, 19);
    lemma_pattern(CLIP_B, 9, 130, 20);
    lemma_pattern(ONE, 1, 127, 23);
}

/// Note 69 is 440 Hz, and every octave doubles the frequency.
pub proof fn lemma_octaves_double(f: Sums, k: int)
    requires
        crate::rounding::whole_exact(f),
        crate::rounding::products_exact(f),
        crate::rounding::unit_exact(f),
        -8 <= k <= 8,
    ensures
        crate::math::note_hz(f, crate::single::signed_integer(69 + 12 * k)).finite(),
        crate::math::note_hz(f, crate::single::signed_integer(69 + 12 * k)).value() == 440 * pow2((149 + k) as nat),
        crate::math::note_hz(f, Single::of(A4_NOTE)) == Single::of(A4_HZ),
{
    lemma_constants();
    let note = crate::single::signed_integer(69 + 12 * k);
    let above = f(Prim::Sub, note, Single::of(A4_NOTE));
    assert(above == crate::single::signed_integer(69 + 12 * k - 69));
    assert(f(Prim::Sub, Single::of(A4_NOTE), Single::of(A4_NOTE)).zero());
    let octaves = f(Prim::Div, above, Single::of(OCTAVE));
    if k != 0 {
        assert((12 * k) % 12 == 0 && (12 * k) / 12 == k);
        assert(octaves == crate::single::signed_integer(k));
    } else {
        crate::single::lemma_with_value(Single::of(ZERO));
        assert(crate::single::signed_integer(0) == Single::of(ZERO));
        assert(octaves.zero());
        lemma_power(0);
        crate::single::lemma_one();
        crate::single::lemma_value_determines(crate::rounding::power_of_two(0), Single::of(ONE));
    }
    let p = crate::rounding::power_of_two(k);
    assert(f(Prim::Exp2, octaves, octaves) == p);
    lemma_power(k);
    crate::single::lemma_scaled_held(440, (149 + k) as nat);
    lemma_pow2_pos((149 + k) as nat);
    let r = crate::single::with_value((440 * pow2((149 + k) as nat)) as int);
    assert(440 * pow2((149 + k) as nat) > 0);
    assert((440 * crate::single::unit()) * pow2((149 + k) as nat) == (440 * pow2((149 + k) as nat)) * crate::single::unit()) by (nonlinear_arith);
    assert(r.value() == 440 * pow2((149 + k) as nat));
}

proof fn lemma_power(k: int)
    requires
        -100 <= k <= 80,
    ensures
        crate::rounding::power_of_two(k).finite(),
        crate::rounding::power_of_two(k).value() == pow2((149 + k) as nat),
{
    crate::single::lemma_scaled_held(1, (149 + k) as nat);
    assert(1 * pow2((149 + k) as nat) == pow2((149 + k) as nat));
}

/// An offset of no semitones is a ratio of one, and twelve semitones are a factor of two.
pub proof fn lemma_ratio_of_octaves(f: Sums, k: int)
    requires
        crate::rounding::whole_exact(f),
        crate::rounding::unit_exact(f),
        -8 <= k <= 8,
    ensures
        k != 0 ==> crate::math::ratio(f, crate::single::signed_integer(12 * k)) == crate::rounding::power_of_two(k),
        crate::math::ratio(f, Single::of(ZERO)) == Single::of(ONE),
{
    lemma_constants();
    if k != 0 {
        assert((12 * k) % 12 == 0 && (12 * k) / 12 == k);
    }
}

/// A higher note has no lower frequency, and a larger offset no smaller ratio.
pub proof fn lemma_pitch_rises(f: Sums, a: Single, b: Single)
    requires
        crate::rounding::unit_exact(f),
        crate::rounding::keeps_order(f),
        crate::rounding::exponentials_rise(f),
        crate::rounding::modest(a) && crate::rounding::modest(b),
        a.at_most(b),
        f(Prim::Div, f(Prim::Sub, a, Single::of(A4_NOTE)), Single::of(OCTAVE)).finite(),
        f(Prim::Div, f(Prim::Sub, b, Single::of(A4_NOTE)), Single::of(OCTAVE)).finite(),
        forall|x: Single, y: Single| crate::rounding::modest(x) ==> (#[trigger] f(Prim::Exp2, x, y)).finite(),
        crate::rounding::modest(f(Prim::Div, f(Prim::Sub, a, Single::of(A4_NOTE)), Single::of(OCTAVE))),
        crate::rounding::modest(f(Prim::Div, f(Prim::Sub, b, Single::of(A4_NOTE)), Single::of(OCTAVE))),
    ensures
        crate::math::note_hz(f, a).at_most(crate::math::note_hz(f, b)),
{
    let (x, y) = (f(Prim::Sub, a, Single::of(A4_NOTE)), f(Prim::Sub, b, Single::of(A4_NOTE)));
    assert(x.at_most(y));
    assert(x.finite() && y.finite());
    let (s, t) = (f(Prim::Div, x, Single::of(OCTAVE)), f(Prim::Div, y, Single::of(OCTAVE)));
    assert(s.at_most(t));
    assert(f(Prim::Exp2, s, s).at_most(f(Prim::Exp2, t, t)));
}

/// No decibels are a gain of one, and twenty are a gain of ten.
pub proof fn lemma_decibels(f: Sums)
    requires
        crate::rounding::unit_exact(f),
    ensures
        crate::math::gain(f, Single::of(ZERO)) == Single::of(ONE),
        crate::math::gain(f, Single::of(DECADE_DB)) == Single::of(TEN),
{
    assert(f(Prim::Div, Single::of(DECADE_DB), Single::of(DECADE_DB)) == Single::of(ONE));
}

/// A point between two others: the first where nothing of the way is gone, and at the end what is
/// added to the first is their difference. A point between two equal numbers is that number.
pub proof fn lemma_points_between(f: Sums, a: Single, b: Single, t: Single)
    requires
        crate::rounding::unit_exact(f),
        crate::rounding::modest(a) && crate::rounding::modest(b),
    ensures
        t.zero() ==> crate::rounding::same(crate::math::between(f, a, b, t), a),
        a.zero() && t == Single::of(ONE) ==> crate::rounding::same(crate::math::between(f, a, b, t), b),
        a.zero() && b == Single::of(ONE) && t.finite() ==> crate::rounding::same(crate::math::between(f, a, b, t), t),
        a == Single::of(ONE) && crate::math::is_share(b) && t.zero() ==> crate::math::between(f, a, b, t) == a,
        a == b && t.finite() ==> crate::rounding::same(crate::math::between(f, a, b, t), a),
        crate::math::is_share(a) && b == Single::of(ONE) && t == Single::of(ONE) ==> crate::math::between(f, a, b, t) == b,
{
    assert(f(Prim::Sub, b, a).finite());
    if a == b {
        assert(f(Prim::Sub, a, a).zero());
    }
    if crate::math::is_share(a) && b == Single::of(ONE) {
        assert(f(Prim::Add, a, f(Prim::Sub, Single::of(ONE), a)) == Single::of(ONE));
    }
}

/// The saturator: silence stays silence, what is at three or above comes out as one, and what is at
/// minus three or below as minus one.
pub proof fn lemma_saturator(f: Sums, x: Single)
    requires
        crate::rounding::unit_exact(f),
        crate::rounding::whole_exact(f),
        crate::rounding::signs_multiply(f),
        !x.nan(),
    ensures
        x.zero() ==> crate::math::saturated(f, x).zero(),
        Single::of(THREE).at_most(x) ==> crate::math::saturated(f, x) == Single::of(ONE),
        x.at_most(Single::of(THREE).negated()) ==> crate::math::saturated(f, x) == Single::of(ONE).negated(),
{
    lemma_constants();
    let three = Single::of(THREE);
    let (low, high) = (Single::of(CLIP_LOW), three);
    assert(low == three.negated());
    let nine = f(Prim::Mul, three, three);
    assert(nine == crate::single::signed_integer(9)) by {
        assert(3int * 3int == 9);
    }
    assert(f(Prim::Add, Single::of(CLIP_A), nine) == crate::single::signed_integer(36));
    assert(f(Prim::Mul, three, crate::single::signed_integer(36)) == crate::single::signed_integer(108)) by {
        assert(3int * 36int == 108);
    }
    assert(f(Prim::Mul, Single::of(CLIP_B), nine) == crate::single::signed_integer(81)) by {
        assert(9int * 9int == 81);
    }
    assert(f(Prim::Add, Single::of(CLIP_A), crate::single::signed_integer(81)) == crate::single::signed_integer(108));
    crate::single::lemma_integer_held(108);
    lemma_pow2_pos(149);
    let top = crate::single::signed_integer(108);
    assert(!top.zero());
    assert(f(Prim::Div, top, top) == Single::of(ONE));
    assert(crate::math::saturated(f, three) == Single::of(ONE));
    assert(f(Prim::Mul, three.negated(), three.negated()) == nine) by {
        assert(f(Prim::Mul, three.negated(), three.negated()) == f(Prim::Mul, three, three.negated()).negated());
        assert(f(Prim::Mul, three, three.negated()) == nine.negated());
    }
    assert(f(Prim::Mul, three.negated(), crate::single::signed_integer(36)) == top.negated()) by {
        crate::single::lemma_integer_held(36);
    }
    assert(f(Prim::Div, top.negated(), top) == Single::of(ONE).negated());
    assert(crate::math::saturated(f, three.negated()) == Single::of(ONE).negated());
}

/// The saturator treats both signs alike.
pub proof fn lemma_saturator_is_odd(f: Sums, x: Single)
    requires
        crate::rounding::signs_multiply(f),
        !x.nan(),
        reckons(f, x),
    ensures
        crate::math::saturated(f, x.negated()) == crate::math::saturated(f, x).negated(),
{
    let (low, high) = (Single::of(CLIP_LOW), Single::of(THREE));
    assert(low == high.negated());
    let c = x.within(low, high);
    assert(x.negated().within(low, high) == c.negated());
    assert(f(Prim::Mul, c.negated(), c.negated()) == f(Prim::Mul, c, c)) by {
        assert(f(Prim::Mul, c.negated(), c.negated()) == f(Prim::Mul, c, c.negated()).negated());
        assert(f(Prim::Mul, c, c.negated()) == f(Prim::Mul, c, c).negated());
    }
}

/// The saturator reckons with numbers throughout.
pub open spec fn reckons(f: Sums, x: Single) -> bool {
    let c = x.within(Single::of(CLIP_LOW), Single::of(THREE));
    let square = f(Prim::Mul, c, c);
    let over = f(Prim::Add, Single::of(CLIP_A), square);
    let under = f(Prim::Add, Single::of(CLIP_A), f(Prim::Mul, Single::of(CLIP_B), square));
    !over.nan() && !under.nan() && !f(Prim::Mul, c, over).nan()
}

} // verus!
