//! Small numeric helpers, and the random number stream every generator draws from.
use vstd::arithmetic::power2::{lemma2_to64, lemma_pow2_adds, lemma_pow2_pos, pow2};
use vstd::prelude::*;

use crate::arith::{meant, total, Prim, Sums};
use crate::single::{exact, Single, ONE, THREE, ZERO};

verus! {

/// Pattern of 440, the frequency of note 69.
pub const A4_HZ: u32 = 0x43dc_0000;

/// Pattern of 69, the note number of A4.
pub const A4_NOTE: u32 = 0x428a_0000;

/// Pattern of 12, the semitones of an octave.
pub const OCTAVE: u32 = 0x4140_0000;

/// Pattern of 10.
pub const TEN: u32 = 0x4120_0000;

/// Pattern of 20, the decibels of a factor of ten.
pub const DECADE_DB: u32 = 0x41a0_0000;

/// Patterns of -3, 27 and 9, the coefficients of the saturator.
pub const CLIP_LOW: u32 = 0xc040_0000;

pub const CLIP_A: u32 = 0x41d8_0000;

pub const CLIP_B: u32 = 0x4110_0000;

/// Pattern of -6.9078: a decay to 0.1 %.
pub const SETTLE: u32 = 0xc0dd_0cb3;

/// Pattern of 0.7: below it the limiter does nothing.
pub const LIMIT_KNEE: u32 = 0x3f33_3333;

/// Frequency in Hz of a (fractional) MIDI note number (A4 = 69 = 440 Hz).
pub open spec fn note_hz(f: Sums, note: Single) -> Single {
    let octaves = f(Prim::Div, f(Prim::Sub, note, Single::of(A4_NOTE)), Single::of(OCTAVE));
    f(Prim::Mul, Single::of(A4_HZ), f(Prim::Exp2, octaves, octaves))
}

/// Frequency ratio of a pitch offset in semitones.
pub open spec fn ratio(f: Sums, semitones: Single) -> Single {
    let octaves = f(Prim::Div, semitones, Single::of(OCTAVE));
    f(Prim::Exp2, octaves, octaves)
}

/// Linear gain of a level in decibels.
pub open spec fn gain(f: Sums, db: Single) -> Single {
    f(Prim::Pow, Single::of(TEN), f(Prim::Div, db, Single::of(DECADE_DB)))
}

/// The point a fraction `t` of the way from `a` to `b`.
pub open spec fn between(f: Sums, a: Single, b: Single, t: Single) -> Single {
    f(Prim::Add, a, f(Prim::Mul, f(Prim::Sub, b, a), t))
}

/// A value drawn from [lo, hi): the point a fraction `t` of the way. Where rounding carries that
/// point out of the interval it is `lo`.
pub open spec fn drawn_from(f: Sums, lo: Single, hi: Single, t: Single) -> Single {
    let x = between(f, lo, hi, t);
    if lo.below(hi) && !(lo.at_most(x) && x.below(hi)) {
        lo
    } else {
        x
    }
}

/// A number lies in [0, 1].
pub open spec fn is_share(x: Single) -> bool {
    Single::of(ZERO).at_most(x) && x.at_most(Single::of(ONE))
}

/// A sample is a number within full scale.
pub open spec fn in_scale(y: Single) -> bool {
    y.finite() && y.absolute().at_most(Single::of(ONE))
}

/// A sample is no number, or one within full scale.
pub open spec fn never_loud(y: Single) -> bool {
    !y.nan() ==> in_scale(y)
}

/// Arithmetic in which the product of two numbers in [0, 1] lies there too, as a rounded product
/// does.
pub open spec fn shares_multiply(f: Sums) -> bool {
    forall|a: Single, b: Single| is_share(a) && is_share(b) ==> is_share(#[trigger] f(Prim::Mul, a, b))
}

/// A control value lies in [-1, 1].
pub open spec fn in_swing(x: Single) -> bool {
    Single::of(ONE).negated().at_most(x) && x.at_most(Single::of(ONE))
}

/// A control value brought into [-1, 1]; what is no number is 0.
pub open spec fn swung(x: Single) -> Single {
    if x.nan() {
        Single::of(ZERO)
    } else {
        x.within(Single::of(ONE).negated(), Single::of(ONE))
    }
}

/// A number lies on the way from one to another.
pub open spec fn on_the_way(a: Single, b: Single, x: Single) -> bool {
    ||| a.at_most(x) && x.at_most(b)
    ||| b.at_most(x) && x.at_most(a)
}

/// A phase lies in [0, 1).
pub open spec fn in_cycle(x: Single) -> bool {
    Single::of(ZERO).at_most(x) && x.below(Single::of(ONE))
}

/// A phase as it is; what lies outside the cycle is its start.
pub open spec fn cycled(x: Single) -> Single {
    if in_cycle(x) {
        x
    } else {
        Single::of(ZERO)
    }
}

/// The rational saturator on [-3, 3], clipped outside.
pub open spec fn saturated(f: Sums, x: Single) -> Single {
    let c = x.within(Single::of(CLIP_LOW), Single::of(THREE));
    let square = f(Prim::Mul, c, c);
    f(
        Prim::Div,
        f(Prim::Mul, c, f(Prim::Add, Single::of(CLIP_A), square)),
        f(Prim::Add, Single::of(CLIP_A), f(Prim::Mul, Single::of(CLIP_B), square)),
    )
}

/// Coefficient with which a one-pole filter reaches 99.9 % of its target in `secs`.
pub open spec fn smoothing(f: Sums, secs: Single, sample_rate: Single) -> Single {
    if secs.at_most(Single::of(ZERO)) {
        Single::of(ONE)
    } else {
        let x = f(Prim::Div, Single::of(SETTLE), f(Prim::Mul, secs, sample_rate));
        f(Prim::Sub, Single::of(ONE), f(Prim::Exp, x, x))
    }
}

/// What the master limiter makes of a sample: never more than 1 either way. What is no number
/// passes.
pub open spec fn limited(f: Sums, y: Single) -> Single {
    let (knee, one) = (Single::of(LIMIT_KNEE), Single::of(ONE));
    if y.nan() || y.absolute().at_most(knee) {
        y
    } else {
        let room = f(Prim::Sub, one, knee);
        let over = f(Prim::Div, f(Prim::Sub, y.absolute(), knee), room);
        f(Prim::Add, knee, f(Prim::Mul, room, saturated(f, over))).absolute().smaller(one).signed_as(y)
    }
}

/// Convert a (fractional) MIDI note number to frequency in Hz (A4 = 69 = 440 Hz).
pub fn midi_to_hz<A: Fn(Prim, Single, Single) -> Single>(a: &A, note: Single) -> (r: Single)
    requires
        total(*a),
    ensures
        forall|f: Sums| #[trigger] meant(*a, f) ==> r == note_hz(f, note),
{
    let octaves = a(Prim::Div, a(Prim::Sub, note, Single::of(A4_NOTE)), Single::of(OCTAVE));
    a(Prim::Mul, Single::of(A4_HZ), a(Prim::Exp2, octaves, octaves))
}

/// Frequency ratio for a pitch offset in semitones.
pub fn semitones_to_ratio<A: Fn(Prim, Single, Single) -> Single>(a: &A, semitones: Single) -> (r: Single)
    requires
        total(*a),
    ensures
        forall|f: Sums| #[trigger] meant(*a, f) ==> r == ratio(f, semitones),
{
    let octaves = a(Prim::Div, semitones, Single::of(OCTAVE));
    a(Prim::Exp2, octaves, octaves)
}

/// Decibels to linear gain.
pub fn db_to_gain<A: Fn(Prim, Single, Single) -> Single>(a: &A, db: Single) -> (r: Single)
    requires
        total(*a),
    ensures
        forall|f: Sums| #[trigger] meant(*a, f) ==> r == gain(f, db),
{
    a(Prim::Pow, Single::of(TEN), a(Prim::Div, db, Single::of(DECADE_DB)))
}

pub fn lerp<A: Fn(Prim, Single, Single) -> Single>(a: &A, from: Single, to: Single, t: Single) -> (r: Single)
    requires
        total(*a),
    ensures
        forall|f: Sums| #[trigger] meant(*a, f) ==> r == between(f, from, to, t),
{
    a(Prim::Add, from, a(Prim::Mul, a(Prim::Sub, to, from), t))
}

/// Cheap tanh-like saturator. Exact-ish on [-3, 3], hard clipped outside.
pub fn soft_clip<A: Fn(Prim, Single, Single) -> Single>(a: &A, x: Single) -> (r: Single)
    requires
        total(*a),
    ensures
        forall|f: Sums| #[trigger] meant(*a, f) ==> r == saturated(f, x),
{
    let c = x.clamp(Single::of(CLIP_LOW), Single::of(THREE));
    let square = a(Prim::Mul, c, c);
    a(
        Prim::Div,
        a(Prim::Mul, c, a(Prim::Add, Single::of(CLIP_A), square)),
        a(Prim::Add, Single::of(CLIP_A), a(Prim::Mul, Single::of(CLIP_B), square)),
    )
}

/// One-pole smoothing coefficient that reaches ~99.9% of its target in `secs`.
pub fn onepole_coef<A: Fn(Prim, Single, Single) -> Single>(a: &A, secs: Single, sample_rate: Single) -> (r: Single)
    requires
        total(*a),
    ensures
        forall|f: Sums| #[trigger] meant(*a, f) ==> r == smoothing(f, secs, sample_rate),
        secs.at_most(Single::of(ZERO)) ==> r == Single::of(ONE),
{
    if secs.le(Single::of(ZERO)) {
        Single::of(ONE)
    } else {
        let x = a(Prim::Div, Single::of(SETTLE), a(Prim::Mul, secs, sample_rate));
        a(Prim::Sub, Single::of(ONE), a(Prim::Exp, x, x))
    }
}

/// Master output limiter: identity below [`LIMIT_KNEE`], then soft saturation that never exceeds
/// 1 either way. Keeps hot patches from hard-clipping in the host engine.
pub fn limit<A: Fn(Prim, Single, Single) -> Single>(a: &A, y: Single) -> (r: Single)
    requires
        total(*a),
    ensures
        forall|f: Sums| #[trigger] meant(*a, f) ==> r == limited(f, y),
        y.absolute().at_most(Single::of(LIMIT_KNEE)) ==> r == y,
        !y.nan() ==> r.absolute().at_most(Single::of(ONE)),
{
    let (knee, one) = (Single::of(LIMIT_KNEE), Single::of(ONE));
    if y.is_nan() || y.abs().le(knee) {
        y
    } else {
        let room = a(Prim::Sub, one, knee);
        let over = a(Prim::Div, a(Prim::Sub, y.abs(), knee), room);
        let clipped = soft_clip(a, over);
        a(Prim::Add, knee, a(Prim::Mul, room, clipped)).abs().min(one).copysign(y)
    }
}

/// A control value brought into [-1, 1]; what is no number is 0.
pub fn swing(x: Single) -> (r: Single)
    ensures
        r == swung(x),
        in_swing(r),
{
    if x.is_nan() {
        Single::of(ZERO)
    } else {
        x.clamp(Single::of(ONE).neg(), Single::of(ONE))
    }
}

/// A phase kept in [0, 1): as it is, or the start of the cycle where it lies outside.
pub fn cycle(x: Single) -> (r: Single)
    ensures
        r == cycled(x),
        in_cycle(r),
{
    if Single::of(ZERO).le(x) && x.lt(Single::of(ONE)) {
        x
    } else {
        Single::of(ZERO)
    }
}

/// Seed used in place of zero, on which the generator would stand still.
pub const ZERO_SEED: u32 = 0x9e37_79b9;

pub const DEFAULT_SEED: u32 = 0x1234_5678;

/// Smallest number of steps between the values of [`Rng::next_fraction`]: they are multiples
/// of 2^-24.
pub const FRACTION_STEPS: u32 = 0x0100_0000;

/// State after one xorshift step.
pub open spec fn xorshift(x: u32) -> u32 {
    let a = x ^ (x << 13u32);
    let b = a ^ (a >> 17u32);
    b ^ (b << 5u32)
}

/// State after `n` steps.
pub open spec fn xorshift_steps(x: u32, n: nat) -> u32
    decreases n,
{
    if n == 0 {
        x
    } else {
        xorshift(xorshift_steps(x, (n - 1) as nat))
    }
}

/// State a seed starts from.
pub open spec fn seeded(seed: u32) -> u32 {
    if seed == 0 {
        ZERO_SEED
    } else {
        seed
    }
}

/// The fraction `n / 2^24`.
pub open spec fn unipolar(n: u32) -> Single {
    crate::single::with_value(n * pow2(125))
}

/// Twice the fraction `n / 2^24`, less one.
pub open spec fn bipolar(n: u32) -> Single {
    crate::single::with_value((n - 0x0080_0000) * pow2(126))
}

/// `n / 2^24`, which is a single for every 24-bit `n`.
fn fraction_single(n: u32) -> (r: Single)
    requires
        n < FRACTION_STEPS,
    ensures
        r == unipolar(n),
        r.finite(),
        r.value() == n * pow2(125),
        0 <= r.value() < crate::single::unit(),
{
    proof {
        lemma_pow2_adds(24, 125);
        lemma_pow2_pos(125);
        lemma2_to64();
        assert(0 <= n * pow2(125) < 0x0100_0000 * pow2(125)) by (nonlinear_arith)
            requires
                0 <= n < 0x0100_0000,
                pow2(125) > 0,
        ;
    }
    exact(n, 24)
}

/// `n / 2^23 - 1`, which is a single for every 24-bit `n`.
fn bipolar_single(n: u32) -> (r: Single)
    requires
        n < FRACTION_STEPS,
    ensures
        r == bipolar(n),
        r.finite(),
        r.value() == (n - 0x0080_0000) * pow2(126),
        -crate::single::unit() <= r.value() < crate::single::unit(),
{
    proof {
        lemma_pow2_adds(23, 126);
        lemma_pow2_pos(126);
        lemma2_to64();
        assert(-(0x0080_0000 * pow2(126)) <= (n - 0x0080_0000) * pow2(126) < 0x0080_0000 * pow2(126)) by (nonlinear_arith)
            requires
                0 <= n < 0x0100_0000,
                pow2(126) > 0,
        ;
    }
    if n >= 0x0080_0000 {
        exact(n - 0x0080_0000, 23)
    } else {
        let size = exact(0x0080_0000 - n, 23);
        let r = size.neg();
        proof {
            assert((n - 0x0080_0000) * pow2(126) == -((0x0080_0000 - n) * pow2(126))) by (nonlinear_arith);
            assert((0x0080_0000 - n) * pow2(126) > 0) by (nonlinear_arith)
                requires
                    n < 0x0080_0000,
                    pow2(126) > 0,
            ;
            assert(r.magnitude() == size.magnitude());
            crate::single::lemma_with_value(r);
        }
        r
    }
}

/// Tiny xorshift32 generator. Deterministic, allocation free, good enough for audio noise and
/// preset randomisation. Not for anything security related.
#[derive(Clone, Copy, Debug, PartialEq, Eq, Structural)]
pub struct Rng(u32);

impl Rng {
    /// The number the next one is made from.
    pub closed spec fn state(self) -> u32 {
        self.0
    }

    /// A generator that can run: from state zero it would return zero for ever.
    pub open spec fn wf(self) -> bool {
        self.state() != 0
    }

    /// The generator after one draw.
    pub closed spec fn advanced(self) -> Rng {
        Rng(xorshift(self.0))
    }

    /// The generator a seed makes.
    pub closed spec fn seeded_with(seed: u32) -> Rng {
        Rng(seeded(seed))
    }

    /// Numerator of the next fraction: 24 random bits.
    pub open spec fn fraction(self) -> u32 {
        self.advanced().state() >> 8u32
    }

    pub fn new(seed: u32) -> (r: Rng)
        ensures
            r == Rng::seeded_with(seed),
            r.state() == seeded(seed),
            r.wf(),
    {
        Rng(if seed == 0 { ZERO_SEED } else { seed })
    }

    pub fn next_u32(&mut self) -> (r: u32)
        ensures
            *final(self) == old(self).advanced(),
            final(self).state() == xorshift(old(self).state()),
            r == final(self).state(),
            old(self).wf() ==> final(self).wf() && r != 0,
    {
        let mut x: u32 = self.0;
        x = x ^ (x << 13u32);
        x = x ^ (x >> 17u32);
        x = x ^ (x << 5u32);
        self.0 = x;
        proof {
            if old(self).wf() {
                lemma_xorshift_nonzero(old(self).state());
            }
        }
        x
    }

    /// The random bits of [`Rng::next_fraction`]: an integer below 2^24.
    pub fn next_bits(&mut self) -> (r: u32)
        ensures
            r == old(self).fraction(),
            r < FRACTION_STEPS,
            *final(self) == old(self).advanced(),
            old(self).wf() ==> final(self).wf(),
    {
        let x = self.next_u32();
        assert(x >> 8u32 < 0x0100_0000u32) by (bit_vector);
        x >> 8u32
    }

    /// Uniform in [0, 1): the next 24 random bits over 2^24, exactly.
    pub fn next_f32(&mut self) -> (r: Single)
        ensures
            r == unipolar(old(self).fraction()),
            r.finite(),
            r.value() == old(self).fraction() * pow2(125),
            0 <= r.value() < crate::single::unit(),
            *final(self) == old(self).advanced(),
            old(self).wf() ==> final(self).wf(),
    {
        let n = self.next_bits();
        fraction_single(n)
    }

    /// Uniform in [-1, 1): twice the fraction less one, exactly.
    pub fn next_bipolar(&mut self) -> (r: Single)
        ensures
            r == bipolar(old(self).fraction()),
            r.finite(),
            r.value() == (old(self).fraction() - 0x0080_0000) * pow2(126),
            -crate::single::unit() <= r.value() < crate::single::unit(),
            *final(self) == old(self).advanced(),
            old(self).wf() ==> final(self).wf(),
    {
        let n = self.next_bits();
        bipolar_single(n)
    }

    /// Uniform in [lo, hi), which is never left where the bounds are numbers in that order.
    pub fn range<A: Fn(Prim, Single, Single) -> Single>(&mut self, a: &A, lo: Single, hi: Single) -> (r: Single)
        requires
            total(*a),
        ensures
            forall|f: Sums| #[trigger]
                meant(*a, f) ==> r == drawn_from(f, lo, hi, unipolar(old(self).fraction())),
            lo.below(hi) ==> lo.at_most(r) && r.below(hi),
            *final(self) == old(self).advanced(),
            old(self).wf() ==> final(self).wf(),
    {
        let span = a(Prim::Sub, hi, lo);
        let t = self.next_f32();
        let x = a(Prim::Add, lo, a(Prim::Mul, span, t));
        if lo.lt(hi) && !(lo.le(x) && x.lt(hi)) {
            lo
        } else {
            x
        }
    }

    /// True with probability `p`: whether the next fraction is below it.
    pub fn chance(&mut self, p: Single) -> (r: bool)
        ensures
            r == unipolar(old(self).fraction()).below(p),
            *final(self) == old(self).advanced(),
            old(self).wf() ==> final(self).wf(),
    {
        let u = self.next_f32();
        u.lt(p)
    }
}

impl Default for Rng {
    fn default() -> (r: Rng)
        ensures
            r == Rng::seeded_with(DEFAULT_SEED),
            r.wf(),
    {
        Rng::new(DEFAULT_SEED)
    }
}

/// A running generator never reaches zero, so it never stops.
pub proof fn lemma_xorshift_nonzero(x: u32)
    requires
        x != 0,
    ensures
        xorshift(x) != 0,
{
    assert(x != 0u32 ==> ({
        let a = x ^ (x << 13u32);
        let b = a ^ (a >> 17u32);
        b ^ (b << 5u32)
    }) != 0u32) by (bit_vector);
}

/// No two states lead to the same state: the stream never merges into another one.
pub proof fn lemma_xorshift_injective(x: u32, y: u32)
    requires
        xorshift(x) == xorshift(y),
    ensures
        x == y,
{
    assert(x == y) by (bit_vector)
        requires
            ({
                let a = x ^ (x << 13u32);
                let b = a ^ (a >> 17u32);
                b ^ (b << 5u32)
            }) == ({
                let c = y ^ (y << 13u32);
                let d = c ^ (c >> 17u32);
                d ^ (d << 5u32)
            }),
    ;
}

/// Whatever the seed, no number of draws brings the generator to a standstill.
pub proof fn lemma_stream_never_stops(seed: u32, n: nat)
    ensures
        xorshift_steps(seeded(seed), n) != 0,
    decreases n,
{
    if n > 0 {
        lemma_stream_never_stops(seed, (n - 1) as nat);
        lemma_xorshift_nonzero(xorshift_steps(seeded(seed), (n - 1) as nat));
    }
}

/// The limiter passes what is below its knee, never turns a sample over and never lets one out
/// above 1.
pub proof fn lemma_limiter_is_gentle(f: Sums, y: Single)
    ensures
        y.absolute().at_most(Single::of(LIMIT_KNEE)) ==> limited(f, y) == y,
        limited(f, y).negative() == y.negative(),
        !y.nan() ==> limited(f, y).absolute().at_most(Single::of(ONE)),
{
}

/// Saturation makes no difference between what is beyond its bounds and the bounds themselves.
pub proof fn lemma_saturation_is_bounded(f: Sums, x: Single)
    requires
        !x.nan(),
    ensures
        Single::of(THREE).below(x) ==> saturated(f, x) == saturated(f, Single::of(THREE)),
        x.below(Single::of(CLIP_LOW)) ==> saturated(f, x) == saturated(f, Single::of(CLIP_LOW)),
{
}

/// The limiter treats both signs alike.
pub proof fn lemma_limiter_is_odd(f: Sums, y: Single)
    ensures
        limited(f, y.negated()) == limited(f, y).negated(),
{
    assert(y.negated().absolute() == y.absolute());
    assert(y.negated().negative() == !y.negative());
}

/// Room between the knee of the limiter and full scale.
pub open spec fn headroom(f: Sums) -> Single {
    f(Prim::Sub, Single::of(ONE), Single::of(LIMIT_KNEE))
}

/// How far a level above the knee is over it, in rooms.
pub open spec fn excess(f: Sums, y: Single) -> Single {
    f(Prim::Div, f(Prim::Sub, y, Single::of(LIMIT_KNEE)), headroom(f))
}

/// A share of the room on top of the knee.
pub open spec fn raised(f: Sums, x: Single) -> Single {
    f(Prim::Add, Single::of(LIMIT_KNEE), f(Prim::Mul, headroom(f), x))
}

/// Arithmetic that keeps the signs of what the limiter works with, as rounded arithmetic does.
pub open spec fn limiter_holds(f: Sums) -> bool {
    let (zero, knee) = (Single::of(ZERO), Single::of(LIMIT_KNEE));
    &&& forall|y: Single| knee.below(y) ==> zero.at_most(#[trigger] excess(f, y))
    &&& forall|x: Single| zero.at_most(x) ==> zero.at_most(#[trigger] saturated(f, x)) && saturated(f, x).finite()
    &&& forall|x: Single| zero.at_most(x) && x.finite() ==> knee.at_most(#[trigger] raised(f, x))
}

/// What is above the knee stays there.
pub proof fn lemma_limiter_stays_above_knee(f: Sums, y: Single)
    requires
        limiter_holds(f),
        Single::of(LIMIT_KNEE).below(y.absolute()),
    ensures
        Single::of(LIMIT_KNEE).at_most(limited(f, y).absolute()),
        limited(f, y).absolute().at_most(Single::of(ONE)),
{
    let over = excess(f, y.absolute());
    assert(Single::of(ZERO).at_most(saturated(f, over)));
    assert(Single::of(LIMIT_KNEE).at_most(raised(f, saturated(f, over))));
}

/// The next random fraction has 24 bits.
pub proof fn lemma_fraction_bits(r: Rng)
    ensures
        r.fraction() < FRACTION_STEPS,
{
    let x = r.advanced().state();
    assert(x >> 8u32 < 0x0100_0000u32) by (bit_vector);
}

/// A random fraction is in [0, 1), and twice it less one in [-1, 1).
pub proof fn lemma_fraction_held(n: u32)
    requires
        n < FRACTION_STEPS,
    ensures
        unipolar(n).finite(),
        in_cycle(unipolar(n)),
        unipolar(n).value() == n * pow2(125),
        bipolar(n).finite(),
        in_swing(bipolar(n)),
        bipolar(n).value() == (n - 0x0080_0000) * pow2(126),
{
    crate::single::lemma_scaled_held(n as int, 125);
    crate::single::lemma_scaled_held(n - 0x0080_0000, 126);
    crate::single::lemma_one();
    lemma_pow2_adds(24, 125);
    lemma_pow2_adds(23, 126);
    lemma_pow2_pos(125);
    lemma_pow2_pos(126);
    lemma2_to64();
    assert(0 <= n * pow2(125) < 0x0100_0000 * pow2(125)) by (nonlinear_arith)
        requires
            0 <= n < 0x0100_0000,
            pow2(125) > 0,
    ;
    assert(-(0x0080_0000 * pow2(126)) <= (n - 0x0080_0000) * pow2(126) < 0x0080_0000 * pow2(126)) by (nonlinear_arith)
        requires
            0 <= n < 0x0100_0000,
            pow2(126) > 0,
    ;
    let one = Single::of(ONE);
    assert(one.negated().value() == -one.value());
    assert(Single::of(ZERO).value() == 0);
    crate::single::lemma_order_is_value_order(Single::of(ZERO), unipolar(n));
    crate::single::lemma_order_is_value_order(unipolar(n), one);
    crate::single::lemma_order_is_value_order(one.negated(), bipolar(n));
    crate::single::lemma_order_is_value_order(bipolar(n), one);
}

} // verus!
