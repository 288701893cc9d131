//! What the modulators of a voice, the master effects and the commands of the synth do.
use vstd::prelude::*;

use crate::arith::{Prim, Sums};
use crate::effects::{EffectsView, Hold};
use crate::env::Stage;
use crate::osc::Waveform;
use crate::patch::{FxParams, OscParams, Patch};
use crate::single::{Single, HALF, ONE, ZERO};
use crate::synth::SynthView;
use crate::voice::{Course, Drive, Sound, Tone, Voice, P12, P60};

verus! {

/// How loud a voice is: at full velocity as loud as the patch, whatever its sensitivity; without
/// sensitivity the velocity does not matter, and with full sensitivity the loudness is the velocity.
pub proof fn lemma_velocity_sets_loudness(v: Voice, f: Sums, p: Patch, sample_rate: Single, bend: Single, n: Single)
    requires
        crate::rounding::unit_exact(f),
        crate::math::is_share(p.velocity_sens),
        crate::math::is_share(v.velocity),
        p.lfo.amp.zero(),
        crate::math::in_swing(v.swing(f, p, sample_rate, n)),
    ensures
        v.velocity == Single::of(ONE) ==> v.steered(f, p, sample_rate, bend, n).1.gain == Single::of(ONE),
        p.velocity_sens.zero() ==> v.steered(f, p, sample_rate, bend, n).1.gain == Single::of(ONE),
        p.velocity_sens == Single::of(ONE) ==> crate::rounding::same(v.steered(f, p, sample_rate, bend, n).1.gain, v.velocity),
{
    let (half, one) = (Single::of(HALF), Single::of(ONE));
    let lfo = v.swing(f, p, sample_rate, n);
    let swing = f(Prim::Add, half, f(Prim::Mul, half, lfo));
    assert(lfo.finite() && lfo.absolute().at_most(one));
    assert(crate::rounding::modest(f(Prim::Mul, half, lfo)));
    assert(swing.finite());
    assert(f(Prim::Mul, p.lfo.amp, swing).zero());
    assert(f(Prim::Sub, one, f(Prim::Mul, p.lfo.amp, swing)) == one);
    let left = f(Prim::Sub, one, p.velocity_sens);
    assert(f(Prim::Add, left, p.velocity_sens) == one);
    assert(f(Prim::Sub, one, one).zero());
}

/// A harder note is never softer.
pub proof fn lemma_harder_is_louder(v: Voice, w: Voice, f: Sums, p: Patch, sample_rate: Single, bend: Single, n: Single)
    requires
        crate::rounding::unit_exact(f),
        crate::rounding::keeps_order(f),
        crate::math::is_share(p.velocity_sens),
        crate::math::is_share(v.velocity) && crate::math::is_share(w.velocity),
        v.velocity.at_most(w.velocity),
        p.lfo.amp.zero(),
        crate::math::in_swing(v.swing(f, p, sample_rate, n)),
        crate::math::in_swing(w.swing(f, p, sample_rate, n)),
    ensures
        v.steered(f, p, sample_rate, bend, n).1.gain.at_most(w.steered(f, p, sample_rate, bend, n).1.gain),
{
    let (zero, half, one) = (Single::of(ZERO), Single::of(HALF), Single::of(ONE));
    let (x, y) = (v.swing(f, p, sample_rate, n), w.swing(f, p, sample_rate, n));
    assert(crate::rounding::modest(f(Prim::Mul, half, x)) && crate::rounding::modest(f(Prim::Mul, half, y)));
    let (sx, sy) = (f(Prim::Add, half, f(Prim::Mul, half, x)), f(Prim::Add, half, f(Prim::Mul, half, y)));
    assert(sx.finite() && sy.finite());
    assert(f(Prim::Mul, p.lfo.amp, sx).zero() && f(Prim::Mul, p.lfo.amp, sy).zero());
    let left = f(Prim::Sub, one, p.velocity_sens);
    assert(left.at_most(f(Prim::Sub, one, zero)));
    assert(f(Prim::Sub, one, one).at_most(left));
    assert(crate::rounding::modest(left));
    let (a, b) = (f(Prim::Mul, p.velocity_sens, v.velocity), f(Prim::Mul, p.velocity_sens, w.velocity));
    assert(a.at_most(b));
    assert(crate::rounding::modest(a) && crate::rounding::modest(b));
    assert(f(Prim::Add, left, a).at_most(f(Prim::Add, left, b)));
    assert(f(Prim::Add, left, a).finite() && f(Prim::Add, left, b).finite());
}

/// Tremolo only takes away: nothing where the oscillation is at its bottom, and all of its depth
/// where it is at its top, where a full tremolo is silence.
pub proof fn lemma_tremolo(v: Voice, f: Sums, p: Patch, sample_rate: Single, bend: Single, n: Single)
    requires
        crate::rounding::unit_exact(f),
        crate::rounding::small_exact(f),
        crate::rounding::signs_multiply(f),
        v.velocity == Single::of(ONE),
        crate::math::is_share(p.velocity_sens),
        crate::math::is_share(p.lfo.amp),
    ensures
        v.swing(f, p, sample_rate, n) == Single::of(ONE).negated() ==> v.steered(f, p, sample_rate, bend, n).1.gain == Single::of(
            ONE,
        ),
        v.swing(f, p, sample_rate, n) == Single::of(ONE) ==> crate::rounding::same(
            v.steered(f, p, sample_rate, bend, n).1.gain,
            f(Prim::Sub, Single::of(ONE), p.lfo.amp),
        ),
        v.swing(f, p, sample_rate, n) == Single::of(ONE) && p.lfo.amp == Single::of(ONE) ==> v.steered(
            f,
            p,
            sample_rate,
            bend,
            n,
        ).1.gain.zero(),
{
    let (half, one) = (Single::of(HALF), Single::of(ONE));
    let left = f(Prim::Sub, one, p.velocity_sens);
    assert(f(Prim::Add, left, p.velocity_sens) == one);
    assert(f(Prim::Mul, half, one) == half);
    assert(f(Prim::Mul, half, one.negated()) == half.negated());
    assert(f(Prim::Mul, p.lfo.amp, Single::of(ZERO)).zero());
    assert(f(Prim::Sub, one, one).zero());
    assert(f(Prim::Sub, one, p.lfo.amp).finite());
}

/// A voice without slide, arpeggio, vibrato and pitch modulation plays its note, bent.
pub proof fn lemma_unmodulated_pitch(v: Voice, f: Sums, p: Patch, lfo: Single, bend: Single)
    requires
        crate::rounding::unit_exact(f),
        crate::rounding::modest(bend),
        v.t.finite(),
        lfo.finite(),
        p.pitch.slide.zero() || v.t.zero(),
        p.pitch.slide_accel.zero() || v.t.zero(),
        p.pitch.slide.finite() && p.pitch.slide_accel.finite() && p.lfo.pitch.finite(),
        p.pitch.arp_semitones.zero() || v.t.below(p.pitch.arp_time) || p.pitch.arp_time.at_most(Single::of(ZERO)),
        p.pitch.vibrato_depth.at_most(Single::of(ZERO)) || p.pitch.vibrato_rate.at_most(Single::of(ZERO)),
        p.lfo.pitch.zero() || lfo.zero(),
    ensures
        crate::rounding::same(v.pitch_mod(f, p, lfo, bend), bend),
{
    let t = v.t;
    let half = Single::of(HALF);
    let curve = f(Prim::Mul, half, p.pitch.slide_accel);
    assert(f(Prim::Mul, p.pitch.slide, t).zero());
    assert(curve.finite());
    assert(f(Prim::Mul, curve, t).zero());
    assert(f(Prim::Mul, f(Prim::Mul, curve, t), t).zero());
    assert(f(Prim::Mul, lfo, p.lfo.pitch).zero());
}

/// Each modulator of the pitch by itself, in semitones: after a second the slide has moved the pitch by
/// its rate, and its acceleration by half of its own; the arpeggio jumps at its time and not before;
/// the oscillator moves the pitch by its depth at its top.
pub proof fn lemma_pitch_modulators(v: Voice, f: Sums, p: Patch, lfo: Single)
    requires
        crate::rounding::unit_exact(f),
        v.t.finite(),
        lfo.finite(),
        crate::rounding::modest(p.pitch.slide) && crate::rounding::modest(p.pitch.slide_accel) && crate::rounding::modest(p.lfo.pitch) && crate::rounding::modest(p.pitch.arp_semitones),
        p.pitch.vibrato_depth.at_most(Single::of(ZERO)) || p.pitch.vibrato_rate.at_most(Single::of(ZERO)),
    ensures
        ({
            let still = p.pitch.arp_semitones.zero() && (p.lfo.pitch.zero() || lfo.zero());
            &&& still && p.pitch.slide_accel.zero() && v.t == Single::of(ONE) ==> crate::rounding::same(
                v.pitch_mod(f, p, lfo, Single::of(ZERO)),
                p.pitch.slide,
            )
            &&& still && p.pitch.slide.zero() && v.t == Single::of(ONE) ==> crate::rounding::same(
                v.pitch_mod(f, p, lfo, Single::of(ZERO)),
                f(Prim::Mul, Single::of(HALF), p.pitch.slide_accel),
            )
        }),
        ({
            let level = p.pitch.slide.zero() && p.pitch.slide_accel.zero();
            &&& level && (p.lfo.pitch.zero() || lfo.zero()) && Single::of(ZERO).below(p.pitch.arp_time) ==> crate::rounding::same(
                v.pitch_mod(f, p, lfo, Single::of(ZERO)),
                if p.pitch.arp_time.at_most(v.t) {
                    p.pitch.arp_semitones
                } else {
                    Single::of(ZERO)
                },
            )
            &&& level && p.pitch.arp_semitones.zero() && lfo == Single::of(ONE) ==> crate::rounding::same(
                v.pitch_mod(f, p, lfo, Single::of(ZERO)),
                p.lfo.pitch,
            )
        }),
{
    let (t, half, one) = (v.t, Single::of(HALF), Single::of(ONE));
    let curve = f(Prim::Mul, half, p.pitch.slide_accel);
    assert(crate::rounding::modest(curve));
    if p.pitch.slide_accel.zero() {
        assert(curve.zero());
        assert(f(Prim::Mul, curve, t).zero());
        assert(f(Prim::Mul, f(Prim::Mul, curve, t), t).zero());
    }
    if t == one {
        assert(f(Prim::Mul, curve, t) == curve);
    }
}

/// Pitch bend and transposition are the same thing: a full bend sounds like a transposition by the
/// bend range.
pub proof fn lemma_bend_is_transposition(s: SynthView, t: SynthView, f: Sums, n: nat)
    requires
        crate::rounding::unit_exact(f),
        s.patch.pitch.bend_range.finite(),
        !s.patch.pitch.bend_range.zero(),
        s.pitch_bend == Single::of(ONE) && s.transpose == Single::of(ZERO),
        t == (SynthView { pitch_bend: Single::of(ZERO), transpose: s.patch.pitch.bend_range, ..s }),
    ensures
        s.chunk(f, n).1 == t.chunk(f, n).1,
        s.chunk(f, n).0.voices == t.chunk(f, n).0.voices,
{
    reveal(SynthView::chunk);
    let range = s.patch.pitch.bend_range;
    assert(f(Prim::Mul, Single::of(ONE), range) == range);
    assert(f(Prim::Add, range, Single::of(ZERO)) == range);
    assert(f(Prim::Mul, Single::of(ZERO), range).zero());
}

/// Each modulator of the cutoff by itself, in octaves: the envelope at its peak moves it by its
/// amount, the sweep after a second by its rate, the oscillator at its top by its depth; the key moves
/// it where it is tracked, but not at note 60, and so does a softer note, but not one at full velocity.
pub proof fn lemma_cutoff_modulators(v: Voice, f: Sums, p: Patch, cur_note: Single, lfo: Single)
    requires
        crate::rounding::unit_exact(f),
        crate::rounding::modest(p.filter.env_amount) && crate::rounding::modest(p.filter.key_track) && crate::rounding::modest(p.filter.sweep) && crate::rounding::modest(p.filter.velocity)
            && crate::rounding::modest(p.lfo.cutoff),
        v.t.finite() && lfo.finite(),
        crate::math::is_share(v.velocity),
        crate::math::is_share(v.sound.filter_env.level),
        crate::rounding::modest(cur_note),
    ensures
        ({
            let no_env = p.filter.env_amount.zero() || v.sound.filter_env.level.zero();
            let no_key = cur_note == Single::of(P60);
            let no_sweep = p.filter.sweep.zero() || v.t.zero();
            let no_lfo = p.lfo.cutoff.zero() || lfo.zero();
            let no_velocity = p.filter.velocity.zero() || v.velocity == Single::of(ONE);
            &&& no_env && no_key && no_sweep && no_lfo && no_velocity ==> v.cutoff_octaves(f, p, cur_note, lfo).zero()
            &&& v.sound.filter_env.level == Single::of(ONE) && no_key && no_sweep && no_lfo && no_velocity ==> crate::rounding::same(
                v.cutoff_octaves(f, p, cur_note, lfo),
                p.filter.env_amount,
            )
            &&& no_env && no_key && v.t == Single::of(ONE) && no_lfo && no_velocity ==> crate::rounding::same(
                v.cutoff_octaves(f, p, cur_note, lfo),
                p.filter.sweep,
            )
            &&& no_env && no_key && no_sweep && lfo == Single::of(ONE) && no_velocity ==> crate::rounding::same(
                v.cutoff_octaves(f, p, cur_note, lfo),
                p.lfo.cutoff,
            )
            &&& no_env && p.filter.key_track == Single::of(ONE) && no_sweep && no_lfo && no_velocity && f(
                Prim::Sub,
                cur_note,
                Single::of(P60),
            ) == Single::of(P12) ==> v.cutoff_octaves(f, p, cur_note, lfo) == Single::of(ONE)
            &&& crate::rounding::signs_multiply(f) && no_env && no_key && no_sweep && no_lfo && v.velocity.zero() ==> crate::rounding::same(
                v.cutoff_octaves(f, p, cur_note, lfo),
                p.filter.velocity.negated(),
            )
        }),
{
    let (zero, one, sixty, twelve) = (Single::of(ZERO), Single::of(ONE), Single::of(P60), Single::of(P12));
    let env = f(Prim::Mul, v.sound.filter_env.level, p.filter.env_amount);
    let above = f(Prim::Sub, cur_note, sixty);
    let key = f(Prim::Div, f(Prim::Mul, p.filter.key_track, above), twelve);
    let sweep = f(Prim::Mul, p.filter.sweep, v.t);
    let wave = f(Prim::Mul, lfo, p.lfo.cutoff);
    let soft = f(Prim::Mul, p.filter.velocity, f(Prim::Sub, v.velocity, one));
    assert(f(Prim::Sub, sixty, sixty).zero());
    assert(cur_note == sixty ==> key.zero());
    assert(f(Prim::Sub, one, one).zero());
    assert(v.velocity == one ==> soft.zero());
    assert(crate::rounding::modest(v.velocity));
    assert(f(Prim::Sub, v.velocity, one).finite());
    assert(f(Prim::Div, twelve, twelve) == one);
    if v.velocity.zero() {
        assert(f(Prim::Sub, v.velocity, one) == one.negated());
    }
    let e = f(Prim::Add, env, key);
    let g = f(Prim::Add, e, sweep);
    let h = f(Prim::Add, g, wave);
}

/// A filter whose cutoff nothing moves is tuned to the cutoff of the patch.
pub proof fn lemma_unmodulated_cutoff(v: Voice, f: Sums, p: Patch, sample_rate: Single, bend: Single, n: Single)
    requires
        crate::rounding::unit_exact(f),
        p.filter.cutoff_hz.finite(),
        v.cutoff_octaves(f, p, v.glided(f, p, sample_rate, n), v.swing(f, p, sample_rate, n)).zero(),
    ensures
        v.steered(f, p, sample_rate, bend, n).0.sound.filter == v.sound.filter.tuned(
            f,
            p.filter.mode,
            p.filter.cutoff_hz,
            p.filter.resonance,
            sample_rate,
        ),
{
}

/// Without glide a voice jumps to its note; with glide it moves there and never away from it, and a
/// voice that has arrived stays.
pub proof fn lemma_glide(v: Voice, f: Sums, p: Patch, sample_rate: Single, n: Single)
    requires
        crate::rounding::unit_exact(f),
        crate::rounding::keeps_order(f),
        crate::rounding::modest(v.note) && crate::rounding::modest(v.cur_note),
        crate::math::is_share(crate::math::smoothing(f, p.pitch.glide, f(Prim::Div, sample_rate, n))),
    ensures
        p.pitch.glide.at_most(Single::of(ZERO)) ==> v.glided(f, p, sample_rate, n) == v.note,
        v.cur_note == v.note ==> crate::rounding::same(v.glided(f, p, sample_rate, n), v.note),
        v.cur_note.at_most(v.note) ==> v.cur_note.at_most(v.glided(f, p, sample_rate, n)),
        v.note.at_most(v.cur_note) ==> v.glided(f, p, sample_rate, n).at_most(v.cur_note),
{
    let zero = Single::of(ZERO);
    let c = crate::math::smoothing(f, p.pitch.glide, f(Prim::Div, sample_rate, n));
    let gap = f(Prim::Sub, v.note, v.cur_note);
    assert(gap.finite());
    assert(f(Prim::Sub, v.note, v.note).zero());
    assert(f(Prim::Sub, v.cur_note, v.cur_note).zero());
    let step = f(Prim::Mul, gap, c);
    assert(step.finite());
    if v.cur_note.at_most(v.note) {
        assert(f(Prim::Sub, v.cur_note, v.cur_note).at_most(gap));
        assert(f(Prim::Mul, zero, c).at_most(step));
        assert(f(Prim::Add, v.cur_note, zero).at_most(f(Prim::Add, v.cur_note, step)));
    }
    if v.note.at_most(v.cur_note) {
        assert(gap.at_most(f(Prim::Sub, v.cur_note, v.cur_note)));
        assert(step.at_most(f(Prim::Mul, zero, c)));
        assert(f(Prim::Add, v.cur_note, step).at_most(f(Prim::Add, v.cur_note, zero)));
    }
}

/// A silent or pitchless oscillator has no pitch; one that is tuned up by some semitones plays what an
/// untuned one plays that much higher, and an untuned one plays the note.
pub proof fn lemma_tuning(f: Sums, o: OscParams, q: OscParams, note: Single, sample_rate: Single)
    requires
        crate::rounding::unit_exact(f),
        crate::rounding::modest(note),
        q == (OscParams { semitones: Single::of(ZERO), ..o }),
        o.detune_cents.zero(),
    ensures
        o.level.at_most(Single::of(ZERO)) ==> Tone::goal(f, o, note, sample_rate) == Single::of(ZERO),
        o.wave == Waveform::WhiteNoise || o.wave == Waveform::PinkNoise ==> Tone::goal(f, o, note, sample_rate) == Single::of(ZERO),
        !note.zero() && Tone::pitched(q) ==> Tone::goal(f, q, note, sample_rate) == f(Prim::Div, crate::math::note_hz(f, note), sample_rate),
        !f(Prim::Add, note, o.semitones).zero() && !f(Prim::Add, note, o.semitones).nan() ==> Tone::goal(
            f,
            o,
            note,
            sample_rate,
        ) == Tone::goal(f, q, f(Prim::Add, note, o.semitones), sample_rate),
{
}

/// An oscillator without level is not in the mix; one at full level is added as it is.
pub proof fn lemma_levels_mix(t: Tone, f: Sums, o: OscParams, c: Course, mix: Single)
    requires
        crate::rounding::unit_exact(f),
        !t.osc.sample(f, o.wave, f(Prim::Add, t.dt, c.step), c.pw).nan(),
    ensures
        o.level.at_most(Single::of(ZERO)) ==> t.mixed(f, o, c, mix) == mix && t.moved(f, o, c) == t,
        o.level == Single::of(ONE) ==> t.mixed(f, o, c, mix) == f(
            Prim::Add,
            mix,
            t.osc.sample(f, o.wave, f(Prim::Add, t.dt, c.step), c.pw),
        ),
{
}

/// A voice whose envelope is at zero, or whose gain is, adds nothing.
pub proof fn lemma_quiet_voice_adds_nothing(f: Sums, p: Patch, d: Drive, s: Sound, v: Single)
    requires
        crate::rounding::unit_exact(f),
        !v.nan(),
        ({
            let mix = s.tone3.mixed(f, p.osc3, d.course3, s.tone2.mixed(f, p.osc2, d.course2, s.tone1.mixed(f, p.osc1, d.course1, Single::of(ZERO))));
            s.filter.output(f, mix).finite()
        }),
        s.amp_env.proper(),
        d.gain.finite(),
        d.gain.zero() || s.amp_env.ticked(f).level.zero(),
    ensures
        crate::rounding::same(crate::voice::sound_tick(f, p, d, s, v).1, v),
{
    let mix = s.tone3.mixed(f, p.osc3, d.course3, s.tone2.mixed(f, p.osc2, d.course2, s.tone1.mixed(f, p.osc1, d.course1, Single::of(ZERO))));
    let heard = s.filter.output(f, mix);
    let level = s.amp_env.ticked(f).level;
    crate::env::lemma_envelope_is_proper(s.amp_env, f, crate::env::AdsrParams::plain(), Single::of(ONE));
    assert(crate::math::is_share(level));
    assert(f(Prim::Mul, heard, level).finite());
}

/// A note with a duration is let go after that many samples and not before; one without is held.
pub proof fn lemma_duration(v: Voice, f: Sums, p: Patch, sample_rate: Single, note: Single, velocity: Single, duration: Single, age: u64, legato: bool, k: int)
    requires
        f(Prim::Mul, duration, sample_rate) == crate::single::sized(k as nat),
        0 <= k <= 0x0100_0000,
    ensures
        ({
            let w = v.started(f, p, sample_rate, note, velocity, duration, age, legato);
            &&& Single::of(ZERO).below(duration) ==> w.auto_release == k
            &&& !Single::of(ZERO).below(duration) ==> w.auto_release < 0
            &&& w.active && w.note == note && w.key == note.nearest_int() && w.age == age
            &&& crate::math::is_share(velocity) ==> w.velocity == velocity
        }),
{
    crate::rounding::lemma_whole_number(k);
    let x = crate::single::sized(k as nat);
    assert(!x.below(Single::of(ZERO)));
    vstd::arithmetic::power2::lemma_pow2_pos(149);
    assert((note.units() + vstd::arithmetic::power2::pow2(148)) / crate::single::unit() >= 0);

}

/// The countdown to the release of a note: it runs by the samples played, and lets go when it is over.
pub proof fn lemma_countdown(v: Voice, f: Sums, sample_rate: Single, n: int)
    requires
        0 < n <= 0x0100_0000,
    ensures
        v.auto_release < 0 ==> v.settled(f, sample_rate, n).sound == v.sound && v.settled(f, sample_rate, n).auto_release
            == v.auto_release,
        0 <= v.auto_release <= n ==> v.settled(f, sample_rate, n).let_go(),
        n < v.auto_release ==> v.settled(f, sample_rate, n).sound == v.sound && v.settled(f, sample_rate, n).auto_release
            == v.auto_release - n,
        v.sound.amp_env.stage == Stage::Idle ==> !v.settled(f, sample_rate, n).active,
        v.sound.amp_env.stage != Stage::Idle ==> v.settled(f, sample_rate, n).active == v.active,
{
}

/// In legato a note that follows a held one keeps the sound going: phases, filter, envelopes and the
/// pitch it glides from.
pub proof fn lemma_legato_goes_on(v: Voice, f: Sums, p: Patch, sample_rate: Single, note: Single, velocity: Single, duration: Single, age: u64)
    requires
        v.active,
    ensures
        !v.let_go() ==> v.started(f, p, sample_rate, note, velocity, duration, age, true).sound == v.sound,
        v.started(f, p, sample_rate, note, velocity, duration, age, true).cur_note == v.cur_note,
        v.started(f, p, sample_rate, note, velocity, duration, age, true).t == v.t,
        v.started(f, p, sample_rate, note, velocity, duration, age, false).cur_note == note,
        v.started(f, p, sample_rate, note, velocity, duration, age, false).t == Single::of(ZERO),
        v.started(f, p, sample_rate, note, velocity, duration, age, false).sound.amp_env.stage == Stage::Attack,
{
}

/// The oscillation fades in: not heard at the start of a note, and heard in full once the time of the
/// fade is over or where there is none.
pub proof fn lemma_fade_in(v: Voice, f: Sums, p: Patch, sample_rate: Single, n: Single)
    requires
        crate::rounding::unit_exact(f),
        p.lfo.active(),
        !p.lfo.fade_in.nan() && p.lfo.fade_in.finite(),
    ensures
        v.t.zero() && Single::of(ZERO).below(p.lfo.fade_in) ==> v.swing(f, p, sample_rate, n).zero(),
        v.t == p.lfo.fade_in && Single::of(ZERO).below(p.lfo.fade_in) ==> v.swing(f, p, sample_rate, n) == v.swung(
            f,
            p,
            sample_rate,
            n,
        ).value,
        p.lfo.fade_in.at_most(Single::of(ZERO)) ==> v.swing(f, p, sample_rate, n) == v.swung(f, p, sample_rate, n).value,
{
    let value = v.swung(f, p, sample_rate, n).value;
    assert(crate::math::in_swing(value));
}

/// The gain of the master: none is silence, and one passes the sound to the limiter as it is. The meter
/// shows no less than the sample it saw.
pub proof fn lemma_master_gain(f: Sums, gain: Single, decay: Single, s: Single, v: Single)
    requires
        crate::rounding::unit_exact(f),
        v.finite(),
    ensures
        gain.zero() ==> crate::synth::master_tick(f, gain, decay, s, v).1.zero(),
        gain == Single::of(ONE) ==> crate::synth::master_tick(f, gain, decay, s, v).1 == crate::math::limited(f, v),
        !crate::synth::master_tick(f, gain, decay, s, v).1.nan() ==> crate::synth::master_tick(f, gain, decay, s, v).1.absolute().at_most(
            crate::synth::master_tick(f, gain, decay, s, v).0,
        ),
        decay == Single::of(ONE) && crate::math::is_share(s) && !crate::synth::master_tick(f, gain, decay, s, v).1.nan() ==> s.at_most(
            crate::synth::master_tick(f, gain, decay, s, v).0,
        ),
{
}

/// A note starts one voice, the next to play, and leaves the others alone.
pub proof fn lemma_note_starts_one_voice(s: SynthView, f: Sums, note: Single, velocity: Single, duration: Single)
    requires
        s.voices.len() >= crate::synth::voice_limit(s.patch),
        s.counter < u64::MAX,
        exists|i: int| crate::synth::next_voice(s.voices, crate::synth::voice_limit(s.patch), i),
    ensures
        ({
            let t = s.noted(f, note, velocity, duration);
            let i = crate::synth::slot(s.voices, crate::synth::voice_limit(s.patch));
            &&& crate::synth::next_voice(s.voices, crate::synth::voice_limit(s.patch), i)
            &&& t.voices.len() == s.voices.len()
            &&& t.voices[i].active && t.voices[i].note == note && t.voices[i].age == s.counter + 1
            &&& forall|j: int| 0 <= j < s.voices.len() && j != i ==> #[trigger] t.voices[j] == s.voices[j]
            &&& t == (SynthView { voices: t.voices, counter: t.counter, ..s })
            &&& t.counter == s.counter + 1
        }),
{
    reveal(SynthView::noted);
}

/// Drive: none only saturates; and silence stays silence, however hard it is driven.
pub proof fn lemma_drive(f: Sums, drive: Single, v: Single)
    requires
        crate::rounding::unit_exact(f),
        v.finite(),
        forall|x: Single| x.finite() ==> !(#[trigger] crate::math::saturated(f, x)).nan(),
    ensures
        drive.zero() ==> crate::effects::driven(f, drive, v) == crate::math::saturated(f, v),
{
}

/// The crusher: a bit depth of one leaves one level on either side; one that is on for the depth alone
/// keeps every sample; one that lowers the rate holds a sample until its time is up.
pub proof fn lemma_crusher(f: Sums, p: FxParams, steps: Single, s: Hold, v: Single)
    requires
        crate::rounding::unit_exact(f),
    ensures
        p.bit_depth == Single::of(ONE) ==> crate::effects::levels(f, p.bit_depth) == Single::of(ONE),
        !crate::effects::crushes_rate(p) ==> crate::effects::crush_tick(f, p, steps, s, v).0 == s,
        !crate::effects::crushes_rate(p) && !crate::effects::crushes_bits(p) ==> crate::effects::crush_tick(f, p, steps, s, v).1 == v,
        crate::effects::crushes_rate(p) && !crate::effects::crushes_bits(p) && s.hold_count.zero() ==> crate::effects::crush_tick(f, p, steps, s, v).1 == s.hold,
        crate::effects::crushes_rate(p) && !crate::effects::crushes_bits(p) && p.downsample.at_most(f(Prim::Add, s.hold_count, Single::of(ONE))) ==> crate::effects::crush_tick(
            f,
            p,
            steps,
            s,
            v,
        ).1 == v && crate::effects::crush_tick(f, p, steps, s, v).0.hold == v,
        crate::effects::crushes_rate(p) && p.downsample == f(Prim::Add, s.hold_count, Single::of(ONE)) && p.downsample.finite() ==> crate::effects::crush_tick(
            f,
            p,
            steps,
            s,
            v,
        ).0.hold_count.zero(),
{
    let one = Single::of(ONE);
    assert(f(Prim::Sub, one, one).zero());
    if s.hold_count.zero() {
        assert(f(Prim::Add, s.hold_count, one) == one);
    }
    if p.downsample.finite() {
        assert(f(Prim::Sub, p.downsample, p.downsample).zero());
    }
}

/// The delay adds what was heard its time ago: at full mix and without feedback every sample from then
/// on is itself and the one that many samples before, and until then the sound is as it was.
pub proof fn lemma_delay_adds_the_past(f: Sums, p: FxParams, d: usize, feedback: Single, s: Seq<Single>, x: Seq<Single>)
    requires
        crate::rounding::unit_exact(f),
        1 <= d < s.len(),
        feedback.zero(),
        p.delay_mix == Single::of(ONE),
        s == crate::synth::zeros(s.len()),
        forall|i: int| 0 <= i < x.len() ==> (#[trigger] x[i]).finite() && !x[i].zero(),
    ensures
        ({
            let (t, out) = crate::effects::echo_run(f, p, d, feedback, s, x);
            &&& out.len() == x.len()
            &&& t.len() == s.len()
            &&& forall|i: int|
                0 <= i < x.len() ==> #[trigger] out[i] == (if i < d {
                    x[i]
                } else {
                    f(Prim::Add, x[i], x[i - d])
                })
            &&& forall|j: int| 0 <= j < t.len() ==> #[trigger] t[j] == (if t.len() - j <= x.len() {
                x[x.len() - (t.len() - j)]
            } else {
                Single::of(ZERO)
            })
        }),
    decreases x.len(),
{
    if x.len() > 0 {
        let y = x.drop_last();
        assert forall|i: int| 0 <= i < y.len() implies (#[trigger] y[i]).finite() && !y[i].zero() by {
            assert(y[i] == x[i]);
        }
        lemma_delay_adds_the_past(f, p, d, feedback, s, y);
        let (t, out) = crate::effects::echo_run(f, p, d, feedback, s, y);
        let v = x.last();
        assert(v == x[x.len() - 1]);
        let r = t[t.len() - d];
        assert(r.finite());
        assert(f(Prim::Add, v, f(Prim::Mul, r, feedback)) == v);
        let (u, z) = crate::effects::echo_tick(f, p, d, feedback, t, v);
        assert(u == t.drop_first().push(v));
        let all = crate::effects::echo_run(f, p, d, feedback, s, x);
        assert(all == (u, out.push(z)));
        assert forall|i: int| 0 <= i < x.len() implies #[trigger] all.1[i] == (if i < d {
            x[i]
        } else {
            f(Prim::Add, x[i], x[i - d])
        }) by {
            if i < y.len() {
                assert(all.1[i] == out[i]);
            }
        }
        assert forall|j: int| 0 <= j < u.len() implies #[trigger] u[j] == (if u.len() - j <= x.len() {
            x[x.len() - (u.len() - j)]
        } else {
            Single::of(ZERO)
        }) by {
            if j < u.len() - 1 {
                assert(u[j] == t[j + 1]);
            }
        }
    }
}

/// Time and feedback of the delay: as many samples as the time has, at least one and at most what the
/// line holds; feedback is kept below one, so that echoes fade.
pub proof fn lemma_delay_settings(e: EffectsView, f: Sums, p: FxParams, x: Seq<Single>, k: int)
    requires
        !Single::of(ZERO).below(p.drive),
        !crate::effects::crushes_bits(p) && !crate::effects::crushes_rate(p),
        Single::of(ZERO).below(p.delay_time) && Single::of(ZERO).below(p.delay_mix),
        f(Prim::Mul, p.delay_time, e.sample_rate) == crate::single::sized(k as nat),
        1 <= k < e.echo.len(),
        k <= 0x0100_0000,
        Single::of(ZERO).at_most(p.delay_feedback) && p.delay_feedback.at_most(Single::of(crate::effects::P0_98)),
    ensures
        e.processed(f, p, x).1 == crate::effects::echo_run(f, p, k as usize, p.delay_feedback, e.echo, x).1,
        e.processed(f, p, x).0.hold == e.hold,
{
    crate::rounding::lemma_whole_number(k);
}

} // verus!
