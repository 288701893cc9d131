//! A single synthesizer voice: 3 oscillators -> filter -> amplifier, with two envelopes,
//! an LFO and the sfxr-style pitch modulators (slide, arp jump, vibrato).
use vstd::prelude::*;

use crate::arith::{meant, total, Prim, Sums};
use crate::effects::same_outside;
use crate::env::{Adsr, Stage};
use crate::filter::Svf;
use crate::lfo::Lfo;
use crate::math::{midi_to_hz, onepole_coef};
use crate::osc::{Oscillator, Waveform};
use crate::patch::{OscParams, Patch};
use crate::single::{from_i32, Single, HALF, ONE, TAU, ZERO};

verus! {

/// Pattern of 0.01.
pub const P0_01: u32 = 0x3c23_d70a;

/// Pattern of 0.02.
pub const P0_02: u32 = 0x3ca3_d70a;

/// Pattern of 0.98.
pub const P0_98: u32 = 0x3f7a_e148;

/// Pattern of 12.
pub const P12: u32 = 0x4140_0000;

/// Pattern of 60.
pub const P60: u32 = 0x4270_0000;

/// Number of samples between control-rate updates (envelopes are still per-sample).
pub const CONTROL_BLOCK: usize = 32;

/// An oscillator and its phase increment.
#[derive(Clone, Copy, Debug, PartialEq, Eq, Structural)]
pub struct Tone {
    pub osc: Oscillator,
    pub dt: Single,
}

/// Where a tone is heading within a control block.
#[derive(Clone, Copy, Debug, PartialEq, Eq, Structural)]
pub struct Course {
    /// Change of the phase increment per sample.
    pub step: Single,
    pub pw: Single,
}

impl Tone {
    pub open spec fn seeded_with(seed: u32) -> Tone {
        Tone { osc: Oscillator::seeded_with(seed), dt: Single::of(ZERO) }
    }

    /// Back at the start of its cycle with no pitch.
    pub open spec fn restarted(self, f: Sums) -> Tone {
        Tone { osc: Oscillator { phase: crate::math::cycled(f(Prim::Rem, Single::of(ZERO), Single::of(ONE))), ..self.osc }, dt: Single::of(ZERO) }
    }

    /// A tone with a pitch: heard, and not noise.
    pub open spec fn pitched(o: OscParams) -> bool {
        !o.level.at_most(Single::of(ZERO)) && !(o.wave == Waveform::WhiteNoise || o.wave == Waveform::PinkNoise)
    }

    /// Phase increment a tone should reach.
    pub open spec fn goal(f: Sums, o: OscParams, note: Single, sample_rate: Single) -> Single {
        if Tone::pitched(o) {
            f(Prim::Div, crate::math::note_hz(f, f(Prim::Add, f(Prim::Add, note, o.semitones), f(Prim::Mul, o.detune_cents, Single::of(P0_01)))), sample_rate)
        } else {
            Single::of(ZERO)
        }
    }

    /// A tone starts at the pitch it should reach.
    pub open spec fn aimed(self, f: Sums, o: OscParams, note: Single, sample_rate: Single) -> Tone {
        if Tone::pitched(o) && self.dt.zero() {
            Tone { dt: Tone::goal(f, o, note, sample_rate), ..self }
        } else {
            self
        }
    }

    pub open spec fn course(self, f: Sums, o: OscParams, note: Single, t: Single, wobble: Single, sample_rate: Single, n: Single) -> Course {
        let goal = Tone::goal(f, o, note, sample_rate);
        let dt = self.aimed(f, o, note, sample_rate).dt;
        Course {
            step: f(Prim::Div, f(Prim::Sub, goal, dt), n),
            pw: if Tone::pitched(o) {
                f(Prim::Add, f(Prim::Add, o.pulse_width, f(Prim::Mul, o.pulse_width_sweep, t)), wobble).within(Single::of(P0_02), Single::of(P0_98))
            } else {
                Single::of(HALF)
            },
        }
    }

    /// Take aim for a control block of `n` samples.
    fn steer<F: Fn(Prim, Single, Single) -> Single>(&mut self, fpu: &F, o: &OscParams, note: Single, t: Single, wobble: Single, sample_rate: Single, n: Single) -> (r: Course)
        requires
            total(*fpu),
        ensures
            forall|f: Sums| #[trigger] meant(*fpu, f) ==> r == old(self).course(f, *o, note, t, wobble, sample_rate, n) && *final(self) == old(self).aimed(
                f,
                *o,
                note,
                sample_rate,
            ),
    {
        let mut goal = Single::of(ZERO);
        let mut pw = Single::of(HALF);
        if !o.level.le(Single::of(ZERO)) && !o.wave.is_noise() {
            goal = fpu(Prim::Div, midi_to_hz(fpu, fpu(Prim::Add, fpu(Prim::Add, note, o.semitones), fpu(Prim::Mul, o.detune_cents, Single::of(P0_01)))), sample_rate);
            if self.dt.is_zero() {
                self.dt = goal;
            }
            pw = fpu(Prim::Add, fpu(Prim::Add, o.pulse_width, fpu(Prim::Mul, o.pulse_width_sweep, t)), wobble).clamp(Single::of(P0_02), Single::of(P0_98));
        }
        Course { step: fpu(Prim::Div, fpu(Prim::Sub, goal, self.dt), n), pw }
    }

    /// The tone a sample later.
    pub open spec fn moved(self, f: Sums, o: OscParams, c: Course) -> Tone {
        if o.level.at_most(Single::of(ZERO)) {
            self
        } else {
            let dt = f(Prim::Add, self.dt, c.step);
            Tone { osc: self.osc.moved(f, o.wave, dt), dt }
        }
    }

    /// The mix with a sample of the tone.
    pub open spec fn mixed(self, f: Sums, o: OscParams, c: Course, mix: Single) -> Single {
        if o.level.at_most(Single::of(ZERO)) {
            mix
        } else {
            let sample = self.osc.sample(f, o.wave, f(Prim::Add, self.dt, c.step), c.pw);
            f(Prim::Add, mix, f(Prim::Mul, sample, o.level))
        }
    }

    fn mix<F: Fn(Prim, Single, Single) -> Single>(&mut self, fpu: &F, o: &OscParams, c: Course, mix: Single) -> (r: Single)
        requires
            total(*fpu),
        ensures
            forall|f: Sums| #[trigger] meant(*fpu, f) ==> r == old(self).mixed(f, *o, c, mix) && *final(self) == old(self).moved(f, *o, c),
    {
        if o.level.le(Single::of(ZERO)) {
            return mix;
        }
        self.dt = fpu(Prim::Add, self.dt, c.step);
        let sample = self.osc.next(fpu, o.wave, self.dt, c.pw);
        fpu(Prim::Add, mix, fpu(Prim::Mul, sample, o.level))
    }
}

/// What a voice plays with at audio rate.
#[derive(Clone, Copy, Debug, PartialEq, Eq, Structural)]
pub struct Sound {
    pub tone1: Tone,
    pub tone2: Tone,
    pub tone3: Tone,
    pub filter: Svf,
    pub amp_env: Adsr,
    pub filter_env: Adsr,
}

/// Settings of a control block.
#[derive(Clone, Copy, Debug, PartialEq, Eq, Structural)]
pub struct Drive {
    pub course1: Course,
    pub course2: Course,
    pub course3: Course,
    pub gain: Single,
}

/// One sample of a voice added to `v`.
pub open spec fn sound_tick(f: Sums, p: Patch, d: Drive, s: Sound, v: Single) -> (Sound, Single) {
    let mix1 = s.tone1.mixed(f, p.osc1, d.course1, Single::of(ZERO));
    let mix2 = s.tone2.mixed(f, p.osc2, d.course2, mix1);
    let mix = s.tone3.mixed(f, p.osc3, d.course3, mix2);
    let amp_env = s.amp_env.ticked(f);
    let heard = s.filter.output(f, mix);
    (
        Sound {
            tone1: s.tone1.moved(f, p.osc1, d.course1),
            tone2: s.tone2.moved(f, p.osc2, d.course2),
            tone3: s.tone3.moved(f, p.osc3, d.course3),
            filter: s.filter.fed(f, mix),
            amp_env,
            filter_env: s.filter_env.ticked(f),
        },
        f(Prim::Add, v, f(Prim::Mul, f(Prim::Mul, heard, amp_env.level), d.gain)),
    )
}

/// The same for a run of samples.
pub open spec fn sound_run(f: Sums, p: Patch, d: Drive, s: Sound, x: Seq<Single>) -> (Sound, Seq<Single>)
    decreases x.len(),
{
    if x.len() == 0 {
        (s, seq![])
    } else {
        let (t, out) = sound_run(f, p, d, s, x.drop_last());
        let (u, y) = sound_tick(f, p, d, t, x.last());
        (u, out.push(y))
    }
}

fn sound_sample<F: Fn(Prim, Single, Single) -> Single>(fpu: &F, p: Patch, d: Drive, s: &mut Sound, v: Single) -> (y: Single)
    requires
        total(*fpu),
    ensures
        forall|f: Sums| #[trigger] meant(*fpu, f) ==> (*final(s), y) == sound_tick(f, p, d, *old(s), v),
{
    let mut mix = Single::of(ZERO);
    mix = s.tone1.mix(fpu, &p.osc1, d.course1, mix);
    mix = s.tone2.mix(fpu, &p.osc2, d.course2, mix);
    mix = s.tone3.mix(fpu, &p.osc3, d.course3, mix);
    s.filter_env.tick(fpu);
    let amp = s.amp_env.tick(fpu);
    let heard = s.filter.tick(fpu, mix);
    fpu(Prim::Add, v, fpu(Prim::Mul, fpu(Prim::Mul, heard, amp), d.gain))
}

fn sound_span<F: Fn(Prim, Single, Single) -> Single>(fpu: &F, p: Patch, d: Drive, s: &mut Sound, buf: &mut Vec<Single>, start: usize, end: usize)
    requires
        total(*fpu),
        start <= end <= old(buf)@.len(),
    ensures
        final(buf)@.len() == old(buf)@.len(),
        same_outside(old(buf)@, final(buf)@, start as int, end as int),
        forall|f: Sums| #[trigger] meant(*fpu, f) ==> (*final(s), final(buf)@.subrange(start as int, end as int)) == sound_run(
            f, p, d,
            *old(s),
            old(buf)@.subrange(start as int, end as int),
        ),
{
    let mut i: usize = start;
    let ghost before = buf@;
    assert(before.subrange(start as int, start as int) =~= seq![]);
    while i < end
        invariant
            start <= i <= end <= buf@.len(),
            buf@.len() == before.len(),
            before == old(buf)@,
            same_outside(before, buf@, start as int, i as int),
            total(*fpu),
            forall|f: Sums| #[trigger] meant(*fpu, f) ==> (*s, buf@.subrange(start as int, i as int)) == sound_run(
                f, p, d,
                *old(s),
                before.subrange(start as int, i as int),
            ),
        decreases end - i,
    {
        let ghost last = buf@;
        let y = sound_sample(fpu, p, d, s, buf[i]);
        buf.set(i, y);
        i = i + 1;
        assert(before.subrange(start as int, i as int).drop_last() =~= before.subrange(start as int, i - 1));
        assert(buf@.subrange(start as int, i as int) =~= last.subrange(start as int, i - 1).push(y));
    }
}

/// A number of samples as a signed count, saturating.
pub open spec fn sample_count(x: Single) -> int {
    if x.below(Single::of(ZERO)) {
        let n = x.negated().whole() as int;
        if n > 0x8000_0000_0000_0000 {
            -0x8000_0000_0000_0000
        } else {
            -n
        }
    } else {
        let n = x.whole() as int;
        if n > i64::MAX {
            i64::MAX as int
        } else {
            n
        }
    }
}

fn count_samples(x: Single) -> (r: i64)
    ensures
        r == sample_count(x),
{
    if x.lt(Single::of(ZERO)) {
        let n: u64 = x.neg().trunc();
        if n > 0x7fff_ffff_ffff_ffff {
            i64::MIN
        } else {
            -(n as i64)
        }
    } else {
        let n: u64 = x.trunc();
        if n > 0x7fff_ffff_ffff_ffff {
            i64::MAX
        } else {
            n as i64
        }
    }
}

#[derive(Clone, Copy, Debug, PartialEq, Eq, Structural)]
pub struct Voice {
    pub active: bool,
    /// Rounded note used to match note-off events.
    pub key: i32,
    pub note: Single,
    pub cur_note: Single,
    pub velocity: Single,
    /// Seconds since note-on.
    pub t: Single,
    /// Samples until automatic release, negative when disabled.
    pub auto_release: i64,
    /// Monotonic counter for voice stealing (lower = older).
    pub age: u64,
    pub sound: Sound,
    pub lfo: Lfo,
}

impl Voice {
    /// A voice that plays nothing.
    pub open spec fn idle(seed: u32) -> Voice {
        Voice {
            active: false,
            key: (-1) as i32,
            note: Single::of(P60),
            cur_note: Single::of(P60),
            velocity: Single::of(ONE),
            t: Single::of(ZERO),
            auto_release: (-1) as i64,
            age: 0,
            sound: Sound {
                tone1: Tone::seeded_with(seed),
                tone2: Tone::seeded_with(seed.wrapping_mul(7).wrapping_add(11)),
                tone3: Tone::seeded_with(seed.wrapping_mul(13).wrapping_add(17)),
                filter: Svf::silent(),
                amp_env: Adsr::silent(),
                filter_env: Adsr::silent(),
            },
            lfo: Lfo::fresh(),
        }
    }

    /// The release has begun, or is over.
    pub open spec fn let_go(self) -> bool {
        self.sound.amp_env.stage == Stage::Release || self.sound.amp_env.stage == Stage::Idle
    }

    /// Envelopes started anew.
    pub open spec fn triggered(self, f: Sums, p: Patch, sample_rate: Single) -> Voice {
        Voice {
            sound: Sound {
                amp_env: self.sound.amp_env.triggered(f, p.amp_env, sample_rate),
                filter_env: self.sound.filter_env.triggered(f, p.filter_env, sample_rate),
                ..self.sound
            },
            ..self
        }
    }

    /// Phases, filter and LFO started anew at the pitch of `note`.
    pub open spec fn restarted(self, f: Sums, note: Single) -> Voice {
        Voice {
            cur_note: note,
            t: Single::of(ZERO),
            lfo: self.lfo.restarted(),
            sound: Sound {
                filter: self.sound.filter.cleared(),
                tone1: self.sound.tone1.restarted(f),
                tone2: self.sound.tone2.restarted(f),
                tone3: self.sound.tone3.restarted(f),
                ..self.sound
            },
            ..self
        }
    }

    /// The voice when a note starts.
    pub open spec fn started(
        self,
        f: Sums,
        p: Patch,
        sample_rate: Single,
        note: Single,
        velocity: Single,
        duration: Single,
        age: u64,
        legato: bool,
    ) -> Voice {
        let v = if !legato || !self.active {
            self.restarted(f, note).triggered(f, p, sample_rate)
        } else if self.let_go() {
            self.triggered(f, p, sample_rate)
        } else {
            self
        };
        Voice {
            note,
            key: note.nearest_int() as i32,
            velocity: velocity.within(Single::of(ZERO), Single::of(ONE)),
            age,
            active: true,
            auto_release: if Single::of(ZERO).below(duration) {
                sample_count(f(Prim::Mul, duration, sample_rate)) as i64
            } else {
                (-1) as i64
            },
            ..v
        }
    }

    /// The voice with its release begun.
    pub open spec fn released(self) -> Voice {
        Voice {
            auto_release: (-1) as i64,
            sound: Sound {
                amp_env: self.sound.amp_env.released(),
                filter_env: self.sound.filter_env.released(),
                ..self.sound
            },
            ..self
        }
    }

    pub open spec fn killed(self) -> Voice {
        Voice {
            active: false,
            sound: Sound {
                amp_env: self.sound.amp_env.killed(),
                filter_env: self.sound.filter_env.killed(),
                filter: self.sound.filter.cleared(),
                ..self.sound
            },
            ..self
        }
    }

    pub fn new(seed: u32) -> (r: Voice)
        ensures
            r == Voice::idle(seed),
    {
        Voice {
            active: false,
            key: -1,
            note: Single::of(P60),
            cur_note: Single::of(P60),
            velocity: Single::of(ONE),
            t: Single::of(ZERO),
            auto_release: -1,
            age: 0,
            sound: Sound {
                tone1: Tone { osc: Oscillator::new(seed), dt: Single::of(ZERO) },
                tone2: Tone { osc: Oscillator::new(seed.wrapping_mul(7).wrapping_add(11)), dt: Single::of(ZERO) },
                tone3: Tone { osc: Oscillator::new(seed.wrapping_mul(13).wrapping_add(17)), dt: Single::of(ZERO) },
                filter: Svf::default(),
                amp_env: Adsr::default(),
                filter_env: Adsr::default(),
            },
            lfo: Lfo::default(),
        }
    }

    pub fn is_active(&self) -> (r: bool)
        ensures
            r == self.active,
    {
        self.active
    }

    pub fn is_released(&self) -> (r: bool)
        ensures
            r == self.let_go(),
    {
        self.sound.amp_env.is_released()
    }

    pub fn key(&self) -> (r: i32)
        ensures
            r == self.key,
    {
        self.key
    }

    pub fn age(&self) -> (r: u64)
        ensures
            r == self.age,
    {
        self.age
    }

    pub fn level(&self) -> (r: Single)
        ensures
            r == self.sound.amp_env.level,
    {
        self.sound.amp_env.level()
    }

    /// Start (or legato-retrigger) the voice.
    ///
    /// `duration` > 0 schedules an automatic release; `legato` keeps oscillator phase and
    /// filter state and glides from the current pitch instead of restarting.
    pub fn note_on<F: Fn(Prim, Single, Single) -> Single>(
        &mut self,
        fpu: &F,
        p: &Patch,
        sample_rate: Single,
        note: Single,
        velocity: Single,
        duration: Single,
        age: u64,
        legato: bool,
    )
        requires
            total(*fpu),
        ensures
            final(self).active,
            final(self).age == age,
            final(self).key == note.nearest_int(),
            forall|f: Sums| #[trigger] meant(*fpu, f) ==> *final(self) == old(self).started(f, *p, sample_rate, note, velocity, duration, age, legato),
    {
        let velocity = velocity.clamp(Single::of(ZERO), Single::of(ONE));
        if !legato || !self.active {
            self.cur_note = note;
            self.t = Single::of(ZERO);
            self.sound.filter.reset();
            self.lfo.reset();
            self.sound.tone1.osc.reset(fpu, Single::of(ZERO));
            self.sound.tone2.osc.reset(fpu, Single::of(ZERO));
            self.sound.tone3.osc.reset(fpu, Single::of(ZERO));
            self.sound.tone1.dt = Single::of(ZERO);
            self.sound.tone2.dt = Single::of(ZERO);
            self.sound.tone3.dt = Single::of(ZERO);
            self.sound.amp_env.trigger(fpu, &p.amp_env, sample_rate);
            self.sound.filter_env.trigger(fpu, &p.filter_env, sample_rate);
        } else if self.sound.amp_env.is_released() {
            self.sound.amp_env.trigger(fpu, &p.amp_env, sample_rate);
            self.sound.filter_env.trigger(fpu, &p.filter_env, sample_rate);
        }
        self.note = note;
        self.key = note.round();
        self.velocity = velocity;
        self.age = age;
        self.active = true;
        self.auto_release = if Single::of(ZERO).lt(duration) { count_samples(fpu(Prim::Mul, duration, sample_rate)) } else { -1 };
    }

    pub fn release(&mut self)
        ensures
            *final(self) == old(self).released(),
    {
        self.sound.amp_env.release();
        self.sound.filter_env.release();
        self.auto_release = -1;
    }

    pub fn kill(&mut self)
        ensures
            *final(self) == old(self).killed(),
    {
        self.active = false;
        self.sound.amp_env.kill();
        self.sound.filter_env.kill();
        self.sound.filter.reset();
    }

    /// Pitch gliding toward the note.
    pub open spec fn glided(self, f: Sums, p: Patch, sample_rate: Single, n: Single) -> Single {
        if Single::of(ZERO).below(p.pitch.glide) {
            f(Prim::Add, self.cur_note, f(Prim::Mul, f(Prim::Sub, self.note, self.cur_note), crate::math::smoothing(f, p.pitch.glide, f(Prim::Div, sample_rate, n))))
        } else {
            self.note
        }
    }

    /// The LFO a control block later.
    pub open spec fn swung(self, f: Sums, p: Patch, sample_rate: Single, n: Single) -> Lfo {
        if p.lfo.active() {
            self.lfo.advanced(f, p.lfo.wave, p.lfo.rate_hz, f(Prim::Div, n, sample_rate))
        } else {
            self.lfo
        }
    }

    /// Value of the LFO within a control block, faded in.
    pub open spec fn swing(self, f: Sums, p: Patch, sample_rate: Single, n: Single) -> Single {
        if p.lfo.active() {
            let fade = if Single::of(ZERO).below(p.lfo.fade_in) {
                f(Prim::Div, self.t, p.lfo.fade_in).smaller(Single::of(ONE))
            } else {
                Single::of(ONE)
            };
            let value = self.swung(f, p, sample_rate, n).value;
            f(Prim::Mul, value, fade)
        } else {
            Single::of(ZERO)
        }
    }

    /// Modulation of the pitch in semitones.
    pub open spec fn pitch_mod(self, f: Sums, p: Patch, lfo: Single, bend: Single) -> Single {
        let t = self.t;
        let slide = f(Prim::Add, f(Prim::Mul, p.pitch.slide, t), f(Prim::Mul, f(Prim::Mul, f(Prim::Mul, Single::of(HALF), p.pitch.slide_accel), t), t));
        let arp = if (Single::of(ZERO).below(p.pitch.arp_time) && p.pitch.arp_time.at_most(t)) {
            p.pitch.arp_semitones
        } else {
            Single::of(ZERO)
        };
        let turn = Single::of(TAU);
        let vibrato = if (Single::of(ZERO).below(p.pitch.vibrato_depth) && Single::of(ZERO).below(p.pitch.vibrato_rate)) {
            f(Prim::Mul, p.pitch.vibrato_depth, f(Prim::Sin, f(Prim::Mul, f(Prim::Mul, turn, p.pitch.vibrato_rate), t), Single::of(ZERO)))
        } else {
            Single::of(ZERO)
        };
        f(Prim::Add, f(Prim::Add, f(Prim::Add, f(Prim::Add, slide, arp), vibrato), f(Prim::Mul, lfo, p.lfo.pitch)), bend)
    }

    fn modulate_pitch<F: Fn(Prim, Single, Single) -> Single>(&self, fpu: &F, p: &Patch, lfo: Single, bend: Single) -> (r: Single)
        requires
            total(*fpu),
        ensures
            forall|f: Sums| #[trigger] meant(*fpu, f) ==> r == self.pitch_mod(f, *p, lfo, bend),
    {
        let t = self.t;
        let slide = fpu(Prim::Add, fpu(Prim::Mul, p.pitch.slide, t), fpu(Prim::Mul, fpu(Prim::Mul, fpu(Prim::Mul, Single::of(HALF), p.pitch.slide_accel), t), t));
        let arp = if (Single::of(ZERO).lt(p.pitch.arp_time) && p.pitch.arp_time.le(t)) { p.pitch.arp_semitones } else { Single::of(ZERO) };
        let turn = Single::of(TAU);
        let vibrato = if (Single::of(ZERO).lt(p.pitch.vibrato_depth) && Single::of(ZERO).lt(p.pitch.vibrato_rate)) {
            fpu(Prim::Mul, p.pitch.vibrato_depth, fpu(Prim::Sin, fpu(Prim::Mul, fpu(Prim::Mul, turn, p.pitch.vibrato_rate), t), Single::of(ZERO)))
        } else {
            Single::of(ZERO)
        };
        fpu(Prim::Add, fpu(Prim::Add, fpu(Prim::Add, fpu(Prim::Add, slide, arp), vibrato), fpu(Prim::Mul, lfo, p.lfo.pitch)), bend)
    }

    /// Modulation of the filter in octaves.
    pub open spec fn cutoff_octaves(self, f: Sums, p: Patch, cur_note: Single, lfo: Single) -> Single {
        let (t, env) = (self.t, self.sound.filter_env.level);
        f(Prim::Add, f(Prim::Add, f(Prim::Add, f(Prim::Add, f(Prim::Mul, env, p.filter.env_amount), f(Prim::Div, f(Prim::Mul, p.filter.key_track, f(Prim::Sub, cur_note, Single::of(P60))), Single::of(P12))), f(Prim::Mul, p.filter.sweep, t)), f(Prim::Mul, lfo, p.lfo.cutoff)), f(Prim::Mul, p.filter.velocity, f(Prim::Sub, self.velocity, Single::of(ONE))))
    }

    /// The voice at the start of a control block of `n` samples, and its settings.
    pub open spec fn steered(self, f: Sums, p: Patch, sample_rate: Single, bend: Single, n: Single) -> (Voice, Drive) {
        let cur_note = self.glided(f, p, sample_rate, n);
        let lfo = self.swing(f, p, sample_rate, n);
        let pitch_mod = self.pitch_mod(f, p, lfo, bend);
        let octaves = self.cutoff_octaves(f, p, cur_note, lfo);
        let note = f(Prim::Add, cur_note, pitch_mod);
        let wobble = f(Prim::Mul, lfo, p.lfo.pulse_width);
        let (t, s) = (self.t, self.sound);
        (
            Voice {
                cur_note,
                lfo: self.swung(f, p, sample_rate, n),
                sound: Sound {
                    tone1: s.tone1.aimed(f, p.osc1, note, sample_rate),
                    tone2: s.tone2.aimed(f, p.osc2, note, sample_rate),
                    tone3: s.tone3.aimed(f, p.osc3, note, sample_rate),
                    filter: s.filter.tuned(f, p.filter.mode, f(Prim::Mul, p.filter.cutoff_hz, f(Prim::Exp2, octaves, Single::of(ZERO))), p.filter.resonance, sample_rate),
                    ..s
                },
                ..self
            },
            Drive {
                course1: s.tone1.course(f, p.osc1, note, t, wobble, sample_rate, n),
                course2: s.tone2.course(f, p.osc2, note, t, wobble, sample_rate, n),
                course3: s.tone3.course(f, p.osc3, note, t, wobble, sample_rate, n),
                gain: f(Prim::Mul, f(Prim::Add, f(Prim::Sub, Single::of(ONE), p.velocity_sens), f(Prim::Mul, p.velocity_sens, self.velocity)), f(Prim::Sub, Single::of(ONE), f(Prim::Mul, p.lfo.amp, f(Prim::Add, Single::of(HALF), f(Prim::Mul, Single::of(HALF), lfo))))),
            },
        )
    }

    fn steer<F: Fn(Prim, Single, Single) -> Single>(&mut self, fpu: &F, p: &Patch, sample_rate: Single, bend: Single, n: Single) -> (r: Drive)
        requires
            total(*fpu),
        ensures
            final(self).active == old(self).active,
            forall|f: Sums| #[trigger] meant(*fpu, f) ==> (*final(self), r) == old(self).steered(f, *p, sample_rate, bend, n),
    {
        if Single::of(ZERO).lt(p.pitch.glide) {
            self.cur_note = fpu(Prim::Add, self.cur_note, fpu(Prim::Mul, fpu(Prim::Sub, self.note, self.cur_note), onepole_coef(fpu, p.pitch.glide, fpu(Prim::Div, sample_rate, n))));
        } else {
            self.cur_note = self.note;
        }
        let t = self.t;
        let lfo = if p.lfo.is_active() {
            let fade = if Single::of(ZERO).lt(p.lfo.fade_in) { fpu(Prim::Div, t, p.lfo.fade_in).min(Single::of(ONE)) } else { Single::of(ONE) };
            let value = self.lfo.advance(fpu, p.lfo.wave, p.lfo.rate_hz, fpu(Prim::Div, n, sample_rate));
            fpu(Prim::Mul, value, fade)
        } else {
            Single::of(ZERO)
        };
        let pitch_mod = self.modulate_pitch(fpu, p, lfo, bend);
        let (cur_note, env) = (self.cur_note, self.sound.filter_env.level());
        let octaves = fpu(Prim::Add, fpu(Prim::Add, fpu(Prim::Add, fpu(Prim::Add, fpu(Prim::Mul, env, p.filter.env_amount), fpu(Prim::Div, fpu(Prim::Mul, p.filter.key_track, fpu(Prim::Sub, cur_note, Single::of(P60))), Single::of(P12))), fpu(Prim::Mul, p.filter.sweep, t)), fpu(Prim::Mul, lfo, p.lfo.cutoff)), fpu(Prim::Mul, p.filter.velocity, fpu(Prim::Sub, self.velocity, Single::of(ONE))));
        self.sound.filter.set(fpu, p.filter.mode, fpu(Prim::Mul, p.filter.cutoff_hz, fpu(Prim::Exp2, octaves, Single::of(ZERO))), p.filter.resonance, sample_rate);
        let note = fpu(Prim::Add, cur_note, pitch_mod);
        let wobble = fpu(Prim::Mul, lfo, p.lfo.pulse_width);
        let course1 = self.sound.tone1.steer(fpu, &p.osc1, note, t, wobble, sample_rate, n);
        let course2 = self.sound.tone2.steer(fpu, &p.osc2, note, t, wobble, sample_rate, n);
        let course3 = self.sound.tone3.steer(fpu, &p.osc3, note, t, wobble, sample_rate, n);
        let gain = fpu(Prim::Mul, fpu(Prim::Add, fpu(Prim::Sub, Single::of(ONE), p.velocity_sens), fpu(Prim::Mul, p.velocity_sens, self.velocity)), fpu(Prim::Sub, Single::of(ONE), fpu(Prim::Mul, p.lfo.amp, fpu(Prim::Add, Single::of(HALF), fpu(Prim::Mul, Single::of(HALF), lfo)))));
        Drive { course1, course2, course3, gain }
    }

    /// The voice after a control block of `n` samples was played.
    pub open spec fn settled(self, f: Sums, sample_rate: Single, n: int) -> Voice {
        let a = Voice { t: f(Prim::Add, self.t, f(Prim::Div, crate::single::signed_integer(n), sample_rate)), ..self };
        let b = if a.auto_release >= 0 {
            if a.auto_release - n <= 0 {
                a.released()
            } else {
                Voice { auto_release: (a.auto_release - n) as i64, ..a }
            }
        } else {
            a
        };
        if b.sound.amp_env.stage == Stage::Idle {
            Voice { active: false, ..b }
        } else {
            b
        }
    }

    /// The voice after a control block, and the block with the voice added.
    #[verifier::opaque]
    pub open spec fn block(self, f: Sums, p: Patch, sample_rate: Single, bend: Single, x: Seq<Single>) -> (Voice, Seq<Single>) {
        let (v, drive) = self.steered(f, p, sample_rate, bend, crate::single::signed_integer(x.len() as int));
        let (sound, out) = sound_run(f, p, drive, v.sound, x);
        (Voice { sound, ..v }.settled(f, sample_rate, x.len() as int), out)
    }

    /// The voice after a run of samples, and the samples with the voice added.
    pub open spec fn played(self, f: Sums, p: Patch, sample_rate: Single, bend: Single, x: Seq<Single>) -> (Voice, Seq<Single>)
        decreases x.len(),
    {
        if !self.active || x.len() == 0 {
            (self, x)
        } else {
            let n: int = if x.len() < CONTROL_BLOCK { x.len() as int } else { CONTROL_BLOCK as int };
            let (v, head) = self.block(f, p, sample_rate, bend, x.take(n));
            let (w, tail) = v.played(f, p, sample_rate, bend, x.skip(n));
            (w, head + tail)
        }
    }

    fn render_block<F: Fn(Prim, Single, Single) -> Single>(&mut self, fpu: &F, p: &Patch, sample_rate: Single, bend: Single, out: &mut Vec<Single>, start: usize, end: usize)
        requires
            total(*fpu),
            start < end <= old(out)@.len(),
            end - start <= CONTROL_BLOCK,
        ensures
            same_outside(old(out)@, final(out)@, start as int, end as int),
            forall|f: Sums| #[trigger] meant(*fpu, f) ==> (*final(self), final(out)@.subrange(start as int, end as int)) == old(self).block(
                f,
                *p,
                sample_rate,
                bend,
                old(out)@.subrange(start as int, end as int),
            ),
    {
        proof {
            reveal(Voice::block);
        }
        let count: i32 = (end - start) as i32;
        let n = from_i32(count);
        let drive = self.steer(fpu, p, sample_rate, bend, n);
        sound_span(fpu, *p, drive, &mut self.sound, out, start, end);
        self.t = fpu(Prim::Add, self.t, fpu(Prim::Div, n, sample_rate));
        if self.auto_release >= 0 {
            self.auto_release = self.auto_release - count as i64;
            if self.auto_release <= 0 {
                self.release();
            }
        }
        if self.sound.amp_env.is_idle() {
            self.active = false;
        }
    }

    /// Render and *add* this voice to samples `start..end`. `bend` is the global pitch bend in
    /// semitones.
    pub fn render<F: Fn(Prim, Single, Single) -> Single>(&mut self, fpu: &F, p: &Patch, sample_rate: Single, bend: Single, out: &mut Vec<Single>, start: usize, end: usize)
        requires
            total(*fpu),
            start <= end <= old(out)@.len(),
        ensures
            same_outside(old(out)@, final(out)@, start as int, end as int),
            !old(self).active ==> *final(self) == *old(self) && final(out)@ == old(out)@,
            forall|f: Sums| #[trigger] meant(*fpu, f) ==> (*final(self), final(out)@.subrange(start as int, end as int)) == old(self).played(
                f,
                *p,
                sample_rate,
                bend,
                old(out)@.subrange(start as int, end as int),
            ),
    {
        let ghost x = out@.subrange(start as int, end as int);
        let ghost before = out@;
        let mut at: usize = start;
        assert(x.skip(0) =~= x);
        while self.active && at < end
            invariant
                total(*fpu),
                start <= at <= end <= out@.len(),
                before == old(out)@,
                x == before.subrange(start as int, end as int),
                same_outside(before, out@, start as int, at as int),
                !old(self).active ==> *self == *old(self) && out@ == before,
                forall|f: Sums| #[trigger] meant(*fpu, f) ==> old(self).played(f, *p, sample_rate, bend, x) == ({
                    let (w, tail) = self.played(f, *p, sample_rate, bend, x.skip(at - start));
                    (w, out@.subrange(start as int, at as int) + tail)
                }),
            decreases end - at,
        {
            let next: usize = if end - at < CONTROL_BLOCK { end } else { at + CONTROL_BLOCK };
            let ghost rest = x.skip(at - start);
            let ghost done = out@.subrange(start as int, at as int);
            let ghost v = *self;
            assert(out@.subrange(at as int, next as int) =~= rest.take(next - at));
            assert(rest.skip(next - at) =~= x.skip(next - start));
            self.render_block(fpu, p, sample_rate, bend, out, at, next);
            assert(forall|f: Sums| #[trigger] meant(*fpu, f) ==> ({
                let (w, tail) = self.played(f, *p, sample_rate, bend, x.skip(next - start));
                &&& v.played(f, *p, sample_rate, bend, rest) == (w, out@.subrange(at as int, next as int) + tail)
                &&& done + (out@.subrange(at as int, next as int) + tail) =~= out@.subrange(start as int, next as int) + tail
            }));
            at = next;
        }
        assert(out@.subrange(start as int, at as int) + x.skip(at - start) =~= out@.subrange(start as int, end as int));
    }
}

impl Default for Voice {
    fn default() -> (r: Voice)
        ensures
            r == Voice::idle(0x5EED_0001),
    {
        Voice::new(0x5EED_0001)
    }
}

/// Two samples were left alone, or the same was added to both.
pub open spec fn added_alike(f: Sums, x: Single, y: Single, u: Single, v: Single) -> bool {
    ||| u == x && v == y
    ||| exists|c: Single| u == #[trigger] f(Prim::Add, x, c) && v == f(Prim::Add, y, c)
}

proof fn lemma_sound_adds(f: Sums, p: Patch, d: Drive, s: Sound, x: Seq<Single>, y: Seq<Single>)
    requires
        x.len() == y.len(),
    ensures
        sound_run(f, p, d, s, x).0 == sound_run(f, p, d, s, y).0,
        sound_run(f, p, d, s, x).1.len() == x.len(),
        sound_run(f, p, d, s, y).1.len() == y.len(),
        forall|i: int|
            0 <= i < x.len() ==> added_alike(
                f,
                x[i],
                y[i],
                #[trigger] sound_run(f, p, d, s, x).1[i],
                sound_run(f, p, d, s, y).1[i],
            ),
    decreases x.len(),
{
    if x.len() > 0 {
        lemma_sound_adds(f, p, d, s, x.drop_last(), y.drop_last());
        let (t, a) = sound_run(f, p, d, s, x.drop_last());
        let (u, b) = sound_run(f, p, d, s, y.drop_last());
        let (v, w) = (sound_tick(f, p, d, t, x.last()), sound_tick(f, p, d, u, y.last()));
        assert(v.0 == w.0);
        let out = (sound_run(f, p, d, s, x).1, sound_run(f, p, d, s, y).1);
        assert(out.0 == a.push(v.1) && out.1 == b.push(w.1));
        assert forall|i: int| 0 <= i < x.len() implies added_alike(f, x[i], y[i], #[trigger] out.0[i], out.1[i]) by {
            if i < x.len() - 1 {
                assert(added_alike(f, x.drop_last()[i], y.drop_last()[i], a[i], b[i]));
            } else {
                let mix1 = t.tone1.mixed(f, p.osc1, d.course1, Single::of(ZERO));
                let mix2 = t.tone2.mixed(f, p.osc2, d.course2, mix1);
                let heard = t.filter.output(f, t.tone3.mixed(f, p.osc3, d.course3, mix2));
                let c = f(Prim::Mul, f(Prim::Mul, heard, t.amp_env.ticked(f).level), d.gain);
                assert(out.0[i] == f(Prim::Add, x[i], c) && out.1[i] == f(Prim::Add, y[i], c));
            }
        }
    }
}

/// A voice is added to what a buffer holds and does not depend on it: whatever the samples were,
/// the voice comes out the same, and each sample is left alone or has the same added to it.
pub proof fn lemma_voice_adds(v: Voice, f: Sums, p: Patch, sample_rate: Single, bend: Single, x: Seq<Single>, y: Seq<Single>)
    requires
        x.len() == y.len(),
    ensures
        v.played(f, p, sample_rate, bend, x).0 == v.played(f, p, sample_rate, bend, y).0,
        v.played(f, p, sample_rate, bend, x).1.len() == x.len(),
        v.played(f, p, sample_rate, bend, y).1.len() == y.len(),
        forall|i: int|
            0 <= i < x.len() ==> added_alike(
                f,
                x[i],
                y[i],
                #[trigger] v.played(f, p, sample_rate, bend, x).1[i],
                v.played(f, p, sample_rate, bend, y).1[i],
            ),
        !v.active ==> v.played(f, p, sample_rate, bend, x) == (v, x),
    decreases x.len(),
{
    if v.active && x.len() > 0 {
        let n: int = if x.len() < CONTROL_BLOCK { x.len() as int } else { CONTROL_BLOCK as int };
        let (xs, ys) = (x.take(n), y.take(n));
        let (w, drive) = v.steered(f, p, sample_rate, bend, crate::single::signed_integer(n));
        lemma_sound_adds(f, p, drive, w.sound, xs, ys);
        assert(v.block(f, p, sample_rate, bend, xs).0 == v.block(f, p, sample_rate, bend, ys).0) by {
            reveal(Voice::block);
        }
        assert(v.block(f, p, sample_rate, bend, xs).1 == sound_run(f, p, drive, w.sound, xs).1) by {
            reveal(Voice::block);
        }
        assert(v.block(f, p, sample_rate, bend, ys).1 == sound_run(f, p, drive, w.sound, ys).1) by {
            reveal(Voice::block);
        }
        let (a, b) = (v.block(f, p, sample_rate, bend, xs), v.block(f, p, sample_rate, bend, ys));
        lemma_voice_adds(a.0, f, p, sample_rate, bend, x.skip(n), y.skip(n));
        let (c, d) = (a.0.played(f, p, sample_rate, bend, x.skip(n)).1, a.0.played(f, p, sample_rate, bend, y.skip(n)).1);
        let out = (v.played(f, p, sample_rate, bend, x).1, v.played(f, p, sample_rate, bend, y).1);
        assert(out.0 == a.1 + c && out.1 == b.1 + d);
        assert forall|i: int| 0 <= i < x.len() implies added_alike(f, x[i], y[i], #[trigger] out.0[i], out.1[i]) by {
            if i < n {
                assert(added_alike(f, xs[i], ys[i], a.1[i], b.1[i]));
            } else {
                assert(added_alike(f, x.skip(n)[i - n], y.skip(n)[i - n], c[i - n], d[i - n]));
            }
        }
    } else {
        assert forall|i: int| 0 <= i < x.len() implies added_alike(
            f,
            x[i],
            y[i],
            #[trigger] v.played(f, p, sample_rate, bend, x).1[i],
            v.played(f, p, sample_rate, bend, y).1[i],
        ) by {
            assert(v.played(f, p, sample_rate, bend, x).1[i] == x[i]);
        }
    }
}

/// A voice played for a control block and then for more gives what playing at once gives.
pub proof fn lemma_voice_plays_in_parts(v: Voice, f: Sums, p: Patch, sample_rate: Single, bend: Single, x: Seq<Single>, y: Seq<Single>)
    requires
        x.len() == CONTROL_BLOCK,
    ensures
        v.played(f, p, sample_rate, bend, x + y) == ({
            let (w, a) = v.played(f, p, sample_rate, bend, x);
            let (u, b) = w.played(f, p, sample_rate, bend, y);
            (u, a + b)
        }),
{
    if v.active {
        let n = CONTROL_BLOCK as int;
        assert((x + y).take(n) =~= x && (x + y).skip(n) =~= y);
        assert(x.take(n) =~= x && x.skip(n) =~= seq![]);
        let (w, a) = v.block(f, p, sample_rate, bend, x);
        assert(w.played(f, p, sample_rate, bend, seq![]) == (w, Seq::<Single>::empty()));
        assert(a + Seq::<Single>::empty() =~= a);
    }
}

/// A number other than negative zero.
pub open spec fn is_plain(x: Single) -> bool {
    !x.nan() && !(x.zero() && x.negative())
}

/// Arithmetic in which a zero that is added makes no difference, as rounded arithmetic has it.
pub open spec fn zeros_vanish(f: Sums) -> bool {
    &&& forall|x: Single| is_plain(x) ==> #[trigger] f(Prim::Add, x, Single::of(ZERO)) == x
    &&& forall|x: Single, c: Single| is_plain(x) ==> f(Prim::Add, x, f(Prim::Add, Single::of(ZERO), c)) == #[trigger] f(Prim::Add, x, c)
}

/// Rendering a voice adds to every sample what the voice renders into silence, and leaves the voice
/// the same.
pub proof fn lemma_voice_adds_its_sound(v: Voice, f: Sums, p: Patch, sample_rate: Single, bend: Single, x: Seq<Single>, silence: Seq<Single>, i: int)
    requires
        zeros_vanish(f),
        0 <= i < x.len(),
        is_plain(x[i]),
        silence.len() == x.len(),
        forall|k: int| 0 <= k < silence.len() ==> #[trigger] silence[k] == Single::of(ZERO),
    ensures
        v.played(f, p, sample_rate, bend, x).0 == v.played(f, p, sample_rate, bend, silence).0,
        v.played(f, p, sample_rate, bend, x).1[i] == f(Prim::Add, x[i], v.played(f, p, sample_rate, bend, silence).1[i]),
{
    lemma_voice_adds(v, f, p, sample_rate, bend, x, silence);
    let (u, w) = (v.played(f, p, sample_rate, bend, x).1[i], v.played(f, p, sample_rate, bend, silence).1[i]);
    assert(added_alike(f, x[i], silence[i], u, w));
    if !(u == x[i] && w == silence[i]) {
        let c = choose|c: Single| u == #[trigger] f(Prim::Add, x[i], c) && w == f(Prim::Add, silence[i], c);
        assert(u == f(Prim::Add, x[i], c));
    }
}

} // verus!
