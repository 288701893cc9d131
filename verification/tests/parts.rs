use gamesynth::arith::Prim;
use gamesynth::blocks::{hz_coef, settle_coef, Brown, DelayLine, Dust, OnePole, Phasor, SlowNoise};
use gamesynth::effects::Effects;
use gamesynth::env::{Adsr, AdsrParams, Stage};
use gamesynth::filter::{FilterMode, Svf};
use gamesynth::lfo::{Lfo, LfoWave};
use gamesynth::math::{db_to_gain, lerp, limit, midi_to_hz, onepole_coef, semitones_to_ratio, soft_clip, Rng};
use gamesynth::noise::Noise;
use gamesynth::osc::{Oscillator, Waveform};
use gamesynth::params::{describe, get_param, param_from_name, set_param, Choices, ParamKind};
use gamesynth::patch::{FxParams, Patch};
use gamesynth::shared::{settle, Shared};
use gamesynth::single::{dec, exact, from_i32, from_u64, Single};

const SR: f32 = 48000.0;

fn s(x: f32) -> Single {
    Single { bits: x.to_bits() }
}

fn v(x: Single) -> f32 {
    f32::from_bits(x.bits)
}

fn fpu(p: Prim, x: Single, y: Single) -> Single {
    let (a, b) = (v(x), v(y));
    s(match p {
        Prim::Add => a + b,
        Prim::Sub => a - b,
        Prim::Mul => a * b,
        Prim::Div => a / b,
        Prim::Rem => a.rem_euclid(b),
        Prim::Pow => a.powf(b),
        Prim::Sqrt => a.sqrt(),
        Prim::Exp => a.exp(),
        Prim::Exp2 => a.exp2(),
        Prim::Ln => a.ln(),
        Prim::Log2 => a.log2(),
        Prim::Sin => a.sin(),
        Prim::Cos => a.cos(),
        Prim::Tan => a.tan(),
        Prim::Floor => a.floor(),
        Prim::Fract => a.fract(),
        Prim::Round => a.round(),
    })
}


#[test]
fn notes_and_decibels_have_their_values() {
    assert_eq!(v(midi_to_hz(&fpu, s(69.0))), 440.0);
    assert_eq!(v(midi_to_hz(&fpu, s(81.0))), 880.0);
    assert_eq!(v(semitones_to_ratio(&fpu, s(-12.0))), 0.5);
    assert_eq!(v(db_to_gain(&fpu, s(20.0))), 10.0);
    assert_eq!(v(lerp(&fpu, s(2.0), s(4.0), s(0.25))), 2.5);
}

#[test]
fn saturation_and_limit() {
    assert_eq!(v(soft_clip(&fpu, s(0.0))), 0.0);
    assert_eq!(v(soft_clip(&fpu, s(9.0))), 1.0);
    assert_eq!(v(soft_clip(&fpu, s(-9.0))), -1.0);
    assert_eq!(v(soft_clip(&fpu, s(1.0))), 28.0 / 36.0);
    assert_eq!(v(limit(&fpu, s(0.5))), 0.5);
    assert_eq!(v(limit(&fpu, s(-0.7))), -0.7);
    let hot = v(limit(&fpu, s(-40.0)));
    assert!(hot < -0.99 && hot >= -1.0, "{hot}");
}

#[test]
fn smoothing_coefficients() {
    assert_eq!(v(onepole_coef(&fpu, s(0.0), s(SR))), 1.0);
    assert_eq!(v(onepole_coef(&fpu, s(0.1), s(SR))), 1.0 - (-6.9078f32 / (0.1 * SR)).exp());
    assert_eq!(v(settle_coef(&fpu, s(-1.0), s(0.01))), 1.0);
    assert_eq!(v(settle_coef(&fpu, s(0.5), s(0.01))), 1.0 - (-3.0f32 * 0.01 / 0.5).exp());
    assert_eq!(v(hz_coef(&fpu, s(-5.0), s(SR))), 0.0);
    assert_eq!(v(hz_coef(&fpu, s(100.0), s(SR))), 1.0 - (-core::f32::consts::TAU * 100.0 / SR).exp());
}

#[test]
fn random_numbers_follow_xorshift() {
    let mut r = Rng::new(1);
    assert_eq!(r.next_u32(), 270369);
    let mut zero = Rng::new(0);
    let mut named = Rng::new(0x9E37_79B9);
    assert_eq!(zero.next_u32(), named.next_u32());
    let mut r = Rng::new(7);
    let mut t = Rng::new(7);
    for _ in 0..1000 {
        let bits = t.next_u32() >> 8;
        let x = v(r.next_f32());
        assert_eq!(x, bits as f32 / 16_777_216.0);
        assert!((0.0..1.0).contains(&x));
    }
    let mut r = Rng::new(7);
    let mut t = Rng::new(7);
    for _ in 0..100 {
        assert_eq!(v(r.next_bipolar()), v(t.next_f32()) * 2.0 - 1.0);
    }
    let x = v(Rng::new(3).range(&fpu, s(2.0), s(5.0)));
    assert!((2.0..5.0).contains(&x));
    assert!(!Rng::new(3).chance(s(0.0)));
    assert!(Rng::new(3).chance(s(1.0)));
}

#[test]
fn envelope_runs_through_its_stages() {
    let p = AdsrParams::new(s(0.01), s(0.05), s(0.5), s(0.05));
    let mut e = Adsr::default();
    assert!(e.is_idle() && e.is_released());
    e.release();
    assert!(e.is_idle());
    e.trigger(&fpu, &p, s(SR));
    assert!(e.stage() == Stage::Attack);
    let first = v(e.tick(&fpu));
    assert_eq!(first, 1.0 / (0.01 * SR));
    for _ in 0..600 {
        e.tick(&fpu);
    }
    assert!(e.stage() == Stage::Decay);
    for _ in 0..48000 {
        e.tick(&fpu);
    }
    assert!(e.stage() == Stage::Sustain);
    assert_eq!(v(e.level()), 0.5);
    e.release();
    assert!(e.is_released());
    for _ in 0..48000 {
        e.tick(&fpu);
    }
    assert!(e.is_idle());
    assert_eq!(v(e.level()), 0.0);
}

#[test]
fn an_envelope_without_sustain_ends_by_itself() {
    let p = AdsrParams::new(s(0.0), s(0.01), s(0.0), s(1.0));
    let mut e = Adsr::default();
    e.trigger(&fpu, &p, s(SR));
    e.tick(&fpu);
    assert_eq!(v(e.level()), 1.0);
    for _ in 0..4800 {
        e.tick(&fpu);
    }
    assert!(e.is_idle());
    e.trigger(&fpu, &p, s(SR));
    e.tick(&fpu);
    e.kill();
    assert_eq!(v(e.level()), 0.0);
}

#[test]
fn waves_have_their_shapes() {
    assert!(Waveform::from_index(99) == Waveform::PinkNoise);
    assert_eq!(Waveform::from_index(1).name(), "Triangle");
    assert!(Waveform::WhiteNoise.is_noise() && !Waveform::Pulse.is_noise());
    let mut o = Oscillator::new(1);
    assert_eq!(v(o.next(&fpu, Waveform::Sine, s(0.25), s(0.5))), 0.0);
    assert_eq!(v(o.next(&fpu, Waveform::Sine, s(0.25), s(0.5))), 1.0);
    o.reset(&fpu, s(1.25));
    assert_eq!(v(o.next(&fpu, Waveform::Sine, s(0.25), s(0.5))), 1.0);
    let mut o = Oscillator::new(1);
    let dt = s(100.0 / SR);
    let mut sum = 0.0;
    for _ in 0..480 {
        sum += v(o.next(&fpu, Waveform::Square, dt, s(0.5)));
    }
    assert!(sum.abs() < 2.0, "{sum}");
}

#[test]
fn filters_pass_and_stop() {
    let run = |mode: FilterMode, hz: f32| {
        let mut f = Svf::default();
        f.set(&fpu, mode, s(1000.0), s(0.0), s(SR));
        let mut top: f32 = 0.0;
        for i in 0..9600 {
            let y = v(f.tick(&fpu, s((i as f32 * hz / SR * core::f32::consts::TAU).sin())));
            if i > 4800 {
                top = top.max(y.abs());
            }
        }
        top
    };
    assert!(run(FilterMode::LowPass, 50.0) > 0.95);
    assert!(run(FilterMode::LowPass, 15000.0) < 0.05);
    assert!(run(FilterMode::HighPass, 50.0) < 0.05);
    assert!(run(FilterMode::HighPass, 15000.0) > 0.9);
    assert_eq!(FilterMode::from_index(0).index(), 0);
}

#[test]
fn slow_oscillators_move_at_their_rate() {
    let mut l = Lfo::default();
    let mut out = Vec::new();
    for _ in 0..100 {
        out.push(v(l.advance(&fpu, LfoWave::Square, s(1.0), s(0.01))));
    }
    assert!(out.iter().all(|x| *x == 1.0 || *x == -1.0));
    assert!(out.contains(&1.0) && out.contains(&-1.0));
    l.reset();
    let first = v(l.advance(&fpu, LfoWave::Square, s(1.0), s(0.01)));
    assert_eq!(first, out[0]);
    assert_eq!(v(l.value()), first);
}

#[test]
fn delay_lines_give_back_what_was_written() {
    let mut d = DelayLine::new(10);
    assert_eq!(v(d.max_delay()), 11.0);
    for i in 0..30 {
        d.write(s(i as f32));
    }
    assert_eq!(v(d.read(&fpu, s(1.0))), 29.0);
    assert_eq!(v(d.read(&fpu, s(3.5))), 26.5);
    assert_eq!(v(d.read(&fpu, s(-4.0))), 29.0);
    d.write(s(f32::NAN));
    assert_eq!(v(d.read(&fpu, s(1.0))), 0.0);
    d.clear();
    assert_eq!(v(d.read(&fpu, s(5.0))), 0.0);
}

#[test]
fn small_blocks_behave() {
    let mut p = OnePole::default();
    assert_eq!(v(p.lp(&fpu, s(1.0), s(0.5))), 0.5);
    assert_eq!(v(p.hp(&fpu, s(1.0), s(0.5))), 0.25);
    let mut b = Brown::default();
    assert_eq!(v(b.tick(&fpu, s(1.0))), (0.0 + 0.02f32 * 1.0) / 1.02 * 3.5);
    let mut d = Dust::new(5);
    assert_eq!(v(d.tick(&fpu, s(0.0))), 0.0);
    let x = v(d.tick(&fpu, s(1.0)));
    assert!((0.3..1.0).contains(&x));
    d.rng().next_u32();
    let mut n = SlowNoise::new(5);
    for _ in 0..1000 {
        assert!(v(n.advance(&fpu, s(3.0), s(0.01))).abs() <= 1.0);
    }
    let mut ph = Phasor::default();
    let wraps: Vec<bool> = (0..8).map(|_| ph.tick(&fpu, s(0.25))).collect();
    assert_eq!(wraps, [false, false, false, true, false, false, false, true]);
    let mut w = Noise::new(9);
    let mut again = Noise::new(9);
    for _ in 0..100 {
        assert_eq!(w.white().bits, again.white().bits);
        assert!(v(w.pink(&fpu)).is_finite());
        again.pink(&fpu);
    }
}

#[test]
fn effects_that_are_off_change_nothing() {
    let mut e = Effects::new(&fpu, s(SR));
    let quiet = FxParams::default();
    let mut buf: Vec<Single> = (0..64).map(|i| s((i as f32 * 0.3).sin())).collect();
    let before: Vec<u32> = buf.iter().map(|x| x.bits).collect();
    e.process(&fpu, &quiet, &mut buf, 0, 64);
    assert_eq!(before, buf.iter().map(|x| x.bits).collect::<Vec<u32>>());
    let driven = FxParams { drive: s(1.0), ..quiet };
    e.process(&fpu, &driven, &mut buf, 16, 32);
    let after: Vec<u32> = buf.iter().map(|x| x.bits).collect();
    assert_eq!(before[..16], after[..16]);
    assert_eq!(before[32..], after[32..]);
    assert_ne!(before[16..32], after[16..32]);
}

#[test]
fn an_echo_comes_back_after_its_time() {
    let mut e = Effects::new(&fpu, s(1000.0));
    let p = FxParams { delay_time: s(0.01), delay_mix: s(1.0), delay_feedback: s(0.0), ..FxParams::default() };
    let mut buf = vec![s(0.0); 32];
    buf[0] = s(1.0);
    e.process(&fpu, &p, &mut buf, 0, 32);
    let loud: Vec<usize> = (0..32).filter(|i| v(buf[*i]).abs() > 0.01).collect();
    assert_eq!(loud.last(), Some(&10), "{loud:?}");
}

#[test]
fn singles_agree_with_the_machine() {
    let samples = [0.0f32, -0.0, 1.0, -1.0, 0.5, 1e-20, 1e20, 3.75, -2.5, 2.5, f32::MIN_POSITIVE, f32::MAX, f32::INFINITY, f32::NEG_INFINITY, f32::NAN];
    for a in samples {
        assert_eq!(s(a).is_nan(), a.is_nan());
        assert_eq!(s(a).is_finite(), a.is_finite());
        assert_eq!(s(a).neg().bits, (-a).to_bits());
        assert_eq!(s(a).abs().bits, a.abs().to_bits());
        if !a.is_nan() {
            assert_eq!(s(a).round(), a.round() as i32, "{a}");
            assert_eq!(s(a).trunc(), a as u64, "{a}");
        }
        for b in samples {
            assert_eq!(s(a).lt(s(b)), a < b, "{a} {b}");
            assert_eq!(s(a).le(s(b)), a <= b, "{a} {b}");
            if !a.is_nan() && !b.is_nan() {
                assert_eq!(v(s(a).max(s(b))), a.max(b));
                assert_eq!(v(s(a).min(s(b))), a.min(b));
                assert_eq!(v(s(a).copysign(s(b))), a.copysign(b));
            }
        }
    }
    for n in [0i32, 1, -1, 7, 1 << 24, -(1 << 24), 12345] {
        assert_eq!(v(from_i32(n)), n as f32);
    }
    for n in [0u64, 1, 255, (1 << 24) + 1, u64::MAX, 48_000_000_123, (1 << 40) + (1 << 16), (1 << 40) + (1 << 16) + 1] {
        assert_eq!(v(from_u64(n)), n as f32, "{n}");
    }
    assert_eq!(v(dec(25, 2)), 0.25);
    assert_eq!(v(exact(3, 1)), 1.5);
}

#[test]
fn kinds_clamp_to_what_they_admit() {
    let f = ParamKind::Float { min: s(0.0), max: s(2.0), step: s(0.01) };
    assert_eq!(v(f.clamp(s(9.0))), 2.0);
    let i = ParamKind::Int { min: -3, max: 5 };
    assert_eq!(v(i.clamp(s(2.5))), 3.0);
    assert_eq!(v(i.clamp(s(-99.0))), -3.0);
    let e = ParamKind::Enum(Choices::FilterMode);
    assert_eq!(v(e.clamp(s(77.0))), 4.0);
    assert_eq!(e.name(), "enum");
    assert_eq!(v(e.limits().1), 4.0);
    assert_eq!(v(i.limits().0), -3.0);
    assert_eq!(v(ParamKind::Exp { min: s(20.0), max: s(80.0) }.limits().2), 0.0);
}

#[test]
fn parameters_are_found_by_name() {
    let all = describe::<Patch>();
    assert_eq!(all.len(), 59);
    let i = param_from_name::<Patch>("filter/cutoff_hz").unwrap();
    assert_eq!(all[i].name, "filter/cutoff_hz");
    assert_eq!(param_from_name::<Patch>("filter/none"), None);
    let mut p = Patch::new();
    assert_eq!(set_param(&mut p, "filter/cutoff_hz", Some(s(500.0))), Some(true));
    assert_eq!(v(get_param(&p, "filter/cutoff_hz").unwrap()), 500.0);
    assert_eq!(v(p.filter.cutoff_hz), 500.0);
    assert_eq!(set_param(&mut p, "filter/cutoff_hz", None), Some(false));
    assert_eq!(v(p.filter.cutoff_hz), 500.0);
    assert_eq!(set_param(&mut p, "nope", Some(s(1.0))), None);
    assert_eq!(get_param(&p, "nope"), None);
}

#[test]
fn shared_values_are_taken_once() {
    let shared = Shared::new(5u32);
    assert_eq!(shared.snapshot(), (5, 1));
    let mut seen = shared.version();
    assert_eq!(shared.poll(&mut seen), None);
    shared.publish(9);
    assert_eq!(shared.version(), 2);
    assert_eq!(shared.poll(&mut seen), Some(9));
    assert_eq!(seen, 2);
    assert_eq!(shared.poll(&mut seen), None);
    assert_eq!(shared.snapshot(), (9, 2));
    let mut seen: u32 = 1;
    assert_eq!(settle::<u32>(2, &mut seen, None), None);
    assert_eq!(seen, 1);
    assert_eq!(settle(2, &mut seen, Some(4u32)), Some(4));
    assert_eq!(seen, 2);
}

#[test]
fn draws_stay_below_their_upper_bound() {
    // The greatest fraction there is rounds 1 + t up to 2; the draw must not.
    let last = (1u32 << 24) - 1;
    assert_eq!(1.0f32 + last as f32 / 16777216.0, 2.0);
    let mut rng = Rng::new(3);
    for _ in 0..100_000 {
        let x = v(rng.range(&fpu, s(1.0), s(2.0)));
        assert!((1.0..2.0).contains(&x), "{x}");
        let y = v(rng.range(&fpu, s(-3.0), s(-2.5)));
        assert!((-3.0..-2.5).contains(&y), "{y}");
    }
    // Arithmetic that rounds everything up still stays inside.
    let up = |p: Prim, x: Single, y: Single| if p == Prim::Add { s(2.0) } else { fpu(p, x, y) };
    assert_eq!(v(Rng::new(1).range(&up, s(1.0), s(2.0))), 1.0);
}

#[test]
fn phases_stay_in_their_cycle() {
    let mut o = Oscillator::new(1);
    o.reset(&fpu, s(-1e-10));
    assert_eq!(v(o.phase), 0.0);
    o.reset(&fpu, s(2.75));
    assert_eq!(v(o.phase), 0.75);
    o.reset(&fpu, s(-0.25));
    assert_eq!(v(o.phase), 0.75);
    o.reset(&fpu, s(f32::NAN));
    assert_eq!(v(o.phase), 0.0);
    for dt in [0.3, -0.3, -1e-10, 7.0, -7.3, f32::NAN] {
        for _ in 0..50 {
            o.next(&fpu, Waveform::Saw, s(dt), s(0.5));
            assert!((0.0..1.0).contains(&v(o.phase)), "{dt}: {}", v(o.phase));
        }
    }
    let mut p = Phasor::default();
    for inc in [0.4, -0.4, -1e-10, 3.7, f32::NAN] {
        for _ in 0..50 {
            p.tick(&fpu, s(inc));
            assert!((0.0..1.0).contains(&v(p.phase)), "{inc}: {}", v(p.phase));
        }
    }
}

#[test]
fn nothing_leaves_the_limiter_above_one() {
    for i in 0..4000 {
        let x = (i as f32 - 2000.0) * 0.01;
        let y = v(limit(&fpu, s(x)));
        assert!(y.abs() <= 1.0 && y.is_sign_negative() == x.is_sign_negative(), "{x} {y}");
    }
    assert_eq!(v(limit(&fpu, s(f32::INFINITY))), 1.0);
    assert_eq!(v(limit(&fpu, s(-f32::MAX))), -1.0);
    assert!(v(limit(&fpu, s(f32::NAN))).is_nan());
    let loud = |p: Prim, x: Single, y: Single| if p == Prim::Add { s(9.0) } else { fpu(p, x, y) };
    assert_eq!(v(limit(&loud, s(-5.0))), -1.0);
}

#[test]
fn envelopes_stay_in_scale_and_end_in_silence() {
    for sustain in [0.0, 0.4, 3.0, -2.0, f32::NAN] {
        let p = AdsrParams { attack: s(0.002), decay: s(0.01), sustain: s(sustain), release: s(0.01) };
        let mut e = Adsr::default();
        e.trigger(&fpu, &p, s(SR));
        for i in 0..4000 {
            if i == 2000 {
                e.release();
            }
            let x = v(e.tick(&fpu));
            assert!((0.0..=1.0).contains(&x), "{sustain}: {x}");
            assert!(e.stage() != Stage::Idle || x == 0.0);
        }
        assert_eq!(e.stage(), Stage::Idle);
    }
}

#[test]
fn control_values_stay_in_their_range() {
    for wave in [LfoWave::Sine, LfoWave::Triangle, LfoWave::Saw, LfoWave::Square, LfoWave::SampleHold] {
        for rate in [3.0, -3.0, 1e6, f32::NAN] {
            let mut l = Lfo::default();
            for _ in 0..200 {
                let x = v(l.advance(&fpu, wave, s(rate), s(0.01)));
                assert!((-1.0..=1.0).contains(&x), "{wave:?} {rate}: {x}");
            }
        }
    }
    let mut n = SlowNoise::new(5);
    for _ in 0..2000 {
        let x = v(n.advance(&fpu, s(40.0), s(0.01)));
        assert!((-1.0..=1.0).contains(&x), "{x}");
    }
}

#[test]
fn the_limiter_is_odd_and_keeps_above_its_knee() {
    for i in 0..2000 {
        let x = i as f32 * 0.01;
        let y = v(limit(&fpu, s(x)));
        assert_eq!(v(limit(&fpu, s(-x))), -y);
        assert!(x <= 0.7 || (0.7..=1.0).contains(&y), "{x} {y}");
    }
    assert_eq!(v(limit(&fpu, s(f32::NEG_INFINITY))), -1.0);
}

#[test]
fn whole_numbers_are_kept_up_to_the_last() {
    let kind = ParamKind::Int { min: -0x0100_0000, max: 0x0100_0000 };
    for n in [-16777216.0f32, -16777215.0, 0.0, 16777215.0, 16777216.0] {
        assert_eq!(v(kind.clamp(s(n))), n);
    }
    assert_eq!(v(kind.clamp(s(1e9))), 16777216.0);
}
