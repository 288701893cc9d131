//! How the layers of the ambient engines and vehicles are mixed.
use vstd::prelude::*;

use crate::arith::{Prim, Sums};
use crate::blocks::OnePole;
use crate::generators::ambient::{CrowdMix, CrowdParams, CrowdView, DroneMix, DroneParams, DroneView, ElectricMix, ElectricParams, ElectricView, Radio, RadioMix, RadioParams, Siren, SirenMix, SirenParams};
use crate::generators::nature::{Fire, FireMix, FireParams, OceanMix, OceanParams, OceanView, StreamMix, StreamParams, StreamView, Wind, WindMix, WindParams, P0_4};
use crate::generators::vehicles::{CombustionMix, CombustionParams, CombustionView, HoverMix, HoverParams, HoverView, MotorMix, MotorParams, MotorView, Rotor, RotorMix, RotorParams};
use crate::noise::Noise;
use crate::single::{Single, HALF, ONE, ZERO};

verus! {

/// The white sample a noise source draws next, and the pink one it draws after it.
pub open spec fn white_and_pink(f: Sums, n: Noise) -> (Single, Single) {
    (n.draw(), pink_of(f, Noise { rng: n.rng.advanced(), ..n }))
}

/// The pink sample a noise source draws next.
pub open spec fn pink_of(f: Sums, n: Noise) -> Single {
    n.pink.output(f, n.draw())
}

/// Exactly the gain at `i` is one, and the others are zero.
pub open spec fn solo(gains: Seq<Single>, i: int) -> bool {
    &&& 0 <= i < gains.len()
    &&& forall|k: int| 0 <= k < gains.len() ==> if k == i {
        #[trigger] gains[k] == Single::of(ONE)
    } else {
        gains[k].zero()
    }
}

/// Wind: the howl is pink noise through two bodies, the rumble brown noise, hiss and whistle white noise; each is
/// heard at its own gain, and all of them at the level.
pub proof fn lemma_wind_layers(f: Sums, p: WindParams, m: WindMix, s: Wind, v: Single)
    requires
        crate::rounding::unit_exact(f),
        crate::rounding::modest(s.body0.output(f, white_and_pink(f, s.noise).1)),
        crate::rounding::modest(s.body1.output(f, white_and_pink(f, s.noise).1)),
        s.rumble.output(f, s.brown.sound(f, s.noise.draw())).finite(),
        s.hiss.output(f, s.noise.draw()).finite(),
        s.whistle.output(f, s.noise.draw()).finite(),
    ensures
        ({
            let gains = seq![m.howl, m.rumble, m.hiss, m.whistle_gain];
            let y = crate::generators::nature::wind_tick(f, p, m, s, v).1;
            &&& solo(gains, 0) && m.level == Single::of(ONE) && s.body1.output(f, white_and_pink(f, s.noise).1).zero() ==> crate::rounding::same(
                y,
                s.body0.output(f, white_and_pink(f, s.noise).1),
            )
            &&& solo(gains, 1) && m.level == Single::of(ONE) ==> crate::rounding::same(y, s.rumble.output(f, s.brown.sound(f, s.noise.draw())))
            &&& solo(gains, 2) && m.level == Single::of(ONE) ==> crate::rounding::same(y, s.hiss.output(f, s.noise.draw()))
            &&& solo(gains, 3) && m.level == Single::of(ONE) ==> crate::rounding::same(y, s.whistle.output(f, s.noise.draw()))
            &&& solo(gains, 0) && m.level.zero() ==> y.zero()
        }),
{
    let gains = seq![m.howl, m.rumble, m.hiss, m.whistle_gain];
    assert(gains[0] == m.howl && gains[1] == m.rumble && gains[2] == m.hiss && gains[3] == m.whistle_gain);
    assert(crate::rounding::modest(f(Prim::Mul, Single::of(P0_4), s.body1.output(f, white_and_pink(f, s.noise).1))));
}

/// Fire: crackles, pops, roar and hiss are heard at their own gains, and all of them at the gain of the fire.
pub proof fn lemma_fire_layers(f: Sums, p: FireParams, m: FireMix, s: Fire, v: Single)
    requires
        crate::rounding::unit_exact(f),
        s.crack.output(f, f(Prim::Mul, s.noise.draw(), crate::generators::nature::fire_tick(f, p, m, s, v).0.env)).finite(),
        s.pop.output(f, s.pops.impulse(f, m.pop_p)).finite(),
        s.roar.output(f, s.brown.sound(f, s.noise.draw())).finite(),
        s.hiss.output(f, s.noise.draw()).finite(),
    ensures
        ({
            let gains = seq![m.crackle_gain, m.pop_gain, m.roar_gain, m.hiss_gain];
            let (t, y) = crate::generators::nature::fire_tick(f, p, m, s, v);
            &&& solo(gains, 0) && p.gain == Single::of(ONE) ==> crate::rounding::same(y, s.crack.output(f, f(Prim::Mul, s.noise.draw(), t.env)))
            &&& solo(gains, 1) && p.gain == Single::of(ONE) ==> crate::rounding::same(y, s.pop.output(f, s.pops.impulse(f, m.pop_p)))
            &&& solo(gains, 2) && p.gain == Single::of(ONE) ==> crate::rounding::same(y, s.roar.output(f, s.brown.sound(f, s.noise.draw())))
            &&& solo(gains, 3) && p.gain == Single::of(ONE) ==> crate::rounding::same(y, s.hiss.output(f, s.noise.draw()))
            &&& solo(gains, 0) && p.gain.zero() ==> y.zero()
            &&& !s.crackles.strikes(m.crackle_p) ==> t.env == f(Prim::Mul, s.env, m.decay)
            &&& s.crackles.strikes(m.crackle_p) && m.decay == Single::of(ONE) && !s.env.nan() ==> s.env.at_most(t.env) && Single::of(
                ZERO,
            ).below(t.env)
        }),
{
    let gains = seq![m.crackle_gain, m.pop_gain, m.roar_gain, m.hiss_gain];
    assert(gains[0] == m.crackle_gain && gains[1] == m.pop_gain && gains[2] == m.roar_gain && gains[3] == m.hiss_gain);
}

/// Crowd: cheers and roars are heard at their own gains beside the murmur, and all of them at the level.
pub proof fn lemma_crowd_layers(f: Sums, p: CrowdParams, m: CrowdMix, s: CrowdView, v: Single)
    requires
        crate::rounding::unit_exact(f),
        crate::generators::ambient::crowd_murmur_of(f, white_and_pink(f, s.noise).1, s, Single::of(ZERO), 8).1.finite(),
        s.cheer.output(f, s.noise.draw()).finite(),
        s.roar.output(f, s.brown.sound(f, s.noise.draw())).finite(),
        s.voice.len() == 8 && s.amp.len() == 8,
    ensures
        ({
            let gains = seq![m.murmur_gain, m.cheer_gain, m.roar_gain];
            let y = crate::generators::ambient::crowd_tick(f, p, m, s, v).1;
            &&& solo(gains, 0) && m.level == Single::of(ONE) ==> crate::rounding::same(y, crate::generators::ambient::crowd_murmur_of(f, white_and_pink(f, s.noise).1, s, Single::of(ZERO), 8).1)
            &&& solo(gains, 1) && m.level == Single::of(ONE) ==> crate::rounding::same(y, s.cheer.output(f, s.noise.draw()))
            &&& solo(gains, 2) && m.level == Single::of(ONE) ==> crate::rounding::same(y, s.roar.output(f, s.brown.sound(f, s.noise.draw())))
            &&& solo(gains, 0) && m.level.zero() ==> y.zero()
        }),
{
    let gains = seq![m.murmur_gain, m.cheer_gain, m.roar_gain];
    assert(gains[0] == m.murmur_gain && gains[1] == m.cheer_gain && gains[2] == m.roar_gain);
    let pk = white_and_pink(f, s.noise).1;
    let t = crate::generators::ambient::crowd_tick(f, p, m, s, v).0;
    let n = Noise { rng: s.noise.rng.advanced(), ..s.noise };
    let q = CrowdView { noise: Noise { rng: n.rng.advanced(), pink: n.pink.fed(f, n.draw()) }, ..s };
    lemma_murmur(f, pk, s, q, Single::of(ZERO), 8);
    lemma_murmur(f, pk, q, q, Single::of(ZERO), 8);
}

/// A murmur is what its voices say: nothing else of the crowd is heard in it, or changed by it.
proof fn lemma_murmur(f: Sums, pk: Single, s: CrowdView, t: CrowdView, y: Single, k: nat)
    requires
        s.voice == t.voice && s.amp == t.amp,
    ensures
        crate::generators::ambient::crowd_murmur_of(f, pk, s, y, k).1 == crate::generators::ambient::crowd_murmur_of(f, pk, t, y, k).1,
        crate::generators::ambient::crowd_murmur_of(f, pk, s, y, k).0.voice == crate::generators::ambient::crowd_murmur_of(f, pk, t, y, k).0.voice,
        crate::generators::ambient::crowd_murmur_of(f, pk, s, y, k).0 == (CrowdView { voice: crate::generators::ambient::crowd_murmur_of(f, pk, s, y, k).0.voice, ..s }),
        crate::generators::ambient::crowd_murmur_of(f, pk, t, y, k).0 == (CrowdView { voice: crate::generators::ambient::crowd_murmur_of(f, pk, t, y, k).0.voice, ..t }),
    decreases k,
{
    if k > 0 {
        lemma_murmur(f, pk, s, t, y, (k - 1) as nat);
    }
}

/// A murmur adds up its voices: a silenced voice adds nothing, and one alone is heard as it speaks.
pub proof fn lemma_voices_add_up(f: Sums, pk: Single, s: CrowdView, k: nat, i: int)
    requires
        crate::rounding::unit_exact(f),
        0 <= i < 8 && k <= 8,
        s.voice.len() == 8 && s.amp.len() == 8,
        forall|j: int| 0 <= j < 8 ==> (#[trigger] s.voice[j]).output(f, pk).finite(),
        forall|j: int| 0 <= j < 8 && j != i ==> (#[trigger] s.amp[j]).zero(),
        s.amp[i] == Single::of(ONE),
    ensures
        k <= i ==> crate::generators::ambient::crowd_murmur_of(f, pk, s, Single::of(ZERO), k).1.zero(),
        k > i ==> crate::rounding::same(crate::generators::ambient::crowd_murmur_of(f, pk, s, Single::of(ZERO), k).1, s.voice[i].output(f, pk)),
        crate::generators::ambient::crowd_murmur_of(f, pk, s, Single::of(ZERO), k).0.amp == s.amp,
        crate::generators::ambient::crowd_murmur_of(f, pk, s, Single::of(ZERO), k).0.voice.len() == 8,
        forall|j: int| k <= j < 8 ==> (#[trigger] crate::generators::ambient::crowd_murmur_of(f, pk, s, Single::of(ZERO), k).0.voice[j]) == s.voice[j],
    decreases k,
{
    if k > 0 {
        lemma_voices_add_up(f, pk, s, (k - 1) as nat, i);
        let (t, y) = crate::generators::ambient::crowd_murmur_of(f, pk, s, Single::of(ZERO), (k - 1) as nat);
        assert(t.voice[k - 1] == s.voice[k - 1]);
        assert(t.amp[k - 1] == s.amp[k - 1]);
        assert(s.voice[k - 1].output(f, pk).finite());
    }
}

/// Motor: the whine, the switching and the gears are heard at their own gains, and all of them at the level.
pub proof fn lemma_motor_layers(f: Sums, p: MotorParams, m: MotorMix, s: MotorView, v: Single)
    requires
        crate::rounding::faithful(f),
        s.gear.output(f, pink_of(f, s.noise)).finite(),
        ({
            let (a, b) = (s.rotor.moved(f, m.inc), s.pwm.moved(f, m.pwm_inc));
            let ph = f(Prim::Mul, a.phase, Single::of(crate::single::TAU));
            &&& crate::rounding::under(f(Prim::Sin, ph, Single::of(ZERO)), 0)
            &&& crate::rounding::under(b.sine(f), 0)
            &&& crate::generators::vehicles::motor_whine_of(f, ph, MotorView { rotor: a, pwm: b, ..s }, Single::of(ZERO), 5).1.finite()
        }),
    ensures
        ({
            let gains = seq![p.whine_level, m.pwm_gain, m.gear_gain];
            let y = crate::generators::vehicles::motor_tick(f, p, m, s, v).1;
            let ph = f(Prim::Mul, s.rotor.moved(f, m.inc).phase, Single::of(crate::single::TAU));
            &&& solo(gains, 0) && m.level == Single::of(ONE) ==> crate::rounding::same(
                y,
                f(Prim::Mul, crate::generators::vehicles::motor_whine_of(f, ph, s, Single::of(ZERO), 5).1, Single::of(HALF)),
            )
            &&& solo(gains, 1) && m.level == Single::of(ONE) && f(Prim::Sin, ph, Single::of(ZERO)).zero() ==> crate::rounding::same(
                y,
                s.pwm.moved(f, m.pwm_inc).sine(f),
            )
            &&& solo(gains, 2) && m.level == Single::of(ONE) ==> crate::rounding::same(y, s.gear.output(f, pink_of(f, s.noise)))
            &&& solo(gains, 0) && m.level.zero() ==> y.zero()
        }),
{
    let gains = seq![p.whine_level, m.pwm_gain, m.gear_gain];
    assert(gains[0] == p.whine_level && gains[1] == m.pwm_gain && gains[2] == m.gear_gain);
    let (a, b) = (s.rotor.moved(f, m.inc), s.pwm.moved(f, m.pwm_inc));
    let ph = f(Prim::Mul, a.phase, Single::of(crate::single::TAU));
    let q = MotorView { rotor: a, pwm: b, ..s };
    lemma_whine(f, ph, s, q, Single::of(ZERO), 5);
    let whine = crate::generators::vehicles::motor_whine_of(f, ph, q, Single::of(ZERO), 5).1;
    let half = f(Prim::Mul, whine, Single::of(HALF));
    assert(half.finite());
    let deep = f(Prim::Mul, Single::of(HALF), f(Prim::Sin, ph, Single::of(ZERO)));
    assert(crate::rounding::under(Single::of(HALF), 0) && crate::rounding::under(deep, 0) && crate::rounding::under(Single::of(ONE), 0));
    assert(crate::rounding::under(f(Prim::Add, Single::of(ONE), deep), 1));
    assert(crate::rounding::under(f(Prim::Mul, b.sine(f), f(Prim::Add, Single::of(ONE), deep)), 1));
}

/// A whine is what its partials are: nothing else of the motor is heard in it, or changed by it.
proof fn lemma_whine(f: Sums, ph: Single, s: MotorView, t: MotorView, whine: Single, k: nat)
    requires
        s.amps == t.amps,
    ensures
        crate::generators::vehicles::motor_whine_of(f, ph, s, whine, k) == (s, crate::generators::vehicles::motor_whine_of(f, ph, s, whine, k).1),
        crate::generators::vehicles::motor_whine_of(f, ph, t, whine, k) == (t, crate::generators::vehicles::motor_whine_of(f, ph, s, whine, k).1),
    decreases k,
{
    if k > 0 {
        lemma_whine(f, ph, s, t, whine, (k - 1) as nat);
    }
}

/// A whine adds up its partials: one alone sounds at its own multiple of the phase.
pub proof fn lemma_partials_add_up(f: Sums, ph: Single, s: MotorView, k: nat, i: int)
    requires
        crate::rounding::unit_exact(f),
        0 <= i < 5 && k <= 5,
        forall|j: int| 0 <= j < 5 ==> f(Prim::Sin, f(Prim::Mul, ph, #[trigger] crate::generators::vehicles::order_at(j)), Single::of(ZERO)).finite(),
        forall|j: int| 0 <= j < 5 && j != i ==> (#[trigger] s.amps[j]).zero(),
        s.amps[i] == Single::of(ONE),
    ensures
        k <= i ==> crate::generators::vehicles::motor_whine_of(f, ph, s, Single::of(ZERO), k).1.zero(),
        k > i ==> crate::rounding::same(crate::generators::vehicles::motor_whine_of(f, ph, s, Single::of(ZERO), k).1, f(Prim::Sin, f(Prim::Mul, ph, crate::generators::vehicles::order_at(i)), Single::of(ZERO))),
        crate::generators::vehicles::motor_whine_of(f, ph, s, Single::of(ZERO), k).0 == s,
    decreases k,
{
    if k > 0 {
        lemma_partials_add_up(f, ph, s, (k - 1) as nat, i);
        assert(f(Prim::Sin, f(Prim::Mul, ph, crate::generators::vehicles::order_at(k - 1)), Single::of(ZERO)).finite());
    }
}

/// Radio: the hiss, the whistle and the hum are heard at their own gains where nothing clicks, and all of them at
/// the gain of the radio.
pub proof fn lemma_radio_layers(f: Sums, p: RadioParams, m: RadioMix, s: Radio, v: Single)
    requires
        crate::rounding::unit_exact(f),
        !s.clicks.strikes(m.click_p),
        s.hiss.output(f, s.noise.draw()).finite(),
        s.tick.output(f, Single::of(ZERO)).zero(),
        s.whistle.moved(f, m.whistle_inc).sine(f).finite(),
        p.click_level.finite(),
        ({
            let h = f(Prim::Mul, crate::generators::ambient::radio_tick(f, p, m, s, v).0.hum.phase, Single::of(crate::single::TAU));
            &&& crate::rounding::modest(f(Prim::Sin, h, Single::of(ZERO)))
            &&& crate::rounding::modest(f(Prim::Sin, f(Prim::Mul, h, Single::of(crate::single::TWO)), Single::of(ZERO)))
        }),
    ensures
        ({
            let gains = seq![m.hiss_gain, m.whistle_gain, m.hum_gain];
            let (t, y) = crate::generators::ambient::radio_tick(f, p, m, s, v);
            let loud = Single::of(crate::generators::ambient::P1_5);
            let h = f(Prim::Mul, t.hum.phase, Single::of(crate::single::TAU));
            &&& solo(gains, 0) && p.gain == Single::of(ONE) ==> crate::rounding::same(y, f(Prim::Mul, s.hiss.output(f, s.noise.draw()), loud))
            &&& solo(gains, 1) && p.gain == Single::of(ONE) ==> crate::rounding::same(y, f(Prim::Mul, s.whistle.moved(f, m.whistle_inc).sine(f), loud))
            &&& solo(gains, 2) && p.gain == Single::of(ONE) && f(Prim::Sin, f(Prim::Mul, h, Single::of(crate::single::TWO)), Single::of(ZERO)).zero() ==> crate::rounding::same(
                y,
                f(Prim::Mul, f(Prim::Sin, h, Single::of(ZERO)), loud),
            )
            &&& solo(gains, 0) && p.gain.zero() ==> y.zero()
        }),
{
    let gains = seq![m.hiss_gain, m.whistle_gain, m.hum_gain];
    assert(gains[0] == m.hiss_gain && gains[1] == m.whistle_gain && gains[2] == m.hum_gain);
    let click = Single::of(ZERO);
    let ticked = s.tick.output(f, click);
    assert(f(Prim::Mul, ticked, Single::of(crate::single::TWO)).zero());
    assert(f(Prim::Mul, click, Single::of(HALF)).zero());
    let h = f(Prim::Mul, crate::generators::ambient::radio_tick(f, p, m, s, v).0.hum.phase, Single::of(crate::single::TAU));
    let second = f(Prim::Sin, f(Prim::Mul, h, Single::of(crate::single::TWO)), Single::of(ZERO));
    assert(crate::rounding::modest(f(Prim::Mul, Single::of(HALF), second)));
}

/// A wave that has gone through a pole that takes all of it is as it was, but for what is too quiet to be heard.
proof fn lemma_clear_pole(f: Sums, pole: OnePole, x: Single, coef: Single)
    requires
        crate::rounding::unit_exact(f),
        pole.y.zero() && coef == Single::of(ONE) && x.finite(),
        x.zero() || !x.absolute().below(Single::of(crate::blocks::SILENCE)),
    ensures
        crate::rounding::same(pole.smoothed(f, x, coef), x),
{
}

/// Ocean: crash, foam and rumble are heard at their own gains, from nearby as they are, and all of them at the level.
pub proof fn lemma_ocean_layers(f: Sums, p: OceanParams, m: OceanMix, s: OceanView, v: Single)
    requires
        crate::rounding::unit_exact(f),
        s.crash.output(f, white_and_pink(f, s.noise).1).finite(),
        s.foam.output(f, s.noise.draw()).finite(),
        s.rumble.output(f, s.brown.sound(f, s.noise.draw())).finite(),
        s.far.y.zero() && m.far_coef == Single::of(ONE),
    ensures
        ({
            let gains = seq![m.crash, m.foam, m.rumble];
            let y = crate::generators::nature::ocean_tick(f, p, m, s, v).1;
            let a = s.crash.output(f, white_and_pink(f, s.noise).1);
            let b = s.foam.output(f, s.noise.draw());
            let c = s.rumble.output(f, s.brown.sound(f, s.noise.draw()));
            let quiet = Single::of(crate::blocks::SILENCE);
            &&& solo(gains, 0) && m.level == Single::of(ONE) && !a.absolute().below(quiet) ==> y == a
            &&& solo(gains, 1) && m.level == Single::of(ONE) && !b.absolute().below(quiet) ==> y == b
            &&& solo(gains, 2) && m.level == Single::of(ONE) && !c.absolute().below(quiet) ==> y == c
        }),
{
    let gains = seq![m.crash, m.foam, m.rumble];
    assert(gains[0] == m.crash && gains[1] == m.foam && gains[2] == m.rumble);
    let a = s.crash.output(f, white_and_pink(f, s.noise).1);
    let b = s.foam.output(f, s.noise.draw());
    let c = s.rumble.output(f, s.brown.sound(f, s.noise.draw()));
    let quiet = Single::of(crate::blocks::SILENCE);
    if solo(gains, 0) && !a.absolute().below(quiet) {
        lemma_clear_pole(f, s.far, a, m.far_coef);
    }
    if solo(gains, 1) && !b.absolute().below(quiet) {
        lemma_clear_pole(f, s.far, b, m.far_coef);
    }
    if solo(gains, 2) && !c.absolute().below(quiet) {
        lemma_clear_pole(f, s.far, c, m.far_coef);
    }
}

/// Stream: where no bubble starts, the ones there are and the wash are heard at their own gains, and both at the gain
/// of the stream.
pub proof fn lemma_stream_layers(f: Sums, p: StreamParams, m: StreamMix, s: StreamView, v: Single)
    requires
        crate::rounding::unit_exact(f),
        !s.dust.strikes(m.bubble_p),
        crate::generators::nature::stream_bubbles_of(f, m, s, Single::of(ZERO), 16).1.finite(),
        s.wash.output(f, pink_of(f, s.noise)).finite(),
    ensures
        ({
            let gains = seq![m.bubble_gain, m.wash_gain];
            let y = crate::generators::nature::stream_tick(f, p, m, s, v).1;
            &&& solo(gains, 0) && p.gain == Single::of(ONE) ==> crate::rounding::same(y, crate::generators::nature::stream_bubbles_of(f, m, s, Single::of(ZERO), 16).1)
            &&& solo(gains, 1) && p.gain == Single::of(ONE) ==> crate::rounding::same(y, s.wash.output(f, pink_of(f, s.noise)))
            &&& solo(gains, 0) && p.gain.zero() ==> y.zero()
        }),
{
    let gains = seq![m.bubble_gain, m.wash_gain];
    assert(gains[0] == m.bubble_gain && gains[1] == m.wash_gain);
    let q = StreamView { dust: s.dust.ticked(m.bubble_p), ..s };
    lemma_bubbling(f, m, s, q, Single::of(ZERO), 16);
}

/// Bubbles are heard on their own: nothing else of the stream is heard in them, or changed by them.
proof fn lemma_bubbling(f: Sums, m: StreamMix, s: StreamView, t: StreamView, y: Single, k: nat)
    requires
        s.bubbles == t.bubbles,
    ensures
        crate::generators::nature::stream_bubbles_of(f, m, s, y, k).1 == crate::generators::nature::stream_bubbles_of(f, m, t, y, k).1,
        crate::generators::nature::stream_bubbles_of(f, m, s, y, k).0 == (StreamView { bubbles: crate::generators::nature::stream_bubbles_of(f, m, s, y, k).0.bubbles, ..s }),
        crate::generators::nature::stream_bubbles_of(f, m, t, y, k).0 == (StreamView { bubbles: crate::generators::nature::stream_bubbles_of(f, m, s, y, k).0.bubbles, ..t }),
    decreases k,
{
    if k > 0 {
        lemma_bubbling(f, m, s, t, y, (k - 1) as nat);
    }
}

/// A bubble turns at its own pace, which does not fall where it rises, and it fades where it decays.
pub proof fn lemma_bubble(f: Sums, b: crate::generators::nature::Bubble)
    requires
        crate::rounding::unit_exact(f),
        crate::rounding::keeps_order(f),
        Single::of(ZERO).at_most(b.inc) && b.inc.at_most(Single::of(crate::generators::nature::P0_45)),
        Single::of(ZERO).at_most(b.env) && b.env.finite(),
        b.rise.finite() && b.decay.finite(),
    ensures
        b.rise == Single::of(ONE) ==> b.risen(f).inc == b.inc,
        Single::of(ONE).at_most(b.rise) ==> b.inc.at_most(b.risen(f).inc) || b.risen(f).inc == Single::of(crate::generators::nature::P0_45),
        b.decay == Single::of(ONE) ==> b.risen(f).env == b.env,
        Single::of(ZERO).at_most(b.decay) && b.decay.at_most(Single::of(ONE)) ==> b.risen(f).env.at_most(b.env),
        b.phase.zero() && b.inc.below(Single::of(ONE)) ==> crate::rounding::same(b.risen(f).phase, b.inc),
        b.phase.finite() && f(Prim::Add, b.phase, b.inc) == Single::of(ONE) ==> b.risen(f).phase.zero(),
        b.risen(f).rise == b.rise && b.risen(f).decay == b.decay,
{
    assert(f(Prim::Mul, b.inc, Single::of(ONE)) == b.inc);
    assert(f(Prim::Mul, b.env, Single::of(ONE)) == b.env);
}

/// Hum: it adds up its harmonics; one alone sounds at its own multiple of the phase.
pub proof fn lemma_harmonics_add_up(f: Sums, a: Single, s: ElectricView, k: nat, i: int)
    requires
        crate::rounding::unit_exact(f),
        0 <= i < 7 && k <= 7,
        forall|j: int| 0 <= j < 7 ==> f(Prim::Sin, f(Prim::Mul, a, #[trigger] crate::single::signed_integer(j + 1)), Single::of(ZERO)).finite(),
        forall|j: int| 0 <= j < 7 && j != i ==> (#[trigger] s.amps[j]).zero(),
        s.amps[i] == Single::of(ONE),
    ensures
        k <= i ==> crate::generators::ambient::electric_hum_of(f, a, s, Single::of(ZERO), k).1.zero(),
        k > i ==> crate::rounding::same(crate::generators::ambient::electric_hum_of(f, a, s, Single::of(ZERO), k).1, f(Prim::Sin, f(Prim::Mul, a, crate::single::signed_integer(i + 1)), Single::of(ZERO))),
        crate::generators::ambient::electric_hum_of(f, a, s, Single::of(ZERO), k).0 == s,
    decreases k,
{
    if k > 0 {
        lemma_harmonics_add_up(f, a, s, (k - 1) as nat, i);
        let j = k - 1;
        assert(f(Prim::Sin, f(Prim::Mul, a, crate::single::signed_integer(j + 1)), Single::of(ZERO)).finite());
        assert(j != i ==> s.amps[j].zero());
    }
}

/// Arcs: each strike lifts the envelope, which otherwise only decays.
pub proof fn lemma_arcs(f: Sums, p: ElectricParams, m: ElectricMix, s: ElectricView, v: Single)
    requires
        crate::rounding::unit_exact(f),
        !s.arc_env.nan(),
    ensures
        ({
            let t = crate::generators::ambient::electric_tick(f, p, m, s, v).0;
            &&& !s.arcs.strikes(m.arc_p) ==> t.arc_env == f(Prim::Mul, s.arc_env, m.arc_decay)
            &&& s.arcs.strikes(m.arc_p) && m.arc_decay == Single::of(ONE) ==> s.arc_env.at_most(t.arc_env) && Single::of(ZERO).below(
                t.arc_env,
            )
            &&& t.hum0 == s.hum0.moved(f, m.inc0) && t.hum1 == s.hum1.moved(f, m.inc1)
        }),
{
    let q = ElectricView { hum0: s.hum0.moved(f, m.inc0), hum1: s.hum1.moved(f, m.inc1), ..s };
    lemma_hum(f, f(Prim::Mul, q.hum0.phase, Single::of(crate::single::TAU)), q, Single::of(ZERO), 7);
}

/// A hum moves nothing in the machine.
proof fn lemma_hum(f: Sums, a: Single, s: ElectricView, hum: Single, k: nat)
    ensures
        crate::generators::ambient::electric_hum_of(f, a, s, hum, k).0 == s,
    decreases k,
{
    if k > 0 {
        lemma_hum(f, a, s, hum, (k - 1) as nat);
    }
}

/// Siren: where its sweep is at the bottom it sounds its low pitch; without the second horn a bright siren is its
/// pulse wave and a dull one its sine.
pub proof fn lemma_siren_layers(f: Sums, p: SirenParams, m: SirenMix, s: Siren, t: Siren, v: Single)
    requires
        crate::rounding::unit_exact(f),
        s.lfo == t.lfo && s.gate == t.gate && s.horn == t.horn,
        p.low_hz.finite() && m.span.finite(),
        crate::generators::ambient::siren_shape(f, p, s.lfo.moved(f, m.lfo_inc).phase).zero(),
        ({
            let inc = f(Prim::Div, p.low_hz, m.sr);
            let other = f(Prim::Div, f(Prim::Mul, p.low_hz, Single::of(crate::generators::ambient::P1_26)), m.sr);
            let width = Single::of(crate::generators::ambient::P0_35);
            &&& s.tone0.moved(f, inc).sine(f).finite() && t.tone0.moved(f, inc).sine(f).finite()
            &&& s.osc0.sample(f, crate::osc::Waveform::Pulse, inc, width).finite()
            &&& t.osc0.sample(f, crate::osc::Waveform::Pulse, inc, width).finite()
            &&& s.tone1.moved(f, other).sine(f).finite() && t.tone1.moved(f, other).sine(f).finite()
            &&& s.osc1.sample(f, crate::osc::Waveform::Pulse, other, width).finite()
            &&& t.osc1.sample(f, crate::osc::Waveform::Pulse, other, width).finite()
        }),
        p.brightness == Single::of(ONE) || p.brightness.zero(),
        m.second.zero(),
    ensures
        crate::generators::ambient::siren_tick(f, p, m, s, v).0.tone0 == s.tone0.moved(f, f(Prim::Div, p.low_hz, m.sr)),
        crate::generators::ambient::siren_tick(f, p, m, s, v).0.lfo == s.lfo.moved(f, m.lfo_inc),
        p.brightness == Single::of(ONE) && s.osc0 == t.osc0 && !s.osc0.sample(
            f,
            crate::osc::Waveform::Pulse,
            f(Prim::Div, p.low_hz, m.sr),
            Single::of(crate::generators::ambient::P0_35),
        ).zero() ==> crate::generators::ambient::siren_tick(f, p, m, s, v).1 == crate::generators::ambient::siren_tick(f, p, m, t, v).1,
        p.brightness.zero() && s.tone0 == t.tone0 && !s.tone0.moved(f, f(Prim::Div, p.low_hz, m.sr)).sine(f).zero() ==> crate::generators::ambient::siren_tick(
            f,
            p,
            m,
            s,
            v,
        ).1 == crate::generators::ambient::siren_tick(f, p, m, t, v).1,
{
    let inc = f(Prim::Div, p.low_hz, m.sr);
    let other = f(Prim::Div, f(Prim::Mul, p.low_hz, Single::of(crate::generators::ambient::P1_26)), m.sr);
    let width = Single::of(crate::generators::ambient::P0_35);
    let ph = s.lfo.moved(f, m.lfo_inc).phase;
    let hz = f(Prim::Mul, p.low_hz, f(Prim::Exp, f(Prim::Mul, m.span, crate::generators::ambient::siren_shape(f, p, ph)), Single::of(ZERO)));
    assert(hz == p.low_hz);
    assert(f(Prim::Mul, hz, Single::of(ONE)) == p.low_hz);
    assert(f(Prim::Mul, m.second, Single::of(crate::generators::ambient::P0_7)).zero());
    assert(f(Prim::Sub, Single::of(ONE), Single::of(ONE)).zero());
    if p.brightness.zero() {
        assert(f(Prim::Sub, Single::of(ONE), p.brightness) == Single::of(ONE));
    }
}

/// Rotor: the wash is chopped by the blades as much as it is set to; wash and turbine are heard at their own gains,
/// and everything at the level.
pub proof fn lemma_rotor_layers(f: Sums, p: RotorParams, m: RotorMix, s: Rotor, v: Single)
    requires
        crate::rounding::faithful(f),
        ({
            let t = crate::generators::vehicles::rotor_tick(f, p, m, s, v).0;
            let env = blade_stroke(f, p, t);
            &&& env.finite()
            &&& crate::rounding::modest(s.thump.output(f, f(Prim::Sub, env, Single::of(crate::generators::vehicles::P0_3))))
            &&& crate::rounding::modest(t.passing.sine(f))
            &&& f(Prim::Mul, s.wash.output(f, pink_of(f, s.noise)), env).finite()
            &&& s.wash.output(f, pink_of(f, s.noise)).finite()
            &&& crate::rounding::modest(t.turbine0.sine(f)) && crate::rounding::modest(t.turbine1.sine(f))
        }),
        p.chop.zero() || p.chop == Single::of(ONE),
    ensures
        ({
            let gains = seq![m.thump_gain, m.wash_gain, m.turbine_gain];
            let (t, y) = crate::generators::vehicles::rotor_tick(f, p, m, s, v);
            let washed = s.wash.output(f, pink_of(f, s.noise));
            &&& solo(gains, 1) && m.level == Single::of(ONE) && p.chop.zero() ==> crate::rounding::same(y, washed)
            &&& solo(gains, 1) && m.level == Single::of(ONE) && p.chop == Single::of(ONE) ==> crate::rounding::same(y, f(Prim::Mul, washed, blade_stroke(f, p, t)))
            &&& solo(gains, 2) && m.level == Single::of(ONE) && t.turbine1.sine(f).zero() ==> crate::rounding::same(y, t.turbine0.sine(f))
            &&& solo(gains, 0) && m.level.zero() ==> y.zero()
            &&& t.passing == s.passing.moved(f, m.inc) && t.turbine0 == s.turbine0.moved(f, m.t_inc)
            &&& !s.passing.wraps(f, m.inc) ==> t.blade == s.blade && t.blade_amp == s.blade_amp
            &&& s.passing.wraps(f, m.inc) && t.blade != 0 ==> t.blade_amp == Single::of(ONE)
        }),
{
    let gains = seq![m.thump_gain, m.wash_gain, m.turbine_gain];
    assert(gains[0] == m.thump_gain && gains[1] == m.wash_gain && gains[2] == m.turbine_gain);
    let t = crate::generators::vehicles::rotor_tick(f, p, m, s, v).0;
    let env = blade_stroke(f, p, t);
    let washed = s.wash.output(f, pink_of(f, s.noise));
    let third = Single::of(crate::generators::vehicles::P0_3);
    assert(crate::rounding::modest(f(Prim::Mul, third, t.passing.sine(f))));
    assert(crate::rounding::modest(f(Prim::Mul, Single::of(HALF), t.turbine1.sine(f))));
    let open = f(Prim::Add, f(Prim::Sub, Single::of(ONE), p.chop), f(Prim::Mul, p.chop, env));
    if p.chop.zero() {
        assert(f(Prim::Sub, Single::of(ONE), p.chop) == Single::of(ONE));
        assert(open == Single::of(ONE));
        assert(f(Prim::Mul, washed, open) == washed);
    } else {
        assert(crate::rounding::same(open, env));
        assert(crate::rounding::same(f(Prim::Mul, washed, open), f(Prim::Mul, washed, env)));
    }
}

/// The stroke of a blade at its phase.
pub open spec fn blade_stroke(f: Sums, p: RotorParams, t: Rotor) -> Single {
    f(
        Prim::Mul,
        f(
            Prim::Pow,
            f(Prim::Add, Single::of(HALF), f(Prim::Mul, Single::of(HALF), f(Prim::Cos, f(Prim::Mul, t.passing.phase, Single::of(crate::single::TAU)), Single::of(ZERO)))),
            p.sharp,
        ),
        t.blade_amp,
    )
}

/// Hover: an engine that is not driven, strained, pulsed or swept is the softly limited sum of its core, its
/// sub-octave and its shimmer, each at its own gain.
pub proof fn lemma_hover_layers(f: Sums, p: HoverParams, m: HoverMix, s: HoverView, v: Single)
    requires
        crate::rounding::faithful(f),
        m.drive == Single::of(ONE) && m.strain.zero() && p.pulse_depth.zero() && p.sweep_feedback.zero(),
        crate::blocks::delayed(f, s.sweep, m.sweep).finite(),
        ({
            let t = crate::generators::vehicles::hover_tick(f, p, m, s, v).0;
            &&& crate::rounding::under(t.pulse.sine(f), 0) && crate::rounding::under(t.rough.sine(f), 0) && t.sub.sine(f).finite()
            &&& hover_core(f, m, s).finite() && hover_shimmer(f, s).finite()
        }),
    ensures
        ({
            let gains = seq![p.core_level, m.sub_gain, m.shimmer_gain];
            let (t, y) = crate::generators::vehicles::hover_tick(f, p, m, s, v);
            let (a, b, c) = (f(Prim::Mul, hover_core(f, m, s), Single::of(HALF)), t.sub.sine(f), hover_shimmer(f, s));
            &&& t.sub == s.sub.moved(f, f(Prim::Mul, m.inc0, Single::of(HALF)))
            &&& solo(gains, 0) && m.level == Single::of(ONE) && !a.zero() && crate::math::saturated(f, a).finite() ==> y == crate::math::saturated(f, a)
            &&& solo(gains, 1) && m.level == Single::of(ONE) && !b.zero() && crate::math::saturated(f, b).finite() ==> y == crate::math::saturated(f, b)
            &&& solo(gains, 2) && m.level == Single::of(ONE) && !c.zero() && crate::math::saturated(f, c).finite() ==> y == crate::math::saturated(f, c)
        }),
{
    let gains = seq![p.core_level, m.sub_gain, m.shimmer_gain];
    assert(gains[0] == p.core_level && gains[1] == m.sub_gain && gains[2] == m.shimmer_gain);
    let t = crate::generators::vehicles::hover_tick(f, p, m, s, v).0;
    let (one, half) = (Single::of(ONE), Single::of(HALF));
    let (core, sub, shimmer) = (hover_core(f, m, s), t.sub.sine(f), hover_shimmer(f, s));
    let a = f(Prim::Mul, core, half);
    assert(a.finite());
    assert(crate::rounding::under(half, 0));
    let beat = f(Prim::Add, half, f(Prim::Mul, half, t.pulse.sine(f)));
    assert(crate::rounding::under(f(Prim::Mul, half, t.pulse.sine(f)), 0));
    assert(crate::rounding::under(beat, 1));
    let am = f(Prim::Sub, one, f(Prim::Mul, p.pulse_depth, beat));
    assert(am == one);
    let grain = f(Prim::Add, half, f(Prim::Mul, half, t.rough.sine(f)));
    assert(crate::rounding::under(f(Prim::Mul, half, t.rough.sine(f)), 0));
    assert(crate::rounding::under(grain, 1));
    let rough = f(Prim::Sub, one, f(Prim::Mul, f(Prim::Mul, Single::of(crate::generators::vehicles::P0_4), m.strain), grain));
    assert(rough == one);
    let bus = f(Prim::Add, f(Prim::Mul, f(Prim::Add, f(Prim::Mul, a, p.core_level), f(Prim::Mul, sub, m.sub_gain)), am), f(Prim::Mul, shimmer, m.shimmer_gain));
    let y = f(Prim::Add, bus, f(Prim::Mul, crate::blocks::delayed(f, s.sweep, m.sweep), p.sweep_feedback));
    assert(f(Prim::Mul, crate::blocks::delayed(f, s.sweep, m.sweep), p.sweep_feedback).zero());
    let quarter = f(Prim::Add, one, f(Prim::Mul, Single::of(crate::generators::vehicles::P0_25), f(Prim::Sub, m.drive, one)));
    assert(quarter == one);
    if solo(gains, 0) && !a.zero() {
        assert(crate::rounding::same(f(Prim::Add, f(Prim::Mul, a, p.core_level), f(Prim::Mul, sub, m.sub_gain)), a));
        assert(y == a);
        assert(f(Prim::Mul, y, m.drive) == a);
    }
    if solo(gains, 1) && !sub.zero() {
        assert(crate::rounding::same(f(Prim::Add, f(Prim::Mul, a, p.core_level), f(Prim::Mul, sub, m.sub_gain)), sub));
        assert(y == sub);
        assert(f(Prim::Mul, y, m.drive) == sub);
    }
    if solo(gains, 2) && !shimmer.zero() {
        assert(f(Prim::Add, f(Prim::Mul, a, p.core_level), f(Prim::Mul, sub, m.sub_gain)).zero());
        assert(y == shimmer);
        assert(f(Prim::Mul, y, m.drive) == shimmer);
    }
}

/// The two detuned saws of a hover engine, low-passed.
pub open spec fn hover_core(f: Sums, m: HoverMix, s: HoverView) -> Single {
    let saw = crate::osc::Waveform::Saw;
    s.core_lp.output(f, f(Prim::Add, s.osc0.sample(f, saw, m.inc0, Single::of(HALF)), s.osc1.sample(f, saw, m.inc1, Single::of(HALF))))
}

/// The two bands of noise of a hover engine.
pub open spec fn hover_shimmer(f: Sums, s: HoverView) -> Single {
    f(Prim::Add, s.shimmer0.output(f, s.noise.draw()), s.shimmer1.output(f, s.noise.draw()))
}

/// Combustion: the cylinders fire in turn, once a cycle, each as strongly as it is built where the engine runs
/// smoothly; between two of them the strength stays.
pub proof fn lemma_cylinders_take_turns(f: Sums, p: CombustionParams, m: CombustionMix, s: CombustionView, v: Single)
    requires
        crate::rounding::unit_exact(f),
        forall|i: int| 0 <= i < s.cyl_gain.len() ==> (#[trigger] s.cyl_gain[i]).finite(),
        crate::generators::vehicles::cylinder_count(p) <= s.cyl_gain.len(),
        crate::generators::vehicles::cylinder_count(p) > 0,
        crate::math::bipolar(s.dust.rng.fraction()).finite(),
    ensures
        ({
            let t = crate::generators::vehicles::combustion_tick(f, p, m, s, v).0;
            &&& t.fire == s.fire.moved(f, m.inc)
            &&& s.fire.wraps(f, m.inc) ==> t.cyl == (s.cyl + 1) % crate::generators::vehicles::cylinder_count(p)
            &&& s.fire.wraps(f, m.inc) && p.roughness.zero() ==> t.amp == s.cyl_gain[t.cyl as int]
            &&& !s.fire.wraps(f, m.inc) ==> t.cyl == s.cyl && t.amp == s.amp
            &&& t.cyl_gain == s.cyl_gain
        }),
{
    let k = (s.cyl + 1) % crate::generators::vehicles::cylinder_count(p);
    assert(0 <= k < crate::generators::vehicles::cylinder_count(p));
    let kick = crate::math::bipolar(s.dust.rng.fraction());
    if p.roughness.zero() {
        assert(f(Prim::Mul, p.roughness, Single::of(HALF)).zero());
        assert(f(Prim::Mul, f(Prim::Mul, p.roughness, Single::of(HALF)), kick).zero());
        assert(f(Prim::Add, Single::of(ONE), f(Prim::Mul, f(Prim::Mul, p.roughness, Single::of(HALF)), kick)) == Single::of(ONE));
        assert(s.cyl_gain[k].finite());
    }
}

/// Drone: the sub-octave follows the first partial an octave below it; with the partials dark, sub-octave and air
/// are heard at their own gains; a drone at no gain is silent.
pub proof fn lemma_drone_layers(f: Sums, p: DroneParams, m: DroneMix, s: DroneView, v: Single)
    requires
        crate::rounding::unit_exact(f),
        m.trem_depth.zero(),
        ({
            let t = crate::generators::ambient::drone_tick(f, p, m, s, v).0;
            &&& t.dark.y.zero()
            &&& t.sub.sine(f).finite() && t.trem.sine(f).absolute().at_most(Single::of(ONE))
            &&& s.air.output(f, s.noise.draw()).finite()
        }),
    ensures
        ({
            let gains = seq![m.sub_gain, m.air_gain];
            let (t, y) = crate::generators::ambient::drone_tick(f, p, m, s, v);
            let loud = Single::of(crate::generators::ambient::P0_6);
            &&& t.sub == s.sub.moved(f, f(Prim::Mul, s.inc[0], Single::of(HALF)))
            &&& t.trem == s.trem.moved(f, m.trem_inc)
            &&& solo(gains, 0) && p.gain == Single::of(ONE) ==> crate::rounding::same(y, f(Prim::Mul, f(Prim::Mul, t.sub.sine(f), Single::of(HALF)), loud))
            &&& solo(gains, 1) && p.gain == Single::of(ONE) ==> crate::rounding::same(
                y,
                f(Prim::Mul, f(Prim::Mul, s.air.output(f, s.noise.draw()), Single::of(crate::generators::ambient::P0_2)), loud),
            )
            &&& solo(gains, 0) && p.gain.zero() ==> y.zero()
        }),
{
    let gains = seq![m.sub_gain, m.air_gain];
    assert(gains[0] == m.sub_gain && gains[1] == m.air_gain);
    lemma_stack(f, s, Single::of(ZERO), 8);
    let t = crate::generators::ambient::drone_tick(f, p, m, s, v).0;
    let (one, half) = (Single::of(ONE), Single::of(HALF));
    let swing = f(Prim::Add, half, f(Prim::Mul, half, t.trem.sine(f)));
    assert(f(Prim::Mul, half, t.trem.sine(f)).finite());
    assert(crate::rounding::modest(f(Prim::Mul, half, t.trem.sine(f))));
    assert(swing.finite());
    assert(f(Prim::Sub, one, f(Prim::Mul, m.trem_depth, swing)) == one);
}

/// The partials of a drone turn on; nothing else of it moves with them.
proof fn lemma_stack(f: Sums, s: DroneView, y: Single, k: nat)
    ensures
        ({
            let t = crate::generators::ambient::drone_stack_of(f, s, y, k).0;
            t.sub == s.sub && t.trem == s.trem && t.inc == s.inc && t.noise == s.noise && t.air == s.air && t.dark == s.dark
        }),
    decreases k,
{
    if k > 0 {
        lemma_stack(f, s, y, (k - 1) as nat);
    }
}

} // verus!
