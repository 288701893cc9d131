use gamesynth::arith::Prim;
use gamesynth::jet::{JetCommand, JetEngine, JetParamId, JetParams, JetPreset};
use gamesynth::render::{peak, rms};
use gamesynth::single::Single;

const SR: f32 = 48000.0;

fn s(x: f32) -> Single {
    Single { bits: x.to_bits() }
}

fn v(x: Single) -> f32 {
    f32::from_bits(x.bits)
}

fn fpu(p: Prim, x: Single, y: Single) -> Single {
    let (a, b) = (v(x), v(y));
    s(match p {
        Prim::Add => a + b,
        Prim::Sub => a - b,
        Prim::Mul => a * b,
        Prim::Div => a / b,
        Prim::Rem => a.rem_euclid(b),
        Prim::Pow => a.powf(b),
        Prim::Sqrt => a.sqrt(),
        Prim::Exp => a.exp(),
        Prim::Exp2 => a.exp2(),
        Prim::Ln => a.ln(),
        Prim::Log2 => a.log2(),
        Prim::Sin => a.sin(),
        Prim::Cos => a.cos(),
        Prim::Tan => a.tan(),
        Prim::Floor => a.floor(),
        Prim::Fract => a.fract(),
        Prim::Round => a.round(),
    })
}

fn level(x: &[Single]) -> f32 {
    v(rms(&fpu, &x.to_vec()))
}

fn top(x: &[Single]) -> f32 {
    v(peak(&x.to_vec()))
}

fn render(engine: &mut JetEngine, secs: f32) -> Vec<Single> {
    let mut out = vec![s(0.0); (secs * SR) as usize];
    engine.render_mono(&fpu, &mut out);
    out
}

fn zero_crossings(x: &[Single]) -> usize {
    x.windows(2).filter(|w| (v(w[0]) < 0.0) != (v(w[1]) < 0.0)).count()
}

fn engine(p: JetParams) -> JetEngine {
    JetEngine::new(&fpu, s(SR), p)
}

#[test]
fn all_presets_are_bounded_and_audible() {
    for i in 0..4 {
        let preset = JetPreset::from_index(i);
        let mut e = engine(preset.params());
        e.set_throttle(s(1.0));
        e.set_boost(s(1.0));
        e.set_speed(s(1.0));
        e.set_damage(s(0.5));
        let out = render(&mut e, 4.0);
        assert!(out.iter().all(|x| v(*x).is_finite()), "{preset:?} produced NaN");
        assert!(top(&out) <= 1.0, "{preset:?} peak {}", top(&out));
        assert!(level(&out[SR as usize..]) > 0.05, "{preset:?} too quiet");
        // Idle is audible too.
        let mut e = engine(preset.params());
        let idle = render(&mut e, 2.0);
        assert!(level(&idle[SR as usize..]) > 0.01, "{preset:?} idle silent");
    }
}

#[test]
fn rpm_spools_with_inertia() {
    let mut p = JetPreset::Racer.params();
    p.spool_up = s(1.0);
    p.spool_down = s(2.0);
    let mut e = engine(p);
    assert!((v(e.rpm()) - v(p.idle_rpm)).abs() < 1e-6);
    e.set_throttle(s(1.0));
    render(&mut e, 0.1);
    assert!(v(e.rpm()) < 0.5, "rpm jumped: {}", v(e.rpm()));
    render(&mut e, 0.9);
    assert!(v(e.rpm()) > 0.93 && v(e.rpm()) < 1.0, "rpm after 1s: {}", v(e.rpm()));
    e.set_throttle(s(0.0));
    render(&mut e, 0.5);
    assert!(v(e.rpm()) > 0.5, "spool down too fast: {}", v(e.rpm()));
    render(&mut e, 2.0);
    assert!(v(e.rpm()) < v(p.idle_rpm) + 0.05, "did not return to idle: {}", v(e.rpm()));
    e.set_throttle(s(1.0));
    e.snap_rpm(&fpu);
    assert!((v(e.rpm()) - 1.0).abs() < 1e-6);
}

#[test]
fn throttle_raises_pitch_and_level() {
    let mut e = engine(JetPreset::Racer.params());
    e.set_throttle(s(0.0));
    e.snap_rpm(&fpu);
    let idle = render(&mut e, 2.0);
    e.set_throttle(s(1.0));
    e.snap_rpm(&fpu);
    let full = render(&mut e, 2.0);
    let (idle, full) = (&idle[SR as usize..], &full[SR as usize..]);
    assert!(level(full) > level(idle) * 1.3, "full {} idle {}", level(full), level(idle));
    assert!(zero_crossings(full) > zero_crossings(idle) * 3 / 2, "full {} idle {}", zero_crossings(full), zero_crossings(idle));
}

#[test]
fn boost_and_wind_add_energy() {
    let mut e = engine(JetPreset::Racer.params());
    e.set_throttle(s(1.0));
    e.snap_rpm(&fpu);
    let base = level(&render(&mut e, 2.0)[SR as usize..]);
    e.set_boost(s(1.0));
    e.snap_rpm(&fpu);
    let boosted = level(&render(&mut e, 2.0)[SR as usize..]);
    assert!(boosted > base * 1.1, "boost {boosted} base {base}");

    let mut e = engine(JetPreset::Racer.params());
    e.set_speed(s(1.0));
    e.snap_rpm(&fpu);
    let windy = level(&render(&mut e, 2.0)[SR as usize..]);
    let mut e = engine(JetPreset::Racer.params());
    let still = level(&render(&mut e, 2.0)[SR as usize..]);
    assert!(windy > still * 1.1, "windy {windy} still {still}");
}

#[test]
fn damage_sputters() {
    let mut e = engine(JetPreset::Racer.params());
    e.set_throttle(s(0.8));
    e.snap_rpm(&fpu);
    e.set_damage(s(1.0));
    let out = render(&mut e, 4.0);
    // Envelope in 10 ms windows: sputter must create windows far quieter than the median.
    let win = (SR * 0.01) as usize;
    let mut env: Vec<f32> = out.chunks(win).map(level).collect();
    env.sort_by(|a, b| a.partial_cmp(b).unwrap());
    let median = env[env.len() / 2];
    let quiet = env.iter().filter(|&&x| x < median * 0.5).count();
    assert!(quiet > 5, "no drop-outs (quiet windows {quiet}, median {median})");
}

#[test]
fn jet_param_table_round_trips() {
    let mut p = JetParams::default();
    for i in 0..JetParamId::COUNT {
        let id = JetParamId::nth(i);
        assert_eq!(JetParamId::from_name(id.name()), Some(id));
        let x = p.get(id);
        p.set(id, x);
        assert_eq!(p.get(id), x);
    }
    p.set(JetParamId::WhineHz, s(1e9));
    assert_eq!(v(p.whine_hz), 8000.0);
    assert_eq!(JetParamId::from_name("nope"), None);
}

#[test]
fn renders_many_engines_in_real_time() {
    let mut engines: Vec<JetEngine> = (0..8).map(|i| engine(JetPreset::from_index(i % 4).params())).collect();
    for (i, e) in engines.iter_mut().enumerate() {
        e.set_throttle(s(0.5 + 0.05 * i as f32));
        e.set_boost(s(if i % 2 == 0 { 1.0 } else { 0.0 }));
        e.set_speed(s(0.7));
    }
    let secs = 2.0;
    let mut buf = vec![s(0.0); 512];
    let start = std::time::Instant::now();
    for _ in 0..((secs * SR) as usize / 512) {
        for e in engines.iter_mut() {
            e.render_mono(&fpu, &mut buf);
        }
    }
    let elapsed = start.elapsed().as_secs_f32();
    assert!(elapsed < secs * 0.5, "8 engines took {elapsed}s for {secs}s");
}

#[test]
fn jet_commands_clamp_their_values() {
    let mut e = engine(JetParams::default());
    e.apply(&fpu, JetCommand::Throttle(s(7.0)));
    assert_eq!(v(e.throttle()), 1.0);
    e.apply(&fpu, JetCommand::Throttle(s(f32::NAN)));
    assert_eq!(v(e.throttle()), 0.0);
    e.apply(&fpu, JetCommand::Boost(s(-1.0)));
    assert_eq!(v(e.cockpit.boost), 0.0);
    e.apply(&fpu, JetCommand::Speed(s(0.25)));
    assert_eq!(v(e.cockpit.speed), 0.25);
    e.apply(&fpu, JetCommand::Damage(s(0.5)));
    assert_eq!(v(e.cockpit.damage), 0.5);
    e.apply(&fpu, JetCommand::MasterGain(s(9.0)));
    assert_eq!(v(e.cockpit.master_gain), 2.0);
    e.apply(&fpu, JetCommand::MasterGain(s(f32::INFINITY)));
    assert_eq!(v(e.cockpit.master_gain), 1.0);
    e.apply(&fpu, JetCommand::SetParam(JetParamId::Gain, s(0.5)));
    assert_eq!(v(e.params().gain), 0.5);
    e.apply(&fpu, JetCommand::SetParams(JetPreset::Heavy.params()));
    assert_eq!(*e.params(), JetPreset::Heavy.params());
    e.apply(&fpu, JetCommand::SnapRpm);
    assert_eq!(e.rpm(), e.params().idle_rpm);
    let once = e.rpm();
    e.apply(&fpu, JetCommand::SnapRpm);
    assert_eq!(e.rpm(), once);
}

#[test]
fn jet_blocks_join_without_a_seam() {
    let mut a = engine(JetParams::default());
    let mut b = engine(JetParams::default());
    let whole = render(&mut a, 0.01);
    let mut parts = vec![s(0.0); 320];
    b.render_mono(&fpu, &mut parts);
    let mut rest = vec![s(0.0); whole.len() - 320];
    b.render_mono(&fpu, &mut rest);
    parts.extend_from_slice(&rest);
    assert_eq!(whole, parts);
}

#[test]
fn jet_names_are_found_in_any_case() {
    for i in 0..4 {
        let p = JetPreset::from_index(i);
        assert_eq!(JetPreset::from_name(&p.name().to_lowercase()), Some(p));
    }
    assert_eq!(JetPreset::from_name("Glider"), None);
}

#[test]
fn rpm_never_passes_what_the_controls_ask_for() {
    let mut e = engine(JetParams::default());
    let mut last = v(e.rpm());
    e.set_throttle(s(1.0));
    for _ in 0..2000 {
        render(&mut e, 0.002);
        let rpm = v(e.rpm());
        assert!(last <= rpm && rpm <= 1.0, "{last} {rpm}");
        last = rpm;
    }
    assert!(last > 0.95);
    e.set_throttle(s(0.0));
    for _ in 0..2000 {
        render(&mut e, 0.002);
        let rpm = v(e.rpm());
        assert!(0.28 <= rpm && rpm <= last, "{last} {rpm}");
        last = rpm;
    }
}
