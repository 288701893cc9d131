use gamesynth::arith::Prim;
use gamesynth::generators::fx::{Effect, FxEngine, FxParams, MAX_LAYERS};
use gamesynth::generators::{create, describe_all, Model, Sound};
use gamesynth::render::{peak, rms};
use gamesynth::single::Single;

const SR: f32 = 48000.0;

fn s(x: f32) -> Single {
    Single { bits: x.to_bits() }
}

fn v(x: Single) -> f32 {
    f32::from_bits(x.bits)
}

fn fpu(p: Prim, x: Single, y: Single) -> Single {
    let (a, b) = (v(x), v(y));
    s(match p {
        Prim::Add => a + b,
        Prim::Sub => a - b,
        Prim::Mul => a * b,
        Prim::Div => a / b,
        Prim::Rem => a.rem_euclid(b),
        Prim::Pow => a.powf(b),
        Prim::Sqrt => a.sqrt(),
        Prim::Exp => a.exp(),
        Prim::Exp2 => a.exp2(),
        Prim::Ln => a.ln(),
        Prim::Log2 => a.log2(),
        Prim::Sin => a.sin(),
        Prim::Cos => a.cos(),
        Prim::Tan => a.tan(),
        Prim::Floor => a.floor(),
        Prim::Fract => a.fract(),
        Prim::Round => a.round(),
    })
}

fn level(x: &[Single]) -> f32 {
    v(rms(&fpu, &x.to_vec()))
}

fn top(x: &[Single]) -> f32 {
    v(peak(&x.to_vec()))
}

fn finite(x: &[Single]) -> bool {
    x.iter().all(|y| v(*y).is_finite())
}

fn make(name: &str) -> Model {
    create(&fpu, name, s(SR)).unwrap()
}

fn names() -> Vec<&'static str> {
    (0..Sound::COUNT).map(|i| Sound::from_index(i).name()).collect()
}

fn continuous() -> Vec<&'static str> {
    names().into_iter().filter(|n| !make(n).desc().one_shot).collect()
}

fn render(m: &mut Model, secs: f32) -> Vec<Single> {
    let mut out = vec![s(0.0); (secs * SR) as usize];
    m.render_mono(&fpu, &mut out);
    out
}

fn set_all(m: &mut Model, x: f32) {
    for i in 0..m.desc().inputs.len() {
        m.set_input(i, s(x));
    }
}

#[test]
fn registry_is_consistent() {
    assert!(Sound::COUNT >= 15);
    assert_eq!(continuous().len(), 15);
    let descs = describe_all();
    assert_eq!(descs.len(), Sound::COUNT);
    for (name, d) in names().iter().zip(&descs) {
        assert_eq!(*name, d.name);
        assert!(!d.inputs.is_empty(), "{name} has no inputs");
        assert!(d.params.iter().any(|p| p.name == "master/gain"), "{name} lacks master/gain");
        assert_eq!(d.presets[0].name, "Default");
        for p in &d.presets {
            assert_eq!(p.values.len(), d.params.len(), "{name} preset {}", p.name);
        }
        let mut names: Vec<_> = d.params.iter().map(|p| p.name.clone()).collect();
        names.sort();
        names.dedup();
        assert_eq!(names.len(), d.params.len(), "{name} has duplicate param names");
        assert!(create(&fpu, &name.to_uppercase(), s(SR)).is_some());
    }
    assert!(create(&fpu, "nope", s(SR)).is_none());
}

#[test]
fn every_generator_and_preset_is_bounded_and_audible() {
    for name in continuous() {
        let mut m = make(name);
        for preset in 0..m.desc().presets.len() {
            assert!(m.load_preset(preset));
            let label = format!("{name}/{}", m.desc().presets[preset].name);
            set_all(&mut m, 1.0);
            m.snap(&fpu);
            // Ocean waves take several seconds per cycle.
            let out = render(&mut m, 6.0);
            assert!(finite(&out), "{label} produced NaN/inf");
            assert!(top(&out) <= 1.0, "{label} peak {}", top(&out));
            assert!(level(&out[SR as usize..]) > 0.02, "{label} too quiet at full input: rms {}", level(&out[SR as usize..]));
            set_all(&mut m, 0.0);
            let out = render(&mut m, 1.0);
            assert!(finite(&out), "{label} NaN at zero input");
        }
    }
}

#[test]
fn inputs_change_the_sound() {
    // Raising the primary input must raise the level for everything driven by intensity.
    for name in ["hover", "combustion", "motor", "rotor", "wind", "rain", "fire", "stream", "electric", "crowd", "radio"] {
        let level = |x: f32| {
            let mut m = make(name);
            set_all(&mut m, 0.5);
            m.set_input(0, s(x));
            m.snap(&fpu);
            level(&render(&mut m, 3.0)[SR as usize..])
        };
        let (lo, hi) = (level(0.1), level(1.0));
        assert!(hi > lo * 1.3, "{name}: input 0 at 1.0 ({hi}) is not clearly louder than at 0.1 ({lo})");
    }
}

#[test]
fn params_and_inputs_are_clamped() {
    let mut m = make("wind");
    let i = m.desc().param_index("howl/hz").unwrap();
    m.set_param(i, s(1e9));
    assert_eq!(v(m.param(i)), 4000.0);
    m.set_param(i, s(f32::NAN));
    assert_eq!(v(m.param(i)), 4000.0);
    m.set_input(0, s(7.0));
    assert_eq!(v(m.input(0)), 1.0);
    m.set_input(0, s(f32::NAN));
    assert_eq!(v(m.input(0)), 0.0);
    m.set_input(99, s(1.0));
    assert!(m.set_input_by_name("strength", s(0.3)));
    assert_eq!(v(m.input(0)), 0.3);
    assert!(!m.set_input_by_name("nope", s(0.3)));
    assert!(m.set_param_by_name("master/gain", s(0.5)));
    assert!(!m.set_param_by_name("nope", s(0.5)));
}

#[test]
fn inertia_and_snap() {
    let mut m = make("combustion");
    m.set_input(0, s(1.0));
    let quiet = level(&render(&mut m, 0.1));
    let mut n = make("combustion");
    n.set_input(0, s(1.0));
    n.snap(&fpu);
    let loud = level(&render(&mut n, 0.1));
    assert!(loud > quiet, "snap should skip the rev-up: {loud} vs {quiet}");
}

#[test]
fn whole_library_renders_in_real_time() {
    let mut all: Vec<Model> = continuous().iter().map(|n| make(n)).collect();
    for m in all.iter_mut() {
        set_all(m, 0.8);
    }
    let secs = 2.0;
    let mut buf = vec![s(0.0); 512];
    let start = std::time::Instant::now();
    for _ in 0..((secs * SR) as usize / 512) {
        for m in all.iter_mut() {
            m.render_mono(&fpu, &mut buf);
        }
    }
    let elapsed = start.elapsed().as_secs_f32();
    assert!(elapsed < secs * 0.5, "all {} generators took {elapsed}s for {secs}s", all.len());
}

#[test]
fn events_wait_ring_and_finish() {
    for name in names() {
        let mut m = make(name);
        if !m.desc().one_shot {
            assert!(!m.is_finished());
            continue;
        }
        assert!(m.is_finished(), "{name} rings before it was fired");
        assert!(render(&mut m, 0.1).iter().all(|x| v(*x) == 0.0), "{name} is heard before it was fired");
        m.trigger(&fpu);
        assert!(!m.is_finished());
        let out = render(&mut m, 12.0);
        assert!(finite(&out), "{name} produced NaN/inf");
        assert!(top(&out) > 0.05 && top(&out) <= 1.0, "{name} peak {}", top(&out));
        assert!(m.is_finished(), "{name} never finished");
    }
}

#[test]
fn events_vary_unless_told_not_to() {
    let mut m = make("explosion");
    m.trigger(&fpu);
    let a = render(&mut m, 0.2);
    m.trigger(&fpu);
    let b = render(&mut m, 0.2);
    assert_ne!(a, b);
    let mut n = make("beep");
    assert!(n.set_param_by_name("shape/variation", s(0.0)));
    n.trigger(&fpu);
    let a = render(&mut n, 6.0);
    assert!(n.is_finished());
    n.trigger(&fpu);
    let b = render(&mut n, 6.0);
    let gap = a.iter().zip(&b).map(|(x, y)| (v(*x) - v(*y)).abs()).fold(0.0f32, f32::max);
    assert!(gap < 1e-3, "gap {gap}");
}

#[test]
fn distance_dulls_an_event() {
    let heard = |d: f32| {
        let mut m = make("explosion");
        m.set_input(1, s(d));
        m.trigger(&fpu);
        level(&render(&mut m, 1.0))
    };
    assert!(heard(0.0) > heard(1.0) * 1.5);
}

#[test]
fn odd_rates_are_replaced() {
    for rate in [f32::NAN, 100.0, -1.0] {
        let m = create(&fpu, "wind", s(rate)).unwrap();
        assert_eq!(v(m.sample_rate()), 48000.0);
    }
    assert_eq!(v(create(&fpu, "wind", s(22050.0)).unwrap().sample_rate()), 22050.0);
}

#[test]
fn presets_set_every_parameter() {
    let mut m = make("siren");
    let all = m.desc().presets.len();
    for i in 0..all {
        assert!(m.load_preset(i));
        assert_eq!(m.params_vec(), m.desc().presets[i].values);
    }
    assert!(!m.load_preset(all));
}

#[test]
fn an_event_plays_no_more_layers_than_it_has_lanes() {
    let layers = Effect::Explosion.layers();
    let mut many = Vec::new();
    while many.len() < MAX_LAYERS + 3 {
        many.extend(layers.iter().copied());
    }
    let few = many[..MAX_LAYERS].to_vec();
    let p = FxParams::default();
    let mut out = Vec::new();
    for list in [&many, &few] {
        let mut e = FxEngine::new(&fpu, s(SR), 7);
        e.trigger(&fpu, list, &p, s(1.0), s(0.0));
        let mut buf = vec![s(0.5); 32];
        e.block(&fpu, list, &p, s(0.2), s(0.5), &mut buf, 0, 32);
        out.push(buf);
    }
    assert_eq!(out[0], out[1]);
}

#[test]
fn presets_read_back() {
    for name in names() {
        let mut m = make(name);
        for i in 0..m.desc().presets.len() {
            for k in 0..m.desc().params.len() {
                let lo = m.desc().params[k].kind.limits().0;
                m.set_param(k, lo);
            }
            assert!(m.load_preset(i));
            for k in 0..m.desc().params.len() {
                let want = m.desc().presets[i].values[k];
                assert_eq!(m.param(k), m.desc().params[k].kind.clamp(want), "{name} preset {i} param {k}");
            }
        }
    }
}
