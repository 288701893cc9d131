//! Ranges of tweakable values.
use vstd::prelude::*;

use crate::filter::FilterMode;
use crate::lfo::LfoWave;
use crate::osc::Waveform;
use crate::single::{from_i32, Single, ONE, ZERO};
use crate::text::{equal, owned};

verus! {

/// Lists of names a value may choose from.
#[derive(Clone, Copy, Debug, PartialEq, Eq, Structural)]
pub enum Choices {
    Waveform,
    FilterMode,
    LfoWave,
    Siren,
}

impl Choices {
    /// The names, in index order.
    pub open spec fn labels(self) -> Seq<Seq<char>> {
        match self {
            Choices::Waveform => Seq::new(7, |i: int| Waveform::all()[i].label()),
            Choices::FilterMode => Seq::new(5, |i: int| FilterMode::all()[i].label()),
            Choices::LfoWave => Seq::new(5, |i: int| LfoWave::all()[i].label()),
            Choices::Siren => seq!["Wail"@, "Yelp"@, "TwoTone"@, "Pulse"@],
        }
    }

    pub fn count(self) -> (r: usize)
        ensures
            r == self.labels().len(),
            4 <= r <= 7,
    {
        match self {
            Choices::Waveform => 7,
            Choices::FilterMode => 5,
            Choices::LfoWave => 5,
            Choices::Siren => 4,
        }
    }

    pub fn name(self, i: usize) -> (r: &'static str)
        requires
            i < self.labels().len(),
        ensures
            r@ == self.labels()[i as int],
    {
        match self {
            Choices::Waveform => Waveform::from_index(i).name(),
            Choices::FilterMode => FilterMode::from_index(i).name(),
            Choices::LfoWave => LfoWave::from_index(i).name(),
            Choices::Siren => match i {
                0 => "Wail",
                1 => "Yelp",
                2 => "TwoTone",
                _ => "Pulse",
            },
        }
    }
}

/// What values a parameter takes.
#[derive(Clone, Copy, Debug, PartialEq, Eq, Structural)]
pub enum ParamKind {
    Float { min: Single, max: Single, step: Single },
    /// Like a float, but shown on an exponential scale.
    Exp { min: Single, max: Single },
    Int { min: i32, max: i32 },
    Enum(Choices),
}

impl ParamKind {
    /// Bounds in order, and integers that are singles.
    pub open spec fn wf(self) -> bool {
        match self {
            ParamKind::Float { min, max, step: _ } => min.at_most(max),
            ParamKind::Exp { min, max } => min.at_most(max),
            ParamKind::Int { min, max } => -0x0100_0000 <= min <= max <= 0x0100_0000,
            ParamKind::Enum(_) => true,
        }
    }

    /// Whether a value is one the parameter can take.
    pub open spec fn admits(self, v: Single) -> bool {
        match self {
            ParamKind::Float { min, max, step: _ } => min.at_most(v) && v.at_most(max),
            ParamKind::Exp { min, max } => min.at_most(v) && v.at_most(max),
            ParamKind::Int { min, max } => whole_between(v, min as int, max as int),
            ParamKind::Enum(c) => whole_between(v, 0, c.labels().len() - 1),
        }
    }

    /// The nearest value a parameter can take: whole numbers are rounded, then everything is
    /// brought into the range.
    pub open spec fn clamped(self, v: Single) -> Single {
        match self {
            ParamKind::Float { min, max, step: _ } => v.within(min, max),
            ParamKind::Exp { min, max } => v.within(min, max),
            ParamKind::Int { min, max } => crate::single::signed_integer(bounded(v.nearest_int(), min as int, max as int)),
            ParamKind::Enum(c) => crate::single::signed_integer(bounded(v.nearest_int(), 0, c.labels().len() - 1)),
        }
    }

    pub fn clamp(self, v: Single) -> (r: Single)
        requires
            self.wf(),
        ensures
            r == self.clamped(v),
            !v.nan() ==> self.admits(r),
    {
        match self {
            ParamKind::Float { min, max, step: _ } => v.clamp(min, max),
            ParamKind::Exp { min, max } => v.clamp(min, max),
            ParamKind::Int { min, max } => whole(bound(v.round(), min, max), Ghost(min as int), Ghost(max as int)),
            ParamKind::Enum(c) => {
                let last = c.count() as i32 - 1;
                whole(bound(v.round(), 0, last), Ghost(0), Ghost(last as int))
            },
        }
    }
}

impl ParamKind {
    /// What an editor calls this kind of parameter.
    pub open spec fn label(self) -> Seq<char> {
        match self {
            ParamKind::Float { .. } => "float"@,
            ParamKind::Exp { .. } => "exp"@,
            ParamKind::Int { .. } => "int"@,
            ParamKind::Enum(_) => "enum"@,
        }
    }

    pub fn name(self) -> (r: &'static str)
        ensures
            r@ == self.label(),
    {
        match self {
            ParamKind::Float { .. } => "float",
            ParamKind::Exp { .. } => "exp",
            ParamKind::Int { .. } => "int",
            ParamKind::Enum(_) => "enum",
        }
    }

    /// Least value, greatest value and step; an exponential scale has no step.
    pub open spec fn extent(self) -> (Single, Single, Single) {
        match self {
            ParamKind::Float { min, max, step } => (min, max, step),
            ParamKind::Exp { min, max } => (min, max, Single::of(ZERO)),
            ParamKind::Int { min, max } => (
                crate::single::signed_integer(min as int),
                crate::single::signed_integer(max as int),
                Single::of(ONE),
            ),
            ParamKind::Enum(c) => (
                Single::of(ZERO),
                crate::single::signed_integer(c.labels().len() - 1),
                Single::of(ONE),
            ),
        }
    }

    /// Least value, greatest value and step, as an editor shows them; an exponential scale has no step.
    pub fn limits(self) -> (r: (Single, Single, Single))
        requires
            self.wf(),
        ensures
            r == self.extent(),
    {
        match self {
            ParamKind::Float { min, max, step } => (min, max, step),
            ParamKind::Exp { min, max } => (min, max, Single::of(ZERO)),
            ParamKind::Int { min, max } => (from_i32(min), from_i32(max), Single::of(ONE)),
            ParamKind::Enum(c) => (Single::of(ZERO), from_i32(c.count() as i32 - 1), Single::of(ONE)),
        }
    }
}

/// A set of parameters in a fixed order.
pub trait Params: Sized + Copy {
    spec fn plain_params() -> Self;

    spec fn param_count() -> nat;

    spec fn label_at(i: int) -> Seq<char>;

    spec fn range_at(i: int) -> ParamKind;

    spec fn value_at(self, i: int) -> Single;

    /// With a parameter set to the nearest value it can take.
    spec fn with_at(self, i: int, v: Single) -> Self;

    /// A parameter that was set has the nearest value it can take.
    proof fn lemma_set_at_reads_back(self, i: int, v: Single)
        requires
            0 <= i < Self::param_count(),
            v.finite(),
        ensures
            self.with_at(i, v).value_at(i) == Self::range_at(i).clamped(v),
    ;

    /// Setting a parameter leaves every other one what it was.
    proof fn lemma_set_at_keeps_others(self, i: int, j: int, v: Single)
        requires
            0 <= i < Self::param_count(),
            0 <= j < Self::param_count(),
            i != j,
        ensures
            self.with_at(i, v).value_at(j) == self.value_at(j),
    ;

    fn default_params() -> (r: Self)
        ensures
            r == Self::plain_params(),
    ;

    fn count() -> (r: usize)
        ensures
            r == Self::param_count(),
    ;

    fn name_at(i: usize) -> (r: &'static str)
        requires
            i < Self::param_count(),
        ensures
            r@ == Self::label_at(i as int),
    ;

    fn kind_at(i: usize) -> (r: ParamKind)
        requires
            i < Self::param_count(),
        ensures
            r == Self::range_at(i as int),
            r.wf(),
    ;

    fn get_at(&self, i: usize) -> (r: Single)
        requires
            i < Self::param_count(),
        ensures
            r == self.value_at(i as int),
    ;

    /// What is no number is ignored.
    fn set_at(&mut self, i: usize, v: Single)
        requires
            i < Self::param_count(),
        ensures
            *final(self) == if v.finite() {
                old(self).with_at(i as int, v)
            } else {
                *old(self)
            },
    ;
}

/// An integer brought between two others.
pub open spec fn bounded(n: int, min: int, max: int) -> int {
    if n < min {
        min
    } else if n > max {
        max
    } else {
        n
    }
}

pub fn bound(n: i32, min: i32, max: i32) -> (r: i32)
    ensures
        r == bounded(n as int, min as int, max as int),
{
    if n < min {
        min
    } else if n > max {
        max
    } else {
        n
    }
}

/// A whole number between two others.
pub open spec fn whole_between(v: Single, min: int, max: int) -> bool {
    v.finite() && exists|n: int| min <= n <= max && v.value() == #[trigger] (n * crate::single::unit())
}

fn whole(n: i32, Ghost(min): Ghost<int>, Ghost(max): Ghost<int>) -> (r: Single)
    requires
        -0x0100_0000 <= min <= n <= max <= 0x0100_0000,
    ensures
        r == crate::single::signed_integer(n as int),
        whole_between(r, min, max),
{
    let r = from_i32(n);
    assert(r.value() == (n as int) * crate::single::unit());
    r
}

/// Clamping gives a value the parameter can take.
pub proof fn lemma_clamped_admitted(kind: ParamKind, v: Single)
    requires
        kind.wf(),
        !v.nan(),
    ensures
        kind.admits(kind.clamped(v)),
{
    match kind {
        ParamKind::Int { min, max } => {
            let n = bounded(v.nearest_int(), min as int, max as int);
            crate::single::lemma_integer_held(n);
        },
        ParamKind::Enum(c) => {
            let n = bounded(v.nearest_int(), 0, c.labels().len() - 1);
            crate::single::lemma_integer_held(n);
        },
        _ => {},
    }
}

/// Name, range and default of a parameter.
#[derive(Debug)]
pub struct ParamDesc {
    pub name: String,
    pub kind: ParamKind,
    pub default: Single,
}

impl ParamDesc {
    pub fn new(name: &str, kind: ParamKind, default: Single) -> (r: ParamDesc)
        ensures
            r.name@ == name@,
            r.kind == kind,
            r.default == default,
    {
        ParamDesc { name: owned(name), kind, default }
    }
}

/// Name, range and default of every parameter of a set, in order.
pub fn describe<P: Params>() -> (r: Vec<ParamDesc>)
    ensures
        r@.len() == P::param_count(),
        forall|i: int| 0 <= i < r@.len() ==> {
            let a = #[trigger] r@[i];
            a.name@ == P::label_at(i) && a.kind == P::range_at(i) && a.default == P::plain_params().value_at(i)
        },
{
    let mut r: Vec<ParamDesc> = Vec::new();
    let plain = P::default_params();
    let count = P::count();
    let mut i: usize = 0;
    while i < count
        invariant
            i <= count == P::param_count(),
            plain == P::plain_params(),
            r@.len() == i,
            forall|k: int| 0 <= k < i ==> {
                let a = #[trigger] r@[k];
                a.name@ == P::label_at(k) && a.kind == P::range_at(k) && a.default == P::plain_params().value_at(k)
            },
        decreases count - i,
    {
        r.push(ParamDesc::new(P::name_at(i), P::kind_at(i), plain.get_at(i)));
        i = i + 1;
    }
    r
}

/// The first parameter with a name.
pub fn param_from_name<P: Params>(name: &str) -> (r: Option<usize>)
    ensures
        match r {
            Some(i) => i < P::param_count() && P::label_at(i as int) == name@ && forall|k: int|
                0 <= k < i ==> #[trigger] P::label_at(k) != name@,
            None => forall|k: int| 0 <= k < P::param_count() ==> #[trigger] P::label_at(k) != name@,
        },
{
    let count = P::count();
    let mut i: usize = 0;
    while i < count
        invariant
            i <= count == P::param_count(),
            forall|k: int| 0 <= k < i ==> #[trigger] P::label_at(k) != name@,
        decreases count - i,
    {
        if equal(P::name_at(i), name) {
            return Some(i);
        }
        i = i + 1;
    }
    None
}

/// Value of the first parameter with a name.
pub fn get_param<P: Params>(p: &P, name: &str) -> (r: Option<Single>)
    ensures
        match r {
            Some(v) => exists|i: int| 0 <= i < P::param_count() && #[trigger] P::label_at(i) == name@ && v == p.value_at(i) && forall|k: int|
                0 <= k < i ==> #[trigger] P::label_at(k) != name@,
            None => forall|k: int| 0 <= k < P::param_count() ==> #[trigger] P::label_at(k) != name@,
        },
{
    match param_from_name::<P>(name) {
        Some(i) => {
            assert(P::label_at(i as int) == name@);
            Some(p.get_at(i))
        },
        None => None,
    }
}

/// Set the first parameter with a name. Nothing where there is none, else whether a value was given.
pub fn set_param<P: Params>(p: &mut P, name: &str, value: Option<Single>) -> (r: Option<bool>)
    ensures
        r is None <==> forall|k: int| 0 <= k < P::param_count() ==> #[trigger] P::label_at(k) != name@,
        r matches Some(given) ==> given == (value is Some),
        r != Some(true) ==> *final(p) == *old(p),
        r == Some(true) ==> exists|i: int| {
            &&& 0 <= i < P::param_count()
            &&& #[trigger] P::label_at(i) == name@
            &&& forall|k: int| 0 <= k < i ==> #[trigger] P::label_at(k) != name@
            &&& *final(p) == if value.unwrap().finite() {
                old(p).with_at(i, value.unwrap())
            } else {
                *old(p)
            }
        },
{
    match param_from_name::<P>(name) {
        Some(i) => {
            assert(P::label_at(i as int) == name@);
            match value {
                Some(v) => {
                    p.set_at(i, v);
                    Some(true)
                },
                None => Some(false),
            }
        },
        None => None,
    }
}

/// A value the parameter can take is its own nearest one.
pub proof fn lemma_admitted_stays(kind: ParamKind, v: Single)
    requires
        kind.wf(),
        kind.admits(v),
    ensures
        kind.clamped(v).value() == v.value(),
        kind is Float || kind is Exp ==> kind.clamped(v) == v,
{
    match kind {
        ParamKind::Int { min, max } => lemma_whole_stays(v, min as int, max as int),
        ParamKind::Enum(c) => lemma_whole_stays(v, 0, c.labels().len() - 1),
        _ => {},
    }
}

proof fn lemma_whole_stays(v: Single, min: int, max: int)
    requires
        whole_between(v, min, max),
        -0x0100_0000 <= min <= max <= 0x0100_0000,
    ensures
        min <= v.nearest_int() <= max,
        crate::single::signed_integer(v.nearest_int()).value() == v.value(),
{
    let n = choose|n: int| min <= n <= max && v.value() == #[trigger] (n * crate::single::unit());
    let size = if n < 0 { -n } else { n };
    let u = crate::single::unit() as int;
    let half = vstd::arithmetic::power2::pow2(148) as int;
    vstd::arithmetic::power2::lemma_pow2_pos(148);
    vstd::arithmetic::power2::lemma_pow2_adds(1, 148);
    vstd::arithmetic::power2::lemma2_to64();
    assert(u == 2 * half);
    assert(v.units() == size * u) by (nonlinear_arith)
        requires
            v.units() >= 0,
            u > 0,
            v.value() == n * u,
            v.value() == v.units() || v.value() == -v.units(),
            size == (if n < 0 { -n } else { n }),
    ;
    assert((size * u + half) / u == size) by (nonlinear_arith)
        requires
            u == 2 * half,
            half > 0,
            size >= 0,
    ;
    assert(n < 0 ==> v.negative()) by (nonlinear_arith)
        requires
            u > 0,
            v.value() == n * u,
            !v.negative() ==> v.value() >= 0,
    ;
    assert(n > 0 ==> !v.negative()) by (nonlinear_arith)
        requires
            u > 0,
            v.value() == n * u,
            v.negative() ==> v.value() <= 0,
    ;
    assert(v.nearest_int() == n);
    crate::single::lemma_integer_held(n);
}

} // verus!
