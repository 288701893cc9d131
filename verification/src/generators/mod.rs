//! Library of native (hand-written, fast) sound generators.
//!
//! Every generator is a [`crate::native::Generator`]; [`create`] returns it as a [`Model`] so
//! bindings can treat all of them alike.
pub mod ambient;
pub mod fx;
pub mod nature;
pub mod vehicles;

use vstd::prelude::*;

use crate::arith::{meant, total, Prim, Sums};
use crate::generators::ambient::{Crowd, Drone, Electric, Radio, Siren};
use crate::generators::fx::OneShot;
use crate::generators::nature::{Fire, Ocean, Rain, Stream, Wind};
use crate::generators::vehicles::{Combustion, Hover, Jet, Motor, Rotor};
use crate::model::ModelDesc;
use crate::native::{Generator, Native, NativeView};
use crate::params::Params;
use crate::single::Single;
use crate::text::equal_ignoring_case;

verus! {

/// Every native generator.
#[derive(Clone, Copy, Debug, PartialEq, Eq, Structural)]
pub enum Sound {
    Jet,
    Hover,
    Combustion,
    Motor,
    Rotor,
    Wind,
    Rain,
    Fire,
    Stream,
    Ocean,
    Electric,
    Drone,
    Crowd,
    Radio,
    Siren,
    Explosion,
    Rocket,
    Plasma,
    Cannon,
    Impact,
    ShieldHit,
    Pickup,
    Boost,
    Quake,
    Emp,
    Airbrake,
    Beep,
    Laser,
    MineDrop,
    MineBlast,
    LockOn,
    ShieldUp,
}

impl Sound {
    /// Number of generators.
    pub const COUNT: usize = 32;

    /// Every generator, in registry order.
    pub open spec fn all() -> Seq<Sound> {
        seq![
            Sound::Jet,
            Sound::Hover,
            Sound::Combustion,
            Sound::Motor,
            Sound::Rotor,
            Sound::Wind,
            Sound::Rain,
            Sound::Fire,
            Sound::Stream,
            Sound::Ocean,
            Sound::Electric,
            Sound::Drone,
            Sound::Crowd,
            Sound::Radio,
            Sound::Siren,
            Sound::Explosion,
            Sound::Rocket,
            Sound::Plasma,
            Sound::Cannon,
            Sound::Impact,
            Sound::ShieldHit,
            Sound::Pickup,
            Sound::Boost,
            Sound::Quake,
            Sound::Emp,
            Sound::Airbrake,
            Sound::Beep,
            Sound::Laser,
            Sound::MineDrop,
            Sound::MineBlast,
            Sound::LockOn,
            Sound::ShieldUp,
        ]
    }

    pub open spec fn position(self) -> int {
        match self {
            Sound::Jet => 0,
            Sound::Hover => 1,
            Sound::Combustion => 2,
            Sound::Motor => 3,
            Sound::Rotor => 4,
            Sound::Wind => 5,
            Sound::Rain => 6,
            Sound::Fire => 7,
            Sound::Stream => 8,
            Sound::Ocean => 9,
            Sound::Electric => 10,
            Sound::Drone => 11,
            Sound::Crowd => 12,
            Sound::Radio => 13,
            Sound::Siren => 14,
            Sound::Explosion => 15,
            Sound::Rocket => 16,
            Sound::Plasma => 17,
            Sound::Cannon => 18,
            Sound::Impact => 19,
            Sound::ShieldHit => 20,
            Sound::Pickup => 21,
            Sound::Boost => 22,
            Sound::Quake => 23,
            Sound::Emp => 24,
            Sound::Airbrake => 25,
            Sound::Beep => 26,
            Sound::Laser => 27,
            Sound::MineDrop => 28,
            Sound::MineBlast => 29,
            Sound::LockOn => 30,
            Sound::ShieldUp => 31,
        }
    }

    pub open spec fn label(self) -> Seq<char> {
        match self {
            Sound::Jet => Jet::about().name,
            Sound::Hover => Hover::about().name,
            Sound::Combustion => Combustion::about().name,
            Sound::Motor => Motor::about().name,
            Sound::Rotor => Rotor::about().name,
            Sound::Wind => Wind::about().name,
            Sound::Rain => Rain::about().name,
            Sound::Fire => Fire::about().name,
            Sound::Stream => Stream::about().name,
            Sound::Ocean => Ocean::about().name,
            Sound::Electric => Electric::about().name,
            Sound::Drone => Drone::about().name,
            Sound::Crowd => Crowd::about().name,
            Sound::Radio => Radio::about().name,
            Sound::Siren => Siren::about().name,
            Sound::Explosion => OneShot::<0>::about().name,
            Sound::Rocket => OneShot::<1>::about().name,
            Sound::Plasma => OneShot::<2>::about().name,
            Sound::Cannon => OneShot::<3>::about().name,
            Sound::Impact => OneShot::<4>::about().name,
            Sound::ShieldHit => OneShot::<5>::about().name,
            Sound::Pickup => OneShot::<6>::about().name,
            Sound::Boost => OneShot::<7>::about().name,
            Sound::Quake => OneShot::<8>::about().name,
            Sound::Emp => OneShot::<9>::about().name,
            Sound::Airbrake => OneShot::<10>::about().name,
            Sound::Beep => OneShot::<11>::about().name,
            Sound::Laser => OneShot::<12>::about().name,
            Sound::MineDrop => OneShot::<13>::about().name,
            Sound::MineBlast => OneShot::<14>::about().name,
            Sound::LockOn => OneShot::<15>::about().name,
            Sound::ShieldUp => OneShot::<16>::about().name,
        }
    }

    pub fn from_index(i: usize) -> (r: Sound)
        requires
            i < Sound::COUNT,
        ensures
            r == Sound::all()[i as int],
            r.position() == i,
    {
        match i {
            0 => Sound::Jet,
            1 => Sound::Hover,
            2 => Sound::Combustion,
            3 => Sound::Motor,
            4 => Sound::Rotor,
            5 => Sound::Wind,
            6 => Sound::Rain,
            7 => Sound::Fire,
            8 => Sound::Stream,
            9 => Sound::Ocean,
            10 => Sound::Electric,
            11 => Sound::Drone,
            12 => Sound::Crowd,
            13 => Sound::Radio,
            14 => Sound::Siren,
            15 => Sound::Explosion,
            16 => Sound::Rocket,
            17 => Sound::Plasma,
            18 => Sound::Cannon,
            19 => Sound::Impact,
            20 => Sound::ShieldHit,
            21 => Sound::Pickup,
            22 => Sound::Boost,
            23 => Sound::Quake,
            24 => Sound::Emp,
            25 => Sound::Airbrake,
            26 => Sound::Beep,
            27 => Sound::Laser,
            28 => Sound::MineDrop,
            29 => Sound::MineBlast,
            30 => Sound::LockOn,
            _ => Sound::ShieldUp,
        }
    }

    /// Name of the generator.
    pub fn name(self) -> (r: &'static str)
        ensures
            r@ == self.label(),
    {
        match self {
            Sound::Jet => Jet::profile().name,
            Sound::Hover => Hover::profile().name,
            Sound::Combustion => Combustion::profile().name,
            Sound::Motor => Motor::profile().name,
            Sound::Rotor => Rotor::profile().name,
            Sound::Wind => Wind::profile().name,
            Sound::Rain => Rain::profile().name,
            Sound::Fire => Fire::profile().name,
            Sound::Stream => Stream::profile().name,
            Sound::Ocean => Ocean::profile().name,
            Sound::Electric => Electric::profile().name,
            Sound::Drone => Drone::profile().name,
            Sound::Crowd => Crowd::profile().name,
            Sound::Radio => Radio::profile().name,
            Sound::Siren => Siren::profile().name,
            Sound::Explosion => OneShot::<0>::profile().name,
            Sound::Rocket => OneShot::<1>::profile().name,
            Sound::Plasma => OneShot::<2>::profile().name,
            Sound::Cannon => OneShot::<3>::profile().name,
            Sound::Impact => OneShot::<4>::profile().name,
            Sound::ShieldHit => OneShot::<5>::profile().name,
            Sound::Pickup => OneShot::<6>::profile().name,
            Sound::Boost => OneShot::<7>::profile().name,
            Sound::Quake => OneShot::<8>::profile().name,
            Sound::Emp => OneShot::<9>::profile().name,
            Sound::Airbrake => OneShot::<10>::profile().name,
            Sound::Beep => OneShot::<11>::profile().name,
            Sound::Laser => OneShot::<12>::profile().name,
            Sound::MineDrop => OneShot::<13>::profile().name,
            Sound::MineBlast => OneShot::<14>::profile().name,
            Sound::LockOn => OneShot::<15>::profile().name,
            Sound::ShieldUp => OneShot::<16>::profile().name,
        }
    }

    /// The generator with a name, whatever the case of its letters.
    pub fn from_name(name: &str) -> (r: Option<Sound>)
        ensures
            match r {
                Some(s) => crate::text::same_word(name@, s.label()),
                None => forall|s: Sound| !crate::text::same_word(name@, #[trigger] s.label()),
            },
    {
        let mut i: usize = 0;
        while i < Sound::COUNT
            invariant
                i <= Sound::COUNT,
                forall|s: Sound| s.position() < i ==> !crate::text::same_word(name@, #[trigger] s.label()),
            decreases Sound::COUNT - i,
        {
            let s = Sound::from_index(i);
            if equal_ignoring_case(name, s.name()) {
                return Some(s);
            }
            proof {
                assert forall|other: Sound| other.position() < i + 1 implies !crate::text::same_word(name@, #[trigger] other.label()) by {
                    if other.position() == i {
                        assert(Sound::all()[other.position()] == other);
                    }
                }
            }
            i = i + 1;
        }
        None
    }

    /// Description (inputs, params, presets) of the generator.
    pub fn describe(self) -> (r: ModelDesc)
        ensures
            self.described(r),
    {
        match self {
            Sound::Jet => Native::<Jet>::describe(),
            Sound::Hover => Native::<Hover>::describe(),
            Sound::Combustion => Native::<Combustion>::describe(),
            Sound::Motor => Native::<Motor>::describe(),
            Sound::Rotor => Native::<Rotor>::describe(),
            Sound::Wind => Native::<Wind>::describe(),
            Sound::Rain => Native::<Rain>::describe(),
            Sound::Fire => Native::<Fire>::describe(),
            Sound::Stream => Native::<Stream>::describe(),
            Sound::Ocean => Native::<Ocean>::describe(),
            Sound::Electric => Native::<Electric>::describe(),
            Sound::Drone => Native::<Drone>::describe(),
            Sound::Crowd => Native::<Crowd>::describe(),
            Sound::Radio => Native::<Radio>::describe(),
            Sound::Siren => Native::<Siren>::describe(),
            Sound::Explosion => Native::<OneShot<0>>::describe(),
            Sound::Rocket => Native::<OneShot<1>>::describe(),
            Sound::Plasma => Native::<OneShot<2>>::describe(),
            Sound::Cannon => Native::<OneShot<3>>::describe(),
            Sound::Impact => Native::<OneShot<4>>::describe(),
            Sound::ShieldHit => Native::<OneShot<5>>::describe(),
            Sound::Pickup => Native::<OneShot<6>>::describe(),
            Sound::Boost => Native::<OneShot<7>>::describe(),
            Sound::Quake => Native::<OneShot<8>>::describe(),
            Sound::Emp => Native::<OneShot<9>>::describe(),
            Sound::Airbrake => Native::<OneShot<10>>::describe(),
            Sound::Beep => Native::<OneShot<11>>::describe(),
            Sound::Laser => Native::<OneShot<12>>::describe(),
            Sound::MineDrop => Native::<OneShot<13>>::describe(),
            Sound::MineBlast => Native::<OneShot<14>>::describe(),
            Sound::LockOn => Native::<OneShot<15>>::describe(),
            Sound::ShieldUp => Native::<OneShot<16>>::describe(),
        }
    }

    /// A description holds what the generator says of itself.
    pub open spec fn described(self, d: ModelDesc) -> bool {
        match self {
            Sound::Jet => crate::native::describes::<Jet>(d),
            Sound::Hover => crate::native::describes::<Hover>(d),
            Sound::Combustion => crate::native::describes::<Combustion>(d),
            Sound::Motor => crate::native::describes::<Motor>(d),
            Sound::Rotor => crate::native::describes::<Rotor>(d),
            Sound::Wind => crate::native::describes::<Wind>(d),
            Sound::Rain => crate::native::describes::<Rain>(d),
            Sound::Fire => crate::native::describes::<Fire>(d),
            Sound::Stream => crate::native::describes::<Stream>(d),
            Sound::Ocean => crate::native::describes::<Ocean>(d),
            Sound::Electric => crate::native::describes::<Electric>(d),
            Sound::Drone => crate::native::describes::<Drone>(d),
            Sound::Crowd => crate::native::describes::<Crowd>(d),
            Sound::Radio => crate::native::describes::<Radio>(d),
            Sound::Siren => crate::native::describes::<Siren>(d),
            Sound::Explosion => crate::native::describes::<OneShot<0>>(d),
            Sound::Rocket => crate::native::describes::<OneShot<1>>(d),
            Sound::Plasma => crate::native::describes::<OneShot<2>>(d),
            Sound::Cannon => crate::native::describes::<OneShot<3>>(d),
            Sound::Impact => crate::native::describes::<OneShot<4>>(d),
            Sound::ShieldHit => crate::native::describes::<OneShot<5>>(d),
            Sound::Pickup => crate::native::describes::<OneShot<6>>(d),
            Sound::Boost => crate::native::describes::<OneShot<7>>(d),
            Sound::Quake => crate::native::describes::<OneShot<8>>(d),
            Sound::Emp => crate::native::describes::<OneShot<9>>(d),
            Sound::Airbrake => crate::native::describes::<OneShot<10>>(d),
            Sound::Beep => crate::native::describes::<OneShot<11>>(d),
            Sound::Laser => crate::native::describes::<OneShot<12>>(d),
            Sound::MineDrop => crate::native::describes::<OneShot<13>>(d),
            Sound::MineBlast => crate::native::describes::<OneShot<14>>(d),
            Sound::LockOn => crate::native::describes::<OneShot<15>>(d),
            Sound::ShieldUp => crate::native::describes::<OneShot<16>>(d),
        }
    }
}

/// Descriptions (inputs, params, presets) of all native generators.
pub fn describe_all() -> (r: Vec<ModelDesc>)
    ensures
        r@.len() == Sound::COUNT,
        forall|i: int| 0 <= i < r@.len() ==> Sound::all()[i].described(#[trigger] r@[i]),
{
    let mut all: Vec<ModelDesc> = Vec::new();
    while all.len() < Sound::COUNT
        invariant
            all@.len() <= Sound::COUNT,
            forall|i: int| 0 <= i < all@.len() ==> Sound::all()[i].described(#[trigger] all@[i]),
        decreases Sound::COUNT - all@.len(),
    {
        let s = Sound::from_index(all.len());
        all.push(s.describe());
    }
    all
}

/// A running native generator.
pub enum Model {
    Jet(Native<Jet>),
    Hover(Native<Hover>),
    Combustion(Native<Combustion>),
    Motor(Native<Motor>),
    Rotor(Native<Rotor>),
    Wind(Native<Wind>),
    Rain(Native<Rain>),
    Fire(Native<Fire>),
    Stream(Native<Stream>),
    Ocean(Native<Ocean>),
    Electric(Native<Electric>),
    Drone(Native<Drone>),
    Crowd(Native<Crowd>),
    Radio(Native<Radio>),
    Siren(Native<Siren>),
    Explosion(Native<OneShot<0>>),
    Rocket(Native<OneShot<1>>),
    Plasma(Native<OneShot<2>>),
    Cannon(Native<OneShot<3>>),
    Impact(Native<OneShot<4>>),
    ShieldHit(Native<OneShot<5>>),
    Pickup(Native<OneShot<6>>),
    Boost(Native<OneShot<7>>),
    Quake(Native<OneShot<8>>),
    Emp(Native<OneShot<9>>),
    Airbrake(Native<OneShot<10>>),
    Beep(Native<OneShot<11>>),
    Laser(Native<OneShot<12>>),
    MineDrop(Native<OneShot<13>>),
    MineBlast(Native<OneShot<14>>),
    LockOn(Native<OneShot<15>>),
    ShieldUp(Native<OneShot<16>>),
}

/// A running generator as a value.
pub enum ModelView {
    Jet(NativeView<Jet>),
    Hover(NativeView<Hover>),
    Combustion(NativeView<Combustion>),
    Motor(NativeView<Motor>),
    Rotor(NativeView<Rotor>),
    Wind(NativeView<Wind>),
    Rain(NativeView<Rain>),
    Fire(NativeView<Fire>),
    Stream(NativeView<Stream>),
    Ocean(NativeView<Ocean>),
    Electric(NativeView<Electric>),
    Drone(NativeView<Drone>),
    Crowd(NativeView<Crowd>),
    Radio(NativeView<Radio>),
    Siren(NativeView<Siren>),
    Explosion(NativeView<OneShot<0>>),
    Rocket(NativeView<OneShot<1>>),
    Plasma(NativeView<OneShot<2>>),
    Cannon(NativeView<OneShot<3>>),
    Impact(NativeView<OneShot<4>>),
    ShieldHit(NativeView<OneShot<5>>),
    Pickup(NativeView<OneShot<6>>),
    Boost(NativeView<OneShot<7>>),
    Quake(NativeView<OneShot<8>>),
    Emp(NativeView<OneShot<9>>),
    Airbrake(NativeView<OneShot<10>>),
    Beep(NativeView<OneShot<11>>),
    Laser(NativeView<OneShot<12>>),
    MineDrop(NativeView<OneShot<13>>),
    MineBlast(NativeView<OneShot<14>>),
    LockOn(NativeView<OneShot<15>>),
    ShieldUp(NativeView<OneShot<16>>),
}

impl View for Model {
    type V = ModelView;

    open spec fn view(&self) -> ModelView {
        match self {
            Model::Jet(m) => ModelView::Jet(m@),
            Model::Hover(m) => ModelView::Hover(m@),
            Model::Combustion(m) => ModelView::Combustion(m@),
            Model::Motor(m) => ModelView::Motor(m@),
            Model::Rotor(m) => ModelView::Rotor(m@),
            Model::Wind(m) => ModelView::Wind(m@),
            Model::Rain(m) => ModelView::Rain(m@),
            Model::Fire(m) => ModelView::Fire(m@),
            Model::Stream(m) => ModelView::Stream(m@),
            Model::Ocean(m) => ModelView::Ocean(m@),
            Model::Electric(m) => ModelView::Electric(m@),
            Model::Drone(m) => ModelView::Drone(m@),
            Model::Crowd(m) => ModelView::Crowd(m@),
            Model::Radio(m) => ModelView::Radio(m@),
            Model::Siren(m) => ModelView::Siren(m@),
            Model::Explosion(m) => ModelView::Explosion(m@),
            Model::Rocket(m) => ModelView::Rocket(m@),
            Model::Plasma(m) => ModelView::Plasma(m@),
            Model::Cannon(m) => ModelView::Cannon(m@),
            Model::Impact(m) => ModelView::Impact(m@),
            Model::ShieldHit(m) => ModelView::ShieldHit(m@),
            Model::Pickup(m) => ModelView::Pickup(m@),
            Model::Boost(m) => ModelView::Boost(m@),
            Model::Quake(m) => ModelView::Quake(m@),
            Model::Emp(m) => ModelView::Emp(m@),
            Model::Airbrake(m) => ModelView::Airbrake(m@),
            Model::Beep(m) => ModelView::Beep(m@),
            Model::Laser(m) => ModelView::Laser(m@),
            Model::MineDrop(m) => ModelView::MineDrop(m@),
            Model::MineBlast(m) => ModelView::MineBlast(m@),
            Model::LockOn(m) => ModelView::LockOn(m@),
            Model::ShieldUp(m) => ModelView::ShieldUp(m@),
        }
    }
}

impl ModelView {
    pub open spec fn sound(self) -> Sound {
        match self {
            ModelView::Jet(_) => Sound::Jet,
            ModelView::Hover(_) => Sound::Hover,
            ModelView::Combustion(_) => Sound::Combustion,
            ModelView::Motor(_) => Sound::Motor,
            ModelView::Rotor(_) => Sound::Rotor,
            ModelView::Wind(_) => Sound::Wind,
            ModelView::Rain(_) => Sound::Rain,
            ModelView::Fire(_) => Sound::Fire,
            ModelView::Stream(_) => Sound::Stream,
            ModelView::Ocean(_) => Sound::Ocean,
            ModelView::Electric(_) => Sound::Electric,
            ModelView::Drone(_) => Sound::Drone,
            ModelView::Crowd(_) => Sound::Crowd,
            ModelView::Radio(_) => Sound::Radio,
            ModelView::Siren(_) => Sound::Siren,
            ModelView::Explosion(_) => Sound::Explosion,
            ModelView::Rocket(_) => Sound::Rocket,
            ModelView::Plasma(_) => Sound::Plasma,
            ModelView::Cannon(_) => Sound::Cannon,
            ModelView::Impact(_) => Sound::Impact,
            ModelView::ShieldHit(_) => Sound::ShieldHit,
            ModelView::Pickup(_) => Sound::Pickup,
            ModelView::Boost(_) => Sound::Boost,
            ModelView::Quake(_) => Sound::Quake,
            ModelView::Emp(_) => Sound::Emp,
            ModelView::Airbrake(_) => Sound::Airbrake,
            ModelView::Beep(_) => Sound::Beep,
            ModelView::Laser(_) => Sound::Laser,
            ModelView::MineDrop(_) => Sound::MineDrop,
            ModelView::MineBlast(_) => Sound::MineBlast,
            ModelView::LockOn(_) => Sound::LockOn,
            ModelView::ShieldUp(_) => Sound::ShieldUp,
        }
    }

    pub open spec fn started(sound: Sound, f: Sums, sample_rate: Single) -> ModelView {
        match sound {
            Sound::Jet => ModelView::Jet(NativeView::<Jet>::started(f, sample_rate)),
            Sound::Hover => ModelView::Hover(NativeView::<Hover>::started(f, sample_rate)),
            Sound::Combustion => ModelView::Combustion(NativeView::<Combustion>::started(f, sample_rate)),
            Sound::Motor => ModelView::Motor(NativeView::<Motor>::started(f, sample_rate)),
            Sound::Rotor => ModelView::Rotor(NativeView::<Rotor>::started(f, sample_rate)),
            Sound::Wind => ModelView::Wind(NativeView::<Wind>::started(f, sample_rate)),
            Sound::Rain => ModelView::Rain(NativeView::<Rain>::started(f, sample_rate)),
            Sound::Fire => ModelView::Fire(NativeView::<Fire>::started(f, sample_rate)),
            Sound::Stream => ModelView::Stream(NativeView::<Stream>::started(f, sample_rate)),
            Sound::Ocean => ModelView::Ocean(NativeView::<Ocean>::started(f, sample_rate)),
            Sound::Electric => ModelView::Electric(NativeView::<Electric>::started(f, sample_rate)),
            Sound::Drone => ModelView::Drone(NativeView::<Drone>::started(f, sample_rate)),
            Sound::Crowd => ModelView::Crowd(NativeView::<Crowd>::started(f, sample_rate)),
            Sound::Radio => ModelView::Radio(NativeView::<Radio>::started(f, sample_rate)),
            Sound::Siren => ModelView::Siren(NativeView::<Siren>::started(f, sample_rate)),
            Sound::Explosion => ModelView::Explosion(NativeView::<OneShot<0>>::started(f, sample_rate)),
            Sound::Rocket => ModelView::Rocket(NativeView::<OneShot<1>>::started(f, sample_rate)),
            Sound::Plasma => ModelView::Plasma(NativeView::<OneShot<2>>::started(f, sample_rate)),
            Sound::Cannon => ModelView::Cannon(NativeView::<OneShot<3>>::started(f, sample_rate)),
            Sound::Impact => ModelView::Impact(NativeView::<OneShot<4>>::started(f, sample_rate)),
            Sound::ShieldHit => ModelView::ShieldHit(NativeView::<OneShot<5>>::started(f, sample_rate)),
            Sound::Pickup => ModelView::Pickup(NativeView::<OneShot<6>>::started(f, sample_rate)),
            Sound::Boost => ModelView::Boost(NativeView::<OneShot<7>>::started(f, sample_rate)),
            Sound::Quake => ModelView::Quake(NativeView::<OneShot<8>>::started(f, sample_rate)),
            Sound::Emp => ModelView::Emp(NativeView::<OneShot<9>>::started(f, sample_rate)),
            Sound::Airbrake => ModelView::Airbrake(NativeView::<OneShot<10>>::started(f, sample_rate)),
            Sound::Beep => ModelView::Beep(NativeView::<OneShot<11>>::started(f, sample_rate)),
            Sound::Laser => ModelView::Laser(NativeView::<OneShot<12>>::started(f, sample_rate)),
            Sound::MineDrop => ModelView::MineDrop(NativeView::<OneShot<13>>::started(f, sample_rate)),
            Sound::MineBlast => ModelView::MineBlast(NativeView::<OneShot<14>>::started(f, sample_rate)),
            Sound::LockOn => ModelView::LockOn(NativeView::<OneShot<15>>::started(f, sample_rate)),
            Sound::ShieldUp => ModelView::ShieldUp(NativeView::<OneShot<16>>::started(f, sample_rate)),
        }
    }

    pub open spec fn with_input(self, i: int, v: Single) -> ModelView {
        match self {
            ModelView::Jet(m) => ModelView::Jet(m.with_input(i, v)),
            ModelView::Hover(m) => ModelView::Hover(m.with_input(i, v)),
            ModelView::Combustion(m) => ModelView::Combustion(m.with_input(i, v)),
            ModelView::Motor(m) => ModelView::Motor(m.with_input(i, v)),
            ModelView::Rotor(m) => ModelView::Rotor(m.with_input(i, v)),
            ModelView::Wind(m) => ModelView::Wind(m.with_input(i, v)),
            ModelView::Rain(m) => ModelView::Rain(m.with_input(i, v)),
            ModelView::Fire(m) => ModelView::Fire(m.with_input(i, v)),
            ModelView::Stream(m) => ModelView::Stream(m.with_input(i, v)),
            ModelView::Ocean(m) => ModelView::Ocean(m.with_input(i, v)),
            ModelView::Electric(m) => ModelView::Electric(m.with_input(i, v)),
            ModelView::Drone(m) => ModelView::Drone(m.with_input(i, v)),
            ModelView::Crowd(m) => ModelView::Crowd(m.with_input(i, v)),
            ModelView::Radio(m) => ModelView::Radio(m.with_input(i, v)),
            ModelView::Siren(m) => ModelView::Siren(m.with_input(i, v)),
            ModelView::Explosion(m) => ModelView::Explosion(m.with_input(i, v)),
            ModelView::Rocket(m) => ModelView::Rocket(m.with_input(i, v)),
            ModelView::Plasma(m) => ModelView::Plasma(m.with_input(i, v)),
            ModelView::Cannon(m) => ModelView::Cannon(m.with_input(i, v)),
            ModelView::Impact(m) => ModelView::Impact(m.with_input(i, v)),
            ModelView::ShieldHit(m) => ModelView::ShieldHit(m.with_input(i, v)),
            ModelView::Pickup(m) => ModelView::Pickup(m.with_input(i, v)),
            ModelView::Boost(m) => ModelView::Boost(m.with_input(i, v)),
            ModelView::Quake(m) => ModelView::Quake(m.with_input(i, v)),
            ModelView::Emp(m) => ModelView::Emp(m.with_input(i, v)),
            ModelView::Airbrake(m) => ModelView::Airbrake(m.with_input(i, v)),
            ModelView::Beep(m) => ModelView::Beep(m.with_input(i, v)),
            ModelView::Laser(m) => ModelView::Laser(m.with_input(i, v)),
            ModelView::MineDrop(m) => ModelView::MineDrop(m.with_input(i, v)),
            ModelView::MineBlast(m) => ModelView::MineBlast(m.with_input(i, v)),
            ModelView::LockOn(m) => ModelView::LockOn(m.with_input(i, v)),
            ModelView::ShieldUp(m) => ModelView::ShieldUp(m.with_input(i, v)),
        }
    }

    pub open spec fn with_param(self, i: int, v: Single) -> ModelView {
        match self {
            ModelView::Jet(m) => ModelView::Jet(m.with_param(i, v)),
            ModelView::Hover(m) => ModelView::Hover(m.with_param(i, v)),
            ModelView::Combustion(m) => ModelView::Combustion(m.with_param(i, v)),
            ModelView::Motor(m) => ModelView::Motor(m.with_param(i, v)),
            ModelView::Rotor(m) => ModelView::Rotor(m.with_param(i, v)),
            ModelView::Wind(m) => ModelView::Wind(m.with_param(i, v)),
            ModelView::Rain(m) => ModelView::Rain(m.with_param(i, v)),
            ModelView::Fire(m) => ModelView::Fire(m.with_param(i, v)),
            ModelView::Stream(m) => ModelView::Stream(m.with_param(i, v)),
            ModelView::Ocean(m) => ModelView::Ocean(m.with_param(i, v)),
            ModelView::Electric(m) => ModelView::Electric(m.with_param(i, v)),
            ModelView::Drone(m) => ModelView::Drone(m.with_param(i, v)),
            ModelView::Crowd(m) => ModelView::Crowd(m.with_param(i, v)),
            ModelView::Radio(m) => ModelView::Radio(m.with_param(i, v)),
            ModelView::Siren(m) => ModelView::Siren(m.with_param(i, v)),
            ModelView::Explosion(m) => ModelView::Explosion(m.with_param(i, v)),
            ModelView::Rocket(m) => ModelView::Rocket(m.with_param(i, v)),
            ModelView::Plasma(m) => ModelView::Plasma(m.with_param(i, v)),
            ModelView::Cannon(m) => ModelView::Cannon(m.with_param(i, v)),
            ModelView::Impact(m) => ModelView::Impact(m.with_param(i, v)),
            ModelView::ShieldHit(m) => ModelView::ShieldHit(m.with_param(i, v)),
            ModelView::Pickup(m) => ModelView::Pickup(m.with_param(i, v)),
            ModelView::Boost(m) => ModelView::Boost(m.with_param(i, v)),
            ModelView::Quake(m) => ModelView::Quake(m.with_param(i, v)),
            ModelView::Emp(m) => ModelView::Emp(m.with_param(i, v)),
            ModelView::Airbrake(m) => ModelView::Airbrake(m.with_param(i, v)),
            ModelView::Beep(m) => ModelView::Beep(m.with_param(i, v)),
            ModelView::Laser(m) => ModelView::Laser(m.with_param(i, v)),
            ModelView::MineDrop(m) => ModelView::MineDrop(m.with_param(i, v)),
            ModelView::MineBlast(m) => ModelView::MineBlast(m.with_param(i, v)),
            ModelView::LockOn(m) => ModelView::LockOn(m.with_param(i, v)),
            ModelView::ShieldUp(m) => ModelView::ShieldUp(m.with_param(i, v)),
        }
    }

    pub open spec fn inputs(self) -> Seq<Single> {
        match self {
            ModelView::Jet(m) => m.target,
            ModelView::Hover(m) => m.target,
            ModelView::Combustion(m) => m.target,
            ModelView::Motor(m) => m.target,
            ModelView::Rotor(m) => m.target,
            ModelView::Wind(m) => m.target,
            ModelView::Rain(m) => m.target,
            ModelView::Fire(m) => m.target,
            ModelView::Stream(m) => m.target,
            ModelView::Ocean(m) => m.target,
            ModelView::Electric(m) => m.target,
            ModelView::Drone(m) => m.target,
            ModelView::Crowd(m) => m.target,
            ModelView::Radio(m) => m.target,
            ModelView::Siren(m) => m.target,
            ModelView::Explosion(m) => m.target,
            ModelView::Rocket(m) => m.target,
            ModelView::Plasma(m) => m.target,
            ModelView::Cannon(m) => m.target,
            ModelView::Impact(m) => m.target,
            ModelView::ShieldHit(m) => m.target,
            ModelView::Pickup(m) => m.target,
            ModelView::Boost(m) => m.target,
            ModelView::Quake(m) => m.target,
            ModelView::Emp(m) => m.target,
            ModelView::Airbrake(m) => m.target,
            ModelView::Beep(m) => m.target,
            ModelView::Laser(m) => m.target,
            ModelView::MineDrop(m) => m.target,
            ModelView::MineBlast(m) => m.target,
            ModelView::LockOn(m) => m.target,
            ModelView::ShieldUp(m) => m.target,
        }
    }

    pub open spec fn params(self) -> Seq<Single> {
        match self {
            ModelView::Jet(m) => crate::native::values_of(m.p),
            ModelView::Hover(m) => crate::native::values_of(m.p),
            ModelView::Combustion(m) => crate::native::values_of(m.p),
            ModelView::Motor(m) => crate::native::values_of(m.p),
            ModelView::Rotor(m) => crate::native::values_of(m.p),
            ModelView::Wind(m) => crate::native::values_of(m.p),
            ModelView::Rain(m) => crate::native::values_of(m.p),
            ModelView::Fire(m) => crate::native::values_of(m.p),
            ModelView::Stream(m) => crate::native::values_of(m.p),
            ModelView::Ocean(m) => crate::native::values_of(m.p),
            ModelView::Electric(m) => crate::native::values_of(m.p),
            ModelView::Drone(m) => crate::native::values_of(m.p),
            ModelView::Crowd(m) => crate::native::values_of(m.p),
            ModelView::Radio(m) => crate::native::values_of(m.p),
            ModelView::Siren(m) => crate::native::values_of(m.p),
            ModelView::Explosion(m) => crate::native::values_of(m.p),
            ModelView::Rocket(m) => crate::native::values_of(m.p),
            ModelView::Plasma(m) => crate::native::values_of(m.p),
            ModelView::Cannon(m) => crate::native::values_of(m.p),
            ModelView::Impact(m) => crate::native::values_of(m.p),
            ModelView::ShieldHit(m) => crate::native::values_of(m.p),
            ModelView::Pickup(m) => crate::native::values_of(m.p),
            ModelView::Boost(m) => crate::native::values_of(m.p),
            ModelView::Quake(m) => crate::native::values_of(m.p),
            ModelView::Emp(m) => crate::native::values_of(m.p),
            ModelView::Airbrake(m) => crate::native::values_of(m.p),
            ModelView::Beep(m) => crate::native::values_of(m.p),
            ModelView::Laser(m) => crate::native::values_of(m.p),
            ModelView::MineDrop(m) => crate::native::values_of(m.p),
            ModelView::MineBlast(m) => crate::native::values_of(m.p),
            ModelView::LockOn(m) => crate::native::values_of(m.p),
            ModelView::ShieldUp(m) => crate::native::values_of(m.p),
        }
    }

    pub open spec fn preset_count(self) -> nat {
        match self {
            ModelView::Jet(_) => crate::native::preset_total::<Jet>(),
            ModelView::Hover(_) => crate::native::preset_total::<Hover>(),
            ModelView::Combustion(_) => crate::native::preset_total::<Combustion>(),
            ModelView::Motor(_) => crate::native::preset_total::<Motor>(),
            ModelView::Rotor(_) => crate::native::preset_total::<Rotor>(),
            ModelView::Wind(_) => crate::native::preset_total::<Wind>(),
            ModelView::Rain(_) => crate::native::preset_total::<Rain>(),
            ModelView::Fire(_) => crate::native::preset_total::<Fire>(),
            ModelView::Stream(_) => crate::native::preset_total::<Stream>(),
            ModelView::Ocean(_) => crate::native::preset_total::<Ocean>(),
            ModelView::Electric(_) => crate::native::preset_total::<Electric>(),
            ModelView::Drone(_) => crate::native::preset_total::<Drone>(),
            ModelView::Crowd(_) => crate::native::preset_total::<Crowd>(),
            ModelView::Radio(_) => crate::native::preset_total::<Radio>(),
            ModelView::Siren(_) => crate::native::preset_total::<Siren>(),
            ModelView::Explosion(_) => crate::native::preset_total::<OneShot<0>>(),
            ModelView::Rocket(_) => crate::native::preset_total::<OneShot<1>>(),
            ModelView::Plasma(_) => crate::native::preset_total::<OneShot<2>>(),
            ModelView::Cannon(_) => crate::native::preset_total::<OneShot<3>>(),
            ModelView::Impact(_) => crate::native::preset_total::<OneShot<4>>(),
            ModelView::ShieldHit(_) => crate::native::preset_total::<OneShot<5>>(),
            ModelView::Pickup(_) => crate::native::preset_total::<OneShot<6>>(),
            ModelView::Boost(_) => crate::native::preset_total::<OneShot<7>>(),
            ModelView::Quake(_) => crate::native::preset_total::<OneShot<8>>(),
            ModelView::Emp(_) => crate::native::preset_total::<OneShot<9>>(),
            ModelView::Airbrake(_) => crate::native::preset_total::<OneShot<10>>(),
            ModelView::Beep(_) => crate::native::preset_total::<OneShot<11>>(),
            ModelView::Laser(_) => crate::native::preset_total::<OneShot<12>>(),
            ModelView::MineDrop(_) => crate::native::preset_total::<OneShot<13>>(),
            ModelView::MineBlast(_) => crate::native::preset_total::<OneShot<14>>(),
            ModelView::LockOn(_) => crate::native::preset_total::<OneShot<15>>(),
            ModelView::ShieldUp(_) => crate::native::preset_total::<OneShot<16>>(),
        }
    }

    /// With the parameters of a preset; the default ones are preset 0.
    pub open spec fn with_preset(self, i: int) -> ModelView {
        match self {
            ModelView::Jet(m) => ModelView::Jet(m.with_preset(i)),
            ModelView::Hover(m) => ModelView::Hover(m.with_preset(i)),
            ModelView::Combustion(m) => ModelView::Combustion(m.with_preset(i)),
            ModelView::Motor(m) => ModelView::Motor(m.with_preset(i)),
            ModelView::Rotor(m) => ModelView::Rotor(m.with_preset(i)),
            ModelView::Wind(m) => ModelView::Wind(m.with_preset(i)),
            ModelView::Rain(m) => ModelView::Rain(m.with_preset(i)),
            ModelView::Fire(m) => ModelView::Fire(m.with_preset(i)),
            ModelView::Stream(m) => ModelView::Stream(m.with_preset(i)),
            ModelView::Ocean(m) => ModelView::Ocean(m.with_preset(i)),
            ModelView::Electric(m) => ModelView::Electric(m.with_preset(i)),
            ModelView::Drone(m) => ModelView::Drone(m.with_preset(i)),
            ModelView::Crowd(m) => ModelView::Crowd(m.with_preset(i)),
            ModelView::Radio(m) => ModelView::Radio(m.with_preset(i)),
            ModelView::Siren(m) => ModelView::Siren(m.with_preset(i)),
            ModelView::Explosion(m) => ModelView::Explosion(m.with_preset(i)),
            ModelView::Rocket(m) => ModelView::Rocket(m.with_preset(i)),
            ModelView::Plasma(m) => ModelView::Plasma(m.with_preset(i)),
            ModelView::Cannon(m) => ModelView::Cannon(m.with_preset(i)),
            ModelView::Impact(m) => ModelView::Impact(m.with_preset(i)),
            ModelView::ShieldHit(m) => ModelView::ShieldHit(m.with_preset(i)),
            ModelView::Pickup(m) => ModelView::Pickup(m.with_preset(i)),
            ModelView::Boost(m) => ModelView::Boost(m.with_preset(i)),
            ModelView::Quake(m) => ModelView::Quake(m.with_preset(i)),
            ModelView::Emp(m) => ModelView::Emp(m.with_preset(i)),
            ModelView::Airbrake(m) => ModelView::Airbrake(m.with_preset(i)),
            ModelView::Beep(m) => ModelView::Beep(m.with_preset(i)),
            ModelView::Laser(m) => ModelView::Laser(m.with_preset(i)),
            ModelView::MineDrop(m) => ModelView::MineDrop(m.with_preset(i)),
            ModelView::MineBlast(m) => ModelView::MineBlast(m.with_preset(i)),
            ModelView::LockOn(m) => ModelView::LockOn(m.with_preset(i)),
            ModelView::ShieldUp(m) => ModelView::ShieldUp(m.with_preset(i)),
        }
    }

    pub open spec fn snapped(self, f: Sums) -> ModelView {
        match self {
            ModelView::Jet(m) => ModelView::Jet(m.snapped(f)),
            ModelView::Hover(m) => ModelView::Hover(m.snapped(f)),
            ModelView::Combustion(m) => ModelView::Combustion(m.snapped(f)),
            ModelView::Motor(m) => ModelView::Motor(m.snapped(f)),
            ModelView::Rotor(m) => ModelView::Rotor(m.snapped(f)),
            ModelView::Wind(m) => ModelView::Wind(m.snapped(f)),
            ModelView::Rain(m) => ModelView::Rain(m.snapped(f)),
            ModelView::Fire(m) => ModelView::Fire(m.snapped(f)),
            ModelView::Stream(m) => ModelView::Stream(m.snapped(f)),
            ModelView::Ocean(m) => ModelView::Ocean(m.snapped(f)),
            ModelView::Electric(m) => ModelView::Electric(m.snapped(f)),
            ModelView::Drone(m) => ModelView::Drone(m.snapped(f)),
            ModelView::Crowd(m) => ModelView::Crowd(m.snapped(f)),
            ModelView::Radio(m) => ModelView::Radio(m.snapped(f)),
            ModelView::Siren(m) => ModelView::Siren(m.snapped(f)),
            ModelView::Explosion(m) => ModelView::Explosion(m.snapped(f)),
            ModelView::Rocket(m) => ModelView::Rocket(m.snapped(f)),
            ModelView::Plasma(m) => ModelView::Plasma(m.snapped(f)),
            ModelView::Cannon(m) => ModelView::Cannon(m.snapped(f)),
            ModelView::Impact(m) => ModelView::Impact(m.snapped(f)),
            ModelView::ShieldHit(m) => ModelView::ShieldHit(m.snapped(f)),
            ModelView::Pickup(m) => ModelView::Pickup(m.snapped(f)),
            ModelView::Boost(m) => ModelView::Boost(m.snapped(f)),
            ModelView::Quake(m) => ModelView::Quake(m.snapped(f)),
            ModelView::Emp(m) => ModelView::Emp(m.snapped(f)),
            ModelView::Airbrake(m) => ModelView::Airbrake(m.snapped(f)),
            ModelView::Beep(m) => ModelView::Beep(m.snapped(f)),
            ModelView::Laser(m) => ModelView::Laser(m.snapped(f)),
            ModelView::MineDrop(m) => ModelView::MineDrop(m.snapped(f)),
            ModelView::MineBlast(m) => ModelView::MineBlast(m.snapped(f)),
            ModelView::LockOn(m) => ModelView::LockOn(m.snapped(f)),
            ModelView::ShieldUp(m) => ModelView::ShieldUp(m.snapped(f)),
        }
    }

    pub open spec fn fired(self, f: Sums) -> ModelView {
        match self {
            ModelView::Jet(m) => ModelView::Jet(m.fired(f)),
            ModelView::Hover(m) => ModelView::Hover(m.fired(f)),
            ModelView::Combustion(m) => ModelView::Combustion(m.fired(f)),
            ModelView::Motor(m) => ModelView::Motor(m.fired(f)),
            ModelView::Rotor(m) => ModelView::Rotor(m.fired(f)),
            ModelView::Wind(m) => ModelView::Wind(m.fired(f)),
            ModelView::Rain(m) => ModelView::Rain(m.fired(f)),
            ModelView::Fire(m) => ModelView::Fire(m.fired(f)),
            ModelView::Stream(m) => ModelView::Stream(m.fired(f)),
            ModelView::Ocean(m) => ModelView::Ocean(m.fired(f)),
            ModelView::Electric(m) => ModelView::Electric(m.fired(f)),
            ModelView::Drone(m) => ModelView::Drone(m.fired(f)),
            ModelView::Crowd(m) => ModelView::Crowd(m.fired(f)),
            ModelView::Radio(m) => ModelView::Radio(m.fired(f)),
            ModelView::Siren(m) => ModelView::Siren(m.fired(f)),
            ModelView::Explosion(m) => ModelView::Explosion(m.fired(f)),
            ModelView::Rocket(m) => ModelView::Rocket(m.fired(f)),
            ModelView::Plasma(m) => ModelView::Plasma(m.fired(f)),
            ModelView::Cannon(m) => ModelView::Cannon(m.fired(f)),
            ModelView::Impact(m) => ModelView::Impact(m.fired(f)),
            ModelView::ShieldHit(m) => ModelView::ShieldHit(m.fired(f)),
            ModelView::Pickup(m) => ModelView::Pickup(m.fired(f)),
            ModelView::Boost(m) => ModelView::Boost(m.fired(f)),
            ModelView::Quake(m) => ModelView::Quake(m.fired(f)),
            ModelView::Emp(m) => ModelView::Emp(m.fired(f)),
            ModelView::Airbrake(m) => ModelView::Airbrake(m.fired(f)),
            ModelView::Beep(m) => ModelView::Beep(m.fired(f)),
            ModelView::Laser(m) => ModelView::Laser(m.fired(f)),
            ModelView::MineDrop(m) => ModelView::MineDrop(m.fired(f)),
            ModelView::MineBlast(m) => ModelView::MineBlast(m.fired(f)),
            ModelView::LockOn(m) => ModelView::LockOn(m.fired(f)),
            ModelView::ShieldUp(m) => ModelView::ShieldUp(m.fired(f)),
        }
    }

    pub open spec fn finished(self) -> bool {
        match self {
            ModelView::Jet(m) => m.finished(),
            ModelView::Hover(m) => m.finished(),
            ModelView::Combustion(m) => m.finished(),
            ModelView::Motor(m) => m.finished(),
            ModelView::Rotor(m) => m.finished(),
            ModelView::Wind(m) => m.finished(),
            ModelView::Rain(m) => m.finished(),
            ModelView::Fire(m) => m.finished(),
            ModelView::Stream(m) => m.finished(),
            ModelView::Ocean(m) => m.finished(),
            ModelView::Electric(m) => m.finished(),
            ModelView::Drone(m) => m.finished(),
            ModelView::Crowd(m) => m.finished(),
            ModelView::Radio(m) => m.finished(),
            ModelView::Siren(m) => m.finished(),
            ModelView::Explosion(m) => m.finished(),
            ModelView::Rocket(m) => m.finished(),
            ModelView::Plasma(m) => m.finished(),
            ModelView::Cannon(m) => m.finished(),
            ModelView::Impact(m) => m.finished(),
            ModelView::ShieldHit(m) => m.finished(),
            ModelView::Pickup(m) => m.finished(),
            ModelView::Boost(m) => m.finished(),
            ModelView::Quake(m) => m.finished(),
            ModelView::Emp(m) => m.finished(),
            ModelView::Airbrake(m) => m.finished(),
            ModelView::Beep(m) => m.finished(),
            ModelView::Laser(m) => m.finished(),
            ModelView::MineDrop(m) => m.finished(),
            ModelView::MineBlast(m) => m.finished(),
            ModelView::LockOn(m) => m.finished(),
            ModelView::ShieldUp(m) => m.finished(),
        }
    }

    /// Whether it is an event.
    pub open spec fn one_shot(self) -> bool {
        match self {
            ModelView::Jet(m) => m.one_shot(),
            ModelView::Hover(m) => m.one_shot(),
            ModelView::Combustion(m) => m.one_shot(),
            ModelView::Motor(m) => m.one_shot(),
            ModelView::Rotor(m) => m.one_shot(),
            ModelView::Wind(m) => m.one_shot(),
            ModelView::Rain(m) => m.one_shot(),
            ModelView::Fire(m) => m.one_shot(),
            ModelView::Stream(m) => m.one_shot(),
            ModelView::Ocean(m) => m.one_shot(),
            ModelView::Electric(m) => m.one_shot(),
            ModelView::Drone(m) => m.one_shot(),
            ModelView::Crowd(m) => m.one_shot(),
            ModelView::Radio(m) => m.one_shot(),
            ModelView::Siren(m) => m.one_shot(),
            ModelView::Explosion(m) => m.one_shot(),
            ModelView::Rocket(m) => m.one_shot(),
            ModelView::Plasma(m) => m.one_shot(),
            ModelView::Cannon(m) => m.one_shot(),
            ModelView::Impact(m) => m.one_shot(),
            ModelView::ShieldHit(m) => m.one_shot(),
            ModelView::Pickup(m) => m.one_shot(),
            ModelView::Boost(m) => m.one_shot(),
            ModelView::Quake(m) => m.one_shot(),
            ModelView::Emp(m) => m.one_shot(),
            ModelView::Airbrake(m) => m.one_shot(),
            ModelView::Beep(m) => m.one_shot(),
            ModelView::Laser(m) => m.one_shot(),
            ModelView::MineDrop(m) => m.one_shot(),
            ModelView::MineBlast(m) => m.one_shot(),
            ModelView::LockOn(m) => m.one_shot(),
            ModelView::ShieldUp(m) => m.one_shot(),
        }
    }

    pub open spec fn rendered(self, f: Sums, x: Seq<Single>) -> (ModelView, Seq<Single>) {
        match self {
            ModelView::Jet(m) => (ModelView::Jet(m.rendered(f, x).0), m.rendered(f, x).1),
            ModelView::Hover(m) => (ModelView::Hover(m.rendered(f, x).0), m.rendered(f, x).1),
            ModelView::Combustion(m) => (ModelView::Combustion(m.rendered(f, x).0), m.rendered(f, x).1),
            ModelView::Motor(m) => (ModelView::Motor(m.rendered(f, x).0), m.rendered(f, x).1),
            ModelView::Rotor(m) => (ModelView::Rotor(m.rendered(f, x).0), m.rendered(f, x).1),
            ModelView::Wind(m) => (ModelView::Wind(m.rendered(f, x).0), m.rendered(f, x).1),
            ModelView::Rain(m) => (ModelView::Rain(m.rendered(f, x).0), m.rendered(f, x).1),
            ModelView::Fire(m) => (ModelView::Fire(m.rendered(f, x).0), m.rendered(f, x).1),
            ModelView::Stream(m) => (ModelView::Stream(m.rendered(f, x).0), m.rendered(f, x).1),
            ModelView::Ocean(m) => (ModelView::Ocean(m.rendered(f, x).0), m.rendered(f, x).1),
            ModelView::Electric(m) => (ModelView::Electric(m.rendered(f, x).0), m.rendered(f, x).1),
            ModelView::Drone(m) => (ModelView::Drone(m.rendered(f, x).0), m.rendered(f, x).1),
            ModelView::Crowd(m) => (ModelView::Crowd(m.rendered(f, x).0), m.rendered(f, x).1),
            ModelView::Radio(m) => (ModelView::Radio(m.rendered(f, x).0), m.rendered(f, x).1),
            ModelView::Siren(m) => (ModelView::Siren(m.rendered(f, x).0), m.rendered(f, x).1),
            ModelView::Explosion(m) => (ModelView::Explosion(m.rendered(f, x).0), m.rendered(f, x).1),
            ModelView::Rocket(m) => (ModelView::Rocket(m.rendered(f, x).0), m.rendered(f, x).1),
            ModelView::Plasma(m) => (ModelView::Plasma(m.rendered(f, x).0), m.rendered(f, x).1),
            ModelView::Cannon(m) => (ModelView::Cannon(m.rendered(f, x).0), m.rendered(f, x).1),
            ModelView::Impact(m) => (ModelView::Impact(m.rendered(f, x).0), m.rendered(f, x).1),
            ModelView::ShieldHit(m) => (ModelView::ShieldHit(m.rendered(f, x).0), m.rendered(f, x).1),
            ModelView::Pickup(m) => (ModelView::Pickup(m.rendered(f, x).0), m.rendered(f, x).1),
            ModelView::Boost(m) => (ModelView::Boost(m.rendered(f, x).0), m.rendered(f, x).1),
            ModelView::Quake(m) => (ModelView::Quake(m.rendered(f, x).0), m.rendered(f, x).1),
            ModelView::Emp(m) => (ModelView::Emp(m.rendered(f, x).0), m.rendered(f, x).1),
            ModelView::Airbrake(m) => (ModelView::Airbrake(m.rendered(f, x).0), m.rendered(f, x).1),
            ModelView::Beep(m) => (ModelView::Beep(m.rendered(f, x).0), m.rendered(f, x).1),
            ModelView::Laser(m) => (ModelView::Laser(m.rendered(f, x).0), m.rendered(f, x).1),
            ModelView::MineDrop(m) => (ModelView::MineDrop(m.rendered(f, x).0), m.rendered(f, x).1),
            ModelView::MineBlast(m) => (ModelView::MineBlast(m.rendered(f, x).0), m.rendered(f, x).1),
            ModelView::LockOn(m) => (ModelView::LockOn(m.rendered(f, x).0), m.rendered(f, x).1),
            ModelView::ShieldUp(m) => (ModelView::ShieldUp(m.rendered(f, x).0), m.rendered(f, x).1),
        }
    }

    pub open spec fn peak(self) -> Single {
        match self {
            ModelView::Jet(m) => m.peak,
            ModelView::Hover(m) => m.peak,
            ModelView::Combustion(m) => m.peak,
            ModelView::Motor(m) => m.peak,
            ModelView::Rotor(m) => m.peak,
            ModelView::Wind(m) => m.peak,
            ModelView::Rain(m) => m.peak,
            ModelView::Fire(m) => m.peak,
            ModelView::Stream(m) => m.peak,
            ModelView::Ocean(m) => m.peak,
            ModelView::Electric(m) => m.peak,
            ModelView::Drone(m) => m.peak,
            ModelView::Crowd(m) => m.peak,
            ModelView::Radio(m) => m.peak,
            ModelView::Siren(m) => m.peak,
            ModelView::Explosion(m) => m.peak,
            ModelView::Rocket(m) => m.peak,
            ModelView::Plasma(m) => m.peak,
            ModelView::Cannon(m) => m.peak,
            ModelView::Impact(m) => m.peak,
            ModelView::ShieldHit(m) => m.peak,
            ModelView::Pickup(m) => m.peak,
            ModelView::Boost(m) => m.peak,
            ModelView::Quake(m) => m.peak,
            ModelView::Emp(m) => m.peak,
            ModelView::Airbrake(m) => m.peak,
            ModelView::Beep(m) => m.peak,
            ModelView::Laser(m) => m.peak,
            ModelView::MineDrop(m) => m.peak,
            ModelView::MineBlast(m) => m.peak,
            ModelView::LockOn(m) => m.peak,
            ModelView::ShieldUp(m) => m.peak,
        }
    }

    pub open spec fn sample_rate(self) -> Single {
        match self {
            ModelView::Jet(m) => m.sample_rate,
            ModelView::Hover(m) => m.sample_rate,
            ModelView::Combustion(m) => m.sample_rate,
            ModelView::Motor(m) => m.sample_rate,
            ModelView::Rotor(m) => m.sample_rate,
            ModelView::Wind(m) => m.sample_rate,
            ModelView::Rain(m) => m.sample_rate,
            ModelView::Fire(m) => m.sample_rate,
            ModelView::Stream(m) => m.sample_rate,
            ModelView::Ocean(m) => m.sample_rate,
            ModelView::Electric(m) => m.sample_rate,
            ModelView::Drone(m) => m.sample_rate,
            ModelView::Crowd(m) => m.sample_rate,
            ModelView::Radio(m) => m.sample_rate,
            ModelView::Siren(m) => m.sample_rate,
            ModelView::Explosion(m) => m.sample_rate,
            ModelView::Rocket(m) => m.sample_rate,
            ModelView::Plasma(m) => m.sample_rate,
            ModelView::Cannon(m) => m.sample_rate,
            ModelView::Impact(m) => m.sample_rate,
            ModelView::ShieldHit(m) => m.sample_rate,
            ModelView::Pickup(m) => m.sample_rate,
            ModelView::Boost(m) => m.sample_rate,
            ModelView::Quake(m) => m.sample_rate,
            ModelView::Emp(m) => m.sample_rate,
            ModelView::Airbrake(m) => m.sample_rate,
            ModelView::Beep(m) => m.sample_rate,
            ModelView::Laser(m) => m.sample_rate,
            ModelView::MineDrop(m) => m.sample_rate,
            ModelView::MineBlast(m) => m.sample_rate,
            ModelView::LockOn(m) => m.sample_rate,
            ModelView::ShieldUp(m) => m.sample_rate,
        }
    }
}

/// Create a native generator by (case-insensitive) name.
pub fn create<F: Fn(Prim, Single, Single) -> Single>(fpu: &F, name: &str, sample_rate: Single) -> (r: Option<Model>)
    requires
        total(*fpu),
    ensures
        match r {
            Some(m) => {
                &&& m.wf()
                &&& crate::text::same_word(name@, m@.sound().label())
                &&& forall|f: Sums| #[trigger] meant(*fpu, f) ==> m@ == ModelView::started(m@.sound(), f, sample_rate)
            },
            None => forall|s: Sound| !crate::text::same_word(name@, #[trigger] s.label()),
        },
{
    match Sound::from_name(name) {
        Some(s) => Some(Model::new(fpu, s, sample_rate)),
        None => None,
    }
}

impl Model {
    pub open spec fn wf(self) -> bool {
        match self {
            Model::Jet(m) => m.wf(),
            Model::Hover(m) => m.wf(),
            Model::Combustion(m) => m.wf(),
            Model::Motor(m) => m.wf(),
            Model::Rotor(m) => m.wf(),
            Model::Wind(m) => m.wf(),
            Model::Rain(m) => m.wf(),
            Model::Fire(m) => m.wf(),
            Model::Stream(m) => m.wf(),
            Model::Ocean(m) => m.wf(),
            Model::Electric(m) => m.wf(),
            Model::Drone(m) => m.wf(),
            Model::Crowd(m) => m.wf(),
            Model::Radio(m) => m.wf(),
            Model::Siren(m) => m.wf(),
            Model::Explosion(m) => m.wf(),
            Model::Rocket(m) => m.wf(),
            Model::Plasma(m) => m.wf(),
            Model::Cannon(m) => m.wf(),
            Model::Impact(m) => m.wf(),
            Model::ShieldHit(m) => m.wf(),
            Model::Pickup(m) => m.wf(),
            Model::Boost(m) => m.wf(),
            Model::Quake(m) => m.wf(),
            Model::Emp(m) => m.wf(),
            Model::Airbrake(m) => m.wf(),
            Model::Beep(m) => m.wf(),
            Model::Laser(m) => m.wf(),
            Model::MineDrop(m) => m.wf(),
            Model::MineBlast(m) => m.wf(),
            Model::LockOn(m) => m.wf(),
            Model::ShieldUp(m) => m.wf(),
        }
    }

    pub fn new<F: Fn(Prim, Single, Single) -> Single>(fpu: &F, sound: Sound, sample_rate: Single) -> (r: Model)
        requires
            total(*fpu),
        ensures
            r.wf(),
            r@.sound() == sound,
            forall|f: Sums| #[trigger] meant(*fpu, f) ==> r@ == ModelView::started(sound, f, sample_rate),
    {
        match sound {
            Sound::Jet => Model::Jet(Native::new(fpu, sample_rate)),
            Sound::Hover => Model::Hover(Native::new(fpu, sample_rate)),
            Sound::Combustion => Model::Combustion(Native::new(fpu, sample_rate)),
            Sound::Motor => Model::Motor(Native::new(fpu, sample_rate)),
            Sound::Rotor => Model::Rotor(Native::new(fpu, sample_rate)),
            Sound::Wind => Model::Wind(Native::new(fpu, sample_rate)),
            Sound::Rain => Model::Rain(Native::new(fpu, sample_rate)),
            Sound::Fire => Model::Fire(Native::new(fpu, sample_rate)),
            Sound::Stream => Model::Stream(Native::new(fpu, sample_rate)),
            Sound::Ocean => Model::Ocean(Native::new(fpu, sample_rate)),
            Sound::Electric => Model::Electric(Native::new(fpu, sample_rate)),
            Sound::Drone => Model::Drone(Native::new(fpu, sample_rate)),
            Sound::Crowd => Model::Crowd(Native::new(fpu, sample_rate)),
            Sound::Radio => Model::Radio(Native::new(fpu, sample_rate)),
            Sound::Siren => Model::Siren(Native::new(fpu, sample_rate)),
            Sound::Explosion => Model::Explosion(Native::new(fpu, sample_rate)),
            Sound::Rocket => Model::Rocket(Native::new(fpu, sample_rate)),
            Sound::Plasma => Model::Plasma(Native::new(fpu, sample_rate)),
            Sound::Cannon => Model::Cannon(Native::new(fpu, sample_rate)),
            Sound::Impact => Model::Impact(Native::new(fpu, sample_rate)),
            Sound::ShieldHit => Model::ShieldHit(Native::new(fpu, sample_rate)),
            Sound::Pickup => Model::Pickup(Native::new(fpu, sample_rate)),
            Sound::Boost => Model::Boost(Native::new(fpu, sample_rate)),
            Sound::Quake => Model::Quake(Native::new(fpu, sample_rate)),
            Sound::Emp => Model::Emp(Native::new(fpu, sample_rate)),
            Sound::Airbrake => Model::Airbrake(Native::new(fpu, sample_rate)),
            Sound::Beep => Model::Beep(Native::new(fpu, sample_rate)),
            Sound::Laser => Model::Laser(Native::new(fpu, sample_rate)),
            Sound::MineDrop => Model::MineDrop(Native::new(fpu, sample_rate)),
            Sound::MineBlast => Model::MineBlast(Native::new(fpu, sample_rate)),
            Sound::LockOn => Model::LockOn(Native::new(fpu, sample_rate)),
            Sound::ShieldUp => Model::ShieldUp(Native::new(fpu, sample_rate)),
        }
    }

    pub fn desc(&self) -> (r: &ModelDesc)
        requires
            self.wf(),
        ensures
            *r == self.shown(),
            self@.sound().described(*r),
    {
        match self {
            Model::Jet(m) => m.desc(),
            Model::Hover(m) => m.desc(),
            Model::Combustion(m) => m.desc(),
            Model::Motor(m) => m.desc(),
            Model::Rotor(m) => m.desc(),
            Model::Wind(m) => m.desc(),
            Model::Rain(m) => m.desc(),
            Model::Fire(m) => m.desc(),
            Model::Stream(m) => m.desc(),
            Model::Ocean(m) => m.desc(),
            Model::Electric(m) => m.desc(),
            Model::Drone(m) => m.desc(),
            Model::Crowd(m) => m.desc(),
            Model::Radio(m) => m.desc(),
            Model::Siren(m) => m.desc(),
            Model::Explosion(m) => m.desc(),
            Model::Rocket(m) => m.desc(),
            Model::Plasma(m) => m.desc(),
            Model::Cannon(m) => m.desc(),
            Model::Impact(m) => m.desc(),
            Model::ShieldHit(m) => m.desc(),
            Model::Pickup(m) => m.desc(),
            Model::Boost(m) => m.desc(),
            Model::Quake(m) => m.desc(),
            Model::Emp(m) => m.desc(),
            Model::Airbrake(m) => m.desc(),
            Model::Beep(m) => m.desc(),
            Model::Laser(m) => m.desc(),
            Model::MineDrop(m) => m.desc(),
            Model::MineBlast(m) => m.desc(),
            Model::LockOn(m) => m.desc(),
            Model::ShieldUp(m) => m.desc(),
        }
    }

    /// Inputs are 0..1 game-state values; out-of-range and non-finite values are clamped.
    pub fn set_input(&mut self, index: usize, value: Single)
        requires
            old(self).wf(),
        ensures
            final(self).wf(),
            final(self).shown() == old(self).shown(),
            final(self)@ == old(self)@.with_input(index as int, value),
    {
        match self {
            Model::Jet(m) => m.set_input(index, value),
            Model::Hover(m) => m.set_input(index, value),
            Model::Combustion(m) => m.set_input(index, value),
            Model::Motor(m) => m.set_input(index, value),
            Model::Rotor(m) => m.set_input(index, value),
            Model::Wind(m) => m.set_input(index, value),
            Model::Rain(m) => m.set_input(index, value),
            Model::Fire(m) => m.set_input(index, value),
            Model::Stream(m) => m.set_input(index, value),
            Model::Ocean(m) => m.set_input(index, value),
            Model::Electric(m) => m.set_input(index, value),
            Model::Drone(m) => m.set_input(index, value),
            Model::Crowd(m) => m.set_input(index, value),
            Model::Radio(m) => m.set_input(index, value),
            Model::Siren(m) => m.set_input(index, value),
            Model::Explosion(m) => m.set_input(index, value),
            Model::Rocket(m) => m.set_input(index, value),
            Model::Plasma(m) => m.set_input(index, value),
            Model::Cannon(m) => m.set_input(index, value),
            Model::Impact(m) => m.set_input(index, value),
            Model::ShieldHit(m) => m.set_input(index, value),
            Model::Pickup(m) => m.set_input(index, value),
            Model::Boost(m) => m.set_input(index, value),
            Model::Quake(m) => m.set_input(index, value),
            Model::Emp(m) => m.set_input(index, value),
            Model::Airbrake(m) => m.set_input(index, value),
            Model::Beep(m) => m.set_input(index, value),
            Model::Laser(m) => m.set_input(index, value),
            Model::MineDrop(m) => m.set_input(index, value),
            Model::MineBlast(m) => m.set_input(index, value),
            Model::LockOn(m) => m.set_input(index, value),
            Model::ShieldUp(m) => m.set_input(index, value),
        }
    }

    pub fn input(&self, index: usize) -> (r: Single)
        requires
            self.wf(),
        ensures
            index < self@.inputs().len() ==> r == self@.inputs()[index as int],
            index >= self@.inputs().len() ==> r == Single::of(crate::single::ZERO),
    {
        match self {
            Model::Jet(m) => m.input(index),
            Model::Hover(m) => m.input(index),
            Model::Combustion(m) => m.input(index),
            Model::Motor(m) => m.input(index),
            Model::Rotor(m) => m.input(index),
            Model::Wind(m) => m.input(index),
            Model::Rain(m) => m.input(index),
            Model::Fire(m) => m.input(index),
            Model::Stream(m) => m.input(index),
            Model::Ocean(m) => m.input(index),
            Model::Electric(m) => m.input(index),
            Model::Drone(m) => m.input(index),
            Model::Crowd(m) => m.input(index),
            Model::Radio(m) => m.input(index),
            Model::Siren(m) => m.input(index),
            Model::Explosion(m) => m.input(index),
            Model::Rocket(m) => m.input(index),
            Model::Plasma(m) => m.input(index),
            Model::Cannon(m) => m.input(index),
            Model::Impact(m) => m.input(index),
            Model::ShieldHit(m) => m.input(index),
            Model::Pickup(m) => m.input(index),
            Model::Boost(m) => m.input(index),
            Model::Quake(m) => m.input(index),
            Model::Emp(m) => m.input(index),
            Model::Airbrake(m) => m.input(index),
            Model::Beep(m) => m.input(index),
            Model::Laser(m) => m.input(index),
            Model::MineDrop(m) => m.input(index),
            Model::MineBlast(m) => m.input(index),
            Model::LockOn(m) => m.input(index),
            Model::ShieldUp(m) => m.input(index),
        }
    }

    /// Values are clamped to the parameter's range.
    pub fn set_param(&mut self, index: usize, value: Single)
        requires
            old(self).wf(),
        ensures
            final(self).wf(),
            final(self).shown() == old(self).shown(),
            final(self)@ == old(self)@.with_param(index as int, value),
    {
        match self {
            Model::Jet(m) => m.set_param(index, value),
            Model::Hover(m) => m.set_param(index, value),
            Model::Combustion(m) => m.set_param(index, value),
            Model::Motor(m) => m.set_param(index, value),
            Model::Rotor(m) => m.set_param(index, value),
            Model::Wind(m) => m.set_param(index, value),
            Model::Rain(m) => m.set_param(index, value),
            Model::Fire(m) => m.set_param(index, value),
            Model::Stream(m) => m.set_param(index, value),
            Model::Ocean(m) => m.set_param(index, value),
            Model::Electric(m) => m.set_param(index, value),
            Model::Drone(m) => m.set_param(index, value),
            Model::Crowd(m) => m.set_param(index, value),
            Model::Radio(m) => m.set_param(index, value),
            Model::Siren(m) => m.set_param(index, value),
            Model::Explosion(m) => m.set_param(index, value),
            Model::Rocket(m) => m.set_param(index, value),
            Model::Plasma(m) => m.set_param(index, value),
            Model::Cannon(m) => m.set_param(index, value),
            Model::Impact(m) => m.set_param(index, value),
            Model::ShieldHit(m) => m.set_param(index, value),
            Model::Pickup(m) => m.set_param(index, value),
            Model::Boost(m) => m.set_param(index, value),
            Model::Quake(m) => m.set_param(index, value),
            Model::Emp(m) => m.set_param(index, value),
            Model::Airbrake(m) => m.set_param(index, value),
            Model::Beep(m) => m.set_param(index, value),
            Model::Laser(m) => m.set_param(index, value),
            Model::MineDrop(m) => m.set_param(index, value),
            Model::MineBlast(m) => m.set_param(index, value),
            Model::LockOn(m) => m.set_param(index, value),
            Model::ShieldUp(m) => m.set_param(index, value),
        }
    }

    pub fn param(&self, index: usize) -> (r: Single)
        requires
            self.wf(),
        ensures
            index < self@.params().len() ==> r == self@.params()[index as int],
            index >= self@.params().len() ==> r == Single::of(crate::single::ZERO),
    {
        match self {
            Model::Jet(m) => m.param(index),
            Model::Hover(m) => m.param(index),
            Model::Combustion(m) => m.param(index),
            Model::Motor(m) => m.param(index),
            Model::Rotor(m) => m.param(index),
            Model::Wind(m) => m.param(index),
            Model::Rain(m) => m.param(index),
            Model::Fire(m) => m.param(index),
            Model::Stream(m) => m.param(index),
            Model::Ocean(m) => m.param(index),
            Model::Electric(m) => m.param(index),
            Model::Drone(m) => m.param(index),
            Model::Crowd(m) => m.param(index),
            Model::Radio(m) => m.param(index),
            Model::Siren(m) => m.param(index),
            Model::Explosion(m) => m.param(index),
            Model::Rocket(m) => m.param(index),
            Model::Plasma(m) => m.param(index),
            Model::Cannon(m) => m.param(index),
            Model::Impact(m) => m.param(index),
            Model::ShieldHit(m) => m.param(index),
            Model::Pickup(m) => m.param(index),
            Model::Boost(m) => m.param(index),
            Model::Quake(m) => m.param(index),
            Model::Emp(m) => m.param(index),
            Model::Airbrake(m) => m.param(index),
            Model::Beep(m) => m.param(index),
            Model::Laser(m) => m.param(index),
            Model::MineDrop(m) => m.param(index),
            Model::MineBlast(m) => m.param(index),
            Model::LockOn(m) => m.param(index),
            Model::ShieldUp(m) => m.param(index),
        }
    }

    /// Jump all smoothing/inertia straight to the current inputs (e.g. spawning mid-flight).
    pub fn snap<F: Fn(Prim, Single, Single) -> Single>(&mut self, fpu: &F)
        requires
            total(*fpu),
            old(self).wf(),
        ensures
            final(self).wf(),
            final(self).shown() == old(self).shown(),
            forall|f: Sums| #[trigger] meant(*fpu, f) ==> final(self)@ == old(self)@.snapped(f),
    {
        match self {
            Model::Jet(m) => m.snap(fpu),
            Model::Hover(m) => m.snap(fpu),
            Model::Combustion(m) => m.snap(fpu),
            Model::Motor(m) => m.snap(fpu),
            Model::Rotor(m) => m.snap(fpu),
            Model::Wind(m) => m.snap(fpu),
            Model::Rain(m) => m.snap(fpu),
            Model::Fire(m) => m.snap(fpu),
            Model::Stream(m) => m.snap(fpu),
            Model::Ocean(m) => m.snap(fpu),
            Model::Electric(m) => m.snap(fpu),
            Model::Drone(m) => m.snap(fpu),
            Model::Crowd(m) => m.snap(fpu),
            Model::Radio(m) => m.snap(fpu),
            Model::Siren(m) => m.snap(fpu),
            Model::Explosion(m) => m.snap(fpu),
            Model::Rocket(m) => m.snap(fpu),
            Model::Plasma(m) => m.snap(fpu),
            Model::Cannon(m) => m.snap(fpu),
            Model::Impact(m) => m.snap(fpu),
            Model::ShieldHit(m) => m.snap(fpu),
            Model::Pickup(m) => m.snap(fpu),
            Model::Boost(m) => m.snap(fpu),
            Model::Quake(m) => m.snap(fpu),
            Model::Emp(m) => m.snap(fpu),
            Model::Airbrake(m) => m.snap(fpu),
            Model::Beep(m) => m.snap(fpu),
            Model::Laser(m) => m.snap(fpu),
            Model::MineDrop(m) => m.snap(fpu),
            Model::MineBlast(m) => m.snap(fpu),
            Model::LockOn(m) => m.snap(fpu),
            Model::ShieldUp(m) => m.snap(fpu),
        }
    }

    /// Render mono audio into `out`, overwriting it.
    pub fn render_mono<F: Fn(Prim, Single, Single) -> Single>(&mut self, fpu: &F, out: &mut Vec<Single>)
        requires
            total(*fpu),
            old(self).wf(),
        ensures
            final(self).wf(),
            final(self).shown() == old(self).shown(),
            final(out)@.len() == old(out)@.len(),
            forall|f: Sums| #[trigger] meant(*fpu, f) ==> (final(self)@, final(out)@) == old(self)@.rendered(f, old(out)@),
    {
        match self {
            Model::Jet(m) => m.render_mono(fpu, out),
            Model::Hover(m) => m.render_mono(fpu, out),
            Model::Combustion(m) => m.render_mono(fpu, out),
            Model::Motor(m) => m.render_mono(fpu, out),
            Model::Rotor(m) => m.render_mono(fpu, out),
            Model::Wind(m) => m.render_mono(fpu, out),
            Model::Rain(m) => m.render_mono(fpu, out),
            Model::Fire(m) => m.render_mono(fpu, out),
            Model::Stream(m) => m.render_mono(fpu, out),
            Model::Ocean(m) => m.render_mono(fpu, out),
            Model::Electric(m) => m.render_mono(fpu, out),
            Model::Drone(m) => m.render_mono(fpu, out),
            Model::Crowd(m) => m.render_mono(fpu, out),
            Model::Radio(m) => m.render_mono(fpu, out),
            Model::Siren(m) => m.render_mono(fpu, out),
            Model::Explosion(m) => m.render_mono(fpu, out),
            Model::Rocket(m) => m.render_mono(fpu, out),
            Model::Plasma(m) => m.render_mono(fpu, out),
            Model::Cannon(m) => m.render_mono(fpu, out),
            Model::Impact(m) => m.render_mono(fpu, out),
            Model::ShieldHit(m) => m.render_mono(fpu, out),
            Model::Pickup(m) => m.render_mono(fpu, out),
            Model::Boost(m) => m.render_mono(fpu, out),
            Model::Quake(m) => m.render_mono(fpu, out),
            Model::Emp(m) => m.render_mono(fpu, out),
            Model::Airbrake(m) => m.render_mono(fpu, out),
            Model::Beep(m) => m.render_mono(fpu, out),
            Model::Laser(m) => m.render_mono(fpu, out),
            Model::MineDrop(m) => m.render_mono(fpu, out),
            Model::MineBlast(m) => m.render_mono(fpu, out),
            Model::LockOn(m) => m.render_mono(fpu, out),
            Model::ShieldUp(m) => m.render_mono(fpu, out),
        }
    }

    /// Fire an event with its current inputs; a continuous sound just goes on.
    pub fn trigger<F: Fn(Prim, Single, Single) -> Single>(&mut self, fpu: &F)
        requires
            total(*fpu),
            old(self).wf(),
        ensures
            final(self).wf(),
            final(self).shown() == old(self).shown(),
            forall|f: Sums| #[trigger] meant(*fpu, f) ==> final(self)@ == old(self)@.fired(f),
    {
        match self {
            Model::Jet(m) => m.trigger(fpu),
            Model::Hover(m) => m.trigger(fpu),
            Model::Combustion(m) => m.trigger(fpu),
            Model::Motor(m) => m.trigger(fpu),
            Model::Rotor(m) => m.trigger(fpu),
            Model::Wind(m) => m.trigger(fpu),
            Model::Rain(m) => m.trigger(fpu),
            Model::Fire(m) => m.trigger(fpu),
            Model::Stream(m) => m.trigger(fpu),
            Model::Ocean(m) => m.trigger(fpu),
            Model::Electric(m) => m.trigger(fpu),
            Model::Drone(m) => m.trigger(fpu),
            Model::Crowd(m) => m.trigger(fpu),
            Model::Radio(m) => m.trigger(fpu),
            Model::Siren(m) => m.trigger(fpu),
            Model::Explosion(m) => m.trigger(fpu),
            Model::Rocket(m) => m.trigger(fpu),
            Model::Plasma(m) => m.trigger(fpu),
            Model::Cannon(m) => m.trigger(fpu),
            Model::Impact(m) => m.trigger(fpu),
            Model::ShieldHit(m) => m.trigger(fpu),
            Model::Pickup(m) => m.trigger(fpu),
            Model::Boost(m) => m.trigger(fpu),
            Model::Quake(m) => m.trigger(fpu),
            Model::Emp(m) => m.trigger(fpu),
            Model::Airbrake(m) => m.trigger(fpu),
            Model::Beep(m) => m.trigger(fpu),
            Model::Laser(m) => m.trigger(fpu),
            Model::MineDrop(m) => m.trigger(fpu),
            Model::MineBlast(m) => m.trigger(fpu),
            Model::LockOn(m) => m.trigger(fpu),
            Model::ShieldUp(m) => m.trigger(fpu),
        }
    }

    /// Whether an event was not fired yet, or has rung out.
    pub fn is_finished(&self) -> (r: bool)
        requires
            self.wf(),
        ensures
            r == self@.finished(),
    {
        match self {
            Model::Jet(m) => m.is_finished(),
            Model::Hover(m) => m.is_finished(),
            Model::Combustion(m) => m.is_finished(),
            Model::Motor(m) => m.is_finished(),
            Model::Rotor(m) => m.is_finished(),
            Model::Wind(m) => m.is_finished(),
            Model::Rain(m) => m.is_finished(),
            Model::Fire(m) => m.is_finished(),
            Model::Stream(m) => m.is_finished(),
            Model::Ocean(m) => m.is_finished(),
            Model::Electric(m) => m.is_finished(),
            Model::Drone(m) => m.is_finished(),
            Model::Crowd(m) => m.is_finished(),
            Model::Radio(m) => m.is_finished(),
            Model::Siren(m) => m.is_finished(),
            Model::Explosion(m) => m.is_finished(),
            Model::Rocket(m) => m.is_finished(),
            Model::Plasma(m) => m.is_finished(),
            Model::Cannon(m) => m.is_finished(),
            Model::Impact(m) => m.is_finished(),
            Model::ShieldHit(m) => m.is_finished(),
            Model::Pickup(m) => m.is_finished(),
            Model::Boost(m) => m.is_finished(),
            Model::Quake(m) => m.is_finished(),
            Model::Emp(m) => m.is_finished(),
            Model::Airbrake(m) => m.is_finished(),
            Model::Beep(m) => m.is_finished(),
            Model::Laser(m) => m.is_finished(),
            Model::MineDrop(m) => m.is_finished(),
            Model::MineBlast(m) => m.is_finished(),
            Model::LockOn(m) => m.is_finished(),
            Model::ShieldUp(m) => m.is_finished(),
        }
    }

    /// Whether it is an event: silent until it is fired.
    pub fn is_one_shot(&self) -> (r: bool)
        requires
            self.wf(),
        ensures
            r == self@.one_shot(),
    {
        match self {
            Model::Jet(m) => m.is_one_shot(),
            Model::Hover(m) => m.is_one_shot(),
            Model::Combustion(m) => m.is_one_shot(),
            Model::Motor(m) => m.is_one_shot(),
            Model::Rotor(m) => m.is_one_shot(),
            Model::Wind(m) => m.is_one_shot(),
            Model::Rain(m) => m.is_one_shot(),
            Model::Fire(m) => m.is_one_shot(),
            Model::Stream(m) => m.is_one_shot(),
            Model::Ocean(m) => m.is_one_shot(),
            Model::Electric(m) => m.is_one_shot(),
            Model::Drone(m) => m.is_one_shot(),
            Model::Crowd(m) => m.is_one_shot(),
            Model::Radio(m) => m.is_one_shot(),
            Model::Siren(m) => m.is_one_shot(),
            Model::Explosion(m) => m.is_one_shot(),
            Model::Rocket(m) => m.is_one_shot(),
            Model::Plasma(m) => m.is_one_shot(),
            Model::Cannon(m) => m.is_one_shot(),
            Model::Impact(m) => m.is_one_shot(),
            Model::ShieldHit(m) => m.is_one_shot(),
            Model::Pickup(m) => m.is_one_shot(),
            Model::Boost(m) => m.is_one_shot(),
            Model::Quake(m) => m.is_one_shot(),
            Model::Emp(m) => m.is_one_shot(),
            Model::Airbrake(m) => m.is_one_shot(),
            Model::Beep(m) => m.is_one_shot(),
            Model::Laser(m) => m.is_one_shot(),
            Model::MineDrop(m) => m.is_one_shot(),
            Model::MineBlast(m) => m.is_one_shot(),
            Model::LockOn(m) => m.is_one_shot(),
            Model::ShieldUp(m) => m.is_one_shot(),
        }
    }

    /// Recent output peak 0..1, decays over ~250 ms.
    pub fn peak(&self) -> (r: Single)
        requires
            self.wf(),
        ensures
            r == self@.peak(),
    {
        match self {
            Model::Jet(m) => m.peak(),
            Model::Hover(m) => m.peak(),
            Model::Combustion(m) => m.peak(),
            Model::Motor(m) => m.peak(),
            Model::Rotor(m) => m.peak(),
            Model::Wind(m) => m.peak(),
            Model::Rain(m) => m.peak(),
            Model::Fire(m) => m.peak(),
            Model::Stream(m) => m.peak(),
            Model::Ocean(m) => m.peak(),
            Model::Electric(m) => m.peak(),
            Model::Drone(m) => m.peak(),
            Model::Crowd(m) => m.peak(),
            Model::Radio(m) => m.peak(),
            Model::Siren(m) => m.peak(),
            Model::Explosion(m) => m.peak(),
            Model::Rocket(m) => m.peak(),
            Model::Plasma(m) => m.peak(),
            Model::Cannon(m) => m.peak(),
            Model::Impact(m) => m.peak(),
            Model::ShieldHit(m) => m.peak(),
            Model::Pickup(m) => m.peak(),
            Model::Boost(m) => m.peak(),
            Model::Quake(m) => m.peak(),
            Model::Emp(m) => m.peak(),
            Model::Airbrake(m) => m.peak(),
            Model::Beep(m) => m.peak(),
            Model::Laser(m) => m.peak(),
            Model::MineDrop(m) => m.peak(),
            Model::MineBlast(m) => m.peak(),
            Model::LockOn(m) => m.peak(),
            Model::ShieldUp(m) => m.peak(),
        }
    }

    pub fn sample_rate(&self) -> (r: Single)
        requires
            self.wf(),
        ensures
            r == self@.sample_rate(),
    {
        match self {
            Model::Jet(m) => m.sample_rate(),
            Model::Hover(m) => m.sample_rate(),
            Model::Combustion(m) => m.sample_rate(),
            Model::Motor(m) => m.sample_rate(),
            Model::Rotor(m) => m.sample_rate(),
            Model::Wind(m) => m.sample_rate(),
            Model::Rain(m) => m.sample_rate(),
            Model::Fire(m) => m.sample_rate(),
            Model::Stream(m) => m.sample_rate(),
            Model::Ocean(m) => m.sample_rate(),
            Model::Electric(m) => m.sample_rate(),
            Model::Drone(m) => m.sample_rate(),
            Model::Crowd(m) => m.sample_rate(),
            Model::Radio(m) => m.sample_rate(),
            Model::Siren(m) => m.sample_rate(),
            Model::Explosion(m) => m.sample_rate(),
            Model::Rocket(m) => m.sample_rate(),
            Model::Plasma(m) => m.sample_rate(),
            Model::Cannon(m) => m.sample_rate(),
            Model::Impact(m) => m.sample_rate(),
            Model::ShieldHit(m) => m.sample_rate(),
            Model::Pickup(m) => m.sample_rate(),
            Model::Boost(m) => m.sample_rate(),
            Model::Quake(m) => m.sample_rate(),
            Model::Emp(m) => m.sample_rate(),
            Model::Airbrake(m) => m.sample_rate(),
            Model::Beep(m) => m.sample_rate(),
            Model::Laser(m) => m.sample_rate(),
            Model::MineDrop(m) => m.sample_rate(),
            Model::MineBlast(m) => m.sample_rate(),
            Model::LockOn(m) => m.sample_rate(),
            Model::ShieldUp(m) => m.sample_rate(),
        }
    }

    /// Set every parameter to its value in a preset; whether there is one.
    #[verifier::rlimit(60)]
    #[verifier::spinoff_prover]
    pub fn load_preset(&mut self, index: usize) -> (r: bool)
        requires
            old(self).wf(),
        ensures
            final(self).wf(),
            final(self).shown() == old(self).shown(),
            r == (index < old(self)@.preset_count()),
            final(self)@ == old(self)@.with_preset(index as int),
    {
        match self {
            Model::Jet(m) => m.load_preset(index),
            Model::Hover(m) => m.load_preset(index),
            Model::Combustion(m) => m.load_preset(index),
            Model::Motor(m) => m.load_preset(index),
            Model::Rotor(m) => m.load_preset(index),
            Model::Wind(m) => m.load_preset(index),
            Model::Rain(m) => m.load_preset(index),
            Model::Fire(m) => m.load_preset(index),
            Model::Stream(m) => m.load_preset(index),
            Model::Ocean(m) => m.load_preset(index),
            Model::Electric(m) => m.load_preset(index),
            Model::Drone(m) => m.load_preset(index),
            Model::Crowd(m) => m.load_preset(index),
            Model::Radio(m) => m.load_preset(index),
            Model::Siren(m) => m.load_preset(index),
            Model::Explosion(m) => m.load_preset(index),
            Model::Rocket(m) => m.load_preset(index),
            Model::Plasma(m) => m.load_preset(index),
            Model::Cannon(m) => m.load_preset(index),
            Model::Impact(m) => m.load_preset(index),
            Model::ShieldHit(m) => m.load_preset(index),
            Model::Pickup(m) => m.load_preset(index),
            Model::Boost(m) => m.load_preset(index),
            Model::Quake(m) => m.load_preset(index),
            Model::Emp(m) => m.load_preset(index),
            Model::Airbrake(m) => m.load_preset(index),
            Model::Beep(m) => m.load_preset(index),
            Model::Laser(m) => m.load_preset(index),
            Model::MineDrop(m) => m.load_preset(index),
            Model::MineBlast(m) => m.load_preset(index),
            Model::LockOn(m) => m.load_preset(index),
            Model::ShieldUp(m) => m.load_preset(index),
        }
    }

    pub fn params_vec(&self) -> (r: Vec<Single>)
        requires
            self.wf(),
        ensures
            r@ == self@.params(),
    {
        match self {
            Model::Jet(m) => m.params_vec(),
            Model::Hover(m) => m.params_vec(),
            Model::Combustion(m) => m.params_vec(),
            Model::Motor(m) => m.params_vec(),
            Model::Rotor(m) => m.params_vec(),
            Model::Wind(m) => m.params_vec(),
            Model::Rain(m) => m.params_vec(),
            Model::Fire(m) => m.params_vec(),
            Model::Stream(m) => m.params_vec(),
            Model::Ocean(m) => m.params_vec(),
            Model::Electric(m) => m.params_vec(),
            Model::Drone(m) => m.params_vec(),
            Model::Crowd(m) => m.params_vec(),
            Model::Radio(m) => m.params_vec(),
            Model::Siren(m) => m.params_vec(),
            Model::Explosion(m) => m.params_vec(),
            Model::Rocket(m) => m.params_vec(),
            Model::Plasma(m) => m.params_vec(),
            Model::Cannon(m) => m.params_vec(),
            Model::Impact(m) => m.params_vec(),
            Model::ShieldHit(m) => m.params_vec(),
            Model::Pickup(m) => m.params_vec(),
            Model::Boost(m) => m.params_vec(),
            Model::Quake(m) => m.params_vec(),
            Model::Emp(m) => m.params_vec(),
            Model::Airbrake(m) => m.params_vec(),
            Model::Beep(m) => m.params_vec(),
            Model::Laser(m) => m.params_vec(),
            Model::MineDrop(m) => m.params_vec(),
            Model::MineBlast(m) => m.params_vec(),
            Model::LockOn(m) => m.params_vec(),
            Model::ShieldUp(m) => m.params_vec(),
        }
    }
}

/// First place of a name in a list.
pub open spec fn place_of(names: Seq<Seq<char>>, name: Seq<char>) -> Option<int> {
    if exists|i: int| first_at(names, name, i) {
        Some(choose|i: int| first_at(names, name, i))
    } else {
        None
    }
}

/// A name stands at a place and at none before it.
pub open spec fn first_at(names: Seq<Seq<char>>, name: Seq<char>, i: int) -> bool {
    &&& 0 <= i < names.len()
    &&& names[i] == name
    &&& forall|k: int| 0 <= k < i ==> #[trigger] names[k] != name
}

/// A name has at most one first place.
proof fn lemma_first_place(names: Seq<Seq<char>>, name: Seq<char>, i: int)
    requires
        first_at(names, name, i),
    ensures
        place_of(names, name) == Some(i),
{
    let j = choose|j: int| first_at(names, name, j);
    assert(first_at(names, name, j));
    assert(names[i] == name && names[j] == name);
}

impl Sound {
    /// Names of the inputs.
    pub open spec fn input_names(self) -> Seq<Seq<char>> {
        match self {
            Sound::Jet => Jet::input_list().map_values(|i: crate::native::InputView| i.name),
            Sound::Hover => Hover::input_list().map_values(|i: crate::native::InputView| i.name),
            Sound::Combustion => Combustion::input_list().map_values(|i: crate::native::InputView| i.name),
            Sound::Motor => Motor::input_list().map_values(|i: crate::native::InputView| i.name),
            Sound::Rotor => Rotor::input_list().map_values(|i: crate::native::InputView| i.name),
            Sound::Wind => Wind::input_list().map_values(|i: crate::native::InputView| i.name),
            Sound::Rain => Rain::input_list().map_values(|i: crate::native::InputView| i.name),
            Sound::Fire => Fire::input_list().map_values(|i: crate::native::InputView| i.name),
            Sound::Stream => Stream::input_list().map_values(|i: crate::native::InputView| i.name),
            Sound::Ocean => Ocean::input_list().map_values(|i: crate::native::InputView| i.name),
            Sound::Electric => Electric::input_list().map_values(|i: crate::native::InputView| i.name),
            Sound::Drone => Drone::input_list().map_values(|i: crate::native::InputView| i.name),
            Sound::Crowd => Crowd::input_list().map_values(|i: crate::native::InputView| i.name),
            Sound::Radio => Radio::input_list().map_values(|i: crate::native::InputView| i.name),
            Sound::Siren => Siren::input_list().map_values(|i: crate::native::InputView| i.name),
            Sound::Explosion => OneShot::<0>::input_list().map_values(|i: crate::native::InputView| i.name),
            Sound::Rocket => OneShot::<1>::input_list().map_values(|i: crate::native::InputView| i.name),
            Sound::Plasma => OneShot::<2>::input_list().map_values(|i: crate::native::InputView| i.name),
            Sound::Cannon => OneShot::<3>::input_list().map_values(|i: crate::native::InputView| i.name),
            Sound::Impact => OneShot::<4>::input_list().map_values(|i: crate::native::InputView| i.name),
            Sound::ShieldHit => OneShot::<5>::input_list().map_values(|i: crate::native::InputView| i.name),
            Sound::Pickup => OneShot::<6>::input_list().map_values(|i: crate::native::InputView| i.name),
            Sound::Boost => OneShot::<7>::input_list().map_values(|i: crate::native::InputView| i.name),
            Sound::Quake => OneShot::<8>::input_list().map_values(|i: crate::native::InputView| i.name),
            Sound::Emp => OneShot::<9>::input_list().map_values(|i: crate::native::InputView| i.name),
            Sound::Airbrake => OneShot::<10>::input_list().map_values(|i: crate::native::InputView| i.name),
            Sound::Beep => OneShot::<11>::input_list().map_values(|i: crate::native::InputView| i.name),
            Sound::Laser => OneShot::<12>::input_list().map_values(|i: crate::native::InputView| i.name),
            Sound::MineDrop => OneShot::<13>::input_list().map_values(|i: crate::native::InputView| i.name),
            Sound::MineBlast => OneShot::<14>::input_list().map_values(|i: crate::native::InputView| i.name),
            Sound::LockOn => OneShot::<15>::input_list().map_values(|i: crate::native::InputView| i.name),
            Sound::ShieldUp => OneShot::<16>::input_list().map_values(|i: crate::native::InputView| i.name),
        }
    }

    /// Names of the parameters.
    pub open spec fn param_names(self) -> Seq<Seq<char>> {
        match self {
            Sound::Jet => crate::native::labels_of::<crate::jet::JetParams>(),
            Sound::Hover => crate::native::labels_of::<crate::generators::vehicles::HoverParams>(),
            Sound::Combustion => crate::native::labels_of::<crate::generators::vehicles::CombustionParams>(),
            Sound::Motor => crate::native::labels_of::<crate::generators::vehicles::MotorParams>(),
            Sound::Rotor => crate::native::labels_of::<crate::generators::vehicles::RotorParams>(),
            Sound::Wind => crate::native::labels_of::<crate::generators::nature::WindParams>(),
            Sound::Rain => crate::native::labels_of::<crate::generators::nature::RainParams>(),
            Sound::Fire => crate::native::labels_of::<crate::generators::nature::FireParams>(),
            Sound::Stream => crate::native::labels_of::<crate::generators::nature::StreamParams>(),
            Sound::Ocean => crate::native::labels_of::<crate::generators::nature::OceanParams>(),
            Sound::Electric => crate::native::labels_of::<crate::generators::ambient::ElectricParams>(),
            Sound::Drone => crate::native::labels_of::<crate::generators::ambient::DroneParams>(),
            Sound::Crowd => crate::native::labels_of::<crate::generators::ambient::CrowdParams>(),
            Sound::Radio => crate::native::labels_of::<crate::generators::ambient::RadioParams>(),
            Sound::Siren => crate::native::labels_of::<crate::generators::ambient::SirenParams>(),
            Sound::Explosion => crate::native::labels_of::<crate::generators::fx::FxParams>(),
            Sound::Rocket => crate::native::labels_of::<crate::generators::fx::FxParams>(),
            Sound::Plasma => crate::native::labels_of::<crate::generators::fx::FxParams>(),
            Sound::Cannon => crate::native::labels_of::<crate::generators::fx::FxParams>(),
            Sound::Impact => crate::native::labels_of::<crate::generators::fx::FxParams>(),
            Sound::ShieldHit => crate::native::labels_of::<crate::generators::fx::FxParams>(),
            Sound::Pickup => crate::native::labels_of::<crate::generators::fx::FxParams>(),
            Sound::Boost => crate::native::labels_of::<crate::generators::fx::FxParams>(),
            Sound::Quake => crate::native::labels_of::<crate::generators::fx::FxParams>(),
            Sound::Emp => crate::native::labels_of::<crate::generators::fx::FxParams>(),
            Sound::Airbrake => crate::native::labels_of::<crate::generators::fx::FxParams>(),
            Sound::Beep => crate::native::labels_of::<crate::generators::fx::FxParams>(),
            Sound::Laser => crate::native::labels_of::<crate::generators::fx::FxParams>(),
            Sound::MineDrop => crate::native::labels_of::<crate::generators::fx::FxParams>(),
            Sound::MineBlast => crate::native::labels_of::<crate::generators::fx::FxParams>(),
            Sound::LockOn => crate::native::labels_of::<crate::generators::fx::FxParams>(),
            Sound::ShieldUp => crate::native::labels_of::<crate::generators::fx::FxParams>(),
        }
    }
}

impl Model {
    /// Set the input with a name; whether there is one.
    pub fn set_input_by_name(&mut self, name: &str, value: Single) -> (r: bool)
        requires
            old(self).wf(),
        ensures
            final(self).wf(),
            final(self).shown() == old(self).shown(),
            match place_of(old(self)@.sound().input_names(), name@) {
                Some(i) => r && final(self)@ == old(self)@.with_input(i, value),
                None => !r && final(self)@ == old(self)@,
            },
    {
        proof {
            reveal(crate::native::describes);
        }
        let ghost names = self@.sound().input_names();
        let found = self.desc().input_index(name);
        proof {
            let d = self.shown();
            assert(d.inputs@.len() == names.len());
            assert(forall|i: int| 0 <= i < names.len() ==> #[trigger] names[i] == d.inputs@[i].name@);
            match found {
                Some(i) => {
                    assert(names[i as int] == d.inputs@[i as int].name@);
                    lemma_first_place(names, name@, i as int);
                },
                None => {},
            }
        }
        match found {
            Some(i) => {
                self.set_input(i, value);
                true
            },
            None => false,
        }
    }

    /// Set the parameter with a name; whether there is one.
    pub fn set_param_by_name(&mut self, name: &str, value: Single) -> (r: bool)
        requires
            old(self).wf(),
        ensures
            final(self).wf(),
            final(self).shown() == old(self).shown(),
            match place_of(old(self)@.sound().param_names(), name@) {
                Some(i) => r && final(self)@ == old(self)@.with_param(i, value),
                None => !r && final(self)@ == old(self)@,
            },
    {
        proof {
            reveal(crate::native::describes);
        }
        let ghost names = self@.sound().param_names();
        let found = self.desc().param_index(name);
        proof {
            let d = self.shown();
            assert(d.params@.len() == names.len());
            assert(forall|i: int| 0 <= i < names.len() ==> #[trigger] names[i] == d.params@[i].name@);
            match found {
                Some(i) => {
                    assert(names[i as int] == d.params@[i as int].name@);
                    lemma_first_place(names, name@, i as int);
                },
                None => {},
            }
        }
        match found {
            Some(i) => {
                self.set_param(i, value);
                true
            },
            None => false,
        }
    }

    /// The description kept with the model.
    pub open spec fn shown(self) -> ModelDesc {
        match self {
            Model::Jet(m) => m.desc,
            Model::Hover(m) => m.desc,
            Model::Combustion(m) => m.desc,
            Model::Motor(m) => m.desc,
            Model::Rotor(m) => m.desc,
            Model::Wind(m) => m.desc,
            Model::Rain(m) => m.desc,
            Model::Fire(m) => m.desc,
            Model::Stream(m) => m.desc,
            Model::Ocean(m) => m.desc,
            Model::Electric(m) => m.desc,
            Model::Drone(m) => m.desc,
            Model::Crowd(m) => m.desc,
            Model::Radio(m) => m.desc,
            Model::Siren(m) => m.desc,
            Model::Explosion(m) => m.desc,
            Model::Rocket(m) => m.desc,
            Model::Plasma(m) => m.desc,
            Model::Cannon(m) => m.desc,
            Model::Impact(m) => m.desc,
            Model::ShieldHit(m) => m.desc,
            Model::Pickup(m) => m.desc,
            Model::Boost(m) => m.desc,
            Model::Quake(m) => m.desc,
            Model::Emp(m) => m.desc,
            Model::Airbrake(m) => m.desc,
            Model::Beep(m) => m.desc,
            Model::Laser(m) => m.desc,
            Model::MineDrop(m) => m.desc,
            Model::MineBlast(m) => m.desc,
            Model::LockOn(m) => m.desc,
            Model::ShieldUp(m) => m.desc,
        }
    }
}

/// Length and some letters of a name.
spec fn sound_sign(s: Sound) -> (int, char, char) {
    match s {
        Sound::Jet => (3, 'j', 'e'),
        Sound::Hover => (5, 'h', 'o'),
        Sound::Combustion => (10, 'c', 'o'),
        Sound::Motor => (5, 'm', 'o'),
        Sound::Rotor => (5, 'r', 'o'),
        Sound::Wind => (4, 'w', 'i'),
        Sound::Rain => (4, 'r', 'a'),
        Sound::Fire => (4, 'f', 'i'),
        Sound::Stream => (6, 's', 't'),
        Sound::Ocean => (5, 'o', 'c'),
        Sound::Electric => (8, 'e', 'l'),
        Sound::Drone => (5, 'd', 'r'),
        Sound::Crowd => (5, 'c', 'r'),
        Sound::Radio => (5, 'r', 'a'),
        Sound::Siren => (5, 's', 'i'),
        Sound::Explosion => (9, 'e', 'x'),
        Sound::Rocket => (6, 'r', 'o'),
        Sound::Plasma => (6, 'p', 'l'),
        Sound::Cannon => (6, 'c', 'a'),
        Sound::Impact => (6, 'i', 'm'),
        Sound::ShieldHit => (10, 's', 'h'),
        Sound::Pickup => (6, 'p', 'i'),
        Sound::Boost => (5, 'b', 'o'),
        Sound::Quake => (5, 'q', 'u'),
        Sound::Emp => (3, 'e', 'm'),
        Sound::Airbrake => (8, 'a', 'i'),
        Sound::Beep => (4, 'b', 'e'),
        Sound::Laser => (5, 'l', 'a'),
        Sound::MineDrop => (9, 'm', 'i'),
        Sound::MineBlast => (10, 'm', 'i'),
        Sound::LockOn => (7, 'l', 'o'),
        Sound::ShieldUp => (9, 's', 'h'),
    }
}

#[verifier::rlimit(60)]
proof fn lemma_sound_sign(s: Sound)
    ensures
        s.label().len() == sound_sign(s).0,
        sound_sign(s).0 > 0 ==> s.label()[0] == sound_sign(s).1,
        sound_sign(s).0 > 1 ==> s.label()[1] == sound_sign(s).2,
{
    reveal_strlit("jet");
    reveal_strlit("hover");
    reveal_strlit("combustion");
    reveal_strlit("motor");
    reveal_strlit("rotor");
    reveal_strlit("wind");
    reveal_strlit("rain");
    reveal_strlit("fire");
    reveal_strlit("stream");
    reveal_strlit("ocean");
    reveal_strlit("electric");
    reveal_strlit("drone");
    reveal_strlit("crowd");
    reveal_strlit("radio");
    reveal_strlit("siren");
    reveal_strlit("explosion");
    reveal_strlit("rocket");
    reveal_strlit("plasma");
    reveal_strlit("cannon");
    reveal_strlit("impact");
    reveal_strlit("shield_hit");
    reveal_strlit("pickup");
    reveal_strlit("boost");
    reveal_strlit("quake");
    reveal_strlit("emp");
    reveal_strlit("airbrake");
    reveal_strlit("beep");
    reveal_strlit("laser");
    reveal_strlit("mine_drop");
    reveal_strlit("mine_blast");
    reveal_strlit("lock_on");
    reveal_strlit("shield_up");
}

/// Rendering overwrites: what the buffer held before does not matter.
#[verifier::spinoff_prover]
pub proof fn lemma_model_overwrites(m: ModelView, f: Sums, x: Seq<Single>, y: Seq<Single>)
    requires
        x.len() == y.len(),
    ensures
        m.rendered(f, x) == m.rendered(f, y),
        m.rendered(f, x).1.len() == x.len(),
{
    match m {
        ModelView::Jet(s) => crate::native::lemma_render_overwrites(s, f, x, y),
        ModelView::Hover(s) => crate::native::lemma_render_overwrites(s, f, x, y),
        ModelView::Combustion(s) => crate::native::lemma_render_overwrites(s, f, x, y),
        ModelView::Motor(s) => crate::native::lemma_render_overwrites(s, f, x, y),
        ModelView::Rotor(s) => crate::native::lemma_render_overwrites(s, f, x, y),
        ModelView::Wind(s) => crate::native::lemma_render_overwrites(s, f, x, y),
        ModelView::Rain(s) => crate::native::lemma_render_overwrites(s, f, x, y),
        ModelView::Fire(s) => crate::native::lemma_render_overwrites(s, f, x, y),
        ModelView::Stream(s) => crate::native::lemma_render_overwrites(s, f, x, y),
        ModelView::Ocean(s) => crate::native::lemma_render_overwrites(s, f, x, y),
        ModelView::Electric(s) => crate::native::lemma_render_overwrites(s, f, x, y),
        ModelView::Drone(s) => crate::native::lemma_render_overwrites(s, f, x, y),
        ModelView::Crowd(s) => crate::native::lemma_render_overwrites(s, f, x, y),
        ModelView::Radio(s) => crate::native::lemma_render_overwrites(s, f, x, y),
        ModelView::Siren(s) => crate::native::lemma_render_overwrites(s, f, x, y),
        ModelView::Explosion(s) => crate::native::lemma_render_overwrites(s, f, x, y),
        ModelView::Rocket(s) => crate::native::lemma_render_overwrites(s, f, x, y),
        ModelView::Plasma(s) => crate::native::lemma_render_overwrites(s, f, x, y),
        ModelView::Cannon(s) => crate::native::lemma_render_overwrites(s, f, x, y),
        ModelView::Impact(s) => crate::native::lemma_render_overwrites(s, f, x, y),
        ModelView::ShieldHit(s) => crate::native::lemma_render_overwrites(s, f, x, y),
        ModelView::Pickup(s) => crate::native::lemma_render_overwrites(s, f, x, y),
        ModelView::Boost(s) => crate::native::lemma_render_overwrites(s, f, x, y),
        ModelView::Quake(s) => crate::native::lemma_render_overwrites(s, f, x, y),
        ModelView::Emp(s) => crate::native::lemma_render_overwrites(s, f, x, y),
        ModelView::Airbrake(s) => crate::native::lemma_render_overwrites(s, f, x, y),
        ModelView::Beep(s) => crate::native::lemma_render_overwrites(s, f, x, y),
        ModelView::Laser(s) => crate::native::lemma_render_overwrites(s, f, x, y),
        ModelView::MineDrop(s) => crate::native::lemma_render_overwrites(s, f, x, y),
        ModelView::MineBlast(s) => crate::native::lemma_render_overwrites(s, f, x, y),
        ModelView::LockOn(s) => crate::native::lemma_render_overwrites(s, f, x, y),
        ModelView::ShieldUp(s) => crate::native::lemma_render_overwrites(s, f, x, y),
    }
}

/// Every sample of every model is a number within full scale.
#[verifier::spinoff_prover]
pub proof fn lemma_model_in_scale(m: ModelView, f: Sums, x: Seq<Single>, i: int)
    requires
        0 <= i < x.len(),
    ensures
        crate::math::in_scale(m.rendered(f, x).1[i]),
{
    lemma_model_overwrites(m, f, x, x);
    match m {
        ModelView::Jet(s) => {
            crate::generators::vehicles::lemma_jet_limits_itself(f);
            crate::native::lemma_native_in_scale(s, f, x, i);
        },
        ModelView::Hover(s) => crate::native::lemma_native_in_scale(s, f, x, i),
        ModelView::Combustion(s) => crate::native::lemma_native_in_scale(s, f, x, i),
        ModelView::Motor(s) => crate::native::lemma_native_in_scale(s, f, x, i),
        ModelView::Rotor(s) => crate::native::lemma_native_in_scale(s, f, x, i),
        ModelView::Wind(s) => crate::native::lemma_native_in_scale(s, f, x, i),
        ModelView::Rain(s) => crate::native::lemma_native_in_scale(s, f, x, i),
        ModelView::Fire(s) => crate::native::lemma_native_in_scale(s, f, x, i),
        ModelView::Stream(s) => crate::native::lemma_native_in_scale(s, f, x, i),
        ModelView::Ocean(s) => crate::native::lemma_native_in_scale(s, f, x, i),
        ModelView::Electric(s) => crate::native::lemma_native_in_scale(s, f, x, i),
        ModelView::Drone(s) => crate::native::lemma_native_in_scale(s, f, x, i),
        ModelView::Crowd(s) => crate::native::lemma_native_in_scale(s, f, x, i),
        ModelView::Radio(s) => crate::native::lemma_native_in_scale(s, f, x, i),
        ModelView::Siren(s) => crate::native::lemma_native_in_scale(s, f, x, i),
        ModelView::Explosion(s) => crate::native::lemma_native_in_scale(s, f, x, i),
        ModelView::Rocket(s) => crate::native::lemma_native_in_scale(s, f, x, i),
        ModelView::Plasma(s) => crate::native::lemma_native_in_scale(s, f, x, i),
        ModelView::Cannon(s) => crate::native::lemma_native_in_scale(s, f, x, i),
        ModelView::Impact(s) => crate::native::lemma_native_in_scale(s, f, x, i),
        ModelView::ShieldHit(s) => crate::native::lemma_native_in_scale(s, f, x, i),
        ModelView::Pickup(s) => crate::native::lemma_native_in_scale(s, f, x, i),
        ModelView::Boost(s) => crate::native::lemma_native_in_scale(s, f, x, i),
        ModelView::Quake(s) => crate::native::lemma_native_in_scale(s, f, x, i),
        ModelView::Emp(s) => crate::native::lemma_native_in_scale(s, f, x, i),
        ModelView::Airbrake(s) => crate::native::lemma_native_in_scale(s, f, x, i),
        ModelView::Beep(s) => crate::native::lemma_native_in_scale(s, f, x, i),
        ModelView::Laser(s) => crate::native::lemma_native_in_scale(s, f, x, i),
        ModelView::MineDrop(s) => crate::native::lemma_native_in_scale(s, f, x, i),
        ModelView::MineBlast(s) => crate::native::lemma_native_in_scale(s, f, x, i),
        ModelView::LockOn(s) => crate::native::lemma_native_in_scale(s, f, x, i),
        ModelView::ShieldUp(s) => crate::native::lemma_native_in_scale(s, f, x, i),
    }
}

/// Loading a preset of a model sets every parameter to what the description shows for it, and leaves
/// the inputs alone; an index past the end changes nothing.
#[verifier::spinoff_prover]
#[verifier::rlimit(60)]
pub proof fn lemma_model_preset_reads_back(m: Model, i: int, j: int)
    requires
        m.wf(),
        0 <= i,
        0 <= j < m.shown().params@.len(),
    ensures
        m@.preset_count() == m.shown().presets@.len(),
        m@.with_preset(i).inputs() == m@.inputs(),
        i < m.shown().presets@.len() ==> crate::native::reads_back(m.shown(), i, j, m@.with_preset(i).params()[j]),
        i >= m.shown().presets@.len() ==> m@.with_preset(i) == m@,
{
    match m {
        Model::Jet(n) => crate::native::lemma_native_preset_reads_back(n, i, j),
        Model::Hover(n) => crate::native::lemma_native_preset_reads_back(n, i, j),
        Model::Combustion(n) => crate::native::lemma_native_preset_reads_back(n, i, j),
        Model::Motor(n) => crate::native::lemma_native_preset_reads_back(n, i, j),
        Model::Rotor(n) => crate::native::lemma_native_preset_reads_back(n, i, j),
        Model::Wind(n) => crate::native::lemma_native_preset_reads_back(n, i, j),
        Model::Rain(n) => crate::native::lemma_native_preset_reads_back(n, i, j),
        Model::Fire(n) => crate::native::lemma_native_preset_reads_back(n, i, j),
        Model::Stream(n) => crate::native::lemma_native_preset_reads_back(n, i, j),
        Model::Ocean(n) => crate::native::lemma_native_preset_reads_back(n, i, j),
        Model::Electric(n) => crate::native::lemma_native_preset_reads_back(n, i, j),
        Model::Drone(n) => crate::native::lemma_native_preset_reads_back(n, i, j),
        Model::Crowd(n) => crate::native::lemma_native_preset_reads_back(n, i, j),
        Model::Radio(n) => crate::native::lemma_native_preset_reads_back(n, i, j),
        Model::Siren(n) => crate::native::lemma_native_preset_reads_back(n, i, j),
        Model::Explosion(n) => crate::native::lemma_native_preset_reads_back(n, i, j),
        Model::Rocket(n) => crate::native::lemma_native_preset_reads_back(n, i, j),
        Model::Plasma(n) => crate::native::lemma_native_preset_reads_back(n, i, j),
        Model::Cannon(n) => crate::native::lemma_native_preset_reads_back(n, i, j),
        Model::Impact(n) => crate::native::lemma_native_preset_reads_back(n, i, j),
        Model::ShieldHit(n) => crate::native::lemma_native_preset_reads_back(n, i, j),
        Model::Pickup(n) => crate::native::lemma_native_preset_reads_back(n, i, j),
        Model::Boost(n) => crate::native::lemma_native_preset_reads_back(n, i, j),
        Model::Quake(n) => crate::native::lemma_native_preset_reads_back(n, i, j),
        Model::Emp(n) => crate::native::lemma_native_preset_reads_back(n, i, j),
        Model::Airbrake(n) => crate::native::lemma_native_preset_reads_back(n, i, j),
        Model::Beep(n) => crate::native::lemma_native_preset_reads_back(n, i, j),
        Model::Laser(n) => crate::native::lemma_native_preset_reads_back(n, i, j),
        Model::MineDrop(n) => crate::native::lemma_native_preset_reads_back(n, i, j),
        Model::MineBlast(n) => crate::native::lemma_native_preset_reads_back(n, i, j),
        Model::LockOn(n) => crate::native::lemma_native_preset_reads_back(n, i, j),
        Model::ShieldUp(n) => crate::native::lemma_native_preset_reads_back(n, i, j),
    }
}

/// Names tell the generators apart, whatever their case: each is found by its own name only.
#[verifier::rlimit(60)]
pub proof fn lemma_sound_names_differ(a: Sound, b: Sound)
    requires
        crate::text::same_word(a.label(), b.label()),
    ensures
        a == b,
{
    lemma_sound_sign(a);
    lemma_sound_sign(b);
    if a.label().len() > 0 {
        assert(crate::text::ascii_lower(a.label()[0]) == crate::text::ascii_lower(b.label()[0]));
    }
    if a.label().len() > 1 {
        assert(crate::text::ascii_lower(a.label()[1]) == crate::text::ascii_lower(b.label()[1]));
    }
}

} // verus!
