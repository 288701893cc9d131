//! Noise sources.
use vstd::prelude::*;

use crate::arith::{meant, total, Prim, Sums};
use crate::math::Rng;
use crate::single::{Single, ZERO};

verus! {

/// Pattern of -0.7616.
pub const N0_7616: u32 = 0xbf42_f838;

/// Pattern of 0.016898.
pub const P0_016898: u32 = 0x3c8a_6dad;

/// Pattern of 0.0555179.
pub const P0_0555179: u32 = 0x3d63_66bd;

/// Pattern of 0.0750759.
pub const P0_0750759: u32 = 0x3d99_c165;

/// Pattern of 0.11.
pub const P0_11: u32 = 0x3de1_47ae;

/// Pattern of 0.115926.
pub const P0_115926: u32 = 0x3ded_6a9c;

/// Pattern of 0.153852.
pub const P0_153852: u32 = 0x3e1d_8b61;

/// Pattern of 0.3104856.
pub const P0_3104856: u32 = 0x3e9e_f7f8;

/// Pattern of 0.5329522.
pub const P0_5329522: u32 = 0x3f08_6f8e;

/// Pattern of 0.5362.
pub const P0_5362: u32 = 0x3f09_4467;

/// Pattern of 0.55.
pub const P0_55: u32 = 0x3f0c_cccd;

/// Pattern of 0.8665.
pub const P0_8665: u32 = 0x3f5d_d2f2;

/// Pattern of 0.969.
pub const P0_969: u32 = 0x3f78_1062;

/// Pattern of 0.99332.
pub const P0_99332: u32 = 0x3f7e_4a38;

/// Pattern of 0.99886.
pub const P0_99886: u32 = 0x3f7f_b54a;

/// Pink (1/f) noise via a refined filter bank applied to white noise.
#[derive(Clone, Copy, Debug, PartialEq, Eq, Structural)]
pub struct Pink {
    pub b0: Single,
    pub b1: Single,
    pub b2: Single,
    pub b3: Single,
    pub b4: Single,
    pub b5: Single,
    pub b6: Single,
}

impl Default for Pink {
    fn default() -> (r: Pink)
        ensures
            r == Pink::silent(),
    {
        let z = Single::of(ZERO);
        Pink { b0: z, b1: z, b2: z, b3: z, b4: z, b5: z, b6: z }
    }
}

impl Pink {
    pub open spec fn silent() -> Pink {
        let z = Single::of(ZERO);
        Pink { b0: z, b1: z, b2: z, b3: z, b4: z, b5: z, b6: z }
    }

    /// The filter bank after a sample of white noise.
    pub open spec fn fed(self, f: Sums, white: Single) -> Pink {
        Pink {
            b0: f(Prim::Add, f(Prim::Mul, Single::of(P0_99886), self.b0), f(Prim::Mul, white, Single::of(P0_0555179))),
            b1: f(Prim::Add, f(Prim::Mul, Single::of(P0_99332), self.b1), f(Prim::Mul, white, Single::of(P0_0750759))),
            b2: f(Prim::Add, f(Prim::Mul, Single::of(P0_969), self.b2), f(Prim::Mul, white, Single::of(P0_153852))),
            b3: f(Prim::Add, f(Prim::Mul, Single::of(P0_8665), self.b3), f(Prim::Mul, white, Single::of(P0_3104856))),
            b4: f(Prim::Add, f(Prim::Mul, Single::of(P0_55), self.b4), f(Prim::Mul, white, Single::of(P0_5329522))),
            b5: f(Prim::Sub, f(Prim::Mul, Single::of(N0_7616), self.b5), f(Prim::Mul, white, Single::of(P0_016898))),
            b6: f(Prim::Mul, white, Single::of(P0_115926)),
        }
    }

    /// Output for that sample: the bank's sum, with the last filter one sample behind.
    pub open spec fn output(self, f: Sums, white: Single) -> Single {
        let n = self.fed(f, white);
        f(Prim::Mul, f(Prim::Add, f(Prim::Add, f(Prim::Add, f(Prim::Add, f(Prim::Add, f(Prim::Add, f(Prim::Add, n.b0, n.b1), n.b2), n.b3), n.b4), n.b5), self.b6), f(Prim::Mul, white, Single::of(P0_5362))), Single::of(P0_11))
    }

    pub fn next<F: Fn(Prim, Single, Single) -> Single>(&mut self, fpu: &F, white: Single) -> (r: Single)
        requires
            total(*fpu),
        ensures
            forall|f: Sums| #[trigger] meant(*fpu, f) ==> r == old(self).output(f, white) && *final(self) == old(self).fed(f, white),
    {
        self.b0 = fpu(Prim::Add, fpu(Prim::Mul, Single::of(P0_99886), self.b0), fpu(Prim::Mul, white, Single::of(P0_0555179)));
        self.b1 = fpu(Prim::Add, fpu(Prim::Mul, Single::of(P0_99332), self.b1), fpu(Prim::Mul, white, Single::of(P0_0750759)));
        self.b2 = fpu(Prim::Add, fpu(Prim::Mul, Single::of(P0_969), self.b2), fpu(Prim::Mul, white, Single::of(P0_153852)));
        self.b3 = fpu(Prim::Add, fpu(Prim::Mul, Single::of(P0_8665), self.b3), fpu(Prim::Mul, white, Single::of(P0_3104856)));
        self.b4 = fpu(Prim::Add, fpu(Prim::Mul, Single::of(P0_55), self.b4), fpu(Prim::Mul, white, Single::of(P0_5329522)));
        self.b5 = fpu(Prim::Sub, fpu(Prim::Mul, Single::of(N0_7616), self.b5), fpu(Prim::Mul, white, Single::of(P0_016898)));
        let out = fpu(Prim::Add, fpu(Prim::Add, fpu(Prim::Add, fpu(Prim::Add, fpu(Prim::Add, fpu(Prim::Add, fpu(Prim::Add, self.b0, self.b1), self.b2), self.b3), self.b4), self.b5), self.b6), fpu(Prim::Mul, white, Single::of(P0_5362)));
        self.b6 = fpu(Prim::Mul, white, Single::of(P0_115926));
        fpu(Prim::Mul, out, Single::of(P0_11))
    }

    pub fn reset(&mut self)
        ensures
            *final(self) == Pink::silent(),
    {
        *self = Pink::default();
    }
}

/// White + pink noise generator with its own random stream.
#[derive(Clone, Copy, Debug, PartialEq, Eq, Structural)]
pub struct Noise {
    pub rng: Rng,
    pub pink: Pink,
}

/// Seed of a noise generator that was given none.
pub const NOISE_SEED: u32 = 0xa5a5_1234;

impl Noise {
    pub open spec fn seeded_with(seed: u32) -> Noise {
        Noise { rng: Rng::seeded_with(seed), pink: Pink::silent() }
    }

    /// The next sample of white noise.
    pub open spec fn draw(self) -> Single {
        crate::math::bipolar(self.rng.fraction())
    }

    pub fn new(seed: u32) -> (r: Noise)
        ensures
            r == Noise::seeded_with(seed),
    {
        Noise { rng: Rng::new(seed), pink: Pink::default() }
    }

    pub fn white(&mut self) -> (r: Single)
        ensures
            r == old(self).draw(),
            *final(self) == (Noise { rng: old(self).rng.advanced(), ..*old(self) }),
    {
        self.rng.next_bipolar()
    }

    pub fn pink<F: Fn(Prim, Single, Single) -> Single>(&mut self, fpu: &F) -> (r: Single)
        requires
            total(*fpu),
        ensures
            final(self).rng == old(self).rng.advanced(),
            forall|f: Sums| #[trigger] meant(*fpu, f) ==> r == old(self).pink.output(f, old(self).draw()) && final(self).pink == old(self).pink.fed(f, old(self).draw()),
    {
        let w = self.rng.next_bipolar();
        self.pink.next(fpu, w)
    }
}

impl Default for Noise {
    fn default() -> (r: Noise)
        ensures
            r == Noise::seeded_with(NOISE_SEED),
    {
        Noise::new(NOISE_SEED)
    }
}

} // verus!
