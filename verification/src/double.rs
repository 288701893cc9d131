//! Double-precision numbers of model files, kept as bit patterns.
use vstd::arithmetic::power2::{lemma2_to64, lemma2_to64_rest, lemma_pow2_strictly_increases, pow2};
use vstd::prelude::*;

use crate::single::{Single, INFINITE, SIGN};

verus! {

/// An IEEE 754 double-precision number, kept as its bit pattern.
#[derive(Clone, Copy, Debug, PartialEq, Eq, Structural)]
pub struct Double {
    pub bits: u64,
}

/// Weight of the sign bit.
pub const SIGN_64: u64 = 0x8000_0000_0000_0000;

/// The pattern of infinity.
pub const INFINITE_64: u64 = 0x7ff0_0000_0000_0000;

/// Number of patterns that share one exponent.
pub const FRACTIONS_64: u64 = 0x0010_0000_0000_0000;

impl Double {
    /// The number with a pattern.
    #[verifier::allow_in_spec]
    pub fn of(bits: u64) -> Double
        returns
            (Double { bits }),
    {
        Double { bits }
    }

    pub open spec fn negative(self) -> bool {
        self.bits >= SIGN_64
    }

    /// The pattern without its sign.
    pub open spec fn magnitude(self) -> int {
        if self.bits >= SIGN_64 {
            self.bits - SIGN_64
        } else {
            self.bits as int
        }
    }

    pub open spec fn nan(self) -> bool {
        self.magnitude() > INFINITE_64
    }

    /// Position on the number line of everything that is no NaN; both zeros are at 0.
    pub open spec fn order(self) -> int {
        if self.bits >= SIGN_64 {
            SIGN_64 - self.bits
        } else {
            self.bits as int
        }
    }

    pub open spec fn below(self, other: Double) -> bool {
        !self.nan() && !other.nan() && self.order() < other.order()
    }

    pub open spec fn at_most(self, other: Double) -> bool {
        !self.nan() && !other.nan() && self.order() <= other.order()
    }

    /// The 53-bit significand.
    pub open spec fn significand(self) -> nat {
        let m = self.magnitude();
        if m < FRACTIONS_64 {
            m as nat
        } else {
            (FRACTIONS_64 + m % 0x0010_0000_0000_0000) as nat
        }
    }

    /// The exponent field, one for numbers without one.
    pub open spec fn exponent(self) -> int {
        let e = self.magnitude() / 0x0010_0000_0000_0000;
        if e == 0 {
            1
        } else {
            e
        }
    }

    /// Magnitude of the nearest single: the significand rounded to what a single of that exponent
    /// keeps of it, halves to even, and infinity where the exponent is too large.
    pub open spec fn narrow_magnitude(self) -> int {
        let (m, e) = (self.significand(), self.exponent());
        if e < 897 {
            crate::single::round_even(m, pow2((926 - e) as nat)) as int
        } else {
            let n = (e - 897) * 0x0080_0000 + crate::single::round_even(m, 0x2000_0000);
            if n > INFINITE {
                INFINITE as int
            } else {
                n
            }
        }
    }

    /// The nearest single; what is no number stays none.
    pub open spec fn narrowed(self, r: Single) -> bool {
        if self.nan() {
            r.nan()
        } else {
            r.negative() == self.negative() && r.magnitude() == self.narrow_magnitude()
        }
    }

    pub fn is_nan(self) -> (r: bool)
        ensures
            r == self.nan(),
    {
        (if self.bits >= SIGN_64 { self.bits - SIGN_64 } else { self.bits }) > INFINITE_64
    }

    fn position(self) -> (r: i128)
        ensures
            r == self.order(),
    {
        if self.bits >= SIGN_64 {
            -((self.bits - SIGN_64) as i128)
        } else {
            self.bits as i128
        }
    }

    pub fn lt(self, other: Double) -> (r: bool)
        ensures
            r == self.below(other),
    {
        !self.is_nan() && !other.is_nan() && self.position() < other.position()
    }

    pub fn le(self, other: Double) -> (r: bool)
        ensures
            r == self.at_most(other),
    {
        !self.is_nan() && !other.is_nan() && self.position() <= other.position()
    }

    /// The single nearest to the number (ties to even).
    pub fn narrow(self) -> (r: Single)
        ensures
            self.narrowed(r),
            r == self.single(),
    {
        let negative = self.bits >= SIGN_64;
        let magnitude: u64 = if negative { self.bits - SIGN_64 } else { self.bits };
        if magnitude > INFINITE_64 {
            return Single { bits: QUIET_NAN };
        }
        let field = magnitude / 0x0010_0000_0000_0000;
        let (m, e): (u64, u64) = if field == 0 {
            (magnitude, 1)
        } else {
            (FRACTIONS_64 + magnitude % 0x0010_0000_0000_0000, field)
        };
        let n: u64 = if e < 897 {
            let shift = 926 - e;
            if shift >= 55 {
                proof {
                    lemma2_to64_rest();
                    if shift > 55 {
                        lemma_pow2_strictly_increases(55, shift as nat);
                    }
                    let den = pow2(shift as nat);
                    assert(m as nat / den == 0 && m as nat % den == m) by {
                        vstd::arithmetic::div_mod::lemma_small_mod(m as nat, den);
                        vstd::arithmetic::div_mod::lemma_basic_div(m as int, den as int);
                    }
                }
                0
            } else {
                proof {
                    vstd::bits::lemma_u64_pow2_no_overflow(shift as nat);
                    lemma2_to64();
                    lemma2_to64_rest();
                    lemma_pow2_strictly_increases(29, shift as nat);
                    lemma_pow2_strictly_increases(shift as nat, 55);
                    assert(1 * pow2(shift as nat) == pow2(shift as nat));
                    vstd::bits::lemma_u64_shl_is_mul(1, shift);
                }
                rounded(m, 1u64 << shift)
            }
        } else {
            let n = (e - 897) * 0x0080_0000 + rounded(m, 0x2000_0000);
            if n > INFINITE as u64 {
                INFINITE as u64
            } else {
                n
            }
        };
        proof {
            assert(n == self.narrow_magnitude());
        }
        Single { bits: if negative { SIGN + n as u32 } else { n as u32 } }
    }

    /// The nearest single, with one pattern for all that is no number.
    pub open spec fn single(self) -> Single {
        if self.nan() {
            Single { bits: QUIET_NAN }
        } else if self.negative() {
            Single { bits: (SIGN + self.narrow_magnitude()) as u32 }
        } else {
            Single { bits: self.narrow_magnitude() as u32 }
        }
    }
}

/// Pattern of the single that stands for what is no number.
pub const QUIET_NAN: u32 = 0x7fc0_0000;

/// The quotient rounded to the nearest integer, halves to even.
fn rounded(m: u64, den: u64) -> (r: u64)
    requires
        m < 0x0020_0000_0000_0000,
        0x2000_0000 <= den <= 0x0080_0000_0000_0000,
    ensures
        r == crate::single::round_even(m as nat, den as nat),
        r <= 0x0100_0000,
{
    let (q, r) = (m / den, m % den);
    proof {
        assert(q <= 0x00ff_ffff) by (nonlinear_arith)
            requires
                q == m / den,
                m < 0x0020_0000_0000_0000,
                den >= 0x2000_0000,
        ;
    }
    if 2 * r > den || (2 * r == den && q % 2 == 1) {
        q + 1
    } else {
        q
    }
}

} // verus!
