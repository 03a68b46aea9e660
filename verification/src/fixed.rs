//! Fixed-point scalars.
//!
//! Every quantity of the simulation (positions, velocities, angles, timers)
//! is a multiple of `1 / FX_SCALE`. The scale is chosen so that the stock
//! configuration constants and the fixed `1/60`-second tick are represented
//! exactly. Arithmetic saturates at the ends of the `i64` range instead of
//! overflowing, and every operation states its result exactly.

use vstd::prelude::*;

verus! {

/// Denominator of the fixed-point scalars: a value `Fx { raw }` stands for
/// the rational number `raw / FX_SCALE`.
pub const FX_SCALE: i64 = 1800;

/// Clamp a mathematical integer into the `i64` range.
pub open spec fn sat64(x: int) -> int {
    if x > i64::MAX as int {
        i64::MAX as int
    } else if x < i64::MIN as int {
        i64::MIN as int
    } else {
        x
    }
}

/// Division by `FX_SCALE` truncated toward zero, as the scaling step of a
/// fixed-point product performs it.
pub open spec fn tdiv_scale(p: int) -> int {
    if p >= 0 {
        p / (FX_SCALE as int)
    } else {
        -((-p) / (FX_SCALE as int))
    }
}

/// Division by two truncated toward zero.
pub open spec fn tdiv2(p: int) -> int {
    if p >= 0 {
        p / 2
    } else {
        -((-p) / 2)
    }
}

/// The raw value of the saturating fixed-point sum.
pub open spec fn fx_add(a: int, b: int) -> int {
    sat64(a + b)
}

/// The raw value of the saturating fixed-point difference.
pub open spec fn fx_sub(a: int, b: int) -> int {
    sat64(a - b)
}

/// The raw value of the saturating fixed-point product:
/// scale the double-width integer product back down, truncating toward zero.
pub open spec fn fx_mul(a: int, b: int) -> int {
    sat64(tdiv_scale(a * b))
}

/// Multiplying by the scalar one (raw value `FX_SCALE`) is exact: the
/// double-width product scales back down to the other factor.
pub proof fn lemma_fx_mul_unit(v: int)
    requires
        i64::MIN <= v <= i64::MAX,
    ensures
        fx_mul(FX_SCALE as int, v) == v,
{
    if v >= 0 {
        vstd::arithmetic::div_mod::lemma_div_multiples_vanish(v, FX_SCALE as int);
    } else {
        vstd::arithmetic::div_mod::lemma_div_multiples_vanish(-v, FX_SCALE as int);
        assert((FX_SCALE as int) * v == -((FX_SCALE as int) * (-v)));
    }
}

/// A fixed-point scalar: the rational number `raw / FX_SCALE`.
#[derive(Clone, Copy, Debug, PartialEq, Eq, Structural)]
pub struct Fx {
    pub raw: i64,
}

/// Build the scalar with the given raw numerator.
pub open spec fn fx(raw: int) -> Fx {
    Fx { raw: raw as i64 }
}

impl Fx {
    /// The scalar zero.
    pub fn zero() -> (r: Fx)
        ensures
            r.raw == 0,
    {
        Fx { raw: 0 }
    }

    /// The scalar standing for the integer `u`.
    pub fn from_units(u: i64) -> (r: Fx)
        ensures
            r.raw == sat64(u * FX_SCALE),
    {
        proof {
            assert(-(0x40000000000000000000000000000000 as int) <= (u as int) * (FX_SCALE as int)
                <= 0x40000000000000000000000000000000 as int) by (nonlinear_arith)
                requires
                    -(0x8000000000000000 as int) <= u as int <= 0x7fffffffffffffff as int,
            ;
        }
        let p: i128 = (u as i128) * (FX_SCALE as i128);
        if p > i64::MAX as i128 {
            Fx { raw: i64::MAX }
        } else if p < i64::MIN as i128 {
            Fx { raw: i64::MIN }
        } else {
            Fx { raw: p as i64 }
        }
    }

    /// Saturating addition.
    pub fn add(self, o: Fx) -> (r: Fx)
        ensures
            r.raw == fx_add(self.raw as int, o.raw as int),
    {
        let a = self.raw;
        let b = o.raw;
        if b >= 0 {
            if a > i64::MAX - b {
                Fx { raw: i64::MAX }
            } else {
                Fx { raw: a + b }
            }
        } else {
            if a < i64::MIN - b {
                Fx { raw: i64::MIN }
            } else {
                Fx { raw: a + b }
            }
        }
    }

    /// Saturating subtraction.
    pub fn sub(self, o: Fx) -> (r: Fx)
        ensures
            r.raw == fx_sub(self.raw as int, o.raw as int),
    {
        let a = self.raw;
        let b = o.raw;
        if b <= 0 {
            if a > i64::MAX + b {
                Fx { raw: i64::MAX }
            } else {
                Fx { raw: a - b }
            }
        } else {
            if a < i64::MIN + b {
                Fx { raw: i64::MIN }
            } else {
                Fx { raw: a - b }
            }
        }
    }

    /// Saturating fixed-point multiplication.
    pub fn mul(self, o: Fx) -> (r: Fx)
        ensures
            r.raw == fx_mul(self.raw as int, o.raw as int),
    {
        proof {
            assert(-(0x40000000000000000000000000000000 as int) <= (self.raw as int) * (
            o.raw as int) <= 0x40000000000000000000000000000000 as int) by (nonlinear_arith)
                requires
                    -(0x8000000000000000 as int) <= self.raw as int <= 0x7fffffffffffffff as int,
                    -(0x8000000000000000 as int) <= o.raw as int <= 0x7fffffffffffffff as int,
            ;
        }
        let p: i128 = (self.raw as i128) * (o.raw as i128);
        if p >= 0 {
            let q: u128 = (p as u128) / (FX_SCALE as u128);
            if q > i64::MAX as u128 {
                Fx { raw: i64::MAX }
            } else {
                Fx { raw: q as i64 }
            }
        } else {
            let m: u128 = (-p) as u128;
            let q: u128 = m / (FX_SCALE as u128);
            if q >= 0x8000_0000_0000_0000u128 {
                Fx { raw: i64::MIN }
            } else {
                Fx { raw: -(q as i64) }
            }
        }
    }

    /// Halving, truncated toward zero.
    pub fn half(self) -> (r: Fx)
        ensures
            r.raw == tdiv2(self.raw as int),
    {
        if self.raw >= 0 {
            Fx { raw: ((self.raw as u64) / 2) as i64 }
        } else {
            let m: u128 = (-(self.raw as i128)) as u128;
            let q: u128 = m / 2;
            Fx { raw: -(q as i64) }
        }
    }
}

} // verus!
