//! Per-qubit 3x3 decoherence-rate matrices.
//!
//! Rows and columns correspond to the Pauli-channel components of the
//! Lindblad equation. Damping accumulates on the `(0,0)` entry and
//! dephasing on the `(2,2)` entry; accumulation is additive and saturates
//! at `u64::MAX` instead of overflowing.

use vstd::prelude::*;

verus! {

/// The fixed-point representation of the number 1.0: gate times and
/// decoherence rates are counted in millionths of the vendor's unit.
pub const UNIT_GATE_TIME: u64 = 1000000;

/// Saturating addition on fixed-point rate values.
pub open spec fn sat_add(a: u64, b: u64) -> u64 {
    if a + b > u64::MAX {
        u64::MAX
    } else {
        (a + b) as u64
    }
}

/// Executable saturating addition, exact against [`sat_add`].
pub fn rate_sum(a: u64, b: u64) -> (r: u64)
    ensures
        r == sat_add(a, b),
{
    if a <= u64::MAX - b {
        a + b
    } else {
        u64::MAX
    }
}

/// A 3x3 matrix of decoherence rates for one qubit.
///
/// `e_ij` is the entry in row `i`, column `j`. An absent matrix in a
/// device's table is equivalent to the zero matrix.
#[derive(Clone, Copy, Debug, PartialEq, Eq, Structural)]
pub struct DecoherenceRates {
    pub e00: u64,
    pub e01: u64,
    pub e02: u64,
    pub e10: u64,
    pub e11: u64,
    pub e12: u64,
    pub e20: u64,
    pub e21: u64,
    pub e22: u64,
}

impl DecoherenceRates {
    /// The all-zero matrix, as a specification value.
    pub open spec fn zero_spec() -> DecoherenceRates {
        DecoherenceRates {
            e00: 0,
            e01: 0,
            e02: 0,
            e10: 0,
            e11: 0,
            e12: 0,
            e20: 0,
            e21: 0,
            e22: 0,
        }
    }

    /// The matrix with `rate` added (saturating) onto the damping entry `(0,0)`.
    pub open spec fn damped(self, rate: u64) -> DecoherenceRates {
        DecoherenceRates { e00: sat_add(self.e00, rate), ..self }
    }

    /// The matrix with `rate` added (saturating) onto the dephasing entry `(2,2)`.
    pub open spec fn dephased(self, rate: u64) -> DecoherenceRates {
        DecoherenceRates { e22: sat_add(self.e22, rate), ..self }
    }

    /// Constructs the all-zero matrix.
    pub fn zero() -> (r: DecoherenceRates)
        ensures
            r == DecoherenceRates::zero_spec(),
    {
        DecoherenceRates {
            e00: 0,
            e01: 0,
            e02: 0,
            e10: 0,
            e11: 0,
            e12: 0,
            e20: 0,
            e21: 0,
            e22: 0,
        }
    }

    /// Adds `rate` onto the damping entry `(0,0)`, leaving every other entry alone.
    pub fn add_damping_rate(&mut self, rate: u64)
        ensures
            *final(self) == old(self).damped(rate),
    {
        self.e00 = rate_sum(self.e00, rate);
    }

    /// Adds `rate` onto the dephasing entry `(2,2)`, leaving every other entry alone.
    pub fn add_dephasing_rate(&mut self, rate: u64)
        ensures
            *final(self) == old(self).dephased(rate),
    {
        self.e22 = rate_sum(self.e22, rate);
    }
}

} // verus!
