use vstd::prelude::*;

verus! {

/// Bit pattern of positive infinity in the IEEE-754 binary64 format.
pub const POSITIVE_INFINITY_BITS: u64 = 0x7ff0_0000_0000_0000;

/// Bit pattern of the quiet not-a-number value in the IEEE-754 binary64 format.
pub const QUIET_NAN_BITS: u64 = 0x7ff8_0000_0000_0000;

/// A binary64 bit pattern is a not-a-number exactly when its exponent bits are
/// all set and its fraction is non-zero.
pub open spec fn is_nan_bits(bits: u64) -> bool {
    (bits >> 52u64) & 0x7ffu64 == 0x7ffu64 && bits & 0x000f_ffff_ffff_ffffu64 != 0
}

/// Tells whether a binary64 bit pattern is a not-a-number.
pub fn nan_bits(bits: u64) -> (r: bool)
    ensures
        r == is_nan_bits(bits),
{
    (bits >> 52u64) & 0x7ffu64 == 0x7ffu64 && bits & 0x000f_ffff_ffff_ffffu64 != 0
}

/// The fundamental particle of marinara. Floating-point payloads are held as
/// their binary64 bit patterns.
#[derive(Debug, Clone, PartialEq, Eq, Structural)]
pub enum SauceParticle {
    Marinara { spiciness_bits: u64 },
    Alfredo { creaminess: u32 },
    Pesto { basil_quotient: i64 },
    VoidSauce,
}

/// A single strand of quantum spaghetti. Its wobble factor is held as the
/// binary64 bit pattern of the magnitude.
#[derive(Debug, Clone)]
pub struct QuantumNoodle {
    pub wobble_bits: u64,
    pub sauce_entanglement: Vec<SauceParticle>,
    pub al_dente_coefficient: u128,
    pub existential_crisis: bool,
}

/// The state a noodle collapses into when measured.
#[derive(Debug, Clone, Copy, PartialEq, Eq, Structural)]
pub enum NoodleState {
    PerfectlyAlDente,
    OvercookedIntoOblivion,
    SomehowFrozenAndBurning,
}

/// A swirling vortex of pasta energy. Its angular momentum is the product of
/// the two wobble factors whose bit patterns it holds.
#[derive(Debug, Clone, Copy, PartialEq, Eq, Structural)]
pub struct SpaghettiVortex {
    pub left_wobble_bits: u64,
    pub right_wobble_bits: u64,
    pub noodle_count: usize,
    pub is_spinning: bool,
}

/// Things that can go wrong in quantum pasta physics. Only the first is ever
/// produced; the others are reserved.
#[derive(Debug, Clone, Copy, PartialEq, Eq, Structural)]
pub enum PastaError {
    TooManyExistentialCrises,
    SauceDecoherence,
    NoodleCollapsedIntoBlackHole,
    ForkEntangledWithSpoon,
    RanOutOfParmesan,
}

/// The state that a coefficient with the given remainder modulo 3 collapses into.
pub open spec fn state_of_remainder(r: int) -> NoodleState {
    if r == 0 {
        NoodleState::PerfectlyAlDente
    } else if r == 1 {
        NoodleState::OvercookedIntoOblivion
    } else {
        NoodleState::SomehowFrozenAndBurning
    }
}

/// The state of a noodle with the given al dente coefficient.
pub open spec fn state_of(coefficient: u128) -> NoodleState {
    state_of_remainder(coefficient as int % 3)
}

/// Both noodles are in existential crisis, so they cannot entangle.
pub open spec fn mutual_crisis(a: QuantumNoodle, b: QuantumNoodle) -> bool {
    a.existential_crisis && b.existential_crisis
}

/// The vortex that entangling `a` with `b` produces.
pub open spec fn vortex_of(a: QuantumNoodle, b: QuantumNoodle) -> SpaghettiVortex {
    SpaghettiVortex {
        left_wobble_bits: a.wobble_bits,
        right_wobble_bits: b.wobble_bits,
        noodle_count: usize::MAX,
        is_spinning: true,
    }
}

/// `b` after entangling with `a`: its coefficient becomes the exclusive-or of
/// both coefficients, the rest is unchanged.
pub open spec fn entangled_partner(a: QuantumNoodle, b: QuantumNoodle) -> QuantumNoodle {
    QuantumNoodle { al_dente_coefficient: a.al_dente_coefficient ^ b.al_dente_coefficient, ..b }
}

/// Measurement depends on the coefficient modulo 3 alone, and the three
/// states split all coefficients: remainder 0 is perfectly al dente,
/// remainder 1 overcooked, remainder 2 frozen and burning.
pub proof fn lemma_states_partition_coefficients(c: u128, d: u128)
    ensures
        (state_of(c) == NoodleState::PerfectlyAlDente) == (c % 3 == 0),
        (state_of(c) == NoodleState::OvercookedIntoOblivion) == (c % 3 == 1),
        (state_of(c) == NoodleState::SomehowFrozenAndBurning) == (c % 3 == 2),
        c % 3 == d % 3 ==> state_of(c) == state_of(d),
{
}

impl QuantumNoodle {
    /// Creates a noodle in existential crisis with the given wobble factor,
    /// a void sauce and an infinitely spicy marinara.
    pub fn superposition(wobble_bits: u64) -> (r: Self)
        ensures
            r.wobble_bits == wobble_bits,
            r.sauce_entanglement@ == seq![
                SauceParticle::VoidSauce,
                SauceParticle::Marinara { spiciness_bits: POSITIVE_INFINITY_BITS },
            ],
            r.al_dente_coefficient == 0xDEAD_BEEF_CAFE_BABEu128,
            r.existential_crisis,
    {
        QuantumNoodle {
            wobble_bits,
            sauce_entanglement: vec![
                SauceParticle::VoidSauce,
                SauceParticle::Marinara { spiciness_bits: POSITIVE_INFINITY_BITS },
            ],
            al_dente_coefficient: 0xDEAD_BEEF_CAFE_BABEu128,
            existential_crisis: true,
        }
    }

    /// Entangles this noodle with `other`. Fails, changing nothing, when both
    /// are in existential crisis; otherwise `other` takes the exclusive-or of
    /// both coefficients and a spinning vortex comes out.
    pub fn entangle(&self, other: &mut QuantumNoodle) -> (r: Result<SpaghettiVortex, PastaError>)
        ensures
            mutual_crisis(*self, *old(other)) ==> r == Err::<SpaghettiVortex, PastaError>(
                PastaError::TooManyExistentialCrises,
            ) && *final(other) == *old(other),
            !mutual_crisis(*self, *old(other)) ==> r == Ok::<SpaghettiVortex, PastaError>(
                vortex_of(*self, *old(other)),
            ) && *final(other) == entangled_partner(*self, *old(other)),
    {
        if self.existential_crisis && other.existential_crisis {
            return Err(PastaError::TooManyExistentialCrises);
        }
        let vortex = SpaghettiVortex {
            left_wobble_bits: self.wobble_bits,
            right_wobble_bits: other.wobble_bits,
            noodle_count: usize::MAX,
            is_spinning: true,
        };
        other.al_dente_coefficient = self.al_dente_coefficient ^ other.al_dente_coefficient;
        Ok(vortex)
    }

    /// Measures the noodle: the state follows from its coefficient modulo 3.
    pub fn measure(&self) -> (r: NoodleState)
        ensures
            r == state_of(self.al_dente_coefficient),
    {
        let rem: u128 = self.al_dente_coefficient % 3;
        if rem == 0 {
            NoodleState::PerfectlyAlDente
        } else if rem == 1 {
            NoodleState::OvercookedIntoOblivion
        } else {
            NoodleState::SomehowFrozenAndBurning
        }
    }
}

} // verus!
