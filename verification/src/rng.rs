//! Linear congruential generator used by the control-rate random sources.

use vstd::prelude::*;

verus! {

/// Multiplier of the recurrence.
pub const LCG_MULTIPLIER: u32 = 1103515245;

/// Increment of the recurrence.
pub const LCG_INCREMENT: u32 = 12345;

/// The value that follows `state`: the affine step is taken in 32-bit
/// wrapping arithmetic and then reduced modulo `u32::MAX`.
pub open spec fn lcg_next(state: u32) -> u32 {
    (((state as int * 1103515245 + 12345) % 0x1_0000_0000) % 0xFFFF_FFFF) as u32
}

pub struct LinearCongruentialGenerator {
    rng: u32,
}

impl View for LinearCongruentialGenerator {
    type V = u32;

    /// The generator is its current state.
    closed spec fn view(&self) -> u32 {
        self.rng
    }
}

impl LinearCongruentialGenerator {
    /// A generator whose state is zero.
    pub fn new() -> (g: Self)
        ensures
            g@ == 0,
    {
        LinearCongruentialGenerator { rng: 0 }
    }

    /// Advances the state by one step and returns the new state.
    pub fn rand(&mut self) -> (r: u32)
        ensures
            final(self)@ == lcg_next(old(self)@),
            r == final(self)@,
            r < u32::MAX,
    {
        let product: u32 = self.rng.wrapping_mul(LCG_MULTIPLIER);
        proof {
            lemma_wrapped_affine(self.rng, product);
        }
        self.rng = product.wrapping_add(LCG_INCREMENT) % u32::MAX;
        self.rng
    }

    /// Replaces the state by `val`.
    pub fn seed(&mut self, val: u32)
        ensures
            final(self)@ == val,
    {
        self.rng = val;
    }
}

/// Adding the increment to the wrapped product wraps to the same value as
/// reducing the whole affine expression once.
proof fn lemma_wrapped_affine(state: u32, product: u32)
    requires
        product == vstd::wrapping::u32_specs::wrapping_mul(state, LCG_MULTIPLIER),
    ensures
        vstd::wrapping::u32_specs::wrapping_add(product, LCG_INCREMENT) as int == (state as int
            * 1103515245 + 12345) % 0x1_0000_0000,
{
    let p: int = state as int * 1103515245;
    assert(product as int == p % 0x1_0000_0000);
    assert((p % 0x1_0000_0000 + 12345) % 0x1_0000_0000 == (p + 12345) % 0x1_0000_0000) by {
        vstd::arithmetic::div_mod::lemma_add_mod_noop(p, 12345, 0x1_0000_0000);
    }
}

} // verus!
