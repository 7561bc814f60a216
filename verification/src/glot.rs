//! Noise generator of the glottal source.
//!
//! The aspiration noise of the source is drawn from a linear congruential
//! generator with modulus 2^31.  The generator is kept apart from the
//! waveform so that a noise sequence can be reproduced from its seed alone.

use vstd::prelude::*;

verus! {

/// Modulus of the generator: every value drawn is below it.
pub const LCG_MAX: u32 = 2147483648;

/// The state that follows `state`: `state * 1103515245 + 12345` modulo 2^31.
pub open spec fn noise_next(state: u32) -> u32 {
    ((state as int * 1103515245 + 12345) % 2147483648) as u32
}

/// The value of the `n`-th draw after seeding with `seed`; the seed itself
/// for `n == 0`.
pub open spec fn noise_nth(seed: u32, n: nat) -> u32
    decreases n,
{
    if n == 0 {
        seed
    } else {
        noise_next(noise_nth(seed, (n - 1) as nat))
    }
}

/// The generator behind the aspiration noise.
pub struct AspirationNoise {
    rng: u32,
}

impl View for AspirationNoise {
    type V = u32;

    /// The generator is its current state.
    closed spec fn view(&self) -> u32 {
        self.rng
    }
}

impl AspirationNoise {
    /// A generator seeded with zero.
    pub fn new() -> (g: Self)
        ensures
            g@ == 0,
    {
        AspirationNoise { rng: 0 }
    }

    /// Seeds the generator.
    pub fn srand(&mut self, seed: u32)
        ensures
            final(self)@ == seed,
    {
        self.rng = seed;
    }

    /// Draws the next value, which is also the new state.
    pub fn rand(&mut self) -> (r: u32)
        ensures
            final(self)@ == noise_next(old(self)@),
            r == final(self)@,
            r < LCG_MAX,
    {
        let product: u32 = self.rng.wrapping_mul(1103515245);
        let sum: u32 = product.wrapping_add(12345);
        proof {
            lemma_wrapping_keeps_residue(self.rng, product, sum);
        }
        self.rng = sum % LCG_MAX;
        self.rng
    }
}

/// The 32-bit wrapping of the multiplication and of the addition does not
/// show in the result: 2^31 divides 2^32, so the wrapped sum and the exact
/// one have the same residue modulo 2^31.
proof fn lemma_wrapping_keeps_residue(state: u32, product: u32, sum: u32)
    requires
        product == vstd::wrapping::u32_specs::wrapping_mul(state, 1103515245),
        sum == vstd::wrapping::u32_specs::wrapping_add(product, 12345),
    ensures
        sum as int % 2147483648 == (state as int * 1103515245 + 12345) % 2147483648,
{
    let exact: int = state as int * 1103515245 + 12345;
    let p: int = state as int * 1103515245;
    assert(product as int == p % 0x1_0000_0000);
    assert(sum as int == (product as int + 12345) % 0x1_0000_0000);
    assert((p % 0x1_0000_0000 + 12345) % 0x1_0000_0000 == exact % 0x1_0000_0000) by {
        vstd::arithmetic::div_mod::lemma_add_mod_noop(p, 12345, 0x1_0000_0000);
    }
    assert(sum as int == exact % 0x1_0000_0000);
    assert((exact % 0x1_0000_0000) % 2147483648 == exact % 2147483648) by {
        vstd::arithmetic::div_mod::lemma_mod_mod(exact, 2147483648, 2);
    }
}

/// Every value drawn lies below the modulus, whatever the seed.
pub proof fn lemma_noise_nth_below_modulus(seed: u32, n: nat)
    requires
        n >= 1,
    ensures
        noise_nth(seed, n) < LCG_MAX,
{
}

/// The sequence of draws follows the recurrence
/// `x -> (x * 1103515245 + 12345) mod 2^31`, started at the seed.
pub proof fn lemma_noise_nth_recurrence(seed: u32, n: nat)
    ensures
        noise_nth(seed, 0) == seed,
        noise_nth(seed, n + 1) as int == (noise_nth(seed, n) as int * 1103515245 + 12345)
            % 2147483648,
{
    assert(noise_nth(seed, n + 1) == noise_next(noise_nth(seed, n)));
}

/// Drawing `m` values and then `n` more gives the same value as drawing
/// `m + n` at once: the sequence depends on the seed alone.
pub proof fn lemma_noise_nth_continues(seed: u32, m: nat, n: nat)
    ensures
        noise_nth(noise_nth(seed, m), n) == noise_nth(seed, m + n),
    decreases n,
{
    if n > 0 {
        lemma_noise_nth_continues(seed, m, (n - 1) as nat);
        assert(noise_nth(seed, m + n) == noise_next(noise_nth(seed, (m + n - 1) as nat)));
    }
}

} // verus!
