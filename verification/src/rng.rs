//! The pseudo-random source behind every random decision of the engine.

use vstd::prelude::*;

verus! {

/// One step of the generator: shift left by 13, right by 17, left by 43,
/// folding each shifted value back in with exclusive or.
pub open spec fn xorshift(state: u64) -> u64 {
    let a = state ^ (state << 13);
    let b = a ^ (a >> 17);
    b ^ (b << 43)
}

/// The state reached from `state` after `n` steps.
pub open spec fn xorshift_n(state: u64, n: nat) -> u64
    decreases n,
{
    if n == 0 {
        state
    } else {
        xorshift(xorshift_n(state, (n - 1) as nat))
    }
}

/// A xorshift generator. It is deterministic: the seed fixes every value it
/// will ever produce.
pub struct Rng {
    seed: u64,
}

impl Rng {
    /// The internal state, which is also the value produced last.
    pub closed spec fn state(&self) -> u64 {
        self.seed
    }

    /// A generator that starts from `seed`.
    pub fn new(seed: u64) -> (rng: Rng)
        ensures
            rng.state() == seed,
    {
        Rng { seed }
    }

    /// Advances the generator by one step and returns the new state.
    pub fn rand(&mut self) -> (value: u64)
        ensures
            final(self).state() == xorshift(old(self).state()),
            value == final(self).state(),
    {
        let mut seed: u64 = self.seed;
        seed ^= seed << 13;
        seed ^= seed >> 17;
        seed ^= seed << 43;
        self.seed = seed;
        seed
    }

    /// Advances the generator by one step and reduces the new state to an
    /// index below `bound`.
    pub fn below(&mut self, bound: usize) -> (value: usize)
        requires
            bound > 0,
        ensures
            final(self).state() == xorshift(old(self).state()),
            value == final(self).state() as int % bound as int,
            value < bound,
    {
        let raw: u64 = self.rand();
        (raw % (bound as u64)) as usize
    }
}

} // verus!
