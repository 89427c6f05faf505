//! A small deterministic pseudo-random stream.
//!
//! Each bot owns one stream, forked from a global stream when the bot is
//! spawned, so its draws are independent of every other bot's and
//! reproducible from the global seed.  One draw is made per tick and mapped
//! to the unit interval to scale steering aggression.

use vstd::prelude::*;

verus! {

/// The additive constant of the state advance (the golden-ratio increment).
pub const STATE_STEP: u64 = 0x9E37_79B9_7F4A_7C15;

/// First multiplier of the output mix.
pub const MIX_MUL_A: u64 = 0xBF58_476D_1CE4_E5B9;

/// Second multiplier of the output mix.
pub const MIX_MUL_B: u64 = 0x94D0_49BB_1331_11EB;

/// The state after one advance.
pub open spec fn advanced(s: u64) -> u64 {
    s.wrapping_add(STATE_STEP)
}

/// The output word mixed out of a state.
pub open spec fn mixed(s: u64) -> u64 {
    let a = (s ^ (s >> 30)).wrapping_mul(MIX_MUL_A);
    let b = (a ^ (a >> 27)).wrapping_mul(MIX_MUL_B);
    b ^ (b >> 31)
}

/// A private pseudo-random stream: a 64-bit state stepped by a fixed
/// increment, with a bijective mixing of each state into the output.
#[derive(Clone, Copy, Debug, PartialEq, Eq, Structural)]
pub struct RngStream {
    pub state: u64,
}

impl RngStream {
    /// A stream starting from the given seed.
    pub fn new(seed: u64) -> (r: RngStream)
        ensures
            r.state == seed,
    {
        RngStream { state: seed }
    }

    /// Advances the stream and returns the next pseudo-random word.
    pub fn next_u64(&mut self) -> (r: u64)
        ensures
            final(self).state == advanced(old(self).state),
            r == mixed(advanced(old(self).state)),
    {
        self.state = self.state.wrapping_add(STATE_STEP);
        let s = self.state;
        let a = (s ^ (s >> 30)).wrapping_mul(MIX_MUL_A);
        let b = (a ^ (a >> 27)).wrapping_mul(MIX_MUL_B);
        b ^ (b >> 31)
    }

    /// One draw mapped to the closed unit interval in milli fixed point:
    /// the per-tick aggression scalar.
    pub fn next_milli(&mut self) -> (r: i64)
        ensures
            final(self).state == advanced(old(self).state),
            r == mixed(advanced(old(self).state)) as int % (crate::num::MILLI + 1),
            0 <= r <= crate::num::MILLI,
    {
        let w = self.next_u64();
        (w % 1001) as i64
    }

    /// Splits off an independent child stream, seeded from the next draw of
    /// this one.
    pub fn fork_rng(&mut self) -> (r: RngStream)
        ensures
            final(self).state == advanced(old(self).state),
            r.state == mixed(advanced(old(self).state)),
    {
        let seed = self.next_u64();
        RngStream { state: seed }
    }
}

} // verus!
