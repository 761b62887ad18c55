//! The randomness source: an explicitly passed, seedable 64-bit
//! linear-congruential generator, so that every draw the renderer makes
//! is reproducible, plus one entropy call for production seeding.

use vstd::prelude::*;

use crate::fixed::SCALE;

verus! {

/// Multiplier of the 64-bit linear-congruential step.
pub const LCG_MUL: u64 = 6364136223846793005;

/// Increment of the 64-bit linear-congruential step.
pub const LCG_ADD: u64 = 1442695040888963407;

/// The generator state after one step.
pub open spec fn lcg_next(s: u64) -> u64 {
    (((s as int) * (LCG_MUL as int) + (LCG_ADD as int)) % 0x1_0000_0000_0000_0000) as u64
}

/// The unit-interval draw one step yields: a quanta count in `[0, SCALE)`.
pub open spec fn lcg_unit(s: u64) -> int {
    (lcg_next(s) as int) % (SCALE as int)
}

/// A seedable pseudo-random generator owned by each rendering task.
#[derive(Clone, Copy, Debug, PartialEq, Eq, Structural)]
pub struct Lcg64 {
    pub state: u64,
}

impl Lcg64 {
    pub fn new(seed: u64) -> (r: Self)
        ensures
            r.state == seed,
    {
        Self { state: seed }
    }

    /// A fresh generator seeded from the process entropy source.
    pub fn from_entropy() -> (r: Self) {
        Self { state: entropy_seed() }
    }

    /// Advance one step and return a unit-interval draw in quanta.
    pub fn next_unit(&mut self) -> (r: i64)
        ensures
            final(self).state == lcg_next(old(self).state),
            r as int == lcg_unit(old(self).state),
            0 <= r < SCALE,
    {
        proof {
            crate::fixed::lemma_mul_bound(
                self.state as int,
                LCG_MUL as int,
                0xffff_ffff_ffff_ffff,
                LCG_MUL as int,
            );
        }
        let wide: u128 = (self.state as u128) * (LCG_MUL as u128) + (LCG_ADD as u128);
        let nxt: u64 = (wide % 0x1_0000_0000_0000_0000) as u64;
        self.state = nxt;
        (nxt % (SCALE as u64)) as i64
    }
}

/// Relies on rand::random for one word of the thread-local generator's
/// output; nothing can be promised of its value.
#[verifier::external_body]
fn entropy_seed() -> u64 {
    rand::random::<u64>()
}

} // verus!
