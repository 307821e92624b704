//! A small linear congruential generator, the source of randomness of the
//! particle emitters. Seeded with a constant, it makes every run of an
//! effect reproducible.
use vstd::prelude::*;

verus! {

/// Multiplier of the generator (Knuth's MMIX constants).
pub const LCG_MULTIPLIER: u64 = 6364136223846793005;

/// Increment of the generator.
pub const LCG_INCREMENT: u64 = 1442695040888963407;

/// One step of the generator: `state * multiplier + increment` modulo 2^64.
pub open spec fn lcg_step(state: u64) -> u64 {
    ((state as int * LCG_MULTIPLIER as int + LCG_INCREMENT as int) % 0x1_0000_0000_0000_0000int) as u64
}

/// The value drawn from a state: its upper 32 bits.
pub open spec fn lcg_output(state: u64) -> u32 {
    (state as int / 0x1_0000_0000int) as u32
}

/// The state after `k` steps from `seed`.
pub open spec fn lcg_state_after(seed: u64, k: nat) -> u64
    decreases k,
{
    if k == 0 {
        seed
    } else {
        lcg_step(lcg_state_after(seed, (k - 1) as nat))
    }
}

pub struct Lcg {
    state: u64,
}

impl Lcg {
    /// The current state of the generator.
    pub closed spec fn state(&self) -> u64 {
        self.state
    }

    pub fn new(seed: u64) -> (res: Self)
        ensures
            res.state() == seed,
    {
        Lcg { state: seed }
    }

    /// Advance the generator one step and return the upper 32 bits of the
    /// new state.
    pub fn next_u32(&mut self) -> (res: u32)
        ensures
            final(self).state() == lcg_step(old(self).state()),
            res == lcg_output(final(self).state()),
    {
        let s = self.state;
        let next = s.wrapping_mul(LCG_MULTIPLIER).wrapping_add(LCG_INCREMENT);
        proof {
            let m = 0x1_0000_0000_0000_0000int;
            let prod = s as int * LCG_MULTIPLIER as int;
            vstd::arithmetic::div_mod::lemma_add_mod_noop(prod, LCG_INCREMENT as int, m);
            vstd::arithmetic::div_mod::lemma_small_mod(LCG_INCREMENT as nat, m as nat);
            vstd::arithmetic::div_mod::lemma_mod_bound(prod, m);
            let wm = (prod % m) as u64;
            if wm + LCG_INCREMENT > u64::MAX {
                vstd::arithmetic::div_mod::lemma_fundamental_div_mod_converse(
                    wm + LCG_INCREMENT as int,
                    m,
                    1,
                    wm + LCG_INCREMENT - m,
                );
            } else {
                vstd::arithmetic::div_mod::lemma_small_mod((wm + LCG_INCREMENT) as nat, m as nat);
            }
        }
        self.state = next;
        let out = (next >> 32) as u32;
        proof {
            assert((next >> 32) as u32 == next / 0x1_0000_0000u64) by (bit_vector);
        }
        out
    }
}

/// Two generators started from the same seed draw the same values: after
/// `k` draws each is in the state `lcg_state_after(seed, k)`, and the
/// `k + 1`-th value is the output of the next state.
pub proof fn lemma_stream_determined_by_seed(seed: u64, k: nat)
    ensures
        lcg_state_after(seed, k + 1) == lcg_step(lcg_state_after(seed, k)),
        lcg_state_after(seed, 0) == seed,
{
}

} // verus!
