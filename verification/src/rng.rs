//! A tiny deterministic pseudo-random generator (xorshift64).
//!
//! Just enough randomness for wind gusts and cloud heights, owned by the world
//! and threaded explicitly through the tick. It is seedable and
//! self-contained, so the same seed and inputs always produce the same run.
//! It is not cryptographically strong.
use vstd::prelude::*;

verus! {

/// The seed used when none (or the all-zero seed) is given.
pub const DEFAULT_SEED: u64 = 0x2545_f491_4f6c_dd1d;

/// One xorshift64 step (shifts 13, 7, 17).
pub open spec fn xorshift64(x: u64) -> u64 {
    let a = x ^ (x << 13u64);
    let b = a ^ (a >> 7u64);
    b ^ (b << 17u64)
}

/// The state a seed starts the generator in: xorshift can never leave the
/// all-zero state, so a zero seed is replaced by the default one.
pub open spec fn seed_state(seed: u64) -> u64 {
    if seed == 0 {
        DEFAULT_SEED
    } else {
        seed
    }
}

/// Whether `range(low, high)` is defined: a non-empty range whose width fits
/// an `i32`.
pub open spec fn range_ok(low: i32, high: i32) -> bool {
    low < high && high - low <= i32::MAX
}

/// The value `range(low, high)` draws from the raw output `raw`.
pub open spec fn range_value(raw: u64, low: i32, high: i32) -> int {
    low + (raw % ((high - low) as u64)) as int
}

/// A generator never starts in the all-zero state, and xorshift never
/// enters it from any other state: the stream cannot get stuck at zero.
pub proof fn lemma_never_zero(seed: u64, x: u64)
    ensures
        seed_state(seed) != 0,
        x != 0 ==> xorshift64(x) != 0,
{
    assert(x != 0 ==> (x ^ (x << 13u64)) != 0) by (bit_vector);
    let a = x ^ (x << 13u64);
    assert(a != 0 ==> (a ^ (a >> 7u64)) != 0) by (bit_vector);
    let b = a ^ (a >> 7u64);
    assert(b != 0 ==> (b ^ (b << 17u64)) != 0) by (bit_vector);
}

/// Two generators in the same state draw the same value from any range and
/// end in the same state, so a seed reproduces its whole sequence.
pub proof fn lemma_same_seed_same_draws(a: Rng, b: Rng, low: i32, high: i32)
    requires
        a.state() == b.state(),
    ensures
        xorshift64(a.state()) == xorshift64(b.state()),
        range_value(xorshift64(a.state()), low, high) == range_value(
            xorshift64(b.state()),
            low,
            high,
        ),
{
}

/// Every value `range(low, high)` can draw lies in `[low, high)`.
pub proof fn lemma_range_value_bounds(raw: u64, low: i32, high: i32)
    requires
        range_ok(low, high),
    ensures
        low <= range_value(raw, low, high) < high,
{
}

/// A seedable xorshift64 generator.
#[derive(Clone, Copy)]
pub struct Rng {
    state: u64,
}

impl Rng {
    /// The generator's internal state.
    pub closed spec fn state(self) -> u64 {
        self.state
    }

    /// The generator that is in state `s`.
    pub closed spec fn from_state(s: u64) -> Rng {
        Rng { state: s }
    }

    /// A generator built from a state is in that state.
    pub proof fn lemma_from_state(s: u64)
        ensures
            Rng::from_state(s).state() == s,
    {
    }

    /// Two generators in the same state are the same generator.
    pub proof fn lemma_same_state(a: Rng, b: Rng)
        requires
            a.state() == b.state(),
        ensures
            a == b,
    {
    }

    pub fn new(seed: u64) -> (r: Self)
        ensures
            r.state() == seed_state(seed),
    {
        Rng { state: if seed == 0 { DEFAULT_SEED } else { seed } }
    }

    fn next_u64(&mut self) -> (x: u64)
        ensures
            x == xorshift64(old(self).state()),
            final(self).state() == x,
    {
        let mut x = self.state;
        x ^= x << 13u64;
        x ^= x >> 7u64;
        x ^= x << 17u64;
        self.state = x;
        x
    }

    /// A uniform integer in `[low, high)`, advancing the generator one step.
    pub fn range(&mut self, low: i32, high: i32) -> (v: i32)
        requires
            range_ok(low, high),
        ensures
            final(self).state() == xorshift64(old(self).state()),
            v == range_value(final(self).state(), low, high),
            low <= v < high,
    {
        let span = (high - low) as u64;
        let raw = self.next_u64();
        let off = raw % span;
        low + off as i32
    }
}

impl Default for Rng {
    fn default() -> (r: Self)
        ensures
            r.state() == DEFAULT_SEED,
    {
        Rng::new(DEFAULT_SEED)
    }
}

} // verus!
