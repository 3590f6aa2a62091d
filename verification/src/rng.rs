//! The pseudo-random generator that places the food.
//!
//! The numbers come from `oorandom::Rand32`, a permuted congruential
//! generator. What it draws is fixed by its two state words, so the library
//! keeps those words as plain values and hands them to `Rand32` for each draw.

use oorandom::Rand32;
use vstd::prelude::*;

verus! {

/// A generator of 32-bit numbers, held as the two words that `Rand32` keeps:
/// the state, which every draw advances, and the increment, which selects the
/// sequence and never changes.
#[derive(Clone, Copy, Debug, PartialEq, Eq, Structural)]
pub struct Rng {
    pub state: u64,
    pub inc: u64,
}

/// What `Rand32::rand_range` does on a generator with the given state and
/// increment when asked for a number from `low` up to, not including, `high`:
/// the number it draws, and the state it leaves.
pub uninterp spec fn range_draw(state: u64, inc: u64, low: u32, high: u32) -> (u32, u64);

/// Calls `Rand32::new` and reads the new generator's two words with
/// `Rand32::state`. `Rand32::new` doubles its default increment and sets the
/// lowest bit, steps once from state zero, adds the seed, and steps once
/// more, all modulo two to the 64th; a step multiplies the state by the
/// generator's multiplier and adds the increment.
#[verifier::external_body]
fn rand32_new(seed: u64) -> (words: (u64, u64))
    ensures
        words.0 == Rng::seeded(seed).state,
        words.1 == Rng::seeded(seed).inc,
{
    Rand32::new(seed).state()
}

/// Calls `Rand32::rand_range` on a generator rebuilt from its two words with
/// `Rand32::from_state`, and returns the number drawn with the state word
/// read back by `Rand32::state`. Both depend on the arguments alone. As the
/// documentation of `rand_range` says, the number is at least `low` and below
/// `high`. The range must not be empty. The increment must be odd: the draw
/// repeats until a number passes a threshold, which is certain to happen only
/// on a generator that runs through all its states, and with an even
/// increment it need never happen. A draw leaves the increment as it was, so
/// it is not returned.
#[verifier::external_body]
fn rand32_rand_range(state: u64, inc: u64, low: u32, high: u32) -> (draw: (u32, u64))
    requires
        low < high,
        inc % 2 == 1,
    ensures
        draw == range_draw(state, inc, low, high),
        low <= draw.0 < high,
{
    let mut rng = Rand32::from_state((state, inc));
    let number = rng.rand_range(low..high);
    (number, rng.state().0)
}

impl Rng {
    /// Whether the generator can be drawn from: its increment is odd, so that
    /// it runs through every state before it repeats.
    pub open spec fn valid(self) -> bool {
        self.inc % 2 == 1
    }

    /// The generator that a seed gives. Its increment is the same for every
    /// seed, and odd. Its state is the seed plus the increment, stepped once.
    pub open spec fn seeded(seed: u64) -> Rng {
        Rng {
            state: (((2885390081777926815 + seed) * 6364136223846793005 + 2885390081777926815)
                % 0x1_0000_0000_0000_0000) as u64,
            inc: 2885390081777926815,
        }
    }

    /// The number that the next draw from `low` up to `high` gives.
    pub open spec fn drawn(self, low: u32, high: u32) -> u32 {
        range_draw(self.state, self.inc, low, high).0
    }

    /// The generator after a draw from `low` up to `high`.
    pub open spec fn after_draw(self, low: u32, high: u32) -> Rng {
        Rng { state: range_draw(self.state, self.inc, low, high).1, inc: self.inc }
    }

    /// Makes the generator that belongs to `seed`.
    pub fn new(seed: u64) -> (rng: Rng)
        ensures
            rng == Rng::seeded(seed),
            rng.valid(),
    {
        let words = rand32_new(seed);
        Rng { state: words.0, inc: words.1 }
    }

    /// Tells whether the generator can be drawn from.
    pub fn is_valid(&self) -> (r: bool)
        ensures
            r == self.valid(),
    {
        self.inc % 2 == 1
    }

    /// Draws a number that is at least `low` and below `high`, and advances
    /// the generator.
    pub fn rand_range(&mut self, low: u32, high: u32) -> (number: u32)
        requires
            old(self).valid(),
            low < high,
        ensures
            number == old(self).drawn(low, high),
            *final(self) == old(self).after_draw(low, high),
            final(self).valid(),
            low <= number < high,
    {
        let draw = rand32_rand_range(self.state, self.inc, low, high);
        self.state = draw.1;
        draw.0
    }
}

/// A draw changes the state word only, so a generator that can be drawn from
/// can be drawn from again.
pub proof fn lemma_draw_keeps_valid(rng: Rng, low: u32, high: u32)
    requires
        rng.valid(),
    ensures
        rng.after_draw(low, high).valid(),
        rng.after_draw(low, high).inc == rng.inc,
{
}

/// Every seed gives a generator that can be drawn from.
pub proof fn lemma_seeded_is_valid(seed: u64)
    ensures
        Rng::seeded(seed).valid(),
{
}

} // verus!
