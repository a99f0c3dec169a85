//! The random source consumed by sequence generation: a standard generator
//! from the `rand` crate together with a ghost history of the values drawn
//! from it, so that contracts can state exactly which draws one call makes
//! and what became of each drawn value.

use vstd::prelude::*;

verus! {

#[verifier::external_type_specification]
#[verifier::external_body]
pub struct ExStdRng(rand::rngs::StdRng);

/// Relies on rand::Rng::gen::<u32> (rand 0.8): draws one value, uniform over
/// the full range of u32; nothing can be promised of which value comes back.
#[verifier::external_body]
fn draw_raw_u32(rng: &mut rand::rngs::StdRng) -> u32 {
    rand::Rng::gen::<u32>(rng)
}

/// Relies on rand::Rng::gen::<u64> (rand 0.8): draws one value, uniform over
/// the full range of u64; nothing can be promised of which value comes back.
#[verifier::external_body]
fn draw_raw_u64(rng: &mut rand::rngs::StdRng) -> u64 {
    rand::Rng::gen::<u64>(rng)
}

/// Relies on rand::Rng::gen::<i32> (rand 0.8): draws one value, uniform over
/// the full range of i32; nothing can be promised of which value comes back.
#[verifier::external_body]
fn draw_raw_i32(rng: &mut rand::rngs::StdRng) -> i32 {
    rand::Rng::gen::<i32>(rng)
}

/// A caller-supplied random source. Each draw hands back one raw value of
/// the requested width; the history of drawn values is ghost state, so
/// contracts can say that a generation call draws exactly these values and
/// nothing else.
pub struct RandSource {
    inner: rand::rngs::StdRng,
    drawn32: Ghost<Seq<u32>>,
    drawn64: Ghost<Seq<u64>>,
    drawn_ints: Ghost<Seq<i32>>,
}

impl RandSource {
    /// Every 32-bit value drawn from this source so far, in draw order.
    pub closed spec fn drawn_u32(self) -> Seq<u32> {
        self.drawn32@
    }

    /// Every 64-bit value drawn from this source so far, in draw order.
    pub closed spec fn drawn_u64(self) -> Seq<u64> {
        self.drawn64@
    }

    /// Every i32 value drawn from this source so far, in draw order.
    pub closed spec fn drawn_i32(self) -> Seq<i32> {
        self.drawn_ints@
    }

    /// How many values, of any width, have been drawn from this source.
    pub open spec fn draw_count(self) -> int {
        self.drawn_u32().len() + self.drawn_u64().len() + self.drawn_i32().len() as int
    }

    /// Wraps a generator the caller built (seeded or from entropy: the
    /// seeding policy stays with the caller), with an empty draw history.
    pub fn from_std_rng(inner: rand::rngs::StdRng) -> (s: RandSource)
        ensures
            s.drawn_u32() == Seq::<u32>::empty(),
            s.drawn_u64() == Seq::<u64>::empty(),
            s.drawn_i32() == Seq::<i32>::empty(),
            s.draw_count() == 0,
    {
        RandSource {
            inner,
            drawn32: Ghost(Seq::empty()),
            drawn64: Ghost(Seq::empty()),
            drawn_ints: Ghost(Seq::empty()),
        }
    }

    /// One uniform draw over the full 32-bit space.
    pub fn draw_u32(&mut self) -> (r: u32)
        ensures
            final(self).drawn_u32() == old(self).drawn_u32().push(r),
            final(self).drawn_u64() == old(self).drawn_u64(),
            final(self).drawn_i32() == old(self).drawn_i32(),
    {
        let r = draw_raw_u32(&mut self.inner);
        self.drawn32 = Ghost(self.drawn32@.push(r));
        r
    }

    /// One uniform draw over the full 64-bit space.
    pub fn draw_u64(&mut self) -> (r: u64)
        ensures
            final(self).drawn_u64() == old(self).drawn_u64().push(r),
            final(self).drawn_u32() == old(self).drawn_u32(),
            final(self).drawn_i32() == old(self).drawn_i32(),
    {
        let r = draw_raw_u64(&mut self.inner);
        self.drawn64 = Ghost(self.drawn64@.push(r));
        r
    }

    /// One uniform draw over the full range of i32.
    pub fn draw_i32(&mut self) -> (r: i32)
        ensures
            final(self).drawn_i32() == old(self).drawn_i32().push(r),
            final(self).drawn_u32() == old(self).drawn_u32(),
            final(self).drawn_u64() == old(self).drawn_u64(),
    {
        let r = draw_raw_i32(&mut self.inner);
        self.drawn_ints = Ghost(self.drawn_ints@.push(r));
        r
    }
}

} // verus!
