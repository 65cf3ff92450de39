//! Octave offsets drawn from a seeded generator.
//!
//! Each octave of the fractal samples the noise primitive at its own
//! displacement, so that the layers do not line up. The displacements are
//! drawn from a generator that is seeded by the caller: one seed, one
//! sequence of offsets.

use crate::fixed::{add_fixed, sum, UNIT};
use seeded_random::Random;
use seeded_random::Seed;
use vstd::prelude::*;

verus! {

/// Draws are whole numbers from zero up to, and not including, this bound.
pub const OFFSET_RANGE: u32 = 100_000;

/// A displacement in the plane, in fixed-point units.
#[derive(Clone, Copy, Debug, PartialEq, Eq, Structural)]
pub struct Offset {
    pub x: i64,
    pub y: i64,
}

/// `seeded_random::Random`, the seeded generator; what is inside one is
/// not looked into.
#[verifier::external_type_specification]
#[verifier::external_body]
pub struct ExRandom(Random);

/// The seed that a generator was made from.
pub uninterp spec fn seed_of(rng: Random) -> u64;

/// The ranges asked of a generator so far, oldest first, each as its lower
/// and upper bound.
pub uninterp spec fn requests_of(rng: Random) -> Seq<(u32, u32)>;

/// The number that a generator made from `seed` gives for the range from
/// `min` up to `max`, after it has served the ranges in `earlier`.
pub uninterp spec fn ranged_draw(seed: u64, earlier: Seq<(u32, u32)>, min: u32, max: u32) -> u32;

/// `seeded_random::Random::from_seed` on `seeded_random::Seed::unsafe_new(seed)`:
/// a fresh generator that remembers its seed and has served no request yet.
#[verifier::external_body]
fn seeded_generator(seed: u64) -> (rng: Random)
    ensures
        seed_of(rng) == seed,
        requests_of(rng) == Seq::<(u32, u32)>::empty(),
{
    Random::from_seed(Seed::unsafe_new(seed))
}

/// `seeded_random::Random::range`: a number at least `min` and below `max`.
/// The generator is deterministic, so the number is fixed by the seed and by
/// the ranges served before; the request is added to those. An empty range
/// makes the outside function panic and is left out.
#[verifier::external_body]
fn draw_in_range(rng: &mut Random, min: u32, max: u32) -> (drawn: u32)
    requires
        min < max,
    ensures
        min <= drawn < max,
        drawn == ranged_draw(seed_of(*old(rng)), requests_of(*old(rng)), min, max),
        seed_of(*final(rng)) == seed_of(*old(rng)),
        requests_of(*final(rng)) == requests_of(*old(rng)).push((min, max)),
{
    rng.range(min, max)
}

/// The seed as the generator takes it: the two's-complement bits of a signed
/// seed, carried over to 64 bits.
pub open spec fn seed_bits(seed: i32) -> u64 {
    if seed >= 0 {
        seed as u64
    } else {
        (0x1_0000_0000_0000_0000 + seed) as u64
    }
}

/// `count` requests, each for the whole offset range.
pub open spec fn uniform_requests(count: nat) -> Seq<(u32, u32)> {
    Seq::new(count, |i: int| (0u32, OFFSET_RANGE))
}

/// The `index`-th number that a generator made from `seed` gives when it is
/// only ever asked for the whole offset range.
pub open spec fn nth_draw(seed: u64, index: nat) -> u32 {
    ranged_draw(seed, uniform_requests(index), 0, OFFSET_RANGE)
}

/// The offset of one octave: two successive draws, as whole units, each
/// moved by the global offset.
pub open spec fn octave_offset(seed: i32, octave: nat, global: Offset) -> Offset {
    Offset {
        x: sum(nth_draw(seed_bits(seed), 2 * octave) * UNIT, global.x as int) as i64,
        y: sum(nth_draw(seed_bits(seed), 2 * octave + 1) * UNIT, global.y as int) as i64,
    }
}

/// The offsets of the first `octaves` octaves.
pub open spec fn seeded_offsets(seed: i32, octaves: nat, global: Offset) -> Seq<Offset> {
    Seq::new(octaves, |i: int| octave_offset(seed, i as nat, global))
}

/// Widens a signed seed to the bits the generator takes.
pub fn widen_seed(seed: i32) -> (bits: u64)
    ensures
        bits == seed_bits(seed),
{
    if seed >= 0 {
        seed as u64
    } else {
        let below: u64 = (-(seed as i64) - 1) as u64;
        u64::MAX - below
    }
}

/// Turns two draws into the offset of an octave.
pub fn offset_from_draws(first: u32, second: u32, global: Offset) -> (offset: Offset)
    ensures
        offset.x == sum(first * UNIT, global.x as int),
        offset.y == sum(second * UNIT, global.y as int),
{
    Offset {
        x: add_fixed(first as i64 * 1_000_000, global.x),
        y: add_fixed(second as i64 * 1_000_000, global.y),
    }
}

/// Draws the offsets of `octaves` octaves from a generator seeded with
/// `seed`. The same seed and count always give the same offsets.
pub fn octave_offsets(seed: i32, octaves: u32, global: Offset) -> (offsets: Vec<Offset>)
    ensures
        offsets@ == seeded_offsets(seed, octaves as nat, global),
{
    let mut rng = seeded_generator(widen_seed(seed));
    let mut offsets: Vec<Offset> = Vec::new();
    let mut i: u32 = 0;
    while i < octaves
        invariant
            i <= octaves,
            seed_of(rng) == seed_bits(seed),
            requests_of(rng) == uniform_requests(2 * i as nat),
            offsets@ == seeded_offsets(seed, i as nat, global),
        decreases octaves - i,
    {
        let first = draw_in_range(&mut rng, 0, OFFSET_RANGE);
        assert(requests_of(rng) == uniform_requests((2 * i + 1) as nat)) by {
            assert(uniform_requests(2 * i as nat).push((0u32, OFFSET_RANGE))
                =~= uniform_requests((2 * i + 1) as nat));
        }
        let second = draw_in_range(&mut rng, 0, OFFSET_RANGE);
        assert(requests_of(rng) == uniform_requests((2 * i + 2) as nat)) by {
            assert(uniform_requests((2 * i + 1) as nat).push((0u32, OFFSET_RANGE))
                =~= uniform_requests((2 * i + 2) as nat));
        }
        let offset = offset_from_draws(first, second, global);
        offsets.push(offset);
        i = i + 1;
    }
    offsets
}

} // verus!
