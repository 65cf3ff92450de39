//! The fractal noise generator: a parameter set and the height field it yields.

use crate::biome::{Biome, Color};
use crate::field::{cells_of, is_grid, normalized, NoiseMap};
use crate::fixed::{add_fixed, div_fixed, mul_fixed, narrow, power, product, ratio, saturate, sum, UNIT};
use crate::offsets::{octave_offsets, seeded_offsets, Offset};
use vstd::prelude::*;

verus! {

/// The scale that stands in for one that is zero or negative: one ten-thousandth.
pub const MIN_SCALE: i64 = 100;

/// The least width and height that the parameter editor offers.
pub const MIN_SIZE: u32 = 1;

/// The greatest width and height that the parameter editor offers.
pub const MAX_SIZE: u32 = 256;

/// The least scale that the parameter editor offers: one hundredth.
pub const MIN_EDITED_SCALE: i64 = 10_000;

/// The greatest scale that the parameter editor offers: fifty.
pub const MAX_EDITED_SCALE: i64 = 50_000_000;

/// The least number of octaves that the parameter editor offers.
pub const MIN_OCTAVES: u32 = 1;

/// The greatest number of octaves that the parameter editor offers.
pub const MAX_OCTAVES: u32 = 50;

/// The least persistence and lacunarity that the parameter editor offers:
/// one tenth.
pub const MIN_FACTOR: i64 = 100_000;

/// The greatest persistence and lacunarity that the parameter editor
/// offers: five.
pub const MAX_FACTOR: i64 = 5_000_000;

/// The least seed that the parameter editor offers.
pub const MIN_SEED: i32 = 1;

/// The greatest seed that the parameter editor offers.
pub const MAX_SEED: i32 = 1_000_000;

/// The least offset, along either axis, that the parameter editor offers: one.
pub const MIN_OFFSET: i64 = 1_000_000;

/// The greatest offset, along either axis, that the parameter editor
/// offers: a hundred thousand.
pub const MAX_OFFSET: i64 = 100_000_000_000;

/// Whether `primitive` can be called at every point of the plane.
pub open spec fn accepts_every_point<F: Fn(i64, i64) -> i64>(primitive: F) -> bool {
    forall|x: i64, y: i64| call_requires(primitive, (x, y))
}

/// Whether what `primitive` gives at a point is fixed by the point: called
/// twice at the same point, it gives the same value twice.
pub open spec fn is_noise_function<F: Fn(i64, i64) -> i64>(primitive: F) -> bool {
    forall|x: i64, y: i64, a: i64, b: i64|
        #[trigger] call_ensures(primitive, (x, y), a) && #[trigger] call_ensures(
            primitive,
            (x, y),
            b,
        ) ==> a == b
}

/// The value that a noise function gives at a point.
pub open spec fn noise_at<F: Fn(i64, i64) -> i64>(primitive: F, x: i64, y: i64) -> i64 {
    choose|value: i64| call_ensures(primitive, (x, y), value)
}

/// Where along one axis an octave samples the primitive for a cell: the
/// cell's distance from the middle of the grid, divided by the scale, times
/// the octave's frequency, moved by the octave's offset.
pub open spec fn sample_coordinate(cell: int, half: int, scale: int, frequency: int, offset: int) -> int {
    sum(product(ratio((cell - half) * UNIT, scale), frequency), offset)
}

/// A sample of the primitive, which lies nominally between zero and one,
/// stretched onto the range from minus one to one.
pub open spec fn centred(sample: int) -> int {
    saturate(2 * sample - UNIT)
}

/// Computes where along one axis an octave samples the primitive.
pub fn sample_along(cell: u32, half: u32, scale: i64, frequency: i64, offset: i64) -> (at: i64)
    requires
        scale > 0,
    ensures
        at == sample_coordinate(cell as int, half as int, scale as int, frequency as int, offset as int),
{
    let distance: i64 = (cell as i64 - half as i64) * 1_000_000;
    add_fixed(mul_fixed(div_fixed(distance, scale), frequency), offset)
}

/// Stretches a sample of the primitive onto the range from minus one to one.
pub fn centre(sample: i64) -> (value: i64)
    ensures
        value == centred(sample as int),
{
    narrow(2 * (sample as i128) - 1_000_000)
}

/// Calls the primitive at a point.
pub fn sample<F: Fn(i64, i64) -> i64>(primitive: &F, x: i64, y: i64) -> (value: i64)
    requires
        accepts_every_point(*primitive),
    ensures
        call_ensures(*primitive, (x, y), value),
        is_noise_function(*primitive) ==> value == noise_at(*primitive, x, y),
{
    primitive(x, y)
}

/// Replaces a scale that is zero or negative by the least one allowed.
pub fn guard_scale(scale: i64) -> (guarded: i64)
    ensures
        guarded > 0,
        guarded == if scale <= 0 { MIN_SCALE } else { scale },
{
    if scale <= 0 {
        MIN_SCALE
    } else {
        scale
    }
}

/// What a generation run is given: the size of the grid, the seed, and the
/// shape of the fractal. Real quantities are in fixed-point units.
#[derive(Clone, Copy, Debug, PartialEq, Eq, Structural)]
pub struct NoiseParameters {
    pub map_width: u32,
    pub map_height: u32,
    pub seed: i32,
    pub scale: i64,
    pub octaves: u32,
    pub persistance: i64,
    pub lacunarity: i64,
    pub offset: Offset,
}

impl NoiseParameters {
    /// The scale that generation divides by: the stated one where that is
    /// positive, the least one allowed otherwise.
    pub open spec fn effective_scale(self) -> int {
        if self.scale <= 0 {
            MIN_SCALE as int
        } else {
            self.scale as int
        }
    }

    /// The point at which octave `octave` samples the primitive for the
    /// cell `(x, z)`.
    pub open spec fn sample_point(self, offsets: Seq<Offset>, x: int, z: int, octave: nat) -> (int, int) {
        let frequency = power(self.lacunarity as int, octave);
        (
            sample_coordinate(
                x,
                (self.map_width / 2) as int,
                self.effective_scale(),
                frequency,
                offsets[octave as int].x as int,
            ),
            sample_coordinate(
                z,
                (self.map_height / 2) as int,
                self.effective_scale(),
                frequency,
                offsets[octave as int].y as int,
            ),
        )
    }

    /// What octave `octave` adds to the height of the cell `(x, z)`: the
    /// centred sample at the octave's point, times the octave's amplitude.
    pub open spec fn octave_height<F: Fn(i64, i64) -> i64>(
        self,
        offsets: Seq<Offset>,
        primitive: F,
        x: int,
        z: int,
        octave: nat,
    ) -> int {
        let at = self.sample_point(offsets, x, z, octave);
        product(
            centred(noise_at(primitive, at.0 as i64, at.1 as i64) as int),
            power(self.persistance as int, octave),
        )
    }

    /// The height of the cell `(x, z)` after the first `octaves` octaves.
    pub open spec fn height_through<F: Fn(i64, i64) -> i64>(
        self,
        offsets: Seq<Offset>,
        primitive: F,
        x: int,
        z: int,
        octaves: nat,
    ) -> int
        decreases octaves,
    {
        if octaves == 0 {
            0
        } else {
            sum(
                self.height_through(offsets, primitive, x, z, (octaves - 1) as nat),
                self.octave_height(offsets, primitive, x, z, (octaves - 1) as nat),
            )
        }
    }

    /// The heights of all cells before rescaling, column by column.
    pub open spec fn raw_heights<F: Fn(i64, i64) -> i64>(self, offsets: Seq<Offset>, primitive: F) -> Seq<Seq<i64>> {
        Seq::new(
            self.map_width as nat,
            |x: int|
                Seq::new(
                    self.map_height as nat,
                    |z: int|
                        self.height_through(offsets, primitive, x, z, self.octaves as nat) as i64,
                ),
        )
    }

    /// The finished field for given octave offsets.
    pub open spec fn field_from<F: Fn(i64, i64) -> i64>(self, offsets: Seq<Offset>, primitive: F) -> Seq<Seq<i64>> {
        normalized(self.raw_heights(offsets, primitive))
    }

    /// The finished field: the one for the offsets that the seed gives.
    pub open spec fn field<F: Fn(i64, i64) -> i64>(self, primitive: F) -> Seq<Seq<i64>> {
        self.field_from(seeded_offsets(self.seed, self.octaves as nat, self.offset), primitive)
    }

    /// These parameters with the scale that generation divides by.
    pub open spec fn guarded(self) -> NoiseParameters {
        NoiseParameters { scale: self.effective_scale() as i64, ..self }
    }

    /// Guarding the scale changes no height.
    proof fn lemma_guarded_height<F: Fn(i64, i64) -> i64>(
        self,
        offsets: Seq<Offset>,
        primitive: F,
        x: int,
        z: int,
        octaves: nat,
    )
        ensures
            self.guarded().height_through(offsets, primitive, x, z, octaves) == self.height_through(
                offsets,
                primitive,
                x,
                z,
                octaves,
            ),
        decreases octaves,
    {
        if octaves > 0 {
            self.lemma_guarded_height(offsets, primitive, x, z, (octaves - 1) as nat);
            assert(self.guarded().sample_point(offsets, x, z, (octaves - 1) as nat)
                == self.sample_point(offsets, x, z, (octaves - 1) as nat));
        }
    }

    /// Generation leaves behind the scale it divided by, and generating
    /// again from there gives the same field: a second run repeats the first.
    pub proof fn lemma_guarded_field<F: Fn(i64, i64) -> i64>(self, primitive: F)
        ensures
            self.guarded().guarded() == self.guarded(),
            self.guarded().field(primitive) == self.field(primitive),
    {
        let offsets = seeded_offsets(self.seed, self.octaves as nat, self.offset);
        assert forall|x: int, z: int|
            self.guarded().height_through(offsets, primitive, x, z, self.octaves as nat)
                == #[trigger] self.height_through(offsets, primitive, x, z, self.octaves as nat) by {
            self.lemma_guarded_height(offsets, primitive, x, z, self.octaves as nat);
        }
        assert(self.guarded().raw_heights(offsets, primitive) =~~= self.raw_heights(
            offsets,
            primitive,
        ));
    }

    /// Adds up the octaves of one cell: samples the primitive once for each
    /// octave, at rising frequency and with falling weight.
    pub fn cell_height<F: Fn(i64, i64) -> i64>(
        &self,
        offsets: &Vec<Offset>,
        primitive: &F,
        x: u32,
        z: u32,
    ) -> (height: i64)
        requires
            accepts_every_point(*primitive),
            offsets@.len() == self.octaves,
        ensures
            is_noise_function(*primitive) ==> height == self.height_through(
                offsets@,
                *primitive,
                x as int,
                z as int,
                self.octaves as nat,
            ),
    {
        let scale = guard_scale(self.scale);
        let half_width = self.map_width / 2;
        let half_height = self.map_height / 2;
        let mut amplitude: i64 = UNIT;
        let mut frequency: i64 = UNIT;
        let mut height: i64 = 0;
        let mut i: u32 = 0;
        while i < self.octaves
            invariant
                i <= self.octaves,
                accepts_every_point(*primitive),
                offsets@.len() == self.octaves,
                scale == self.effective_scale(),
                scale > 0,
                half_width == self.map_width / 2,
                half_height == self.map_height / 2,
                amplitude == power(self.persistance as int, i as nat),
                frequency == power(self.lacunarity as int, i as nat),
                is_noise_function(*primitive) ==> height == self.height_through(
                    offsets@,
                    *primitive,
                    x as int,
                    z as int,
                    i as nat,
                ),
            decreases self.octaves - i,
        {
            let offset = offsets[i as usize];
            let sample_x = sample_along(x, half_width, scale, frequency, offset.x);
            let sample_y = sample_along(z, half_height, scale, frequency, offset.y);
            let value = centre(sample(primitive, sample_x, sample_y));
            height = add_fixed(height, mul_fixed(value, amplitude));
            amplitude = mul_fixed(amplitude, self.persistance);
            frequency = mul_fixed(frequency, self.lacunarity);
            i = i + 1;
        }
        height
    }

    /// Computes the height of every cell before rescaling.
    pub fn raw_field<F: Fn(i64, i64) -> i64>(&self, offsets: &Vec<Offset>, primitive: &F) -> (raw: Vec<Vec<i64>>)
        requires
            accepts_every_point(*primitive),
            offsets@.len() == self.octaves,
        ensures
            is_grid(cells_of(raw), self.map_width as int, self.map_height as int),
            is_noise_function(*primitive) ==> cells_of(raw) == self.raw_heights(
                offsets@,
                *primitive,
            ),
    {
        let mut raw: Vec<Vec<i64>> = Vec::new();
        let mut x: u32 = 0;
        while x < self.map_width
            invariant
                x <= self.map_width,
                accepts_every_point(*primitive),
                offsets@.len() == self.octaves,
                raw@.len() == x,
                forall|a: int| 0 <= a < x ==> (#[trigger] raw@[a])@.len() == self.map_height,
                is_noise_function(*primitive) ==> forall|a: int|
                    0 <= a < x ==> (#[trigger] raw@[a])@ == self.raw_heights(
                        offsets@,
                        *primitive,
                    )[a],
            decreases self.map_width - x,
        {
            let mut column: Vec<i64> = Vec::new();
            let mut z: u32 = 0;
            while z < self.map_height
                invariant
                    x < self.map_width,
                    z <= self.map_height,
                    accepts_every_point(*primitive),
                    offsets@.len() == self.octaves,
                    column@.len() == z,
                    is_noise_function(*primitive) ==> forall|b: int|
                        0 <= b < z ==> #[trigger] column@[b] == self.height_through(
                            offsets@,
                            *primitive,
                            x as int,
                            b,
                            self.octaves as nat,
                        ),
                decreases self.map_height - z,
            {
                column.push(self.cell_height(offsets, primitive, x, z));
                z = z + 1;
            }
            raw.push(column);
            x = x + 1;
        }
        raw
    }

    /// Generates the field for given octave offsets: the heights of all
    /// cells, rescaled onto the unit interval.
    pub fn height_field<F: Fn(i64, i64) -> i64>(&self, offsets: &Vec<Offset>, primitive: &F) -> (map: NoiseMap)
        requires
            accepts_every_point(*primitive),
            offsets@.len() == self.octaves,
        ensures
            is_noise_function(*primitive) ==> map@ == self.field_from(offsets@, *primitive),
            is_grid(map@, self.map_width as int, self.map_height as int),
            map.width == self.map_width,
            map.height == self.map_height,
            self.map_width >= 1 && self.map_height >= 1 ==> map.is_generated(),
            self.map_width == 0 || self.map_height == 0 ==> map.min == 0 && map.max == 0,
    {
        let raw = self.raw_field(offsets, primitive);
        NoiseMap::from_heights(&raw, self.map_width, self.map_height)
    }

    /// Generates the field of these parameters: draws the octave offsets
    /// that the seed gives, adds up the octaves of the primitive for every
    /// cell, and rescales the heights onto the unit interval. Where the grid
    /// has at least one cell, the field is a finished one. Where the
    /// primitive is a noise function, the field is fixed by the parameters
    /// and the primitive: the same of both give the same field.
    pub fn generate<F: Fn(i64, i64) -> i64>(&self, primitive: &F) -> (map: NoiseMap)
        requires
            accepts_every_point(*primitive),
        ensures
            is_noise_function(*primitive) ==> map@ == self.field(*primitive),
            is_grid(map@, self.map_width as int, self.map_height as int),
            map.width == self.map_width,
            map.height == self.map_height,
            self.map_width >= 1 && self.map_height >= 1 ==> map.is_generated(),
            self.map_width == 0 || self.map_height == 0 ==> map.min == 0 && map.max == 0,
    {
        let offsets = octave_offsets(self.seed, self.octaves, self.offset);
        self.height_field(&offsets, primitive)
    }
}

/// A noise generator: its parameters, the field it last generated, and a
/// flag that tells a consumer that the field is new.
pub struct Noise {
    pub noise_map: NoiseMap,
    pub map_width: u32,
    pub map_height: u32,
    pub scale: i64,
    pub octaves: u32,
    pub persistance: i64,
    pub lacunarity: i64,
    pub seed: i32,
    pub offset: Offset,
    pub updated: bool,
}

impl Noise {
    /// The parameters that the next generation run will use.
    pub open spec fn parameters(self) -> NoiseParameters {
        NoiseParameters {
            map_width: self.map_width,
            map_height: self.map_height,
            seed: self.seed,
            scale: self.scale,
            octaves: self.octaves,
            persistance: self.persistance,
            lacunarity: self.lacunarity,
            offset: self.offset,
        }
    }

    /// Whether the cells on hand form a grid of the size that the parameters
    /// state, with at least one cell.
    pub open spec fn has_grid(self) -> bool {
        &&& self.noise_map.has_cells()
        &&& self.noise_map.width == self.map_width
        &&& self.noise_map.height == self.map_height
    }

    /// Whether the field on hand is a finished one of the size that the
    /// parameters state.
    pub open spec fn has_field(self) -> bool {
        &&& self.noise_map.is_generated()
        &&& self.noise_map.width == self.map_width
        &&& self.noise_map.height == self.map_height
    }

    /// Tells whether the cells on hand form a grid of the size that the
    /// parameters state, with at least one cell.
    pub fn holds_a_grid(&self) -> (holds: bool)
        ensures
            holds == self.has_grid(),
    {
        self.map_width >= 1 && self.map_height >= 1 && self.noise_map.width == self.map_width
            && self.noise_map.height == self.map_height && self.noise_map.is_grid_of(
            self.map_width,
            self.map_height,
        )
    }

    /// A generator with the given parameters and no field yet.
    pub fn new(
        map_width: u32,
        map_height: u32,
        seed: i32,
        scale: i64,
        octaves: u32,
        persistance: i64,
        lacunarity: i64,
        offset: Offset,
    ) -> (noise: Noise)
        ensures
            noise.parameters() == (NoiseParameters {
                map_width,
                map_height,
                seed,
                scale,
                octaves,
                persistance,
                lacunarity,
                offset,
            }),
            noise.noise_map@ == Seq::<Seq<i64>>::empty(),
            noise.noise_map.min == 0,
            noise.noise_map.max == 0,
            noise.noise_map.width == 0,
            noise.noise_map.height == 0,
            !noise.updated,
    {
        Noise {
            map_width,
            map_height,
            seed,
            scale,
            octaves,
            persistance,
            lacunarity,
            offset,
            noise_map: NoiseMap::default(),
            updated: false,
        }
    }

    /// Copies the parameters out.
    pub fn current_parameters(&self) -> (parameters: NoiseParameters)
        ensures
            parameters == self.parameters(),
    {
        NoiseParameters {
            map_width: self.map_width,
            map_height: self.map_height,
            seed: self.seed,
            scale: self.scale,
            octaves: self.octaves,
            persistance: self.persistance,
            lacunarity: self.lacunarity,
            offset: self.offset,
        }
    }

    /// Generates a new field from the parameters and puts it in place of the
    /// old one. A scale that is zero or negative is first replaced by the
    /// least one allowed. Where the grid has at least one cell, the field is
    /// a finished one. Where the primitive is a noise function, the field is
    /// fixed by the parameters and the primitive: the same of both give the
    /// same field.
    pub fn generate<F: Fn(i64, i64) -> i64>(&mut self, primitive: F)
        requires
            accepts_every_point(primitive),
        ensures
            is_noise_function(primitive) ==> final(self).noise_map@ == old(self).parameters().field(
                primitive,
            ),
            is_grid(
                final(self).noise_map@,
                old(self).map_width as int,
                old(self).map_height as int,
            ),
            final(self).noise_map.width == old(self).map_width,
            final(self).noise_map.height == old(self).map_height,
            old(self).map_width >= 1 && old(self).map_height >= 1 ==> final(self).has_field(),
            old(self).map_width == 0 || old(self).map_height == 0 ==> final(self).noise_map.min
                == 0 && final(self).noise_map.max == 0,
            final(self).updated,
            final(self).scale > 0,
            final(self).parameters() == old(self).parameters().guarded(),
    {
        let parameters = self.current_parameters();
        self.scale = guard_scale(self.scale);
        self.noise_map = parameters.generate(&primitive);
        self.updated = true;
    }

    /// The colour of the band that a height falls into.
    pub fn get_color_for_height(height: i64) -> (color: Color)
        ensures
            color == Biome::of(height as int).tint(),
    {
        Biome::classify(height).color()
    }
}

/// Two generators with the same parameters, seed included, yield the same
/// field from the same primitive, whatever fields they held before.
pub proof fn lemma_generation_is_deterministic<F: Fn(i64, i64) -> i64>(first: Noise, second: Noise, primitive: F)
    requires
        first.parameters() == second.parameters(),
    ensures
        first.parameters().field(primitive) == second.parameters().field(primitive),
        first.parameters().guarded().field(primitive) == first.parameters().field(primitive),
{
    first.parameters().lemma_guarded_field(primitive);
}

} // verus!
