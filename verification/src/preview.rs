//! Pictures of a field for the eye: a grey image and two textures.

use crate::biome::{grey_level, grey_of, Biome, Color};
use crate::field::{count_cells, is_grid, NoiseMap};
use crate::noise::Noise;
use crate::terrain::lemma_split_index;
use vstd::prelude::*;

verus! {

/// The byte that stands at `place` in the image of a field `width` cells
/// wide: pixels follow one another row by row, three equal bytes to a
/// pixel, and the pixel in column `x` of row `y` shows the cell `(x, y)` in
/// its shade of grey.
pub open spec fn image_byte(cells: Seq<Seq<i64>>, width: int, place: int) -> u8 {
    let pixel = place / 3;
    grey_of(cells[pixel % width][pixel / width] as int) as u8
}

impl NoiseMap {
    /// The bytes of the grey image of this field.
    pub open spec fn image_bytes(self) -> Seq<u8> {
        Seq::new(
            (3 * (self.width * self.height)) as nat,
            |place: int| image_byte(self@, self.width as int, place),
        )
    }

    /// Renders the field as a grey image of its own width and height: the
    /// raw bytes, row by row, red, green and blue for each pixel.
    pub fn to_image(&self) -> (pixels: Vec<u8>)
        requires
            is_grid(self@, self.width as int, self.height as int),
        ensures
            pixels@ == self.image_bytes(),
            pixels@.len() == 3 * self.width * self.height,
    {
        let width: usize = self.width as usize;
        let height: usize = self.height as usize;
        let ghost cells = self@;
        let ghost w = width as int;
        let ghost h = height as int;
        let mut pixels: Vec<u8> = Vec::new();
        let mut y: usize = 0;
        while y < height
            invariant
                y <= height,
                w == width,
                h == height,
                w == self.width,
                h == self.height,
                cells == self@,
                is_grid(cells, w, h),
                pixels@.len() == 3 * (y * w),
                forall|place: int|
                    0 <= place < pixels@.len() ==> #[trigger] pixels@[place] == image_byte(
                        cells,
                        w,
                        place,
                    ),
            decreases height - y,
        {
            let mut x: usize = 0;
            while x < width
                invariant
                    y < height,
                    x <= width,
                    w == width,
                    h == height,
                    w == self.width,
                    h == self.height,
                    cells == self@,
                    is_grid(cells, w, h),
                    pixels@.len() == 3 * (y * w + x),
                    forall|place: int|
                        0 <= place < pixels@.len() ==> #[trigger] pixels@[place] == image_byte(
                            cells,
                            w,
                            place,
                        ),
                decreases width - x,
            {
                assert(cells.len() == w && cells[x as int].len() == h);
                let shade = grey_level(self.data[x][y]);
                proof {
                    lemma_split_index(y as int, x as int, w);
                }
                pixels.push(shade);
                pixels.push(shade);
                pixels.push(shade);
                x += 1;
            }
            assert((y + 1) * w == y * w + w) by (nonlinear_arith);
            y += 1;
        }
        proof {
            assert(3 * (h * w) == 3 * (w * h) && 3 * (w * h) == 3 * w * h) by (nonlinear_arith);
        }
        pixels
    }
}

/// The colour of a place of a texture that nothing was painted on.
pub open spec fn black() -> Color {
    Color { r: 0, g: 0, b: 0 }
}

/// The colour that a texture shows a height in: the colour of its band, or
/// its shade of grey.
pub open spec fn shade_of(bands: bool, height: int) -> Color {
    if bands {
        Biome::of(height).tint()
    } else {
        Color { r: grey_of(height) as u8, g: grey_of(height) as u8, b: grey_of(height) as u8 }
    }
}

/// The colour at `place` of a texture while it is painted: all cells of the
/// columns before `x` and the first `y` cells of column `x` are done. The
/// cell `(a, b)` is painted at the place `a * width + b`, and where two
/// cells share a place the later one covers the earlier.
pub open spec fn painted_until(
    cells: Seq<Seq<i64>>,
    width: int,
    height: int,
    bands: bool,
    x: int,
    y: int,
    place: int,
) -> Color {
    if x * width <= place < x * width + y {
        shade_of(bands, cells[x][place - x * width] as int)
    } else if x >= 1 {
        let a = if place / width < x - 1 {
            place / width
        } else {
            x - 1
        };
        let b = place - a * width;
        if b < height {
            shade_of(bands, cells[a][b] as int)
        } else {
            black()
        }
    } else {
        black()
    }
}

/// The colour at `place` of the finished texture of a field `width` cells
/// wide and `height` cells deep.
pub open spec fn texture_pixel(cells: Seq<Seq<i64>>, width: int, height: int, bands: bool, place: int) -> Color {
    painted_until(cells, width, height, bands, width, 0, place)
}

/// For a positive divisor, a quotient lies below a bound exactly when the
/// dividend lies below the bound's multiple.
proof fn lemma_quotient_below(place: int, width: int, x: int)
    requires
        width > 0,
        place >= 0,
    ensures
        place / width < x <==> place < x * width,
{
    assert(place / width < x <==> place < x * width) by (nonlinear_arith)
        requires
            width > 0,
            place >= 0,
    ;
}

/// Finishing a column is the same as standing before the next.
proof fn lemma_column_done(cells: Seq<Seq<i64>>, width: int, height: int, bands: bool, x: int, place: int)
    requires
        width >= 1,
        height >= 0,
        0 <= x,
        0 <= place,
    ensures
        painted_until(cells, width, height, bands, x, height, place) == painted_until(
            cells,
            width,
            height,
            bands,
            x + 1,
            0,
            place,
        ),
{
    lemma_quotient_below(place, width, x);
    lemma_quotient_below(place, width, x - 1);
    assert((x - 1) * width == x * width - width) by (nonlinear_arith);
}

impl Noise {
    /// Whether a texture of this generator's field can be painted: the
    /// cells form a grid of the stated size, their number fits in 32 bits,
    /// and every cell has its place on the texture.
    pub open spec fn fits_a_texture(self) -> bool {
        &&& is_grid(self.noise_map@, self.map_width as int, self.map_height as int)
        &&& self.map_width * self.map_height <= u32::MAX
        &&& self.map_width <= 1 || self.map_height == 0 || self.map_width <= self.map_height
    }

    /// Tells whether a texture of this generator's field can be painted.
    pub fn can_paint(&self) -> (fits: bool)
        ensures
            fits == self.fits_a_texture(),
    {
        self.noise_map.is_grid_of(self.map_width, self.map_height) && count_cells(
            self.map_width,
            self.map_height,
        ) <= 0xffff_ffff && (self.map_width <= 1 || self.map_height == 0 || self.map_width
            <= self.map_height)
    }

    /// The texture of this generator's field, in band colours or in grey.
    pub open spec fn texture(self, bands: bool) -> Seq<Color> {
        Seq::new(
            (self.map_width * self.map_height) as nat,
            |place: int|
                texture_pixel(
                    self.noise_map@,
                    self.map_width as int,
                    self.map_height as int,
                    bands,
                    place,
                ),
        )
    }

    /// Paints a texture as wide and as high as the field, on black.
    fn paint(&self, bands: bool) -> (pixels: Vec<Color>)
        requires
            self.fits_a_texture(),
        ensures
            pixels@ == self.texture(bands),
    {
        let width: usize = self.map_width as usize;
        let height: usize = self.map_height as usize;
        let ghost cells = self.noise_map@;
        let ghost w = width as int;
        let ghost h = height as int;
        assert(0 <= w * h <= u32::MAX) by (nonlinear_arith)
            requires
                w >= 0,
                h >= 0,
                w * h <= u32::MAX,
        ;
        let count: usize = width * height;
        let mut pixels: Vec<Color> = Vec::new();
        let mut made: usize = 0;
        while made < count
            invariant
                made <= count,
                pixels@.len() == made,
                forall|place: int| 0 <= place < made ==> #[trigger] pixels@[place] == black(),
            decreases count - made,
        {
            pixels.push(Color { r: 0, g: 0, b: 0 });
            made += 1;
        }
        let mut x: usize = 0;
        while x < width
            invariant
                x <= width,
                w == width,
                h == height,
                w == self.map_width,
                h == self.map_height,
                cells == self.noise_map@,
                self.fits_a_texture(),
                count == w * h,
                pixels@.len() == count,
                forall|place: int|
                    0 <= place < count ==> #[trigger] pixels@[place] == painted_until(
                        cells,
                        w,
                        h,
                        bands,
                        x as int,
                        0,
                        place,
                    ),
            decreases width - x,
        {
            let mut y: usize = 0;
            while y < height
                invariant
                    x < width,
                    y <= height,
                    w == width,
                    h == height,
                    w == self.map_width,
                    h == self.map_height,
                    cells == self.noise_map@,
                    self.fits_a_texture(),
                    count == w * h,
                    pixels@.len() == count,
                    forall|place: int|
                        0 <= place < count ==> #[trigger] pixels@[place] == painted_until(
                            cells,
                            w,
                            h,
                            bands,
                            x as int,
                            y as int,
                            place,
                        ),
                decreases height - y,
            {
                assert(cells.len() == w && cells[x as int].len() == h);
                assert(0 <= x * w + y < w * h) by (nonlinear_arith)
                    requires
                        0 <= x < w,
                        0 <= y < h,
                        w <= 1 || w <= h,
                ;
                let cell = self.noise_map.data[x][y];
                let color = if bands {
                    Noise::get_color_for_height(cell)
                } else {
                    let shade = grey_level(cell);
                    Color { r: shade, g: shade, b: shade }
                };
                pixels.set(x * width + y, color);
                y += 1;
            }
            proof {
                assert forall|place: int| 0 <= place < count implies #[trigger] pixels@[place]
                    == painted_until(cells, w, h, bands, x + 1, 0, place) by {
                    lemma_column_done(cells, w, h, bands, x as int, place);
                }
            }
            x += 1;
        }
        pixels
    }

    /// Paints the field as a grey texture as wide and as high as the field.
    /// The cell `(x, y)` is painted at the place `x * width + y`; where two
    /// cells share a place the later one covers the earlier, and a place
    /// that no cell is painted at stays black.
    pub fn to_texture(&self) -> (pixels: Vec<Color>)
        requires
            self.fits_a_texture(),
        ensures
            pixels@ == self.texture(false),
            pixels@.len() == self.map_width * self.map_height,
    {
        self.paint(false)
    }

    /// Paints the field in the colours of its bands, laid out as the grey
    /// texture is.
    pub fn to_color_map(&self) -> (pixels: Vec<Color>)
        requires
            self.fits_a_texture(),
        ensures
            pixels@ == self.texture(true),
            pixels@.len() == self.map_width * self.map_height,
    {
        self.paint(true)
    }
}

} // verus!
