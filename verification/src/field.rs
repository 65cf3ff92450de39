//! Height fields and their rescaling onto the unit interval.

use crate::fixed::UNIT;
use vstd::prelude::*;

verus! {

/// The value that every cell of a flat field is given: one half.
pub const FLAT_LEVEL: i64 = 500_000;

/// Whether `cells` is a grid of `width` columns with `height` cells each.
pub open spec fn is_grid(cells: Seq<Seq<i64>>, width: int, height: int) -> bool {
    &&& cells.len() == width
    &&& forall|x: int| 0 <= x < width ==> (#[trigger] cells[x]).len() == height
}

/// Whether no cell of `cells` lies outside `low ..= high`.
pub open spec fn within(cells: Seq<Seq<i64>>, low: int, high: int) -> bool {
    forall|x: int, z: int|
        0 <= x < cells.len() && 0 <= z < cells[x].len() ==> low <= #[trigger] cells[x][z] <= high
}

/// Whether some cell of `cells` holds exactly `value`.
pub open spec fn attains(cells: Seq<Seq<i64>>, value: int) -> bool {
    exists|x: int, z: int|
        0 <= x < cells.len() && 0 <= z < cells[x].len() && #[trigger] cells[x][z] == value
}

/// Whether `low` is the least and `high` the greatest value among `cells`.
pub open spec fn are_extrema(cells: Seq<Seq<i64>>, low: int, high: int) -> bool {
    &&& within(cells, low, high)
    &&& attains(cells, low)
    &&& attains(cells, high)
}

/// The least value among `cells`.
pub open spec fn lowest(cells: Seq<Seq<i64>>) -> int {
    choose|low: int| within(cells, low, i64::MAX as int) && attains(cells, low)
}

/// The greatest value among `cells`.
pub open spec fn highest(cells: Seq<Seq<i64>>) -> int {
    choose|high: int| within(cells, i64::MIN as int, high) && attains(cells, high)
}

/// Where `value` lies between `low` and `high`, as a fraction of the way
/// from the one to the other; one half where the two coincide.
pub open spec fn rescaled(value: int, low: int, high: int) -> int {
    if high == low {
        FLAT_LEVEL as int
    } else {
        (value - low) * UNIT / (high - low)
    }
}

/// `cells` with every value replaced by its place between the extrema.
pub open spec fn normalized(cells: Seq<Seq<i64>>) -> Seq<Seq<i64>> {
    Seq::new(
        cells.len(),
        |x: int|
            Seq::new(
                cells[x].len(),
                |z: int| rescaled(cells[x][z] as int, lowest(cells), highest(cells)) as i64,
            ),
    )
}

/// The extrema of a field are unique: whatever meets their definition is
/// `lowest` and `highest`.
pub proof fn lemma_extrema_unique(cells: Seq<Seq<i64>>, low: int, high: int)
    requires
        are_extrema(cells, low, high),
    ensures
        lowest(cells) == low,
        highest(cells) == high,
        low <= high,
{
}

/// The rescaled extrema: a field that is not flat reaches zero and one, and
/// nothing leaves the unit interval.
pub proof fn lemma_rescaled_bounds(value: int, low: int, high: int)
    requires
        low <= value <= high,
    ensures
        0 <= rescaled(value, low, high) <= UNIT,
        low < high ==> rescaled(low, low, high) == 0,
        low < high ==> rescaled(high, low, high) == UNIT,
        low == high ==> rescaled(value, low, high) == FLAT_LEVEL,
{
    if low < high {
        let span = high - low;
        let part = value - low;
        assert(0 <= part * UNIT / span <= UNIT) by (nonlinear_arith)
            requires
                0 <= part <= span,
                span > 0,
                UNIT == 1_000_000,
        ;
        assert(span * UNIT / span == UNIT) by (nonlinear_arith)
            requires
                span > 0,
        ;
        assert((low - low) * UNIT / span == 0) by (nonlinear_arith)
            requires
                span > 0,
        ;
    }
}

/// The cells of a vector of columns.
pub open spec fn cells_of(data: Vec<Vec<i64>>) -> Seq<Seq<i64>> {
    Seq::new(data@.len(), |x: int| data@[x]@)
}

/// Finds the least and the greatest value of a grid that has at least one cell.
pub fn extrema(cells: &Vec<Vec<i64>>, width: usize, height: usize) -> (ends: (i64, i64))
    requires
        is_grid(cells_of(*cells), width as int, height as int),
        width >= 1,
        height >= 1,
    ensures
        are_extrema(cells_of(*cells), ends.0 as int, ends.1 as int),
        ends.0 == lowest(cells_of(*cells)),
        ends.1 == highest(cells_of(*cells)),
{
    let ghost grid = cells_of(*cells);
    assert(grid[0].len() == height);
    let mut low: i64 = cells[0][0];
    let mut high: i64 = cells[0][0];
    let mut x: usize = 0;
    while x < width
        invariant
            x <= width,
            grid == cells_of(*cells),
            is_grid(grid, width as int, height as int),
            attains(grid, low as int),
            attains(grid, high as int),
            forall|a: int, b: int|
                0 <= a < x && 0 <= b < height ==> low <= #[trigger] grid[a][b] <= high,
        decreases width - x,
    {
        let column = &cells[x];
        let mut z: usize = 0;
        while z < height
            invariant
                x < width,
                z <= height,
                grid == cells_of(*cells),
                is_grid(grid, width as int, height as int),
                column@ == grid[x as int],
                attains(grid, low as int),
                attains(grid, high as int),
                forall|a: int, b: int|
                    0 <= a < x && 0 <= b < height ==> low <= #[trigger] grid[a][b] <= high,
                forall|b: int| 0 <= b < z ==> low <= #[trigger] grid[x as int][b] <= high,
            decreases height - z,
        {
            let value = column[z];
            if value > high {
                high = value;
            }
            if value < low {
                low = value;
            }
            z = z + 1;
        }
        x = x + 1;
    }
    proof {
        lemma_extrema_unique(grid, low as int, high as int);
    }
    (low, high)
}

/// Places `value` between `low` and `high`: zero at `low`, one at `high`,
/// and one half where the two coincide.
pub fn normalize_height(value: i64, low: i64, high: i64) -> (placed: i64)
    requires
        low <= value <= high,
    ensures
        placed == rescaled(value as int, low as int, high as int),
        0 <= placed <= UNIT,
{
    proof {
        lemma_rescaled_bounds(value as int, low as int, high as int);
    }
    if high == low {
        FLAT_LEVEL
    } else {
        let part: i128 = value as i128 - low as i128;
        let span: i128 = high as i128 - low as i128;
        let wide: i128 = part * 1_000_000;
        assert(wide == part * UNIT) by (nonlinear_arith)
            requires
                wide == part * 1_000_000,
                UNIT == 1_000_000,
        ;
        (wide / span) as i64
    }
}

/// What rescaling does to a field whose extrema are `low` and `high`.
proof fn lemma_normalized_between(cells: Seq<Seq<i64>>, low: int, high: int)
    requires
        are_extrema(cells, low, high),
    ensures
        normalized(cells).len() == cells.len(),
        forall|x: int|
            0 <= x < cells.len() ==> (#[trigger] normalized(cells)[x]).len() == cells[x].len(),
        within(normalized(cells), 0, UNIT as int),
        low < high ==> are_extrema(normalized(cells), 0, UNIT as int),
        low == high ==> are_extrema(normalized(cells), FLAT_LEVEL as int, FLAT_LEVEL as int),
{
    lemma_extrema_unique(cells, low, high);
    let after = normalized(cells);
    assert forall|x: int, z: int| 0 <= x < after.len() && 0 <= z < after[x].len() implies 0
        <= #[trigger] after[x][z] <= UNIT && (low == high ==> after[x][z] == FLAT_LEVEL) by {
        lemma_rescaled_bounds(cells[x][z] as int, low, high);
    }
    let (lx, lz) = choose|x: int, z: int|
        0 <= x < cells.len() && 0 <= z < cells[x].len() && #[trigger] cells[x][z] == low;
    let (hx, hz) = choose|x: int, z: int|
        0 <= x < cells.len() && 0 <= z < cells[x].len() && #[trigger] cells[x][z] == high;
    lemma_rescaled_bounds(low, low, high);
    lemma_rescaled_bounds(high, low, high);
    assert(after[lx][lz] == rescaled(low, low, high));
    assert(after[hx][hz] == rescaled(high, low, high));
}

/// The least and the greatest of the first `upto` values of a column.
proof fn lemma_column_extrema(column: Seq<i64>, upto: int) -> (ends: (int, int))
    requires
        1 <= upto <= column.len(),
    ensures
        forall|b: int| 0 <= b < upto ==> ends.0 <= #[trigger] column[b] <= ends.1,
        exists|b: int| 0 <= b < upto && #[trigger] column[b] == ends.0,
        exists|b: int| 0 <= b < upto && #[trigger] column[b] == ends.1,
    decreases upto,
{
    if upto == 1 {
        (column[0] as int, column[0] as int)
    } else {
        let (low, high) = lemma_column_extrema(column, upto - 1);
        let last = column[upto - 1] as int;
        (if last < low { last } else { low }, if last > high { last } else { high })
    }
}

/// The least and the greatest value within the first `upto` columns of a grid.
proof fn lemma_columns_extrema(cells: Seq<Seq<i64>>, width: int, height: int, upto: int) -> (ends: (int, int))
    requires
        is_grid(cells, width, height),
        height >= 1,
        1 <= upto <= width,
    ensures
        forall|a: int, b: int|
            0 <= a < upto && 0 <= b < height ==> ends.0 <= #[trigger] cells[a][b] <= ends.1,
        exists|a: int, b: int| 0 <= a < upto && 0 <= b < height && #[trigger] cells[a][b] == ends.0,
        exists|a: int, b: int| 0 <= a < upto && 0 <= b < height && #[trigger] cells[a][b] == ends.1,
    decreases upto,
{
    let column = cells[upto - 1];
    let (column_low, column_high) = lemma_column_extrema(column, height);
    let lb = choose|b: int| 0 <= b < height && #[trigger] column[b] == column_low;
    let hb = choose|b: int| 0 <= b < height && #[trigger] column[b] == column_high;
    if upto == 1 {
        (column_low, column_high)
    } else {
        let (low, high) = lemma_columns_extrema(cells, width, height, upto - 1);
        let (la, lb2) = choose|a: int, b: int|
            0 <= a < upto - 1 && 0 <= b < height && #[trigger] cells[a][b] == low;
        let (ha, hb2) = choose|a: int, b: int|
            0 <= a < upto - 1 && 0 <= b < height && #[trigger] cells[a][b] == high;
        let new_low = if column_low < low { column_low } else { low };
        let new_high = if column_high > high { column_high } else { high };
        assert(cells[if column_low < low { upto - 1 } else { la }][if column_low < low { lb } else { lb2 }]
            == new_low);
        assert(cells[if column_high > high { upto - 1 } else { ha }][if column_high > high { hb } else { hb2 }]
            == new_high);
        (new_low, new_high)
    }
}

/// A grid with at least one cell has a least and a greatest value.
pub proof fn lemma_extrema_exist(cells: Seq<Seq<i64>>, width: int, height: int)
    requires
        is_grid(cells, width, height),
        width >= 1,
        height >= 1,
    ensures
        are_extrema(cells, lowest(cells), highest(cells)),
        lowest(cells) <= highest(cells),
{
    let (low, high) = lemma_columns_extrema(cells, width, height, width);
    lemma_extrema_unique(cells, low, high);
}

/// Rescaling keeps the shape of a field and brings every value into the
/// unit interval. Where the field is not flat, some cell becomes zero and
/// some cell becomes one; where it is flat, every cell becomes one half.
pub proof fn lemma_normalized_range(cells: Seq<Seq<i64>>, width: int, height: int)
    requires
        is_grid(cells, width, height),
        width >= 1,
        height >= 1,
    ensures
        is_grid(normalized(cells), width, height),
        within(normalized(cells), 0, UNIT as int),
        lowest(cells) < highest(cells) ==> attains(normalized(cells), 0) && attains(
            normalized(cells),
            UNIT as int,
        ),
        lowest(cells) == highest(cells) ==> within(
            normalized(cells),
            FLAT_LEVEL as int,
            FLAT_LEVEL as int,
        ),
{
    lemma_extrema_exist(cells, width, height);
    lemma_normalized_between(cells, lowest(cells), highest(cells));
}

/// A height field: a grid of fixed-point heights, stored column by column,
/// with its least and greatest value.
#[derive(Debug)]
pub struct NoiseMap {
    pub data: Vec<Vec<i64>>,
    pub min: i64,
    pub max: i64,
    pub width: u32,
    pub height: u32,
}

impl View for NoiseMap {
    type V = Seq<Seq<i64>>;

    open spec fn view(&self) -> Seq<Seq<i64>> {
        cells_of(self.data)
    }
}

impl Default for NoiseMap {
    /// The field before anything was generated: no cells at all.
    fn default() -> (map: NoiseMap)
        ensures
            map@ == Seq::<Seq<i64>>::empty(),
            map.min == 0,
            map.max == 0,
            map.width == 0,
            map.height == 0,
    {
        let map = NoiseMap { data: Vec::new(), min: 0, max: 0, width: 0, height: 0 };
        map
    }
}

/// Counts the cells of a grid of `width` columns with `height` cells each.
pub fn count_cells(width: u32, height: u32) -> (count: u64)
    ensures
        count == width * height,
{
    assert(0 <= width * height <= 0xffff_ffff * 0xffff_ffff) by (nonlinear_arith)
        requires
            0 <= width <= 0xffff_ffff,
            0 <= height <= 0xffff_ffff,
    ;
    width as u64 * height as u64
}

impl NoiseMap {
    /// Whether the cells form a grid of the stated size that has at least
    /// one cell.
    pub open spec fn has_cells(self) -> bool {
        &&& self.width >= 1
        &&& self.height >= 1
        &&& is_grid(self@, self.width as int, self.height as int)
    }

    /// Tells whether the cells form a grid of `width` columns with `height`
    /// cells each.
    pub fn is_grid_of(&self, width: u32, height: u32) -> (grid: bool)
        ensures
            grid == is_grid(self@, width as int, height as int),
    {
        if self.data.len() != width as usize {
            return false;
        }
        let mut x: usize = 0;
        while x < self.data.len()
            invariant
                x <= self.data@.len(),
                self.data@.len() == width,
                forall|a: int| 0 <= a < x ==> (#[trigger] self@[a]).len() == height,
            decreases self.data@.len() - x,
        {
            if self.data[x].len() != height as usize {
                assert(self@[x as int].len() != height);
                return false;
            }
            x += 1;
        }
        true
    }

    /// Whether this is a finished field: a grid of the stated size that has
    /// at least one cell, every cell within the unit interval, `min` and
    /// `max` the extrema of the cells, and these either zero and one or, for
    /// a flat field, both one half.
    pub open spec fn is_generated(self) -> bool {
        &&& self.width >= 1
        &&& self.height >= 1
        &&& is_grid(self@, self.width as int, self.height as int)
        &&& within(self@, 0, UNIT as int)
        &&& are_extrema(self@, self.min as int, self.max as int)
        &&& (self.min == 0 && self.max == UNIT) || (self.min == FLAT_LEVEL && self.max
            == FLAT_LEVEL)
    }

    /// Builds the finished field of a grid of raw heights: every height is
    /// replaced by its place between the least and the greatest of them. A
    /// grid without cells stays without cells.
    pub fn from_heights(raw: &Vec<Vec<i64>>, width: u32, height: u32) -> (map: NoiseMap)
        requires
            is_grid(cells_of(*raw), width as int, height as int),
        ensures
            map@ == normalized(cells_of(*raw)),
            is_grid(map@, width as int, height as int),
            map.width == width,
            map.height == height,
            width >= 1 && height >= 1 ==> map.is_generated(),
            width >= 1 && height >= 1 ==> map.min == rescaled(
                lowest(cells_of(*raw)),
                lowest(cells_of(*raw)),
                highest(cells_of(*raw)),
            ),
            width >= 1 && height >= 1 ==> map.max == rescaled(
                highest(cells_of(*raw)),
                lowest(cells_of(*raw)),
                highest(cells_of(*raw)),
            ),
            width == 0 || height == 0 ==> map.min == 0 && map.max == 0,
    {
        let ghost grid = cells_of(*raw);
        let some_cell = width >= 1 && height >= 1;
        let (low, high) = if some_cell {
            extrema(raw, width as usize, height as usize)
        } else {
            (0, 0)
        };
        let mut data: Vec<Vec<i64>> = Vec::new();
        let mut x: usize = 0;
        while x < width as usize
            invariant
                x <= width,
                grid == cells_of(*raw),
                is_grid(grid, width as int, height as int),
                some_cell ==> are_extrema(grid, low as int, high as int),
                some_cell ==> low == lowest(grid) && high == highest(grid),
                some_cell == (width >= 1 && height >= 1),
                data@.len() == x,
                forall|a: int|
                    0 <= a < x ==> (#[trigger] data@[a])@ == Seq::new(
                        height as nat,
                        |z: int| rescaled(grid[a][z] as int, lowest(grid), highest(grid)) as i64,
                    ),
            decreases width - x,
        {
            let column = &raw[x];
            let mut placed: Vec<i64> = Vec::new();
            let mut z: usize = 0;
            while z < height as usize
                invariant
                    x < width,
                    z <= height,
                    grid == cells_of(*raw),
                    is_grid(grid, width as int, height as int),
                    some_cell ==> are_extrema(grid, low as int, high as int),
                    some_cell ==> low == lowest(grid) && high == highest(grid),
                    some_cell == (width >= 1 && height >= 1),
                    column@ == grid[x as int],
                    placed@.len() == z,
                    forall|b: int|
                        0 <= b < z ==> #[trigger] placed@[b] == rescaled(
                            grid[x as int][b] as int,
                            lowest(grid),
                            highest(grid),
                        ),
                decreases height - z,
            {
                let value = column[z];
                placed.push(normalize_height(value, low, high));
                z = z + 1;
            }
            assert(placed@ =~= Seq::new(
                height as nat,
                |z: int| rescaled(grid[x as int][z] as int, lowest(grid), highest(grid)) as i64,
            ));
            data.push(placed);
            x = x + 1;
        }
        let (least, greatest) = if some_cell {
            (normalize_height(low, low, high), normalize_height(high, low, high))
        } else {
            (0, 0)
        };
        let map = NoiseMap { data, min: least, max: greatest, width, height };
        proof {
            assert(map@ =~= normalized(grid));
            if some_cell {
                lemma_normalized_between(grid, low as int, high as int);
                lemma_rescaled_bounds(low as int, low as int, high as int);
                lemma_rescaled_bounds(high as int, low as int, high as int);
            }
        }
        map
    }
}

} // verus!
