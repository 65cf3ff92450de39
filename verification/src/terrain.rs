//! The terrain mesher: from a finished height field to a coloured triangle mesh.
//!
//! The grid is laid out around the origin, one unit between neighbours. Each
//! cell becomes one vertex, and each square of four neighbouring cells
//! becomes two triangles.

use crate::biome::{displayed_height, shown_height, Biome, Color, SEA_LEVEL};
use crate::field::{count_cells, is_grid, NoiseMap};
use crate::fixed::UNIT;
use crate::noise::Noise;
use vstd::prelude::*;

verus! {

/// Half of one whole, in fixed-point units.
pub const HALF_UNIT: i64 = 500_000;

/// One corner of the mesh: where it stands, in fixed-point units, and its colour.
#[derive(Clone, Copy, Debug, PartialEq, Eq, Structural)]
pub struct Vertex {
    pub x: i64,
    pub y: i64,
    pub z: i64,
    pub color: Color,
}

/// A triangle mesh as plain sequences: the vertices, and the triangles as
/// indices into them, three to a triangle.
pub ghost struct MeshModel {
    pub vertices: Seq<Vertex>,
    pub triangles: Seq<i32>,
}

/// The vertex of the cell `(x, y)` of a field `width` cells wide and `height`
/// cells deep: the cell's place on a grid centred on the origin, raised to
/// the height it is drawn at, in the colour of its band.
pub open spec fn vertex_of(cells: Seq<Seq<i64>>, width: int, height: int, x: int, y: int) -> Vertex {
    Vertex {
        x: (x * UNIT - (width - 1) * HALF_UNIT) as i64,
        y: shown_height(cells[x][y] as int) as i64,
        z: ((height - 1) * HALF_UNIT - y * UNIT) as i64,
        color: Biome::of(cells[x][y] as int).tint(),
    }
}

/// The `corner`-th index of the two triangles that the square at vertex
/// `vertex` is split into, on a grid `height` cells deep.
pub open spec fn quad_corner(corner: int, vertex: int, height: int) -> int {
    if corner == 0 || corner == 4 {
        vertex
    } else if corner == 1 || corner == 3 {
        vertex + height + 1
    } else if corner == 2 {
        vertex + height
    } else {
        vertex + 1
    }
}

/// The vertex that stands at `index` in the mesh. Vertices follow the
/// cells column by column.
pub open spec fn vertex_at(cells: Seq<Seq<i64>>, width: int, height: int, index: int) -> Vertex {
    vertex_of(cells, width, height, index / height, index % height)
}

/// The vertex index that stands at `place` in the list of triangles. Squares
/// follow the cells column by column, leaving out the last column and the
/// last cell of each column, six indices to a square.
pub open spec fn triangle_index(height: int, place: int) -> int {
    let square = place / 6;
    let x = square / (height - 1);
    let y = square % (height - 1);
    quad_corner(place % 6, x * height + y, height)
}

/// The mesh of a field `width` cells wide and `height` cells deep.
pub open spec fn mesh_of(cells: Seq<Seq<i64>>, width: int, height: int) -> MeshModel {
    MeshModel {
        vertices: Seq::new((width * height) as nat, |i: int| vertex_at(cells, width, height, i)),
        triangles: Seq::new(
            (6 * ((width - 1) * (height - 1))) as nat,
            |t: int| triangle_index(height, t) as i32,
        ),
    }
}

/// An index that is made of a column and a place within the column splits
/// back into the two.
pub proof fn lemma_split_index(x: int, y: int, height: int)
    requires
        0 <= x,
        0 <= y < height,
    ensures
        (x * height + y) / height == x,
        (x * height + y) % height == y,
{
    vstd::arithmetic::div_mod::lemma_fundamental_div_mod_converse_div(x * height + y, height, x, y);
    vstd::arithmetic::div_mod::lemma_fundamental_div_mod_converse_mod(x * height + y, height, x, y);
}

/// Where in the mesh the vertex of the cell `(x, y)` stands.
pub open spec fn vertex_place(height: int, x: int, y: int) -> int {
    x * height + y
}

/// Where in the list of triangles the `corner`-th index of the square at the
/// cell `(x, y)` stands.
pub open spec fn corner_place(height: int, x: int, y: int, corner: int) -> int {
    6 * (x * (height - 1) + y) + corner
}

/// The mesh, cell by cell. The vertex of the cell `(x, y)` stands at
/// `x * height + y`. Each cell that is neither in the last column nor the
/// last of its column heads a square, and the square at the vertex `v` is
/// split into the triangles `(v, v + height + 1, v + height)` and
/// `(v + height + 1, v, v + 1)`.
pub proof fn lemma_mesh_by_cells(cells: Seq<Seq<i64>>, width: int, height: int)
    requires
        width >= 1,
        height >= 1,
        width * height <= i32::MAX,
    ensures
        forall|x: int, y: int|
            0 <= x < width && 0 <= y < height ==> 0 <= #[trigger] vertex_place(height, x, y) < width
                * height && mesh_of(cells, width, height).vertices[vertex_place(height, x, y)]
                == vertex_of(cells, width, height, x, y),
        forall|x: int, y: int, corner: int|
            0 <= x < width - 1 && 0 <= y < height - 1 && 0 <= corner < 6 ==> 0 <= #[trigger] corner_place(
                height,
                x,
                y,
                corner,
            ) < 6 * (width - 1) * (height - 1) && mesh_of(cells, width, height).triangles[corner_place(
                height,
                x,
                y,
                corner,
            )] == quad_corner(corner, vertex_place(height, x, y), height),
{
    lemma_mesh_sizes(cells, width, height);
    let mesh = mesh_of(cells, width, height);
    assert forall|x: int, y: int| 0 <= x < width && 0 <= y < height implies 0
        <= #[trigger] vertex_place(height, x, y) < width * height && mesh.vertices[vertex_place(
        height,
        x,
        y,
    )] == vertex_of(cells, width, height, x, y) by {
        lemma_split_index(x, y, height);
        assert(0 <= x * height + y < width * height) by (nonlinear_arith)
            requires
                0 <= x <= width - 1,
                0 <= y < height,
        ;
    }
    assert forall|x: int, y: int, corner: int|
        0 <= x < width - 1 && 0 <= y < height - 1 && 0 <= corner < 6 implies 0
        <= #[trigger] corner_place(height, x, y, corner) < 6 * (width - 1) * (height - 1)
        && mesh.triangles[corner_place(height, x, y, corner)] == quad_corner(
        corner,
        vertex_place(height, x, y),
        height,
    ) by {
        let square = x * (height - 1) + y;
        let vertex = x * height + y;
        lemma_split_index(x, y, height - 1);
        assert(0 <= square < (width - 1) * (height - 1)) by (nonlinear_arith)
            requires
                0 <= x <= width - 2,
                0 <= y < height - 1,
                square == x * (height - 1) + y,
        ;
        assert(6 * ((width - 1) * (height - 1)) == 6 * (width - 1) * (height - 1))
            by (nonlinear_arith);
        assert(0 <= vertex && vertex + height + 1 < width * height) by (nonlinear_arith)
            requires
                0 <= x <= width - 2,
                0 <= y <= height - 2,
                vertex == x * height + y,
        ;
    }
}

/// A mesh has one vertex for each cell, and six indices for each square of
/// neighbouring cells.
pub proof fn lemma_mesh_sizes(cells: Seq<Seq<i64>>, width: int, height: int)
    requires
        width >= 1,
        height >= 1,
    ensures
        mesh_of(cells, width, height).vertices.len() == width * height,
        mesh_of(cells, width, height).triangles.len() == 6 * (width - 1) * (height - 1),
{
    assert(width * height >= 0 && (width - 1) * (height - 1) >= 0 && 6 * ((width - 1) * (height
        - 1)) == 6 * (width - 1) * (height - 1)) by (nonlinear_arith)
        requires
            width >= 1,
            height >= 1,
    ;
}

/// Every index in the list of triangles names a vertex of the mesh.
pub proof fn lemma_indices_valid(cells: Seq<Seq<i64>>, width: int, height: int)
    requires
        width >= 1,
        height >= 1,
        width * height <= i32::MAX,
    ensures
        forall|t: int|
            0 <= t < mesh_of(cells, width, height).triangles.len() ==> 0 <= #[trigger] mesh_of(
                cells,
                width,
                height,
            ).triangles[t] < mesh_of(cells, width, height).vertices.len(),
{
    lemma_mesh_sizes(cells, width, height);
    let mesh = mesh_of(cells, width, height);
    assert forall|t: int| 0 <= t < mesh.triangles.len() implies 0 <= #[trigger] mesh.triangles[t]
        < mesh.vertices.len() by {
        let square = t / 6;
        let columns = width - 1;
        let depth = height - 1;
        assert(depth >= 1 && columns >= 1) by (nonlinear_arith)
            requires
                0 < columns * depth,
                columns >= 0,
                depth >= 0,
        ;
        let x = square / depth;
        let y = square % depth;
        assert(0 <= x < columns && 0 <= y < depth) by (nonlinear_arith)
            requires
                0 <= square < columns * depth,
                depth >= 1,
                x == square / depth,
                y == square % depth,
        ;
        let vertex = x * height + y;
        assert(0 <= vertex && vertex + height + 1 < width * height) by (nonlinear_arith)
            requires
                0 <= x <= width - 2,
                0 <= y <= height - 2,
                vertex == x * height + y,
        ;
    }
}

/// Every cell at or below sea level is drawn on the sea's surface.
pub proof fn lemma_sea_level_is_flat(cells: Seq<Seq<i64>>, width: int, height: int, x: int, y: int)
    requires
        is_grid(cells, width, height),
        0 <= x < width,
        0 <= y < height,
        cells[x][y] <= SEA_LEVEL,
    ensures
        0 <= x * height + y < mesh_of(cells, width, height).vertices.len(),
        mesh_of(cells, width, height).vertices[x * height + y].y == SEA_LEVEL,
{
    lemma_mesh_sizes(cells, width, height);
    lemma_split_index(x, y, height);
    assert(0 <= x * height + y < width * height) by (nonlinear_arith)
        requires
            0 <= x <= width - 1,
            0 <= y < height,
    ;
}

/// A triangle mesh ready to be drawn: vertices, and triangles as indices
/// into the vertices, three to a triangle.
#[derive(Clone, Debug)]
pub struct MeshData {
    pub vertices: Vec<Vertex>,
    pub triangles: Vec<i32>,
}

impl View for MeshData {
    type V = MeshModel;

    open spec fn view(&self) -> MeshModel {
        MeshModel { vertices: self.vertices@, triangles: self.triangles@ }
    }
}

impl Default for MeshData {
    /// The mesh without any vertex or triangle.
    fn default() -> (mesh: MeshData)
        ensures
            mesh.vertices@ == Seq::<Vertex>::empty(),
            mesh.triangles@ == Seq::<i32>::empty(),
    {
        MeshData { vertices: Vec::new(), triangles: Vec::new() }
    }
}

impl MeshData {
    /// Adds the triangle with the corners `a`, `b` and `c`.
    pub fn add_triangle(&mut self, a: usize, b: usize, c: usize)
        requires
            a <= i32::MAX,
            b <= i32::MAX,
            c <= i32::MAX,
        ensures
            final(self).triangles@ == old(self).triangles@.push(a as i32).push(b as i32).push(
                c as i32,
            ),
            final(self).vertices@ == old(self).vertices@,
    {
        self.triangles.push(a as i32);
        self.triangles.push(b as i32);
        self.triangles.push(c as i32);
    }
}

/// The number of squares that lie before the cell `(x, y)`.
pub open spec fn squares_before(width: int, height: int, x: int, y: int) -> int {
    if x < width - 1 {
        x * (height - 1) + if y < height - 1 {
            y
        } else {
            height - 1
        }
    } else {
        (width - 1) * (height - 1)
    }
}

/// Builds the mesh of a field: one vertex for each cell, two triangles for
/// each square of neighbouring cells.
pub fn mesh(field: &NoiseMap) -> (mesh: MeshData)
    requires
        field.has_cells(),
        field.width * field.height <= i32::MAX,
    ensures
        mesh@ == mesh_of(field@, field.width as int, field.height as int),
        mesh.vertices@.len() == field.width * field.height,
        mesh.triangles@.len() == 6 * (field.width - 1) * (field.height - 1),
        forall|t: int|
            0 <= t < mesh.triangles@.len() ==> 0 <= #[trigger] mesh.triangles@[t]
                < mesh.vertices@.len(),
        forall|x: int, y: int|
            0 <= x < field.width && 0 <= y < field.height ==> mesh.vertices@[#[trigger] vertex_place(
                field.height as int,
                x,
                y,
            )] == vertex_of(field@, field.width as int, field.height as int, x, y),
        forall|x: int, y: int, corner: int|
            0 <= x < field.width - 1 && 0 <= y < field.height - 1 && 0 <= corner < 6
                ==> mesh.triangles@[#[trigger] corner_place(field.height as int, x, y, corner)]
                == quad_corner(corner, vertex_place(field.height as int, x, y), field.height as int),
{
    let width: usize = field.width as usize;
    let height: usize = field.height as usize;
    let ghost cells = field@;
    let ghost w = width as int;
    let ghost h = height as int;
    assert(w <= i32::MAX && h <= i32::MAX) by (nonlinear_arith)
        requires
            w >= 1,
            h >= 1,
            w * h <= i32::MAX,
    ;
    let edge_x: i64 = (width as i64 - 1) * HALF_UNIT;
    let edge_z: i64 = (height as i64 - 1) * HALF_UNIT;
    let mut mesh_data = MeshData { vertices: Vec::new(), triangles: Vec::new() };
    let mut vertex_index: usize = 0;
    let ghost mut squares: int = 0;
    let mut x: usize = 0;
    while x < width
        invariant
            x <= width,
            w == width,
            h == height,
            w >= 1,
            h >= 1,
            w <= i32::MAX,
            h <= i32::MAX,
            w * h <= i32::MAX,
            cells == field@,
            is_grid(cells, w, h),
            edge_x == (w - 1) * HALF_UNIT,
            edge_z == (h - 1) * HALF_UNIT,
            vertex_index == x * h,
            squares == squares_before(w, h, x as int, 0),
            mesh_data.vertices@.len() == vertex_index,
            mesh_data.triangles@.len() == 6 * squares,
            forall|i: int|
                0 <= i < vertex_index ==> #[trigger] mesh_data.vertices@[i] == vertex_at(
                    cells,
                    w,
                    h,
                    i,
                ),
            forall|t: int|
                0 <= t < 6 * squares ==> #[trigger] mesh_data.triangles@[t] == triangle_index(
                    h,
                    t,
                ),
        decreases width - x,
    {
        assert((x + 1) * h <= w * h) by (nonlinear_arith)
            requires
                x + 1 <= w,
                h >= 0,
        ;
        assert((x + 1) * h == x * h + h) by (nonlinear_arith);
        let mut y: usize = 0;
        while y < height
            invariant
                x < width,
                y <= height,
                w == width,
                h == height,
                w >= 1,
                h >= 1,
                w <= i32::MAX,
                h <= i32::MAX,
                w * h <= i32::MAX,
                (x + 1) * h <= w * h,
                (x + 1) * h == x * h + h,
                cells == field@,
                is_grid(cells, w, h),
                edge_x == (w - 1) * HALF_UNIT,
                edge_z == (h - 1) * HALF_UNIT,
                vertex_index == x * h + y,
                squares == squares_before(w, h, x as int, y as int),
                mesh_data.vertices@.len() == vertex_index,
                mesh_data.triangles@.len() == 6 * squares,
                forall|i: int|
                    0 <= i < vertex_index ==> #[trigger] mesh_data.vertices@[i] == vertex_at(
                        cells,
                        w,
                        h,
                        i,
                    ),
                forall|t: int|
                    0 <= t < 6 * squares ==> #[trigger] mesh_data.triangles@[t]
                        == triangle_index(h, t),
            decreases height - y,
        {
            assert(cells.len() == w && cells[x as int].len() == h);
            let point_height: i64 = field.data[x][y];
            let color = Noise::get_color_for_height(point_height);
            let vertex = Vertex {
                x: x as i64 * 1_000_000 - edge_x,
                y: displayed_height(point_height),
                z: edge_z - y as i64 * 1_000_000,
                color,
            };
            proof {
                lemma_split_index(x as int, y as int, h);
            }
            mesh_data.vertices.push(vertex);
            if x < width - 1 && y < height - 1 {
                proof {
                    lemma_split_index(x as int, y as int, h - 1);
                    assert((x + 2) * h <= w * h) by (nonlinear_arith)
                        requires
                            x + 2 <= w,
                            h >= 0,
                    ;
                    assert((x + 2) * h == x * h + h + h) by (nonlinear_arith);
                }
                mesh_data.add_triangle(
                    vertex_index,
                    vertex_index + height + 1,
                    vertex_index + height,
                );
                mesh_data.add_triangle(vertex_index + height + 1, vertex_index, vertex_index + 1);
                proof {
                    squares = squares + 1;
                }
            }
            vertex_index += 1;
            y += 1;
        }
        proof {
            assert((x + 1) * (h - 1) == x * (h - 1) + (h - 1)) by (nonlinear_arith);
        }
        x += 1;
    }
    proof {
        assert(mesh_data@.vertices =~= mesh_of(cells, w, h).vertices);
        assert(mesh_data@.triangles =~= mesh_of(cells, w, h).triangles);
        lemma_mesh_sizes(cells, w, h);
        lemma_indices_valid(cells, w, h);
        lemma_mesh_by_cells(cells, w, h);
    }
    mesh_data
}

/// The terrain: the mesh that was last built, if any.
pub struct Terrain {
    pub mesh_data: Option<MeshData>,
}

/// The greatest number of cells that a field can have for its vertices to be
/// told apart by their indices.
pub const MAX_CELLS: u64 = 0x7fff_ffff;

impl Terrain {
    /// Whether a mesh can be built of the field that `noise` holds: the
    /// cells form a grid of the stated size with at least one cell, and
    /// there are no more of them than an index can tell apart.
    pub open spec fn fits_a_mesh(noise: Noise) -> bool {
        &&& noise.has_grid()
        &&& noise.map_width * noise.map_height <= i32::MAX
    }

    /// Tells whether a mesh can be built of the field that `noise` holds.
    pub fn can_mesh(noise: &Noise) -> (fits: bool)
        ensures
            fits == Terrain::fits_a_mesh(*noise),
    {
        noise.holds_a_grid() && count_cells(noise.map_width, noise.map_height) <= MAX_CELLS
    }

    /// A terrain without a mesh.
    pub fn init() -> (terrain: Terrain)
        ensures
            terrain.mesh_data is None,
    {
        Terrain { mesh_data: None }
    }

    /// Builds the mesh of the field that `noise` holds.
    pub fn generate(noise: &mut Noise) -> (mesh: MeshData)
        requires
            Terrain::fits_a_mesh(*old(noise)),
        ensures
            mesh@ == mesh_of(
                old(noise).noise_map@,
                old(noise).map_width as int,
                old(noise).map_height as int,
            ),
            mesh.vertices@.len() == old(noise).map_width * old(noise).map_height,
            mesh.triangles@.len() == 6 * (old(noise).map_width - 1) * (old(noise).map_height - 1),
            forall|t: int|
                0 <= t < mesh.triangles@.len() ==> 0 <= #[trigger] mesh.triangles@[t]
                    < mesh.vertices@.len(),
            *final(noise) == *old(noise),
    {
        mesh(&noise.noise_map)
    }

    /// Builds the mesh of the field that `noise` holds and puts it in place
    /// of the mesh on hand. From then on the terrain has a mesh.
    pub fn update(&mut self, noise: &mut Noise)
        requires
            Terrain::fits_a_mesh(*old(noise)),
        ensures
            final(self).mesh_data is Some,
            final(self).mesh_data->0@ == mesh_of(
                old(noise).noise_map@,
                old(noise).map_width as int,
                old(noise).map_height as int,
            ),
            *final(noise) == *old(noise),
    {
        let mesh_data = Terrain::generate(noise);
        self.mesh_data = Some(mesh_data);
    }

    /// Brings the mesh up to date with `noise`. Where `noise` holds a field
    /// that was generated since the last time, the mesh of that field takes
    /// the place of the mesh on hand, the field no longer counts as new, and
    /// the answer is `true`: there is a new mesh to draw. Otherwise nothing
    /// changes.
    pub fn refresh(&mut self, noise: &mut Noise) -> (rebuilt: bool)
        requires
            old(noise).updated ==> Terrain::fits_a_mesh(*old(noise)),
        ensures
            rebuilt == old(noise).updated,
            !final(noise).updated,
            final(noise).noise_map == old(noise).noise_map,
            final(noise).parameters() == old(noise).parameters(),
            rebuilt ==> final(self).mesh_data is Some && final(self).mesh_data->0@ == mesh_of(
                old(noise).noise_map@,
                old(noise).map_width as int,
                old(noise).map_height as int,
            ),
            !rebuilt ==> *final(self) == *old(self),
    {
        if noise.updated {
            self.update(noise);
            noise.updated = false;
            true
        } else {
            false
        }
    }
}

} // verus!
