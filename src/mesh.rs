//! The heightfield mesh: a regular grid of `(2 * half_size + 1)^2` vertices
//! centred on the origin, one unit apart, each lifted to its sampled height, with
//! two counter-clockwise triangles per grid cell and smooth per-vertex normals.
use crate::config::{side_len, vertex_count, HEIGHT_SCALE, MAX_VERTEX_COUNT};
use vstd::arithmetic::div_mod::lemma_fundamental_div_mod_converse;
use vstd::prelude::*;

verus! {

/// A mesh vertex: `x` and `z` in whole world units, `height` in thousandths.
#[derive(Clone, Copy, Debug, PartialEq, Eq, Structural)]
pub struct GridVertex {
    pub x: i64,
    pub height: i64,
    pub z: i64,
}

/// An unnormalised normal, in the same scaled space as `GridVertex`
/// (one horizontal unit is `HEIGHT_SCALE` height units). Its direction is the
/// area-weighted average of the adjacent face normals.
#[derive(Clone, Copy, Debug, PartialEq, Eq, Structural)]
pub struct Normal {
    pub x: i64,
    pub y: i64,
    pub z: i64,
}

/// The generated terrain geometry. Vertex `i` lies in grid row `i / side` and
/// column `i % side`; `indices` lists three vertex indices per triangle.
#[derive(Clone, Debug)]
pub struct TerrainMesh {
    pub half_size: u32,
    pub positions: Vec<GridVertex>,
    pub normals: Vec<Normal>,
    pub indices: Vec<u32>,
}

/// The sampled height at grid row `r`, column `c`.
pub open spec fn height_of(hs: Seq<i32>, n: int, r: int, c: int) -> int {
    hs[r * n + c] as int
}

/// Where vertex `i` of a grid of the given half size lies, before displacement.
pub open spec fn grid_x(half_size: nat, i: int) -> int {
    i % (side_len(half_size) as int) - half_size
}

pub open spec fn grid_z(half_size: nat, i: int) -> int {
    i / (side_len(half_size) as int) - half_size
}

pub open spec fn add3(a: (int, int, int), b: (int, int, int)) -> (int, int, int) {
    (a.0 + b.0, a.1 + b.1, a.2 + b.2)
}

pub open spec fn zero3() -> (int, int, int) {
    (0, 0, 0)
}

/// Normal of the cell's first triangle (corner, +z neighbour, +x neighbour),
/// divided by `HEIGHT_SCALE`.
pub open spec fn lower_face(hs: Seq<i32>, n: int, r: int, c: int) -> (int, int, int) {
    (
        height_of(hs, n, r, c) - height_of(hs, n, r, c + 1),
        HEIGHT_SCALE as int,
        height_of(hs, n, r, c) - height_of(hs, n, r + 1, c),
    )
}

/// Normal of the cell's second triangle (far corner, +x neighbour, +z neighbour),
/// divided by `HEIGHT_SCALE`.
pub open spec fn upper_face(hs: Seq<i32>, n: int, r: int, c: int) -> (int, int, int) {
    (
        height_of(hs, n, r + 1, c) - height_of(hs, n, r + 1, c + 1),
        HEIGHT_SCALE as int,
        height_of(hs, n, r, c + 1) - height_of(hs, n, r + 1, c + 1),
    )
}

/// The faces of cell `(r, c)` that touch its `(r, c)` corner.
pub open spec fn here_part(hs: Seq<i32>, n: int, r: int, c: int) -> (int, int, int) {
    if r + 1 < n && c + 1 < n {
        lower_face(hs, n, r, c)
    } else {
        zero3()
    }
}

/// The faces of cell `(r - 1, c)` that touch vertex `(r, c)`.
pub open spec fn below_part(hs: Seq<i32>, n: int, r: int, c: int) -> (int, int, int) {
    if r > 0 && c + 1 < n {
        add3(lower_face(hs, n, r - 1, c), upper_face(hs, n, r - 1, c))
    } else {
        zero3()
    }
}

/// The faces of cell `(r, c - 1)` that touch vertex `(r, c)`.
pub open spec fn left_part(hs: Seq<i32>, n: int, r: int, c: int) -> (int, int, int) {
    if r + 1 < n && c > 0 {
        add3(lower_face(hs, n, r, c - 1), upper_face(hs, n, r, c - 1))
    } else {
        zero3()
    }
}

/// The face of cell `(r - 1, c - 1)` that touches vertex `(r, c)`.
pub open spec fn diagonal_part(hs: Seq<i32>, n: int, r: int, c: int) -> (int, int, int) {
    if r > 0 && c > 0 {
        upper_face(hs, n, r - 1, c - 1)
    } else {
        zero3()
    }
}

/// The smooth normal at row `r`, column `c`: the sum of the normals of every
/// triangle that has the vertex as a corner.
pub open spec fn vertex_normal(hs: Seq<i32>, n: int, r: int, c: int) -> (int, int, int) {
    add3(
        add3(here_part(hs, n, r, c), below_part(hs, n, r, c)),
        add3(left_part(hs, n, r, c), diagonal_part(hs, n, r, c)),
    )
}

/// Entry `j` of the index buffer: cell `j / 6`, in row-major order over the
/// `(side - 1)^2` cells, holds its two triangles as
/// `(far, +x, +z)` and `(corner, +z, +x)`.
pub open spec fn index_entry(n: int, j: int) -> int {
    let cell = j / 6;
    let quad = (cell / (n - 1)) * n + cell % (n - 1);
    let k = j % 6;
    if k == 0 {
        quad + n + 1
    } else if k == 1 {
        quad + 1
    } else if k == 2 {
        quad + n
    } else if k == 3 {
        quad
    } else if k == 4 {
        quad + n
    } else {
        quad + 1
    }
}

/// What the mesh generated from `hs` on a grid of `half_size` holds.
pub open spec fn mesh_matches(m: TerrainMesh, half_size: nat, hs: Seq<i32>) -> bool {
    let n = side_len(half_size) as int;
    &&& m.half_size == half_size
    &&& m.positions@.len() == vertex_count(half_size)
    &&& m.normals@.len() == vertex_count(half_size)
    &&& m.indices@.len() == 6 * (n - 1) * (n - 1)
    &&& forall|i: int|
        0 <= i < vertex_count(half_size) ==> #[trigger] m.positions@[i] == (GridVertex {
            x: grid_x(half_size, i) as i64,
            height: hs[i] as i64,
            z: grid_z(half_size, i) as i64,
        })
    &&& forall|i: int|
        0 <= i < vertex_count(half_size) ==> {
            let v = vertex_normal(hs, n, i / n, i % n);
            let w = #[trigger] m.normals@[i];
            w.x as int == v.0 && w.y as int == v.1 && w.z as int == v.2
        }
    &&& forall|j: int|
        0 <= j < m.indices@.len() ==> #[trigger] m.indices@[j] as int == index_entry(n, j)
}

proof fn lemma_cell_index(n: int, r: int, c: int)
    requires
        0 <= r < n,
        0 <= c < n,
    ensures
        0 <= r * n + c < n * n,
        (r * n + c) / n == r,
        (r * n + c) % n == c,
{
    assert(0 <= r * n + c < n * n) by (nonlinear_arith)
        requires
            0 <= r < n,
            0 <= c < n,
    ;
    lemma_fundamental_div_mod_converse(r * n + c, n, r, c);
}

/// The height at row `r`, column `c` of a sample grid with `n` vertices a side.
fn sample(hs: &Vec<i32>, n: usize, r: usize, c: usize) -> (v: i64)
    requires
        hs@.len() == n * n,
        r < n,
        c < n,
    ensures
        v == height_of(hs@, n as int, r as int, c as int),
{
    let len = hs.len();
    proof {
        lemma_cell_index(n as int, r as int, c as int);
    }
    hs[r * n + c] as i64
}

/// Bounds that every vertex of a generated mesh meets.
pub open spec fn vertex_in_range(p: GridVertex) -> bool {
    &&& -0x1_0000_0000 < p.x < 0x1_0000_0000
    &&& -0x1_0000_0000 < p.z < 0x1_0000_0000
    &&& i32::MIN <= p.height <= i32::MAX
}

/// Bounds that every normal of a generated mesh meets: it is the sum of at
/// most six face normals.
pub open spec fn normal_in_range(v: Normal) -> bool {
    &&& -0x8_0000_0000 < v.x < 0x8_0000_0000
    &&& 0 <= v.y <= 6 * HEIGHT_SCALE
    &&& -0x8_0000_0000 < v.z < 0x8_0000_0000
}

/// Vertices and normals pair up one for one, all within bounds.
pub open spec fn surface_in_range(ps: Seq<GridVertex>, ns: Seq<Normal>) -> bool {
    &&& ps.len() == ns.len()
    &&& forall|i: int| 0 <= i < ps.len() ==> vertex_in_range(#[trigger] ps[i])
    &&& forall|i: int| 0 <= i < ns.len() ==> normal_in_range(#[trigger] ns[i])
}

/// The normal of one triangle, with each component bounded by a difference of
/// two `i32` values.
pub open spec fn face_in_range(f: (int, int, int)) -> bool {
    &&& -0x1_0000_0000 < f.0 < 0x1_0000_0000
    &&& f.1 == HEIGHT_SCALE
    &&& -0x1_0000_0000 < f.2 < 0x1_0000_0000
}

fn lower_face_normal(hs: &Vec<i32>, n: usize, r: usize, c: usize) -> (f: (i64, i64, i64))
    requires
        hs@.len() == n * n,
        r + 1 < n,
        c + 1 < n,
    ensures
        (f.0 as int, f.1 as int, f.2 as int) == lower_face(hs@, n as int, r as int, c as int),
        face_in_range((f.0 as int, f.1 as int, f.2 as int)),
{
    let corner = sample(hs, n, r, c);
    let east = sample(hs, n, r, c + 1);
    let south = sample(hs, n, r + 1, c);
    (corner - east, HEIGHT_SCALE, corner - south)
}

fn upper_face_normal(hs: &Vec<i32>, n: usize, r: usize, c: usize) -> (f: (i64, i64, i64))
    requires
        hs@.len() == n * n,
        r + 1 < n,
        c + 1 < n,
    ensures
        (f.0 as int, f.1 as int, f.2 as int) == upper_face(hs@, n as int, r as int, c as int),
        face_in_range((f.0 as int, f.1 as int, f.2 as int)),
{
    let far = sample(hs, n, r + 1, c + 1);
    let east = sample(hs, n, r, c + 1);
    let south = sample(hs, n, r + 1, c);
    (south - far, HEIGHT_SCALE, east - far)
}

/// A sum of `k` face normals, or of none.
pub open spec fn faces_in_range(f: (int, int, int), k: int) -> bool {
    &&& -k * 0x1_0000_0000 < f.0 < k * 0x1_0000_0000 || (k == 0 && f.0 == 0)
    &&& f.1 == k * HEIGHT_SCALE || f.1 == 0
    &&& -k * 0x1_0000_0000 < f.2 < k * 0x1_0000_0000 || (k == 0 && f.2 == 0)
}

fn here_normal(hs: &Vec<i32>, n: usize, r: usize, c: usize) -> (f: (i64, i64, i64))
    requires
        hs@.len() == n * n,
        r < n,
        c < n,
    ensures
        (f.0 as int, f.1 as int, f.2 as int) == here_part(hs@, n as int, r as int, c as int),
        faces_in_range((f.0 as int, f.1 as int, f.2 as int), 1),
{
    if r + 1 < n && c + 1 < n {
        lower_face_normal(hs, n, r, c)
    } else {
        (0, 0, 0)
    }
}

fn below_normal(hs: &Vec<i32>, n: usize, r: usize, c: usize) -> (f: (i64, i64, i64))
    requires
        hs@.len() == n * n,
        r < n,
        c < n,
    ensures
        (f.0 as int, f.1 as int, f.2 as int) == below_part(hs@, n as int, r as int, c as int),
        faces_in_range((f.0 as int, f.1 as int, f.2 as int), 2),
{
    if r > 0 && c + 1 < n {
        let a = lower_face_normal(hs, n, r - 1, c);
        let b = upper_face_normal(hs, n, r - 1, c);
        (a.0 + b.0, a.1 + b.1, a.2 + b.2)
    } else {
        (0, 0, 0)
    }
}

fn left_normal(hs: &Vec<i32>, n: usize, r: usize, c: usize) -> (f: (i64, i64, i64))
    requires
        hs@.len() == n * n,
        r < n,
        c < n,
    ensures
        (f.0 as int, f.1 as int, f.2 as int) == left_part(hs@, n as int, r as int, c as int),
        faces_in_range((f.0 as int, f.1 as int, f.2 as int), 2),
{
    if r + 1 < n && c > 0 {
        let a = lower_face_normal(hs, n, r, c - 1);
        let b = upper_face_normal(hs, n, r, c - 1);
        (a.0 + b.0, a.1 + b.1, a.2 + b.2)
    } else {
        (0, 0, 0)
    }
}

fn diagonal_normal(hs: &Vec<i32>, n: usize, r: usize, c: usize) -> (f: (i64, i64, i64))
    requires
        hs@.len() == n * n,
        r < n,
        c < n,
    ensures
        (f.0 as int, f.1 as int, f.2 as int) == diagonal_part(hs@, n as int, r as int, c as int),
        faces_in_range((f.0 as int, f.1 as int, f.2 as int), 1),
{
    if r > 0 && c > 0 {
        upper_face_normal(hs, n, r - 1, c - 1)
    } else {
        (0, 0, 0)
    }
}

/// The smooth normal at row `r`, column `c`.
fn smooth_normal(hs: &Vec<i32>, n: usize, r: usize, c: usize) -> (v: Normal)
    requires
        hs@.len() == n * n,
        r < n,
        c < n,
    ensures
        (v.x as int, v.y as int, v.z as int) == vertex_normal(hs@, n as int, r as int, c as int),
        normal_in_range(v),
{
    let a = here_normal(hs, n, r, c);
    let b = below_normal(hs, n, r, c);
    let d = left_normal(hs, n, r, c);
    let e = diagonal_normal(hs, n, r, c);
    Normal { x: a.0 + b.0 + d.0 + e.0, y: a.1 + b.1 + d.1 + e.1, z: a.2 + b.2 + d.2 + e.2 }
}

proof fn lemma_index_entry(n: int, q: int, k: int)
    requires
        n >= 2,
        0 <= q < (n - 1) * (n - 1),
        0 <= k < 6,
    ensures
        (6 * q + k) / 6 == q,
        index_entry(n, 6 * q + k) == {
            let quad = (q / (n - 1)) * n + q % (n - 1);
            if k == 0 {
                quad + n + 1
            } else if k == 1 {
                quad + 1
            } else if k == 2 {
                quad + n
            } else if k == 3 {
                quad
            } else if k == 4 {
                quad + n
            } else {
                quad + 1
            }
        },
{
    lemma_fundamental_div_mod_converse(6 * q + k, 6, q, k);
}

/// Row `q / (n - 1)` and column `q % (n - 1)` of a cell lie inside the grid, and
/// every corner index of the cell stays below `n * n`.
proof fn lemma_cell_corners(n: int, q: int)
    requires
        n >= 2,
        0 <= q < (n - 1) * (n - 1),
    ensures
        0 <= q / (n - 1) < n - 1,
        0 <= q % (n - 1) < n - 1,
        (q / (n - 1)) * n + q % (n - 1) + n + 1 < n * n,
{
    let r = q / (n - 1);
    let c = q % (n - 1);
    vstd::arithmetic::div_mod::lemma_fundamental_div_mod(q, n - 1);
    assert(0 <= r < n - 1) by (nonlinear_arith)
        requires
            n >= 2,
            0 <= q < (n - 1) * (n - 1),
            0 <= c < n - 1,
            q == (n - 1) * r + c,
    ;
    assert(r * n + c + n + 1 < n * n) by (nonlinear_arith)
        requires
            n >= 2,
            0 <= r < n - 1,
            0 <= c < n - 1,
    ;
}

/// Builds the mesh of a grid of the given half size, each vertex lifted to the
/// matching entry of `heights` (row-major, `side * side` entries, thousandths).
pub fn generate_terrain_mesh(half_size: u32, heights: &Vec<i32>) -> (m: TerrainMesh)
    requires
        half_size > 0,
        vertex_count(half_size as nat) <= MAX_VERTEX_COUNT,
        heights@.len() == vertex_count(half_size as nat),
    ensures
        mesh_matches(m, half_size as nat, heights@),
        m.positions@.len() == (2 * half_size + 1) * (2 * half_size + 1),
        m.indices@.len() == 3 * (2 * (2 * half_size) * (2 * half_size)),
        surface_in_range(m.positions@, m.normals@),
{
    assert(half_size <= 32767) by (nonlinear_arith)
        requires
            (2 * half_size + 1) * (2 * half_size + 1) <= MAX_VERTEX_COUNT,
    ;
    let n: usize = 2 * (half_size as usize) + 1;
    let count: usize = heights.len();
    let h = half_size as i64;
    let mut positions: Vec<GridVertex> = Vec::new();
    let mut normals: Vec<Normal> = Vec::new();
    let mut i: usize = 0;
    while i < count
        invariant
            n == side_len(half_size as nat),
            count == n * n,
            heights@.len() == count,
            h == half_size,
            half_size <= 32767,
            0 <= i <= count,
            positions@.len() == i,
            normals@.len() == i,
            forall|j: int|
                0 <= j < i ==> #[trigger] positions@[j] == (GridVertex {
                    x: grid_x(half_size as nat, j) as i64,
                    height: heights@[j] as i64,
                    z: grid_z(half_size as nat, j) as i64,
                }),
            forall|j: int|
                0 <= j < i ==> {
                    let v = vertex_normal(heights@, n as int, j / (n as int), j % (n as int));
                    let w = #[trigger] normals@[j];
                    w.x as int == v.0 && w.y as int == v.1 && w.z as int == v.2
                },
            forall|j: int| 0 <= j < i ==> vertex_in_range(#[trigger] positions@[j]),
            forall|j: int| 0 <= j < i ==> normal_in_range(#[trigger] normals@[j]),
        decreases count - i,
    {
        let r = i / n;
        let c = i % n;
        proof {
            vstd::arithmetic::div_mod::lemma_fundamental_div_mod(i as int, n as int);
            assert(r < n) by (nonlinear_arith)
                requires
                    i < n * n,
                    i == n * r + c,
                    c >= 0,
                    n >= 1,
            ;
        }
        positions.push(GridVertex { x: c as i64 - h, height: heights[i] as i64, z: r as i64 - h });
        normals.push(smooth_normal(heights, n, r, c));
        i = i + 1;
    }
    assert((n - 1) * (n - 1) <= n * n) by (nonlinear_arith)
        requires
            n >= 1,
    ;
    let cells: usize = (n - 1) * (n - 1);
    let w = n - 1;
    let mut indices: Vec<u32> = Vec::new();
    let mut q: usize = 0;
    while q < cells
        invariant
            n == side_len(half_size as nat),
            n >= 3,
            w == n - 1,
            count == n * n,
            count <= MAX_VERTEX_COUNT,
            cells == (n - 1) * (n - 1),
            0 <= q <= cells,
            indices@.len() == 6 * q,
            forall|j: int|
                0 <= j < indices@.len() ==> #[trigger] indices@[j] as int == index_entry(
                    n as int,
                    j,
                ),
        decreases cells - q,
    {
        proof {
            lemma_cell_corners(n as int, q as int);
        }
        let quad = (q / w) * n + q % w;
        let base = quad as u32;
        let row = n as u32;
        indices.push(base + row + 1);
        indices.push(base + 1);
        indices.push(base + row);
        indices.push(base);
        indices.push(base + row);
        indices.push(base + 1);
        proof {
            assert forall|k: int| 0 <= k < 6 implies #[trigger] indices@[6 * q + k] as int
                == index_entry(n as int, 6 * q + k) by {
                lemma_index_entry(n as int, q as int, k);
            }
            assert forall|j: int| 0 <= j < indices@.len() implies #[trigger] indices@[j] as int
                == index_entry(n as int, j) by {
                if j >= 6 * q {
                    let k = j - 6 * q;
                    assert(indices@[6 * q + k] as int == index_entry(n as int, 6 * q + k));
                }
            }
        }
        q = q + 1;
    }
    proof {
        assert(6 * (n - 1) * (n - 1) == 6 * cells) by (nonlinear_arith)
            requires
                cells == (n - 1) * (n - 1),
        ;
        assert((2 * half_size + 1) * (2 * half_size + 1) == n * n);
        assert(6 * (n - 1) * (n - 1) == 3 * (2 * (2 * half_size) * (2 * half_size))) by (
        nonlinear_arith)
            requires
                n == 2 * half_size + 1,
        ;
    }
    TerrainMesh { half_size, positions, normals, indices }
}

/// Where vertex `index` of a grid of the given half size lies: its `(x, z)`
/// in whole world units. Heights are sampled there before the mesh is built.
pub fn grid_point(half_size: u32, index: usize) -> (p: (i64, i64))
    requires
        index < vertex_count(half_size as nat),
    ensures
        p.0 == grid_x(half_size as nat, index as int),
        p.1 == grid_z(half_size as nat, index as int),
{
    let n: u64 = 2 * (half_size as u64) + 1;
    let i = index as u64;
    proof {
        vstd::arithmetic::div_mod::lemma_fundamental_div_mod(i as int, n as int);
        assert(i / n < n) by (nonlinear_arith)
            requires
                n >= 1,
                i < n * n,
                i == n * (i / n) + i % n,
                i % n >= 0,
        ;
    }
    ((i % n) as i64 - half_size as i64, (i / n) as i64 - half_size as i64)
}

/// The texture coordinate of vertex `index`, as numerators over
/// `2 * half_size`: `u` runs from 0 to 1 along x and `v` along z across the
/// whole grid.
pub fn grid_uv(half_size: u32, index: usize) -> (uv: (u64, u64))
    requires
        index < vertex_count(half_size as nat),
    ensures
        uv.0 == grid_x(half_size as nat, index as int) + half_size,
        uv.1 == grid_z(half_size as nat, index as int) + half_size,
        uv.0 <= 2 * half_size,
        uv.1 <= 2 * half_size,
{
    let n: u64 = 2 * (half_size as u64) + 1;
    let i = index as u64;
    proof {
        vstd::arithmetic::div_mod::lemma_fundamental_div_mod(i as int, n as int);
        assert(i / n < n) by (nonlinear_arith)
            requires
                n >= 1,
                i < n * n,
                i == n * (i / n) + i % n,
                i % n >= 0,
        ;
    }
    (i % n, i / n)
}

/// Every vertex of a grid has at least one adjacent triangle, so its smooth
/// normal points strictly upward.
proof fn lemma_normal_points_up(hs: Seq<i32>, n: int, r: int, c: int)
    requires
        n >= 2,
        0 <= r < n,
        0 <= c < n,
    ensures
        vertex_normal(hs, n, r, c).1 > 0,
{
}

/// A mesh built from samples that are all zero has every normal pointing
/// straight up: no horizontal component and a positive vertical one.
pub proof fn lemma_flat_mesh_normals_point_up(m: TerrainMesh, half_size: nat, hs: Seq<i32>)
    requires
        half_size > 0,
        hs.len() == vertex_count(half_size),
        forall|j: int| 0 <= j < hs.len() ==> hs[j] == 0,
        mesh_matches(m, half_size, hs),
    ensures
        forall|i: int|
            0 <= i < m.normals@.len() ==> #[trigger] m.normals@[i].x == 0 && m.normals@[i].z
                == 0 && m.normals@[i].y > 0,
{
    let n = side_len(half_size) as int;
    assert forall|r: int, c: int| 0 <= r < n && 0 <= c < n implies #[trigger] height_of(
        hs,
        n,
        r,
        c,
    ) == 0 by {
        lemma_cell_index(n, r, c);
    }
    assert forall|i: int| 0 <= i < m.normals@.len() implies #[trigger] m.normals@[i].x == 0
        && m.normals@[i].z == 0 && m.normals@[i].y > 0 by {
        vstd::arithmetic::div_mod::lemma_fundamental_div_mod(i, n);
        let r = i / n;
        let c = i % n;
        assert(0 <= r < n) by (nonlinear_arith)
            requires
                0 <= i < n * n,
                i == n * r + c,
                0 <= c < n,
        ;
        lemma_normal_points_up(hs, n, r, c);
    }
}

} // verus!
