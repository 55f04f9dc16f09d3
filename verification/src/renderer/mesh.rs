//! CPU-side mesh geometry: vertices on the integer lattice, triangle lists
//! of indices, and the identifiers of the built-in mesh shapes.

use vstd::prelude::*;

verus! {

/// A three-dimensional vector with integer coordinates.
///
/// The built-in shapes have all their corners and normals on the integer
/// lattice, so their geometry is exact.
#[derive(Clone, Copy, Debug, PartialEq, Eq, Structural)]
pub struct Vec3i {
    /// The component along the X axis.
    pub x: i32,
    /// The component along the Y axis.
    pub y: i32,
    /// The component along the Z axis.
    pub z: i32,
}

impl Vec3i {
    /// Creates a new vector with the given coordinates.
    pub fn new(x: i32, y: i32, z: i32) -> (v: Self)
        ensures
            v == (Vec3i { x, y, z }),
    {
        Vec3i { x, y, z }
    }
}

/// A single vertex of a mesh.
#[derive(Clone, Copy, Debug, PartialEq, Eq, Structural)]
pub struct Vertex {
    /// Position of the vertex, relative to the mesh's local coordinate system.
    pub position: Vec3i,
    /// The direction of the normal axis for the vertex.
    pub normal: Vec3i,
}

impl Vertex {
    /// Creates a new vertex with the given position (in local coordinate
    /// space) and normal.
    pub fn new(position: Vec3i, normal: Vec3i) -> (v: Self)
        ensures
            v == (Vertex { position, normal }),
    {
        Vertex { position, normal }
    }
}

/// Describes the identifier of a built-in mesh shape.
#[derive(Clone, Copy, Debug, PartialEq, Eq, Hash, Structural)]
pub enum MeshId {
    /// Representation of a cube.
    Cube,
    /// Representation of a plane.
    Plane,
}

/// CPU-side geometry data for a mesh shape, such as a cube or a plane.
pub struct MeshData {
    /// Vertices of the mesh.
    pub vertices: Vec<Vertex>,
    /// Indices into `vertices`; every three consecutive ones form a triangle.
    pub indices: Vec<u16>,
    /// The label of the mesh, used for debugging.
    pub label: &'static str,
}

/// Spec-level vertex built from integer coordinates.
pub open spec fn vtx(px: int, py: int, pz: int, nx: int, ny: int, nz: int) -> Vertex {
    Vertex {
        position: Vec3i { x: px as i32, y: py as i32, z: pz as i32 },
        normal: Vec3i { x: nx as i32, y: ny as i32, z: nz as i32 },
    }
}

/// The 24 vertices of the cube spanning `[-1, 1]` on each axis: four
/// corners per face, each face with its own outward normal, listed in the
/// order front (z = 1), back (z = -1), right (x = 1), left (x = -1),
/// top (y = 1), bottom (y = -1).
pub open spec fn spec_cube_vertices() -> Seq<Vertex> {
    seq![
        vtx(-1, -1, 1, 0, 0, 1), vtx(1, -1, 1, 0, 0, 1),
        vtx(1, 1, 1, 0, 0, 1), vtx(-1, 1, 1, 0, 0, 1),
        vtx(1, -1, -1, 0, 0, -1), vtx(-1, -1, -1, 0, 0, -1),
        vtx(-1, 1, -1, 0, 0, -1), vtx(1, 1, -1, 0, 0, -1),
        vtx(1, -1, 1, 1, 0, 0), vtx(1, -1, -1, 1, 0, 0),
        vtx(1, 1, -1, 1, 0, 0), vtx(1, 1, 1, 1, 0, 0),
        vtx(-1, -1, -1, -1, 0, 0), vtx(-1, -1, 1, -1, 0, 0),
        vtx(-1, 1, 1, -1, 0, 0), vtx(-1, 1, -1, -1, 0, 0),
        vtx(-1, 1, 1, 0, 1, 0), vtx(1, 1, 1, 0, 1, 0),
        vtx(1, 1, -1, 0, 1, 0), vtx(-1, 1, -1, 0, 1, 0),
        vtx(-1, -1, -1, 0, -1, 0), vtx(1, -1, -1, 0, -1, 0),
        vtx(1, -1, 1, 0, -1, 0), vtx(-1, -1, 1, 0, -1, 0),
    ]
}

/// The 4 vertices of the flat square spanning `[-1, 1]` on the X and Z axes
/// at height 0, all with the normal pointing up the Y axis.
pub open spec fn spec_plane_vertices() -> Seq<Vertex> {
    seq![
        vtx(-1, 0, -1, 0, 1, 0), vtx(1, 0, -1, 0, 1, 0),
        vtx(1, 0, 1, 0, 1, 0), vtx(-1, 0, 1, 0, 1, 0),
    ]
}

/// Which corner of its quad the `k`-th index of a quad's six indices names:
/// a quad with corners 0, 1, 2, 3 is split into triangles (0, 1, 2) and
/// (0, 2, 3).
pub open spec fn quad_corner(k: int) -> int {
    if k == 0 {
        0
    } else if k == 1 {
        1
    } else if k == 2 {
        2
    } else if k == 3 {
        0
    } else if k == 4 {
        2
    } else {
        3
    }
}

/// The index list of `quads` consecutive quads, the quad `q` made of the
/// vertices `4q .. 4q + 3`, each split into two triangles.
pub open spec fn quad_list_indices(quads: nat) -> Seq<u16> {
    Seq::new(6 * quads, |i: int| (4 * (i / 6) + quad_corner(i % 6)) as u16)
}

/// Builds the index list of `quad_count` consecutive quads.
fn quad_indices(quad_count: u16) -> (indices: Vec<u16>)
    requires
        quad_count <= 16383,
    ensures
        indices@ == quad_list_indices(quad_count as nat),
{
    let mut indices: Vec<u16> = Vec::new();
    let mut quad: u16 = 0;
    while quad < quad_count
        invariant
            quad <= quad_count <= 16383,
            indices@ == quad_list_indices(quad as nat),
        decreases quad_count - quad,
    {
        let base: u16 = 4 * quad;
        indices.push(base);
        indices.push(base + 1);
        indices.push(base + 2);
        indices.push(base);
        indices.push(base + 2);
        indices.push(base + 3);
        proof {
            let q = quad as int;
            assert forall|i: int| 6 * q <= i < 6 * q + 6 implies #[trigger] (i / 6) == q && i % 6
                == i - 6 * q by {
                assert((i / 6) == q && i % 6 == i - 6 * q) by (nonlinear_arith)
                    requires
                        6 * q <= i < 6 * q + 6,
                ;
            }
            assert(indices@ =~= quad_list_indices((quad + 1) as nat));
        }
        quad = quad + 1;
    }
    indices
}


/// A vector of mathematical integers, used to state geometric facts exactly.
pub type IVec = (int, int, int);

/// The vector `b - a`.
pub open spec fn diff(b: IVec, a: IVec) -> IVec {
    (b.0 - a.0, b.1 - a.1, b.2 - a.2)
}

/// The cross product `u × v`.
pub open spec fn cross(u: IVec, v: IVec) -> IVec {
    (u.1 * v.2 - u.2 * v.1, u.2 * v.0 - u.0 * v.2, u.0 * v.1 - u.1 * v.0)
}

/// The dot product `u · v`.
pub open spec fn dot(u: IVec, v: IVec) -> int {
    u.0 * v.0 + u.1 * v.1 + u.2 * v.2
}

/// The integer vector of a lattice vector.
pub open spec fn ivec(v: Vec3i) -> IVec {
    (v.x as int, v.y as int, v.z as int)
}

/// The number of whole triangles in an index list.
pub open spec fn triangle_count(indices: Seq<u16>) -> int {
    indices.len() as int / 3
}

/// The `j`-th vertex (`j < 3`) of the triangle `t` of a mesh.
pub open spec fn corner(vertices: Seq<Vertex>, indices: Seq<u16>, t: int, j: int) -> Vertex {
    vertices[indices[3 * t + j] as int]
}

/// Twice the signed area vector of the triangle `t`: the cross product of its
/// two edges leaving the first corner. It points to the side from which the
/// corners are seen in counter-clockwise order.
pub open spec fn area_vector(vertices: Seq<Vertex>, indices: Seq<u16>, t: int) -> IVec {
    let a = ivec(corner(vertices, indices, t, 0).position);
    let b = ivec(corner(vertices, indices, t, 1).position);
    let c = ivec(corner(vertices, indices, t, 2).position);
    cross(diff(b, a), diff(c, a))
}

/// The index list is a list of whole triangles whose corners are all
/// vertices of the mesh.
pub open spec fn is_triangle_list(vertices: Seq<Vertex>, indices: Seq<u16>) -> bool {
    &&& indices.len() % 3 == 0
    &&& forall|i: int| 0 <= i < indices.len() ==> (#[trigger] indices[i] as int) < vertices.len()
}

/// Some entry of the index list names the vertex `k`.
pub open spec fn references(indices: Seq<u16>, k: int) -> bool {
    exists|i: int| 0 <= i < indices.len() && #[trigger] indices[i] == k
}

/// Every vertex of the mesh is a corner of some triangle.
pub open spec fn uses_every_vertex(vertices: Seq<Vertex>, indices: Seq<u16>) -> bool {
    forall|k: int| 0 <= k < vertices.len() ==> #[trigger] references(indices, k)
}

/// The three corners of every triangle share one normal, and every triangle
/// is non-degenerate and lies across that normal: its area vector is a
/// non-zero multiple of the normal.
pub open spec fn triangles_flat_across_normal(vertices: Seq<Vertex>, indices: Seq<u16>) -> bool {
    forall|t: int|
        0 <= t < triangle_count(indices) ==> {
            let n = corner(vertices, indices, t, 0).normal;
            &&& corner(vertices, indices, t, 1).normal == n
            &&& corner(vertices, indices, t, 2).normal == n
            &&& cross(#[trigger] area_vector(vertices, indices, t), ivec(n)) == (0int, 0int, 0int)
            &&& dot(area_vector(vertices, indices, t), ivec(n)) != 0
        }
}

/// Every triangle's corners run counter-clockwise when seen from the side its
/// normal points to (`sign == 1`), or all of them run clockwise (`sign == -1`).
pub open spec fn triangles_wind(vertices: Seq<Vertex>, indices: Seq<u16>, sign: int) -> bool {
    forall|t: int|
        0 <= t < triangle_count(indices) ==> sign * dot(
            #[trigger] area_vector(vertices, indices, t),
            ivec(corner(vertices, indices, t, 0).normal),
        ) > 0
}

/// Every vertex lies on the plane `position · normal == offset` of its own
/// normal.
pub open spec fn vertices_on_planes(vertices: Seq<Vertex>, offset: int) -> bool {
    forall|k: int|
        0 <= k < vertices.len() ==> dot(ivec((#[trigger] vertices[k]).position), ivec(vertices[k].normal))
            == offset
}

/// Facts about where `i / 6` and `i % 6` fall.
proof fn lemma_div6(i: int)
    requires
        0 <= i,
    ensures
        0 <= i % 6 < 6,
        i == 6 * (i / 6) + i % 6,
        i / 6 >= 0,
{
    assert(0 <= i % 6 < 6 && i == 6 * (i / 6) + i % 6 && i / 6 >= 0) by (nonlinear_arith)
        requires
            0 <= i,
    ;
}

/// A list of `quads` quads is a list of whole triangles over any vertex list
/// that holds the `4 * quads` corners, and it uses each of those corners.
pub proof fn lemma_quad_list_is_triangle_list(vertices: Seq<Vertex>, quads: nat)
    requires
        vertices.len() == 4 * quads,
        4 * quads <= 65536,
    ensures
        is_triangle_list(vertices, quad_list_indices(quads)),
        uses_every_vertex(vertices, quad_list_indices(quads)),
        triangle_count(quad_list_indices(quads)) == 2 * quads,
{
    let indices = quad_list_indices(quads);
    assert((6 * quads) % 3 == 0 && (6 * quads) / 3 == 2 * quads) by (nonlinear_arith);
    assert forall|i: int| 0 <= i < indices.len() implies (#[trigger] indices[i] as int)
        < vertices.len() by {
        lemma_div6(i);
        let q = i / 6;
        assert(q < quads) by (nonlinear_arith)
            requires
                i == 6 * q + i % 6, 0 <= i % 6, i < 6 * quads,
        ;
        assert(0 <= 4 * q + quad_corner(i % 6) < 4 * quads);
    }
    assert forall|k: int| 0 <= k < vertices.len() implies #[trigger] references(indices, k) by {
        let q = k / 4;
        let r = k % 4;
        assert(k == 4 * q + r && 0 <= r < 4 && 0 <= q < quads) by (nonlinear_arith)
            requires
                0 <= k < 4 * quads,
                q == k / 4,
                r == k % 4,
        ;
        let j = if r == 3 { 5 } else { r };
        let i = 6 * q + j;
        assert(i / 6 == q && i % 6 == j) by (nonlinear_arith)
            requires
                i == 6 * q + j, 0 <= j < 6,
        ;
        assert(0 <= i < indices.len()) by (nonlinear_arith)
            requires
                i == 6 * q + j, 0 <= j < 6, 0 <= q < quads, indices.len() == 6 * quads,
        ;
        assert(indices[i] == k);
    }
}

/// The corners of triangle `t` of a quad list are vertices `4q, 4q+1, 4q+2`
/// for an even `t = 2q` and `4q, 4q+2, 4q+3` for an odd `t = 2q + 1`.
proof fn lemma_quad_triangle_corners(quads: nat, t: int)
    requires
        0 <= t < 2 * quads,
        4 * quads <= 65536,
    ensures
        ({
            let is = quad_list_indices(quads);
            let q = t / 2;
            &&& 0 <= q < quads
            &&& is[3 * t] as int == 4 * q
            &&& is[3 * t + 1] as int == if t % 2 == 0 { 4 * q + 1 } else { 4 * q + 2 }
            &&& is[3 * t + 2] as int == if t % 2 == 0 { 4 * q + 2 } else { 4 * q + 3 }
        }),
{
    let is = quad_list_indices(quads);
    let q = t / 2;
    let r = t % 2;
    assert(t == 2 * q + r && 0 <= r < 2 && 0 <= q < quads) by (nonlinear_arith)
        requires
            0 <= t < 2 * quads, q == t / 2, r == t % 2,
    ;
    assert((3 * t) / 6 == q && (3 * t) % 6 == 3 * r && (3 * t + 1) / 6 == q && (3 * t + 1) % 6
        == 3 * r + 1 && (3 * t + 2) / 6 == q && (3 * t + 2) % 6 == 3 * r + 2) by (nonlinear_arith)
        requires
            t == 2 * q + r, 0 <= r < 2, q >= 0,
    ;
    assert(3 * t + 2 < 6 * quads);
}

/// A triangle with corners at `a`, `b`, `c` and the shared normal `n`
/// lies across `n`, and its area vector has the dot product `d` with `n`.
proof fn lemma_triangle_values(
    vs: Seq<Vertex>,
    is: Seq<u16>,
    t: int,
    ax: int, ay: int, az: int,
    bx: int, by: int, bz: int,
    cx: int, cy: int, cz: int,
    nx: int, ny: int, nz: int,
    d: int,
)
    requires
        ivec(corner(vs, is, t, 0).position) == (ax, ay, az),
        ivec(corner(vs, is, t, 1).position) == (bx, by, bz),
        ivec(corner(vs, is, t, 2).position) == (cx, cy, cz),
        ivec(corner(vs, is, t, 0).normal) == (nx, ny, nz),
        ivec(corner(vs, is, t, 1).normal) == (nx, ny, nz),
        ivec(corner(vs, is, t, 2).normal) == (nx, ny, nz),
        ({
            let s0 = (by - ay) * (cz - az) - (bz - az) * (cy - ay);
            let s1 = (bz - az) * (cx - ax) - (bx - ax) * (cz - az);
            let s2 = (bx - ax) * (cy - ay) - (by - ay) * (cx - ax);
            &&& s1 * nz - s2 * ny == 0
            &&& s2 * nx - s0 * nz == 0
            &&& s0 * ny - s1 * nx == 0
            &&& s0 * nx + s1 * ny + s2 * nz == d
        }),
    ensures
        cross(area_vector(vs, is, t), ivec(corner(vs, is, t, 0).normal)) == (0int, 0int, 0int),
        dot(area_vector(vs, is, t), ivec(corner(vs, is, t, 0).normal)) == d,
        corner(vs, is, t, 1).normal == corner(vs, is, t, 0).normal,
        corner(vs, is, t, 2).normal == corner(vs, is, t, 0).normal,
{
}

/// A vertex at `(px, py, pz)` with normal `(nx, ny, nz)` lies on the plane
/// `position · normal == d`.
proof fn lemma_vertex_values(v: Vertex, px: int, py: int, pz: int, nx: int, ny: int, nz: int, d: int)
    requires
        ivec(v.position) == (px, py, pz),
        ivec(v.normal) == (nx, ny, nz),
        px * nx + py * ny + pz * nz == d,
    ensures
        dot(ivec(v.position), ivec(v.normal)) == d,
{
}

/// Per-triangle facts of the cube: its corners share a normal, and the
/// triangle runs counter-clockwise around that outward normal.
proof fn lemma_cube_triangle(t: int)
    requires
        0 <= t < 12,
    ensures
        ({
            let vs = spec_cube_vertices();
            let is = quad_list_indices(6);
            let n = corner(vs, is, t, 0).normal;
            &&& corner(vs, is, t, 1).normal == n
            &&& corner(vs, is, t, 2).normal == n
            &&& cross(area_vector(vs, is, t), ivec(n)) == (0int, 0int, 0int)
            &&& dot(area_vector(vs, is, t), ivec(n)) > 0
        }),
{
    let vs = spec_cube_vertices();
    let is = quad_list_indices(6);
    lemma_quad_triangle_corners(6, t);
    if t == 0 {
        lemma_triangle_values(vs, is, t, -1, -1, 1, 1, -1, 1, 1, 1, 1, 0, 0, 1, 4);
    } else if t == 1 {
        lemma_triangle_values(vs, is, t, -1, -1, 1, 1, 1, 1, -1, 1, 1, 0, 0, 1, 4);
    } else if t == 2 {
        lemma_triangle_values(vs, is, t, 1, -1, -1, -1, -1, -1, -1, 1, -1, 0, 0, -1, 4);
    } else if t == 3 {
        lemma_triangle_values(vs, is, t, 1, -1, -1, -1, 1, -1, 1, 1, -1, 0, 0, -1, 4);
    } else if t == 4 {
        lemma_triangle_values(vs, is, t, 1, -1, 1, 1, -1, -1, 1, 1, -1, 1, 0, 0, 4);
    } else if t == 5 {
        lemma_triangle_values(vs, is, t, 1, -1, 1, 1, 1, -1, 1, 1, 1, 1, 0, 0, 4);
    } else if t == 6 {
        lemma_triangle_values(vs, is, t, -1, -1, -1, -1, -1, 1, -1, 1, 1, -1, 0, 0, 4);
    } else if t == 7 {
        lemma_triangle_values(vs, is, t, -1, -1, -1, -1, 1, 1, -1, 1, -1, -1, 0, 0, 4);
    } else if t == 8 {
        lemma_triangle_values(vs, is, t, -1, 1, 1, 1, 1, 1, 1, 1, -1, 0, 1, 0, 4);
    } else if t == 9 {
        lemma_triangle_values(vs, is, t, -1, 1, 1, 1, 1, -1, -1, 1, -1, 0, 1, 0, 4);
    } else if t == 10 {
        lemma_triangle_values(vs, is, t, -1, -1, -1, 1, -1, -1, 1, -1, 1, 0, -1, 0, 4);
    } else if t == 11 {
        lemma_triangle_values(vs, is, t, -1, -1, -1, 1, -1, 1, -1, -1, 1, 0, -1, 0, 4);
    }
}

/// Per-triangle facts of the plane: its corners share the upward normal, and
/// the triangle runs clockwise when seen from above.
proof fn lemma_plane_triangle(t: int)
    requires
        0 <= t < 2,
    ensures
        ({
            let vs = spec_plane_vertices();
            let is = quad_list_indices(1);
            let n = corner(vs, is, t, 0).normal;
            &&& corner(vs, is, t, 1).normal == n
            &&& corner(vs, is, t, 2).normal == n
            &&& cross(area_vector(vs, is, t), ivec(n)) == (0int, 0int, 0int)
            &&& dot(area_vector(vs, is, t), ivec(n)) < 0
        }),
{
    let vs = spec_plane_vertices();
    let is = quad_list_indices(1);
    lemma_quad_triangle_corners(1, t);
    if t == 0 {
        lemma_triangle_values(vs, is, t, -1, 0, -1, 1, 0, -1, 1, 0, 1, 0, 1, 0, -4);
    } else if t == 1 {
        lemma_triangle_values(vs, is, t, -1, 0, -1, 1, 0, 1, -1, 0, 1, 0, 1, 0, -4);
    }
}

/// The cube is made of whole triangles: 24 vertices and
/// 12 triangles, every index names one of its vertices, every vertex is
/// used, each vertex lies on the face `position · normal == 1` of the
/// `[-1, 1]` cube, and every triangle is flat across its face's outward
/// normal with its corners counter-clockwise seen from outside the cube.
pub proof fn lemma_cube_mesh_well_formed()
    ensures
        spec_cube_vertices().len() == 24,
        quad_list_indices(6).len() == 36,
        triangle_count(quad_list_indices(6)) == 12,
        is_triangle_list(spec_cube_vertices(), quad_list_indices(6)),
        uses_every_vertex(spec_cube_vertices(), quad_list_indices(6)),
        vertices_on_planes(spec_cube_vertices(), 1),
        triangles_flat_across_normal(spec_cube_vertices(), quad_list_indices(6)),
        triangles_wind(spec_cube_vertices(), quad_list_indices(6), 1),
{
    let vs = spec_cube_vertices();
    let is = quad_list_indices(6);
    lemma_quad_list_is_triangle_list(vs, 6);
    assert forall|t: int| 0 <= t < triangle_count(is) implies {
        let n = corner(vs, is, t, 0).normal;
        &&& corner(vs, is, t, 1).normal == n
        &&& corner(vs, is, t, 2).normal == n
        &&& cross(#[trigger] area_vector(vs, is, t), ivec(n)) == (0int, 0int, 0int)
        &&& dot(area_vector(vs, is, t), ivec(n)) != 0
    } by {
        lemma_cube_triangle(t);
    }
    assert forall|t: int| 0 <= t < triangle_count(is) implies 1 * dot(
        #[trigger] area_vector(vs, is, t),
        ivec(corner(vs, is, t, 0).normal),
    ) > 0 by {
        lemma_cube_triangle(t);
    }
    assert(vs.len() == 24);
    assert forall|k: int| 0 <= k < vs.len() implies dot(ivec((#[trigger] vs[k]).position), ivec(vs[k].normal))
        == 1 by {
        if k == 0 {
            lemma_vertex_values(vs[k], -1, -1, 1, 0, 0, 1, 1);
        } else if k == 1 {
            lemma_vertex_values(vs[k], 1, -1, 1, 0, 0, 1, 1);
        } else if k == 2 {
            lemma_vertex_values(vs[k], 1, 1, 1, 0, 0, 1, 1);
        } else if k == 3 {
            lemma_vertex_values(vs[k], -1, 1, 1, 0, 0, 1, 1);
        } else if k == 4 {
            lemma_vertex_values(vs[k], 1, -1, -1, 0, 0, -1, 1);
        } else if k == 5 {
            lemma_vertex_values(vs[k], -1, -1, -1, 0, 0, -1, 1);
        } else if k == 6 {
            lemma_vertex_values(vs[k], -1, 1, -1, 0, 0, -1, 1);
        } else if k == 7 {
            lemma_vertex_values(vs[k], 1, 1, -1, 0, 0, -1, 1);
        } else if k == 8 {
            lemma_vertex_values(vs[k], 1, -1, 1, 1, 0, 0, 1);
        } else if k == 9 {
            lemma_vertex_values(vs[k], 1, -1, -1, 1, 0, 0, 1);
        } else if k == 10 {
            lemma_vertex_values(vs[k], 1, 1, -1, 1, 0, 0, 1);
        } else if k == 11 {
            lemma_vertex_values(vs[k], 1, 1, 1, 1, 0, 0, 1);
        } else if k == 12 {
            lemma_vertex_values(vs[k], -1, -1, -1, -1, 0, 0, 1);
        } else if k == 13 {
            lemma_vertex_values(vs[k], -1, -1, 1, -1, 0, 0, 1);
        } else if k == 14 {
            lemma_vertex_values(vs[k], -1, 1, 1, -1, 0, 0, 1);
        } else if k == 15 {
            lemma_vertex_values(vs[k], -1, 1, -1, -1, 0, 0, 1);
        } else if k == 16 {
            lemma_vertex_values(vs[k], -1, 1, 1, 0, 1, 0, 1);
        } else if k == 17 {
            lemma_vertex_values(vs[k], 1, 1, 1, 0, 1, 0, 1);
        } else if k == 18 {
            lemma_vertex_values(vs[k], 1, 1, -1, 0, 1, 0, 1);
        } else if k == 19 {
            lemma_vertex_values(vs[k], -1, 1, -1, 0, 1, 0, 1);
        } else if k == 20 {
            lemma_vertex_values(vs[k], -1, -1, -1, 0, -1, 0, 1);
        } else if k == 21 {
            lemma_vertex_values(vs[k], 1, -1, -1, 0, -1, 0, 1);
        } else if k == 22 {
            lemma_vertex_values(vs[k], 1, -1, 1, 0, -1, 0, 1);
        } else if k == 23 {
            lemma_vertex_values(vs[k], -1, -1, 1, 0, -1, 0, 1);
        }
    }
}

/// The plane is a flat square made of whole triangles: 4 vertices and
/// 2 triangles, every index names one of its vertices, every vertex is used,
/// all vertices lie at height 0 (`position · normal == 0` for the upward
/// normal), and both triangles lie across the upward normal with their
/// corners running clockwise when seen from above.
pub proof fn lemma_plane_mesh_well_formed()
    ensures
        spec_plane_vertices().len() == 4,
        quad_list_indices(1).len() == 6,
        triangle_count(quad_list_indices(1)) == 2,
        is_triangle_list(spec_plane_vertices(), quad_list_indices(1)),
        uses_every_vertex(spec_plane_vertices(), quad_list_indices(1)),
        vertices_on_planes(spec_plane_vertices(), 0),
        triangles_flat_across_normal(spec_plane_vertices(), quad_list_indices(1)),
        triangles_wind(spec_plane_vertices(), quad_list_indices(1), -1),
{
    let vs = spec_plane_vertices();
    let is = quad_list_indices(1);
    lemma_quad_list_is_triangle_list(vs, 1);
    assert forall|t: int| 0 <= t < triangle_count(is) implies {
        let n = corner(vs, is, t, 0).normal;
        &&& corner(vs, is, t, 1).normal == n
        &&& corner(vs, is, t, 2).normal == n
        &&& cross(#[trigger] area_vector(vs, is, t), ivec(n)) == (0int, 0int, 0int)
        &&& dot(area_vector(vs, is, t), ivec(n)) != 0
    } by {
        lemma_plane_triangle(t);
    }
    assert forall|t: int| 0 <= t < triangle_count(is) implies -1 * dot(
        #[trigger] area_vector(vs, is, t),
        ivec(corner(vs, is, t, 0).normal),
    ) > 0 by {
        lemma_plane_triangle(t);
    }
    assert(vs.len() == 4);
    assert forall|k: int| 0 <= k < vs.len() implies dot(ivec((#[trigger] vs[k]).position), ivec(vs[k].normal))
        == 0 by {
        if k == 0 {
            lemma_vertex_values(vs[k], -1, 0, -1, 0, 1, 0, 0);
        } else if k == 1 {
            lemma_vertex_values(vs[k], 1, 0, -1, 0, 1, 0, 0);
        } else if k == 2 {
            lemma_vertex_values(vs[k], 1, 0, 1, 0, 1, 0, 0);
        } else if k == 3 {
            lemma_vertex_values(vs[k], -1, 0, 1, 0, 1, 0, 0);
        }
    }
}

/// `c` is `1` or `-1`.
pub open spec fn is_unit_sign(c: i32) -> bool {
    c == 1 || c == -1
}

/// `n` is one of the six unit vectors along the axes.
pub open spec fn is_axis_unit(n: Vec3i) -> bool {
    ||| is_unit_sign(n.x) && n.y == 0 && n.z == 0
    ||| n.x == 0 && is_unit_sign(n.y) && n.z == 0
    ||| n.x == 0 && n.y == 0 && is_unit_sign(n.z)
}

/// `p` is a corner of the cube `[-1, 1]` on each axis.
pub open spec fn is_cube_corner(p: Vec3i) -> bool {
    is_unit_sign(p.x) && is_unit_sign(p.y) && is_unit_sign(p.z)
}

/// Vertex `j` (`j < 4`) of face `f` of the cube.
pub open spec fn cube_face_vertex(f: int, j: int) -> Vertex {
    spec_cube_vertices()[4 * f + j]
}

/// The cube's six faces, each made of four consecutive vertices, have six
/// different outward normals along the axes, so every side of the cube is
/// covered once. Each face's four vertices share its normal and are four
/// different corners of the cube; with `position · normal == 1` (see
/// [`lemma_cube_mesh_well_formed`]) they are exactly the four corners of
/// that side.
pub proof fn lemma_cube_faces_cover_every_side()
    ensures
        forall|f: int, j: int|
            0 <= f < 6 && 0 <= j < 4 ==> (#[trigger] cube_face_vertex(f, j)).normal == cube_face_vertex(
                f,
                0,
            ).normal,
        forall|f: int| 0 <= f < 6 ==> is_axis_unit(#[trigger] cube_face_vertex(f, 0).normal),
        forall|f: int, g: int|
            0 <= f < g < 6 ==> (#[trigger] cube_face_vertex(f, 0)).normal != (#[trigger] cube_face_vertex(
                g,
                0,
            )).normal,
        forall|f: int, j: int|
            0 <= f < 6 && 0 <= j < 4 ==> is_cube_corner((#[trigger] cube_face_vertex(f, j)).position),
        forall|f: int, j: int, l: int|
            0 <= f < 6 && 0 <= j < l < 4 ==> (#[trigger] cube_face_vertex(f, j)).position
                != (#[trigger] cube_face_vertex(f, l)).position,
{
    let vs = spec_cube_vertices();
    assert(vs.len() == 24);
    assert forall|f: int, j: int| 0 <= f < 6 && 0 <= j < 4 implies {
        &&& (#[trigger] cube_face_vertex(f, j)).normal == cube_face_vertex(f, 0).normal
        &&& is_cube_corner(cube_face_vertex(f, j).position)
    } by {
        assert(f == 0 || f == 1 || f == 2 || f == 3 || f == 4 || f == 5);
        assert(j == 0 || j == 1 || j == 2 || j == 3);
    }
    assert forall|f: int| 0 <= f < 6 implies is_axis_unit(#[trigger] cube_face_vertex(f, 0).normal) by {
        assert(f == 0 || f == 1 || f == 2 || f == 3 || f == 4 || f == 5);
    }
    assert forall|f: int, g: int| 0 <= f < g < 6 implies (#[trigger] cube_face_vertex(f, 0)).normal
        != (#[trigger] cube_face_vertex(g, 0)).normal by {
        assert(f == 0 || f == 1 || f == 2 || f == 3 || f == 4 || f == 5);
        assert(g == 0 || g == 1 || g == 2 || g == 3 || g == 4 || g == 5);
    }
    assert forall|f: int, j: int, l: int| 0 <= f < 6 && 0 <= j < l < 4 implies (#[trigger] cube_face_vertex(
        f,
        j,
    )).position != (#[trigger] cube_face_vertex(f, l)).position by {
        assert(f == 0 || f == 1 || f == 2 || f == 3 || f == 4 || f == 5);
        assert(j == 0 || j == 1 || j == 2 || j == 3);
        assert(l == 0 || l == 1 || l == 2 || l == 3);
    }
}

/// The plane's four vertices are exactly the four corners `(±1, 0, ±1)` of
/// the square `[-1, 1] x {0} x [-1, 1]`: each lies at height 0 with `±1` on
/// the other axes, no two coincide, and all have the upward normal.
pub proof fn lemma_plane_covers_the_square()
    ensures
        spec_plane_vertices().len() == 4,
        forall|k: int|
            0 <= k < 4 ==> {
                let p = (#[trigger] spec_plane_vertices()[k]).position;
                &&& p.y == 0
                &&& is_unit_sign(p.x)
                &&& is_unit_sign(p.z)
                &&& spec_plane_vertices()[k].normal == (Vec3i { x: 0, y: 1, z: 0 })
            },
        forall|k: int, l: int|
            0 <= k < l < 4 ==> (#[trigger] spec_plane_vertices()[k]).position != (
            #[trigger] spec_plane_vertices()[l]).position,
{
    let vs = spec_plane_vertices();
    assert forall|k: int| 0 <= k < 4 implies {
        let p = (#[trigger] vs[k]).position;
        &&& p.y == 0
        &&& is_unit_sign(p.x)
        &&& is_unit_sign(p.z)
        &&& vs[k].normal == (Vec3i { x: 0, y: 1, z: 0 })
    } by {
        assert(k == 0 || k == 1 || k == 2 || k == 3);
    }
    assert forall|k: int, l: int| 0 <= k < l < 4 implies (#[trigger] vs[k]).position != (
    #[trigger] vs[l]).position by {
        assert(k == 0 || k == 1 || k == 2 || k == 3);
        assert(l == 0 || l == 1 || l == 2 || l == 3);
    }
}

/// `bytes` holds the values of `values` in order, two bytes each, with the
/// lower byte first.
pub open spec fn little_endian_bytes(values: Seq<u16>, bytes: Seq<u8>) -> bool {
    &&& bytes.len() == 2 * values.len()
    &&& forall|i: int|
        0 <= i < values.len() ==> #[trigger] values[i] == bytes[2 * i] + 256 * bytes[2 * i + 1]
}

/// `bytes` holds the values of `values` in order, two bytes each, with the
/// higher byte first.
pub open spec fn big_endian_bytes(values: Seq<u16>, bytes: Seq<u8>) -> bool {
    &&& bytes.len() == 2 * values.len()
    &&& forall|i: int|
        0 <= i < values.len() ==> #[trigger] values[i] == 256 * bytes[2 * i] + bytes[2 * i + 1]
}

/// `bytes` is the in-memory image of `values` on some machine: two bytes per
/// value, all of them in the same byte order.
pub open spec fn native_bytes(values: Seq<u16>, bytes: Seq<u8>) -> bool {
    little_endian_bytes(values, bytes) || big_endian_bytes(values, bytes)
}

/// Copies the memory of a slice of 16-bit values as bytes, through
/// `bytemuck::cast_slice`.
///
/// `cast_slice::<u16, u8>` reinterprets the slice's memory without copying
/// or reordering it, so the result has two bytes per value in the machine's
/// native byte order; which order that is depends on the machine, and the
/// contract only says that it is one of the two for all values alike.
#[verifier::external_body]
fn cast_u16_slice_to_bytes(values: &[u16]) -> (bytes: Vec<u8>)
    ensures
        native_bytes(values@, bytes@),
{
    bytemuck::cast_slice::<u16, u8>(values).to_vec()
}

impl MeshData {
    /// Creates a new mesh for the cube.
    ///
    /// This function creates a 24-vertex cube.
    pub fn cube() -> (m: Self)
        ensures
            m.vertices@ == spec_cube_vertices(),
            m.indices@ == quad_list_indices(6),
            m.label@ == "Cube"@,
    {
        let normal_front = Vec3i::new(0, 0, 1);
        let normal_back = Vec3i::new(0, 0, -1);
        let normal_left = Vec3i::new(-1, 0, 0);
        let normal_right = Vec3i::new(1, 0, 0);
        let normal_top = Vec3i::new(0, 1, 0);
        let normal_bottom = Vec3i::new(0, -1, 0);

        let vertices = vec![
            // front face, z = 1
            Vertex::new(Vec3i::new(-1, -1, 1), normal_front),
            Vertex::new(Vec3i::new(1, -1, 1), normal_front),
            Vertex::new(Vec3i::new(1, 1, 1), normal_front),
            Vertex::new(Vec3i::new(-1, 1, 1), normal_front),
            // back face, z = -1
            Vertex::new(Vec3i::new(1, -1, -1), normal_back),
            Vertex::new(Vec3i::new(-1, -1, -1), normal_back),
            Vertex::new(Vec3i::new(-1, 1, -1), normal_back),
            Vertex::new(Vec3i::new(1, 1, -1), normal_back),
            // right face, x = 1
            Vertex::new(Vec3i::new(1, -1, 1), normal_right),
            Vertex::new(Vec3i::new(1, -1, -1), normal_right),
            Vertex::new(Vec3i::new(1, 1, -1), normal_right),
            Vertex::new(Vec3i::new(1, 1, 1), normal_right),
            // left face, x = -1
            Vertex::new(Vec3i::new(-1, -1, -1), normal_left),
            Vertex::new(Vec3i::new(-1, -1, 1), normal_left),
            Vertex::new(Vec3i::new(-1, 1, 1), normal_left),
            Vertex::new(Vec3i::new(-1, 1, -1), normal_left),
            // top face, y = 1
            Vertex::new(Vec3i::new(-1, 1, 1), normal_top),
            Vertex::new(Vec3i::new(1, 1, 1), normal_top),
            Vertex::new(Vec3i::new(1, 1, -1), normal_top),
            Vertex::new(Vec3i::new(-1, 1, -1), normal_top),
            // bottom face, y = -1
            Vertex::new(Vec3i::new(-1, -1, -1), normal_bottom),
            Vertex::new(Vec3i::new(1, -1, -1), normal_bottom),
            Vertex::new(Vec3i::new(1, -1, 1), normal_bottom),
            Vertex::new(Vec3i::new(-1, -1, 1), normal_bottom),
        ];
        let indices = quad_indices(6);
        assert(vertices@ =~= spec_cube_vertices());
        MeshData { vertices, indices, label: "Cube" }
    }

    /// Creates a new mesh for the plane.
    pub fn plane() -> (m: Self)
        ensures
            m.vertices@ == spec_plane_vertices(),
            m.indices@ == quad_list_indices(1),
            m.label@ == "Plane"@,
    {
        // All vertices of the plane have the same normal since it is flat.
        let normal = Vec3i::new(0, 1, 0);
        let vertices = vec![
            Vertex::new(Vec3i::new(-1, 0, -1), normal),
            Vertex::new(Vec3i::new(1, 0, -1), normal),
            Vertex::new(Vec3i::new(1, 0, 1), normal),
            Vertex::new(Vec3i::new(-1, 0, 1), normal),
        ];
        let indices = quad_indices(1);
        assert(vertices@ =~= spec_plane_vertices());
        MeshData { vertices, indices, label: "Plane" }
    }

    /// The contents of the GPU index buffer for this mesh: the memory image
    /// of the index list.
    pub fn index_buffer_contents(&self) -> (bytes: Vec<u8>)
        ensures
            native_bytes(self.indices@, bytes@),
    {
        cast_u16_slice_to_bytes(self.indices.as_slice())
    }

    /// The number of indices to draw, as the 32-bit count that draw calls
    /// take (truncated to its lower 32 bits, as a cast does).
    pub fn index_count(&self) -> (count: u32)
        ensures
            count == self.indices@.len() as u32,
    {
        self.indices.len() as u32
    }
}

} // verus!
