//! The static mesh the bootstrap uploads: vertex positions, a triangle
//! index list, their well-formedness, and the byte sizes the buffer
//! uploads need. Position components are stored doubled (a stored 1
//! stands for one half in normalized device coordinates), so the quad's
//! corner at (0.5, 0.5, 0) is stored as (1, 1, 0); the embedding program
//! halves each component when it produces the driver's floats.

use vstd::prelude::*;

verus! {

use crate::FLOAT_BYTES;

/// Bytes of one vertex's position data: three float components.
pub const VERTEX_BYTES: u32 = 12;

/// Bytes of one vertex index as the element buffer holds it.
pub const INDEX_BYTES: u32 = 4;

/// A vertex position with components stored doubled: a stored component
/// c stands for the coordinate c/2.
#[derive(Clone, Copy, PartialEq, Eq, Structural, Debug)]
pub struct Position {
    /// Doubled x coordinate.
    pub x: i32,
    /// Doubled y coordinate.
    pub y: i32,
    /// Doubled z coordinate.
    pub z: i32,
}

/// One static mesh: positions and the index list that groups them into
/// triangles, three indices per triangle.
pub struct Mesh {
    /// The vertex positions.
    pub vertices: Vec<Position>,
    /// Vertex indices, a multiple of three of them.
    pub indices: Vec<u32>,
}

impl Mesh {
    /// A mesh is well formed when its indices come in whole triangles
    /// and every index names a vertex.
    pub open spec fn well_formed(self) -> bool {
        &&& self.indices@.len() % 3 == 0
        &&& forall|i: int|
            0 <= i < self.indices@.len() ==> (#[trigger] self.indices@[i]) < self.vertices@.len()
    }

    /// How many triangles the index list describes.
    pub open spec fn triangle_count(self) -> int {
        self.indices@.len() as int / 3
    }

    /// The indices of triangle `t`, in list order.
    pub open spec fn spec_triangle(self, t: int) -> (u32, u32, u32) {
        (self.indices@[3 * t], self.indices@[3 * t + 1], self.indices@[3 * t + 2])
    }
}

/// The set of vertex indices a triangle touches; two triangles with the
/// same set are duplicates of one another.
pub open spec fn triangle_index_set(t: (u32, u32, u32)) -> Set<u32> {
    set![t.0, t.1, t.2]
}

/// Twice the signed area of the triangle a, b, c projected to the
/// xy-plane, in doubled-component units.
pub open spec fn double_area(a: Position, b: Position, c: Position) -> int {
    (b.x - a.x) * (c.y - a.y) - (c.x - a.x) * (b.y - a.y)
}

/// The quad's four corner positions, doubled: (0.5, 0.5, 0),
/// (0.5, -0.5, 0), (-0.5, -0.5, 0), (-0.5, 0.5, 0).
pub fn quad_vertices() -> (r: Vec<Position>)
    ensures
        r@ =~= seq![
            Position { x: 1i32, y: 1i32, z: 0i32 },
            Position { x: 1i32, y: -1i32, z: 0i32 },
            Position { x: -1i32, y: -1i32, z: 0i32 },
            Position { x: -1i32, y: 1i32, z: 0i32 },
        ],
{
    let mut v: Vec<Position> = Vec::new();
    v.push(Position { x: 1, y: 1, z: 0 });
    v.push(Position { x: 1, y: -1, z: 0 });
    v.push(Position { x: -1, y: -1, z: 0 });
    v.push(Position { x: -1, y: 1, z: 0 });
    v
}

/// The quad's index list: two triangles, (0, 1, 3) and (1, 2, 3),
/// sharing the diagonal through vertices 1 and 3.
pub fn quad_indices() -> (r: Vec<u32>)
    ensures
        r@ =~= seq![0u32, 1u32, 3u32, 1u32, 2u32, 3u32],
{
    let mut v: Vec<u32> = Vec::new();
    v.push(0);
    v.push(1);
    v.push(3);
    v.push(1);
    v.push(2);
    v.push(3);
    v
}

/// The quad mesh the indexed bootstrap variant uploads: four corners and
/// exactly two triangles, well formed.
pub fn quad_mesh() -> (r: Mesh)
    ensures
        r.well_formed(),
        r.vertices@ =~= quad_vertices_spec(),
        r.indices@ =~= seq![0u32, 1u32, 3u32, 1u32, 2u32, 3u32],
        r.triangle_count() == 2,
{
    let m = Mesh { vertices: quad_vertices(), indices: quad_indices() };
    m
}

/// The quad's corner positions as a specification value.
pub open spec fn quad_vertices_spec() -> Seq<Position> {
    seq![
        Position { x: 1i32, y: 1i32, z: 0i32 },
        Position { x: 1i32, y: -1i32, z: 0i32 },
        Position { x: -1i32, y: -1i32, z: 0i32 },
        Position { x: -1i32, y: 1i32, z: 0i32 },
    ]
}

/// Whether every index names one of `vertex_count` vertices.
pub fn indices_in_range(indices: &Vec<u32>, vertex_count: usize) -> (r: bool)
    ensures
        r <==> forall|i: int|
            0 <= i < indices@.len() ==> (#[trigger] indices@[i]) < vertex_count,
{
    let mut i: usize = 0;
    while i < indices.len()
        invariant
            0 <= i <= indices@.len(),
            forall|j: int| 0 <= j < i ==> (#[trigger] indices@[j]) < vertex_count,
        decreases indices@.len() - i,
    {
        if indices[i] as usize >= vertex_count {
            return false;
        }
        i = i + 1;
    }
    true
}

/// Whether a mesh is well formed: whole triangles, every index in range.
pub fn check_mesh(m: &Mesh) -> (r: bool)
    ensures
        r <==> m.well_formed(),
{
    m.indices.len() % 3 == 0 && indices_in_range(&m.indices, m.vertices.len())
}

/// The indices of triangle `t` of a well-formed mesh, in list order.
pub fn triangle(m: &Mesh, t: usize) -> (r: (u32, u32, u32))
    requires
        m.well_formed(),
        t < m.triangle_count(),
    ensures
        r == m.spec_triangle(t as int),
{
    let n = m.indices.len();
    proof {
        assert(3 * ((n as int) / 3) <= n as int) by (nonlinear_arith);
        assert(3 * (t as int) + 3 <= 3 * ((n as int) / 3)) by (nonlinear_arith)
            requires
                t < (n as int) / 3,
        ;
    }
    (m.indices[3 * t], m.indices[3 * t + 1], m.indices[3 * t + 2])
}

/// Whether two triangles are duplicates: they touch the same set of
/// vertex indices.
pub fn same_triangle(s: (u32, u32, u32), t: (u32, u32, u32)) -> (r: bool)
    ensures
        r <==> triangle_index_set(s) == triangle_index_set(t),
{
    let s_in_t = (s.0 == t.0 || s.0 == t.1 || s.0 == t.2) && (s.1 == t.0 || s.1 == t.1 || s.1
        == t.2) && (s.2 == t.0 || s.2 == t.1 || s.2 == t.2);
    let t_in_s = (t.0 == s.0 || t.0 == s.1 || t.0 == s.2) && (t.1 == s.0 || t.1 == s.1 || t.1
        == s.2) && (t.2 == s.0 || t.2 == s.1 || t.2 == s.2);
    let r = s_in_t && t_in_s;
    proof {
        if r {
            assert(triangle_index_set(s) =~= triangle_index_set(t));
        } else if triangle_index_set(s) == triangle_index_set(t) {
            assert(triangle_index_set(t).contains(s.0));
            assert(triangle_index_set(t).contains(s.1));
            assert(triangle_index_set(t).contains(s.2));
            assert(triangle_index_set(s).contains(t.0));
            assert(triangle_index_set(s).contains(t.1));
            assert(triangle_index_set(s).contains(t.2));
        }
    }
    r
}

/// Twice the signed area of a triangle projected to the xy-plane, for
/// positions whose components stay within a million doubled units.
pub fn triangle_double_area(a: &Position, b: &Position, c: &Position) -> (r: i64)
    requires
        -1000000 <= a.x <= 1000000,
        -1000000 <= a.y <= 1000000,
        -1000000 <= b.x <= 1000000,
        -1000000 <= b.y <= 1000000,
        -1000000 <= c.x <= 1000000,
        -1000000 <= c.y <= 1000000,
    ensures
        r == double_area(*a, *b, *c),
{
    let abx = b.x as i64 - a.x as i64;
    let aby = b.y as i64 - a.y as i64;
    let acx = c.x as i64 - a.x as i64;
    let acy = c.y as i64 - a.y as i64;
    proof {
        assert(-4000000000000 <= abx as int * acy as int <= 4000000000000) by (nonlinear_arith)
            requires
                -2000000 <= abx <= 2000000,
                -2000000 <= acy <= 2000000,
        ;
        assert(-4000000000000 <= acx as int * aby as int <= 4000000000000) by (nonlinear_arith)
            requires
                -2000000 <= acx <= 2000000,
                -2000000 <= aby <= 2000000,
        ;
    }
    abx * acy - acx * aby
}

/// Byte size of the vertex buffer for `count` vertices of three float
/// components each.
pub fn vertex_buffer_bytes(count: usize) -> (r: usize)
    requires
        count * VERTEX_BYTES <= usize::MAX,
    ensures
        r == count * VERTEX_BYTES,
        r == count * 3 * FLOAT_BYTES,
{
    count * 12
}

/// Byte size of the element buffer for `count` vertex indices.
pub fn index_buffer_bytes(count: usize) -> (r: usize)
    requires
        count * INDEX_BYTES <= usize::MAX,
    ensures
        r == count * INDEX_BYTES,
{
    count * 4
}

/// Flatten positions into the component list the vertex buffer holds:
/// three components per vertex, x then y then z, still doubled.
pub fn flatten_positions(vertices: &Vec<Position>) -> (r: Vec<i32>)
    requires
        vertices@.len() * 3 <= usize::MAX,
    ensures
        r@.len() == 3 * vertices@.len(),
        forall|i: int|
            0 <= i < vertices@.len() ==> {
                &&& r@[3 * i] == (#[trigger] vertices@[i]).x
                &&& r@[3 * i + 1] == vertices@[i].y
                &&& r@[3 * i + 2] == vertices@[i].z
            },
{
    let mut r: Vec<i32> = Vec::new();
    let mut i: usize = 0;
    while i < vertices.len()
        invariant
            0 <= i <= vertices@.len(),
            vertices@.len() * 3 <= usize::MAX,
            r@.len() == 3 * i,
            forall|j: int|
                0 <= j < i ==> {
                    &&& r@[3 * j] == (#[trigger] vertices@[j]).x
                    &&& r@[3 * j + 1] == vertices@[j].y
                    &&& r@[3 * j + 2] == vertices@[j].z
                },
        decreases vertices@.len() - i,
    {
        let p = vertices[i];
        r.push(p.x);
        r.push(p.y);
        r.push(p.z);
        i = i + 1;
    }
    r
}

} // verus!
