//! The cube that the scene is populated with: its vertex and index buffers
//! on integer coordinates, and the engine mesh that is built from them.

use crate::scene::Handedness;
use rend3::types::glam::Vec3;
use rend3::types::{Mesh, MeshBuilder, MeshValidationError};
use vstd::prelude::*;

verus! {

/// The engine's mesh: vertex attribute buffers and a triangle index buffer.
#[verifier::external_type_specification]
#[verifier::external_body]
pub struct ExMesh(rend3::types::Mesh);

/// The engine's reason for refusing a mesh.
#[verifier::external_type_specification]
#[verifier::external_body]
pub struct ExMeshValidationError(rend3::types::MeshValidationError);

/// What the `vertex_positions` of a rend3 `Mesh` hold, vertex by vertex,
/// for a mesh whose coordinates are whole numbers.
pub uninterp spec fn mesh_positions(mesh: Mesh) -> Seq<Position>;

/// What the `indices` of a rend3 `Mesh` hold.
pub uninterp spec fn mesh_indices(mesh: Mesh) -> Seq<u32>;

/// A vertex position on the integer lattice.
#[derive(Clone, Copy, Debug, PartialEq, Eq, Structural)]
pub struct Position {
    pub x: i8,
    pub y: i8,
    pub z: i8,
}

/// The engine's limit on the number of vertices of one mesh.
pub const MAX_VERTEX_COUNT: usize = 16777216;

/// Number of faces of the cube.
pub const FACE_COUNT: usize = 6;

/// Number of vertices of the cube: four per face.
pub const VERTEX_COUNT: usize = 24;

/// Number of indices of the cube: two triangles per face.
pub const INDEX_COUNT: usize = 36;

/// What the engine asks of a mesh's buffers before it accepts them: no more
/// vertices than its limit, whole triangles only, and every index naming a
/// vertex.
pub open spec fn buffers_valid(vertex_count: nat, indices: Seq<u32>) -> bool {
    &&& vertex_count <= MAX_VERTEX_COUNT
    &&& indices.len() % 3 == 0
    &&& forall|i: int| 0 <= i < indices.len() ==> (#[trigger] indices[i]) < vertex_count
}

/// The corner of a quad that the `k`-th index of its two triangles names:
/// the triangles are (0, 1, 2) and (2, 3, 0).
pub open spec fn quad_corner(k: int) -> int {
    if k == 0 || k == 5 {
        0
    } else if k == 1 {
        1
    } else if k == 2 || k == 3 {
        2
    } else {
        3
    }
}

/// The cube's index buffer: face `f` owns the vertices `4f .. 4f + 4` and
/// is drawn as the two triangles of `quad_corner`.
pub open spec fn cube_indices() -> Seq<u32> {
    Seq::new(INDEX_COUNT as nat, |i: int| (4 * (i / 6) + quad_corner(i % 6)) as u32)
}

/// The position with the given coordinates.
pub open spec fn at(x: int, y: int, z: int) -> Position {
    Position { x: x as i8, y: y as i8, z: z as i8 }
}

/// The cube's position buffer, face by face: far, near, right, left, top,
/// bottom.
pub open spec fn cube_positions() -> Seq<Position> {
    seq![
        at(-1, -1, 1),
        at(1, -1, 1),
        at(1, 1, 1),
        at(-1, 1, 1),
        at(-1, 1, -1),
        at(1, 1, -1),
        at(1, -1, -1),
        at(-1, -1, -1),
        at(1, -1, -1),
        at(1, 1, -1),
        at(1, 1, 1),
        at(1, -1, 1),
        at(-1, -1, 1),
        at(-1, 1, 1),
        at(-1, 1, -1),
        at(-1, -1, -1),
        at(1, 1, -1),
        at(-1, 1, -1),
        at(-1, 1, 1),
        at(1, 1, 1),
        at(1, -1, 1),
        at(-1, -1, 1),
        at(-1, -1, -1),
        at(1, -1, -1),
    ]
}

/// The outward normal of face `f`, in the order of `cube_positions`.
pub open spec fn face_normal(f: int) -> Position {
    if f == 0 {
        at(0, 0, 1)
    } else if f == 1 {
        at(0, 0, -1)
    } else if f == 2 {
        at(1, 0, 0)
    } else if f == 3 {
        at(-1, 0, 0)
    } else if f == 4 {
        at(0, 1, 0)
    } else {
        at(0, -1, 0)
    }
}

/// The dot product of two lattice vectors.
pub open spec fn dot(a: Position, b: Position) -> int {
    a.x * b.x + a.y * b.y + a.z * b.z
}

/// The cross product of the edges `b - a` and `c - a` of a triangle: in a
/// left-handed system, the direction that the triangle (a, b, c) faces.
pub open spec fn facing(a: Position, b: Position, c: Position) -> (int, int, int) {
    (
        (b.y - a.y) * (c.z - a.z) - (b.z - a.z) * (c.y - a.y),
        (b.z - a.z) * (c.x - a.x) - (b.x - a.x) * (c.z - a.z),
        (b.x - a.x) * (c.y - a.y) - (b.y - a.y) * (c.x - a.x),
    )
}

/// A position from its three coordinates.
pub fn vertex(pos: [i8; 3]) -> (p: Position)
    ensures
        p == (Position { x: pos[0], y: pos[1], z: pos[2] }),
{
    Position { x: pos[0], y: pos[1], z: pos[2] }
}

/// Builds the engine mesh for the given buffers through rend3's
/// `MeshBuilder`: `new` with the positions and the handedness, then
/// `with_indices` and `build`. The engine accepts the buffers exactly when
/// `buffers_valid` holds of them, and the mesh it returns keeps both buffers
/// as they were given; the normals that it computes are not described.
/// `with_indices` is documented to panic on an empty index buffer, which is
/// therefore not admitted.
#[verifier::external_body]
fn build_mesh(positions: &Vec<Position>, indices: &Vec<u32>, handedness: Handedness) -> (built:
    Result<Mesh, MeshValidationError>)
    requires
        indices@.len() > 0,
    ensures
        built is Ok <==> buffers_valid(positions@.len(), indices@),
        built matches Ok(mesh) ==> mesh_positions(mesh) == positions@ && mesh_indices(mesh)
            == indices@,
{
    let points: Vec<Vec3> = positions.iter().map(
        |p| Vec3::new(p.x.into(), p.y.into(), p.z.into()),
    ).collect();
    let handedness = match handedness {
        Handedness::Left => rend3::types::Handedness::Left,
        Handedness::Right => rend3::types::Handedness::Right,
    };
    MeshBuilder::new(points, handedness).with_indices(indices.clone()).build()
}

/// The cube's 24 vertex positions.
pub fn cube_vertex_positions() -> (positions: Vec<Position>)
    ensures
        positions@ == cube_positions(),
        positions@.len() == VERTEX_COUNT,
{
    let positions = vec![
        // far side (0, 0, 1)
        vertex([-1, -1, 1]),
        vertex([1, -1, 1]),
        vertex([1, 1, 1]),
        vertex([-1, 1, 1]),
        // near side (0, 0, -1)
        vertex([-1, 1, -1]),
        vertex([1, 1, -1]),
        vertex([1, -1, -1]),
        vertex([-1, -1, -1]),
        // right side (1, 0, 0)
        vertex([1, -1, -1]),
        vertex([1, 1, -1]),
        vertex([1, 1, 1]),
        vertex([1, -1, 1]),
        // left side (-1, 0, 0)
        vertex([-1, -1, 1]),
        vertex([-1, 1, 1]),
        vertex([-1, 1, -1]),
        vertex([-1, -1, -1]),
        // top (0, 1, 0)
        vertex([1, 1, -1]),
        vertex([-1, 1, -1]),
        vertex([-1, 1, 1]),
        vertex([1, 1, 1]),
        // bottom (0, -1, 0)
        vertex([1, -1, 1]),
        vertex([-1, -1, 1]),
        vertex([-1, -1, -1]),
        vertex([1, -1, -1]),
    ];
    assert(positions@ =~= cube_positions());
    positions
}

/// The cube's 36 indices: twelve triangles, two per face.
pub fn cube_index_data() -> (indices: Vec<u32>)
    ensures
        indices@ == cube_indices(),
        indices@.len() == INDEX_COUNT,
{
    let indices: Vec<u32> = vec![
        0, 1, 2, 2, 3, 0, // far
        4, 5, 6, 6, 7, 4, // near
        8, 9, 10, 10, 11, 8, // right
        12, 13, 14, 14, 15, 12, // left
        16, 17, 18, 18, 19, 16, // top
        20, 21, 22, 22, 23, 20, // bottom
    ];
    assert(indices@ =~= cube_indices());
    indices
}

/// The cube as an engine mesh, built for a left-handed scene. The engine
/// never refuses it.
pub fn create_mesh() -> (mesh: Mesh)
    ensures
        mesh_positions(mesh) == cube_positions(),
        mesh_indices(mesh) == cube_indices(),
        mesh_positions(mesh).len() == VERTEX_COUNT,
        mesh_indices(mesh).len() == INDEX_COUNT,
{
    let positions = cube_vertex_positions();
    let indices = cube_index_data();
    proof {
        lemma_cube_buffers_valid();
    }
    build_mesh(&positions, &indices, crate::scene::handedness()).unwrap()
}

/// The cube has 24 vertices and 36 indices, and the engine's validation
/// accepts its buffers.
pub proof fn lemma_cube_buffers_valid()
    ensures
        cube_positions().len() == VERTEX_COUNT,
        cube_indices().len() == INDEX_COUNT,
        buffers_valid(cube_positions().len(), cube_indices()),
{
    assert forall|i: int| 0 <= i < cube_indices().len() implies (#[trigger] cube_indices()[i])
        < cube_positions().len() by {
        assert(0 <= i / 6 < 6);
        assert(0 <= quad_corner(i % 6) <= 3);
    }
}

/// Every vertex of the cube is one of its eight corners.
pub proof fn lemma_cube_corners(i: int)
    requires
        0 <= i < VERTEX_COUNT,
    ensures
        cube_positions()[i].x == 1 || cube_positions()[i].x == -1,
        cube_positions()[i].y == 1 || cube_positions()[i].y == -1,
        cube_positions()[i].z == 1 || cube_positions()[i].z == -1,
{
}

/// The four vertices of face `f` lie in the plane that its normal names.
pub proof fn lemma_face_plane(f: int, k: int)
    requires
        0 <= f < FACE_COUNT,
        0 <= k < 4,
    ensures
        dot(cube_positions()[4 * f + k], face_normal(f)) == 1,
{
    let p = cube_positions()[4 * f + k];
    let n = face_normal(f);
    lemma_cube_corners(4 * f + k);
    assert(dot(p, n) == 1) by (nonlinear_arith)
        requires
            dot(p, n) == p.x * n.x + p.y * n.y + p.z * n.z,
            (n.x == 0 && n.y == 0 && n.z == p.z && (p.z == 1 || p.z == -1)) || (n.x == 0 && n.z
                == 0 && n.y == p.y && (p.y == 1 || p.y == -1)) || (n.y == 0 && n.z == 0 && n.x
                == p.x && (p.x == 1 || p.x == -1)),
    ;
}

/// Triangle `t` of the index buffer belongs to face `t / 2`, names three
/// of that face's vertices, and faces the way of the face's normal.
pub proof fn lemma_triangle_facing(t: int)
    requires
        0 <= t < 2 * FACE_COUNT,
    ensures
        ({
            let f = t / 2;
            let a = cube_indices()[3 * t];
            let b = cube_indices()[3 * t + 1];
            let c = cube_indices()[3 * t + 2];
            let n = face_normal(f);
            &&& 4 * f <= a < 4 * f + 4
            &&& 4 * f <= b < 4 * f + 4
            &&& 4 * f <= c < 4 * f + 4
            &&& facing(cube_positions()[a as int], cube_positions()[b as int], cube_positions()[c as int])
                == (4 * n.x, 4 * n.y, 4 * n.z)
        }),
{
    lemma_cube_buffers_valid();
    let f = t / 2;
    let a = cube_indices()[3 * t];
    let b = cube_indices()[3 * t + 1];
    let c = cube_indices()[3 * t + 2];
    assert(4 * f <= a < 4 * f + 4 && 4 * f <= b < 4 * f + 4 && 4 * f <= c < 4 * f + 4);
    let pa = cube_positions()[a as int];
    let pb = cube_positions()[b as int];
    let pc = cube_positions()[c as int];
    let n = face_normal(f);
    lemma_products(pb.y - pa.y, pc.z - pa.z);
    lemma_products(pb.z - pa.z, pc.y - pa.y);
    lemma_products(pb.z - pa.z, pc.x - pa.x);
    lemma_products(pb.x - pa.x, pc.z - pa.z);
    lemma_products(pb.x - pa.x, pc.y - pa.y);
    lemma_products(pb.y - pa.y, pc.x - pa.x);
}

/// The products of edge components that occur in the cube: its edges have
/// length two and run along the axes.
proof fn lemma_products(x: int, y: int)
    ensures
        x == 0 || y == 0 ==> x * y == 0,
        x == 2 && y == 2 ==> x * y == 4,
        x == -2 && y == -2 ==> x * y == 4,
        x == 2 && y == -2 ==> x * y == -4,
        x == -2 && y == 2 ==> x * y == -4,
{
    assert(x == 0 || y == 0 ==> x * y == 0) by (nonlinear_arith);
    assert(x == 2 && y == 2 ==> x * y == 4) by (nonlinear_arith);
    assert(x == -2 && y == -2 ==> x * y == 4) by (nonlinear_arith);
    assert(x == 2 && y == -2 ==> x * y == -4) by (nonlinear_arith);
    assert(x == -2 && y == 2 ==> x * y == -4) by (nonlinear_arith);
}

} // verus!
