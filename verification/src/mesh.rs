//! The mesh builder: the static cube geometry, 24 vertices and 36 indices.
//!
//! Every coordinate of the cube is a small integer (corners at `±1`, texture
//! coordinates `0` or `1`), so the geometry is carried exactly as integers;
//! the unverified shell widens them to `f32` (with homogeneous `w = 1`) when
//! it fills the GPU vertex buffer.

use vstd::prelude::*;

verus! {

/// One cube vertex: an integer corner position (the homogeneous `w = 1` is
/// implied) and an integer texture coordinate.
#[derive(Clone, Copy, Debug)]
pub struct Vertex {
    pub pos: [i8; 3],
    pub tex_coord: [i8; 2],
}

impl Vertex {
    /// Builds a vertex from a corner position and a texture coordinate.
    pub fn new(p: [i8; 3], t: [i8; 2]) -> (v: Vertex)
        ensures
            v.pos[0] == p[0] && v.pos[1] == p[1] && v.pos[2] == p[2],
            v.tex_coord[0] == t[0] && v.tex_coord[1] == t[1],
    {
        Vertex { pos: p, tex_coord: t }
    }
}

/// Whether a vertex holds exactly the given position and texture coordinate.
pub open spec fn vertex_matches(v: Vertex, p: (int, int, int), t: (int, int)) -> bool {
    &&& v.pos[0] == p.0
    &&& v.pos[1] == p.1
    &&& v.pos[2] == p.2
    &&& v.tex_coord[0] == t.0
    &&& v.tex_coord[1] == t.1
}

/// Whether two vertices sit at the same corner position.
pub open spec fn same_position(a: Vertex, b: Vertex) -> bool {
    a.pos[0] == b.pos[0] && a.pos[1] == b.pos[1] && a.pos[2] == b.pos[2]
}

/// The 24 corner positions, four per face, face order: top (+Z), bottom
/// (-Z), right (+X), left (-X), front (+Y), back (-Y). The face names are
/// the scene's own labels, not a standard axis convention.
pub open spec fn cube_positions() -> Seq<(int, int, int)> {
    seq![
        (-1, -1, 1), (1, -1, 1), (1, 1, 1), (-1, 1, 1),
        (-1, 1, -1), (1, 1, -1), (1, -1, -1), (-1, -1, -1),
        (1, -1, -1), (1, 1, -1), (1, 1, 1), (1, -1, 1),
        (-1, -1, 1), (-1, 1, 1), (-1, 1, -1), (-1, -1, -1),
        (1, 1, -1), (-1, 1, -1), (-1, 1, 1), (1, 1, 1),
        (1, -1, 1), (-1, -1, 1), (-1, -1, -1), (1, -1, -1),
    ]
}

/// The 24 texture coordinates, in the same order as `cube_positions`.
pub open spec fn cube_tex_coords() -> Seq<(int, int)> {
    seq![
        (0, 0), (1, 0), (1, 1), (0, 1),
        (1, 0), (0, 0), (0, 1), (1, 1),
        (0, 0), (1, 0), (1, 1), (0, 1),
        (1, 0), (0, 0), (0, 1), (1, 1),
        (1, 0), (0, 0), (0, 1), (1, 1),
        (0, 0), (1, 0), (1, 1), (0, 1),
    ]
}

/// The local index pattern of one quad: two counter-clockwise triangles.
pub open spec fn quad_pattern(j: int) -> int {
    if j == 0 {
        0
    } else if j == 1 {
        1
    } else if j == 2 {
        2
    } else if j == 3 {
        2
    } else if j == 4 {
        3
    } else {
        0
    }
}

/// The `k`-th of the 36 cube indices: the quad pattern offset by four per
/// face.
pub open spec fn cube_index(k: int) -> int {
    4 * (k / 6) + quad_pattern(k % 6)
}

/// Whether a vertex list holds exactly the cube's 24 vertices.
pub open spec fn is_cube_vertices(verts: Seq<Vertex>) -> bool {
    &&& verts.len() == 24
    &&& forall|i: int|
        0 <= i < 24 ==> vertex_matches(#[trigger] verts[i], cube_positions()[i], cube_tex_coords()[i])
}

/// Whether an index list holds exactly the cube's 36 indices.
pub open spec fn is_cube_indices(inds: Seq<u32>) -> bool {
    &&& inds.len() == 36
    &&& forall|k: int| 0 <= k < 36 ==> #[trigger] inds[k] == cube_index(k)
}

/// Builds the cube geometry: 24 vertices (a distinct quad of four vertices
/// per face, no vertex shared across faces) and 36 indices (six per face,
/// `{0,1,2,2,3,0}` offset by four per face). The output is a constant.
pub fn build_cube() -> (r: (Vec<Vertex>, Vec<u32>))
    ensures
        is_cube_vertices(r.0@),
        is_cube_indices(r.1@),
{
    let mut verts: Vec<Vertex> = Vec::new();
    // top (0, 0, 1)
    verts.push(Vertex::new([-1, -1, 1], [0, 0]));
    verts.push(Vertex::new([1, -1, 1], [1, 0]));
    verts.push(Vertex::new([1, 1, 1], [1, 1]));
    verts.push(Vertex::new([-1, 1, 1], [0, 1]));
    // bottom (0, 0, -1)
    verts.push(Vertex::new([-1, 1, -1], [1, 0]));
    verts.push(Vertex::new([1, 1, -1], [0, 0]));
    verts.push(Vertex::new([1, -1, -1], [0, 1]));
    verts.push(Vertex::new([-1, -1, -1], [1, 1]));
    // right (1, 0, 0)
    verts.push(Vertex::new([1, -1, -1], [0, 0]));
    verts.push(Vertex::new([1, 1, -1], [1, 0]));
    verts.push(Vertex::new([1, 1, 1], [1, 1]));
    verts.push(Vertex::new([1, -1, 1], [0, 1]));
    // left (-1, 0, 0)
    verts.push(Vertex::new([-1, -1, 1], [1, 0]));
    verts.push(Vertex::new([-1, 1, 1], [0, 0]));
    verts.push(Vertex::new([-1, 1, -1], [0, 1]));
    verts.push(Vertex::new([-1, -1, -1], [1, 1]));
    // front (0, 1, 0)
    verts.push(Vertex::new([1, 1, -1], [1, 0]));
    verts.push(Vertex::new([-1, 1, -1], [0, 0]));
    verts.push(Vertex::new([-1, 1, 1], [0, 1]));
    verts.push(Vertex::new([1, 1, 1], [1, 1]));
    // back (0, -1, 0)
    verts.push(Vertex::new([1, -1, 1], [0, 0]));
    verts.push(Vertex::new([-1, -1, 1], [1, 0]));
    verts.push(Vertex::new([-1, -1, -1], [1, 1]));
    verts.push(Vertex::new([1, -1, -1], [0, 1]));

    let mut inds: Vec<u32> = Vec::new();
    let mut f: u32 = 0;
    while f < 6
        invariant
            f <= 6,
            inds@.len() == 6 * f,
            forall|k: int| 0 <= k < inds@.len() ==> #[trigger] inds@[k] == cube_index(k),
        decreases 6 - f,
    {
        let base: u32 = 4 * f;
        inds.push(base);
        inds.push(base + 1);
        inds.push(base + 2);
        inds.push(base + 2);
        inds.push(base + 3);
        inds.push(base);
        f = f + 1;
    }
    (verts, inds)
}

/// The exact byte image of an index buffer: each 32-bit index as four
/// little-endian bytes, in order, no padding.
pub open spec fn index_bytes_spec(inds: Seq<u32>) -> Seq<u8> {
    Seq::new(4 * inds.len(), |i: int| crate::uniform::word_bytes(inds[i / 4])[i % 4])
}

/// Serializes an index list to the exact bytes the GPU index buffer holds.
pub fn index_bytes(inds: &Vec<u32>) -> (r: Vec<u8>)
    requires
        inds@.len() <= 0x1000_0000,
    ensures
        r@ == index_bytes_spec(inds@),
{
    let mut out: Vec<u8> = Vec::new();
    let mut k: usize = 0;
    while k < inds.len()
        invariant
            k <= inds@.len() <= 0x1000_0000,
            out@.len() == 4 * k,
            forall|i: int|
                0 <= i < out@.len() ==> out@[i] == crate::uniform::word_bytes(inds@[i / 4])[i % 4],
        decreases inds@.len() - k,
    {
        crate::uniform::push_word_le(&mut out, inds[k]);
        k = k + 1;
    }
    proof {
        assert(out@ =~= index_bytes_spec(inds@));
    }
    out
}

/// Every cube index addresses one of the 24 vertices.
pub proof fn lemma_indices_in_range()
    ensures
        forall|k: int| 0 <= k < 36 ==> 0 <= #[trigger] cube_index(k) < 24,
{
}

/// No vertex is shared across faces: the six indices of face `f` address
/// only that face's own quad of four vertices.
pub proof fn lemma_indices_stay_on_face()
    ensures
        forall|k: int|
            0 <= k < 36 ==> 4 * (k / 6) <= #[trigger] cube_index(k) < 4 * (k / 6) + 4,
{
}

/// Within each face the four vertices sit at four pairwise distinct corner
/// positions, so each face is a genuine quad. Two vertex slots belong to the
/// same face exactly when their indices agree after division by four.
pub proof fn lemma_face_corners_distinct(verts: Seq<Vertex>)
    requires
        is_cube_vertices(verts),
    ensures
        forall|i: int, j: int|
            0 <= i < 24 && 0 <= j < 24 && i / 4 == j / 4 && i != j ==> !same_position(
                #[trigger] verts[i],
                #[trigger] verts[j],
            ),
{
    assert forall|i: int, j: int|
        0 <= i < 24 && 0 <= j < 24 && i / 4 == j / 4 && i != j implies !same_position(
        verts[i],
        verts[j],
    ) by {
        assert(vertex_matches(verts[i], cube_positions()[i], cube_tex_coords()[i]));
        assert(vertex_matches(verts[j], cube_positions()[j], cube_tex_coords()[j]));
    }
}

} // verus!
