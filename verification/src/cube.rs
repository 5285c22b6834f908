//! The per-face data of a unit cube and the assembly of a cube mesh.

use crate::geometry::{face_of_vertex, Direction, Mesh, Vertex, VOXEL_VERTICES};
use crate::uniform::{MINUS_ONE, ONE, ZERO};
use vstd::prelude::*;

verus! {

/// Light parameters as they lie in the light's uniform buffer; all but
/// the last are bit patterns of single-precision numbers.
#[derive(Clone, Copy, Debug, PartialEq, Eq)]
pub struct Light {
    pub specular_color: [u32; 4],
    pub ambient_intensity: u32,
    pub diffuse_intensity: u32,
    pub specular_intensity: u32,
    pub specular_shininess: u32,
    pub is_two_side: i32,
}

/// The light with the given parameters; the specular colour is made
/// opaque.
pub fn light(
    sc: [u32; 3],
    ambient: u32,
    diffuse: u32,
    specular: u32,
    shininess: u32,
    two_side: i32,
) -> (l: Light)
    ensures
        l.specular_color@ == seq![sc@[0], sc@[1], sc@[2], ONE],
        l.ambient_intensity == ambient,
        l.diffuse_intensity == diffuse,
        l.specular_intensity == specular,
        l.specular_shininess == shininess,
        l.is_two_side == two_side,
{
    let l = Light {
        specular_color: [sc[0], sc[1], sc[2], ONE],
        ambient_intensity: ambient,
        diffuse_intensity: diffuse,
        specular_intensity: specular,
        specular_shininess: shininess,
        is_two_side: two_side,
    };
    assert(l.specular_color@ =~= seq![sc@[0], sc@[1], sc@[2], ONE]);
    l
}

/// The bit pattern of -1, 0 or 1, by the sign of `c`.
pub open spec fn unit_bits(c: int) -> u32 {
    if c > 0 {
        ONE
    } else if c < 0 {
        MINUS_ONE
    } else {
        ZERO
    }
}

/// The bit patterns of a triple of signs.
pub open spec fn triple_bits(c: (int, int, int)) -> Seq<u32> {
    seq![unit_bits(c.0), unit_bits(c.1), unit_bits(c.2)]
}

/// A triple of signs as small integers.
pub open spec fn triple_signs(c: (int, int, int)) -> Seq<i8> {
    seq![c.0 as i8, c.1 as i8, c.2 as i8]
}

/// The outward normal of the face in direction `d`: the step to the
/// neighbour on that side.
pub open spec fn face_normal(d: Direction) -> Seq<u32> {
    triple_bits(d.offset())
}

/// The colour of the face in direction `d`: front blue, right red, back
/// yellow, left aqua, top green, bottom fuchsia.
pub open spec fn face_color(d: Direction) -> Seq<u32> {
    match d {
        Direction::Z => seq![ZERO, ZERO, ONE],
        Direction::X => seq![ONE, ZERO, ZERO],
        Direction::NegZ => seq![ONE, ONE, ZERO],
        Direction::NegX => seq![ZERO, ONE, ONE],
        Direction::Y => seq![ZERO, ONE, ZERO],
        Direction::NegY => seq![ONE, ZERO, ONE],
    }
}

/// The texture coordinate of corner `k` of a face, `0 <= k < 6`: the two
/// triangles of a face cover the whole texture.
pub open spec fn corner_texture(k: int) -> Seq<u32> {
    if k == 0 {
        seq![ZERO, ONE]
    } else if k == 1 {
        seq![ONE, ONE]
    } else if k == 2 {
        seq![ZERO, ZERO]
    } else if k == 3 {
        seq![ONE, ZERO]
    } else if k == 4 {
        seq![ZERO, ZERO]
    } else {
        seq![ONE, ONE]
    }
}

/// The direction whose face is stored as number `face` in a cube mesh.
pub fn stored_face(face: usize) -> (d: Direction)
    requires
        face < 6,
    ensures
        d.face_start() == 6 * face,
        forall|i: int| 6 * face <= i < 6 * face + 6 ==> #[trigger] face_of_vertex(i) == d,
{
    if face == 0 {
        Direction::Z
    } else if face == 1 {
        Direction::X
    } else if face == 2 {
        Direction::NegZ
    } else if face == 3 {
        Direction::NegX
    } else if face == 4 {
        Direction::Y
    } else {
        Direction::NegY
    }
}

/// The outward normal of a face.
pub fn normal_of(d: Direction) -> (n: [u32; 3])
    ensures
        n@ == face_normal(d),
{
    let n: [u32; 3] = match d {
        Direction::Z => [ZERO, ZERO, ONE],
        Direction::X => [ONE, ZERO, ZERO],
        Direction::NegZ => [ZERO, ZERO, MINUS_ONE],
        Direction::NegX => [MINUS_ONE, ZERO, ZERO],
        Direction::Y => [ZERO, ONE, ZERO],
        Direction::NegY => [ZERO, MINUS_ONE, ZERO],
    };
    assert(n@ =~= face_normal(d));
    n
}

/// The colour of a face.
pub fn color_of(d: Direction) -> (c: [u32; 3])
    ensures
        c@ == face_color(d),
{
    let c: [u32; 3] = match d {
        Direction::Z => [ZERO, ZERO, ONE],
        Direction::X => [ONE, ZERO, ZERO],
        Direction::NegZ => [ONE, ONE, ZERO],
        Direction::NegX => [ZERO, ONE, ONE],
        Direction::Y => [ZERO, ONE, ZERO],
        Direction::NegY => [ONE, ZERO, ONE],
    };
    assert(c@ =~= face_color(d));
    c
}

/// The texture coordinate of corner `k` of a face.
pub fn texture_of(k: usize) -> (t: [u32; 2])
    requires
        k < 6,
    ensures
        t@ == corner_texture(k as int),
{
    let t: [u32; 2] = if k == 0 {
        [ZERO, ONE]
    } else if k == 1 {
        [ONE, ONE]
    } else if k == 2 {
        [ZERO, ZERO]
    } else if k == 3 {
        [ONE, ZERO]
    } else if k == 4 {
        [ZERO, ZERO]
    } else {
        [ONE, ONE]
    };
    assert(t@ =~= corner_texture(k as int));
    t
}

/// The normals of the thirty-six vertices of a cube: each vertex has the
/// outward normal of the face it belongs to.
pub fn cube_normals() -> (normals: Vec<[u32; 3]>)
    ensures
        normals@.len() == VOXEL_VERTICES,
        forall|i: int| 0 <= i < 36 ==> (#[trigger] normals@[i])@ == face_normal(face_of_vertex(i)),
{
    let mut normals: Vec<[u32; 3]> = Vec::new();
    let mut i: usize = 0;
    while i < VOXEL_VERTICES
        invariant
            i <= VOXEL_VERTICES,
            normals@.len() == i,
            forall|j: int|
                0 <= j < i ==> (#[trigger] normals@[j])@ == face_normal(face_of_vertex(j)),
        decreases VOXEL_VERTICES - i,
    {
        let d = stored_face(i / 6);
        assert(face_of_vertex(i as int) == d);
        normals.push(normal_of(d));
        i += 1;
    }
    normals
}

/// The colours of the thirty-six vertices of a cube: each vertex has the
/// colour of the face it belongs to.
pub fn cube_colors() -> (colors: Vec<[u32; 3]>)
    ensures
        colors@.len() == VOXEL_VERTICES,
        forall|i: int| 0 <= i < 36 ==> (#[trigger] colors@[i])@ == face_color(face_of_vertex(i)),
{
    let mut colors: Vec<[u32; 3]> = Vec::new();
    let mut i: usize = 0;
    while i < VOXEL_VERTICES
        invariant
            i <= VOXEL_VERTICES,
            colors@.len() == i,
            forall|j: int| 0 <= j < i ==> (#[trigger] colors@[j])@ == face_color(face_of_vertex(j)),
        decreases VOXEL_VERTICES - i,
    {
        let d = stored_face(i / 6);
        assert(face_of_vertex(i as int) == d);
        colors.push(color_of(d));
        i += 1;
    }
    colors
}

/// The texture coordinates of the thirty-six vertices of a cube: every
/// face carries the whole texture.
pub fn generate_cube_texture_coordinates() -> (coordinates: Vec<[u32; 2]>)
    ensures
        coordinates@.len() == VOXEL_VERTICES,
        forall|i: int| 0 <= i < 36 ==> (#[trigger] coordinates@[i])@ == corner_texture(i % 6),
{
    let mut coordinates: Vec<[u32; 2]> = Vec::new();
    let mut i: usize = 0;
    while i < VOXEL_VERTICES
        invariant
            i <= VOXEL_VERTICES,
            coordinates@.len() == i,
            forall|j: int| 0 <= j < i ==> (#[trigger] coordinates@[j])@ == corner_texture(j % 6),
        decreases VOXEL_VERTICES - i,
    {
        coordinates.push(texture_of(i % 6));
        i += 1;
    }
    coordinates
}

/// The first axis across the face in direction `d`.
pub open spec fn face_u(d: Direction) -> (int, int, int) {
    match d {
        Direction::Z => (1, 0, 0),
        Direction::X => (0, 0, -1),
        Direction::NegZ => (-1, 0, 0),
        Direction::NegX => (0, 0, 1),
        Direction::Y => (1, 0, 0),
        Direction::NegY => (1, 0, 0),
    }
}

/// The second axis across the face in direction `d`.
pub open spec fn face_v(d: Direction) -> (int, int, int) {
    match d {
        Direction::Z => (0, 1, 0),
        Direction::X => (0, 1, 0),
        Direction::NegZ => (0, 1, 0),
        Direction::NegX => (0, 1, 0),
        Direction::Y => (0, 0, -1),
        Direction::NegY => (0, 0, 1),
    }
}

/// The corner of the cube of side two about the origin that lies on the
/// face in direction `d`, at `su` along the face's first axis and `sv`
/// along its second.
pub open spec fn corner(d: Direction, su: int, sv: int) -> (int, int, int) {
    (
        d.offset().0 + su * face_u(d).0 + sv * face_v(d).0,
        d.offset().1 + su * face_u(d).1 + sv * face_v(d).1,
        d.offset().2 + su * face_u(d).2 + sv * face_v(d).2,
    )
}

/// Where vertex `k` of a face lies across it, `0 <= k < 6`, in a face
/// made of the triangles (0, 1, 2) and (3, 4, 5) with corners 2 and 3 and
/// corners 1 and 4 the same.
pub open spec fn shared_corner(k: int) -> (int, int) {
    if k == 0 {
        (-1, -1)
    } else if k == 1 || k == 4 {
        (1, -1)
    } else if k == 2 || k == 3 {
        (-1, 1)
    } else {
        (1, 1)
    }
}

/// Where vertex `k` of a face lies across it, `0 <= k < 6`, in a face
/// made of the triangles (0, 1, 2) and (3, 4, 5) with corners 2 and 4 and
/// corners 1 and 5 the same.
pub open spec fn strip_corner(k: int) -> (int, int) {
    if k == 0 {
        (-1, -1)
    } else if k == 1 || k == 5 {
        (1, -1)
    } else if k == 2 || k == 4 {
        (-1, 1)
    } else {
        (1, 1)
    }
}

/// Vertex `i` of a cube whose faces share corners by `shared_corner`.
pub open spec fn shared_vertex(i: int) -> (int, int, int) {
    corner(face_of_vertex(i), shared_corner(i % 6).0, shared_corner(i % 6).1)
}

/// Vertex `i` of a cube whose faces share corners by `strip_corner`.
pub open spec fn strip_vertex(i: int) -> (int, int, int) {
    corner(face_of_vertex(i), strip_corner(i % 6).0, strip_corner(i % 6).1)
}

/// The two axes across a face and its outward normal are a right-handed
/// frame, so a triangle that runs from (-1, -1) over (1, -1) to (-1, 1)
/// is seen counter-clockwise from outside.
pub proof fn lemma_face_frame(d: Direction)
    ensures
        face_u(d).1 * face_v(d).2 - face_u(d).2 * face_v(d).1 == d.offset().0,
        face_u(d).2 * face_v(d).0 - face_u(d).0 * face_v(d).2 == d.offset().1,
        face_u(d).0 * face_v(d).1 - face_u(d).1 * face_v(d).0 == d.offset().2,
{
}

/// Every corner is a corner of the cube: each coordinate is one or minus
/// one, and along the face's normal it is the normal's.
pub proof fn lemma_corner_on_face(d: Direction, su: int, sv: int)
    requires
        su == 1 || su == -1,
        sv == 1 || sv == -1,
    ensures
        corner(d, su, sv).0 == 1 || corner(d, su, sv).0 == -1,
        corner(d, su, sv).1 == 1 || corner(d, su, sv).1 == -1,
        corner(d, su, sv).2 == 1 || corner(d, su, sv).2 == -1,
        corner(d, su, sv).0 * d.offset().0 + corner(d, su, sv).1 * d.offset().1 + corner(
            d,
            su,
            sv,
        ).2 * d.offset().2 == 1,
{
}

/// The texture coordinate of a vertex follows its place across the face:
/// the first grows with the first axis, the second falls with the second.
pub proof fn lemma_texture_follows_corner(k: int)
    requires
        0 <= k < 6,
    ensures
        corner_texture(k) == seq![
            unit_bits((strip_corner(k).0 + 1) / 2),
            unit_bits(1 - (strip_corner(k).1 + 1) / 2),
        ],
{
    assert(corner_texture(k) =~= seq![
        unit_bits((strip_corner(k).0 + 1) / 2),
        unit_bits(1 - (strip_corner(k).1 + 1) / 2),
    ]);
}

/// The corner at `su`, `sv` of the face in direction `d`, as signs.
pub fn corner_signs(d: Direction, su: i8, sv: i8) -> (c: [i8; 3])
    requires
        su == 1 || su == -1,
        sv == 1 || sv == -1,
    ensures
        c@ == triple_signs(corner(d, su as int, sv as int)),
{
    let c: [i8; 3] = match d {
        Direction::Z => [su, sv, 1],
        Direction::X => [1, sv, -su],
        Direction::NegZ => [-su, sv, -1],
        Direction::NegX => [-1, sv, su],
        Direction::Y => [su, 1, -sv],
        Direction::NegY => [su, -1, sv],
    };
    assert(c@ =~= triple_signs(corner(d, su as int, sv as int)));
    c
}

/// The bit pattern of a sign.
pub fn sign_bits(sign: i8) -> (bits: u32)
    ensures
        bits == unit_bits(sign as int),
{
    if sign > 0 {
        ONE
    } else if sign < 0 {
        MINUS_ONE
    } else {
        ZERO
    }
}

/// The positions of the thirty-six vertices of the cube of side two about
/// the origin, face after face in the order of the face table, each face
/// as two triangles that share their second and third corner.
pub fn cube_positions() -> (positions: Vec<[u32; 3]>)
    ensures
        positions@.len() == VOXEL_VERTICES,
        forall|i: int| 0 <= i < 36 ==> (#[trigger] positions@[i])@ == triple_bits(shared_vertex(i)),
{
    let mut positions: Vec<[u32; 3]> = Vec::new();
    let mut i: usize = 0;
    while i < VOXEL_VERTICES
        invariant
            i <= VOXEL_VERTICES,
            positions@.len() == i,
            forall|j: int|
                0 <= j < i ==> (#[trigger] positions@[j])@ == triple_bits(shared_vertex(j)),
        decreases VOXEL_VERTICES - i,
    {
        let d = stored_face(i / 6);
        assert(face_of_vertex(i as int) == d);
        let k: usize = i % 6;
        let su: i8 = if k == 1 || k == 4 || k == 5 {
            1
        } else {
            -1
        };
        let sv: i8 = if k == 2 || k == 3 || k == 5 {
            1
        } else {
            -1
        };
        let c = corner_signs(d, su, sv);
        let p: [u32; 3] = [sign_bits(c[0]), sign_bits(c[1]), sign_bits(c[2])];
        proof {
            lemma_corner_on_face(d, su as int, sv as int);
            assert(p@ =~= triple_bits(corner(d, su as int, sv as int)));
        }
        positions.push(p);
        i += 1;
    }
    positions
}

/// The corners of a cube about its centre, in halves of its side: for
/// each of the thirty-six vertices the three signs by which half the side
/// is added to the centre. Face after face in the order of the face
/// table, each face as two triangles that share the edge from the third
/// corner to the second.
pub fn generate_cube_vertices() -> (signs: Vec<[i8; 3]>)
    ensures
        signs@.len() == VOXEL_VERTICES,
        forall|i: int| 0 <= i < 36 ==> (#[trigger] signs@[i])@ == triple_signs(strip_vertex(i)),
{
    let mut signs: Vec<[i8; 3]> = Vec::new();
    let mut i: usize = 0;
    while i < VOXEL_VERTICES
        invariant
            i <= VOXEL_VERTICES,
            signs@.len() == i,
            forall|j: int| 0 <= j < i ==> (#[trigger] signs@[j])@ == triple_signs(strip_vertex(j)),
        decreases VOXEL_VERTICES - i,
    {
        let d = stored_face(i / 6);
        assert(face_of_vertex(i as int) == d);
        let k: usize = i % 6;
        let su: i8 = if k == 1 || k == 3 || k == 5 {
            1
        } else {
            -1
        };
        let sv: i8 = if k == 2 || k == 3 || k == 4 {
            1
        } else {
            -1
        };
        signs.push(corner_signs(d, su, sv));
        i += 1;
    }
    signs
}

/// `v` is vertex `i` of a cube whose corner lies at `p`: the position
/// made homogeneous, and the normal, colour and texture coordinate of
/// its place in the face table.
pub open spec fn is_cube_vertex(v: Vertex, p: Seq<u32>, i: int) -> bool {
    &&& v.position@ == seq![p[0], p[1], p[2], ONE]
    &&& v.normal@ == face_normal(face_of_vertex(i)).push(ONE)
    &&& v.color@ == face_color(face_of_vertex(i)).push(ONE)
    &&& v.tex_coords@ == corner_texture(i % 6)
}

/// The cube mesh with the given corner positions, one for each vertex in
/// the order of the face table. Positions beyond the thirty-sixth are not
/// used; with fewer, the mesh ends where they end.
pub fn create_cube(positions: &Vec<[u32; 3]>) -> (cube: Mesh)
    ensures
        cube.vertices@.len() == if positions@.len() < 36 {
            positions@.len()
        } else {
            36
        },
        forall|i: int|
            0 <= i < cube.vertices@.len() ==> is_cube_vertex(
                #[trigger] cube.vertices@[i],
                positions@[i]@,
                i,
            ),
        cube.indices@ == Seq::new(cube.vertices@.len(), |i: int| i as u32),
        positions@.len() >= 36 ==> cube.is_voxel(),
{
    let colors = cube_colors();
    let normals = cube_normals();
    let texture_coordinates = generate_cube_texture_coordinates();
    let mut vertices: Vec<Vertex> = Vec::new();
    let mut indices: Vec<u32> = Vec::new();
    let mut i: usize = 0;
    while i < VOXEL_VERTICES && i < positions.len()
        invariant
            i <= VOXEL_VERTICES,
            i <= positions@.len(),
            vertices@.len() == i,
            colors@.len() == VOXEL_VERTICES,
            normals@.len() == VOXEL_VERTICES,
            texture_coordinates@.len() == VOXEL_VERTICES,
            forall|j: int|
                0 <= j < 36 ==> (#[trigger] normals@[j])@ == face_normal(face_of_vertex(j)),
            forall|j: int|
                0 <= j < 36 ==> (#[trigger] colors@[j])@ == face_color(face_of_vertex(j)),
            forall|j: int|
                0 <= j < 36 ==> (#[trigger] texture_coordinates@[j])@ == corner_texture(j % 6),
            forall|j: int|
                0 <= j < i ==> is_cube_vertex(#[trigger] vertices@[j], positions@[j]@, j),
            indices@ == Seq::new(i as nat, |j: int| j as u32),
        decreases VOXEL_VERTICES - i,
    {
        let p = positions[i];
        let n = normals[i];
        let c = colors[i];
        let vertex = Vertex {
            position: [p[0], p[1], p[2], ONE],
            normal: [n[0], n[1], n[2], ONE],
            color: [c[0], c[1], c[2], ONE],
            tex_coords: texture_coordinates[i],
        };
        proof {
            assert(normals@[i as int]@ == face_normal(face_of_vertex(i as int)));
            assert(colors@[i as int]@ == face_color(face_of_vertex(i as int)));
            assert(vertex.position@ =~= seq![p@[0], p@[1], p@[2], ONE]);
            assert(vertex.normal@ =~= face_normal(face_of_vertex(i as int)).push(ONE));
            assert(vertex.color@ =~= face_color(face_of_vertex(i as int)).push(ONE));
        }
        vertices.push(vertex);
        indices.push(i as u32);
        i += 1;
        assert(indices@ =~= Seq::new(i as nat, |j: int| j as u32));
    }
    Mesh { vertices, indices }
}

} // verus!
