//! Vertices, cube meshes and the table that ties a direction to the six
//! vertices of its face.

use vstd::prelude::*;

verus! {

/// Number of vertices of one face: two triangles, no shared vertices.
pub const FACE_VERTICES: usize = 6;

/// Number of vertices of one cube: six faces.
pub const VOXEL_VERTICES: usize = 36;

/// One vertex as it lies in a vertex buffer. Every component is the bit
/// pattern of a single-precision number, so two vertices are equal exactly
/// when their bytes are.
#[derive(Clone, Copy, Debug, PartialEq, Eq)]
pub struct Vertex {
    pub position: [u32; 4],
    pub normal: [u32; 4],
    pub color: [u32; 4],
    pub tex_coords: [u32; 2],
}

/// A list of vertices with its index list.
#[derive(Clone, Debug)]
pub struct Mesh {
    pub vertices: Vec<Vertex>,
    pub indices: Vec<u32>,
}

/// The six axis-aligned directions in which a cube has a face.
#[derive(Clone, Copy, Debug, PartialEq, Eq, Structural)]
pub enum Direction {
    X,
    Y,
    Z,
    NegX,
    NegY,
    NegZ,
}

impl Direction {
    /// The step from a cell to its neighbour in this direction.
    pub open spec fn offset(self) -> (int, int, int) {
        match self {
            Direction::X => (1, 0, 0),
            Direction::Y => (0, 1, 0),
            Direction::Z => (0, 0, 1),
            Direction::NegX => (-1, 0, 0),
            Direction::NegY => (0, -1, 0),
            Direction::NegZ => (0, 0, -1),
        }
    }

    /// Index of the first vertex of this direction's face in a cube mesh:
    /// front (+Z), right (+X), back (-Z), left (-X), top (+Y), bottom (-Y),
    /// six vertices each.
    pub open spec fn face_start(self) -> int {
        match self {
            Direction::Z => 0,
            Direction::X => 6,
            Direction::NegZ => 12,
            Direction::NegX => 18,
            Direction::Y => 24,
            Direction::NegY => 30,
        }
    }

    /// The face table in executable form.
    pub fn face_offset(self) -> (start: usize)
        ensures
            start == self.face_start(),
            start % FACE_VERTICES == 0,
            start + FACE_VERTICES <= VOXEL_VERTICES,
    {
        match self {
            Direction::Z => 0,
            Direction::X => 6,
            Direction::NegZ => 12,
            Direction::NegX => 18,
            Direction::Y => 24,
            Direction::NegY => 30,
        }
    }
}

/// The directions in the order in which faces are reported and emitted.
pub open spec fn all_directions() -> Seq<Direction> {
    seq![
        Direction::X,
        Direction::Y,
        Direction::Z,
        Direction::NegX,
        Direction::NegY,
        Direction::NegZ,
    ]
}

impl Mesh {
    /// A cube mesh: thirty-six vertices and the index list 0, 1, .., 35.
    pub open spec fn is_voxel(self) -> bool {
        &&& self.vertices@.len() == VOXEL_VERTICES
        &&& self.indices@ == Seq::new(VOXEL_VERTICES as nat, |i: int| i as u32)
    }
}

/// The direction whose face holds vertex `i` of a cube mesh.
pub open spec fn face_of_vertex(i: int) -> Direction {
    if i < 6 {
        Direction::Z
    } else if i < 12 {
        Direction::X
    } else if i < 18 {
        Direction::NegZ
    } else if i < 24 {
        Direction::NegX
    } else if i < 30 {
        Direction::Y
    } else {
        Direction::NegY
    }
}

/// The face table splits a cube mesh into six parts: each vertex lies in
/// the range of exactly one direction.
pub proof fn lemma_face_table_partitions(d: Direction, i: int)
    requires
        0 <= i < VOXEL_VERTICES,
    ensures
        d.face_start() <= i < d.face_start() + FACE_VERTICES <==> d == face_of_vertex(i),
{
}

} // verus!
