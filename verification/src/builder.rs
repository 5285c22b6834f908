//! Assembles the exposed faces of a whole grid into one vertex list.

use crate::geometry::{all_directions, Direction, Mesh, Vertex, FACE_VERTICES, VOXEL_VERTICES};
use crate::layout::vertices_words;
use crate::visibility::{
    check_visibility, exposed_directions, grid_view, is_box, lemma_box_exposure,
    lemma_lone_voxel_shows_all, occupied, GridView,
};
use vstd::prelude::*;

verus! {

/// Every voxel of the grid is a cube mesh of thirty-six vertices.
pub open spec fn grid_well_formed(g: GridView) -> bool {
    forall|x: int, y: int, z: int| #[trigger]
        occupied(g, x, y, z) ==> g[x][y][z].len() == VOXEL_VERTICES
}

/// The six vertices of the face of `voxel` in direction `d`.
pub open spec fn face_vertices(voxel: Seq<Vertex>, d: Direction) -> Seq<Vertex> {
    voxel.subrange(d.face_start(), d.face_start() + FACE_VERTICES)
}

/// The faces of `voxel` in the directions `dirs`, one after the other.
pub open spec fn faces_vertices(voxel: Seq<Vertex>, dirs: Seq<Direction>) -> Seq<Vertex>
    decreases dirs.len(),
{
    if dirs.len() == 0 {
        Seq::empty()
    } else {
        faces_vertices(voxel, dirs.drop_last()) + face_vertices(voxel, dirs.last())
    }
}

/// What the voxel at (x, y, z) contributes: its exposed faces.
pub open spec fn voxel_vertices(g: GridView, x: int, y: int, z: int) -> Seq<Vertex> {
    faces_vertices(g[x][y][z], exposed_directions(g, x, y, z))
}

/// What the first `n` voxels of the column (x, y) contribute, z ascending.
pub open spec fn column_vertices(g: GridView, x: int, y: int, n: nat) -> Seq<Vertex>
    decreases n,
{
    if n == 0 {
        Seq::empty()
    } else {
        column_vertices(g, x, y, (n - 1) as nat) + voxel_vertices(g, x, y, n - 1)
    }
}

/// What the first `n` columns of the plane `x` contribute, y ascending.
pub open spec fn plane_vertices(g: GridView, x: int, n: nat) -> Seq<Vertex>
    decreases n,
{
    if n == 0 {
        Seq::empty()
    } else {
        plane_vertices(g, x, (n - 1) as nat) + column_vertices(g, x, n - 1, g[x][n - 1].len())
    }
}

/// What the first `n` planes of the grid contribute, x ascending.
pub open spec fn grid_vertices(g: GridView, n: nat) -> Seq<Vertex>
    decreases n,
{
    if n == 0 {
        Seq::empty()
    } else {
        grid_vertices(g, (n - 1) as nat) + plane_vertices(g, n - 1, g[n - 1].len())
    }
}

/// The vertex list of the whole grid.
pub open spec fn chunk_vertices(g: GridView) -> Seq<Vertex> {
    grid_vertices(g, g.len())
}

/// Number of exposed faces among the first `n` voxels of the column (x, y).
pub open spec fn column_faces(g: GridView, x: int, y: int, n: nat) -> nat
    decreases n,
{
    if n == 0 {
        0
    } else {
        column_faces(g, x, y, (n - 1) as nat) + exposed_directions(g, x, y, n - 1).len()
    }
}

/// Number of exposed faces in the first `n` columns of the plane `x`.
pub open spec fn plane_faces(g: GridView, x: int, n: nat) -> nat
    decreases n,
{
    if n == 0 {
        0
    } else {
        plane_faces(g, x, (n - 1) as nat) + column_faces(g, x, n - 1, g[x][n - 1].len())
    }
}

/// Number of exposed faces in the first `n` planes of the grid.
pub open spec fn grid_faces(g: GridView, n: nat) -> nat
    decreases n,
{
    if n == 0 {
        0
    } else {
        grid_faces(g, (n - 1) as nat) + plane_faces(g, n - 1, g[n - 1].len())
    }
}

/// Number of exposed faces, summed over all voxels of the grid.
pub open spec fn exposed_face_count(g: GridView) -> nat {
    grid_faces(g, g.len())
}

/// The faces of a cube mesh in `dirs` take six vertices each.
pub proof fn lemma_faces_length(voxel: Seq<Vertex>, dirs: Seq<Direction>)
    requires
        voxel.len() == VOXEL_VERTICES,
    ensures
        faces_vertices(voxel, dirs).len() == 6 * dirs.len(),
    decreases dirs.len(),
{
    if dirs.len() > 0 {
        lemma_faces_length(voxel, dirs.drop_last());
    }
}

proof fn lemma_column_length(g: GridView, x: int, y: int, n: nat)
    requires
        grid_well_formed(g),
        0 <= x < g.len(),
        0 <= y < g[x].len(),
        n <= g[x][y].len(),
    ensures
        column_vertices(g, x, y, n).len() == 6 * column_faces(g, x, y, n),
    decreases n,
{
    if n > 0 {
        lemma_column_length(g, x, y, (n - 1) as nat);
        assert(occupied(g, x, y, n - 1));
        lemma_faces_length(g[x][y][n - 1], exposed_directions(g, x, y, n - 1));
    }
}

proof fn lemma_plane_length(g: GridView, x: int, n: nat)
    requires
        grid_well_formed(g),
        0 <= x < g.len(),
        n <= g[x].len(),
    ensures
        plane_vertices(g, x, n).len() == 6 * plane_faces(g, x, n),
    decreases n,
{
    if n > 0 {
        lemma_plane_length(g, x, (n - 1) as nat);
        lemma_column_length(g, x, n - 1, g[x][n - 1].len());
    }
}

proof fn lemma_grid_length(g: GridView, n: nat)
    requires
        grid_well_formed(g),
        n <= g.len(),
    ensures
        grid_vertices(g, n).len() == 6 * grid_faces(g, n),
    decreases n,
{
    if n > 0 {
        lemma_grid_length(g, (n - 1) as nat);
        lemma_plane_length(g, n - 1, g[n - 1].len());
    }
}

/// The vertex list of a grid holds six vertices for each exposed face, so
/// its length is a multiple of six.
pub proof fn lemma_chunk_length(g: GridView)
    requires
        grid_well_formed(g),
    ensures
        chunk_vertices(g).len() == 6 * exposed_face_count(g),
        chunk_vertices(g).len() % 6 == 0,
{
    lemma_grid_length(g, g.len());
}

/// Building twice from one grid gives the same list both times, vertex
/// for vertex and word for word.
pub proof fn lemma_rebuild_is_identical(g: GridView, first: Seq<Vertex>, second: Seq<Vertex>)
    requires
        first == chunk_vertices(g),
        second == chunk_vertices(g),
    ensures
        first == second,
        vertices_words(first) == vertices_words(second),
{
}

/// The faces of a cube mesh in all six directions, in the order in which
/// they are emitted: right, top, front, left, bottom, back.
pub proof fn lemma_all_faces(voxel: Seq<Vertex>)
    requires
        voxel.len() == VOXEL_VERTICES,
    ensures
        faces_vertices(voxel, all_directions()) == voxel.subrange(6, 12) + voxel.subrange(24, 30)
            + voxel.subrange(0, 6) + voxel.subrange(18, 24) + voxel.subrange(30, 36)
            + voxel.subrange(12, 18),
{
    let d5 = all_directions().drop_last();
    let d4 = d5.drop_last();
    let d3 = d4.drop_last();
    let d2 = d3.drop_last();
    let d1 = d2.drop_last();
    assert(d5 =~= seq![
        Direction::X,
        Direction::Y,
        Direction::Z,
        Direction::NegX,
        Direction::NegY,
    ]);
    assert(d4 =~= seq![Direction::X, Direction::Y, Direction::Z, Direction::NegX]);
    assert(d3 =~= seq![Direction::X, Direction::Y, Direction::Z]);
    assert(d2 =~= seq![Direction::X, Direction::Y]);
    assert(d1 =~= seq![Direction::X]);
    reveal_with_fuel(faces_vertices, 8);
    assert(faces_vertices(voxel, all_directions()) =~= voxel.subrange(6, 12) + voxel.subrange(
        24,
        30,
    ) + voxel.subrange(0, 6) + voxel.subrange(18, 24) + voxel.subrange(30, 36) + voxel.subrange(
        12,
        18,
    ));
}

/// A grid of exactly one voxel gives all six faces of that voxel: six
/// exposed faces, thirty-six vertices.
pub proof fn lemma_lone_voxel_chunk(g: GridView)
    requires
        g.len() == 1,
        g[0].len() == 1,
        g[0][0].len() == 1,
        g[0][0][0].len() == VOXEL_VERTICES,
    ensures
        exposed_face_count(g) == 6,
        chunk_vertices(g) == faces_vertices(g[0][0][0], all_directions()),
        chunk_vertices(g).len() == 36,
{
    lemma_lone_voxel_shows_all(g);
    lemma_faces_length(g[0][0][0], all_directions());
    reveal_with_fuel(column_vertices, 3);
    reveal_with_fuel(plane_vertices, 3);
    reveal_with_fuel(grid_vertices, 3);
    reveal_with_fuel(column_faces, 3);
    reveal_with_fuel(plane_faces, 3);
    reveal_with_fuel(grid_faces, 3);
    assert(chunk_vertices(g) =~= faces_vertices(g[0][0][0], all_directions()));
}

/// One if `b`, else zero.
pub open spec fn one_if(b: bool) -> nat {
    if b {
        1
    } else {
        0
    }
}

proof fn lemma_box_voxel_faces(g: GridView, nx: nat, ny: nat, nz: nat, x: int, y: int, z: int)
    requires
        is_box(g, nx, ny, nz),
        0 <= x < nx,
        0 <= y < ny,
        0 <= z < nz,
    ensures
        exposed_directions(g, x, y, z).len() == one_if(x == nx - 1) + one_if(x == 0) + one_if(
            y == ny - 1,
        ) + one_if(y == 0) + one_if(z == nz - 1) + one_if(z == 0),
{
    lemma_box_exposure(g, nx, ny, nz, x, y, z);
}

proof fn lemma_box_column_faces(g: GridView, nx: nat, ny: nat, nz: nat, x: int, y: int, n: nat)
    requires
        is_box(g, nx, ny, nz),
        0 <= x < nx,
        0 <= y < ny,
        n <= nz,
    ensures
        column_faces(g, x, y, n) == n * (one_if(x == nx - 1) + one_if(x == 0) + one_if(y == ny - 1)
            + one_if(y == 0)) + one_if(n >= 1) + one_if(n == nz && n >= 1),
    decreases n,
{
    let c = one_if(x == nx - 1) + one_if(x == 0) + one_if(y == ny - 1) + one_if(y == 0);
    if n > 0 {
        lemma_box_column_faces(g, nx, ny, nz, x, y, (n - 1) as nat);
        lemma_box_voxel_faces(g, nx, ny, nz, x, y, n - 1);
        assert((n - 1) * c + c == n * c) by (nonlinear_arith);
    } else {
        assert(0 * c == 0) by (nonlinear_arith);
    }
}

proof fn lemma_box_plane_faces(g: GridView, nx: nat, ny: nat, nz: nat, x: int, n: nat)
    requires
        is_box(g, nx, ny, nz),
        0 <= x < nx,
        n <= ny,
        nz >= 1,
    ensures
        plane_faces(g, x, n) == n * (nz * (one_if(x == nx - 1) + one_if(x == 0)) + 2) + nz * (
        one_if(n >= 1) + one_if(n == ny && n >= 1)),
    decreases n,
{
    let c = one_if(x == nx - 1) + one_if(x == 0);
    let k = nz * c + 2;
    if n > 0 {
        let y = n - 1;
        lemma_box_plane_faces(g, nx, ny, nz, x, (n - 1) as nat);
        lemma_box_column_faces(g, nx, ny, nz, x, y, nz);
        assert(g[x].len() == ny);
        assert(g[x][y].len() == nz);
        let e = one_if(y == ny - 1) + one_if(y == 0);
        assert(column_faces(g, x, y, nz) == nz * (c + e) + 2);
        assert(nz * (c + e) == nz * c + nz * e) by (nonlinear_arith);
        assert((n - 1) * k + k == n * k) by (nonlinear_arith);
        let before = one_if(n - 1 >= 1) + one_if(n - 1 == ny && n - 1 >= 1);
        let after = one_if(n >= 1) + one_if(n == ny && n >= 1);
        assert(before + e == after);
        assert(nz * before + nz * e == nz * after) by (nonlinear_arith)
            requires
                before + e == after,
        ;
    } else {
        assert(0 * k == 0) by (nonlinear_arith);
        assert(nz * 0 == 0) by (nonlinear_arith);
    }
}

proof fn lemma_box_grid_faces(g: GridView, nx: nat, ny: nat, nz: nat, n: nat)
    requires
        is_box(g, nx, ny, nz),
        n <= nx,
        ny >= 1,
        nz >= 1,
    ensures
        grid_faces(g, n) == n * (2 * ny + 2 * nz) + ny * nz * (one_if(n >= 1) + one_if(
            n == nx && n >= 1,
        )),
    decreases n,
{
    let k = 2 * ny + 2 * nz;
    if n > 0 {
        let x = n - 1;
        lemma_box_grid_faces(g, nx, ny, nz, (n - 1) as nat);
        lemma_box_plane_faces(g, nx, ny, nz, x, ny);
        assert(g[x].len() == ny);
        let e = one_if(x == nx - 1) + one_if(x == 0);
        assert(plane_faces(g, x, ny) == ny * (nz * e + 2) + nz * 2);
        assert(ny * (nz * e + 2) + nz * 2 == k + ny * nz * e) by (nonlinear_arith)
            requires
                k == 2 * ny + 2 * nz,
        ;
        assert((n - 1) * k + k == n * k) by (nonlinear_arith);
        let before = one_if(n - 1 >= 1) + one_if(n - 1 == nx && n - 1 >= 1);
        let after = one_if(n >= 1) + one_if(n == nx && n >= 1);
        assert(before + e == after);
        assert(ny * nz * before + ny * nz * e == ny * nz * after) by (nonlinear_arith)
            requires
                before + e == after,
        ;
    } else {
        assert(0 * k == 0) by (nonlinear_arith);
        assert(ny * nz * 0 == 0) by (nonlinear_arith);
    }
}

/// A full box of voxels shows its surface and nothing else: two faces
/// for each cell of each of its three cross-sections, six vertices a
/// face.
pub proof fn lemma_box_chunk(g: GridView, nx: nat, ny: nat, nz: nat)
    requires
        is_box(g, nx, ny, nz),
        grid_well_formed(g),
        nx >= 1,
        ny >= 1,
        nz >= 1,
    ensures
        exposed_face_count(g) == 2 * (nx * ny + ny * nz + nz * nx),
        chunk_vertices(g).len() == 12 * (nx * ny + ny * nz + nz * nx),
{
    lemma_box_grid_faces(g, nx, ny, nz, nx);
    lemma_chunk_length(g);
    assert(nx * (2 * ny + 2 * nz) + ny * nz * 2 == 2 * (nx * ny + ny * nz + nz * nx))
        by (nonlinear_arith);
}

/// An empty grid gives an empty vertex list.
pub proof fn lemma_empty_grid_chunk(g: GridView)
    requires
        g.len() == 0,
    ensures
        chunk_vertices(g) == Seq::<Vertex>::empty(),
        exposed_face_count(g) == 0,
{
}

/// Is every voxel of the grid a cube mesh of thirty-six vertices?
pub fn is_voxel_grid(cubes: &Vec<Vec<Vec<Mesh>>>) -> (ok: bool)
    ensures
        ok == grid_well_formed(grid_view(cubes)),
{
    let ghost g = grid_view(cubes);
    let mut x: usize = 0;
    while x < cubes.len()
        invariant
            x <= cubes@.len(),
            g == grid_view(cubes),
            forall|a: int, b: int, c: int| #[trigger]
                occupied(g, a, b, c) && a < x ==> g[a][b][c].len() == VOXEL_VERTICES,
        decreases cubes@.len() - x,
    {
        let mut y: usize = 0;
        while y < cubes[x].len()
            invariant
                x < cubes@.len(),
                y <= cubes@[x as int]@.len(),
                g == grid_view(cubes),
                forall|a: int, b: int, c: int| #[trigger]
                    occupied(g, a, b, c) && a < x ==> g[a][b][c].len() == VOXEL_VERTICES,
                forall|b: int, c: int| #[trigger]
                    occupied(g, x as int, b, c) && b < y ==> g[x as int][b][c].len()
                        == VOXEL_VERTICES,
            decreases cubes@[x as int]@.len() - y,
        {
            let mut z: usize = 0;
            while z < cubes[x][y].len()
                invariant
                    x < cubes@.len(),
                    y < cubes@[x as int]@.len(),
                    z <= cubes@[x as int]@[y as int]@.len(),
                    g == grid_view(cubes),
                    forall|c: int| #[trigger]
                        occupied(g, x as int, y as int, c) && c < z ==> g[x as int][y
                            as int][c].len() == VOXEL_VERTICES,
                decreases cubes@[x as int]@[y as int]@.len() - z,
            {
                if cubes[x][y][z].vertices.len() != VOXEL_VERTICES {
                    assert(occupied(g, x as int, y as int, z as int));
                    return false;
                }
                z += 1;
            }
            y += 1;
        }
        x += 1;
    }
    true
}

/// The index list of a vertex list that shares no vertex: 0, 1, ..,
/// `count - 1`.
pub fn trivial_indices(count: u32) -> (indices: Vec<u32>)
    ensures
        indices@ == Seq::new(count as nat, |i: int| i as u32),
{
    let mut indices: Vec<u32> = Vec::new();
    let mut i: u32 = 0;
    while i < count
        invariant
            i <= count,
            indices@ == Seq::new(i as nat, |k: int| k as u32),
        decreases count - i,
    {
        indices.push(i);
        i += 1;
        assert(indices@ =~= Seq::new(i as nat, |k: int| k as u32));
    }
    indices
}

/// The grid as one mesh: the vertex list of its exposed faces with the
/// index list 0, 1, .., one index for each vertex. There is none where the
/// vertices outnumber what an index can count.
pub fn chunk_mesh(cubes: &Vec<Vec<Vec<Mesh>>>) -> (mesh: Option<Mesh>)
    requires
        grid_well_formed(grid_view(cubes)),
    ensures
        mesh.is_some() == (chunk_vertices(grid_view(cubes)).len() <= u32::MAX),
        mesh matches Some(m) ==> {
            &&& m.vertices@ == chunk_vertices(grid_view(cubes))
            &&& m.indices@ == Seq::new(m.vertices@.len(), |i: int| i as u32)
        },
{
    let vertices = get_visible_cubes(cubes);
    if vertices.len() > u32::MAX as usize {
        None
    } else {
        let indices = trivial_indices(vertices.len() as u32);
        Some(Mesh { vertices, indices })
    }
}

/// Appends to `out` the faces of `mesh` in the given directions, in their
/// order.
pub fn append_faces(out: &mut Vec<Vertex>, mesh: &Mesh, directions: &Vec<Direction>)
    requires
        mesh.vertices@.len() == VOXEL_VERTICES,
    ensures
        final(out)@ == old(out)@ + faces_vertices(mesh.vertices@, directions@),
{
    let ghost before = out@;
    let mut i: usize = 0;
    while i < directions.len()
        invariant
            i <= directions@.len(),
            mesh.vertices@.len() == VOXEL_VERTICES,
            out@ == before + faces_vertices(mesh.vertices@, directions@.take(i as int)),
        decreases directions@.len() - i,
    {
        let start: usize = directions[i].face_offset();
        let ghost done = out@;
        let mut k: usize = 0;
        while k < FACE_VERTICES
            invariant
                k <= FACE_VERTICES,
                start + FACE_VERTICES <= VOXEL_VERTICES,
                mesh.vertices@.len() == VOXEL_VERTICES,
                out@ == done + mesh.vertices@.subrange(start as int, start + k),
            decreases FACE_VERTICES - k,
        {
            out.push(mesh.vertices[start + k]);
            k += 1;
            assert(out@ =~= done + mesh.vertices@.subrange(start as int, start + k));
        }
        proof {
            let next = directions@.take(i + 1);
            assert(next.drop_last() =~= directions@.take(i as int));
            assert(next.last() == directions@[i as int]);
            assert(out@ =~= before + faces_vertices(mesh.vertices@, next));
        }
        i += 1;
    }
    assert(directions@.take(i as int) =~= directions@);
}

/// The vertex list of the grid: for x, then y, then z ascending, the
/// exposed faces of each voxel in the order +X, +Y, +Z, -X, -Y, -Z, six
/// vertices a face, taken from the voxel's own mesh. An empty grid gives an
/// empty list.
pub fn get_visible_cubes(cubes: &Vec<Vec<Vec<Mesh>>>) -> (visible: Vec<Vertex>)
    requires
        grid_well_formed(grid_view(cubes)),
    ensures
        visible@ == chunk_vertices(grid_view(cubes)),
        visible@.len() == 6 * exposed_face_count(grid_view(cubes)),
        visible@.len() % 6 == 0,
{
    let ghost g = grid_view(cubes);
    let mut visible: Vec<Vertex> = Vec::new();
    let mut x: usize = 0;
    while x < cubes.len()
        invariant
            x <= cubes@.len(),
            g == grid_view(cubes),
            grid_well_formed(g),
            visible@ == grid_vertices(g, x as nat),
        decreases cubes@.len() - x,
    {
        let ghost planes = visible@;
        let mut y: usize = 0;
        while y < cubes[x].len()
            invariant
                x < cubes@.len(),
                y <= cubes@[x as int]@.len(),
                g == grid_view(cubes),
                grid_well_formed(g),
                visible@ == planes + plane_vertices(g, x as int, y as nat),
            decreases cubes@[x as int]@.len() - y,
        {
            let ghost columns = visible@;
            let mut z: usize = 0;
            while z < cubes[x][y].len()
                invariant
                    x < cubes@.len(),
                    y < cubes@[x as int]@.len(),
                    z <= cubes@[x as int]@[y as int]@.len(),
                    g == grid_view(cubes),
                    grid_well_formed(g),
                    visible@ == columns + column_vertices(g, x as int, y as int, z as nat),
                decreases cubes@[x as int]@[y as int]@.len() - z,
            {
                let directions = check_visibility(x, y, z, cubes);
                proof {
                    assert(occupied(g, x as int, y as int, z as int));
                    let mesh = cubes@[x as int]@[y as int]@[z as int];
                    assert(g[x as int][y as int][z as int] == mesh.vertices@);
                }
                append_faces(&mut visible, &cubes[x][y][z], &directions);
                z += 1;
                assert(visible@ =~= columns + column_vertices(g, x as int, y as int, z as nat));
            }
            proof {
                assert(g[x as int][y as int].len() == z);
            }
            y += 1;
            assert(visible@ =~= planes + plane_vertices(g, x as int, y as nat));
        }
        proof {
            assert(g[x as int].len() == y);
        }
        x += 1;
        assert(visible@ =~= grid_vertices(g, x as nat));
    }
    proof {
        assert(g.len() == x);
        lemma_chunk_length(g);
    }
    visible
}

} // verus!
