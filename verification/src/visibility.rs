//! Which faces of a voxel are exposed.

use crate::geometry::{all_directions, Direction, Mesh, Vertex};
use vstd::prelude::*;

verus! {

/// A grid as a mathematical value: `g[x][y][z]` is the vertex list of the
/// voxel at (x, y, z). The three levels may be ragged.
pub type GridView = Seq<Seq<Seq<Seq<Vertex>>>>;

/// The mathematical value of a grid held in nested vectors.
pub open spec fn grid_view(cubes: &Vec<Vec<Vec<Mesh>>>) -> GridView {
    Seq::new(
        cubes@.len(),
        |x: int|
            Seq::new(
                cubes@[x]@.len(),
                |y: int| Seq::new(cubes@[x]@[y]@.len(), |z: int| cubes@[x]@[y]@[z].vertices@),
            ),
    )
}

/// The grid holds a voxel at (x, y, z). Any coordinate outside the
/// container, negative ones included, is empty space.
pub open spec fn occupied(g: GridView, x: int, y: int, z: int) -> bool {
    &&& 0 <= x < g.len()
    &&& 0 <= y < g[x].len()
    &&& 0 <= z < g[x][y].len()
}

/// The face of cell (x, y, z) in direction `d` is exposed: the cell one
/// step along `d` holds no voxel.
pub open spec fn exposed(g: GridView, x: int, y: int, z: int, d: Direction) -> bool {
    !occupied(g, x + d.offset().0, y + d.offset().1, z + d.offset().2)
}

/// `d` alone if `keep`, else nothing.
pub open spec fn direction_if(keep: bool, d: Direction) -> Seq<Direction> {
    if keep {
        seq![d]
    } else {
        Seq::empty()
    }
}

/// The exposed directions of cell (x, y, z), in the order +X, +Y, +Z, -X,
/// -Y, -Z.
pub open spec fn exposed_directions(g: GridView, x: int, y: int, z: int) -> Seq<Direction> {
    direction_if(exposed(g, x, y, z, Direction::X), Direction::X) + direction_if(
        exposed(g, x, y, z, Direction::Y),
        Direction::Y,
    ) + direction_if(exposed(g, x, y, z, Direction::Z), Direction::Z) + direction_if(
        exposed(g, x, y, z, Direction::NegX),
        Direction::NegX,
    ) + direction_if(exposed(g, x, y, z, Direction::NegY), Direction::NegY) + direction_if(
        exposed(g, x, y, z, Direction::NegZ),
        Direction::NegZ,
    )
}

/// Bounds-checked lookup: does the grid hold a voxel at (x, y, z)?
pub fn has_voxel(cubes: &Vec<Vec<Vec<Mesh>>>, x: usize, y: usize, z: usize) -> (present: bool)
    ensures
        present == occupied(grid_view(cubes), x as int, y as int, z as int),
{
    if x < cubes.len() {
        let plane = &cubes[x];
        if y < plane.len() {
            z < plane[y].len()
        } else {
            false
        }
    } else {
        false
    }
}

/// Is the face of cell (x, y, z) in direction `d` exposed? A step below
/// zero or past the container on any axis finds empty space.
pub fn is_exposed(cubes: &Vec<Vec<Vec<Mesh>>>, x: usize, y: usize, z: usize, d: Direction) -> (e:
    bool)
    ensures
        e == exposed(grid_view(cubes), x as int, y as int, z as int, d),
{
    match d {
        Direction::X => x >= cubes.len() || !has_voxel(cubes, x + 1, y, z),
        Direction::Y => {
            if x < cubes.len() {
                y >= cubes[x].len() || !has_voxel(cubes, x, y + 1, z)
            } else {
                true
            }
        },
        Direction::Z => {
            if x < cubes.len() && y < cubes[x].len() {
                z >= cubes[x][y].len() || !has_voxel(cubes, x, y, z + 1)
            } else {
                true
            }
        },
        Direction::NegX => x == 0 || !has_voxel(cubes, x - 1, y, z),
        Direction::NegY => y == 0 || !has_voxel(cubes, x, y - 1, z),
        Direction::NegZ => z == 0 || !has_voxel(cubes, x, y, z - 1),
    }
}

/// The exposed faces of the cell (x, y, z), each direction at most once, in
/// the order +X, +Y, +Z, -X, -Y, -Z.
pub fn check_visibility(x: usize, y: usize, z: usize, cubes: &Vec<Vec<Vec<Mesh>>>) -> (directions:
    Vec<Direction>)
    ensures
        directions@ == exposed_directions(grid_view(cubes), x as int, y as int, z as int),
{
    let mut directions: Vec<Direction> = Vec::new();
    if is_exposed(cubes, x, y, z, Direction::X) {
        directions.push(Direction::X);
    }
    if is_exposed(cubes, x, y, z, Direction::Y) {
        directions.push(Direction::Y);
    }
    if is_exposed(cubes, x, y, z, Direction::Z) {
        directions.push(Direction::Z);
    }
    if is_exposed(cubes, x, y, z, Direction::NegX) {
        directions.push(Direction::NegX);
    }
    if is_exposed(cubes, x, y, z, Direction::NegY) {
        directions.push(Direction::NegY);
    }
    if is_exposed(cubes, x, y, z, Direction::NegZ) {
        directions.push(Direction::NegZ);
    }
    assert(directions@ =~= exposed_directions(grid_view(cubes), x as int, y as int, z as int));
    directions
}

proof fn lemma_joined_contains(a: Seq<Direction>, b: Seq<Direction>, d: Direction)
    ensures
        (a + b).contains(d) <==> a.contains(d) || b.contains(d),
{
    let s = a + b;
    if a.contains(d) {
        let i = choose|i: int| 0 <= i < a.len() && a[i] == d;
        assert(s[i] == d);
    }
    if b.contains(d) {
        let i = choose|i: int| 0 <= i < b.len() && b[i] == d;
        assert(s[a.len() + i] == d);
    }
    if s.contains(d) {
        let i = choose|i: int| 0 <= i < s.len() && s[i] == d;
        if i < a.len() {
            assert(a[i] == d);
        } else {
            assert(b[i - a.len()] == d);
        }
    }
}

proof fn lemma_direction_if_contains(keep: bool, e: Direction, d: Direction)
    ensures
        direction_if(keep, e).contains(d) <==> keep && e == d,
{
    if keep {
        assert(direction_if(keep, e)[0] == e);
    }
}

/// A direction is reported exactly when its face is exposed.
pub proof fn lemma_reported_iff_exposed(g: GridView, x: int, y: int, z: int, d: Direction)
    ensures
        exposed_directions(g, x, y, z).contains(d) <==> exposed(g, x, y, z, d),
{
    let a = direction_if(exposed(g, x, y, z, Direction::X), Direction::X);
    let b = direction_if(exposed(g, x, y, z, Direction::Y), Direction::Y);
    let c = direction_if(exposed(g, x, y, z, Direction::Z), Direction::Z);
    let e = direction_if(exposed(g, x, y, z, Direction::NegX), Direction::NegX);
    let f = direction_if(exposed(g, x, y, z, Direction::NegY), Direction::NegY);
    let h = direction_if(exposed(g, x, y, z, Direction::NegZ), Direction::NegZ);
    lemma_direction_if_contains(exposed(g, x, y, z, Direction::X), Direction::X, d);
    lemma_direction_if_contains(exposed(g, x, y, z, Direction::Y), Direction::Y, d);
    lemma_direction_if_contains(exposed(g, x, y, z, Direction::Z), Direction::Z, d);
    lemma_direction_if_contains(exposed(g, x, y, z, Direction::NegX), Direction::NegX, d);
    lemma_direction_if_contains(exposed(g, x, y, z, Direction::NegY), Direction::NegY, d);
    lemma_direction_if_contains(exposed(g, x, y, z, Direction::NegZ), Direction::NegZ, d);
    lemma_joined_contains(a, b, d);
    lemma_joined_contains(a + b, c, d);
    lemma_joined_contains(a + b + c, e, d);
    lemma_joined_contains(a + b + c + e, f, d);
    lemma_joined_contains(a + b + c + e + f, h, d);
}

/// The place of a direction in the order of reporting.
pub open spec fn rank(d: Direction) -> int {
    match d {
        Direction::X => 0,
        Direction::Y => 1,
        Direction::Z => 2,
        Direction::NegX => 3,
        Direction::NegY => 4,
        Direction::NegZ => 5,
    }
}

/// The directions in `s` come in the order of reporting, none twice, and
/// all before place `k`.
pub open spec fn ordered_below(s: Seq<Direction>, k: int) -> bool {
    &&& forall|i: int| 0 <= i < s.len() ==> rank(#[trigger] s[i]) < k
    &&& forall|i: int, j: int|
        0 <= i < j < s.len() ==> rank(#[trigger] s[i]) < rank(#[trigger] s[j])
}

proof fn lemma_joined_ordered(a: Seq<Direction>, keep: bool, d: Direction)
    requires
        ordered_below(a, rank(d)),
    ensures
        ordered_below(a + direction_if(keep, d), rank(d) + 1),
{
    let s = a + direction_if(keep, d);
    assert forall|i: int| 0 <= i < s.len() implies rank(#[trigger] s[i]) < rank(d) + 1 by {
        if i < a.len() {
            assert(s[i] == a[i]);
        }
    }
    assert forall|i: int, j: int| 0 <= i < j < s.len() implies rank(#[trigger] s[i]) < rank(
        #[trigger] s[j],
    ) by {
        assert(s[i] == a[i]);
        if j < a.len() {
            assert(s[j] == a[j]);
        }
    }
}

/// The reported directions come in the order +X, +Y, +Z, -X, -Y, -Z, and
/// none comes twice.
pub proof fn lemma_reported_in_order(g: GridView, x: int, y: int, z: int)
    ensures
        ordered_below(exposed_directions(g, x, y, z), 6),
        exposed_directions(g, x, y, z).no_duplicates(),
        exposed_directions(g, x, y, z).len() <= 6,
{
    let a = direction_if(exposed(g, x, y, z, Direction::X), Direction::X);
    let b = direction_if(exposed(g, x, y, z, Direction::Y), Direction::Y);
    let c = direction_if(exposed(g, x, y, z, Direction::Z), Direction::Z);
    let e = direction_if(exposed(g, x, y, z, Direction::NegX), Direction::NegX);
    let f = direction_if(exposed(g, x, y, z, Direction::NegY), Direction::NegY);
    let empty = Seq::<Direction>::empty();
    assert(empty + a =~= a);
    lemma_joined_ordered(empty, exposed(g, x, y, z, Direction::X), Direction::X);
    lemma_joined_ordered(a, exposed(g, x, y, z, Direction::Y), Direction::Y);
    lemma_joined_ordered(a + b, exposed(g, x, y, z, Direction::Z), Direction::Z);
    lemma_joined_ordered(a + b + c, exposed(g, x, y, z, Direction::NegX), Direction::NegX);
    lemma_joined_ordered(a + b + c + e, exposed(g, x, y, z, Direction::NegY), Direction::NegY);
    lemma_joined_ordered(a + b + c + e + f, exposed(g, x, y, z, Direction::NegZ), Direction::NegZ);
}

/// A voxel whose six neighbours are all present shows no face.
pub proof fn lemma_enclosed_voxel_shows_nothing(g: GridView, x: int, y: int, z: int)
    requires
        occupied(g, x + 1, y, z),
        occupied(g, x - 1, y, z),
        occupied(g, x, y + 1, z),
        occupied(g, x, y - 1, z),
        occupied(g, x, y, z + 1),
        occupied(g, x, y, z - 1),
    ensures
        exposed_directions(g, x, y, z) == Seq::<Direction>::empty(),
{
    assert(exposed_directions(g, x, y, z) =~= Seq::<Direction>::empty());
}

/// In a grid of exactly one voxel all six faces of that voxel are exposed.
pub proof fn lemma_lone_voxel_shows_all(g: GridView)
    requires
        g.len() == 1,
        g[0].len() == 1,
        g[0][0].len() == 1,
    ensures
        exposed_directions(g, 0, 0, 0) == all_directions(),
{
    assert(exposed_directions(g, 0, 0, 0) =~= all_directions());
}

/// A cell with a coordinate of zero has the face towards the negative side
/// of that axis exposed, whatever the grid holds.
pub proof fn lemma_low_boundary_exposed(g: GridView, x: int, y: int, z: int)
    ensures
        x == 0 ==> exposed(g, x, y, z, Direction::NegX) && exposed_directions(g, x, y, z).contains(
            Direction::NegX,
        ),
        y == 0 ==> exposed(g, x, y, z, Direction::NegY) && exposed_directions(g, x, y, z).contains(
            Direction::NegY,
        ),
        z == 0 ==> exposed(g, x, y, z, Direction::NegZ) && exposed_directions(g, x, y, z).contains(
            Direction::NegZ,
        ),
{
    lemma_reported_iff_exposed(g, x, y, z, Direction::NegX);
    lemma_reported_iff_exposed(g, x, y, z, Direction::NegY);
    lemma_reported_iff_exposed(g, x, y, z, Direction::NegZ);
}

/// The grid is a full box of `nx` by `ny` by `nz` voxels.
pub open spec fn is_box(g: GridView, nx: nat, ny: nat, nz: nat) -> bool {
    &&& g.len() == nx
    &&& forall|x: int| 0 <= x < nx ==> (#[trigger] g[x]).len() == ny
    &&& forall|x: int, y: int| 0 <= x < nx && 0 <= y < ny ==> (#[trigger] g[x][y]).len() == nz
}

/// In a full box a voxel shows a face exactly where it lies on that side
/// of the box, so a voxel inside shows none.
pub proof fn lemma_box_exposure(g: GridView, nx: nat, ny: nat, nz: nat, x: int, y: int, z: int)
    requires
        is_box(g, nx, ny, nz),
        0 <= x < nx,
        0 <= y < ny,
        0 <= z < nz,
    ensures
        occupied(g, x, y, z),
        exposed(g, x, y, z, Direction::X) <==> x == nx - 1,
        exposed(g, x, y, z, Direction::Y) <==> y == ny - 1,
        exposed(g, x, y, z, Direction::Z) <==> z == nz - 1,
        exposed(g, x, y, z, Direction::NegX) <==> x == 0,
        exposed(g, x, y, z, Direction::NegY) <==> y == 0,
        exposed(g, x, y, z, Direction::NegZ) <==> z == 0,
        0 < x < nx - 1 && 0 < y < ny - 1 && 0 < z < nz - 1 ==> exposed_directions(g, x, y, z)
            == Seq::<Direction>::empty(),
{
    assert(g[x].len() == ny);
    assert(g[x][y].len() == nz);
    if x + 1 < nx {
        assert(g[x + 1].len() == ny);
        assert(g[x + 1][y].len() == nz);
    }
    if x > 0 {
        assert(g[x - 1].len() == ny);
        assert(g[x - 1][y].len() == nz);
    }
    if y + 1 < ny {
        assert(g[x][y + 1].len() == nz);
    }
    if y > 0 {
        assert(g[x][y - 1].len() == nz);
    }
    if 0 < x < nx - 1 && 0 < y < ny - 1 && 0 < z < nz - 1 {
        lemma_enclosed_voxel_shows_nothing(g, x, y, z);
    }
}

/// Two voxels side by side hide the faces between them: the one on the low
/// side does not show the face towards the other, nor the other the face
/// back.
pub proof fn lemma_shared_face_hidden(g: GridView, x: int, y: int, z: int, d: Direction)
    requires
        occupied(g, x, y, z),
        occupied(g, x + d.offset().0, y + d.offset().1, z + d.offset().2),
    ensures
        !exposed(g, x, y, z, d),
        !exposed(
            g,
            x + d.offset().0,
            y + d.offset().1,
            z + d.offset().2,
            opposite(d),
        ),
{
}

/// The direction that points the other way.
pub open spec fn opposite(d: Direction) -> Direction {
    match d {
        Direction::X => Direction::NegX,
        Direction::Y => Direction::NegY,
        Direction::Z => Direction::NegZ,
        Direction::NegX => Direction::X,
        Direction::NegY => Direction::Y,
        Direction::NegZ => Direction::Z,
    }
}

} // verus!
