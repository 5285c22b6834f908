use voxel_mesh::builder::{
    chunk_mesh, get_visible_cubes, is_voxel_grid, trivial_indices,
};
use voxel_mesh::geometry::{Direction, Mesh, Vertex};
use voxel_mesh::visibility::{check_visibility, has_voxel, is_exposed};

/// Vertex `i` of voxel `id`, told apart by its position words.
fn vertex(id: u32, i: u32) -> Vertex {
    Vertex {
        position: [id, i, 0, 1.0f32.to_bits()],
        normal: [0, 0, 0, 1.0f32.to_bits()],
        color: [0, 0, 0, 1.0f32.to_bits()],
        tex_coords: [0, 0],
    }
}

fn voxel(id: u32) -> Mesh {
    Mesh {
        vertices: (0u32..36).map(|i| vertex(id, i)).collect(),
        indices: (0u32..36).collect(),
    }
}

/// A full box of voxels; the voxel at (x, y, z) has id 10000 x + 100 y + z.
fn full_grid(nx: u32, ny: u32, nz: u32) -> Vec<Vec<Vec<Mesh>>> {
    (0..nx)
        .map(|x| {
            (0..ny)
                .map(|y| (0..nz).map(|z| voxel(10000 * x + 100 * y + z)).collect())
                .collect()
        })
        .collect()
}

fn face(id: u32, start: u32) -> Vec<Vertex> {
    (start..start + 6).map(|i| vertex(id, i)).collect()
}

#[test]
fn single_voxel_shows_all_six_faces() {
    let grid = full_grid(1, 1, 1);
    assert_eq!(
        check_visibility(0, 0, 0, &grid),
        vec![
            Direction::X,
            Direction::Y,
            Direction::Z,
            Direction::NegX,
            Direction::NegY,
            Direction::NegZ
        ]
    );
    let vertices = get_visible_cubes(&grid);
    assert_eq!(vertices.len(), 36);
}

#[test]
fn single_voxel_faces_come_in_direction_order() {
    let grid = full_grid(1, 1, 1);
    let mut expected: Vec<Vertex> = Vec::new();
    expected.extend(face(0, 6));
    expected.extend(face(0, 24));
    expected.extend(face(0, 0));
    expected.extend(face(0, 18));
    expected.extend(face(0, 30));
    expected.extend(face(0, 12));
    assert_eq!(get_visible_cubes(&grid), expected);
}

#[test]
fn two_voxels_hide_the_face_between_them() {
    let grid = full_grid(2, 1, 1);
    assert_eq!(
        check_visibility(0, 0, 0, &grid),
        vec![Direction::Y, Direction::Z, Direction::NegX, Direction::NegY, Direction::NegZ]
    );
    assert_eq!(
        check_visibility(1, 0, 0, &grid),
        vec![Direction::X, Direction::Y, Direction::Z, Direction::NegY, Direction::NegZ]
    );
    let faces: usize =
        check_visibility(0, 0, 0, &grid).len() + check_visibility(1, 0, 0, &grid).len();
    assert_eq!(faces, 10);
    assert_eq!(get_visible_cubes(&grid).len(), 60);
}

#[test]
fn two_voxels_emit_x_ascending() {
    let grid = full_grid(2, 1, 1);
    let mut expected: Vec<Vertex> = Vec::new();
    for start in [24u32, 0, 18, 30, 12] {
        expected.extend(face(0, start));
    }
    for start in [6u32, 24, 0, 30, 12] {
        expected.extend(face(10000, start));
    }
    assert_eq!(get_visible_cubes(&grid), expected);
}

#[test]
fn enclosed_voxel_shows_nothing() {
    let grid = full_grid(3, 3, 3);
    assert_eq!(check_visibility(1, 1, 1, &grid), Vec::<Direction>::new());
    // 6 sides of 9 faces each
    assert_eq!(get_visible_cubes(&grid).len(), 6 * 54);
}

#[test]
fn full_box_shows_its_surface() {
    for (nx, ny, nz) in [(1u32, 1u32, 1u32), (2, 1, 1), (3, 2, 4), (1, 5, 2), (4, 4, 4)] {
        let grid = full_grid(nx, ny, nz);
        let faces: usize = 2 * (nx * ny + ny * nz + nz * nx) as usize;
        assert_eq!(get_visible_cubes(&grid).len(), 6 * faces);
    }
}

#[test]
fn low_boundary_is_always_exposed() {
    let grid = full_grid(3, 3, 3);
    for y in 0usize..3 {
        for z in 0usize..3 {
            assert!(check_visibility(0, y, z, &grid).contains(&Direction::NegX));
            assert!(is_exposed(&grid, 0, y, z, Direction::NegX));
        }
    }
    assert!(check_visibility(1, 0, 1, &grid).contains(&Direction::NegY));
    assert!(check_visibility(1, 1, 0, &grid).contains(&Direction::NegZ));
    assert!(!check_visibility(1, 1, 0, &grid).contains(&Direction::NegX));
}

#[test]
fn order_of_emission_is_x_then_y_then_z() {
    let grid = full_grid(2, 2, 2);
    let vertices = get_visible_cubes(&grid);
    // every voxel of a 2 x 2 x 2 box shows three faces
    assert_eq!(vertices.len(), 8 * 3 * 6);
    let ids: Vec<u32> = vertices.iter().step_by(18).map(|v| v.position[0]).collect();
    assert_eq!(ids, vec![0, 1, 100, 101, 10000, 10001, 10100, 10101]);
}

#[test]
fn ragged_grid_treats_missing_containers_as_empty_space() {
    // plane 0 has columns of 2 and 1 voxels, plane 1 has one column of 1,
    // plane 2 has no column at all
    let grid: Vec<Vec<Vec<Mesh>>> = vec![
        vec![vec![voxel(0), voxel(1)], vec![voxel(100)]],
        vec![vec![voxel(10000)]],
        vec![],
    ];
    assert!(has_voxel(&grid, 0, 0, 1));
    assert!(!has_voxel(&grid, 0, 1, 1));
    assert!(!has_voxel(&grid, 1, 1, 0));
    assert!(!has_voxel(&grid, 2, 0, 0));
    assert!(!has_voxel(&grid, 3, 0, 0));
    // (0,0,0): +X, +Y, +Z are taken
    assert_eq!(
        check_visibility(0, 0, 0, &grid),
        vec![Direction::NegX, Direction::NegY, Direction::NegZ]
    );
    // (0,0,1): nothing at (1,0,1), (0,1,1), (0,0,2)
    assert_eq!(
        check_visibility(0, 0, 1, &grid),
        vec![Direction::X, Direction::Y, Direction::Z, Direction::NegX, Direction::NegY]
    );
    // (0,1,0): plane 1 has no column 1
    assert_eq!(
        check_visibility(0, 1, 0, &grid),
        vec![Direction::X, Direction::Y, Direction::Z, Direction::NegX, Direction::NegZ]
    );
    // (1,0,0): plane 2 is empty
    assert_eq!(
        check_visibility(1, 0, 0, &grid),
        vec![Direction::X, Direction::Y, Direction::Z, Direction::NegY, Direction::NegZ]
    );
    assert_eq!(get_visible_cubes(&grid).len(), 6 * (3 + 5 + 5 + 5));
}

#[test]
fn all_directions_are_treated_alike_where_the_lookup_finds_no_container() {
    let grid = full_grid(1, 1, 1);
    let all = vec![
        Direction::X,
        Direction::Y,
        Direction::Z,
        Direction::NegX,
        Direction::NegY,
        Direction::NegZ,
    ];
    // cells outside the container have no neighbour on any side
    assert_eq!(check_visibility(5, 5, 5, &grid), all);
    assert_eq!(check_visibility(0, 3, 3, &grid), all);
    assert_eq!(check_visibility(usize::MAX, usize::MAX, usize::MAX, &grid), all);
    // the cell above the voxel sees it below
    assert_eq!(
        check_visibility(0, 1, 0, &grid),
        vec![Direction::X, Direction::Y, Direction::Z, Direction::NegX, Direction::NegZ]
    );
    assert_eq!(
        check_visibility(1, 0, 0, &grid),
        vec![Direction::X, Direction::Y, Direction::Z, Direction::NegY, Direction::NegZ]
    );
    assert_eq!(
        check_visibility(0, 0, 1, &grid),
        vec![Direction::X, Direction::Y, Direction::Z, Direction::NegX, Direction::NegY]
    );
}

#[test]
fn empty_grid_gives_no_vertices() {
    let none: Vec<Vec<Vec<Mesh>>> = Vec::new();
    assert_eq!(get_visible_cubes(&none), Vec::<Vertex>::new());
    let hollow: Vec<Vec<Vec<Mesh>>> = vec![vec![], vec![vec![]]];
    assert_eq!(get_visible_cubes(&hollow), Vec::<Vertex>::new());
    let mesh = chunk_mesh(&none).unwrap();
    assert!(mesh.vertices.is_empty());
    assert!(mesh.indices.is_empty());
}

#[test]
fn vertex_count_is_six_times_the_exposed_faces() {
    let grid: Vec<Vec<Vec<Mesh>>> = vec![
        vec![vec![voxel(0), voxel(1), voxel(2)], vec![voxel(100)]],
        vec![vec![], vec![voxel(10100), voxel(10101)]],
    ];
    let mut faces: usize = 0;
    for x in 0..grid.len() {
        for y in 0..grid[x].len() {
            for z in 0..grid[x][y].len() {
                faces += check_visibility(x, y, z, &grid).len();
            }
        }
    }
    let vertices = get_visible_cubes(&grid);
    assert_eq!(vertices.len(), 6 * faces);
    assert_eq!(vertices.len() % 6, 0);
}

#[test]
fn building_twice_gives_the_same_list() {
    let grid = full_grid(3, 2, 4);
    let first = get_visible_cubes(&grid);
    let second = get_visible_cubes(&grid);
    assert_eq!(first, second);
}

#[test]
fn grid_check_finds_a_short_mesh() {
    let mut grid = full_grid(2, 2, 2);
    assert!(is_voxel_grid(&grid));
    grid[1][0][1].vertices.pop();
    assert!(!is_voxel_grid(&grid));
    let empty: Vec<Vec<Vec<Mesh>>> = Vec::new();
    assert!(is_voxel_grid(&empty));
}

#[test]
fn trivial_indices_count_up_from_zero() {
    assert_eq!(trivial_indices(0), Vec::<u32>::new());
    assert_eq!(trivial_indices(5), vec![0, 1, 2, 3, 4]);
    assert_eq!(trivial_indices(36), (0u32..36).collect::<Vec<u32>>());
}

#[test]
fn chunk_mesh_has_one_index_for_each_vertex() {
    let grid = full_grid(2, 1, 1);
    let mesh = chunk_mesh(&grid).unwrap();
    assert_eq!(mesh.vertices, get_visible_cubes(&grid));
    assert_eq!(mesh.indices, (0u32..60).collect::<Vec<u32>>());
}

#[test]
fn face_table_has_the_fixed_order() {
    assert_eq!(Direction::Z.face_offset(), 0);
    assert_eq!(Direction::X.face_offset(), 6);
    assert_eq!(Direction::NegZ.face_offset(), 12);
    assert_eq!(Direction::NegX.face_offset(), 18);
    assert_eq!(Direction::Y.face_offset(), 24);
    assert_eq!(Direction::NegY.face_offset(), 30);
}
