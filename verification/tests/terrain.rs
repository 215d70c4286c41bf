use dynamic_terrain::geometry::{Point3, Uv};
use dynamic_terrain::ribbon::{triangulate, RibbonError};
use dynamic_terrain::terrain::{create_map, create_map_terrain, create_noise, create_terrain};
use dynamic_terrain::window::WindowError;

fn extend(sum: f32, a: Point3<f32>, b: Point3<f32>) -> f32 {
    let (dx, dy, dz) = (b.x - a.x, b.y - a.y, b.z - a.z);
    sum + (dx * dx + dy * dy + dz * dz).sqrt()
}

fn ratio(part: f32, total: f32) -> f32 {
    part / total
}

fn place(i: usize, j: usize, n: f32) -> Point3<f32> {
    Point3 { x: (i as f32 - 4.0) * 5.0, y: n * 50.0, z: (j as f32 - 4.0) * 5.0 }
}

fn noise(x: usize, y: usize) -> f32 {
    ((x * 7 + y * 3) % 11) as f32 / 11.0
}

#[test]
fn noise_grid_has_one_entry_per_lattice_point() {
    let data = create_noise(5, 2, noise);
    assert_eq!(data.len(), 5);
    for x in 0..5 {
        assert_eq!(data[x], vec![noise(x, 0), noise(x, 1)]);
    }
}

#[test]
fn empty_domain_gives_an_empty_grid() {
    assert!(create_noise(0, 4, noise).is_empty());
    assert_eq!(create_noise(2, 0, noise), vec![Vec::<f32>::new(), Vec::new()]);
}

#[test]
fn map_rows_follow_the_first_noise_axis() {
    let paths = create_map(8, 8, noise, place);
    assert_eq!(paths.len(), 8);
    for j in 0..8 {
        assert_eq!(paths[j].len(), 8);
        for i in 0..8 {
            assert_eq!(paths[j][i], place(i, j, noise(j, i)));
        }
    }
}

#[test]
fn same_noise_and_domain_give_the_same_map() {
    assert_eq!(create_map(16, 16, noise, place), create_map(16, 16, noise, place));
}

#[test]
fn flat_noise_gives_uniform_heights() {
    let paths = create_map(10, 10, |_, _| 0.5f32, |i, j, n| Point3 { x: i as f32, y: n, z: j as f32 });
    assert!(paths.iter().all(|row| row.iter().all(|p| p.y == 0.5)));
}

#[test]
fn map_terrain_meshes_the_whole_grid() {
    let paths = create_map(4, 6, noise, place);
    let mesh = create_map_terrain(&paths, 0.0, &extend, &ratio).unwrap();
    assert_eq!((mesh.rows, mesh.cols), (4, 6));
    assert_eq!(mesh.positions.len(), 24);
    assert_eq!(mesh.positions[13], paths[2][1]);
    assert_eq!(mesh.uvs.len(), 24);
    assert_eq!(mesh.indices.len(), 6 * 3 * 5);
}

#[test]
fn map_terrain_of_a_flat_grid_has_ramp_uvs() {
    let paths = create_map(3, 5, |_, _| 0.0f32, |i, j, n| Point3 { x: i as f32, y: n, z: j as f32 });
    let mesh = create_map_terrain(&paths, 0.0, &extend, &ratio).unwrap();
    for j in 0..3 {
        for i in 0..5 {
            assert_eq!(mesh.uvs[j * 5 + i], Uv { u: i as f32 / 4.0, v: j as f32 / 2.0 });
        }
    }
}

#[test]
fn map_terrain_rejects_a_single_row() {
    let paths = create_map(1, 6, noise, place);
    assert_eq!(create_map_terrain(&paths, 0.0, &extend, &ratio), Err(RibbonError::TooFewPaths));
}

#[test]
fn terrain_is_cut_from_the_centre() {
    let paths = create_map(8, 8, noise, place);
    let mesh = create_terrain(&paths, 3, 0.0, &extend, &ratio).unwrap();
    assert_eq!((mesh.rows, mesh.cols), (4, 4));
    assert_eq!(mesh.positions.len(), 16);
    for i in 0..4 {
        for j in 0..4 {
            assert_eq!(mesh.positions[i * 4 + j], paths[3 + i][3 + j]);
        }
    }
    assert_eq!(mesh.indices, triangulate(4, 4));
    assert_eq!(mesh.indices.len(), 6 * 3 * 3);
    assert_eq!(mesh.uvs.len(), 16);
    assert_eq!((mesh.uvs[0].u, mesh.uvs[3].u, mesh.uvs[12].v), (0.0, 1.0, 1.0));
}

#[test]
fn terrain_of_one_cell_is_a_single_quad() {
    let paths = create_map(8, 8, noise, place);
    let mesh = create_terrain(&paths, 1, 0.0, &extend, &ratio).unwrap();
    assert_eq!((mesh.rows, mesh.cols), (2, 2));
    assert_eq!(mesh.positions, vec![paths[4][4], paths[4][5], paths[5][4], paths[5][5]]);
    assert_eq!(mesh.indices, vec![0, 1, 3, 3, 2, 0]);
}

#[test]
fn terrain_rejects_bad_windows() {
    let paths = create_map(8, 8, noise, place);
    assert_eq!(create_terrain(&paths, 0, 0.0, &extend, &ratio), Err(WindowError::TooSmall));
    assert_eq!(create_terrain(&paths, 9, 0.0, &extend, &ratio), Err(WindowError::TooLarge));
    assert!(create_terrain(&paths, 8, 0.0, &extend, &ratio).is_ok());
    let wide = create_map(8, 9, noise, place);
    assert_eq!(create_terrain(&wide, 3, 0.0, &extend, &ratio), Err(WindowError::NotSquare));
}
