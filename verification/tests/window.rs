use dynamic_terrain::field::HeightField;
use dynamic_terrain::geometry::{Point3, Uv};
use dynamic_terrain::ribbon::triangulate;
use dynamic_terrain::window::{
    fill_window, window_paths, window_start, window_uv_buffer, Terrain, WindowError,
};
use std::rc::Rc;

const CELL: f32 = 5.0;

fn span(first: f32, last: f32, n: usize) -> (f32, f32) {
    let length = (last - first).abs();
    (length, length / n as f32)
}

fn sample(i: usize, j: usize, n: usize, height: f32) -> Point3<f32> {
    Point3 { x: (i as f32 - n as f32 * 0.5) * CELL, y: height, z: (j as f32 - n as f32 * 0.5) * CELL }
}

fn flat_field(n: usize) -> Rc<HeightField<f32>> {
    let (coords, uvs) =
        HeightField::<f32>::create_map(n, n, |_, _| 0.5, move |i, j, h| sample(i, j, n, h));
    Rc::new(HeightField::new(coords, uvs, span).unwrap())
}

fn textured_field(n: usize) -> Rc<HeightField<f32>> {
    let coords: Vec<Vec<Point3<f32>>> = (0..n)
        .map(|j| (0..n).map(|i| sample(i, j, n, (j * n + i) as f32)).collect())
        .collect();
    let uvs: Vec<Uv<f32>> = (0..n * n)
        .map(|k| Uv { u: (k % n) as f32 / n as f32, v: 1.0 - (k / n) as f32 / n as f32 })
        .collect();
    Rc::new(HeightField::new(coords, uvs, span).unwrap())
}

fn extend(sum: f32, a: Point3<f32>, b: Point3<f32>) -> f32 {
    let (dx, dy, dz) = (b.x - a.x, b.y - a.y, b.z - a.z);
    sum + (dx * dx + dy * dy + dz * dz).sqrt()
}

fn ratio(part: f32, total: f32) -> f32 {
    part / total
}

fn terrain_of(
    field: Rc<HeightField<f32>>,
    size: usize,
    tolerance: i32,
    view: Point3<f32>,
) -> Result<Terrain<f32>, WindowError> {
    Terrain::new(field, size, tolerance, view, 0.0, &extend, &ratio)
}

fn origin() -> Point3<f32> {
    Point3 { x: 0.0, y: 0.0, z: 0.0 }
}

fn crossing(threshold: f32) -> impl Fn(f32, f32) -> Option<i32> {
    move |anchor: f32, view: f32| {
        let delta = anchor - view;
        if delta.abs() > threshold {
            Some((delta / threshold) as i32)
        } else {
            None
        }
    }
}

fn assert_shows_window(terrain: &Terrain<f32>) {
    let n = terrain.map.subdivisions;
    let w = terrain.size + 1;
    assert_eq!(terrain.mesh.positions.len(), w * w);
    assert_eq!(terrain.mesh.uvs.len(), w * w);
    assert_eq!(terrain.mesh.indices.len(), 6 * terrain.size * terrain.size);
    for i in 0..w {
        for j in 0..w {
            let row = (terrain.delta_sub_z + i) % n;
            let col = (terrain.delta_sub_x + j) % n;
            assert_eq!(terrain.mesh.positions[i * w + j], terrain.map.coords[row][col]);
            if !terrain.map.uvs.is_empty() {
                assert_eq!(terrain.mesh.uvs[i * w + j], terrain.map.uvs[row * n + col]);
            }
        }
    }
}

#[test]
fn new_window_is_centred_in_the_field() {
    let terrain = terrain_of(flat_field(10), 4, 1, origin()).unwrap();
    assert_eq!(terrain.size, 4);
    assert_eq!(terrain.sub_tolerance, 1);
    assert_eq!(terrain.delta_sub_x, 3);
    assert_eq!(terrain.delta_sub_z, 3);
    assert_eq!(terrain.position, origin());
    assert_eq!(terrain.camera_pos, origin());
    assert_eq!((terrain.mesh.rows, terrain.mesh.cols), (5, 5));
    assert_eq!(terrain.mesh.positions.len(), 25);
    assert_eq!(terrain.mesh.uvs.len(), 25);
    assert_eq!(terrain.mesh.indices, triangulate(5, 5));
    assert_eq!(terrain.mesh.indices.len(), 96);
    assert_shows_window(&terrain);
}

#[test]
fn window_start_uses_whole_halves() {
    assert_eq!(window_start(&flat_field(10).coords, 1), Ok(5));
    assert_eq!(window_start(&flat_field(10).coords, 3), Ok(4));
    assert_eq!(window_start(&flat_field(9).coords, 4), Ok(2));
    assert_eq!(window_start(&flat_field(9).coords, 9), Ok(0));
    assert_eq!(window_start(&flat_field(2).coords, 2), Ok(0));
}

#[test]
fn window_of_the_whole_field_is_accepted() {
    let field = textured_field(5);
    let terrain = terrain_of(Rc::clone(&field), 5, 1, origin()).unwrap();
    assert_eq!((terrain.delta_sub_x, terrain.delta_sub_z), (0, 0));
    assert_eq!((terrain.mesh.rows, terrain.mesh.cols), (6, 6));
    assert_eq!(terrain.mesh.positions[5], field.coords[0][0]);
    assert_eq!(terrain.mesh.positions[30], field.coords[0][0]);
    assert_shows_window(&terrain);
}

#[test]
fn window_without_a_cell_is_rejected() {
    assert_eq!(terrain_of(flat_field(10), 0, 1, origin()).err(), Some(WindowError::TooSmall));
}

#[test]
fn window_of_one_cell_is_a_single_quad() {
    let terrain = terrain_of(textured_field(10), 1, 1, origin()).unwrap();
    assert_eq!((terrain.delta_sub_x, terrain.delta_sub_z), (5, 5));
    assert_eq!(terrain.mesh.indices, vec![0, 1, 3, 3, 2, 0]);
    assert_shows_window(&terrain);
}

#[test]
fn window_larger_than_the_field_is_rejected() {
    assert_eq!(terrain_of(flat_field(10), 11, 1, origin()).err(), Some(WindowError::TooLarge));
}

#[test]
fn window_with_too_many_vertices_is_rejected() {
    let row: Vec<Point3<()>> = vec![Point3 { x: (), y: (), z: () }; 65536];
    let coords: Vec<Vec<Point3<()>>> = (0..65536).map(|_| row.clone()).collect();
    let field = Rc::new(HeightField::new(coords, Vec::new(), |_, _, _| ((), ())).unwrap());
    let unit = Point3 { x: (), y: (), z: () };
    let built = Terrain::new(field, 65535, 1, unit, (), &|_, _, _| (), &|_, _| ());
    assert_eq!(built.err(), Some(WindowError::TooManyVertices));
}

#[test]
fn window_start_rejects_grids_that_are_not_square() {
    let mut coords = flat_field(4).coords.clone();
    coords[2].pop();
    assert_eq!(window_start(&coords, 2), Err(WindowError::NotSquare));
    assert_eq!(window_start(&coords, 0), Err(WindowError::TooSmall));
}

#[test]
fn staying_within_the_threshold_writes_nothing() {
    let field = textured_field(10);
    let threshold = field.average_sub_size * 2.0;
    let mut terrain = terrain_of(field, 4, 2, origin()).unwrap();
    let positions = terrain.mesh.positions.clone();
    let uvs = terrain.mesh.uvs.clone();
    let indices = terrain.mesh.indices.clone();
    let view = Point3 { x: threshold * 0.99, y: 30.0, z: -threshold * 0.5 };
    assert!(!terrain.update(view, crossing(threshold)));
    assert_eq!(terrain.mesh.positions, positions);
    assert_eq!(terrain.mesh.uvs, uvs);
    assert_eq!(terrain.mesh.indices, indices);
    assert_eq!((terrain.delta_sub_x, terrain.delta_sub_z), (3, 3));
    assert_eq!(terrain.position, origin());
    assert_eq!(terrain.camera_pos, view);
}

#[test]
fn delta_equal_to_the_threshold_does_not_shift() {
    let field = flat_field(10);
    let threshold = field.average_sub_size;
    let mut terrain = terrain_of(field, 3, 1, origin()).unwrap();
    let view = Point3 { x: -threshold, y: 0.0, z: 0.0 };
    assert!(!terrain.update(view, crossing(threshold)));
    assert_eq!((terrain.delta_sub_x, terrain.delta_sub_z), (4, 4));
    assert_eq!(terrain.position, origin());
}

#[test]
fn crossing_one_cell_on_x_advances_offset_x_only() {
    let field = flat_field(10);
    let threshold = field.average_sub_size;
    let mut terrain = terrain_of(field, 3, 1, origin()).unwrap();
    assert_eq!((terrain.delta_sub_x, terrain.delta_sub_z), (4, 4));
    let view = Point3 { x: -threshold * 1.5, y: 0.0, z: 0.0 };
    assert!(terrain.update(view, crossing(threshold)));
    assert_eq!(terrain.delta_sub_x, 5);
    assert_eq!(terrain.delta_sub_z, 4);
    assert_eq!(terrain.position, Point3 { x: view.x, y: 0.0, z: 0.0 });
    assert_shows_window(&terrain);
}

#[test]
fn one_step_on_x_wraps_at_the_field_edge() {
    let mut terrain = terrain_of(flat_field(10), 3, 1, origin()).unwrap();
    for expected in [5usize, 6, 7, 8, 9, 0, 1] {
        assert!(terrain.shift(origin(), Some(1), None));
        assert_eq!(terrain.delta_sub_x, expected);
        assert_eq!(terrain.delta_sub_z, 4);
        assert_shows_window(&terrain);
    }
}

#[test]
fn backward_steps_wrap_below_zero() {
    let mut terrain = terrain_of(textured_field(10), 3, 1, origin()).unwrap();
    assert!(terrain.shift(origin(), None, Some(-6)));
    assert_eq!((terrain.delta_sub_x, terrain.delta_sub_z), (4, 8));
    assert_shows_window(&terrain);
    assert!(terrain.shift(origin(), Some(-25), Some(-1)));
    assert_eq!((terrain.delta_sub_x, terrain.delta_sub_z), (9, 7));
    assert_shows_window(&terrain);
}

#[test]
fn steps_are_scaled_by_the_tolerance() {
    let mut terrain = terrain_of(flat_field(10), 4, 3, origin()).unwrap();
    assert!(terrain.shift(origin(), Some(2), Some(-1)));
    assert_eq!((terrain.delta_sub_x, terrain.delta_sub_z), (9, 0));
    assert_shows_window(&terrain);
}

#[test]
fn crossed_cells_are_read_off_the_threshold() {
    let field = flat_field(10);
    let threshold = field.average_sub_size * 2.0;
    let mut terrain = terrain_of(field, 4, 2, origin()).unwrap();
    let view = Point3 { x: -threshold * 2.5, y: 0.0, z: threshold * 1.25 };
    assert!(terrain.update(view, crossing(threshold)));
    assert_eq!((terrain.delta_sub_x, terrain.delta_sub_z), (7, 1));
}

#[test]
fn anchor_snaps_to_the_viewpoint_on_moved_axes_only() {
    let start = Point3 { x: 1.0, y: 2.0, z: 3.0 };
    let mut terrain = terrain_of(flat_field(10), 4, 1, start).unwrap();
    let view = Point3 { x: 40.0, y: 50.0, z: 60.0 };
    assert!(terrain.shift(view, None, Some(2)));
    assert_eq!(terrain.position, Point3 { x: 1.0, y: 2.0, z: 60.0 });
    assert_eq!(terrain.camera_pos, view);
    let next = Point3 { x: -7.0, y: 0.0, z: 0.0 };
    assert!(terrain.shift(next, Some(0), None));
    assert_eq!(terrain.position, Point3 { x: -7.0, y: 2.0, z: 60.0 });
    assert_eq!((terrain.delta_sub_x, terrain.delta_sub_z), (3, 5));
}

#[test]
fn extreme_steps_and_tolerances_stay_inside_the_field() {
    let mut terrain = terrain_of(flat_field(10), 4, i32::MIN, origin()).unwrap();
    assert!(terrain.shift(origin(), Some(i32::MIN), Some(i32::MAX)));
    let x = (3i128 + (i32::MIN as i128) * (i32::MIN as i128)).rem_euclid(10) as usize;
    let z = (3i128 + (i32::MAX as i128) * (i32::MIN as i128)).rem_euclid(10) as usize;
    assert_eq!((terrain.delta_sub_x, terrain.delta_sub_z), (x, z));
    assert_shows_window(&terrain);
}

#[test]
fn shift_of_two_cells_pages_a_flat_field() {
    let field = flat_field(10);
    let threshold = field.average_sub_size;
    let mut terrain = terrain_of(Rc::clone(&field), 4, 1, origin()).unwrap();
    let indices = terrain.mesh.indices.clone();
    let view = Point3 { x: -threshold * 2.0 - 0.25, y: 0.0, z: 0.0 };
    assert!(terrain.update(view, crossing(threshold)));
    assert_eq!((terrain.delta_sub_x, terrain.delta_sub_z), (5, 3));
    assert_eq!(terrain.mesh.positions.len(), 25);
    for i in 0..5 {
        for j in 0..5 {
            let cell = field.coords[(3 + i) % 10][(5 + j) % 10];
            let shown = terrain.mesh.positions[i * 5 + j];
            assert_eq!(shown.x, cell.x);
            assert_eq!(shown.z, cell.z);
            assert_eq!(shown.y, 0.5);
        }
    }
    assert_eq!(terrain.mesh.indices, indices);
}

#[test]
fn window_straddling_the_edge_shows_both_sides() {
    let field = textured_field(10);
    let mut terrain = terrain_of(Rc::clone(&field), 4, 1, origin()).unwrap();
    assert!(terrain.shift(origin(), Some(5), Some(4)));
    assert_eq!((terrain.delta_sub_x, terrain.delta_sub_z), (8, 7));
    assert_eq!(terrain.mesh.positions[0], field.coords[7][8]);
    assert_eq!(terrain.mesh.positions[4], field.coords[7][2]);
    assert_eq!(terrain.mesh.positions[20], field.coords[1][8]);
    assert_eq!(terrain.mesh.positions[24], field.coords[1][2]);
    assert_eq!(terrain.mesh.uvs[24], field.uvs[12]);
    assert_eq!(terrain.mesh.uvs[0], field.uvs[78]);
}

#[test]
fn update_mesh_restores_the_window_after_outside_writes() {
    let mut terrain = terrain_of(textured_field(6), 3, 1, origin()).unwrap();
    terrain.mesh.positions[4] = Point3 { x: 9.0, y: 9.0, z: 9.0 };
    terrain.mesh.uvs[0] = Uv { u: 9.0, v: 9.0 };
    terrain.delta_sub_x = 5;
    terrain.update_mesh();
    assert_shows_window(&terrain);
}

#[test]
fn untextured_window_has_arc_length_uvs() {
    let terrain = terrain_of(flat_field(10), 4, 1, origin()).unwrap();
    for i in 0..5 {
        for j in 0..5 {
            assert_eq!(terrain.mesh.uvs[i * 5 + j], Uv { u: j as f32 / 4.0, v: i as f32 / 4.0 });
        }
    }
}

#[test]
fn arc_length_uvs_survive_shifts_of_untextured_fields() {
    let mut terrain = terrain_of(flat_field(10), 3, 1, origin()).unwrap();
    let uvs = terrain.mesh.uvs.clone();
    assert_eq!(uvs.len(), 16);
    assert!(terrain.shift(origin(), Some(1), Some(1)));
    assert_eq!(terrain.mesh.uvs, uvs);
    assert_shows_window(&terrain);
}

#[test]
fn cpu_mesh_is_the_centred_window() {
    let field = textured_field(8);
    let mesh = Terrain::create_cpu_mesh(&field, 4, 0.0, &extend, &ratio).unwrap();
    assert_eq!((mesh.rows, mesh.cols), (5, 5));
    assert_eq!(mesh.positions.len(), 25);
    assert_eq!(mesh.uvs.len(), 25);
    for i in 0..5 {
        for j in 0..5 {
            assert_eq!(mesh.positions[i * 5 + j], field.coords[2 + i][2 + j]);
            assert_eq!(mesh.uvs[i * 5 + j], field.uvs[(2 + i) * 8 + 2 + j]);
        }
    }
    assert_eq!(mesh.indices, triangulate(5, 5));
    assert_eq!(mesh.indices.len(), 6 * 4 * 4);
    assert!(mesh.indices.iter().all(|&v| v < 25));
}

#[test]
fn cpu_mesh_of_untextured_field_has_arc_length_uvs() {
    let field = flat_field(8);
    let mesh = Terrain::create_cpu_mesh(&field, 2, 0.0, &extend, &ratio).unwrap();
    assert_eq!(mesh.uvs.len(), 9);
    for i in 0..3 {
        for j in 0..3 {
            assert_eq!(mesh.uvs[i * 3 + j], Uv { u: j as f32 / 2.0, v: i as f32 / 2.0 });
            assert_eq!(mesh.positions[i * 3 + j], field.coords[3 + i][3 + j]);
        }
    }
}

#[test]
fn window_paths_wrap_on_both_axes() {
    let field = textured_field(5);
    let paths = window_paths(&field.coords, 4, 3, 3);
    assert_eq!(paths.len(), 3);
    for i in 0..3 {
        assert_eq!(paths[i].len(), 3);
        for j in 0..3 {
            assert_eq!(paths[i][j], field.coords[(3 + i) % 5][(4 + j) % 5]);
        }
    }
}

#[test]
fn window_uv_buffer_wraps_on_both_axes() {
    let field = textured_field(5);
    let buffer = window_uv_buffer(&field.uvs, 5, 4, 3, 3);
    assert_eq!(buffer.len(), 9);
    for i in 0..3 {
        for j in 0..3 {
            assert_eq!(buffer[i * 3 + j], field.uvs[((3 + i) % 5) * 5 + (4 + j) % 5]);
        }
    }
}

#[test]
fn fill_window_rewrites_buffers_in_place() {
    let field = textured_field(6);
    let mut mesh = Terrain::create_cpu_mesh(&field, 3, 0.0, &extend, &ratio).unwrap();
    let indices = mesh.indices.clone();
    fill_window(&mut mesh, &field, 5, 0);
    for i in 0..4 {
        for j in 0..4 {
            assert_eq!(mesh.positions[i * 4 + j], field.coords[i][(5 + j) % 6]);
            assert_eq!(mesh.uvs[i * 4 + j], field.uvs[i * 6 + (5 + j) % 6]);
        }
    }
    assert_eq!(mesh.indices, indices);
}
