use dynamic_terrain::arc_length::{column_run_lengths, normalise, ribbon_uvs, row_run_lengths};
use dynamic_terrain::geometry::{Point3, Uv};
use dynamic_terrain::ribbon::{create_ribbon, RibbonError};

fn extend(sum: f32, a: Point3<f32>, b: Point3<f32>) -> f32 {
    let (dx, dy, dz) = (b.x - a.x, b.y - a.y, b.z - a.z);
    sum + (dx * dx + dy * dy + dz * dz).sqrt()
}

fn ratio(part: f32, total: f32) -> f32 {
    part / total
}

fn uniform(rows: usize, cols: usize, d: f32) -> Vec<Vec<Point3<f32>>> {
    (0..rows)
        .map(|i| (0..cols).map(|j| Point3 { x: j as f32 * d, y: 0.0, z: i as f32 * d }).collect())
        .collect()
}

#[test]
fn row_lengths_accumulate_from_zero() {
    let paths = vec![
        vec![
            Point3 { x: 0.0, y: 0.0, z: 0.0 },
            Point3 { x: 3.0, y: 4.0, z: 0.0 },
            Point3 { x: 3.0, y: 4.0, z: 2.0 },
        ],
        vec![
            Point3 { x: 1.0, y: 0.0, z: 0.0 },
            Point3 { x: 1.0, y: 0.0, z: 0.0 },
            Point3 { x: 1.0, y: 6.0, z: 8.0 },
        ],
    ];
    let lengths = row_run_lengths(&paths, 3, 0.0, &extend);
    assert_eq!(lengths, vec![vec![0.0, 5.0, 7.0], vec![0.0, 0.0, 10.0]]);
}

#[test]
fn column_lengths_accumulate_from_zero() {
    let paths = vec![
        vec![Point3 { x: 0.0, y: 0.0, z: 0.0 }, Point3 { x: 1.0, y: 0.0, z: 0.0 }],
        vec![Point3 { x: 0.0, y: 3.0, z: 4.0 }, Point3 { x: 1.0, y: 0.0, z: 1.0 }],
        vec![Point3 { x: 0.0, y: 3.0, z: 5.0 }, Point3 { x: 1.0, y: 0.0, z: 4.0 }],
    ];
    let lengths = column_run_lengths(&paths, 2, 0.0, &extend);
    assert_eq!(lengths, vec![vec![0.0, 0.0], vec![5.0, 1.0], vec![6.0, 4.0]]);
}

#[test]
fn normalise_divides_by_the_own_row_and_column_total() {
    let along_rows = vec![vec![0.0f32, 1.0, 4.0], vec![0.0, 6.0, 8.0]];
    let along_columns = vec![vec![0.0f32, 0.0, 0.0], vec![2.0, 5.0, 10.0]];
    let uvs = normalise(&along_rows, &along_columns, 2, 3, &ratio);
    assert_eq!(
        uvs,
        vec![
            Uv { u: 0.0, v: 0.0 },
            Uv { u: 0.25, v: 0.0 },
            Uv { u: 1.0, v: 0.0 },
            Uv { u: 0.0, v: 1.0 },
            Uv { u: 0.75, v: 1.0 },
            Uv { u: 1.0, v: 1.0 },
        ]
    );
}

#[test]
fn uniform_grid_gives_linear_ramps() {
    for d in [0.5f32, 1.0, 3.0, 128.0] {
        let uvs = ribbon_uvs(&uniform(3, 5, d), &Vec::new(), 0.0, &extend, &ratio).unwrap();
        assert_eq!(uvs.len(), 15);
        for i in 0..3 {
            for j in 0..5 {
                assert_eq!(uvs[i * 5 + j], Uv { u: j as f32 / 4.0, v: i as f32 / 2.0 });
            }
        }
    }
}

#[test]
fn uneven_spacing_is_measured_by_distance() {
    let paths = vec![
        vec![
            Point3 { x: 0.0, y: 0.0, z: 0.0 },
            Point3 { x: 1.0, y: 0.0, z: 0.0 },
            Point3 { x: 4.0, y: 0.0, z: 0.0 },
        ],
        vec![
            Point3 { x: 0.0, y: 0.0, z: 2.0 },
            Point3 { x: 3.0, y: 0.0, z: 2.0 },
            Point3 { x: 4.0, y: 0.0, z: 2.0 },
        ],
    ];
    let uvs = ribbon_uvs(&paths, &Vec::new(), 0.0, &extend, &ratio).unwrap();
    assert_eq!(uvs[1], Uv { u: 0.25, v: 0.0 });
    assert_eq!(uvs[4], Uv { u: 0.75, v: 1.0 });
    assert_eq!(uvs[5], Uv { u: 1.0, v: 1.0 });
}

#[test]
fn arc_length_needs_a_grid() {
    let mut ragged = uniform(3, 3, 1.0);
    ragged[1].pop();
    assert_eq!(ribbon_uvs(&ragged, &Vec::new(), 0.0, &extend, &ratio), Err(RibbonError::RaggedPaths));
    assert_eq!(
        ribbon_uvs(&uniform(1, 3, 1.0), &Vec::new(), 0.0, &extend, &ratio),
        Err(RibbonError::TooFewPaths)
    );
    assert_eq!(
        ribbon_uvs(&uniform(3, 1, 1.0), &Vec::new(), 0.0, &extend, &ratio),
        Err(RibbonError::TooFewPoints)
    );
}

#[test]
fn ribbon_computes_uvs_when_none_are_supplied() {
    let paths = uniform(3, 3, 2.0);
    let mesh = create_ribbon(&paths, &Vec::new(), 0.0, &extend, &ratio).unwrap();
    assert_eq!(mesh.uvs.len(), 9);
    assert_eq!(mesh.uvs[0], Uv { u: 0.0, v: 0.0 });
    assert_eq!(mesh.uvs[4], Uv { u: 0.5, v: 0.5 });
    assert_eq!(mesh.uvs[8], Uv { u: 1.0, v: 1.0 });
    assert_eq!(mesh.positions[5], paths[1][2]);
    assert_eq!(mesh.indices.len(), 24);
}

#[test]
fn ribbon_skips_arc_lengths_when_uvs_are_supplied() {
    let paths = uniform(2, 2, 2.0);
    let uvs: Vec<Uv<f32>> = (0..4).map(|k| Uv { u: 7.0 + k as f32, v: -1.0 }).collect();
    let never = |_: f32, _: Point3<f32>, _: Point3<f32>| -> f32 { panic!("arc length was measured") };
    let mesh = create_ribbon(&paths, &uvs, 0.0, &never, &ratio).unwrap();
    assert_eq!(mesh.uvs, uvs);
}

#[test]
fn ribbon_with_wrong_uv_count_is_rejected() {
    let paths = uniform(2, 2, 2.0);
    let uvs: Vec<Uv<f32>> = (0..3).map(|k| Uv { u: k as f32, v: 0.0 }).collect();
    assert_eq!(
        create_ribbon(&paths, &uvs, 0.0, &extend, &ratio),
        Err(RibbonError::UvCountMismatch)
    );
}

#[test]
fn supplied_uvs_must_match_the_grid() {
    let uvs: Vec<Uv<f32>> = (0..5).map(|k| Uv { u: k as f32, v: 0.0 }).collect();
    assert_eq!(
        ribbon_uvs(&uniform(2, 3, 1.0), &uvs, 0.0, &extend, &ratio),
        Err(RibbonError::UvCountMismatch)
    );
    let six: Vec<Uv<f32>> = (0..6).map(|k| Uv { u: k as f32, v: 0.0 }).collect();
    assert_eq!(ribbon_uvs(&uniform(2, 3, 1.0), &six, 0.0, &extend, &ratio), Ok(six.clone()));
}
