//! Extended-grid layout, and extended grids filled from it.

use rskan::spline::{extend_grid_layout, GridError, Knot};

/// Fills an extended grid from the library's layout: ghost knots are spaced by
/// `h = (hi - lo) / (n - 1)` below the first and above the last knot of a row.
fn extend(grid: &[Vec<f32>], k: usize) -> Vec<Vec<f32>> {
    let n = grid[0].len();
    let layout = extend_grid_layout(n, k).expect("at least two knots per row");
    grid.iter()
        .map(|row| {
            let lo = row[0];
            let hi = row[n - 1];
            let h = (hi - lo) / (n as f32 - 1.0);
            layout
                .iter()
                .map(|knot| match *knot {
                    Knot::Below(m) => lo - (m as f32) * h,
                    Knot::Inner(j) => row[j],
                    Knot::Above(m) => hi + (m as f32) * h,
                })
                .collect()
        })
        .collect()
}

fn close(a: f32, b: f32) -> bool {
    (a - b).abs() <= 1e-7
}

#[test]
fn extend_grid_two_inputs_k2() {
    let g = vec![vec![-1.0, -0.5, 0.0, 0.5, 1.0], vec![-1.0, -0.5, 0.0, 0.5, 1.0]];

    let extended = extend(&g, 2);

    assert_eq!((extended.len(), extended[0].len()), (2, 9));
    let expected = [-2.0, -1.5, -1.0, -0.5, 0.0, 0.5, 1.0, 1.5, 2.0];
    for row in &extended {
        for (v, e) in row.iter().zip(expected.iter()) {
            assert!(close(*v, *e), "{v} != {e}");
        }
    }
}

#[test]
fn extend_grid_k_zero_is_identity() {
    let g = vec![vec![0.0, 1.0, 2.0]];
    let out = extend(&g, 0);
    assert_eq!((out.len(), out[0].len()), (1, 3));
    for (i, v) in out[0].iter().enumerate() {
        assert!(close(*v, g[0][i]));
    }
}

#[test]
fn extend_grid_differing_h_per_row() {
    let g = vec![vec![0.0, 1.0, 2.0], vec![0.0, 0.5, 1.0]];
    let out = extend(&g, 1);
    assert_eq!((out.len(), out[0].len()), (2, 5));
    assert!(close(out[0][0], -1.0));
    assert!(close(out[0][4], 3.0));
    assert!(close(out[1][0], -0.5));
    assert!(close(out[1][4], 1.5));
}

#[test]
fn layout_of_five_knots_extended_by_two() {
    let layout = extend_grid_layout(5, 2).unwrap();
    assert_eq!(
        layout,
        vec![
            Knot::Below(2),
            Knot::Below(1),
            Knot::Inner(0),
            Knot::Inner(1),
            Knot::Inner(2),
            Knot::Inner(3),
            Knot::Inner(4),
            Knot::Above(1),
            Knot::Above(2),
        ]
    );
}

#[test]
fn layout_by_zero_is_identity() {
    let layout = extend_grid_layout(4, 0).unwrap();
    assert_eq!(layout, (0..4).map(Knot::Inner).collect::<Vec<_>>());
}

#[test]
fn layout_is_mirror_symmetric() {
    let layout = extend_grid_layout(3, 3).unwrap();
    let len = layout.len();
    assert_eq!(len, 9);
    for j in 0..len {
        if let Knot::Below(m) = layout[j] {
            assert_eq!(layout[len - 1 - j], Knot::Above(m));
        }
    }
}

#[test]
fn layout_rejects_rows_of_fewer_than_two_knots() {
    assert_eq!(extend_grid_layout(1, 3), Err(GridError::TooFewKnots { got: 1 }));
    assert_eq!(extend_grid_layout(0, 0), Err(GridError::TooFewKnots { got: 0 }));
    assert!(extend_grid_layout(2, 0).is_ok());
}
