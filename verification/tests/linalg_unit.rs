//! Shape checks and the ridge schedule of the Cholesky solver, exercised with
//! an f32 Cholesky factorisation that follows the schedule's decisions.

use rskan::linalg::{
    check_solve_shapes, ridge_multiplier, ridge_step, RidgeStep, SolveShapeError, RIDGE_ATTEMPTS,
};

type Mat = Vec<Vec<f32>>;

fn try_cholesky_in_place(a: &mut Mat) -> Result<(), (usize, f32)> {
    let n = a.len();
    for j in 0..n {
        let mut diag = a[j][j];
        for k in 0..j {
            diag -= a[j][k] * a[j][k];
        }
        if diag <= 0.0 {
            return Err((j, diag));
        }
        let ljj = diag.sqrt();
        a[j][j] = ljj;
        for i in (j + 1)..n {
            let mut s = a[i][j];
            for k in 0..j {
                s -= a[i][k] * a[j][k];
            }
            a[i][j] = s / ljj;
        }
    }
    for i in 0..n {
        for j in (i + 1)..n {
            a[i][j] = 0.0;
        }
    }
    Ok(())
}

fn substitute(l: &Mat, b: &Mat) -> Mat {
    let n = l.len();
    let m = b[0].len();
    let mut y = b.clone();
    for col in 0..m {
        for i in 0..n {
            let mut s = y[i][col];
            for k in 0..i {
                s -= l[i][k] * y[k][col];
            }
            y[i][col] = s / l[i][i];
        }
        for i in (0..n).rev() {
            let mut s = y[i][col];
            for k in (i + 1)..n {
                s -= l[k][i] * y[k][col];
            }
            y[i][col] = s / l[i][i];
        }
    }
    y
}

fn shape(m: &Mat) -> (usize, usize) {
    (m.len(), m.first().map_or(0, |r| r.len()))
}

fn cholesky_solve(a: &Mat, b: &Mat) -> Mat {
    check_solve_shapes(shape(a), shape(b)).expect("shapes");
    let mut l = a.clone();
    try_cholesky_in_place(&mut l).expect("SPD");
    substitute(&l, b)
}

/// Returns the solution and the attempt whose ridge was used.
fn cholesky_solve_robust(a: &Mat, b: &Mat, base_ridge: f32) -> (Mat, usize) {
    let n = check_solve_shapes(shape(a), shape(b)).expect("shapes");
    let mut attempt = 0;
    loop {
        let ridge = base_ridge * ridge_multiplier(attempt) as f32;
        let mut l = a.clone();
        for i in 0..n {
            l[i][i] += ridge;
        }
        let factored = try_cholesky_in_place(&mut l).is_ok();
        match ridge_step(attempt, factored) {
            RidgeStep::Accept { escalated } => {
                assert_eq!(escalated, attempt > 0);
                return (substitute(&l, b), attempt);
            }
            RidgeStep::Retry { attempt: next } => attempt = next,
            RidgeStep::GiveUp => panic!("matrix non-SPD even at the largest ridge"),
        }
    }
}

fn close(a: f32, b: f32, eps: f32) -> bool {
    (a - b).abs() <= eps
}

#[test]
fn cholesky_solve_2x2_spd() {
    let a = vec![vec![4.0, 2.0], vec![2.0, 5.0]];
    let b = vec![vec![8.0], vec![12.0]];
    let x = cholesky_solve(&a, &b);
    assert_eq!(shape(&x), (2, 1));
    assert!(close(x[0][0], 1.0, 1e-5));
    assert!(close(x[1][0], 2.0, 1e-5));
}

#[test]
fn cholesky_solve_multiple_rhs() {
    let a = vec![vec![4.0, 2.0], vec![2.0, 5.0]];
    let b = vec![vec![8.0, 2.0], vec![12.0, 5.0]];
    let x = cholesky_solve(&a, &b);
    assert_eq!(shape(&x), (2, 2));
    assert!(close(x[0][0], 1.0, 1e-5));
    assert!(close(x[1][0], 2.0, 1e-5));
    assert!(close(x[0][1], 0.0, 1e-5));
    assert!(close(x[1][1], 1.0, 1e-5));
}

#[test]
fn cholesky_solve_3x3_identity_rhs() {
    let a = vec![vec![1.0, 0.0, 0.0], vec![0.0, 4.0, 0.0], vec![0.0, 0.0, 9.0]];
    let b = vec![vec![1.0], vec![4.0], vec![9.0]];
    let x = cholesky_solve(&a, &b);
    for i in 0..3 {
        assert!(close(x[i][0], 1.0, 1e-5));
    }
}

#[test]
fn cholesky_solve_robust_handles_rank_deficient_matrix() {
    let a = vec![vec![1.0_f32, 1.0], vec![1.0, 1.0]];
    let b = vec![vec![1.0_f32], vec![1.0]];
    let (x, _attempt) = cholesky_solve_robust(&a, &b, 1e-8);
    assert_eq!(shape(&x), (2, 1));
    for row in &x {
        for &v in row {
            assert!(v.is_finite(), "robust solve produced non-finite element: {v}");
        }
    }
    let residual: f32 = (0..2)
        .map(|i| (a[i][0] * x[0][0] + a[i][1] * x[1][0] - b[i][0]).abs())
        .sum();
    assert!(residual < 1e-1, "(A + λI) x ≈ b residual too large: {residual}");
}

#[test]
fn cholesky_solve_robust_matches_plain_on_well_conditioned() {
    let a = vec![vec![4.0_f32, 1.0, 0.0], vec![1.0, 3.0, 1.0], vec![0.0, 1.0, 2.0]];
    let b = vec![vec![1.0_f32], vec![2.0], vec![3.0]];
    let mut a_ridge = a.clone();
    for i in 0..3 {
        a_ridge[i][i] += 1e-8;
    }
    let plain = cholesky_solve(&a_ridge, &b);
    let (robust, attempt) = cholesky_solve_robust(&a, &b, 1e-8);
    assert_eq!(attempt, 0);
    for (p, r) in plain.iter().zip(robust.iter()) {
        let diff = (p[0] - r[0]).abs();
        assert!(diff < 1e-6, "robust drifted from plain: |{} - {}| = {diff}", p[0], r[0]);
    }
}

#[test]
fn solve_shapes_are_checked() {
    assert_eq!(check_solve_shapes((3, 3), (3, 2)), Ok(3));
    assert_eq!(
        check_solve_shapes((3, 2), (3, 1)),
        Err(SolveShapeError::NotSquare { rows: 3, cols: 2 })
    );
    assert_eq!(
        check_solve_shapes((2, 2), (3, 1)),
        Err(SolveShapeError::RhsRows { expected: 2, got: 3 })
    );
}

#[test]
fn ridge_multipliers_grow_by_a_hundred() {
    assert_eq!(RIDGE_ATTEMPTS, 4);
    let m: Vec<u32> = (0..RIDGE_ATTEMPTS).map(ridge_multiplier).collect();
    assert_eq!(m, vec![1, 100, 10_000, 1_000_000]);
}

#[test]
fn ridge_steps_accept_retry_and_give_up() {
    assert_eq!(ridge_step(0, true), RidgeStep::Accept { escalated: false });
    assert_eq!(ridge_step(2, true), RidgeStep::Accept { escalated: true });
    assert_eq!(ridge_step(0, false), RidgeStep::Retry { attempt: 1 });
    assert_eq!(ridge_step(2, false), RidgeStep::Retry { attempt: 3 });
    assert_eq!(ridge_step(3, false), RidgeStep::GiveUp);
}

#[test]
fn ridge_run_stops_at_first_success() {
    // Outcome of each attempt; the run follows ridge_step from attempt 0.
    let run = |outcomes: [bool; 4]| -> Option<usize> {
        let mut attempt = 0;
        loop {
            match ridge_step(attempt, outcomes[attempt]) {
                RidgeStep::Accept { .. } => return Some(attempt),
                RidgeStep::Retry { attempt: next } => attempt = next,
                RidgeStep::GiveUp => return None,
            }
        }
    };
    assert_eq!(run([true, true, true, true]), Some(0));
    assert_eq!(run([false, false, true, true]), Some(2));
    assert_eq!(run([false, false, false, true]), Some(3));
    assert_eq!(run([false, false, false, false]), None);
}
