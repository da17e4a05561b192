//! Argument checks of the Python-facing constructors and forward passes.

use rskan::checks::{GradShapeMismatch, InputDimMismatch};
use rskan::{check_device, check_grad_shape, check_input_dim};

#[test]
fn only_cpu_is_a_supported_device() {
    assert!(check_device("cpu").is_ok());
    let err = check_device("cuda:0").unwrap_err();
    assert_eq!(err.device, "cuda:0");
    assert!(check_device("CPU").is_err());
    assert!(check_device("").is_err());
}

#[test]
fn input_width_must_match_model() {
    assert_eq!(check_input_dim((8, 21), 21), Ok(()));
    assert_eq!(check_input_dim((8, 20), 21), Err(InputDimMismatch { got: 20, expected: 21 }));
}

#[test]
fn upstream_gradient_must_match_output_shape() {
    assert_eq!(check_grad_shape((6, 2), 6, 2), Ok(()));
    assert_eq!(
        check_grad_shape((2, 6), 6, 2),
        Err(GradShapeMismatch { got: (2, 6), expected: (6, 2) })
    );
}
