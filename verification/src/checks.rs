//! Argument checks of the Python-facing layer and network: the device, the
//! width of an input batch, and the shape of an upstream gradient.

use vstd::prelude::*;

verus! {

/// A device other than `"cpu"` was asked for.
#[derive(Clone, Debug, PartialEq, Eq)]
pub struct UnsupportedDevice {
    pub device: String,
}

/// An input batch whose width differs from the model's input dimension.
#[derive(Clone, Copy, Debug, PartialEq, Eq, Structural)]
pub struct InputDimMismatch {
    pub got: usize,
    pub expected: usize,
}

/// An upstream gradient whose shape differs from the output's `[batch, out_dim]`.
#[derive(Clone, Copy, Debug, PartialEq, Eq)]
pub struct GradShapeMismatch {
    pub got: (usize, usize),
    pub expected: (usize, usize),
}

/// Only the CPU device is available.
pub fn check_device(device: &str) -> (r: Result<(), UnsupportedDevice>)
    ensures
        r is Ok <==> device@ == "cpu"@,
        r matches Err(e) ==> e.device@ == device@,
{
    let given = device.to_owned();
    let cpu = "cpu".to_owned();
    if given == cpu {
        Ok(())
    } else {
        Err(UnsupportedDevice { device: given })
    }
}

/// An input batch `[batch, width]` must be as wide as the model's input.
pub fn check_input_dim(x_dims: (usize, usize), model_in: usize) -> (r: Result<
    (),
    InputDimMismatch,
>)
    ensures
        r is Ok <==> x_dims.1 == model_in,
        r matches Err(e) ==> e == (InputDimMismatch { got: x_dims.1, expected: model_in }),
{
    if x_dims.1 == model_in {
        Ok(())
    } else {
        Err(InputDimMismatch { got: x_dims.1, expected: model_in })
    }
}

/// An upstream gradient must have the shape `[batch, out_dim]` of the output.
pub fn check_grad_shape(grad_dims: (usize, usize), batch: usize, out_dim: usize) -> (r: Result<
    (),
    GradShapeMismatch,
>)
    ensures
        r is Ok <==> grad_dims == (batch, out_dim),
        r matches Err(e) ==> e == (GradShapeMismatch { got: grad_dims, expected: (batch, out_dim) }),
{
    if grad_dims.0 == batch && grad_dims.1 == out_dim {
        Ok(())
    } else {
        Err(GradShapeMismatch { got: grad_dims, expected: (batch, out_dim) })
    }
}

} // verus!
