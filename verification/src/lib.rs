//! Shape, layout and decision logic of Kolmogorov-Arnold network (KAN) layers:
//! extended spline grids, layer parameter shapes and trainability, multi-layer
//! stacking, the ridge schedule of the Cholesky solver, and the argument checks
//! of the Python-facing constructors.

pub mod checks;
pub mod kan;
pub mod layer;
pub mod linalg;
pub mod spline;

pub use checks::{check_device, check_grad_shape, check_input_dim};
pub use kan::{Kan, KanConfig, KanConfigError};
pub use layer::{KanLayer, KanLayerConfig, PartShapes, ShapeMismatch};
pub use spline::{extend_grid_layout, GridError, Knot};
