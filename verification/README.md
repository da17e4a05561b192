# rskan

Kolmogorov-Arnold network (KAN) layers: B-spline edge activations on the
edges of a `[in_dim, out_dim]` layer, stacked into multi-layer networks.

- `src/` is the verified library (Verus). It holds everything about a KAN
  that is not floating-point arithmetic:
  - `spline`: the column layout of an extended grid (ghost knots below and
    above each row);
  - `layer`: layer configuration, the shapes and trainability of the five
    parameter tensors, and the shape checks of building a layer from parts;
  - `kan`: multi-layer configuration, its checks and its layer plan (widths
    and per-layer sub-seeds);
  - `linalg`: the shape checks of the Cholesky solver and its adaptive ridge
    schedule;
  - `checks`: the device, input-width and gradient-shape checks of the
    Python-facing API.
- `app/` holds the f32 work around it, on Burn and ndarray tensors: grid
  values, the Cox–de Boor basis, the coefficient fit, the Cholesky kernels,
  seeded sampling, the forward pass, and the PyO3 bindings.
- `tests/` exercises the library on concrete values.
