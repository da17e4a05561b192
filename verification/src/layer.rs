//! A KAN layer: configuration, parameter shapes and trainability.
//!
//! A layer from `in_dim` inputs to `out_dim` outputs, with `num` grid intervals
//! and spline order `k`, holds five parameter tensors:
//!
//! | parameter    | shape                            | trainable          |
//! |--------------|----------------------------------|--------------------|
//! | `grid`       | `[in_dim, num + 1 + 2k]`         | never              |
//! | `coef`       | `[in_dim, out_dim, num + k]`     | always             |
//! | `scale_base` | `[in_dim, out_dim]`              | iff `sb_trainable` |
//! | `scale_sp`   | `[in_dim, out_dim]`              | iff `sp_trainable` |
//! | `mask`       | `[in_dim, out_dim]`              | never              |

use vstd::prelude::*;

verus! {

/// Default number of grid intervals of a single layer.
pub const DEFAULT_NUM: usize = 5;

/// Default spline order (cubic).
pub const DEFAULT_K: usize = 3;

/// Configuration of a KAN layer: its dimensions, the seed of its random
/// initialisation, its grid size and spline order, and which scale
/// parameters are trained.
#[derive(Clone, Copy, Debug, PartialEq, Eq, Structural)]
pub struct KanLayerConfig {
    /// Input dimension.
    pub in_dim: usize,
    /// Output dimension.
    pub out_dim: usize,
    /// Seed of the random initialisation.
    pub seed: u64,
    /// Number of grid intervals.
    pub num: usize,
    /// Spline order.
    pub k: usize,
    /// Whether `scale_sp` is trained.
    pub sp_trainable: bool,
    /// Whether `scale_base` is trained.
    pub sb_trainable: bool,
}

/// Shape and trainability of a two-dimensional parameter tensor.
#[derive(Clone, Copy, Debug, PartialEq, Eq)]
pub struct Param2 {
    pub dims: (usize, usize),
    pub require_grad: bool,
}

/// Shape and trainability of a three-dimensional parameter tensor.
#[derive(Clone, Copy, Debug, PartialEq, Eq)]
pub struct Param3 {
    pub dims: (usize, usize, usize),
    pub require_grad: bool,
}

/// The parameters of a KAN layer, each by its shape and trainability, and the
/// spline order.
#[derive(Clone, Copy, Debug, PartialEq, Eq)]
pub struct KanLayer {
    pub grid: Param2,
    pub coef: Param3,
    pub scale_base: Param2,
    pub scale_sp: Param2,
    pub mask: Param2,
    pub k: usize,
}

/// The shapes of five parameter tensors offered to build a layer from.
#[derive(Clone, Copy, Debug, PartialEq, Eq)]
pub struct PartShapes {
    pub grid: (usize, usize),
    pub coef: (usize, usize, usize),
    pub scale_base: (usize, usize),
    pub scale_sp: (usize, usize),
    pub mask: (usize, usize),
}

/// The first parameter tensor whose shape does not fit the configuration,
/// with the shape that was expected and the shape that was given.
#[derive(Clone, Copy, Debug, PartialEq, Eq)]
pub enum ShapeMismatch {
    Grid { expected: (usize, usize), got: (usize, usize) },
    Coef { expected: (usize, usize, usize), got: (usize, usize, usize) },
    ScaleBase { expected: (usize, usize), got: (usize, usize) },
    ScaleSp { expected: (usize, usize), got: (usize, usize) },
    Mask { expected: (usize, usize), got: (usize, usize) },
}

impl KanLayer {
    /// The shapes of the layer's five parameter tensors.
    pub open spec fn shapes(self) -> PartShapes {
        PartShapes {
            grid: self.grid.dims,
            coef: self.coef.dims,
            scale_base: self.scale_base.dims,
            scale_sp: self.scale_sp.dims,
            mask: self.mask.dims,
        }
    }
}

impl KanLayerConfig {
    /// Number of knots of the extended grid: `num + 1 + 2k`.
    pub open spec fn spec_knots(self) -> int {
        self.num + 1 + 2 * self.k
    }

    /// Number of B-spline basis functions: `num + k`.
    pub open spec fn spec_n_basis(self) -> int {
        self.num + self.k
    }

    /// The knot count fits in a `usize` (and so does the basis count).
    pub open spec fn fits(self) -> bool {
        self.spec_knots() <= usize::MAX
    }

    /// The layer that this configuration describes.
    pub open spec fn spec_layer(self) -> KanLayer {
        let i: usize = self.in_dim;
        let o: usize = self.out_dim;
        KanLayer {
            grid: Param2 { dims: (i, self.spec_knots() as usize), require_grad: false },
            coef: Param3 { dims: (i, o, self.spec_n_basis() as usize), require_grad: true },
            scale_base: Param2 { dims: (i, o), require_grad: self.sb_trainable },
            scale_sp: Param2 { dims: (i, o), require_grad: self.sp_trainable },
            mask: Param2 { dims: (i, o), require_grad: false },
            k: self.k,
        }
    }

    /// What building a layer from parts of the given shapes yields: the layer,
    /// or the first part, in the order grid, coef, scale_base, scale_sp, mask,
    /// whose shape differs from the layer's.
    pub open spec fn spec_from_parts(self, parts: PartShapes) -> Result<KanLayer, ShapeMismatch> {
        let l = self.spec_layer();
        if parts.grid != l.grid.dims {
            Err(ShapeMismatch::Grid { expected: l.grid.dims, got: parts.grid })
        } else if parts.coef != l.coef.dims {
            Err(ShapeMismatch::Coef { expected: l.coef.dims, got: parts.coef })
        } else if parts.scale_base != l.scale_base.dims {
            Err(ShapeMismatch::ScaleBase { expected: l.scale_base.dims, got: parts.scale_base })
        } else if parts.scale_sp != l.scale_sp.dims {
            Err(ShapeMismatch::ScaleSp { expected: l.scale_sp.dims, got: parts.scale_sp })
        } else if parts.mask != l.mask.dims {
            Err(ShapeMismatch::Mask { expected: l.mask.dims, got: parts.mask })
        } else {
            Ok(l)
        }
    }

    /// A configuration with the default grid size, spline order and
    /// trainability; the seed is required.
    pub fn new(in_dim: usize, out_dim: usize, seed: u64) -> (r: Self)
        ensures
            r == (KanLayerConfig {
                in_dim,
                out_dim,
                seed,
                num: DEFAULT_NUM,
                k: DEFAULT_K,
                sp_trainable: true,
                sb_trainable: true,
            }),
    {
        KanLayerConfig {
            in_dim,
            out_dim,
            seed,
            num: DEFAULT_NUM,
            k: DEFAULT_K,
            sp_trainable: true,
            sb_trainable: true,
        }
    }

    /// The same configuration with `num` grid intervals.
    pub fn with_num(self, num: usize) -> (r: Self)
        ensures
            r == (KanLayerConfig { num, ..self }),
    {
        KanLayerConfig { num, ..self }
    }

    /// The same configuration with spline order `k`.
    pub fn with_k(self, k: usize) -> (r: Self)
        ensures
            r == (KanLayerConfig { k, ..self }),
    {
        KanLayerConfig { k, ..self }
    }

    /// The same configuration with `scale_sp` trained or frozen.
    pub fn with_sp_trainable(self, sp_trainable: bool) -> (r: Self)
        ensures
            r == (KanLayerConfig { sp_trainable, ..self }),
    {
        KanLayerConfig { sp_trainable, ..self }
    }

    /// The same configuration with `scale_base` trained or frozen.
    pub fn with_sb_trainable(self, sb_trainable: bool) -> (r: Self)
        ensures
            r == (KanLayerConfig { sb_trainable, ..self }),
    {
        KanLayerConfig { sb_trainable, ..self }
    }

    /// Whether the knot count `num + 1 + 2k` fits in a `usize`.
    pub fn grid_fits(&self) -> (r: bool)
        ensures
            r == self.fits(),
    {
        self.k <= (usize::MAX - 1) / 2 && self.num <= usize::MAX - 1 - 2 * self.k
    }

    /// Number of knots of the extended grid: `num + 1 + 2k`.
    pub fn knots(&self) -> (r: usize)
        requires
            self.fits(),
        ensures
            r == self.spec_knots(),
    {
        self.num + 1 + 2 * self.k
    }

    /// Number of B-spline basis functions: `num + k`.
    pub fn n_basis(&self) -> (r: usize)
        requires
            self.fits(),
        ensures
            r == self.spec_n_basis(),
    {
        self.num + self.k
    }

    /// The shapes and trainability of a freshly initialised layer.
    pub fn init(&self) -> (r: KanLayer)
        requires
            self.fits(),
        ensures
            r == self.spec_layer(),
            r.k == self.k,
            r.grid.dims == (self.in_dim, (self.num + 1 + 2 * self.k) as usize),
            r.coef.dims == (self.in_dim, self.out_dim, (self.num + self.k) as usize),
            r.scale_base.dims == (self.in_dim, self.out_dim),
            r.scale_sp.dims == (self.in_dim, self.out_dim),
            r.mask.dims == (self.in_dim, self.out_dim),
    {
        let i: usize = self.in_dim;
        let o: usize = self.out_dim;
        KanLayer {
            grid: Param2 { dims: (i, self.knots()), require_grad: false },
            coef: Param3 { dims: (i, o, self.n_basis()), require_grad: true },
            scale_base: Param2 { dims: (i, o), require_grad: self.sb_trainable },
            scale_sp: Param2 { dims: (i, o), require_grad: self.sp_trainable },
            mask: Param2 { dims: (i, o), require_grad: false },
            k: self.k,
        }
    }

    /// Builds a layer from existing parameter tensors of the given shapes.
    /// Each shape is checked against `(in_dim, out_dim, num, k)`; the first
    /// part that does not fit is reported. The grid and the mask are frozen,
    /// `coef` is trained, and the two scales follow the trainability flags.
    pub fn init_from_parts(&self, parts: PartShapes) -> (r: Result<KanLayer, ShapeMismatch>)
        requires
            self.fits(),
        ensures
            r == self.spec_from_parts(parts),
            r matches Ok(l) ==> l.k == self.k && l == self.spec_layer(),
    {
        let l = self.init();
        if parts.grid.0 != l.grid.dims.0 || parts.grid.1 != l.grid.dims.1 {
            return Err(ShapeMismatch::Grid { expected: l.grid.dims, got: parts.grid });
        }
        if parts.coef.0 != l.coef.dims.0 || parts.coef.1 != l.coef.dims.1
            || parts.coef.2 != l.coef.dims.2 {
            return Err(ShapeMismatch::Coef { expected: l.coef.dims, got: parts.coef });
        }
        if parts.scale_base.0 != l.scale_base.dims.0 || parts.scale_base.1 != l.scale_base.dims.1 {
            return Err(
                ShapeMismatch::ScaleBase { expected: l.scale_base.dims, got: parts.scale_base },
            );
        }
        if parts.scale_sp.0 != l.scale_sp.dims.0 || parts.scale_sp.1 != l.scale_sp.dims.1 {
            return Err(ShapeMismatch::ScaleSp { expected: l.scale_sp.dims, got: parts.scale_sp });
        }
        if parts.mask.0 != l.mask.dims.0 || parts.mask.1 != l.mask.dims.1 {
            return Err(ShapeMismatch::Mask { expected: l.mask.dims, got: parts.mask });
        }
        Ok(l)
    }
}

/// Building from parts succeeds exactly on the shapes of a freshly initialised
/// layer, and then yields that layer: the load path and the init path agree on
/// every shape and every trainability flag.
pub proof fn lemma_from_parts_agrees_with_init(cfg: KanLayerConfig, parts: PartShapes)
    requires
        cfg.fits(),
    ensures
        cfg.spec_from_parts(parts) is Ok <==> parts == cfg.spec_layer().shapes(),
        cfg.spec_from_parts(parts) matches Ok(l) ==> l == cfg.spec_layer(),
        cfg.spec_from_parts(cfg.spec_layer().shapes()) == Ok::<KanLayer, ShapeMismatch>(
            cfg.spec_layer(),
        ),
{
}

/// The seed only drives random initialisation: building from parts does not
/// depend on it.
pub proof fn lemma_from_parts_ignores_seed(cfg: KanLayerConfig, parts: PartShapes, seed: u64)
    requires
        cfg.fits(),
    ensures
        (KanLayerConfig { seed, ..cfg }).spec_from_parts(parts) == cfg.spec_from_parts(parts),
{
}

/// A layer carries the spline order of its configuration, and its tensor
/// shapes are `[in, num + 1 + 2k]`, `[in, out, num + k]` and `[in, out]`.
pub proof fn lemma_layer_carries_config(cfg: KanLayerConfig)
    requires
        cfg.fits(),
    ensures
        cfg.spec_layer().k == cfg.k,
        cfg.spec_layer().grid.dims == (cfg.in_dim, (cfg.num + 1 + 2 * cfg.k) as usize),
        cfg.spec_layer().coef.dims == (cfg.in_dim, cfg.out_dim, (cfg.num + cfg.k) as usize),
        cfg.spec_layer().scale_base.dims == (cfg.in_dim, cfg.out_dim),
        cfg.spec_layer().scale_sp.dims == (cfg.in_dim, cfg.out_dim),
        cfg.spec_layer().mask.dims == (cfg.in_dim, cfg.out_dim),
        forall|parts: PartShapes|
            #[trigger] cfg.spec_from_parts(parts) matches Ok(l) ==> l.k == cfg.k,
{
}

/// The grid and the mask are never trained, `coef` always is, and the scales
/// are trained exactly as the configuration says.
pub proof fn lemma_trainability(cfg: KanLayerConfig)
    ensures
        !cfg.spec_layer().grid.require_grad,
        !cfg.spec_layer().mask.require_grad,
        cfg.spec_layer().coef.require_grad,
        cfg.spec_layer().scale_base.require_grad == cfg.sb_trainable,
        cfg.spec_layer().scale_sp.require_grad == cfg.sp_trainable,
{
}

/// The extended grid has exactly `k` more knots on each side than the
/// `num + 1` knots of the uniform grid, and one knot more than there are
/// basis functions plus spline order: `knots = n_basis + k + 1`.
pub proof fn lemma_knots_and_basis(cfg: KanLayerConfig)
    requires
        cfg.fits(),
    ensures
        cfg.spec_layer().grid.dims.1 == (cfg.num + 1) + 2 * cfg.k,
        cfg.spec_layer().grid.dims.1 == cfg.spec_layer().coef.dims.2 + cfg.k + 1,
{
}

} // verus!
