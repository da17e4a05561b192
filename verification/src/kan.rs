//! A multi-layer KAN: a sequential stack of layers, one between each pair of
//! consecutive widths. Layer `l` maps `widths[l]` inputs to `widths[l + 1]`
//! outputs and is seeded with `seed + l` (wrapping).

use vstd::prelude::*;
use crate::layer::{KanLayer, KanLayerConfig};

verus! {

/// Default number of grid intervals of a multi-layer network.
pub const DEFAULT_GRID: usize = 3;

/// Default spline order of a multi-layer network.
pub const DEFAULT_K: usize = 3;

/// Configuration of a multi-layer KAN.
#[derive(Clone, Debug, PartialEq, Eq)]
pub struct KanConfig {
    /// Widths from input to output; `widths.len() - 1` layers.
    pub widths: Vec<usize>,
    /// Seed of the first layer; layer `l` is seeded with `seed + l`, wrapping.
    pub seed: u64,
    /// Number of grid intervals of every layer.
    pub grid: usize,
    /// Spline order of every layer.
    pub k: usize,
    /// Whether every layer trains `scale_sp`.
    pub sp_trainable: bool,
    /// Whether every layer trains `scale_base`.
    pub sb_trainable: bool,
}

/// Why a multi-layer configuration cannot be built.
#[derive(Clone, Copy, Debug, PartialEq, Eq, Structural)]
pub enum KanConfigError {
    /// Fewer than two widths: no layer.
    TooFewWidths { got: usize },
    /// Spline order zero.
    ZeroK,
    /// Zero grid intervals.
    ZeroGrid,
}

/// A multi-layer KAN: its layers, applied in order.
#[derive(Clone, Debug, PartialEq, Eq)]
pub struct Kan {
    pub layers: Vec<KanLayer>,
}

/// Seed of layer `l` of a stack seeded with `seed`: `seed + l`, wrapping at 2^64.
pub open spec fn sub_seed(seed: u64, l: int) -> u64 {
    if seed + l > u64::MAX {
        (seed + l - 0x1_0000_0000_0000_0000) as u64
    } else {
        (seed + l) as u64
    }
}

impl KanConfig {
    /// Number of layers: one fewer than the widths.
    pub open spec fn spec_num_layers(self) -> int {
        self.widths@.len() - 1
    }

    /// Configuration of layer `l`.
    pub open spec fn spec_layer_config(self, l: int) -> KanLayerConfig {
        KanLayerConfig {
            in_dim: self.widths@[l],
            out_dim: self.widths@[l + 1],
            seed: sub_seed(self.seed, l),
            num: self.grid,
            k: self.k,
            sp_trainable: self.sp_trainable,
            sb_trainable: self.sb_trainable,
        }
    }

    /// The layers of the stack.
    pub open spec fn spec_layers(self) -> Seq<KanLayer> {
        Seq::new(
            (self.widths@.len() - 1) as nat,
            |l: int| self.spec_layer_config(l).spec_layer(),
        )
    }

    /// The grid and spline order fit every layer's knot count in a `usize`.
    pub open spec fn fits(self) -> bool {
        self.grid + 1 + 2 * self.k <= usize::MAX
    }

    /// What building the stack yields: the first failing check, in the order
    /// widths, spline order, grid size, or the layers.
    pub open spec fn spec_init(self) -> Result<Seq<KanLayer>, KanConfigError> {
        if self.widths@.len() < 2 {
            Err(KanConfigError::TooFewWidths { got: self.widths@.len() as usize })
        } else if self.k < 1 {
            Err(KanConfigError::ZeroK)
        } else if self.grid < 1 {
            Err(KanConfigError::ZeroGrid)
        } else {
            Ok(self.spec_layers())
        }
    }

    /// A configuration with the default grid size, spline order and
    /// trainability; the widths and the seed are required.
    pub fn new(widths: Vec<usize>, seed: u64) -> (r: Self)
        ensures
            r == (KanConfig {
                widths,
                seed,
                grid: DEFAULT_GRID,
                k: DEFAULT_K,
                sp_trainable: true,
                sb_trainable: true,
            }),
    {
        KanConfig {
            widths,
            seed,
            grid: DEFAULT_GRID,
            k: DEFAULT_K,
            sp_trainable: true,
            sb_trainable: true,
        }
    }

    /// The same configuration with `grid` intervals per layer.
    pub fn with_grid(self, grid: usize) -> (r: Self)
        ensures
            r == (KanConfig { grid, ..self }),
    {
        KanConfig { grid, ..self }
    }

    /// The same configuration with spline order `k`.
    pub fn with_k(self, k: usize) -> (r: Self)
        ensures
            r == (KanConfig { k, ..self }),
    {
        KanConfig { k, ..self }
    }

    /// The same configuration with `scale_sp` trained or frozen in every layer.
    pub fn with_sp_trainable(self, sp_trainable: bool) -> (r: Self)
        ensures
            r == (KanConfig { sp_trainable, ..self }),
    {
        KanConfig { sp_trainable, ..self }
    }

    /// The same configuration with `scale_base` trained or frozen in every layer.
    pub fn with_sb_trainable(self, sb_trainable: bool) -> (r: Self)
        ensures
            r == (KanConfig { sb_trainable, ..self }),
    {
        KanConfig { sb_trainable, ..self }
    }

    /// Whether every layer's knot count `grid + 1 + 2k` fits in a `usize`.
    pub fn grid_fits(&self) -> (r: bool)
        ensures
            r == self.fits(),
    {
        self.k <= (usize::MAX - 1) / 2 && self.grid <= usize::MAX - 1 - 2 * self.k
    }

    /// Configuration of layer `l`: widths `l` and `l + 1`, seed `seed + l`
    /// (wrapping), and the stack's grid size, spline order and trainability.
    pub fn layer_config(&self, l: usize) -> (r: KanLayerConfig)
        requires
            l + 1 < self.widths@.len(),
        ensures
            r == self.spec_layer_config(l as int),
            r.seed as int == (self.seed as int + l as int) % 0x1_0000_0000_0000_0000,
            r.in_dim == self.widths@[l as int],
            r.out_dim == self.widths@[l as int + 1],
            r.num == self.grid,
            r.k == self.k,
    {
        proof {
            assert(self.widths.len() == self.widths@.len());
        }
        KanLayerConfig::new(self.widths[l], self.widths[l + 1], self.seed.wrapping_add(l as u64))
            .with_num(self.grid)
            .with_k(self.k)
            .with_sp_trainable(self.sp_trainable)
            .with_sb_trainable(self.sb_trainable)
    }

    /// Builds the stack: one layer per pair of consecutive widths. Needs at
    /// least two widths, a spline order of at least one and at least one grid
    /// interval.
    pub fn init(&self) -> (r: Result<Kan, KanConfigError>)
        requires
            self.fits(),
        ensures
            r matches Err(e) ==> self.spec_init() == Err::<Seq<KanLayer>, KanConfigError>(e),
            r matches Ok(kan) ==> self.spec_init() == Ok::<Seq<KanLayer>, KanConfigError>(
                kan.layers@,
            ),
            r is Ok <==> (self.widths@.len() >= 2 && self.k >= 1 && self.grid >= 1),
            r == Err::<Kan, KanConfigError>(KanConfigError::ZeroK) <==> (self.widths@.len() >= 2
                && self.k == 0),
            r matches Ok(kan) ==> kan.layers@.len() == self.widths@.len() - 1,
            r matches Ok(kan) ==> forall|l: int|
                0 <= l < kan.layers@.len() ==> (#[trigger] kan.layers@[l]).k == self.k
                    && kan.layers@[l].grid.dims.0 == self.widths@[l]
                    && kan.layers@[l].coef.dims.1 == self.widths@[l + 1],
    {
        let n: usize = self.widths.len();
        if n < 2 {
            return Err(KanConfigError::TooFewWidths { got: n });
        }
        if self.k < 1 {
            return Err(KanConfigError::ZeroK);
        }
        if self.grid < 1 {
            return Err(KanConfigError::ZeroGrid);
        }
        let mut layers: Vec<KanLayer> = Vec::new();
        let mut l: usize = 0;
        while l + 1 < n
            invariant
                n == self.widths@.len(),
                n >= 2,
                self.fits(),
                l + 1 <= n,
                layers@.len() == l,
                forall|j: int| 0 <= j < l ==> #[trigger] layers@[j] == self.spec_layer_config(
                    j,
                ).spec_layer(),
            decreases n - l,
        {
            let cfg = self.layer_config(l);
            layers.push(cfg.init());
            l = l + 1;
        }
        assert(layers@ =~= self.spec_layers());
        Ok(Kan { layers })
    }
}

/// Building a stack fails only on fewer than two widths, a zero spline order
/// or zero grid intervals, in that order of precedence; every other
/// configuration, of any spline order `k >= 1`, gives one layer per pair of
/// widths, each with the stack's spline order.
pub proof fn lemma_init_fails_only_on_degenerate_config(cfg: KanConfig)
    ensures
        cfg.spec_init() is Ok <==> (cfg.widths@.len() >= 2 && cfg.k >= 1 && cfg.grid >= 1),
        cfg.widths@.len() < 2 ==> cfg.spec_init() == Err::<Seq<KanLayer>, KanConfigError>(
            KanConfigError::TooFewWidths { got: cfg.widths@.len() as usize },
        ),
        cfg.widths@.len() >= 2 && cfg.k == 0 ==> cfg.spec_init() == Err::<
            Seq<KanLayer>,
            KanConfigError,
        >(KanConfigError::ZeroK),
        cfg.widths@.len() >= 2 && cfg.k >= 1 && cfg.grid == 0 ==> cfg.spec_init() == Err::<
            Seq<KanLayer>,
            KanConfigError,
        >(KanConfigError::ZeroGrid),
        cfg.spec_init() matches Ok(layers) ==> layers.len() == cfg.widths@.len() - 1 && forall|
            l: int,
        | 0 <= l < layers.len() ==> (#[trigger] layers[l]).k == cfg.k,
{
}

/// The seed of layer `l` is `(seed + l) mod 2^64`, and its widths are
/// `widths[l]` and `widths[l + 1]`.
pub proof fn lemma_layer_seed_is_seed_plus_index(cfg: KanConfig, l: int)
    requires
        0 <= l < cfg.spec_num_layers(),
    ensures
        cfg.spec_layer_config(l).seed as int == (cfg.seed as int + l) % 0x1_0000_0000_0000_0000,
        cfg.spec_layer_config(l).in_dim == cfg.widths@[l],
        cfg.spec_layer_config(l).out_dim == cfg.widths@[l + 1],
{
    assert(cfg.widths.len() == cfg.widths@.len());
    let m: int = 0x1_0000_0000_0000_0000;
    let x: int = cfg.seed as int + l;
    assert(0 <= x < 2 * m);
    if x < m {
        assert(x % m == x) by (nonlinear_arith)
            requires
                0 <= x < m,
                m > 0,
        ;
    } else {
        assert(x % m == x - m) by (nonlinear_arith)
            requires
                m <= x < 2 * m,
                m > 0,
        ;
    }
}

/// The layers of a stack compose: each layer's output dimension is the next
/// layer's input dimension, the first layer reads `widths[0]` inputs and the
/// last layer writes `widths[last]` outputs.
pub proof fn lemma_layers_compose(cfg: KanConfig)
    requires
        cfg.widths@.len() >= 2,
        cfg.fits(),
    ensures
        cfg.spec_layers().len() == cfg.widths@.len() - 1,
        forall|l: int|
            0 <= l < cfg.spec_layers().len() - 1 ==> (#[trigger] cfg.spec_layers()[l]).coef.dims.1
                == cfg.spec_layers()[l + 1].grid.dims.0,
        cfg.spec_layers()[0].grid.dims.0 == cfg.widths@[0],
        cfg.spec_layers().last().coef.dims.1 == cfg.widths@.last(),
{
}

/// Every layer of a stack is seeded differently: the wrapping sub-seeds
/// `seed + l` of distinct layers never collide.
pub proof fn lemma_sub_seeds_distinct(cfg: KanConfig, l1: int, l2: int)
    requires
        0 <= l1 < cfg.spec_num_layers(),
        0 <= l2 < cfg.spec_num_layers(),
        l1 != l2,
    ensures
        cfg.spec_layer_config(l1).seed != cfg.spec_layer_config(l2).seed,
{
    assert(cfg.widths.len() == cfg.widths@.len());
}

/// Layer `l` of a stack is the layer that a single-layer configuration with
/// widths `l` and `l + 1`, seed `seed + l`, and the stack's grid size, spline
/// order and trainability describes.
pub proof fn lemma_layer_is_single_layer(cfg: KanConfig, l: int)
    requires
        0 <= l < cfg.spec_num_layers(),
        cfg.fits(),
    ensures
        cfg.spec_layers()[l] == (KanLayerConfig {
            in_dim: cfg.widths@[l],
            out_dim: cfg.widths@[l + 1],
            seed: sub_seed(cfg.seed, l),
            num: cfg.grid,
            k: cfg.k,
            sp_trainable: cfg.sp_trainable,
            sb_trainable: cfg.sb_trainable,
        }).spec_layer(),
{
}

} // verus!
