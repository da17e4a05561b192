//! Layout of the extended B-spline grid.
//!
//! A grid row of `n` uniformly spaced knots `lo = g[0] < ... < g[n-1] = hi`
//! is extended by `k` ghost knots on each side, spaced by
//! `h = (hi - lo) / (n - 1)`. The row becomes
//! `[lo - k·h, ..., lo - h, g[0], ..., g[n-1], hi + h, ..., hi + k·h]`.
//! This module decides, column by column, where each extended knot comes from.

use vstd::prelude::*;

verus! {

/// Where one column of an extended grid row takes its value from.
#[derive(Clone, Copy, Debug, PartialEq, Eq, Structural)]
pub enum Knot {
    /// `lo - m·h`: the ghost knot `m` spacings below the first input knot.
    Below(usize),
    /// The input knot at this column of the input row.
    Inner(usize),
    /// `hi + m·h`: the ghost knot `m` spacings above the last input knot.
    Above(usize),
}

/// Why a grid row cannot be extended.
#[derive(Clone, Copy, Debug, PartialEq, Eq, Structural)]
pub enum GridError {
    /// A row needs at least two knots to define the spacing `h`.
    TooFewKnots { got: usize },
}

/// Source of column `j` of a row of `n` knots extended by `k` ghost knots per side.
pub open spec fn knot_at(n: usize, k: usize, j: int) -> Knot {
    if j < k {
        Knot::Below((k - j) as usize)
    } else if j < k + n {
        Knot::Inner((j - k) as usize)
    } else {
        Knot::Above((j - k - n + 1) as usize)
    }
}

/// The whole extended row: `n + 2k` columns.
pub open spec fn extended_layout(n: usize, k: usize) -> Seq<Knot> {
    Seq::new((n + 2 * k) as nat, |j: int| knot_at(n, k, j))
}

/// Layout of a grid row of `n` knots extended by `k_extend` ghost knots on each
/// side. Every row of the grid shares it; the extended grid has `n + 2·k_extend`
/// columns. Fails on rows with fewer than two knots.
pub fn extend_grid_layout(n: usize, k_extend: usize) -> (r: Result<Vec<Knot>, GridError>)
    requires
        n + 2 * k_extend <= usize::MAX,
    ensures
        r is Err <==> n < 2,
        r matches Err(e) ==> e == (GridError::TooFewKnots { got: n }),
        r matches Ok(v) ==> v@ == extended_layout(n, k_extend),
        r matches Ok(v) ==> {
            &&& v@.len() == n + 2 * k_extend
            &&& forall|j: int| 0 <= j < k_extend ==> #[trigger] v@[j] == Knot::Below((k_extend - j) as usize)
            &&& forall|j: int| 0 <= j < n ==> #[trigger] v@[k_extend + j] == Knot::Inner(j as usize)
            &&& forall|j: int| 0 <= j < k_extend ==> #[trigger] v@[k_extend + n + j] == Knot::Above((j + 1) as usize)
        },
{
    if n < 2 {
        return Err(GridError::TooFewKnots { got: n });
    }
    let mut out: Vec<Knot> = Vec::new();
    let mut j: usize = 0;
    while j < k_extend
        invariant
            j <= k_extend,
            n + 2 * k_extend <= usize::MAX,
            out@.len() == j,
            forall|c: int| 0 <= c < j ==> #[trigger] out@[c] == knot_at(n, k_extend, c),
        decreases k_extend - j,
    {
        out.push(Knot::Below(k_extend - j));
        j = j + 1;
    }
    let mut j: usize = 0;
    while j < n
        invariant
            j <= n,
            n + 2 * k_extend <= usize::MAX,
            out@.len() == k_extend + j,
            forall|c: int| 0 <= c < k_extend + j ==> #[trigger] out@[c] == knot_at(n, k_extend, c),
        decreases n - j,
    {
        out.push(Knot::Inner(j));
        j = j + 1;
    }
    let mut j: usize = 0;
    while j < k_extend
        invariant
            j <= k_extend,
            n + 2 * k_extend <= usize::MAX,
            out@.len() == k_extend + n + j,
            forall|c: int| 0 <= c < k_extend + n + j ==> #[trigger] out@[c] == knot_at(n, k_extend, c),
        decreases k_extend - j,
    {
        out.push(Knot::Above(j + 1));
        j = j + 1;
    }
    assert(out@ =~= extended_layout(n, k_extend));
    Ok(out)
}

/// The ghost knots run outward in order: column `j < k` is the knot `k - j`
/// spacings below the row, column `k + j` is input knot `j`, and column
/// `k + n + j` is the knot `j + 1` spacings above the row. With spacing
/// `h > 0` the extended row is therefore strictly increasing: each column lies
/// exactly one spacing above the one before it.
pub proof fn lemma_ghost_knots_run_outward(n: usize, k: usize)
    requires
        n + 2 * k <= usize::MAX,
    ensures
        extended_layout(n, k).len() == n + 2 * k,
        forall|j: int| 0 <= j < k ==> #[trigger] extended_layout(n, k)[j] == Knot::Below((k - j) as usize),
        forall|j: int| 0 <= j < n ==> #[trigger] extended_layout(n, k)[k + j] == Knot::Inner(j as usize),
        forall|j: int|
            0 <= j < k ==> #[trigger] extended_layout(n, k)[k + n + j] == Knot::Above((j + 1) as usize),
        forall|j: int|
            0 <= j < n + 2 * k ==> #[trigger] offset_in_spacings(n, extended_layout(n, k)[j]) == j - k,
{
    assert forall|j: int| 0 <= j < n + 2 * k implies #[trigger] offset_in_spacings(
        n,
        extended_layout(n, k)[j],
    ) == j - k by {
        if j < k {
        } else if j < k + n {
        } else {
        }
    }
}

/// Position of a knot, counted in grid spacings from the first input knot of
/// a row of `n` uniformly spaced knots.
pub open spec fn offset_in_spacings(n: usize, knot: Knot) -> int {
    match knot {
        Knot::Below(m) => -(m as int),
        Knot::Inner(c) => c as int,
        Knot::Above(m) => (n - 1) + m,
    }
}

/// Extending by zero ghost knots leaves the row as it is: every column is the
/// input knot of the same index.
pub proof fn lemma_extend_by_zero_is_identity(n: usize)
    ensures
        extended_layout(n, 0) =~= Seq::new(n as nat, |j: int| Knot::Inner(j as usize)),
{
}

/// The extension is mirror-symmetric: column `j` is the ghost knot `m` spacings
/// below the row exactly when the mirrored column is the ghost knot `m`
/// spacings above it, and the input knots keep their order in the middle.
pub proof fn lemma_extension_is_symmetric(n: usize, k: usize, j: int, m: usize)
    requires
        n + 2 * k <= usize::MAX,
        0 <= j < n + 2 * k,
    ensures
        extended_layout(n, k)[j] == Knot::Below(m)
            <==> extended_layout(n, k)[n + 2 * k - 1 - j] == Knot::Above(m),
        k <= j < k + n ==> extended_layout(n, k)[j] == Knot::Inner((j - k) as usize),
{
}

} // verus!
