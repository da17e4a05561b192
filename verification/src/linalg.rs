//! Shape checks and the adaptive ridge schedule of the Cholesky solver for
//! `A · x = b` with symmetric positive (semi)definite `A`.
//!
//! The robust solver first adds `base_ridge` to the diagonal of `A`; when the
//! factorisation finds a non-positive pivot it retries with the ridge
//! multiplied by 100, then 10 000, then 1 000 000, and gives up after the
//! fourth failure.

use vstd::prelude::*;

verus! {

/// Number of ridges the robust solver tries.
pub const RIDGE_ATTEMPTS: usize = 4;

/// Why `A · x = b` cannot be solved for the given shapes.
#[derive(Clone, Copy, Debug, PartialEq, Eq)]
pub enum SolveShapeError {
    /// `A` is not square.
    NotSquare { rows: usize, cols: usize },
    /// `b` does not have as many rows as `A`.
    RhsRows { expected: usize, got: usize },
}

/// What the robust solver does after a factorisation attempt.
#[derive(Clone, Copy, Debug, PartialEq, Eq, Structural)]
pub enum RidgeStep {
    /// The factorisation succeeded: solve with it. `escalated` says whether a
    /// ridge larger than the base ridge was needed.
    Accept { escalated: bool },
    /// The factorisation failed: retry with the ridge of attempt `attempt`.
    Retry { attempt: usize },
    /// Every ridge failed.
    GiveUp,
}

/// How a run of the robust solver ends.
#[derive(Clone, Copy, Debug, PartialEq, Eq, Structural)]
pub enum RidgeOutcome {
    /// Solved with the ridge of this attempt.
    Solved { attempt: usize },
    /// No ridge gave a factorisation.
    Failed,
}

/// The size `n` of the system when `A` is `[n, n]` and `b` is `[n, m]`.
pub open spec fn spec_check_solve_shapes(a: (usize, usize), b: (usize, usize)) -> Result<
    usize,
    SolveShapeError,
> {
    if a.1 != a.0 {
        Err(SolveShapeError::NotSquare { rows: a.0, cols: a.1 })
    } else if b.0 != a.0 {
        Err(SolveShapeError::RhsRows { expected: a.0, got: b.0 })
    } else {
        Ok(a.0)
    }
}

/// Factor by which attempt `attempt` multiplies the base ridge: `100^attempt`.
pub open spec fn spec_ridge_multiplier(attempt: nat) -> nat
    decreases attempt,
{
    if attempt == 0 {
        1
    } else {
        100 * spec_ridge_multiplier((attempt - 1) as nat)
    }
}

/// The robust solver's decision after attempt `attempt`.
pub open spec fn spec_ridge_step(attempt: usize, factored: bool) -> RidgeStep {
    if factored {
        RidgeStep::Accept { escalated: attempt > 0 }
    } else if attempt + 1 < RIDGE_ATTEMPTS {
        RidgeStep::Retry { attempt: (attempt + 1) as usize }
    } else {
        RidgeStep::GiveUp
    }
}

/// The end of a run from attempt `attempt` on, where `outcomes[i]` says
/// whether the factorisation with the ridge of attempt `i` succeeds.
pub open spec fn spec_ridge_run(outcomes: Seq<bool>, attempt: nat) -> RidgeOutcome
    decreases RIDGE_ATTEMPTS - attempt,
{
    if attempt >= RIDGE_ATTEMPTS {
        RidgeOutcome::Failed
    } else if outcomes[attempt as int] {
        RidgeOutcome::Solved { attempt: attempt as usize }
    } else {
        spec_ridge_run(outcomes, attempt + 1)
    }
}

/// Checks the shapes of `A` (`[n, n]`) and `b` (`[n, m]`) and returns `n`.
pub fn check_solve_shapes(a: (usize, usize), b: (usize, usize)) -> (r: Result<
    usize,
    SolveShapeError,
>)
    ensures
        r == spec_check_solve_shapes(a, b),
        r matches Ok(n) ==> a == (n, n) && b.0 == n,
        r is Ok <==> (a.0 == a.1 && b.0 == a.0),
        a.0 != a.1 ==> r == Err::<usize, SolveShapeError>(
            SolveShapeError::NotSquare { rows: a.0, cols: a.1 },
        ),
{
    if a.1 != a.0 {
        Err(SolveShapeError::NotSquare { rows: a.0, cols: a.1 })
    } else if b.0 != a.0 {
        Err(SolveShapeError::RhsRows { expected: a.0, got: b.0 })
    } else {
        Ok(a.0)
    }
}

/// The solve size is accepted only for a square `A` with as many rows as `b`:
/// any non-square `A` is reported as such, and a square `A` whose row count
/// differs from `b`'s is reported as a right-hand-side mismatch.
pub proof fn lemma_solve_shapes_accept_only_square(a: (usize, usize), b: (usize, usize))
    ensures
        spec_check_solve_shapes(a, b) matches Ok(n) ==> a == (n, n) && b.0 == n,
        spec_check_solve_shapes(a, b) is Ok <==> (a.0 == a.1 && b.0 == a.0),
        a.0 != a.1 ==> spec_check_solve_shapes(a, b) == Err::<usize, SolveShapeError>(
            SolveShapeError::NotSquare { rows: a.0, cols: a.1 },
        ),
        a.0 == a.1 && b.0 != a.0 ==> spec_check_solve_shapes(a, b) == Err::<usize, SolveShapeError>(
            SolveShapeError::RhsRows { expected: a.0, got: b.0 },
        ),
{
}

/// Factor by which attempt `attempt` multiplies the base ridge:
/// 1, 100, 10 000, 1 000 000.
pub fn ridge_multiplier(attempt: usize) -> (m: u32)
    requires
        attempt < RIDGE_ATTEMPTS,
    ensures
        m == spec_ridge_multiplier(attempt as nat),
{
    proof {
        reveal_with_fuel(spec_ridge_multiplier, 4);
    }
    if attempt == 0 {
        1
    } else if attempt == 1 {
        100
    } else if attempt == 2 {
        10_000
    } else {
        1_000_000
    }
}

/// The decision after attempt `attempt`: accept a successful factorisation,
/// retry a failed one with the next ridge, or give up after the last ridge.
pub fn ridge_step(attempt: usize, factored: bool) -> (s: RidgeStep)
    requires
        attempt < RIDGE_ATTEMPTS,
    ensures
        s == spec_ridge_step(attempt, factored),
{
    if factored {
        RidgeStep::Accept { escalated: attempt > 0 }
    } else if attempt + 1 < RIDGE_ATTEMPTS {
        RidgeStep::Retry { attempt: attempt + 1 }
    } else {
        RidgeStep::GiveUp
    }
}

/// Each retry multiplies the ridge by 100, so the ridges strictly grow; the
/// last one is a million times the base ridge.
pub proof fn lemma_ridges_grow(attempt: nat)
    ensures
        spec_ridge_multiplier(attempt + 1) == 100 * spec_ridge_multiplier(attempt),
        spec_ridge_multiplier(attempt) >= 1,
        spec_ridge_multiplier(attempt + 1) > spec_ridge_multiplier(attempt),
        spec_ridge_multiplier((RIDGE_ATTEMPTS - 1) as nat) == 1_000_000,
    decreases attempt,
{
    reveal_with_fuel(spec_ridge_multiplier, 4);
    if attempt > 0 {
        lemma_ridges_grow((attempt - 1) as nat);
    }
}

/// Following the decisions of `ridge_step` from an attempt is the run from
/// that attempt: accepting ends the run there, retrying continues it with the
/// next attempt, and giving up ends it unsolved.
pub proof fn lemma_step_follows_run(outcomes: Seq<bool>, attempt: usize)
    requires
        attempt < RIDGE_ATTEMPTS,
        outcomes.len() >= RIDGE_ATTEMPTS,
    ensures
        spec_ridge_step(attempt, outcomes[attempt as int]) is Accept ==> spec_ridge_run(
            outcomes,
            attempt as nat,
        ) == (RidgeOutcome::Solved { attempt }),
        spec_ridge_step(attempt, outcomes[attempt as int]) matches RidgeStep::Retry { attempt: next }
            ==> next == attempt + 1 && spec_ridge_run(outcomes, attempt as nat) == spec_ridge_run(
            outcomes,
            next as nat,
        ),
        spec_ridge_step(attempt, outcomes[attempt as int]) is GiveUp ==> spec_ridge_run(
            outcomes,
            attempt as nat,
        ) == RidgeOutcome::Failed,
{
    assert(spec_ridge_run(outcomes, RIDGE_ATTEMPTS as nat) == RidgeOutcome::Failed);
}

/// A run from the first attempt is solved with the first ridge whose
/// factorisation succeeds, and fails exactly when all four fail. In
/// particular a matrix that factors with the base ridge is solved on the first
/// attempt, without escalation.
pub proof fn lemma_run_stops_at_first_success(outcomes: Seq<bool>, i: usize)
    requires
        outcomes.len() >= RIDGE_ATTEMPTS,
    ensures
        spec_ridge_run(outcomes, 0) == (RidgeOutcome::Solved { attempt: i }) <==> (i
            < RIDGE_ATTEMPTS && outcomes[i as int] && forall|j: int|
            0 <= j < i ==> !#[trigger] outcomes[j]),
        spec_ridge_run(outcomes, 0) == RidgeOutcome::Failed <==> forall|j: int|
            0 <= j < RIDGE_ATTEMPTS ==> !#[trigger] outcomes[j],
        outcomes[0] ==> spec_ridge_run(outcomes, 0) == (RidgeOutcome::Solved { attempt: 0 })
            && spec_ridge_step(0, outcomes[0]) == (RidgeStep::Accept { escalated: false }),
{
    reveal_with_fuel(spec_ridge_run, 5);
}

} // verus!
