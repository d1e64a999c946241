//! Failure and warning taxonomy of the sampling engine.
//!
//! Structural problems fail fast and are unrecoverable for the call; numerical
//! degeneracy during sampling is downgraded to a warning together with a
//! best-effort result wherever a documented fallback exists.

use vstd::prelude::*;

verus! {

/// An unrecoverable failure of a sampling call.
#[derive(Clone, Copy, Debug, PartialEq, Eq, Structural)]
pub enum SampleError {
    /// A lower bound exceeds its upper bound, or the bound vectors and the
    /// covariance disagree in shape.
    InvalidBounds,
    /// A matrix that must be inverted or factored is singular or not
    /// positive semi-definite.
    SingularMatrix,
    /// The tilting optimization did not reach a root within its iteration cap.
    OptimizationDidNotConverge,
}

/// A non-fatal condition: sampling continues, possibly on a documented
/// best-effort basis, and the caller is told.
#[derive(Clone, Copy, Debug, PartialEq, Eq, Structural)]
pub enum SampleWarning {
    /// A diagonal entry of the factored covariance fell below machine
    /// epsilon: the covariance is effectively singular.
    SingularCovariance,
    /// The accept/reject loop ran long enough that the acceptance
    /// probability is below one in a thousand.
    LowAcceptance,
    /// Exact sampling was abandoned and the remaining slots were filled with
    /// un-weighted proposal draws, which are only approximately distributed.
    ApproximateSample,
    /// An iterative solve stopped on its cap rather than on convergence.
    Convergence,
}

} // verus!
