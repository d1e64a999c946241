//! Structural core of the truncated multivariate normal sampler: validation
//! of the truncation specification, the regime split of the univariate
//! sampler, detection of an effectively singular factored covariance, and
//! the bounded-effort control of the accept/reject loop.
//!
//! The numerical kernels — the pivoted Cholesky sweep, the tilting solve and
//! the draws themselves — evaluate on the bit patterns these functions
//! validate and order; the caller runs them and reports each batch back to
//! [`RejectionControl`].

use vstd::prelude::*;
use crate::error::{SampleError, SampleWarning};
use crate::fp::{f64_le, f64_le_bits, f64_lt, f64_lt_bits, f64_total_lt, f64_total_lt_bits};

verus! {

/// Bit pattern of `0.66`, the bound above which an interval sits far enough
/// in a tail that only the exponential-tail algorithm is numerically sound.
pub const TAIL_THRESHOLD_BITS: u64 = 0x3fe5_1eb8_51eb_851f;

/// Bit pattern of `-0.66`, the mirrored tail threshold.
pub const NEG_TAIL_THRESHOLD_BITS: u64 = 0xbfe5_1eb8_51eb_851f;

/// Bit pattern of `2.0`: an interval wider than this is sampled by plain
/// rejection against the untruncated normal.
pub const WIDE_INTERVAL_BITS: u64 = 0x4000_0000_0000_0000;

/// Bit pattern of machine epsilon for double precision, `2^-52`: a factored
/// diagonal entry below it marks the covariance as effectively singular.
pub const MACHINE_EPSILON_BITS: u64 = 0x3cb0_0000_0000_0000;

/// The accept/reject loop warns of a low acceptance probability once it has
/// run this many batches without filling the request.
pub const LOW_ACCEPTANCE_ITERATIONS: usize = 1000;

/// Beyond this many batches the loop abandons exact sampling and fills the
/// remaining slots with un-weighted proposal draws.
pub const ABANDON_ITERATIONS: usize = 10000;

/// A valid truncation specification: the bound vectors and the covariance
/// agree on one dimension and no lower bound exceeds its upper bound
/// (infinite bounds are admitted; a NaN bound is rejected).
pub open spec fn bounds_ok(lower: Seq<u64>, upper: Seq<u64>, cov_rows: int, cov_cols: int) -> bool {
    &&& upper.len() == lower.len()
    &&& cov_rows == lower.len()
    &&& cov_cols == lower.len()
    &&& forall|i: int| 0 <= i < lower.len() ==> f64_le_bits(#[trigger] lower[i], upper[i])
}

/// Validate a truncation specification, exactly when [`bounds_ok`] holds.
pub fn validate_truncation(
    lower: &Vec<u64>,
    upper: &Vec<u64>,
    cov_rows: usize,
    cov_cols: usize,
) -> (r: Result<(), SampleError>)
    ensures
        r is Ok <==> bounds_ok(lower@, upper@, cov_rows as int, cov_cols as int),
        r is Err ==> r == Err::<(), SampleError>(SampleError::InvalidBounds),
{
    if upper.len() != lower.len() || cov_rows != lower.len() || cov_cols != lower.len() {
        return Err(SampleError::InvalidBounds);
    }
    let mut i: usize = 0;
    while i < lower.len()
        invariant
            i <= lower@.len(),
            upper@.len() == lower@.len(),
            forall|k: int| 0 <= k < i ==> f64_le_bits(#[trigger] lower@[k], upper@[k]),
        decreases lower@.len() - i,
    {
        if !f64_le(lower[i], upper[i]) {
            return Err(SampleError::InvalidBounds);
        }
        i += 1;
    }
    Ok(())
}

/// The algorithm a univariate truncated-normal draw must use for the
/// interval `[l, u]`.
#[derive(Clone, Copy, Debug, PartialEq, Eq, Structural)]
pub enum TailRegime {
    /// The interval lies entirely in the far right tail: exponential-tail
    /// inversion on the left edge.
    RightTail,
    /// The interval lies entirely in the far left tail: the mirrored
    /// exponential-tail inversion, by symmetry of the standard normal.
    LeftTail,
    /// A wide central interval: plain rejection of untruncated normal draws.
    WideRejection,
    /// A narrow central interval: inversion through the complementary error
    /// function.
    InverseCdf,
}

/// The regime for the interval `[l, u]` of width `width == |u - l|`: far
/// right tail when `l > 0.66`, far left tail when `u < -0.66`, plain
/// rejection when the width exceeds `2.0`, and inverse-CDF inversion
/// otherwise.
pub open spec fn regime_of(l: u64, u: u64, width: u64) -> TailRegime {
    if f64_lt_bits(TAIL_THRESHOLD_BITS, l) {
        TailRegime::RightTail
    } else if f64_lt_bits(u, NEG_TAIL_THRESHOLD_BITS) {
        TailRegime::LeftTail
    } else if f64_lt_bits(WIDE_INTERVAL_BITS, width) {
        TailRegime::WideRejection
    } else {
        TailRegime::InverseCdf
    }
}

/// Select the sampling algorithm for one coordinate's interval.  `width`
/// must be the bit pattern of `|u - l|`, computed by the caller.
pub fn select_regime(l: u64, u: u64, width: u64) -> (r: TailRegime)
    ensures
        r == regime_of(l, u, width),
{
    if f64_lt(TAIL_THRESHOLD_BITS, l) {
        TailRegime::RightTail
    } else if f64_lt(u, NEG_TAIL_THRESHOLD_BITS) {
        TailRegime::LeftTail
    } else if f64_lt(WIDE_INTERVAL_BITS, width) {
        TailRegime::WideRejection
    } else {
        TailRegime::InverseCdf
    }
}

/// The pivot choice of the factorization: among the coordinates from
/// `start` on, the index of the smallest score — the most constrained
/// coordinate, by its log tail probability — with ties broken by natural
/// index order.  The scores are double-precision bit patterns compared in
/// the NaN-greatest total order, which makes the selection stable and total.
pub fn pivot_index(scores: &Vec<u64>, start: usize) -> (k: usize)
    requires
        start < scores@.len(),
    ensures
        start <= k < scores@.len(),
        forall|i: int|
            start <= i < scores@.len() ==> !f64_total_lt_bits(
                #[trigger] scores@[i],
                scores@[k as int],
            ),
        forall|i: int| start <= i < k ==> f64_total_lt_bits(scores@[k as int], #[trigger] scores@[i]),
{
    let _total = scores.len();
    let mut k: usize = start;
    let mut i: usize = start + 1;
    while i < scores.len()
        invariant
            start <= k < i <= scores@.len(),
            forall|j: int|
                start <= j < i ==> !f64_total_lt_bits(#[trigger] scores@[j], scores@[k as int]),
            forall|j: int|
                start <= j < k ==> f64_total_lt_bits(scores@[k as int], #[trigger] scores@[j]),
        decreases scores@.len() - i,
    {
        if f64_total_lt(scores[i], scores[k]) {
            k = i;
        }
        i += 1;
    }
    k
}

/// Whether some diagonal entry of the factored covariance fell below machine
/// epsilon, marking the covariance as effectively singular.
pub open spec fn diag_is_singular(diag: Seq<u64>) -> bool {
    exists|i: int| 0 <= i < diag.len() && f64_lt_bits(#[trigger] diag[i], MACHINE_EPSILON_BITS)
}

/// Detect an effectively singular factored covariance; when this returns
/// true the caller surfaces [`SampleWarning::SingularCovariance`] and
/// sampling continues.
pub fn has_singular_diagonal(diag: &Vec<u64>) -> (b: bool)
    ensures
        b == diag_is_singular(diag@),
{
    let mut i: usize = 0;
    while i < diag.len()
        invariant
            i <= diag@.len(),
            forall|k: int| 0 <= k < i ==> !f64_lt_bits(#[trigger] diag@[k], MACHINE_EPSILON_BITS),
        decreases diag@.len() - i,
    {
        if f64_lt(diag[i], MACHINE_EPSILON_BITS) {
            return true;
        }
        i += 1;
    }
    false
}

/// Bounded-effort control of the accept/reject loop: it tracks how many
/// samples have been accepted against the request and how many batches have
/// run, warns when acceptance is poor, and orders the documented fallback —
/// filling the remaining slots with un-weighted proposal draws — once the
/// iteration cap is passed.
pub struct RejectionControl {
    target: usize,
    accepted: usize,
    iterations: usize,
}

impl RejectionControl {
    /// The requested sample count.
    pub closed spec fn target_count(&self) -> int {
        self.target as int
    }

    /// How many samples have been accepted so far.
    pub closed spec fn accepted_count(&self) -> int {
        self.accepted as int
    }

    /// How many batches have run so far.
    pub closed spec fn iteration_count(&self) -> int {
        self.iterations as int
    }

    /// Invariant: no more samples are accepted than requested.
    pub open spec fn wf(&self) -> bool {
        self.accepted_count() <= self.target_count()
    }

    /// Whether the request is filled.
    pub open spec fn finished(&self) -> bool {
        self.accepted_count() >= self.target_count()
    }

    /// Whether the loop has passed its cap and must fall back to
    /// un-weighted proposal draws for the remaining slots.
    pub open spec fn abandoned(&self) -> bool {
        self.iteration_count() > ABANDON_ITERATIONS
    }

    /// Start controlling a request for `target` samples.
    pub fn new(target: usize) -> (r: Self)
        ensures
            r.wf(),
            r.target_count() == target,
            r.accepted_count() == 0,
            r.iteration_count() == 0,
    {
        RejectionControl { target, accepted: 0, iterations: 0 }
    }

    /// Whether the request is filled.
    pub fn is_finished(&self) -> (b: bool)
        ensures
            b == self.finished(),
    {
        self.accepted >= self.target
    }

    /// How many samples are still needed: the size of the next batch, and
    /// the number of fallback draws should the loop be abandoned.
    pub fn remaining(&self) -> (k: usize)
        requires
            self.wf(),
        ensures
            k == self.target_count() - self.accepted_count(),
    {
        self.target - self.accepted
    }

    /// Whether the loop must now fall back.
    pub fn should_abandon(&self) -> (b: bool)
        ensures
            b == self.abandoned(),
    {
        self.iterations > ABANDON_ITERATIONS
    }

    /// Account one batch that accepted `newly_accepted` candidates, and
    /// return the warning this batch triggers, if any: a low-acceptance
    /// warning the moment the iteration count reaches
    /// [`LOW_ACCEPTANCE_ITERATIONS`], and an approximate-sample warning on
    /// every batch past [`ABANDON_ITERATIONS`], after which the caller must
    /// fill the remaining slots with proposal draws and stop.
    pub fn record_batch(&mut self, newly_accepted: usize) -> (w: Option<SampleWarning>)
        requires
            old(self).wf(),
            newly_accepted <= old(self).target_count() - old(self).accepted_count(),
            old(self).iteration_count() <= ABANDON_ITERATIONS,
        ensures
            final(self).wf(),
            final(self).target_count() == old(self).target_count(),
            final(self).accepted_count() == old(self).accepted_count() + newly_accepted,
            final(self).iteration_count() == old(self).iteration_count() + 1,
            w == (if final(self).iteration_count() == LOW_ACCEPTANCE_ITERATIONS {
                Some(SampleWarning::LowAcceptance)
            } else if final(self).iteration_count() > ABANDON_ITERATIONS {
                Some(SampleWarning::ApproximateSample)
            } else {
                None::<SampleWarning>
            }),
    {
        self.accepted = self.accepted + newly_accepted;
        self.iterations = self.iterations + 1;
        if self.iterations == LOW_ACCEPTANCE_ITERATIONS {
            Some(SampleWarning::LowAcceptance)
        } else if self.iterations > ABANDON_ITERATIONS {
            Some(SampleWarning::ApproximateSample)
        } else {
            None
        }
    }
}

} // verus!
