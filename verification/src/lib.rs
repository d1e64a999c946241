//! Thurstonian pairwise-comparison modelling: a multivariate normal prior
//! over latent item strengths is combined with win/lose comparisons into a
//! closed skew-normal posterior, which can then be transformed and sampled.
//!
//! Floating-point values are carried throughout as their IEEE 754 bit
//! patterns (`u32` for single precision, `u64` for double precision), so the
//! structural logic — shapes, the posterior's tilt pattern, bound validation,
//! pivot bookkeeping and the accept/reject guardrails — is specified and
//! verified exactly; the numerical kernels that evaluate on those bits live
//! with the caller.

use vstd::prelude::*;

pub mod dist;
pub mod error;
pub mod fp;
pub mod matrix;
pub mod stats;
pub mod trunc_mvn;

pub use dist::{ClosedSkewNormalDistribution, NormalDistribution};

verus! {

/// One observed comparison: `winner` beat `loser`, both indices into the
/// prior's items.
pub struct Comparison {
    pub winner: usize,
    pub loser: usize,
}

impl Comparison {
    /// Record that `winner` beat `loser`.
    pub fn new(winner: usize, loser: usize) -> (r: Self)
        ensures
            r.winner == winner,
            r.loser == loser,
    {
        Comparison { winner, loser }
    }
}

/// Entry `(r, c)` of the tilt matrix built from a comparison list: `+1` in
/// the winner's column of row `r`, `-1` in the loser's column, `0` elsewhere.
/// A comparison of an item against itself leaves `-1`, the last value
/// written.
pub open spec fn tilt_entry(cmps: Seq<Comparison>, r: int, c: int) -> u32 {
    if c == cmps[r].loser as int {
        fp::F32_NEG_ONE_BITS
    } else if c == cmps[r].winner as int {
        fp::F32_ONE_BITS
    } else {
        fp::F32_ZERO_BITS
    }
}

/// Given a normal prior over item strengths and a set of comparisons, return
/// the posterior distribution under the Thurstonian model, in closed
/// skew-normal form: the prior's mean and covariance carry over, the tilt
/// matrix holds one `+1`/`-1` row per comparison, the latent mean is the
/// negated prior mean, and the latent covariance is `probit_scale` times the
/// identity.
///
/// The tilt matrix is allocated square (`n`-by-`n`) while the latent
/// covariance is `m`-by-`m` for `m` comparisons; the two shapes satisfy the
/// closed skew-normal invariant only when `m == n`, so that is required here
/// rather than resolved silently.
pub fn model_comparisons(
    prior: NormalDistribution,
    comparisons: Vec<Comparison>,
    probit_scale: u32,
) -> (r: ClosedSkewNormalDistribution)
    requires
        prior.wf(),
        comparisons@.len() >= 1,
        comparisons@.len() == prior.dim(),
        forall|i: int|
            0 <= i < comparisons@.len() ==> (#[trigger] comparisons@[i]).winner < prior.dim()
                && comparisons@[i].loser < prior.dim(),
    ensures
        r.wf(),
        r.dim() == prior.dim(),
        r.latent_dim() == comparisons@.len(),
        r.mean_bits() == prior.mean_bits(),
        r.covariance_bits() == prior.covariance_bits(),
        forall|row: int, col: int|
            0 <= row < prior.dim() && 0 <= col < prior.dim() ==> #[trigger] dist::mat_entry(
                r.tilt_bits(),
                prior.dim(),
                row,
                col,
            ) == tilt_entry(comparisons@, row, col),
        forall|i: int|
            0 <= i < prior.dim() ==> r.latent_mean_bits()[i] == fp::f32_neg_bits(
                prior.mean_bits()[i],
            ),
        dist::is_diagonal_matrix(
            r.latent_covariance_bits(),
            comparisons@.len() as int,
            probit_scale,
            fp::F32_ZERO_BITS,
        ),
{
    let n = prior.dimension();
    let tilt_matrix = build_tilt_matrix(&comparisons, n);
    let mean = prior.mean();
    let covariance = prior.covariance();
    let mut latent_mean: Vec<u32> = Vec::new();
    let mut i: usize = 0;
    while i < n
        invariant
            i <= n,
            n == prior.dim(),
            latent_mean@.len() == i,
            forall|k: int|
                0 <= k < i ==> latent_mean@[k] == fp::f32_neg_bits(prior.mean_bits()[k]),
            mean@ == prior.mean_bits(),
        decreases n - i,
    {
        latent_mean.push(fp::f32_negate(mean[i]));
        i += 1;
    }
    let latent_covariance = dist::diagonal_matrix_bits(
        comparisons.len(),
        probit_scale,
        fp::F32_ZERO_BITS,
    );
    ClosedSkewNormalDistribution::new(mean, covariance, tilt_matrix, latent_mean, latent_covariance)
}

/// Build the flat column-major `n`-by-`n` tilt matrix of a comparison list of
/// length `n`: row `i` holds `+1` at the winner's column and `-1` at the
/// loser's column of comparison `i`.
fn build_tilt_matrix(comparisons: &Vec<Comparison>, n: usize) -> (v: Vec<u32>)
    requires
        comparisons@.len() == n,
    ensures
        v@.len() == n * n,
        forall|row: int, col: int|
            0 <= row < n && 0 <= col < n ==> #[trigger] dist::mat_entry(v@, n as int, row, col)
                == tilt_entry(comparisons@, row, col),
{
    let mut v: Vec<u32> = Vec::new();
    let mut c: usize = 0;
    while c < n
        invariant
            c <= n,
            comparisons@.len() == n,
            v@.len() == c * n,
            forall|row: int, col: int|
                0 <= row < n && 0 <= col < c ==> #[trigger] dist::mat_entry(v@, n as int, row, col)
                    == tilt_entry(comparisons@, row, col),
        decreases n - c,
    {
        let mut r: usize = 0;
        while r < n
            invariant
                r <= n,
                c < n,
                comparisons@.len() == n,
                v@.len() == c * n + r,
                forall|row: int, col: int|
                    0 <= row < n && 0 <= col < c ==> #[trigger] dist::mat_entry(
                        v@,
                        n as int,
                        row,
                        col,
                    ) == tilt_entry(comparisons@, row, col),
                forall|row: int|
                    0 <= row < r ==> #[trigger] dist::mat_entry(v@, n as int, row, c as int)
                        == tilt_entry(comparisons@, row, c as int),
            decreases n - r,
        {
            proof {
                assert((c as int) * (n as int) + r < (c as int + 1) * (n as int))
                    by (nonlinear_arith)
                    requires
                        r < n,
                        0 <= c,
                        0 <= r,
                ;
            }
            let cmp = &comparisons[r];
            let value = if cmp.loser == c {
                fp::F32_NEG_ONE_BITS
            } else if cmp.winner == c {
                fp::F32_ONE_BITS
            } else {
                fp::F32_ZERO_BITS
            };
            let ghost prev = v@;
            v.push(value);
            proof {
                assert forall|row: int, col: int| 0 <= row < n && 0 <= col < c implies #[trigger] dist::mat_entry(
                    v@,
                    n as int,
                    row,
                    col,
                ) == tilt_entry(comparisons@, row, col) by {
                    dist::lemma_col_major_position_below(n as int, row, col, r as int, c as int);
                    assert(dist::mat_entry(prev, n as int, row, col) == tilt_entry(
                        comparisons@,
                        row,
                        col,
                    ));
                    assert(v@[col * (n as int) + row] == prev[col * (n as int) + row]);
                }
                assert forall|row: int| 0 <= row < r + 1 implies #[trigger] dist::mat_entry(
                    v@,
                    n as int,
                    row,
                    c as int,
                ) == tilt_entry(comparisons@, row, c as int) by {
                    if row < r {
                        assert(dist::mat_entry(prev, n as int, row, c as int) == tilt_entry(
                            comparisons@,
                            row,
                            c as int,
                        ));
                        assert(v@[(c as int) * (n as int) + row] == prev[(c as int) * (n as int)
                            + row]);
                    } else {
                        assert(v@[(c as int) * (n as int) + row] == prev.push(
                            v@[prev.len() as int],
                        )[prev.len() as int]);
                    }
                }
            }
            r += 1;
        }
        proof {
            assert((c as int + 1) * (n as int) == (c as int) * (n as int) + (n as int))
                by (nonlinear_arith);
        }
        c += 1;
    }
    v
}

} // verus!
