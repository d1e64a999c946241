//! Parameter containers: the multivariate normal prior and the closed
//! skew-normal posterior.
//!
//! Every vector and matrix is held as a flat sequence of IEEE 754
//! single-precision bit patterns, matrices in column-major order.  The shape
//! invariants tie each flattened length to the declared dimensions; the
//! constructors establish them and the accessors return the exact stored
//! bits.  Covariances are expected to be symmetric positive semi-definite;
//! that analytic property is not checked here.

use vstd::prelude::*;
use crate::fp::{F32_ONE_BITS, F32_ZERO_BITS};

verus! {

/// Entry `(r, c)` of a column-major matrix with `rows` rows held flat in `s`.
pub open spec fn mat_entry(s: Seq<u32>, rows: int, r: int, c: int) -> u32 {
    s[c * rows + r]
}

/// Whether `s` is the flat column-major `n`-by-`n` matrix with `diag` on the
/// diagonal and `off` everywhere else.
pub open spec fn is_diagonal_matrix(s: Seq<u32>, n: int, diag: u32, off: u32) -> bool {
    &&& s.len() == n * n
    &&& forall|r: int, c: int|
        0 <= r < n && 0 <= c < n ==> #[trigger] mat_entry(s, n, r, c) == (if r == c {
            diag
        } else {
            off
        })
}

/// A column index strictly below another column orders the flat column-major
/// positions as well.
pub(crate) proof fn lemma_col_major_position_below(n: int, r0: int, c0: int, r1: int, c1: int)
    by (nonlinear_arith)
    requires
        0 <= r0 < n,
        0 <= r1 <= n,
        0 <= c0 < c1,
    ensures
        c0 * n + r0 < c1 * n + r1,
{
}

/// Copy a vector of bit patterns.
pub(crate) fn copy_bits(src: &Vec<u32>) -> (r: Vec<u32>)
    ensures
        r@ == src@,
{
    let mut out: Vec<u32> = Vec::new();
    let mut i: usize = 0;
    while i < src.len()
        invariant
            i <= src.len(),
            out@ == src@.subrange(0, i as int),
        decreases src.len() - i,
    {
        out.push(src[i]);
        proof {
            assert(src@.subrange(0, i + 1 as int) =~= src@.subrange(0, i as int).push(
                src@[i as int],
            ));
        }
        i += 1;
    }
    proof {
        assert(out@ =~= src@);
    }
    out
}

/// Build the flat column-major `n`-by-`n` matrix with `diag` on the diagonal
/// and `off` everywhere else.
pub(crate) fn diagonal_matrix_bits(n: usize, diag: u32, off: u32) -> (v: Vec<u32>)
    ensures
        is_diagonal_matrix(v@, n as int, diag, off),
{
    let mut v: Vec<u32> = Vec::new();
    let mut c: usize = 0;
    while c < n
        invariant
            c <= n,
            v@.len() == c * n,
            forall|r0: int, c0: int|
                0 <= r0 < n && 0 <= c0 < c ==> #[trigger] mat_entry(v@, n as int, r0, c0) == (
                if r0 == c0 {
                    diag
                } else {
                    off
                }),
        decreases n - c,
    {
        let mut r: usize = 0;
        while r < n
            invariant
                r <= n,
                c < n,
                v@.len() == c * n + r,
                forall|r0: int, c0: int|
                    0 <= r0 < n && 0 <= c0 < c ==> #[trigger] mat_entry(v@, n as int, r0, c0) == (
                    if r0 == c0 {
                        diag
                    } else {
                        off
                    }),
                forall|r0: int|
                    0 <= r0 < r ==> #[trigger] mat_entry(v@, n as int, r0, c as int) == (if r0
                        == c as int {
                        diag
                    } else {
                        off
                    }),
            decreases n - r,
        {
            proof {
                assert((c as int) * (n as int) + r < (c as int + 1) * (n as int)) by (nonlinear_arith)
                    requires
                        r < n,
                        0 <= c,
                        0 <= r,
                ;
            }
            let ghost prev = v@;
            if r == c {
                v.push(diag);
            } else {
                v.push(off);
            }
            proof {
                assert forall|r0: int, c0: int| 0 <= r0 < n && 0 <= c0 < c implies #[trigger] mat_entry(
                    v@,
                    n as int,
                    r0,
                    c0,
                ) == (if r0 == c0 {
                    diag
                } else {
                    off
                }) by {
                    lemma_col_major_position_below(n as int, r0, c0, r as int, c as int);
                    assert(mat_entry(prev, n as int, r0, c0) == (if r0 == c0 {
                        diag
                    } else {
                        off
                    }));
                    assert(v@[c0 * (n as int) + r0] == prev[c0 * (n as int) + r0]);
                }
                assert forall|r0: int| 0 <= r0 < r + 1 implies #[trigger] mat_entry(
                    v@,
                    n as int,
                    r0,
                    c as int,
                ) == (if r0 == c as int {
                    diag
                } else {
                    off
                }) by {
                    if r0 < r {
                        assert(mat_entry(prev, n as int, r0, c as int) == (if r0 == c as int {
                            diag
                        } else {
                            off
                        }));
                        assert(v@[(c as int) * (n as int) + r0] == prev[(c as int) * (n as int)
                            + r0]);
                    } else {
                        assert(v@[(c as int) * (n as int) + r0] == prev.push(v@[prev.len() as int])[prev.len() as int]);
                    }
                }
            }
            r += 1;
        }
        proof {
            assert((c as int + 1) * (n as int) == (c as int) * (n as int) + (n as int))
                by (nonlinear_arith);
        }
        c += 1;
    }
    v
}

/// A multivariate normal distribution: a mean vector and a covariance matrix.
pub struct NormalDistribution {
    mean: Vec<u32>,
    covariance: Vec<u32>,
}

impl NormalDistribution {
    /// The stored mean bit patterns.
    pub closed spec fn mean_bits(&self) -> Seq<u32> {
        self.mean@
    }

    /// The stored covariance bit patterns, column-major.
    pub closed spec fn covariance_bits(&self) -> Seq<u32> {
        self.covariance@
    }

    /// The dimension of the distribution.
    pub open spec fn dim(&self) -> int {
        self.mean_bits().len() as int
    }

    /// Shape invariant: the covariance is `dim`-by-`dim`.
    pub open spec fn wf(&self) -> bool {
        self.covariance_bits().len() == self.dim() * self.dim()
    }

    /// Construct a distribution from a mean of length `n` and a flattened
    /// `n`-by-`n` covariance.  The stored bits are exactly the given ones.
    pub fn new(mean: Vec<u32>, covariance: Vec<u32>) -> (r: Self)
        requires
            covariance@.len() == mean@.len() * mean@.len(),
        ensures
            r.wf(),
            r.mean_bits() == mean@,
            r.covariance_bits() == covariance@,
    {
        NormalDistribution { mean, covariance }
    }

    /// The standard normal of the given dimension: zero mean, identity
    /// covariance.
    pub fn standard(dimension: usize) -> (r: Self)
        ensures
            r.wf(),
            r.dim() == dimension,
            forall|i: int| 0 <= i < dimension ==> r.mean_bits()[i] == F32_ZERO_BITS,
            is_diagonal_matrix(r.covariance_bits(), dimension as int, F32_ONE_BITS, F32_ZERO_BITS),
    {
        let mut mean: Vec<u32> = Vec::new();
        let mut i: usize = 0;
        while i < dimension
            invariant
                i <= dimension,
                mean@.len() == i,
                forall|k: int| 0 <= k < i ==> mean@[k] == F32_ZERO_BITS,
            decreases dimension - i,
        {
            mean.push(F32_ZERO_BITS);
            i += 1;
        }
        let covariance = diagonal_matrix_bits(dimension, F32_ONE_BITS, F32_ZERO_BITS);
        NormalDistribution { mean, covariance }
    }

    /// The dimension: the length of the mean vector.
    pub fn dimension(&self) -> (r: usize)
        ensures
            r == self.dim(),
    {
        self.mean.len()
    }

    /// The exact mean bits passed to the constructor.
    pub fn mean(&self) -> (r: Vec<u32>)
        ensures
            r@ == self.mean_bits(),
    {
        copy_bits(&self.mean)
    }

    /// The exact covariance bits passed to the constructor, column-major.
    pub fn covariance(&self) -> (r: Vec<u32>)
        ensures
            r@ == self.covariance_bits(),
    {
        copy_bits(&self.covariance)
    }
}

/// A closed skew-normal distribution
/// `CSN(mean, covariance; tilt, latent_mean, latent_covariance)`: a normal
/// conditioned on a latent vector lying in a half-space, the skew given by
/// the tilt matrix that maps the primary space into the latent one.
pub struct ClosedSkewNormalDistribution {
    mean: Vec<u32>,
    covariance: Vec<u32>,
    tilt_matrix: Vec<u32>,
    latent_mean: Vec<u32>,
    latent_covariance: Vec<u32>,
}

impl ClosedSkewNormalDistribution {
    /// The stored mean bit patterns.
    pub closed spec fn mean_bits(&self) -> Seq<u32> {
        self.mean@
    }

    /// The stored covariance bit patterns, column-major.
    pub closed spec fn covariance_bits(&self) -> Seq<u32> {
        self.covariance@
    }

    /// The stored tilt matrix bit patterns, column-major.
    pub closed spec fn tilt_bits(&self) -> Seq<u32> {
        self.tilt_matrix@
    }

    /// The stored latent mean bit patterns.
    pub closed spec fn latent_mean_bits(&self) -> Seq<u32> {
        self.latent_mean@
    }

    /// The stored latent covariance bit patterns, column-major.
    pub closed spec fn latent_covariance_bits(&self) -> Seq<u32> {
        self.latent_covariance@
    }

    /// The dimension of the primary space.
    pub open spec fn dim(&self) -> int {
        self.mean_bits().len() as int
    }

    /// The dimension of the latent conditioning space.
    pub open spec fn latent_dim(&self) -> int {
        self.latent_mean_bits().len() as int
    }

    /// Shape invariant: covariance `n`-by-`n`, tilt `n`-by-`q`, latent
    /// covariance `q`-by-`q`, for `n` the dimension and `q` the latent
    /// dimension.
    pub open spec fn wf(&self) -> bool {
        &&& self.covariance_bits().len() == self.dim() * self.dim()
        &&& self.tilt_bits().len() == self.dim() * self.latent_dim()
        &&& self.latent_covariance_bits().len() == self.latent_dim() * self.latent_dim()
    }

    /// Construct a distribution from flattened parameters whose lengths match
    /// the declared shapes.  The stored bits are exactly the given ones.
    pub fn new(
        mean: Vec<u32>,
        covariance: Vec<u32>,
        tilt_matrix: Vec<u32>,
        latent_mean: Vec<u32>,
        latent_covariance: Vec<u32>,
    ) -> (r: Self)
        requires
            covariance@.len() == mean@.len() * mean@.len(),
            tilt_matrix@.len() == mean@.len() * latent_mean@.len(),
            latent_covariance@.len() == latent_mean@.len() * latent_mean@.len(),
        ensures
            r.wf(),
            r.mean_bits() == mean@,
            r.covariance_bits() == covariance@,
            r.tilt_bits() == tilt_matrix@,
            r.latent_mean_bits() == latent_mean@,
            r.latent_covariance_bits() == latent_covariance@,
    {
        ClosedSkewNormalDistribution { mean, covariance, tilt_matrix, latent_mean, latent_covariance }
    }

    /// The dimension of the primary space: the length of the mean vector.
    pub fn dimension(&self) -> (r: usize)
        ensures
            r == self.dim(),
    {
        self.mean.len()
    }

    /// The latent dimension: the length of the latent mean vector.
    pub fn latent_dimension(&self) -> (r: usize)
        ensures
            r == self.latent_dim(),
    {
        self.latent_mean.len()
    }

    /// The exact mean bits passed to the constructor.
    pub fn mean(&self) -> (r: Vec<u32>)
        ensures
            r@ == self.mean_bits(),
    {
        copy_bits(&self.mean)
    }

    /// The exact covariance bits passed to the constructor, column-major.
    pub fn covariance(&self) -> (r: Vec<u32>)
        ensures
            r@ == self.covariance_bits(),
    {
        copy_bits(&self.covariance)
    }

    /// The exact tilt matrix bits passed to the constructor, column-major.
    pub fn tilt_matrix(&self) -> (r: Vec<u32>)
        ensures
            r@ == self.tilt_bits(),
    {
        copy_bits(&self.tilt_matrix)
    }

    /// The exact latent mean bits passed to the constructor.
    pub fn latent_mean(&self) -> (r: Vec<u32>)
        ensures
            r@ == self.latent_mean_bits(),
    {
        copy_bits(&self.latent_mean)
    }

    /// The exact latent covariance bits passed to the constructor,
    /// column-major.
    pub fn latent_covariance(&self) -> (r: Vec<u32>)
        ensures
            r@ == self.latent_covariance_bits(),
    {
        copy_bits(&self.latent_covariance)
    }
}

} // verus!
