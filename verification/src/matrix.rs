//! The sample matrix and the permutation bookkeeping of the sampler.
//!
//! A sample matrix is `rows`-by-`cols`, column-major, each column one drawn
//! sample, each entry a double-precision bit pattern.  The pivoted
//! factorization reorders coordinates, so the accept/reject engine produces
//! samples in factorization order; `unpermute_rows` maps them back to the
//! original coordinate order through the permutation the factorization
//! recorded, and `permute_rows` is the inverse direction.

use vstd::prelude::*;

verus! {

/// A matrix of double-precision bit patterns, column-major: entry `(r, c)`
/// lives at `c * rows + r` of `data`.  Well-formed when `data` holds exactly
/// `rows * cols` entries.
pub struct SampleMatrix {
    pub rows: usize,
    pub cols: usize,
    pub data: Vec<u64>,
}

impl SampleMatrix {
    /// Shape invariant: the flat data holds exactly `rows * cols` entries.
    pub open spec fn wf(&self) -> bool {
        self.data@.len() == self.rows * self.cols
    }

    /// Entry `(r, c)`.
    pub open spec fn entry(&self, r: int, c: int) -> u64 {
        self.data@[c * self.rows + r]
    }

    /// Assemble a matrix from its flat column-major data.
    pub fn new(rows: usize, cols: usize, data: Vec<u64>) -> (m: Self)
        requires
            data@.len() == rows * cols,
        ensures
            m.wf(),
            m.rows == rows,
            m.cols == cols,
            m.data@ == data@,
    {
        SampleMatrix { rows, cols, data }
    }

    /// Read entry `(r, c)`.
    pub fn get(&self, r: usize, c: usize) -> (v: u64)
        requires
            self.wf(),
            r < self.rows,
            c < self.cols,
        ensures
            v == self.entry(r as int, c as int),
    {
        let _total = self.data.len();
        proof {
            lemma_position_in_bounds(self.rows as int, self.cols as int, r as int, c as int);
        }
        self.data[c * self.rows + r]
    }

    /// Scatter the rows back to original coordinate order: row `i` of `self`
    /// becomes row `perm[i]` of the result.
    pub fn unpermute_rows(&self, perm: &Vec<usize>) -> (m: Self)
        requires
            self.wf(),
            perm@.len() == self.rows,
            is_permutation(perm@),
        ensures
            m.wf(),
            m.rows == self.rows,
            m.cols == self.cols,
            forall|i: int, c: int|
                0 <= i < self.rows && 0 <= c < self.cols ==> m.entry(perm@[i] as int, c)
                    == #[trigger] self.entry(i, c),
    {
        let rows = self.rows;
        let cols = self.cols;
        let mut data: Vec<u64> = vec![0u64; self.data.len()];
        let mut i: usize = 0;
        while i < rows
            invariant
                i <= rows,
                rows == self.rows,
                cols == self.cols,
                self.wf(),
                perm@.len() == rows,
                is_permutation(perm@),
                data@.len() == rows * cols,
                forall|i0: int, c0: int|
                    0 <= i0 < i && 0 <= c0 < cols ==> data@[c0 * rows + perm@[i0] as int]
                        == #[trigger] self.entry(i0, c0),
            decreases rows - i,
        {
            let mut c: usize = 0;
            while c < cols
                invariant
                    c <= cols,
                    i < rows,
                    rows == self.rows,
                    cols == self.cols,
                    self.wf(),
                    perm@.len() == rows,
                    is_permutation(perm@),
                    data@.len() == rows * cols,
                    forall|i0: int, c0: int|
                        0 <= i0 < i && 0 <= c0 < cols ==> data@[c0 * rows + perm@[i0] as int]
                            == #[trigger] self.entry(i0, c0),
                    forall|c0: int|
                        0 <= c0 < c ==> data@[c0 * rows + perm@[i as int] as int]
                            == #[trigger] self.entry(i as int, c0),
                decreases cols - c,
            {
                proof {
                    lemma_position_in_bounds(rows as int, cols as int, i as int, c as int);
                    lemma_position_in_bounds(
                        rows as int,
                        cols as int,
                        perm@[i as int] as int,
                        c as int,
                    );
                }
                let _total = self.data.len();
                let target = c * rows + perm[i];
                let value = self.data[c * rows + i];
                let ghost prev = data@;
                data[target] = value;
                proof {
                    assert forall|i0: int, c0: int| 0 <= i0 < i && 0 <= c0 < cols implies data@[c0
                        * rows + perm@[i0] as int] == #[trigger] self.entry(i0, c0) by {
                        lemma_position_in_bounds(rows as int, cols as int, perm@[i0] as int, c0);
                        if c0 * rows + perm@[i0] as int == target {
                            lemma_position_injective(
                                rows as int,
                                perm@[i0] as int,
                                c0,
                                perm@[i as int] as int,
                                c as int,
                            );
                            assert(false);
                        } else {
                            assert(data@[c0 * rows + perm@[i0] as int] == prev[c0 * rows
                                + perm@[i0] as int]);
                        }
                    }
                    assert forall|c0: int| 0 <= c0 < c implies data@[c0 * rows
                        + perm@[i as int] as int] == #[trigger] self.entry(i as int, c0) by {
                        lemma_position_in_bounds(
                            rows as int,
                            cols as int,
                            perm@[i as int] as int,
                            c0,
                        );
                        if c0 * rows + perm@[i as int] as int == target {
                            lemma_position_injective(
                                rows as int,
                                perm@[i as int] as int,
                                c0,
                                perm@[i as int] as int,
                                c as int,
                            );
                            assert(false);
                        } else {
                            assert(data@[c0 * rows + perm@[i as int] as int] == prev[c0 * rows
                                + perm@[i as int] as int]);
                        }
                    }
                }
                c += 1;
            }
            i += 1;
        }
        SampleMatrix { rows, cols, data }
    }

    /// Gather the rows through a permutation: row `i` of the result is row
    /// `perm[i]` of `self`.
    pub fn permute_rows(&self, perm: &Vec<usize>) -> (m: Self)
        requires
            self.wf(),
            perm@.len() == self.rows,
            is_permutation(perm@),
        ensures
            m.wf(),
            m.rows == self.rows,
            m.cols == self.cols,
            forall|i: int, c: int|
                0 <= i < self.rows && 0 <= c < self.cols ==> #[trigger] m.entry(i, c)
                    == self.entry(perm@[i] as int, c),
    {
        let rows = self.rows;
        let cols = self.cols;
        let mut data: Vec<u64> = Vec::new();
        let mut c: usize = 0;
        while c < cols
            invariant
                c <= cols,
                rows == self.rows,
                cols == self.cols,
                self.wf(),
                perm@.len() == rows,
                is_permutation(perm@),
                data@.len() == c * rows,
                forall|i0: int, c0: int|
                    0 <= i0 < rows && 0 <= c0 < c ==> #[trigger] data@[c0 * rows + i0]
                        == self.entry(perm@[i0] as int, c0),
            decreases cols - c,
        {
            let mut i: usize = 0;
            while i < rows
                invariant
                    i <= rows,
                    c < cols,
                    rows == self.rows,
                    cols == self.cols,
                    self.wf(),
                    perm@.len() == rows,
                    is_permutation(perm@),
                    data@.len() == c * rows + i,
                    forall|i0: int, c0: int|
                        0 <= i0 < rows && 0 <= c0 < c ==> #[trigger] data@[c0 * rows + i0]
                            == self.entry(perm@[i0] as int, c0),
                    forall|i0: int|
                        0 <= i0 < i ==> #[trigger] data@[(c as int) * rows + i0] == self.entry(
                            perm@[i0] as int,
                            c as int,
                        ),
                decreases rows - i,
            {
                proof {
                    lemma_position_in_bounds(
                        rows as int,
                        cols as int,
                        perm@[i as int] as int,
                        c as int,
                    );
                    assert((c as int) * (rows as int) + i < (c as int + 1) * (rows as int))
                        by (nonlinear_arith)
                        requires
                            i < rows,
                            0 <= c,
                            0 <= i,
                    ;
                }
                let _total = self.data.len();
                let value = self.data[c * rows + perm[i]];
                let ghost prev = data@;
                data.push(value);
                proof {
                    assert forall|i0: int, c0: int| 0 <= i0 < rows && 0 <= c0 < c implies #[trigger] data@[c0
                        * rows + i0] == self.entry(perm@[i0] as int, c0) by {
                        lemma_position_below(rows as int, i0, c0, i as int, c as int);
                        assert(data@[c0 * rows + i0] == prev[c0 * rows + i0]);
                    }
                    assert forall|i0: int| 0 <= i0 < i + 1 implies #[trigger] data@[(c as int)
                        * rows + i0] == self.entry(perm@[i0] as int, c as int) by {
                        if i0 < i {
                            assert(data@[(c as int) * rows + i0] == prev[(c as int) * rows + i0]);
                        } else {
                            assert(data@[(c as int) * rows + i0] == prev.push(
                                data@[prev.len() as int],
                            )[prev.len() as int]);
                        }
                    }
                }
                i += 1;
            }
            proof {
                assert((c as int + 1) * (rows as int) == (c as int) * (rows as int) + (rows as int))
                    by (nonlinear_arith);
            }
            c += 1;
        }
        proof {
            assert((cols as int) * (rows as int) == (rows as int) * (cols as int))
                by (nonlinear_arith);
        }
        SampleMatrix { rows, cols, data }
    }
}

/// Whether `p` lists each row index below its length exactly once.
pub open spec fn is_permutation(p: Seq<usize>) -> bool {
    &&& forall|i: int| 0 <= i < p.len() ==> (#[trigger] p[i]) < p.len()
    &&& forall|i: int, j: int| 0 <= i < j < p.len() ==> p[i] != p[j]
}

/// The identity permutation of `0..d`, the starting point of the pivoted
/// factorization's reordering.
pub fn identity_permutation(d: usize) -> (p: Vec<usize>)
    ensures
        p@.len() == d,
        is_permutation(p@),
        forall|i: int| 0 <= i < d ==> p@[i] == i,
{
    let mut p: Vec<usize> = Vec::new();
    let mut i: usize = 0;
    while i < d
        invariant
            i <= d,
            p@.len() == i,
            forall|k: int| 0 <= k < i ==> p@[k] == k,
        decreases d - i,
    {
        p.push(i);
        i += 1;
    }
    p
}

/// Swap two entries of a permutation, as one pivot step of the factorization
/// does; the result is still a permutation.
pub fn swap_entries(p: &mut Vec<usize>, a: usize, b: usize)
    requires
        a < old(p)@.len(),
        b < old(p)@.len(),
        is_permutation(old(p)@),
    ensures
        final(p)@.len() == old(p)@.len(),
        is_permutation(final(p)@),
        final(p)@[a as int] == old(p)@[b as int],
        final(p)@[b as int] == old(p)@[a as int],
        forall|i: int|
            0 <= i < old(p)@.len() && i != a && i != b ==> final(p)@[i] == old(p)@[i],
{
    let ghost orig = p@;
    let va = p[a];
    let vb = p[b];
    p[a] = vb;
    p[b] = va;
    proof {
        let len = orig.len() as int;
        assert forall|i: int| 0 <= i < len implies (#[trigger] p@[i]) < len by {
            let oi = if i == a {
                b as int
            } else if i == b {
                a as int
            } else {
                i
            };
            assert(p@[i] == orig[oi]);
        }
        assert forall|i: int, j: int| 0 <= i < j < len implies p@[i] != p@[j] by {
            let oi = if i == a {
                b as int
            } else if i == b {
                a as int
            } else {
                i
            };
            let oj = if j == a {
                b as int
            } else if j == b {
                a as int
            } else {
                j
            };
            assert(p@[i] == orig[oi]);
            assert(p@[j] == orig[oj]);
            if oi < oj {
                assert(orig[oi] != orig[oj]);
            } else {
                assert(orig[oj] != orig[oi]);
            }
        }
    }
}

/// Decide whether `p` is a permutation of `0..p.len()`.
pub fn is_valid_permutation(p: &Vec<usize>) -> (b: bool)
    ensures
        b == is_permutation(p@),
{
    let d = p.len();
    let mut seen: Vec<bool> = vec![false; d];
    let mut i: usize = 0;
    while i < d
        invariant
            i <= d,
            d == p@.len(),
            seen@.len() == d,
            forall|k: int| 0 <= k < i ==> (#[trigger] p@[k]) < d,
            forall|k1: int, k2: int| 0 <= k1 < k2 < i ==> p@[k1] != p@[k2],
            forall|v: int|
                0 <= v < d ==> (#[trigger] seen@[v] <==> exists|k: int|
                    0 <= k < i && p@[k] == v),
        decreases d - i,
    {
        let x = p[i];
        if x >= d {
            return false;
        }
        if seen[x] {
            proof {
                let k = choose|k: int| 0 <= k < i && p@[k] == x as int;
                assert(p@[k] == p@[i as int]);
            }
            return false;
        }
        seen[x] = true;
        proof {
            assert forall|v: int| 0 <= v < d implies (#[trigger] seen@[v] <==> exists|k: int|
                0 <= k < i + 1 && p@[k] == v) by {
                if v == x as int {
                    assert(p@[i as int] == v);
                }
            }
        }
        i += 1;
    }
    true
}

/// A column-major position is below the flat length.
pub(crate) proof fn lemma_position_in_bounds(rows: int, cols: int, r: int, c: int)
    by (nonlinear_arith)
    requires
        0 <= r < rows,
        0 <= c < cols,
    ensures
        0 <= c * rows + r < rows * cols,
{
}

/// Distinct column-major coordinates occupy distinct flat positions.
pub(crate) proof fn lemma_position_injective(rows: int, r1: int, c1: int, r2: int, c2: int)
    by (nonlinear_arith)
    requires
        0 <= r1 < rows,
        0 <= r2 < rows,
        0 <= c1,
        0 <= c2,
        c1 * rows + r1 == c2 * rows + r2,
    ensures
        r1 == r2,
        c1 == c2,
{
}

/// A position in an earlier column is below a position in a later one.
pub(crate) proof fn lemma_position_below(rows: int, r0: int, c0: int, r1: int, c1: int)
    by (nonlinear_arith)
    requires
        0 <= r0 < rows,
        0 <= r1 <= rows,
        0 <= c0 < c1,
    ensures
        c0 * rows + r0 < c1 * rows + r1,
{
}

/// Re-permuting the un-permuted output recovers the factorization-order
/// samples component-wise: if `b` scatters the rows of `a` through `perm`
/// (row `i` of `a` is row `perm[i]` of `b`, as `unpermute_rows` ensures) and
/// `c` gathers the rows of `b` through `perm` (row `i` of `c` is row
/// `perm[i]` of `b`, as `permute_rows` ensures), then `c` agrees with `a` on
/// every entry.
pub proof fn lemma_permutation_round_trip(
    a: SampleMatrix,
    b: SampleMatrix,
    c: SampleMatrix,
    perm: Seq<usize>,
)
    requires
        a.wf(),
        b.rows == a.rows,
        b.cols == a.cols,
        c.rows == a.rows,
        c.cols == a.cols,
        perm.len() == a.rows,
        is_permutation(perm),
        forall|i: int, col: int|
            0 <= i < a.rows && 0 <= col < a.cols ==> b.entry(perm[i] as int, col)
                == #[trigger] a.entry(i, col),
        forall|i: int, col: int|
            0 <= i < a.rows && 0 <= col < a.cols ==> #[trigger] c.entry(i, col) == b.entry(
                perm[i] as int,
                col,
            ),
    ensures
        forall|i: int, col: int|
            0 <= i < a.rows && 0 <= col < a.cols ==> #[trigger] c.entry(i, col) == a.entry(i, col),
{
    assert forall|i: int, col: int| 0 <= i < a.rows && 0 <= col < a.cols implies #[trigger] c.entry(
        i,
        col,
    ) == a.entry(i, col) by {
        assert(c.entry(i, col) == b.entry(perm[i] as int, col));
        assert(b.entry(perm[i] as int, col) == a.entry(i, col));
    }
}

} // verus!
