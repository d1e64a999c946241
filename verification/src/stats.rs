//! Selection of the maximum-entropy matchup from per-pair summaries.
//!
//! The entropy of each ordered pair of items is a floating-point average the
//! caller computes from the sample matrix; what is decided here — and
//! verified — is the scan for the matchup with the highest entropy under the
//! IEEE order, and its orientation: the item more likely to win is reported
//! as the winner.

use vstd::prelude::*;
use crate::fp::{f64_lt, f64_lt_bits, F64_NEG_INFINITY_BITS};

verus! {

/// Bit pattern of `0.5`: an average win probability above it orients the
/// matchup.
pub const ONE_HALF_BITS: u64 = 0x3fe0_0000_0000_0000;

/// The summary of one ordered matchup: the average entropy of the comparison
/// outcome and the average probability that `first` beats `second`, both as
/// double-precision bit patterns.
#[derive(Clone, Copy, Debug)]
pub struct MatchupScore {
    pub first: usize,
    pub second: usize,
    pub entropy: u64,
    pub p_first_wins: u64,
}

/// The index of the running maximum after scanning the first `k` scores: the
/// scan starts from negative infinity and a score replaces the current
/// maximum only when strictly greater under the IEEE order, so the earliest
/// of equal maxima stays and NaN entropies never win.  `-1` while no score
/// has exceeded negative infinity.
pub open spec fn best_index(scores: Seq<MatchupScore>, k: int) -> int
    decreases k,
{
    if k <= 0 {
        -1
    } else {
        let prev = best_index(scores, k - 1);
        let cur = scores[k - 1].entropy;
        if prev < 0 {
            if f64_lt_bits(F64_NEG_INFINITY_BITS, cur) {
                k - 1
            } else {
                -1
            }
        } else {
            if f64_lt_bits(scores[prev].entropy, cur) {
                k - 1
            } else {
                prev
            }
        }
    }
}

/// Scan the matchup summaries for the one with the highest entropy and
/// orient it: the returned triple is the likelier winner, the other item,
/// and the winning entropy.  `None` when no score exceeds negative infinity
/// (no matchups, or every entropy a NaN or negative infinity).
pub fn max_entropy_matchup(scores: &Vec<MatchupScore>) -> (r: Option<(usize, usize, u64)>)
    ensures
        ({
            let k = best_index(scores@, scores@.len() as int);
            if k < 0 {
                r is None
            } else {
                r == Some(
                    (
                        if f64_lt_bits(ONE_HALF_BITS, scores@[k].p_first_wins) {
                            scores@[k].first
                        } else {
                            scores@[k].second
                        },
                        if f64_lt_bits(ONE_HALF_BITS, scores@[k].p_first_wins) {
                            scores@[k].second
                        } else {
                            scores@[k].first
                        },
                        scores@[k].entropy,
                    ),
                )
            }
        }),
{
    let mut best: Option<usize> = None;
    let mut i: usize = 0;
    while i < scores.len()
        invariant
            i <= scores@.len(),
            best is None ==> best_index(scores@, i as int) == -1,
            best matches Some(k) ==> k < i && best_index(scores@, i as int) == k,
        decreases scores@.len() - i,
    {
        let replace = match best {
            None => f64_lt(F64_NEG_INFINITY_BITS, scores[i].entropy),
            Some(k) => f64_lt(scores[k].entropy, scores[i].entropy),
        };
        if replace {
            best = Some(i);
        }
        i += 1;
    }
    match best {
        None => None,
        Some(k) => {
            let score = &scores[k];
            if f64_lt(ONE_HALF_BITS, score.p_first_wins) {
                Some((score.first, score.second, score.entropy))
            } else {
                Some((score.second, score.first, score.entropy))
            }
        },
    }
}

} // verus!
