use thurston::stats::{max_entropy_matchup, MatchupScore};

fn score(first: usize, second: usize, entropy: f64, p_first_wins: f64) -> MatchupScore {
    MatchupScore {
        first,
        second,
        entropy: entropy.to_bits(),
        p_first_wins: p_first_wins.to_bits(),
    }
}

#[test]
fn highest_entropy_matchup_is_selected_and_oriented() {
    let scores = vec![
        score(0, 1, 0.2, 0.9),
        score(1, 0, 0.2, 0.1),
        score(1, 2, 0.69, 0.4),
        score(2, 1, 0.69, 0.6),
    ];
    // The first of the two equal maxima stays; p = 0.4 is not above one
    // half, so the matchup is oriented the other way round.
    let (winner, loser, entropy) = max_entropy_matchup(&scores).unwrap();
    assert_eq!(winner, 2);
    assert_eq!(loser, 1);
    assert_eq!(f64::from_bits(entropy), 0.69);
}

#[test]
fn likelier_item_is_reported_as_winner() {
    let scores = vec![score(3, 7, 0.5, 0.75)];
    assert_eq!(max_entropy_matchup(&scores).unwrap(), (3, 7, 0.5f64.to_bits()));
    let scores = vec![score(3, 7, 0.5, 0.25)];
    assert_eq!(max_entropy_matchup(&scores).unwrap(), (7, 3, 0.5f64.to_bits()));
    // A probability of exactly one half orients the matchup the second way.
    let scores = vec![score(3, 7, 0.5, 0.5)];
    assert_eq!(max_entropy_matchup(&scores).unwrap(), (7, 3, 0.5f64.to_bits()));
}

#[test]
fn no_matchup_beats_negative_infinity() {
    assert_eq!(max_entropy_matchup(&vec![]), None);
    let scores = vec![
        score(0, 1, f64::NAN, 0.5),
        score(1, 0, f64::NEG_INFINITY, 0.5),
    ];
    assert_eq!(max_entropy_matchup(&scores), None);
}

#[test]
fn nan_entropy_never_replaces_a_real_maximum() {
    let scores = vec![
        score(0, 1, 0.1, 0.9),
        score(1, 2, f64::NAN, 0.9),
        score(2, 0, 0.05, 0.9),
    ];
    assert_eq!(max_entropy_matchup(&scores).unwrap(), (0, 1, 0.1f64.to_bits()));
}
