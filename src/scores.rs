use vstd::prelude::*;
use crate::models::SeriesType;

verus! {

/// The score of one map of a series.
#[derive(Debug, Clone, Copy, PartialEq, Eq, Structural)]
pub struct MatchScore {
    pub match_id: i32,
    pub team_one_score: i32,
    pub team_two_score: i32,
}

/// A map has been played once either team has scored.
pub open spec fn played(s: MatchScore) -> bool {
    s.team_one_score > 0 || s.team_two_score > 0
}

/// Played maps won by team one.
pub open spec fn maps_won_by_one(scores: Seq<MatchScore>) -> nat
    decreases scores.len(),
{
    if scores.len() == 0 {
        0
    } else {
        let s = scores.last();
        maps_won_by_one(scores.drop_last()) + if played(s) && s.team_one_score > s.team_two_score {
            1nat
        } else {
            0nat
        }
    }
}

/// Played maps won by team two.
pub open spec fn maps_won_by_two(scores: Seq<MatchScore>) -> nat
    decreases scores.len(),
{
    if scores.len() == 0 {
        0
    } else {
        let s = scores.last();
        maps_won_by_two(scores.drop_last()) + if played(s) && s.team_one_score < s.team_two_score {
            1nat
        } else {
            0nat
        }
    }
}

proof fn lemma_wins_bounded(scores: Seq<MatchScore>)
    ensures
        maps_won_by_one(scores) <= scores.len(),
        maps_won_by_two(scores) <= scores.len(),
    decreases scores.len(),
{
    if scores.len() > 0 {
        lemma_wins_bounded(scores.drop_last());
    }
}

/// The score of a series: a best of one shows its single map's rounds; a
/// longer series counts the played maps each team won.
pub fn get_series_score(scores: &Vec<MatchScore>, series_type: SeriesType) -> (r: (i32, i32))
    requires
        series_type == SeriesType::Bo1 ==> scores@.len() >= 1,
        scores@.len() <= i32::MAX,
    ensures
        series_type == SeriesType::Bo1 ==> r == (scores@[0].team_one_score, scores@[0].team_two_score),
        series_type != SeriesType::Bo1 ==> r.0 == maps_won_by_one(scores@) && r.1
            == maps_won_by_two(scores@),
{
    if series_type == SeriesType::Bo1 {
        return (scores[0].team_one_score, scores[0].team_two_score);
    }
    let mut one: i32 = 0;
    let mut two: i32 = 0;
    let mut k: usize = 0;
    while k < scores.len()
        invariant
            k <= scores.len(),
            scores@.len() <= i32::MAX,
            one == maps_won_by_one(scores@.take(k as int)),
            two == maps_won_by_two(scores@.take(k as int)),
        decreases scores.len() - k,
    {
        proof {
            let t = scores@.take(k + 1);
            assert(t.drop_last() =~= scores@.take(k as int));
            lemma_wins_bounded(scores@.take(k as int));
        }
        let s = scores[k];
        if (s.team_one_score > 0 || s.team_two_score > 0) {
            if s.team_one_score > s.team_two_score {
                one = one + 1;
            } else if s.team_one_score < s.team_two_score {
                two = two + 1;
            }
        }
        k += 1;
    }
    proof {
        assert(scores@.take(scores.len() as int) =~= scores@);
    }
    (one, two)
}

} // verus!
