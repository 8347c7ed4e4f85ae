use vstd::prelude::*;
use crate::models::{NewVoteInfo, SeriesType, StepType};
use crate::text::{decimal, push_decimal};

verus! {

/// The fixed veto/pick order of a series: for each step, its kind and the
/// acting team. Team two bans first in a best of one, team one otherwise.
pub open spec fn turn_table(series: SeriesType, one: i64, two: i64) -> Seq<(StepType, i64)> {
    match series {
        SeriesType::Bo1 => seq![
            (StepType::Veto, two),
            (StepType::Veto, one),
            (StepType::Veto, two),
            (StepType::Veto, one),
            (StepType::Veto, two),
            (StepType::Pick, one),
        ],
        SeriesType::Bo3 => seq![
            (StepType::Veto, one),
            (StepType::Veto, two),
            (StepType::Pick, one),
            (StepType::Pick, two),
            (StepType::Veto, two),
            (StepType::Pick, one),
        ],
        SeriesType::Bo5 => seq![
            (StepType::Veto, one),
            (StepType::Veto, two),
            (StepType::Pick, one),
            (StepType::Pick, two),
            (StepType::Pick, one),
            (StepType::Pick, two),
            (StepType::Pick, one),
        ],
    }
}

/// The undecided step that `turn_table` describes at one position.
pub open spec fn undecided_step(match_series: i32, entry: (StepType, i64)) -> NewVoteInfo {
    NewVoteInfo { match_series, map: None, vote_type: entry.0, team_role: entry.1 }
}

/// `steps` is the undecided veto/pick order of the series.
pub open spec fn is_turn_order(
    steps: Seq<NewVoteInfo>,
    series: SeriesType,
    match_series: i32,
    one: i64,
    two: i64,
) -> bool {
    &&& steps.len() == turn_table(series, one, two).len()
    &&& forall|i: int|
        0 <= i < steps.len() ==> #[trigger] steps[i] == undecided_step(
            match_series,
            turn_table(series, one, two)[i],
        )
}

/// The team that acts first in the map veto.
pub open spec fn first_team(series: SeriesType, one: i64, two: i64) -> i64 {
    match series {
        SeriesType::Bo1 => two,
        _ => one,
    }
}

/// The opening words of the veto announcement.
pub open spec fn announcement_head(series: SeriesType) -> Seq<char> {
    match series {
        SeriesType::Bo1 => "Best of 1 option selected. Starting map veto. <@&"@,
        SeriesType::Bo3 => "Best of 3 option selected. Starting map veto. <@&"@,
        SeriesType::Bo5 => "Best of 5 option selected. Starting map veto. <@&"@,
    }
}

/// The announcement that names the team that bans first.
pub open spec fn announcement(series: SeriesType, one: i64, two: i64) -> Seq<char> {
    announcement_head(series) + decimal(first_team(series, one, two) as int)
        + "> bans first.\n"@
}

/// Number of steps of kind `k` in a table.
pub open spec fn count_kind(t: Seq<(StepType, i64)>, k: StepType) -> nat
    decreases t.len(),
{
    if t.len() == 0 {
        0
    } else {
        count_kind(t.drop_last(), k) + (if t.last().0 == k { 1nat } else { 0nat })
    }
}

fn step(match_series: i32, vote_type: StepType, team_role: i64) -> (r: NewVoteInfo)
    ensures
        r == undecided_step(match_series, (vote_type, team_role)),
{
    NewVoteInfo { match_series, map: None, vote_type, team_role }
}

fn announce(head: &str, first: i64) -> (r: String)
    ensures
        r@ == head@ + decimal(first as int) + "> bans first.\n"@,
{
    let mut s = String::from_str(head);
    push_decimal(&mut s, first);
    s.append("> bans first.\n");
    s
}

/// Turn order of a best of one: five vetoes alternating from team two, then
/// team one picks the map. The announcement names team two.
pub fn bo1_setup(match_series: i32, team_one: i64, team_two: i64) -> (r: (Vec<NewVoteInfo>, String))
    ensures
        is_turn_order(r.0@, SeriesType::Bo1, match_series, team_one, team_two),
        r.1@ == announcement(SeriesType::Bo1, team_one, team_two),
{
    let v = vec![
        step(match_series, StepType::Veto, team_two),
        step(match_series, StepType::Veto, team_one),
        step(match_series, StepType::Veto, team_two),
        step(match_series, StepType::Veto, team_one),
        step(match_series, StepType::Veto, team_two),
        step(match_series, StepType::Pick, team_one),
    ];
    let s = announce("Best of 1 option selected. Starting map veto. <@&", team_two);
    (v, s)
}

/// Turn order of a best of three: vetoes by one and two, picks by one and
/// two, a veto by two, and the decider picked by one. The announcement names
/// team one.
pub fn bo3_setup(match_series: i32, team_one: i64, team_two: i64) -> (r: (Vec<NewVoteInfo>, String))
    ensures
        is_turn_order(r.0@, SeriesType::Bo3, match_series, team_one, team_two),
        r.1@ == announcement(SeriesType::Bo3, team_one, team_two),
{
    let v = vec![
        step(match_series, StepType::Veto, team_one),
        step(match_series, StepType::Veto, team_two),
        step(match_series, StepType::Pick, team_one),
        step(match_series, StepType::Pick, team_two),
        step(match_series, StepType::Veto, team_two),
        step(match_series, StepType::Pick, team_one),
    ];
    let s = announce("Best of 3 option selected. Starting map veto. <@&", team_one);
    (v, s)
}

/// Turn order of a best of five: vetoes by one and two, then five picks
/// alternating from team one. The announcement names team one.
pub fn bo5_setup(match_series: i32, team_one: i64, team_two: i64) -> (r: (Vec<NewVoteInfo>, String))
    ensures
        is_turn_order(r.0@, SeriesType::Bo5, match_series, team_one, team_two),
        r.1@ == announcement(SeriesType::Bo5, team_one, team_two),
{
    let v = vec![
        step(match_series, StepType::Veto, team_one),
        step(match_series, StepType::Veto, team_two),
        step(match_series, StepType::Pick, team_one),
        step(match_series, StepType::Pick, team_two),
        step(match_series, StepType::Pick, team_one),
        step(match_series, StepType::Pick, team_two),
        step(match_series, StepType::Pick, team_one),
    ];
    let s = announce("Best of 5 option selected. Starting map veto. <@&", team_one);
    (v, s)
}

/// The turn order and announcement for the series type.
pub fn veto_pick_order(series: SeriesType, match_series: i32, team_one: i64, team_two: i64) -> (r: (
    Vec<NewVoteInfo>,
    String,
))
    ensures
        is_turn_order(r.0@, series, match_series, team_one, team_two),
        r.1@ == announcement(series, team_one, team_two),
{
    match series {
        SeriesType::Bo1 => bo1_setup(match_series, team_one, team_two),
        SeriesType::Bo3 => bo3_setup(match_series, team_one, team_two),
        SeriesType::Bo5 => bo5_setup(match_series, team_one, team_two),
    }
}

/// Every series type has its fixed numbers of vetoes and picks: five and one
/// for a best of one, three and three for a best of three, two and five for a
/// best of five; no order consumes more than seven maps.
pub proof fn lemma_turn_counts(series: SeriesType, one: i64, two: i64)
    ensures
        count_kind(turn_table(series, one, two), StepType::Veto) == match series {
            SeriesType::Bo1 => 5nat,
            SeriesType::Bo3 => 3nat,
            SeriesType::Bo5 => 2nat,
        },
        count_kind(turn_table(series, one, two), StepType::Pick) == match series {
            SeriesType::Bo1 => 1nat,
            SeriesType::Bo3 => 3nat,
            SeriesType::Bo5 => 5nat,
        },
        count_kind(turn_table(series, one, two), StepType::Veto) + count_kind(
            turn_table(series, one, two),
            StepType::Pick,
        ) == turn_table(series, one, two).len() <= 7,
{
    reveal_with_fuel(count_kind, 8);
}

/// The kinds and teams of a generated order, step by step.
pub open spec fn order_entries(steps: Seq<NewVoteInfo>) -> Seq<(StepType, i64)> {
    steps.map_values(|s: NewVoteInfo| (s.vote_type, s.team_role))
}

/// A generated veto/pick order has the vetoes and picks of its series type:
/// five and one, three and three, or two and five, never more than seven
/// steps.
pub proof fn lemma_generated_order_counts(
    steps: Seq<NewVoteInfo>,
    series: SeriesType,
    match_series: i32,
    one: i64,
    two: i64,
)
    requires
        is_turn_order(steps, series, match_series, one, two),
    ensures
        count_kind(order_entries(steps), StepType::Veto) == match series {
            SeriesType::Bo1 => 5nat,
            SeriesType::Bo3 => 3nat,
            SeriesType::Bo5 => 2nat,
        },
        count_kind(order_entries(steps), StepType::Pick) == match series {
            SeriesType::Bo1 => 1nat,
            SeriesType::Bo3 => 3nat,
            SeriesType::Bo5 => 5nat,
        },
        steps.len() <= 7,
{
    assert(order_entries(steps) =~= turn_table(series, one, two));
    lemma_turn_counts(series, one, two);
}

} // verus!
