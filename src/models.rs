use vstd::prelude::*;
use crate::text::same_text;

verus! {

/// Length of a series: best of one, three or five maps.
#[derive(Debug, Clone, Copy, PartialEq, Eq, Structural)]
pub enum SeriesType {
    Bo1,
    Bo3,
    Bo5,
}

impl SeriesType {
    /// Reads "bo1", "bo3" or "bo5".
    pub fn from_str(input: &str) -> (r: Result<SeriesType, ()>)
        ensures
            input@ == "bo1"@ ==> r == Ok::<SeriesType, ()>(SeriesType::Bo1),
            input@ == "bo3"@ ==> r == Ok::<SeriesType, ()>(SeriesType::Bo3),
            input@ == "bo5"@ ==> r == Ok::<SeriesType, ()>(SeriesType::Bo5),
            (input@ != "bo1"@ && input@ != "bo3"@ && input@ != "bo5"@) ==> r is Err,
    {
        proof {
            reveal_strlit("bo1");
            reveal_strlit("bo3");
            reveal_strlit("bo5");
            assert("bo1"@[2] != "bo3"@[2]);
            assert("bo1"@[2] != "bo5"@[2]);
            assert("bo3"@[2] != "bo5"@[2]);
        }
        if same_text(input, "bo1") {
            Ok(SeriesType::Bo1)
        } else if same_text(input, "bo3") {
            Ok(SeriesType::Bo3)
        } else if same_text(input, "bo5") {
            Ok(SeriesType::Bo5)
        } else {
            Err(())
        }
    }
}

/// What a team does with a map (or a server) on its turn.
#[derive(Debug, Clone, Copy, PartialEq, Eq, Structural)]
pub enum StepType {
    Veto,
    Pick,
}

impl StepType {
    /// The command word of the step: "/ban" for a veto, "/pick" for a pick.
    pub fn to_string(&self) -> (r: String)
        ensures
            r@ == match self {
                StepType::Veto => "/ban"@,
                StepType::Pick => "/pick"@,
            },
    {
        match self {
            StepType::Veto => String::from_str("/ban"),
            StepType::Pick => String::from_str("/pick"),
        }
    }
}

/// The phase a setup session is in.
#[derive(Debug, Clone, Copy, PartialEq, Eq, Structural)]
pub enum SetupState {
    MapVeto,
    SidePick,
    ServerPick,
}

/// One step of the veto/pick order: its kind, the team (by mention role)
/// that acts on it, and the map id once the step is decided.
#[derive(Debug, Clone, Copy, PartialEq, Eq, Structural)]
pub struct NewVoteInfo {
    pub match_series: i32,
    pub map: Option<i32>,
    pub vote_type: StepType,
    pub team_role: i64,
}

/// A team taking part in a setup: its id, its mention role, its display name.
#[derive(Debug, Clone)]
pub struct Team {
    pub id: i32,
    pub role: i64,
    pub name: String,
}

/// A map of the pool, with whether it is currently disabled.
#[derive(Debug, Clone)]
pub struct MapPoolEntry {
    pub id: i32,
    pub name: String,
    pub disabled: bool,
}

/// A reusable server definition that a live match server is duplicated from.
#[derive(Debug, Clone)]
pub struct ServerTemplates {
    pub location: String,
    pub server_id: String,
}

/// A map chosen to be played: who picked it and, once decided, which team
/// (by mention role) starts on each side.
#[derive(Debug, Clone)]
pub struct SelectedMap {
    pub map_id: i32,
    pub map_name: String,
    pub picked_by_role: i64,
    pub start_ct_team_role: Option<i64>,
    pub start_t_team_role: Option<i64>,
}

/// A copy of a map.
pub(crate) fn copy_map(m: &MapPoolEntry) -> (r: MapPoolEntry)
    ensures
        r == *m,
{
    MapPoolEntry { id: m.id, name: m.name.clone(), disabled: m.disabled }
}

/// An error with a message and an HTTP-like status code.
#[derive(Debug, Clone)]
pub struct CustomError {
    pub msg: String,
    pub status: u16,
}

impl CustomError {
    /// A "not found" error (status 404) carrying `msg`.
    pub fn not_found(msg: String) -> (r: Self)
        ensures
            r.msg@ == msg@,
            r.status == 404,
    {
        Self { msg, status: 404 }
    }
}

} // verus!
