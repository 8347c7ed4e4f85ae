use vstd::prelude::*;
use crate::models::{MapPoolEntry, NewVoteInfo, SelectedMap, StepType};
use crate::setup::{is_complete, setup_wf, Setup, SetupView};
use crate::text::{decimal, push_decimal};

verus! {

/// A veto/pick step as written to storage: the series, the kind of step,
/// the acting team's id and the map id.
#[derive(Debug, Clone, Copy, PartialEq, Eq, Structural)]
pub struct NewMatchSetupStep {
    pub match_id: i32,
    pub step_type: StepType,
    pub team: i32,
    pub map: i32,
}

/// A selected map as written to storage: the series, the map id, and the
/// ids of the team that picked it and of the teams starting CT and T.
#[derive(Debug, Clone, Copy, PartialEq, Eq, Structural)]
pub struct NewSeriesMap {
    pub match_id: i32,
    pub map: i32,
    pub picked_by: i32,
    pub start_ct_team: i32,
    pub start_t_team: i32,
}

/// The id of the series team with mention role `role`.
pub open spec fn team_id_of(v: SetupView, role: i64) -> i32 {
    if role == v.team_one.role {
        v.team_one.id
    } else {
        v.team_two.id
    }
}

/// The stored form of a decided step.
pub open spec fn vote_record(v: SetupView, s: NewVoteInfo) -> NewMatchSetupStep {
    NewMatchSetupStep {
        match_id: v.match_series,
        step_type: s.vote_type,
        team: team_id_of(v, s.team_role),
        map: s.map->0,
    }
}

/// The stored form of a selected map whose sides are chosen.
pub open spec fn series_map_record(v: SetupView, m: SelectedMap) -> NewSeriesMap {
    NewSeriesMap {
        match_id: v.match_series,
        map: m.map_id,
        picked_by: team_id_of(v, m.picked_by_role),
        start_ct_team: team_id_of(v, m.start_ct_team_role->0),
        start_t_team: team_id_of(v, m.start_t_team_role->0),
    }
}

impl Setup {
    fn team_id(&self, role: i64) -> (r: i32)
        ensures
            r == team_id_of(self@, role),
    {
        if role == self.team_one.role {
            self.team_one.id
        } else {
            self.team_two.id
        }
    }

    /// The records a completed setup leaves in storage: every step of the
    /// veto/pick order, in order, and every selected map with its sides.
    pub fn finish(&self) -> (r: (Vec<NewMatchSetupStep>, Vec<NewSeriesMap>))
        requires
            setup_wf(self@),
            is_complete(self@),
        ensures
            r.0@ == self@.veto_pick_order.map_values(|s: NewVoteInfo| vote_record(self@, s)),
            r.1@ == self@.maps_sel.map_values(|m: SelectedMap| series_map_record(self@, m)),
    {
        let mut votes: Vec<NewMatchSetupStep> = Vec::new();
        let mut k: usize = 0;
        while k < self.veto_pick_order.len()
            invariant
                setup_wf(self@),
                is_complete(self@),
                k <= self.veto_pick_order.len(),
                votes@ == self@.veto_pick_order.take(k as int).map_values(
                    |s: NewVoteInfo| vote_record(self@, s),
                ),
            decreases self.veto_pick_order.len() - k,
        {
            let s = self.veto_pick_order[k];
            let map = match s.map {
                Some(m) => m,
                None => 0,
            };
            votes.push(
                NewMatchSetupStep {
                    match_id: self.match_series,
                    step_type: s.vote_type,
                    team: self.team_id(s.team_role),
                    map,
                },
            );
            proof {
                assert(votes@ =~= self@.veto_pick_order.take(k + 1).map_values(
                    |s: NewVoteInfo| vote_record(self@, s),
                ));
            }
            k += 1;
        }
        let mut maps: Vec<NewSeriesMap> = Vec::new();
        let mut j: usize = 0;
        while j < self.maps_sel.len()
            invariant
                setup_wf(self@),
                is_complete(self@),
                j <= self.maps_sel.len(),
                maps@ == self@.maps_sel.take(j as int).map_values(
                    |m: SelectedMap| series_map_record(self@, m),
                ),
            decreases self.maps_sel.len() - j,
        {
            let m = &self.maps_sel[j];
            proof {
                crate::setup::lemma_sides_complementary(self@, j as int);
            }
            let ct = match m.start_ct_team_role {
                Some(role) => role,
                None => 0,
            };
            let t = match m.start_t_team_role {
                Some(role) => role,
                None => 0,
            };
            maps.push(
                NewSeriesMap {
                    match_id: self.match_series,
                    map: m.map_id,
                    picked_by: self.team_id(m.picked_by_role),
                    start_ct_team: self.team_id(ct),
                    start_t_team: self.team_id(t),
                },
            );
            proof {
                assert(maps@ =~= self@.maps_sel.take(j + 1).map_values(
                    |m: SelectedMap| series_map_record(self@, m),
                ));
            }
            j += 1;
        }
        proof {
            assert(self@.veto_pick_order.take(self@.veto_pick_order.len() as int)
                =~= self@.veto_pick_order);
            assert(self@.maps_sel.take(self@.maps_sel.len() as int) =~= self@.maps_sel);
        }
        (votes, maps)
    }
}

/// One line of the completion summary: the map's number and name and the
/// team that picked it.
pub open spec fn summary_line(k: int, m: SelectedMap) -> Seq<char> {
    "**"@ + decimal(k) + ". "@ + m.map_name@ + "** - picked by: <@&"@ + decimal(
        m.picked_by_role as int,
    ) + ">\n"@
}

/// The summary lines of the selected maps, numbered from one.
pub open spec fn summary_lines(maps: Seq<SelectedMap>) -> Seq<char>
    decreases maps.len(),
{
    if maps.len() == 0 {
        seq![]
    } else {
        summary_lines(maps.drop_last()) + summary_line(maps.len() as int, maps.last())
    }
}

/// The message that closes a completed setup: a greeting, then each
/// selected map with the team that picked it.
pub fn eos_str(setup: &Setup) -> (r: String)
    requires
        setup_wf(setup@),
    ensures
        r@ == "\n\nSetup is completed. GLHF!\n\n"@ + summary_lines(setup@.maps_sel),
{
    proof {
        crate::setup::lemma_selected_bound(setup@);
    }
    let mut s = String::from_str("\n\nSetup is completed. GLHF!\n\n");
    let ghost head = s@;
    let mut k: usize = 0;
    proof {
        assert(setup@.maps_sel.take(0) =~= Seq::<SelectedMap>::empty());
        assert(head + summary_lines(setup@.maps_sel.take(0)) =~= head);
    }
    while k < setup.maps_sel.len()
        invariant
            setup@.maps_sel.len() <= 7,
            k <= setup.maps_sel.len(),
            s@ == head + summary_lines(setup@.maps_sel.take(k as int)),
        decreases setup.maps_sel.len() - k,
    {
        let m = &setup.maps_sel[k];
        let ghost before = s@;
        s.append("**");
        push_decimal(&mut s, (k + 1) as i64);
        s.append(". ");
        s.append(m.map_name.as_str());
        s.append("** - picked by: <@&");
        push_decimal(&mut s, m.picked_by_role);
        s.append(">\n");
        proof {
            let t = setup@.maps_sel.take(k + 1);
            assert(t.drop_last() =~= setup@.maps_sel.take(k as int));
            assert(s@ =~= before + summary_line((k + 1) as int, setup@.maps_sel[k as int]));
        }
        k += 1;
    }
    proof {
        assert(setup@.maps_sel.take(setup@.maps_sel.len() as int) =~= setup@.maps_sel);
    }
    s
}

/// What `str::to_lowercase` makes of a text.
pub uninterp spec fn lower_of(s: Seq<char>) -> Seq<char>;

/// Relies on `str::to_lowercase`: the lower-case form of a text, which
/// depends on its characters alone.
#[verifier::external_body]
fn lowercase(s: &str) -> (r: String)
    ensures
        r@ == lower_of(s@),
{
    s.to_lowercase()
}

/// One line of the veto history.
pub open spec fn veto_line_of(team_name: Seq<char>, kind: StepType, map: Seq<char>) -> Seq<char> {
    match kind {
        StepType::Veto => "- "@ + team_name + " banned "@ + map + "\n"@,
        StepType::Pick => "+ "@ + team_name + " picked "@ + map + "\n"@,
    }
}

/// One line of the veto history: `- team banned map` for a veto, `+ team
/// picked map` for a pick, the map name as given.
pub fn veto_line(team_name: &str, kind: StepType, map: &str) -> (r: String)
    ensures
        r@ == veto_line_of(team_name@, kind, map@),
{
    let mut s = match kind {
        StepType::Veto => String::from_str("- "),
        StepType::Pick => String::from_str("+ "),
    };
    s.append(team_name);
    match kind {
        StepType::Veto => s.append(" banned "),
        StepType::Pick => s.append(" picked "),
    }
    s.append(map);
    s.append("\n");
    s
}

/// `j` is the first position of a map with id `id`.
pub open spec fn is_first_map_id(pool: Seq<MapPoolEntry>, id: i32, j: int) -> bool {
    &&& 0 <= j < pool.len()
    &&& pool[j].id == id
    &&& forall|i: int| 0 <= i < j ==> pool[i].id != id
}

/// The first position of a map with id `id`, or -1.
pub open spec fn map_index_of(pool: Seq<MapPoolEntry>, id: i32) -> int {
    if exists|j: int| is_first_map_id(pool, id, j) {
        choose|j: int| is_first_map_id(pool, id, j)
    } else {
        -1
    }
}

/// The name of the series team with mention role `role`.
pub open spec fn team_name_of(v: SetupView, role: i64) -> Seq<char> {
    if role == v.team_one.role {
        v.team_one.name@
    } else {
        v.team_two.name@
    }
}

/// The history lines of the decided steps whose map is in the pool, in order.
pub open spec fn veto_lines(v: SetupView, pool: Seq<MapPoolEntry>, steps: Seq<NewVoteInfo>) -> Seq<
    char,
>
    decreases steps.len(),
{
    if steps.len() == 0 {
        seq![]
    } else {
        let st = steps.last();
        let rest = veto_lines(v, pool, steps.drop_last());
        let j = map_index_of(pool, st.map->0);
        if st.map is Some && j >= 0 {
            rest + veto_line_of(team_name_of(v, st.team_role), st.vote_type, lower_of(pool[j].name@))
        } else {
            rest
        }
    }
}

/// The veto history so far, map names in lower case: the lines in a diff
/// block, or a note when no step is decided yet.
pub open spec fn veto_info_of(v: SetupView, pool: Seq<MapPoolEntry>) -> Seq<char> {
    let lines = veto_lines(v, pool, v.veto_pick_order);
    if lines.len() == 0 {
        "_This match has no veto info yet_"@
    } else {
        "```diff\n"@ + lines + "```"@
    }
}

fn find_map_id(pool: &Vec<MapPoolEntry>, id: i32) -> (r: Option<usize>)
    ensures
        match r {
            Some(j) => j < pool@.len() && map_index_of(pool@, id) == j,
            None => map_index_of(pool@, id) == -1,
        },
{
    let mut k: usize = 0;
    while k < pool.len()
        invariant
            k <= pool.len(),
            forall|i: int| 0 <= i < k ==> pool@[i].id != id,
        decreases pool.len() - k,
    {
        if pool[k].id == id {
            proof {
                let c = map_index_of(pool@, id);
                assert(is_first_map_id(pool@, id, k as int));
                assert(is_first_map_id(pool@, id, c));
                if c < k {
                    assert(pool@[c].id != id);
                } else if c > k {
                    assert(pool@[k as int].id != id);
                }
            }
            return Some(k);
        }
        k += 1;
    }
    None
}

/// The veto history of a session, map names looked up in `pool` and
/// lower-cased.
pub fn print_veto_info(setup: &Setup, pool: &Vec<MapPoolEntry>) -> (r: String)
    ensures
        r@ == veto_info_of(setup@, pool@),
{
    let mut lines = String::new();
    let mut k: usize = 0;
    while k < setup.veto_pick_order.len()
        invariant
            k <= setup.veto_pick_order.len(),
            lines@ == veto_lines(setup@, pool@, setup@.veto_pick_order.take(k as int)),
        decreases setup.veto_pick_order.len() - k,
    {
        let st = setup.veto_pick_order[k];
        proof {
            assert(setup@.veto_pick_order.take(k + 1).drop_last() =~= setup@.veto_pick_order.take(
                k as int,
            ));
        }
        if let Some(map) = st.map {
            if let Some(j) = find_map_id(pool, map) {
                let name = if st.team_role == setup.team_one.role {
                    setup.team_one.name.as_str()
                } else {
                    setup.team_two.name.as_str()
                };
                let lowered = lowercase(pool[j].name.as_str());
                let line = veto_line(name, st.vote_type, lowered.as_str());
                lines.append(line.as_str());
            }
        }
        k += 1;
    }
    proof {
        assert(setup@.veto_pick_order.take(setup@.veto_pick_order.len() as int)
            =~= setup@.veto_pick_order);
    }
    if lines.unicode_len() == 0 {
        String::from_str("_This match has no veto info yet_")
    } else {
        let mut s = String::from_str("```diff\n");
        s.append(lines.as_str());
        s.append("```");
        s
    }
}

} // verus!
