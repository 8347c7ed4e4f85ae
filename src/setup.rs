use vstd::prelude::*;
use crate::models::{
    MapPoolEntry, NewVoteInfo, SelectedMap, SeriesType, ServerTemplates, SetupState, StepType, Team,
};
use crate::turn_order::{announcement, count_kind, is_turn_order, turn_table, veto_pick_order};
use crate::text::same_text;

verus! {

/// Why a decision was turned away. A rejected decision changes nothing.
#[derive(Debug, Clone, Copy, PartialEq, Eq, Structural)]
pub enum SetupError {
    /// The actor belongs to neither team.
    NotOnTeam,
    /// The decision belongs to another phase, or the setup is already complete.
    WrongPhase,
    /// It is the other team's turn.
    NotYourTurn,
    /// The choice is not among the current candidates.
    InvalidChoice,
}

/// Why a setup session cannot start.
#[derive(Debug, Clone, Copy, PartialEq, Eq, Structural)]
pub enum StartError {
    /// Both sides of the series are the same team.
    SameTeam,
    /// Fewer than seven maps of the pool are enabled.
    NotEnoughMaps,
    /// No server template exists.
    NoServerTemplates,
}

/// What an accepted decision led to, for the session to announce.
#[derive(Debug, Clone, Copy, PartialEq, Eq, Structural)]
pub enum Progress {
    /// A server was vetoed; `next_team` now vetoes or picks a server.
    ServerVetoed { next_team: i64, next_action: StepType },
    /// The server was chosen; the map veto starts.
    ServerChosen,
    /// A map was vetoed or picked; `next_team` acts next.
    MapDecided { next_team: i64, next_action: StepType },
    /// The map veto is over; `side_pick_team` chooses the side on the first map.
    VetoCompleted { side_pick_team: i64 },
    /// A starting side was chosen; `next_team` chooses on the next map.
    SideChosen { next_team: i64 },
    /// Every side is chosen: the setup is complete and provisioning may start.
    SetupCompleted,
}

/// The working state of one setup session.
#[derive(Debug, Clone)]
pub struct Setup {
    pub team_one_conn_str: Option<String>,
    pub team_two_conn_str: Option<String>,
    pub maps_remaining: Vec<MapPoolEntry>,
    pub maps_sel: Vec<SelectedMap>,
    pub series_type: SeriesType,
    pub match_series: i32,
    pub veto_pick_order: Vec<NewVoteInfo>,
    pub init_veto_msg: String,
    pub current_step: usize,
    pub current_phase: SetupState,
    pub servers_remaining: Vec<ServerTemplates>,
    pub server_veto_team: i64,
    pub server_id: Option<String>,
    pub server_hostname: Option<String>,
    pub server_game_port: Option<i64>,
    pub server_gotv_port: Option<i64>,
    pub team_one: Team,
    pub team_two: Team,
}

/// A `Setup` with its lists seen as sequences.
pub struct SetupView {
    pub team_one_conn_str: Option<String>,
    pub team_two_conn_str: Option<String>,
    pub maps_remaining: Seq<MapPoolEntry>,
    pub maps_sel: Seq<SelectedMap>,
    pub series_type: SeriesType,
    pub match_series: i32,
    pub veto_pick_order: Seq<NewVoteInfo>,
    pub init_veto_msg: String,
    pub current_step: usize,
    pub current_phase: SetupState,
    pub servers_remaining: Seq<ServerTemplates>,
    pub server_veto_team: i64,
    pub server_id: Option<String>,
    pub server_hostname: Option<String>,
    pub server_game_port: Option<i64>,
    pub server_gotv_port: Option<i64>,
    pub team_one: Team,
    pub team_two: Team,
}

impl View for Setup {
    type V = SetupView;

    open spec fn view(&self) -> SetupView {
        SetupView {
            team_one_conn_str: self.team_one_conn_str,
            team_two_conn_str: self.team_two_conn_str,
            maps_remaining: self.maps_remaining@,
            maps_sel: self.maps_sel@,
            series_type: self.series_type,
            match_series: self.match_series,
            veto_pick_order: self.veto_pick_order@,
            init_veto_msg: self.init_veto_msg,
            current_step: self.current_step,
            current_phase: self.current_phase,
            servers_remaining: self.servers_remaining@,
            server_veto_team: self.server_veto_team,
            server_id: self.server_id,
            server_hostname: self.server_hostname,
            server_game_port: self.server_game_port,
            server_gotv_port: self.server_gotv_port,
            team_one: self.team_one,
            team_two: self.team_two,
        }
    }
}

/// The enabled maps of a pool, in pool order.
pub open spec fn enabled_maps(s: Seq<MapPoolEntry>) -> Seq<MapPoolEntry>
    decreases s.len(),
{
    if s.len() == 0 {
        s
    } else if s.last().disabled {
        enabled_maps(s.drop_last())
    } else {
        enabled_maps(s.drop_last()).push(s.last())
    }
}

/// `j` is the first position of `x` in `s`.
pub open spec fn is_first_index(s: Seq<Seq<char>>, x: Seq<char>, j: int) -> bool {
    &&& 0 <= j < s.len()
    &&& s[j] == x
    &&& forall|i: int| 0 <= i < j ==> s[i] != x
}

/// The first position of `x` in `s`, or -1 when `x` is not there.
pub open spec fn first_index(s: Seq<Seq<char>>, x: Seq<char>) -> int {
    if exists|j: int| is_first_index(s, x, j) {
        choose|j: int| is_first_index(s, x, j)
    } else {
        -1
    }
}

/// The names of a list of maps.
pub open spec fn map_names(s: Seq<MapPoolEntry>) -> Seq<Seq<char>> {
    s.map_values(|m: MapPoolEntry| m.name@)
}

/// The locations of a list of server templates.
pub open spec fn server_locations(s: Seq<ServerTemplates>) -> Seq<Seq<char>> {
    s.map_values(|t: ServerTemplates| t.location@)
}

/// The team of the series that is not `role`.
pub open spec fn other_team(v: SetupView, role: i64) -> i64 {
    if role == v.team_one.role {
        v.team_two.role
    } else {
        v.team_one.role
    }
}

/// The team whose turn it is, if any: the server veto team while servers
/// are picked, the team of the current step during the map veto, and the
/// team that did not pick the current map during the side pick.
pub open spec fn turn_team(v: SetupView) -> Option<i64> {
    match v.current_phase {
        SetupState::ServerPick => Some(v.server_veto_team),
        SetupState::MapVeto => if v.current_step < v.veto_pick_order.len() {
            Some(v.veto_pick_order[v.current_step as int].team_role)
        } else {
            None
        },
        SetupState::SidePick => if v.current_step < v.maps_sel.len() {
            Some(other_team(v, v.maps_sel[v.current_step as int].picked_by_role))
        } else {
            None
        },
    }
}

/// Every side has been chosen.
pub open spec fn is_complete(v: SetupView) -> bool {
    v.current_phase == SetupState::SidePick && v.current_step == v.maps_sel.len()
}

/// The action on servers while `n` of them remain: veto above two, else pick.
pub open spec fn server_action(n: nat) -> StepType {
    if n > 2 {
        StepType::Veto
    } else {
        StepType::Pick
    }
}

/// A step with its map decided.
pub open spec fn decided_step(s: NewVoteInfo, map: i32) -> NewVoteInfo {
    NewVoteInfo { map: Some(map), ..s }
}

/// A freshly picked map, sides not yet chosen.
pub open spec fn new_selection(m: MapPoolEntry, team: i64) -> SelectedMap {
    SelectedMap {
        map_id: m.id,
        map_name: m.name,
        picked_by_role: team,
        start_ct_team_role: None,
        start_t_team_role: None,
    }
}

/// A selected map with its starting sides set.
pub open spec fn with_sides(m: SelectedMap, ct: i64, t: i64) -> SelectedMap {
    SelectedMap { start_ct_team_role: Some(ct), start_t_team_role: Some(t), ..m }
}

/// An authorized server decision: above two candidates the choice is
/// vetoed and the turn passes; at two (or one) the choice becomes the
/// match server and the map veto starts.
pub open spec fn server_pick_spec(v: SetupView, choice: Seq<char>) -> (
    SetupView,
    Result<Progress, SetupError>,
) {
    let j = first_index(server_locations(v.servers_remaining), choice);
    if j < 0 {
        (v, Err(SetupError::InvalidChoice))
    } else if v.servers_remaining.len() > 2 {
        let rest = v.servers_remaining.remove(j);
        let next = other_team(v, v.server_veto_team);
        (
            SetupView { servers_remaining: rest, server_veto_team: next, ..v },
            Ok(Progress::ServerVetoed { next_team: next, next_action: server_action(rest.len()) }),
        )
    } else {
        (
            SetupView {
                server_id: Some(v.servers_remaining[j].server_id),
                current_phase: SetupState::MapVeto,
                current_step: 0,
                ..v
            },
            Ok(Progress::ServerChosen),
        )
    }
}

/// An authorized map decision: the map leaves the pool, is recorded on the
/// current step, becomes a selected map if the step is a pick, and the
/// cursor moves on; after the last step the side pick starts at the first
/// selected map.
pub open spec fn map_veto_spec(v: SetupView, choice: Seq<char>) -> (
    SetupView,
    Result<Progress, SetupError>,
) {
    let j = first_index(map_names(v.maps_remaining), choice);
    if j < 0 {
        (v, Err(SetupError::InvalidChoice))
    } else {
        let i = v.current_step as int;
        let st = v.veto_pick_order[i];
        let m = v.maps_remaining[j];
        let sel = if st.vote_type == StepType::Pick {
            v.maps_sel.push(new_selection(m, st.team_role))
        } else {
            v.maps_sel
        };
        let order = v.veto_pick_order.update(i, decided_step(st, m.id));
        let w = SetupView {
            maps_remaining: v.maps_remaining.remove(j),
            veto_pick_order: order,
            maps_sel: sel,
            ..v
        };
        if i + 1 == v.veto_pick_order.len() {
            (
                SetupView { current_step: 0, current_phase: SetupState::SidePick, ..w },
                Ok(Progress::VetoCompleted { side_pick_team: other_team(v, sel[0].picked_by_role) }),
            )
        } else {
            (
                SetupView { current_step: (i + 1) as usize, ..w },
                Ok(
                    Progress::MapDecided {
                        next_team: order[i + 1].team_role,
                        next_action: order[i + 1].vote_type,
                    },
                ),
            )
        }
    }
}

/// An authorized side decision by `chooser` ("ct" or "t"): the chooser
/// takes that side on the current map, the picking team the other, and the
/// cursor moves on.
pub open spec fn side_pick_spec(v: SetupView, chooser: i64, choice: Seq<char>) -> (
    SetupView,
    Result<Progress, SetupError>,
) {
    if choice != "ct"@ && choice != "t"@ {
        (v, Err(SetupError::InvalidChoice))
    } else {
        let i = v.current_step as int;
        let m = v.maps_sel[i];
        let picker = m.picked_by_role;
        let chosen = if choice == "ct"@ {
            with_sides(m, chooser, picker)
        } else {
            with_sides(m, picker, chooser)
        };
        let w = SetupView { maps_sel: v.maps_sel.update(i, chosen), current_step: (i + 1) as usize, ..v };
        if i + 1 == v.maps_sel.len() {
            (w, Ok(Progress::SetupCompleted))
        } else {
            (w, Ok(Progress::SideChosen { next_team: other_team(v, v.maps_sel[i + 1].picked_by_role) }))
        }
    }
}

/// One decision of `actor` (its team's role, or none) for `phase`: checked
/// against the phase and whose turn it is, then applied.
pub open spec fn decide(v: SetupView, actor: Option<i64>, phase: SetupState, choice: Seq<char>) -> (
    SetupView,
    Result<Progress, SetupError>,
) {
    if actor is None {
        (v, Err(SetupError::NotOnTeam))
    } else if phase != v.current_phase || is_complete(v) {
        (v, Err(SetupError::WrongPhase))
    } else if turn_team(v) != Some(actor->0) {
        (v, Err(SetupError::NotYourTurn))
    } else {
        match v.current_phase {
            SetupState::ServerPick => server_pick_spec(v, choice),
            SetupState::MapVeto => map_veto_spec(v, choice),
            SetupState::SidePick => side_pick_spec(v, actor->0, choice),
        }
    }
}

/// How many steps of the veto/pick order have been decided.
pub open spec fn decided_count(v: SetupView) -> int {
    match v.current_phase {
        SetupState::ServerPick => 0,
        SetupState::MapVeto => v.current_step as int,
        SetupState::SidePick => v.veto_pick_order.len() as int,
    }
}

/// Both starting sides are set, to the two teams, one each.
pub open spec fn sides_valid(m: SelectedMap, one: i64, two: i64) -> bool {
    &&& m.start_ct_team_role is Some
    &&& m.start_t_team_role is Some
    &&& {
        let ct = m.start_ct_team_role->0;
        let t = m.start_t_team_role->0;
        (ct == one && t == two) || (ct == two && t == one)
    }
}

/// The invariant of a setup session.
pub open spec fn setup_wf(v: SetupView) -> bool {
    let one = v.team_one.role;
    let two = v.team_two.role;
    let table = turn_table(v.series_type, one, two);
    &&& one != two
    &&& v.veto_pick_order.len() == table.len()
    &&& forall|i: int|
        0 <= i < v.veto_pick_order.len() ==> (#[trigger] v.veto_pick_order[i]).vote_type
            == table[i].0 && v.veto_pick_order[i].team_role == table[i].1
    &&& forall|i: int|
        0 <= i < decided_count(v) ==> (#[trigger] v.veto_pick_order[i]).map is Some
    &&& v.maps_sel.len() == count_kind(table.take(decided_count(v)), StepType::Pick)
    &&& forall|i: int|
        0 <= i < v.maps_sel.len() ==> (#[trigger] v.maps_sel[i]).picked_by_role == one
            || v.maps_sel[i].picked_by_role == two
    &&& forall|i: int|
        0 <= i < v.maps_sel.len() ==> if v.current_phase == SetupState::SidePick && i
            < v.current_step {
            sides_valid(#[trigger] v.maps_sel[i], one, two)
        } else {
            v.maps_sel[i].start_ct_team_role is None && v.maps_sel[i].start_t_team_role is None
        }
    &&& v.maps_remaining.len() + decided_count(v) >= 7
    &&& v.current_phase == SetupState::ServerPick ==> {
        &&& v.current_step == 0
        &&& v.servers_remaining.len() >= 2
        &&& v.server_veto_team == one || v.server_veto_team == two
    }
    &&& v.current_phase == SetupState::MapVeto ==> v.current_step < v.veto_pick_order.len()
    &&& v.current_phase == SetupState::SidePick ==> {
        &&& v.current_step <= v.maps_sel.len()
        &&& v.maps_sel.len() >= 1
    }
}

/// The first position of a map named `name`.
pub fn find_map(maps: &Vec<MapPoolEntry>, name: &str) -> (r: Option<usize>)
    ensures
        match r {
            Some(j) => is_first_index(map_names(maps@), name@, j as int) && first_index(
                map_names(maps@),
                name@,
            ) == j,
            None => first_index(map_names(maps@), name@) == -1,
        },
{
    let mut k: usize = 0;
    while k < maps.len()
        invariant
            k <= maps.len(),
            forall|i: int| 0 <= i < k ==> map_names(maps@)[i] != name@,
        decreases maps.len() - k,
    {
        if same_text(maps[k].name.as_str(), name) {
            proof {
                lemma_first_index_unique(map_names(maps@), name@, k as int);
            }
            return Some(k);
        }
        k += 1;
    }
    None
}

/// The first position of a server template at `location`.
pub fn find_server(servers: &Vec<ServerTemplates>, location: &str) -> (r: Option<usize>)
    ensures
        match r {
            Some(j) => is_first_index(server_locations(servers@), location@, j as int)
                && first_index(server_locations(servers@), location@) == j,
            None => first_index(server_locations(servers@), location@) == -1,
        },
{
    let mut k: usize = 0;
    while k < servers.len()
        invariant
            k <= servers.len(),
            forall|i: int| 0 <= i < k ==> server_locations(servers@)[i] != location@,
        decreases servers.len() - k,
    {
        if same_text(servers[k].location.as_str(), location) {
            proof {
                lemma_first_index_unique(server_locations(servers@), location@, k as int);
            }
            return Some(k);
        }
        k += 1;
    }
    None
}

/// A first position is the only one.
proof fn lemma_first_index_unique(s: Seq<Seq<char>>, x: Seq<char>, j: int)
    requires
        is_first_index(s, x, j),
    ensures
        first_index(s, x) == j,
{
    let c = first_index(s, x);
    assert(is_first_index(s, x, c));
    if c < j {
        assert(s[c] != x);
    } else if c > j {
        assert(s[j] != x);
    }
}

/// The enabled maps of a pool.
pub fn enabled_pool(maps: &Vec<MapPoolEntry>) -> (r: Vec<MapPoolEntry>)
    ensures
        r@ == enabled_maps(maps@),
{
    let mut r: Vec<MapPoolEntry> = Vec::new();
    let mut k: usize = 0;
    while k < maps.len()
        invariant
            k <= maps.len(),
            r@ == enabled_maps(maps@.take(k as int)),
        decreases maps.len() - k,
    {
        proof {
            assert(maps@.take(k + 1).drop_last() =~= maps@.take(k as int));
        }
        if !maps[k].disabled {
            r.push(crate::models::copy_map(&maps[k]));
        }
        k += 1;
    }
    proof {
        assert(maps@.take(maps.len() as int) =~= maps@);
    }
    r
}

impl Setup {
    /// Starts a setup session for a series between two teams, from the map
    /// pool and the server templates. The veto/pick order is generated once,
    /// here. With a single template the server pick is skipped; otherwise
    /// team two acts first on servers.
    pub fn new(
        match_series: i32,
        series_type: SeriesType,
        team_one: Team,
        team_two: Team,
        maps: &Vec<MapPoolEntry>,
        servers: Vec<ServerTemplates>,
    ) -> (r: Result<Setup, StartError>)
        ensures
            r == Err::<Setup, StartError>(StartError::SameTeam) <==> team_one.role == team_two.role,
            r == Err::<Setup, StartError>(StartError::NotEnoughMaps) <==> team_one.role
                != team_two.role && enabled_maps(maps@).len() < 7,
            r == Err::<Setup, StartError>(StartError::NoServerTemplates) <==> team_one.role
                != team_two.role && enabled_maps(maps@).len() >= 7 && servers@.len() == 0,
            r matches Ok(s) ==> {
                &&& setup_wf(s@)
                &&& s.team_one == team_one
                &&& s.team_two == team_two
                &&& s.series_type == series_type
                &&& s.match_series == match_series
                &&& s@.maps_remaining == enabled_maps(maps@)
                &&& s@.maps_sel.len() == 0
                &&& is_turn_order(
                    s@.veto_pick_order,
                    series_type,
                    match_series,
                    team_one.role,
                    team_two.role,
                )
                &&& s.init_veto_msg@ == announcement(series_type, team_one.role, team_two.role)
                &&& s.current_step == 0
                &&& s.server_veto_team == team_two.role
                &&& s@.servers_remaining == servers@
                &&& if servers@.len() == 1 {
                    s.current_phase == SetupState::MapVeto && s.server_id == Some(
                        servers@[0].server_id,
                    )
                } else {
                    s.current_phase == SetupState::ServerPick && s.server_id is None
                }
                &&& s.server_hostname is None
                &&& s.server_game_port is None
                &&& s.server_gotv_port is None
                &&& s.team_one_conn_str is None
                &&& s.team_two_conn_str is None
            },
    {
        if team_one.role == team_two.role {
            return Err(StartError::SameTeam);
        }
        let maps_remaining = enabled_pool(maps);
        if maps_remaining.len() < 7 {
            return Err(StartError::NotEnoughMaps);
        }
        if servers.len() == 0 {
            return Err(StartError::NoServerTemplates);
        }
        let (order, msg) = veto_pick_order(series_type, match_series, team_one.role, team_two.role);
        let (phase, server_id) = if servers.len() == 1 {
            (SetupState::MapVeto, Some(servers[0].server_id.clone()))
        } else {
            (SetupState::ServerPick, None)
        };
        let veto_team = team_two.role;
        let s = Setup {
            team_one_conn_str: None,
            team_two_conn_str: None,
            maps_remaining,
            maps_sel: Vec::new(),
            series_type,
            match_series,
            veto_pick_order: order,
            init_veto_msg: msg,
            current_step: 0,
            current_phase: phase,
            servers_remaining: servers,
            server_veto_team: veto_team,
            server_id,
            server_hostname: None,
            server_game_port: None,
            server_gotv_port: None,
            team_one,
            team_two,
        };
        proof {
            let table = turn_table(series_type, s.team_one.role, s.team_two.role);
            assert(table.take(0) =~= Seq::<(StepType, i64)>::empty());
            assert forall|i: int| 0 <= i < s@.veto_pick_order.len() implies (
            #[trigger] s@.veto_pick_order[i]).vote_type == table[i].0
                && s@.veto_pick_order[i].team_role == table[i].1 by {
                assert(s@.veto_pick_order[i] == crate::turn_order::undecided_step(match_series, table[i]));
            }
        }
        Ok(s)
    }
    /// The team of the series that is not `role`.
    pub fn other_team(&self, role: i64) -> (r: i64)
        ensures
            r == other_team(self@, role),
    {
        if role == self.team_one.role {
            self.team_two.role
        } else {
            self.team_one.role
        }
    }

    /// Whose turn it is (the phase authorization gate).
    pub fn turn_team(&self) -> (r: Option<i64>)
        ensures
            r == turn_team(self@),
    {
        match self.current_phase {
            SetupState::ServerPick => Some(self.server_veto_team),
            SetupState::MapVeto => if self.current_step < self.veto_pick_order.len() {
                Some(self.veto_pick_order[self.current_step].team_role)
            } else {
                None
            },
            SetupState::SidePick => if self.current_step < self.maps_sel.len() {
                Some(self.other_team(self.maps_sel[self.current_step].picked_by_role))
            } else {
                None
            },
        }
    }

    /// Whether every side has been chosen.
    pub fn is_complete(&self) -> (r: bool)
        ensures
            r == is_complete(self@),
    {
        self.current_phase == SetupState::SidePick && self.current_step == self.maps_sel.len()
    }

    /// Applies an authorized server decision.
    pub fn server_pick_phase(&mut self, choice: &str) -> (r: Result<Progress, SetupError>)
        requires
            old(self)@.current_phase == SetupState::ServerPick,
        ensures
            (final(self)@, r) == server_pick_spec(old(self)@, choice@),
            r is Err ==> *final(self) == *old(self),
    {
        match find_server(&self.servers_remaining, choice) {
            None => Err(SetupError::InvalidChoice),
            Some(j) => {
                if self.servers_remaining.len() > 2 {
                    self.servers_remaining.remove(j);
                    let next = self.other_team(self.server_veto_team);
                    self.server_veto_team = next;
                    let next_action = if self.servers_remaining.len() > 2 {
                        StepType::Veto
                    } else {
                        StepType::Pick
                    };
                    Ok(Progress::ServerVetoed { next_team: next, next_action })
                } else {
                    self.server_id = Some(self.servers_remaining[j].server_id.clone());
                    self.current_phase = SetupState::MapVeto;
                    self.current_step = 0;
                    Ok(Progress::ServerChosen)
                }
            },
        }
    }

    /// Applies an authorized map decision.
    pub fn map_veto_phase(&mut self, choice: &str) -> (r: Result<Progress, SetupError>)
        requires
            old(self)@.current_phase == SetupState::MapVeto,
            setup_wf(old(self)@),
        ensures
            (final(self)@, r) == map_veto_spec(old(self)@, choice@),
            r is Err ==> *final(self) == *old(self),
    {
        let i = self.current_step;
        let st = self.veto_pick_order[i];
        match find_map(&self.maps_remaining, choice) {
            None => Err(SetupError::InvalidChoice),
            Some(j) => {
                let m = self.maps_remaining.remove(j);
                let map_id = m.id;
                if st.vote_type == StepType::Pick {
                    self.maps_sel.push(
                        SelectedMap {
                            map_id: m.id,
                            map_name: m.name,
                            picked_by_role: st.team_role,
                            start_ct_team_role: None,
                            start_t_team_role: None,
                        },
                    );
                }
                self.veto_pick_order.set(
                    i,
                    NewVoteInfo {
                        match_series: st.match_series,
                        map: Some(map_id),
                        vote_type: st.vote_type,
                        team_role: st.team_role,
                    },
                );
                if i + 1 == self.veto_pick_order.len() {
                    proof {
                        crate::turn_order::lemma_turn_counts(
                            self.series_type,
                            self.team_one.role,
                            self.team_two.role,
                        );
                        let t = turn_table(self.series_type, self.team_one.role, self.team_two.role);
                        assert(t.take(t.len() as int) =~= t);
                        lemma_count_take_step(t, i as int, StepType::Pick);
                    }
                    self.current_step = 0;
                    self.current_phase = SetupState::SidePick;
                    let first = self.maps_sel[0].picked_by_role;
                    Ok(Progress::VetoCompleted { side_pick_team: self.other_team(first) })
                } else {
                    self.current_step = i + 1;
                    let next = self.veto_pick_order[i + 1];
                    Ok(Progress::MapDecided { next_team: next.team_role, next_action: next.vote_type })
                }
            },
        }
    }

    /// Applies an authorized side decision by `chooser`.
    pub fn side_pick_phase(&mut self, chooser: i64, choice: &str) -> (r: Result<
        Progress,
        SetupError,
    >)
        requires
            old(self)@.current_phase == SetupState::SidePick,
            old(self)@.current_step < old(self)@.maps_sel.len(),
        ensures
            (final(self)@, r) == side_pick_spec(old(self)@, chooser, choice@),
            r is Err ==> *final(self) == *old(self),
    {
        let is_ct = same_text(choice, "ct");
        if !is_ct && !same_text(choice, "t") {
            return Err(SetupError::InvalidChoice);
        }
        let i = self.current_step;
        let n = self.maps_sel.len();
        assert(i < n);
        let picker = self.maps_sel[i].picked_by_role;
        let (ct, t) = if is_ct { (chooser, picker) } else { (picker, chooser) };
        let chosen = SelectedMap {
            map_id: self.maps_sel[i].map_id,
            map_name: self.maps_sel[i].map_name.clone(),
            picked_by_role: picker,
            start_ct_team_role: Some(ct),
            start_t_team_role: Some(t),
        };
        self.maps_sel.set(i, chosen);
        self.current_step = i + 1;
        if i + 1 == self.maps_sel.len() {
            Ok(Progress::SetupCompleted)
        } else {
            let next_picker = self.maps_sel[i + 1].picked_by_role;
            Ok(Progress::SideChosen { next_team: self.other_team(next_picker) })
        }
    }

    /// Handles one decision of `actor` (its team's role, or none when the
    /// actor is on neither team) for `phase`. A rejected decision leaves the
    /// setup exactly as it was.
    pub fn handle_decision(&mut self, actor: Option<i64>, phase: SetupState, choice: &str) -> (r:
        Result<Progress, SetupError>)
        requires
            setup_wf(old(self)@),
        ensures
            (final(self)@, r) == decide(old(self)@, actor, phase, choice@),
            setup_wf(final(self)@),
            r is Err ==> *final(self) == *old(self),
    {
        proof {
            lemma_decide_preserves_wf(self@, actor, phase, choice@);
        }
        let team = match actor {
            None => {
                return Err(SetupError::NotOnTeam);
            },
            Some(team) => team,
        };
        if phase != self.current_phase || self.is_complete() {
            return Err(SetupError::WrongPhase);
        }
        match self.turn_team() {
            Some(t) => {
                if t != team {
                    return Err(SetupError::NotYourTurn);
                }
            },
            None => {
                return Err(SetupError::NotYourTurn);
            },
        }
        match self.current_phase {
            SetupState::ServerPick => self.server_pick_phase(choice),
            SetupState::MapVeto => self.map_veto_phase(choice),
            SetupState::SidePick => self.side_pick_phase(team, choice),
        }
    }
}

/// Counting over one more step of a table.
proof fn lemma_count_take_step(t: Seq<(StepType, i64)>, i: int, k: StepType)
    requires
        0 <= i < t.len(),
    ensures
        count_kind(t.take(i + 1), k) == count_kind(t.take(i), k) + (if t[i].0 == k {
            1nat
        } else {
            0nat
        }),
{
    assert(t.take(i + 1).drop_last() =~= t.take(i));
}

/// A count never exceeds the length of the table.
proof fn lemma_count_le_len(t: Seq<(StepType, i64)>, k: StepType)
    ensures
        count_kind(t, k) <= t.len(),
    decreases t.len(),
{
    if t.len() > 0 {
        lemma_count_le_len(t.drop_last(), k);
    }
}

/// In a well-formed setup at most seven maps are selected.
pub(crate) proof fn lemma_selected_bound(v: SetupView)
    requires
        setup_wf(v),
    ensures
        v.maps_sel.len() <= 7,
{
    let table = turn_table(v.series_type, v.team_one.role, v.team_two.role);
    lemma_count_le_len(table.take(decided_count(v)), StepType::Pick);
}

/// A server decision keeps the session invariant.
proof fn lemma_server_pick_wf(v: SetupView, choice: Seq<char>)
    requires
        setup_wf(v),
        v.current_phase == SetupState::ServerPick,
    ensures
        setup_wf(server_pick_spec(v, choice).0),
{
    let w = server_pick_spec(v, choice).0;
    let table = turn_table(v.series_type, v.team_one.role, v.team_two.role);
    assert(table.take(0) =~= Seq::<(StepType, i64)>::empty());
    assert(w.maps_sel == v.maps_sel);
}

/// A map decision keeps the session invariant.
proof fn lemma_map_veto_wf(v: SetupView, choice: Seq<char>)
    requires
        setup_wf(v),
        v.current_phase == SetupState::MapVeto,
    ensures
        setup_wf(map_veto_spec(v, choice).0),
{
    let (w, r) = map_veto_spec(v, choice);
    if r is Ok {
        let one = v.team_one.role;
        let two = v.team_two.role;
        let table = turn_table(v.series_type, one, two);
        let i = v.current_step as int;
        lemma_count_take_step(table, i, StepType::Pick);
        crate::turn_order::lemma_turn_counts(v.series_type, one, two);
        assert(v.veto_pick_order[i].team_role == table[i].1);
        if i + 1 == v.veto_pick_order.len() {
            assert(table.take(table.len() as int) =~= table);
            assert(table.take(i + 1) =~= table);
        }
        assert forall|k: int| 0 <= k < w.veto_pick_order.len() implies (
        #[trigger] w.veto_pick_order[k]).vote_type == table[k].0
            && w.veto_pick_order[k].team_role == table[k].1 by {
            assert(v.veto_pick_order[k].vote_type == table[k].0);
        }
        assert forall|k: int| 0 <= k < w.maps_sel.len() implies (#[trigger] w.maps_sel[k]).picked_by_role
            == one || w.maps_sel[k].picked_by_role == two by {
            if k < v.maps_sel.len() {
                assert(w.maps_sel[k] == v.maps_sel[k]);
            }
        }
        assert forall|k: int| 0 <= k < w.maps_sel.len() implies if w.current_phase
            == SetupState::SidePick && k < w.current_step {
            sides_valid(#[trigger] w.maps_sel[k], one, two)
        } else {
            w.maps_sel[k].start_ct_team_role is None && w.maps_sel[k].start_t_team_role is None
        } by {
            if k < v.maps_sel.len() {
                assert(w.maps_sel[k] == v.maps_sel[k]);
            }
        }
    }
}

/// A side decision keeps the session invariant.
proof fn lemma_side_pick_wf(v: SetupView, chooser: i64, choice: Seq<char>)
    requires
        setup_wf(v),
        v.current_phase == SetupState::SidePick,
        v.current_step < v.maps_sel.len(),
        chooser == other_team(v, v.maps_sel[v.current_step as int].picked_by_role),
    ensures
        setup_wf(side_pick_spec(v, chooser, choice).0),
{
    let (w, r) = side_pick_spec(v, chooser, choice);
    if r is Ok {
        let one = v.team_one.role;
        let two = v.team_two.role;
        let i = v.current_step as int;
        lemma_selected_bound(v);
        assert forall|k: int| 0 <= k < w.maps_sel.len() implies (#[trigger] w.maps_sel[k]).picked_by_role
            == one || w.maps_sel[k].picked_by_role == two by {
            assert(v.maps_sel[k].picked_by_role == one || v.maps_sel[k].picked_by_role == two);
        }
        assert forall|k: int| 0 <= k < w.maps_sel.len() implies if w.current_phase
            == SetupState::SidePick && k < w.current_step {
            sides_valid(#[trigger] w.maps_sel[k], one, two)
        } else {
            w.maps_sel[k].start_ct_team_role is None && w.maps_sel[k].start_t_team_role is None
        } by {
            assert(v.maps_sel[k].picked_by_role == one || v.maps_sel[k].picked_by_role == two);
            if k != i {
                assert(w.maps_sel[k] == v.maps_sel[k]);
                if k > i {
                    assert(!(v.current_phase == SetupState::SidePick && k < v.current_step));
                    assert(v.maps_sel[k].start_ct_team_role is None);
                }
            }
        }
    }
}

/// Every decision keeps the session invariant.
pub proof fn lemma_decide_preserves_wf(
    v: SetupView,
    actor: Option<i64>,
    phase: SetupState,
    choice: Seq<char>,
)
    requires
        setup_wf(v),
    ensures
        setup_wf(decide(v, actor, phase, choice).0),
{
    if actor is Some && phase == v.current_phase && !is_complete(v) && turn_team(v) == Some(
        actor->0,
    ) {
        match v.current_phase {
            SetupState::ServerPick => lemma_server_pick_wf(v, choice),
            SetupState::MapVeto => lemma_map_veto_wf(v, choice),
            SetupState::SidePick => lemma_side_pick_wf(v, actor->0, choice),
        }
    }
}
/// A rejected decision leaves the setup exactly as it was.
pub proof fn lemma_rejection_changes_nothing(
    v: SetupView,
    actor: Option<i64>,
    phase: SetupState,
    choice: Seq<char>,
)
    ensures
        decide(v, actor, phase, choice).1 is Err ==> decide(v, actor, phase, choice).0 == v,
{
}

/// The remaining map pool only ever loses maps: an accepted map decision
/// removes exactly the chosen map, once; every other decision keeps the pool.
pub proof fn lemma_map_pool_shrinks(
    v: SetupView,
    actor: Option<i64>,
    phase: SetupState,
    choice: Seq<char>,
)
    requires
        setup_wf(v),
    ensures
        ({
            let (w, r) = decide(v, actor, phase, choice);
            &&& (r is Ok && v.current_phase == SetupState::MapVeto) ==> {
                &&& w.maps_remaining.len() + 1 == v.maps_remaining.len()
                &&& exists|j: int|
                    0 <= j < v.maps_remaining.len() && v.maps_remaining[j].name@ == choice
                        && w.maps_remaining == v.maps_remaining.remove(j)
            }
            &&& !(r is Ok && v.current_phase == SetupState::MapVeto) ==> w.maps_remaining
                == v.maps_remaining
            &&& forall|k: int|
                0 <= k < w.maps_remaining.len() ==> v.maps_remaining.contains(
                    #[trigger] w.maps_remaining[k],
                )
        }),
{
    let (w, r) = decide(v, actor, phase, choice);
    if r is Ok && v.current_phase == SetupState::MapVeto {
        let j = first_index(map_names(v.maps_remaining), choice);
        assert(is_first_index(map_names(v.maps_remaining), choice, j));
        assert(w.maps_remaining == v.maps_remaining.remove(j));
        assert forall|k: int| 0 <= k < w.maps_remaining.len() implies v.maps_remaining.contains(
            #[trigger] w.maps_remaining[k],
        ) by {
            if k < j {
                assert(w.maps_remaining[k] == v.maps_remaining[k]);
            } else {
                assert(w.maps_remaining[k] == v.maps_remaining[k + 1]);
            }
        }
    } else {
        assert forall|k: int| 0 <= k < w.maps_remaining.len() implies v.maps_remaining.contains(
            #[trigger] w.maps_remaining[k],
        ) by {
            assert(w.maps_remaining[k] == v.maps_remaining[k]);
        }
    }
}

/// The step cursor moves by exactly one per accepted map or side decision,
/// and the phase changes exactly when it reaches the length of the list it
/// runs over: the map veto ends (and the cursor restarts at zero for the
/// side pick) after the last step of the veto/pick order, and the setup is
/// complete after the side of the last selected map is chosen.
pub proof fn lemma_cursor_advances(
    v: SetupView,
    actor: Option<i64>,
    phase: SetupState,
    choice: Seq<char>,
)
    requires
        setup_wf(v),
    ensures
        ({
            let (w, r) = decide(v, actor, phase, choice);
            &&& r is Err ==> w.current_step == v.current_step && w.current_phase
                == v.current_phase
            &&& (r is Ok && v.current_phase == SetupState::MapVeto) ==> if v.current_step + 1
                == v.veto_pick_order.len() {
                w.current_phase == SetupState::SidePick && w.current_step == 0
            } else {
                w.current_phase == SetupState::MapVeto && w.current_step == v.current_step + 1
            }
            &&& (r is Ok && v.current_phase == SetupState::SidePick) ==> {
                &&& w.current_phase == SetupState::SidePick
                &&& w.current_step == v.current_step + 1
                &&& is_complete(w) <==> v.current_step + 1 == v.maps_sel.len()
            }
            &&& (r is Ok && v.current_phase == SetupState::ServerPick) ==> w.current_step == 0
        }),
{
    lemma_selected_bound(v);
}

/// On every selected map whose sides are set, the two starting sides belong
/// to the two distinct teams of the series, one each.
pub proof fn lemma_sides_complementary(v: SetupView, i: int)
    requires
        setup_wf(v),
        0 <= i < v.maps_sel.len(),
        v.maps_sel[i].start_ct_team_role is Some || v.maps_sel[i].start_t_team_role is Some,
    ensures
        v.maps_sel[i].start_ct_team_role is Some,
        v.maps_sel[i].start_t_team_role is Some,
        v.maps_sel[i].start_ct_team_role->0 != v.maps_sel[i].start_t_team_role->0,
        v.maps_sel[i].start_ct_team_role->0 == v.team_one.role
            || v.maps_sel[i].start_ct_team_role->0 == v.team_two.role,
        v.maps_sel[i].start_t_team_role->0 == v.team_one.role
            || v.maps_sel[i].start_t_team_role->0 == v.team_two.role,
{
}

/// An accepted side decision is made by the team that did not pick the
/// map, which gets the side it chose while the picking team gets the other.
pub proof fn lemma_side_chosen_by_non_picker(
    v: SetupView,
    actor: Option<i64>,
    phase: SetupState,
    choice: Seq<char>,
)
    requires
        setup_wf(v),
    ensures
        ({
            let (w, r) = decide(v, actor, phase, choice);
            let i = v.current_step as int;
            (r is Ok && v.current_phase == SetupState::SidePick) ==> {
                let picker = v.maps_sel[i].picked_by_role;
                let m = w.maps_sel[i];
                &&& actor == Some(other_team(v, picker))
                &&& actor->0 != picker
                &&& choice == "ct"@ ==> m.start_ct_team_role == actor && m.start_t_team_role
                    == Some(picker)
                &&& choice != "ct"@ ==> m.start_t_team_role == actor && m.start_ct_team_role
                    == Some(picker)
            }
        }),
{
}

} // verus!
