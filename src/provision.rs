use vstd::prelude::*;
use crate::models::{SeriesType, SelectedMap};
use crate::setup::{is_complete, setup_wf, Setup, SetupView};
use crate::text::{decimal, digit_char, push_decimal};

verus! {

/// Ports of a live game server.
#[derive(Debug, Clone, Copy, PartialEq, Eq, Structural)]
pub struct Ports {
    pub game: i64,
    pub gotv: i64,
}

/// What the game host answers to a duplicate request: the new server's id,
/// address and ports.
#[derive(Debug, Clone)]
pub struct ServerDuplicateResponse {
    pub game: Option<String>,
    pub id: String,
    pub ip: String,
    pub ports: Ports,
    pub location: Option<String>,
}

/// What the game host answers to a start request: the external match id.
#[derive(Debug, Clone)]
pub struct DathostStartResponse {
    pub id: String,
}

/// The request for a game-server login token.
#[derive(Debug, Clone)]
pub struct CreateGsltRequest {
    pub key: String,
    pub appid: u32,
    pub memo: String,
}

/// The identity provider's answer to a token request.
#[derive(Debug, Clone)]
pub struct SteamApiRootResponse {
    pub response: SteamApiResponse,
}

/// The body of the identity provider's answer.
#[derive(Debug, Clone)]
pub struct SteamApiResponse {
    pub steamid: String,
    pub login_token: String,
}

/// Bytes that percent-encoding keeps: ASCII letters, digits, `-`, `.`, `_`, `~`.
pub open spec fn url_safe(b: u8) -> bool {
    (48 <= b <= 57) || (65 <= b <= 90) || (97 <= b <= 122) || b == 45 || b == 46 || b == 95
        || b == 126
}

/// The upper-case hexadecimal digit for `d` (`d < 16`).
pub open spec fn hex_digit(d: nat) -> char {
    if d < 10 {
        digit_char(d)
    } else if d == 10 {
        'A'
    } else if d == 11 {
        'B'
    } else if d == 12 {
        'C'
    } else if d == 13 {
        'D'
    } else if d == 14 {
        'E'
    } else {
        'F'
    }
}

/// One byte percent-encoded.
pub open spec fn encode_byte(b: u8) -> Seq<char> {
    if url_safe(b) {
        seq![b as char]
    } else {
        seq!['%', hex_digit((b / 16) as nat), hex_digit((b % 16) as nat)]
    }
}

/// Bytes percent-encoded, one after the other.
pub open spec fn percent_encoded(bytes: Seq<u8>) -> Seq<char>
    decreases bytes.len(),
{
    if bytes.len() == 0 {
        seq![]
    } else {
        percent_encoded(bytes.drop_last()) + encode_byte(bytes.last())
    }
}

/// Relies on `urlencoding::encode` (2.1): every byte of the UTF-8 text
/// except ASCII letters, digits and `-`, `.`, `_`, `~` becomes `%` followed
/// by two upper-case hexadecimal digits; the others stay as they are.
#[verifier::external_body]
pub(crate) fn url_encode(s: &str) -> (r: String)
    ensures
        r@ == percent_encoded(vstd::utf8::encode_utf8(s@)),
{
    urlencoding::encode(s).into_owned()
}

/// The game host's address for one game server.
pub open spec fn game_server_url_of(server_id: Seq<char>) -> Seq<char> {
    "https://dathost.net/api/0.1/game-servers/"@ + percent_encoded(
        vstd::utf8::encode_utf8(server_id),
    )
}

/// The address of a game server on the game host, its id percent-encoded.
pub fn game_server_url(server_id: &str) -> (r: String)
    ensures
        r@ == game_server_url_of(server_id@),
{
    let mut s = String::from_str("https://dathost.net/api/0.1/game-servers/");
    let enc = url_encode(server_id);
    s.append(enc.as_str());
    s
}

/// Where the template's files are synced before it is duplicated.
pub fn sync_url(server_id: &str) -> (r: String)
    ensures
        r@ == game_server_url_of(server_id@) + "/sync-files"@,
{
    let mut s = game_server_url(server_id);
    s.append("/sync-files");
    s
}

/// Where a server template is duplicated into a live server.
pub fn duplicate_url(server_id: &str) -> (r: String)
    ensures
        r@ == game_server_url_of(server_id@) + "/duplicate"@,
{
    let mut s = game_server_url(server_id);
    s.append("/duplicate");
    s
}

/// Where a match of the series type is started.
pub fn start_url(series: SeriesType) -> (r: String)
    ensures
        r@ == if series == SeriesType::Bo1 {
            "https://dathost.net/api/0.1/matches"@
        } else {
            "https://dathost.net/api/0.1/match-series"@
        },
{
    if series == SeriesType::Bo1 {
        String::from_str("https://dathost.net/api/0.1/matches")
    } else {
        String::from_str("https://dathost.net/api/0.1/match-series")
    }
}

/// A form as pairs of texts.
pub open spec fn form_view(f: Seq<(String, String)>) -> Seq<(Seq<char>, Seq<char>)> {
    f.map_values(|p: (String, String)| (p.0@, p.1@))
}

fn field(key: &str, value: &str) -> (r: (String, String))
    ensures
        r.0@ == key@,
        r.1@ == value@,
{
    (String::from_str(key), String::from_str(value))
}

/// The name given to the live server of a series.
pub open spec fn server_name_of(match_series: i32) -> Seq<char> {
    "match-server-"@ + decimal(match_series as int)
}

/// The form that names the live server and sets its login token.
pub fn configure_form(match_series: i32, gslt: &str) -> (r: Vec<(String, String)>)
    ensures
        form_view(r@) == seq![
            ("name"@, server_name_of(match_series)),
            ("csgo_settings.steam_game_server_login_token"@, gslt@),
        ],
{
    let mut name = String::from_str("match-server-");
    push_decimal(&mut name, match_series as i64);
    let mut r: Vec<(String, String)> = Vec::new();
    r.push((String::from_str("name"), name));
    r.push(field("csgo_settings.steam_game_server_login_token", gslt));
    proof {
        assert(form_view(r@) =~= seq![
            ("name"@, server_name_of(match_series)),
            ("csgo_settings.steam_game_server_login_token"@, gslt@),
        ]);
    }
    r
}

/// The token request for a live server: keyed by the server's id, for the
/// game's application id, with the series id as memo.
pub fn gslt_request(server_id: &str, match_series: i32) -> (r: CreateGsltRequest)
    ensures
        r.key@ == server_id@,
        r.appid == 730,
        r.memo@ == decimal(match_series as int),
{
    let mut memo = String::new();
    push_decimal(&mut memo, match_series as i64);
    CreateGsltRequest { key: String::from_str(server_id), appid: 730, memo }
}

/// The login token of an identity provider answer.
pub fn login_token(resp: &SteamApiRootResponse) -> (r: String)
    ensures
        r == resp.response.login_token,
{
    resp.response.login_token.clone()
}

/// The teams' names and player lists, CT team first, for a single map whose
/// starting CT team is `ct_role`.
pub open spec fn ct_first(v: SetupView, ct_role: i64) -> (Seq<char>, Seq<char>, Seq<char>, Seq<char>) {
    if ct_role == v.team_one.role {
        (v.team_one.name@, v.team_one_conn_str->0@, v.team_two.name@, v.team_two_conn_str->0@)
    } else {
        (v.team_two.name@, v.team_two_conn_str->0@, v.team_one.name@, v.team_one_conn_str->0@)
    }
}

/// The start form of a single-map match: team one of the form is the team
/// that starts T, team two the team that starts CT.
pub open spec fn start_match_form_of(
    v: SetupView,
    server_id: Seq<char>,
    match_end_webhook_url: Seq<char>,
    round_end_webhook_url: Seq<char>,
) -> Seq<(Seq<char>, Seq<char>)> {
    let (ct_name, ct_ids, t_name, t_ids) = ct_first(v, v.maps_sel[0].start_ct_team_role->0);
    seq![
        ("game_server_id"@, server_id),
        ("map"@, v.maps_sel[0].map_name@),
        ("team1_name"@, t_name),
        ("team2_name"@, ct_name),
        ("team1_steam_ids"@, t_ids),
        ("team2_steam_ids"@, ct_ids),
        ("enable_pause"@, "true"@),
        ("enable_tech_pause"@, "true"@),
        ("match_end_webhook_url"@, match_end_webhook_url),
        ("round_end_webhook_url"@, round_end_webhook_url),
    ]
}

/// Which of the form's teams a role is.
pub open spec fn team_label(v: SetupView, role: i64) -> Seq<char> {
    if role == v.team_one.role {
        "team1"@
    } else {
        "team2"@
    }
}

/// The per-map fields of a series start form: each map's name and the
/// team that starts it on CT, numbered from one.
pub open spec fn map_fields(v: SetupView, maps: Seq<SelectedMap>) -> Seq<(Seq<char>, Seq<char>)>
    decreases maps.len(),
{
    if maps.len() == 0 {
        seq![]
    } else {
        let k = maps.len() as int;
        let m = maps.last();
        map_fields(v, maps.drop_last()) + seq![
            ("map"@ + decimal(k), m.map_name@),
            ("map"@ + decimal(k) + "_start_ct"@, team_label(v, m.start_ct_team_role->0)),
        ]
    }
}

/// The start form of a multi-map series.
pub open spec fn start_series_form_of(
    v: SetupView,
    server_id: Seq<char>,
    match_end_webhook_url: Seq<char>,
    round_end_webhook_url: Seq<char>,
) -> Seq<(Seq<char>, Seq<char>)> {
    seq![
        ("game_server_id"@, server_id),
        ("enable_pause"@, "true"@),
        ("enable_tech_pause"@, "true"@),
        ("match_end_webhook_url"@, match_end_webhook_url),
        ("round_end_webhook_url"@, round_end_webhook_url),
        ("team1_name"@, v.team_one.name@),
        ("team2_name"@, v.team_two.name@),
        ("team1_steam_ids"@, v.team_one_conn_str->0@),
        ("team2_steam_ids"@, v.team_two_conn_str->0@),
    ] + map_fields(v, v.maps_sel) + seq![("number_of_maps"@, decimal(v.maps_sel.len() as int))]
}

/// The setup is complete and both teams' player lists are known.
pub open spec fn ready_to_start(v: SetupView) -> bool {
    &&& setup_wf(v)
    &&& is_complete(v)
    &&& v.team_one_conn_str is Some
    &&& v.team_two_conn_str is Some
}

/// The form that starts a single-map match on the live server.
pub fn start_match(
    setup: &Setup,
    server_id: &str,
    match_end_webhook_url: &str,
    round_end_webhook_url: &str,
) -> (r: Vec<(String, String)>)
    requires
        ready_to_start(setup@),
    ensures
        form_view(r@) == start_match_form_of(
            setup@,
            server_id@,
            match_end_webhook_url@,
            round_end_webhook_url@,
        ),
{
    let first = &setup.maps_sel[0];
    proof {
        crate::setup::lemma_sides_complementary(setup@, 0);
    }
    let ct_role = match first.start_ct_team_role {
        Some(role) => role,
        None => setup.team_one.role,
    };
    let (ct, t) = if ct_role == setup.team_one.role {
        (&setup.team_one, &setup.team_two)
    } else {
        (&setup.team_two, &setup.team_one)
    };
    let (ct_ids, t_ids) = if ct_role == setup.team_one.role {
        (&setup.team_one_conn_str, &setup.team_two_conn_str)
    } else {
        (&setup.team_two_conn_str, &setup.team_one_conn_str)
    };
    let ct_ids = match ct_ids { Some(s) => s.as_str(), None => "" };
    let t_ids = match t_ids { Some(s) => s.as_str(), None => "" };
    let mut r: Vec<(String, String)> = Vec::new();
    r.push(field("game_server_id", server_id));
    r.push(field("map", first.map_name.as_str()));
    r.push(field("team1_name", t.name.as_str()));
    r.push(field("team2_name", ct.name.as_str()));
    r.push(field("team1_steam_ids", t_ids));
    r.push(field("team2_steam_ids", ct_ids));
    r.push(field("enable_pause", "true"));
    r.push(field("enable_tech_pause", "true"));
    r.push(field("match_end_webhook_url", match_end_webhook_url));
    r.push(field("round_end_webhook_url", round_end_webhook_url));
    proof {
        assert(form_view(r@) =~= start_match_form_of(
            setup@,
            server_id@,
            match_end_webhook_url@,
            round_end_webhook_url@,
        ));
    }
    r
}

/// The form that starts a multi-map series on the live server.
pub fn start_series_match(
    setup: &Setup,
    server_id: &str,
    match_end_webhook_url: &str,
    round_end_webhook_url: &str,
) -> (r: Vec<(String, String)>)
    requires
        ready_to_start(setup@),
    ensures
        form_view(r@) == start_series_form_of(
            setup@,
            server_id@,
            match_end_webhook_url@,
            round_end_webhook_url@,
        ),
{
    proof {
        crate::setup::lemma_selected_bound(setup@);
    }
    let one_ids = match &setup.team_one_conn_str { Some(s) => s.as_str(), None => "" };
    let two_ids = match &setup.team_two_conn_str { Some(s) => s.as_str(), None => "" };
    let mut r: Vec<(String, String)> = Vec::new();
    r.push(field("game_server_id", server_id));
    r.push(field("enable_pause", "true"));
    r.push(field("enable_tech_pause", "true"));
    r.push(field("match_end_webhook_url", match_end_webhook_url));
    r.push(field("round_end_webhook_url", round_end_webhook_url));
    r.push(field("team1_name", setup.team_one.name.as_str()));
    r.push(field("team2_name", setup.team_two.name.as_str()));
    r.push(field("team1_steam_ids", one_ids));
    r.push(field("team2_steam_ids", two_ids));
    let ghost head = form_view(r@);
    proof {
        assert(head =~= seq![
            ("game_server_id"@, server_id@),
            ("enable_pause"@, "true"@),
            ("enable_tech_pause"@, "true"@),
            ("match_end_webhook_url"@, match_end_webhook_url@),
            ("round_end_webhook_url"@, round_end_webhook_url@),
            ("team1_name"@, setup@.team_one.name@),
            ("team2_name"@, setup@.team_two.name@),
            ("team1_steam_ids"@, setup@.team_one_conn_str->0@),
            ("team2_steam_ids"@, setup@.team_two_conn_str->0@),
        ]);
        assert(setup@.maps_sel.take(0) =~= Seq::<SelectedMap>::empty());
        assert(head + map_fields(setup@, setup@.maps_sel.take(0)) =~= head);
    }
    let n = setup.maps_sel.len();
    let mut k: usize = 0;
    while k < n
        invariant
            n == setup@.maps_sel.len(),
            n <= 7,
            k <= n,
            ready_to_start(setup@),
            form_view(r@) == head + map_fields(setup@, setup@.maps_sel.take(k as int)),
        decreases n - k,
    {
        let m = &setup.maps_sel[k];
        proof {
            crate::setup::lemma_sides_complementary(setup@, k as int);
        }
        let mut key = String::from_str("map");
        push_decimal(&mut key, (k + 1) as i64);
        let mut side_key = key.clone();
        side_key.append("_start_ct");
        let label = match m.start_ct_team_role {
            Some(role) => if role == setup.team_one.role { "team1" } else { "team2" },
            None => "team2",
        };
        let ghost before = r@;
        r.push((key, m.map_name.clone()));
        r.push((side_key, String::from_str(label)));
        proof {
            let t = setup@.maps_sel.take(k + 1);
            assert(t.drop_last() =~= setup@.maps_sel.take(k as int));
            assert(t.last() == setup@.maps_sel[k as int]);
            assert(form_view(r@) =~= form_view(before) + seq![
                ("map"@ + decimal((k + 1) as int), m.map_name@),
                ("map"@ + decimal((k + 1) as int) + "_start_ct"@, team_label(setup@, m.start_ct_team_role->0)),
            ]);
        }
        k += 1;
    }
    let mut count = String::new();
    push_decimal(&mut count, n as i64);
    let ghost before = r@;
    r.push((String::from_str("number_of_maps"), count));
    proof {
        assert(setup@.maps_sel.take(n as int) =~= setup@.maps_sel);
        assert(form_view(r@) =~= form_view(before) + seq![("number_of_maps"@, decimal(n as int))]);
        assert(form_view(r@) =~= start_series_form_of(
            setup@,
            server_id@,
            match_end_webhook_url@,
            round_end_webhook_url@,
        ));
    }
    r
}

/// Takes in the live server that duplication produced: its host name and
/// ports.
pub fn record_live_server(setup: &mut Setup, live: &ServerDuplicateResponse)
    ensures
        final(setup)@ == (SetupView {
            server_hostname: live.game,
            server_game_port: Some(live.ports.game),
            server_gotv_port: Some(live.ports.gotv),
            ..old(setup)@
        }),
{
    setup.server_hostname = live.game.clone();
    setup.server_game_port = Some(live.ports.game);
    setup.server_gotv_port = Some(live.ports.gotv);
}

/// A game server's address: host, colon, port.
pub open spec fn address_of(ip: Seq<char>, port: i64) -> Seq<char> {
    ip + ":"@ + decimal(port as int)
}

/// The address players connect to: `ip:port`.
pub fn connect_address(ip: &str, port: i64) -> (r: String)
    ensures
        r@ == address_of(ip@, port),
{
    let mut s = String::from_str(ip);
    s.append(":");
    push_decimal(&mut s, port);
    s
}

/// The link that opens the game connected to an address.
pub fn connect_link(address: &str) -> (r: String)
    ensures
        r@ == "steam://connect/"@ + address@,
{
    let mut s = String::from_str("steam://connect/");
    s.append(address);
    s
}

/// The request that shortens a link, the link percent-encoded.
pub fn shortener_url(link: &str) -> (r: String)
    ensures
        r@ == "https://tinyurl.com/api-create.php?url="@ + percent_encoded(
            vstd::utf8::encode_utf8(link@),
        ),
{
    let mut s = String::from_str("https://tinyurl.com/api-create.php?url=");
    let enc = url_encode(link);
    s.append(enc.as_str());
    s
}

/// The console commands that connect to the game and to its broadcast.
pub fn console_text(game_address: &str, gotv_address: &str) -> (r: String)
    ensures
        r@ == "Console: ||`connect "@ + game_address@ + "`||\nGOTV: ||`connect "@ + gotv_address@
            + "`||"@,
{
    let mut s = String::from_str("Console: ||`connect ");
    s.append(game_address);
    s.append("`||\nGOTV: ||`connect ");
    s.append(gotv_address);
    s.append("`||");
    s
}

/// The stages of provisioning, in order. Any failure ends in `Failed`.
#[derive(Debug, Clone, Copy, PartialEq, Eq, Structural)]
pub enum Stage {
    Duplicate,
    IssueCredential,
    Configure,
    ResolveRosters,
    StartMatch,
    Persist,
    Done,
    Failed,
}

/// The outside work a stage asks for.
#[derive(Debug, Clone, Copy, PartialEq, Eq, Structural)]
pub enum Action {
    /// Duplicate the chosen server template into a live server.
    DuplicateServer,
    /// Issue a game-server credential for the live server.
    IssueCredential,
    /// Name the live server and give it the credential.
    ConfigureServer,
    /// Read both teams' player identifiers.
    ResolveRosters,
    /// Start a single-map match.
    StartMatch,
    /// Start a multi-map series.
    StartSeries,
    /// Write the veto history, the selected maps and the live server.
    Persist,
    /// Tell the teams that the server is up.
    ReportSuccess,
    /// Tell the teams that setup failed and must be restarted.
    ReportFailure,
}

/// The stage after `s` when its work succeeded (`ok`) or failed.
pub open spec fn next_stage(s: Stage, ok: bool) -> Stage {
    match s {
        Stage::Done => Stage::Done,
        Stage::Failed => Stage::Failed,
        _ => if !ok {
            Stage::Failed
        } else {
            match s {
                Stage::Duplicate => Stage::IssueCredential,
                Stage::IssueCredential => Stage::Configure,
                Stage::Configure => Stage::ResolveRosters,
                Stage::ResolveRosters => Stage::StartMatch,
                Stage::StartMatch => Stage::Persist,
                _ => Stage::Done,
            }
        },
    }
}

/// The work asked for in stage `s` of a series of type `series`.
pub open spec fn action_of(s: Stage, series: SeriesType) -> Action {
    match s {
        Stage::Duplicate => Action::DuplicateServer,
        Stage::IssueCredential => Action::IssueCredential,
        Stage::Configure => Action::ConfigureServer,
        Stage::ResolveRosters => Action::ResolveRosters,
        Stage::StartMatch => if series == SeriesType::Bo1 {
            Action::StartMatch
        } else {
            Action::StartSeries
        },
        Stage::Persist => Action::Persist,
        Stage::Done => Action::ReportSuccess,
        Stage::Failed => Action::ReportFailure,
    }
}

/// The stages passed through from `s` when the work of each succeeds or
/// fails as `outcomes` says, `s` first.
pub open spec fn stages_from(s: Stage, outcomes: Seq<bool>) -> Seq<Stage>
    decreases outcomes.len(),
{
    if outcomes.len() == 0 {
        seq![s]
    } else {
        seq![s] + stages_from(next_stage(s, outcomes[0]), outcomes.drop_first())
    }
}

/// The pipeline's position.
#[derive(Debug, Clone, Copy, PartialEq, Eq, Structural)]
pub struct Pipeline {
    pub stage: Stage,
}

impl Pipeline {
    /// A pipeline at its first stage.
    pub fn new() -> (r: Pipeline)
        ensures
            r.stage == Stage::Duplicate,
    {
        Pipeline { stage: Stage::Duplicate }
    }

    /// The work that the current stage asks for.
    pub fn action(&self, series: SeriesType) -> (r: Action)
        ensures
            r == action_of(self.stage, series),
    {
        match self.stage {
            Stage::Duplicate => Action::DuplicateServer,
            Stage::IssueCredential => Action::IssueCredential,
            Stage::Configure => Action::ConfigureServer,
            Stage::ResolveRosters => Action::ResolveRosters,
            Stage::StartMatch => if series == SeriesType::Bo1 {
                Action::StartMatch
            } else {
                Action::StartSeries
            },
            Stage::Persist => Action::Persist,
            Stage::Done => Action::ReportSuccess,
            Stage::Failed => Action::ReportFailure,
        }
    }

    /// Moves on after the current stage's work succeeded (`ok`) or failed.
    pub fn advance(&mut self, ok: bool)
        ensures
            final(self).stage == next_stage(old(self).stage, ok),
    {
        let next = match self.stage {
            Stage::Done => Stage::Done,
            Stage::Failed => Stage::Failed,
            Stage::Duplicate => if ok { Stage::IssueCredential } else { Stage::Failed },
            Stage::IssueCredential => if ok { Stage::Configure } else { Stage::Failed },
            Stage::Configure => if ok { Stage::ResolveRosters } else { Stage::Failed },
            Stage::ResolveRosters => if ok { Stage::StartMatch } else { Stage::Failed },
            Stage::StartMatch => if ok { Stage::Persist } else { Stage::Failed },
            Stage::Persist => if ok { Stage::Done } else { Stage::Failed },
        };
        self.stage = next;
    }

    /// How many of the four progress segments are filled in this stage.
    pub fn progress(&self) -> (r: u8)
        ensures
            r == progress_of(self.stage),
    {
        match self.stage {
            Stage::Duplicate => 1,
            Stage::IssueCredential | Stage::Configure => 2,
            Stage::ResolveRosters | Stage::StartMatch => 3,
            Stage::Persist | Stage::Done => 4,
            Stage::Failed => 0,
        }
    }
}

/// Filled progress segments per stage: one while duplicating, two while the
/// credential is issued and set, three while the match is started, four once
/// the server runs; none after a failure.
pub open spec fn progress_of(s: Stage) -> u8 {
    match s {
        Stage::Duplicate => 1,
        Stage::IssueCredential | Stage::Configure => 2,
        Stage::ResolveRosters | Stage::StartMatch => 3,
        Stage::Persist | Stage::Done => 4,
        Stage::Failed => 0,
    }
}

/// Once failed, the pipeline stays failed: no later stage asks for
/// persistence, whatever the outcomes.
pub proof fn lemma_failed_is_final(outcomes: Seq<bool>, series: SeriesType)
    ensures
        forall|k: int|
            0 <= k < stages_from(Stage::Failed, outcomes).len() ==> #[trigger] stages_from(
                Stage::Failed,
                outcomes,
            )[k] == Stage::Failed,
        forall|k: int|
            0 <= k < stages_from(Stage::Failed, outcomes).len() ==> action_of(
                #[trigger] stages_from(Stage::Failed, outcomes)[k],
                series,
            ) == Action::ReportFailure,
    decreases outcomes.len(),
{
    if outcomes.len() > 0 {
        lemma_failed_is_final(outcomes.drop_first(), series);
        let rest = stages_from(Stage::Failed, outcomes.drop_first());
        assert forall|k: int| 0 <= k < stages_from(Stage::Failed, outcomes).len() implies #[trigger] stages_from(
            Stage::Failed,
            outcomes,
        )[k] == Stage::Failed by {
            if k > 0 {
                assert(stages_from(Stage::Failed, outcomes)[k] == rest[k - 1]);
            }
        }
    }
}

/// When the start call fails, persistence is never asked for and the
/// session ends by reporting the failure.
pub proof fn lemma_start_failure_never_persists(outcomes: Seq<bool>, series: SeriesType)
    requires
        outcomes.len() >= 1,
        !outcomes[0],
    ensures
        forall|k: int|
            0 <= k < stages_from(Stage::StartMatch, outcomes).len() ==> action_of(
                #[trigger] stages_from(Stage::StartMatch, outcomes)[k],
                series,
            ) != Action::Persist,
        stages_from(Stage::StartMatch, outcomes).last() == Stage::Failed,
        action_of(stages_from(Stage::StartMatch, outcomes).last(), series)
            == Action::ReportFailure,
{
    let all = stages_from(Stage::StartMatch, outcomes);
    let rest = stages_from(Stage::Failed, outcomes.drop_first());
    lemma_failed_is_final(outcomes.drop_first(), series);
    assert(all == seq![Stage::StartMatch] + rest);
    assert forall|k: int| 0 <= k < all.len() implies action_of(#[trigger] all[k], series)
        != Action::Persist by {
        if k > 0 {
            assert(all[k] == rest[k - 1]);
        }
    }
    assert(all.last() == rest[rest.len() - 1]);
}

/// Position of a working stage in the order; the terminal stages have none.
pub open spec fn stage_rank(s: Stage) -> int {
    match s {
        Stage::Duplicate => 0,
        Stage::IssueCredential => 1,
        Stage::Configure => 2,
        Stage::ResolveRosters => 3,
        Stage::StartMatch => 4,
        Stage::Persist => 5,
        _ => -1,
    }
}

/// One stage per outcome, plus the first.
proof fn lemma_stages_len(s: Stage, outcomes: Seq<bool>)
    ensures
        stages_from(s, outcomes).len() == outcomes.len() + 1,
    decreases outcomes.len(),
{
    if outcomes.len() > 0 {
        lemma_stages_len(next_stage(s, outcomes[0]), outcomes.drop_first());
    }
}

/// A finished pipeline stays finished.
proof fn lemma_done_is_final(outcomes: Seq<bool>)
    ensures
        forall|k: int|
            0 <= k < stages_from(Stage::Done, outcomes).len() ==> #[trigger] stages_from(
                Stage::Done,
                outcomes,
            )[k] == Stage::Done,
    decreases outcomes.len(),
{
    if outcomes.len() > 0 {
        lemma_done_is_final(outcomes.drop_first());
        let rest = stages_from(Stage::Done, outcomes.drop_first());
        assert forall|k: int| 0 <= k < stages_from(Stage::Done, outcomes).len() implies #[trigger] stages_from(
            Stage::Done,
            outcomes,
        )[k] == Stage::Done by {
            if k > 0 {
                assert(stages_from(Stage::Done, outcomes)[k] == rest[k - 1]);
            }
        }
    }
}

/// From a working stage, the persist stage comes only after every stage in
/// between succeeded.
proof fn lemma_persist_after(s: Stage, outcomes: Seq<bool>, k: int)
    requires
        stage_rank(s) >= 0,
        0 <= k < stages_from(s, outcomes).len(),
        stages_from(s, outcomes)[k] == Stage::Persist,
    ensures
        k == 5 - stage_rank(s),
        forall|i: int| 0 <= i < k ==> #[trigger] outcomes[i],
    decreases outcomes.len(),
{
    lemma_stages_len(s, outcomes);
    if k > 0 {
        let n = next_stage(s, outcomes[0]);
        let rest = stages_from(n, outcomes.drop_first());
        assert(stages_from(s, outcomes)[k] == rest[k - 1]);
        if n == Stage::Failed {
            lemma_failed_is_final(outcomes.drop_first(), SeriesType::Bo1);
        } else if n == Stage::Done {
            lemma_done_is_final(outcomes.drop_first());
        } else {
            lemma_persist_after(n, outcomes.drop_first(), k - 1);
            assert forall|i: int| 0 <= i < k implies #[trigger] outcomes[i] by {
                if i > 0 {
                    assert(outcomes[i] == outcomes.drop_first()[i - 1]);
                }
            }
        }
    }
}

/// Persistence is asked for only after all five earlier stages succeeded:
/// in a run from the first stage, the persist stage can only be the sixth.
pub proof fn lemma_persist_only_after_success(outcomes: Seq<bool>, k: int)
    requires
        0 <= k < stages_from(Stage::Duplicate, outcomes).len(),
        stages_from(Stage::Duplicate, outcomes)[k] == Stage::Persist,
    ensures
        k == 5,
        forall|i: int| 0 <= i < 5 ==> #[trigger] outcomes[i],
{
    lemma_persist_after(Stage::Duplicate, outcomes, k);
}
} // verus!
