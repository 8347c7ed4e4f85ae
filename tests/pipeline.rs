use matchbot::{
    configure_form, connect_address, connect_link, console_text, duplicate_url, eos_str,
    gslt_request, login_token, record_live_server, shortener_url, start_match, start_series_match,
    start_url, sync_url, team_conn_str, print_veto_info, veto_line, StepType, Action, MapPoolEntry, Pipeline, Ports, SeriesType,
    ServerDuplicateResponse, ServerTemplates, Setup, SetupState, Stage, SteamApiResponse,
    SteamApiRootResponse, SteamUser, Team,
};

const A: i64 = 11;
const B: i64 = 22;

fn setup(series: SeriesType) -> Setup {
    let maps: Vec<MapPoolEntry> = (1..=7)
        .map(|i| MapPoolEntry { id: i, name: format!("m{}", i), disabled: false })
        .collect();
    let servers = vec![ServerTemplates { location: "eu".to_string(), server_id: "tmpl".to_string() }];
    Setup::new(
        31,
        series,
        Team { id: 1, role: A, name: "Alpha".to_string() },
        Team { id: 2, role: B, name: "Bravo".to_string() },
        &maps,
        servers,
    )
    .unwrap()
}

fn completed_bo1() -> Setup {
    let mut s = setup(SeriesType::Bo1);
    for (team, map) in [(B, "m1"), (A, "m2"), (B, "m3"), (A, "m4"), (B, "m5"), (A, "m6")] {
        s.handle_decision(Some(team), SetupState::MapVeto, map).unwrap();
    }
    s.handle_decision(Some(B), SetupState::SidePick, "ct").unwrap();
    s.team_one_conn_str = Some("STEAM_1:0:1".to_string());
    s.team_two_conn_str = Some("STEAM_1:0:2".to_string());
    s
}

fn completed_bo3() -> Setup {
    let mut s = setup(SeriesType::Bo3);
    for (team, map) in [(A, "m1"), (B, "m2"), (A, "m3"), (B, "m4"), (B, "m5"), (A, "m6")] {
        s.handle_decision(Some(team), SetupState::MapVeto, map).unwrap();
    }
    s.handle_decision(Some(B), SetupState::SidePick, "ct").unwrap();
    s.handle_decision(Some(A), SetupState::SidePick, "ct").unwrap();
    s.handle_decision(Some(B), SetupState::SidePick, "t").unwrap();
    s.team_one_conn_str = Some("a1,a2".to_string());
    s.team_two_conn_str = Some("b1".to_string());
    s
}

fn pairs(f: &[(String, String)]) -> Vec<(&str, &str)> {
    f.iter().map(|(k, v)| (k.as_str(), v.as_str())).collect()
}

#[test]
fn bo1_start_form_carries_map_and_sides() {
    let s = completed_bo1();
    let f = start_match(&s, "live-1", "https://end", "");
    assert_eq!(
        pairs(&f),
        vec![
            ("game_server_id", "live-1"),
            ("map", "m6"),
            ("team1_name", "Alpha"),
            ("team2_name", "Bravo"),
            ("team1_steam_ids", "STEAM_1:0:1"),
            ("team2_steam_ids", "STEAM_1:0:2"),
            ("enable_pause", "true"),
            ("enable_tech_pause", "true"),
            ("match_end_webhook_url", "https://end"),
            ("round_end_webhook_url", ""),
        ]
    );
}

#[test]
fn series_start_form_lists_every_map() {
    let s = completed_bo3();
    let f = start_series_match(&s, "live-2", "e", "r");
    assert_eq!(
        pairs(&f),
        vec![
            ("game_server_id", "live-2"),
            ("enable_pause", "true"),
            ("enable_tech_pause", "true"),
            ("match_end_webhook_url", "e"),
            ("round_end_webhook_url", "r"),
            ("team1_name", "Alpha"),
            ("team2_name", "Bravo"),
            ("team1_steam_ids", "a1,a2"),
            ("team2_steam_ids", "b1"),
            ("map1", "m3"),
            ("map1_start_ct", "team2"),
            ("map2", "m4"),
            ("map2_start_ct", "team1"),
            ("map3", "m6"),
            ("map3_start_ct", "team1"),
            ("number_of_maps", "3"),
        ]
    );
}

#[test]
fn pipeline_runs_in_order() {
    let mut p = Pipeline::new();
    let mut seen = Vec::new();
    while p.stage != Stage::Done {
        seen.push(p.action(SeriesType::Bo3));
        p.advance(true);
    }
    assert_eq!(
        seen,
        vec![
            Action::DuplicateServer,
            Action::IssueCredential,
            Action::ConfigureServer,
            Action::ResolveRosters,
            Action::StartSeries,
            Action::Persist,
        ]
    );
    assert_eq!(p.action(SeriesType::Bo3), Action::ReportSuccess);
    assert_eq!(p.progress(), 4);
}

#[test]
fn start_failure_never_persists() {
    let mut p = Pipeline::new();
    for _ in 0..4 {
        p.advance(true);
    }
    assert_eq!(p.action(SeriesType::Bo1), Action::StartMatch);
    p.advance(false);
    assert_eq!(p.stage, Stage::Failed);
    for ok in [true, true, false, true] {
        assert_ne!(p.action(SeriesType::Bo1), Action::Persist);
        p.advance(ok);
    }
    assert_eq!(p.action(SeriesType::Bo1), Action::ReportFailure);
    assert_eq!(p.progress(), 0);
}

#[test]
fn progress_segments_per_stage() {
    let mut p = Pipeline::new();
    let mut marks = vec![p.progress()];
    while p.stage != Stage::Done {
        p.advance(true);
        marks.push(p.progress());
    }
    assert_eq!(marks, vec![1, 2, 2, 3, 3, 4, 4]);
}

#[test]
fn urls_percent_encode_the_server_id() {
    assert_eq!(
        duplicate_url("abc 1/é"),
        "https://dathost.net/api/0.1/game-servers/abc%201%2F%C3%A9/duplicate"
    );
    assert_eq!(sync_url("a-b_c.d~e"), "https://dathost.net/api/0.1/game-servers/a-b_c.d~e/sync-files");
    assert_eq!(start_url(SeriesType::Bo1), "https://dathost.net/api/0.1/matches");
    assert_eq!(start_url(SeriesType::Bo5), "https://dathost.net/api/0.1/match-series");
}

#[test]
fn connect_strings() {
    let game = connect_address("1.2.3.4", 27015);
    assert_eq!(game, "1.2.3.4:27015");
    let link = connect_link(&game);
    assert_eq!(link, "steam://connect/1.2.3.4:27015");
    assert_eq!(
        shortener_url(&link),
        "https://tinyurl.com/api-create.php?url=steam%3A%2F%2Fconnect%2F1.2.3.4%3A27015"
    );
    assert_eq!(
        console_text("1.2.3.4:27015", "1.2.3.4:27020"),
        "Console: ||`connect 1.2.3.4:27015`||\nGOTV: ||`connect 1.2.3.4:27020`||"
    );
}

#[test]
fn configure_and_credential_requests() {
    let f = configure_form(42, "TOKEN");
    assert_eq!(
        pairs(&f),
        vec![("name", "match-server-42"), ("csgo_settings.steam_game_server_login_token", "TOKEN")]
    );
    let g = gslt_request("srv-9", -5);
    assert_eq!((g.key.as_str(), g.appid, g.memo.as_str()), ("srv-9", 730, "-5"));
    let resp = SteamApiRootResponse {
        response: SteamApiResponse { steamid: "1".to_string(), login_token: "LT".to_string() },
    };
    assert_eq!(login_token(&resp), "LT");
}

#[test]
fn live_server_is_recorded() {
    let mut s = completed_bo1();
    let live = ServerDuplicateResponse {
        game: Some("host.example".to_string()),
        id: "live".to_string(),
        ip: "1.2.3.4".to_string(),
        ports: Ports { game: 27015, gotv: 27020 },
        location: None,
    };
    record_live_server(&mut s, &live);
    assert_eq!(s.server_hostname.as_deref(), Some("host.example"));
    assert_eq!(s.server_game_port, Some(27015));
    assert_eq!(s.server_gotv_port, Some(27020));
}

#[test]
fn finish_records_votes_and_maps() {
    let s = completed_bo1();
    let (votes, maps) = s.finish();
    assert_eq!(votes.len(), 6);
    assert_eq!((votes[0].match_id, votes[0].team, votes[0].map), (31, 2, 1));
    assert_eq!((votes[5].team, votes[5].map), (1, 6));
    assert_eq!(maps.len(), 1);
    assert_eq!(
        (maps[0].map, maps[0].picked_by, maps[0].start_ct_team, maps[0].start_t_team),
        (6, 1, 2, 1)
    );
}

#[test]
fn completion_summary() {
    let s = completed_bo3();
    assert_eq!(
        eos_str(&s),
        "\n\nSetup is completed. GLHF!\n\n**1. m3** - picked by: <@&11>\n**2. m4** - picked by: <@&22>\n**3. m6** - picked by: <@&11>\n"
    );
}

#[test]
fn roster_connection_string() {
    let users = vec![
        SteamUser { discord: 5, steam: 76561197984957085 },
        SteamUser { discord: 6, steam: 76561197960265738 },
    ];
    assert_eq!(team_conn_str(&users), "STEAM_1:1:12345678,STEAM_1:0:5");
    assert_eq!(team_conn_str(&vec![]), "");
}

#[test]
fn veto_history_lower_cases_map_names() {
    let mut s = setup(SeriesType::Bo1);
    let pool: Vec<MapPoolEntry> = (1..=7)
        .map(|i| MapPoolEntry { id: i, name: format!("Map{}", i), disabled: false })
        .collect();
    assert_eq!(print_veto_info(&s, &pool), "_This match has no veto info yet_");
    s.handle_decision(Some(B), SetupState::MapVeto, "m1").unwrap();
    s.handle_decision(Some(A), SetupState::MapVeto, "m2").unwrap();
    assert_eq!(
        print_veto_info(&s, &pool),
        "```diff\n- Bravo banned map1\n- Alpha banned map2\n```"
    );
}

#[test]
fn veto_lines_by_kind() {
    assert_eq!(veto_line("Alpha", StepType::Pick, "inferno"), "+ Alpha picked inferno\n");
    assert_eq!(veto_line("Bravo", StepType::Veto, "Nuke"), "- Bravo banned Nuke\n");
}
