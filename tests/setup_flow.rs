use matchbot::{
    bo1_setup, bo3_setup, bo5_setup, MapPoolEntry, Progress, SeriesType, ServerTemplates, Setup,
    SetupError, SetupState, StartError, StepType, Team,
};

use StepType::{Pick, Veto};

const A: i64 = 11;
const B: i64 = 22;

fn team(id: i32, role: i64, name: &str) -> Team {
    Team { id, role, name: name.to_string() }
}

fn pool(n: usize) -> Vec<MapPoolEntry> {
    (1..=n)
        .map(|i| MapPoolEntry { id: i as i32, name: format!("m{}", i), disabled: false })
        .collect()
}

fn servers(locs: &[&str]) -> Vec<ServerTemplates> {
    locs.iter()
        .map(|l| ServerTemplates { location: l.to_string(), server_id: format!("id-{}", l) })
        .collect()
}

fn new_setup(series: SeriesType, locs: &[&str]) -> Setup {
    Setup::new(7, series, team(1, A, "Alpha"), team(2, B, "Bravo"), &pool(7), servers(locs))
        .unwrap()
}

fn decide(s: &mut Setup, actor: i64, phase: SetupState, choice: &str) -> Result<Progress, SetupError> {
    s.handle_decision(Some(actor), phase, choice)
}

fn kinds(series: SeriesType) -> (usize, usize) {
    let (steps, _) = match series {
        SeriesType::Bo1 => bo1_setup(1, A, B),
        SeriesType::Bo3 => bo3_setup(1, A, B),
        SeriesType::Bo5 => bo5_setup(1, A, B),
    };
    let vetoes = steps.iter().filter(|s| s.vote_type == StepType::Veto).count();
    let picks = steps.iter().filter(|s| s.vote_type == StepType::Pick).count();
    (vetoes, picks)
}

#[test]
fn turn_order_counts_per_series() {
    assert_eq!(kinds(SeriesType::Bo1), (5, 1));
    assert_eq!(kinds(SeriesType::Bo3), (3, 3));
    assert_eq!(kinds(SeriesType::Bo5), (2, 5));
    for s in [SeriesType::Bo1, SeriesType::Bo3, SeriesType::Bo5] {
        let (v, p) = kinds(s);
        assert!(v + p <= 7);
    }
}

#[test]
fn bo1_order_and_announcement() {
    let (steps, msg) = bo1_setup(9, A, B);
    let teams: Vec<i64> = steps.iter().map(|s| s.team_role).collect();
    assert_eq!(teams, vec![B, A, B, A, B, A]);
    assert_eq!(steps[5].vote_type, StepType::Pick);
    assert!(steps.iter().all(|s| s.map.is_none() && s.match_series == 9));
    assert_eq!(msg, "Best of 1 option selected. Starting map veto. <@&22> bans first.\n");
}

#[test]
fn bo3_and_bo5_orders() {
    let (steps, msg) = bo3_setup(1, A, B);
    let seq: Vec<(StepType, i64)> = steps.iter().map(|s| (s.vote_type, s.team_role)).collect();
    assert_eq!(seq, vec![(Veto, A), (Veto, B), (Pick, A), (Pick, B), (Veto, B), (Pick, A)]);
    assert_eq!(msg, "Best of 3 option selected. Starting map veto. <@&11> bans first.\n");
    let (steps, msg) = bo5_setup(1, A, B);
    let seq: Vec<(StepType, i64)> = steps.iter().map(|s| (s.vote_type, s.team_role)).collect();
    assert_eq!(
        seq,
        vec![(Veto, A), (Veto, B), (Pick, A), (Pick, B), (Pick, A), (Pick, B), (Pick, A)]
    );
    assert_eq!(msg, "Best of 5 option selected. Starting map veto. <@&11> bans first.\n");
}

#[test]
fn bo1_end_to_end() {
    let mut s = new_setup(SeriesType::Bo1, &["eu", "us", "asia"]);
    assert_eq!(s.current_phase, SetupState::ServerPick);
    assert_eq!(
        decide(&mut s, B, SetupState::ServerPick, "asia"),
        Ok(Progress::ServerVetoed { next_team: A, next_action: StepType::Pick })
    );
    assert_eq!(decide(&mut s, A, SetupState::ServerPick, "us"), Ok(Progress::ServerChosen));
    assert_eq!(s.server_id.as_deref(), Some("id-us"));
    assert_eq!(s.current_phase, SetupState::MapVeto);
    let order = [(B, "m1"), (A, "m2"), (B, "m3"), (A, "m4"), (B, "m5")];
    for (team, map) in order {
        assert!(matches!(
            decide(&mut s, team, SetupState::MapVeto, map),
            Ok(Progress::MapDecided { .. })
        ));
    }
    assert_eq!(
        decide(&mut s, A, SetupState::MapVeto, "m6"),
        Ok(Progress::VetoCompleted { side_pick_team: B })
    );
    assert_eq!(s.maps_sel.len(), 1);
    assert_eq!(s.maps_sel[0].map_name, "m6");
    assert_eq!(s.maps_sel[0].picked_by_role, A);
    assert_eq!(s.current_phase, SetupState::SidePick);
    assert_eq!(s.current_step, 0);
    assert_eq!(decide(&mut s, B, SetupState::SidePick, "ct"), Ok(Progress::SetupCompleted));
    assert_eq!(s.maps_sel[0].start_ct_team_role, Some(B));
    assert_eq!(s.maps_sel[0].start_t_team_role, Some(A));
    assert!(s.is_complete());
    let maps: Vec<Option<i32>> = s.veto_pick_order.iter().map(|v| v.map).collect();
    assert_eq!(maps, vec![Some(1), Some(2), Some(3), Some(4), Some(5), Some(6)]);
    let left: Vec<&str> = s.maps_remaining.iter().map(|m| m.name.as_str()).collect();
    assert_eq!(left, vec!["m7"]);
}

#[test]
fn unauthorized_decision_changes_nothing() {
    let mut s = new_setup(SeriesType::Bo1, &["eu"]);
    let before = format!("{:?}", s);
    assert_eq!(decide(&mut s, A, SetupState::MapVeto, "m1"), Err(SetupError::NotYourTurn));
    assert_eq!(format!("{:?}", s), before);
    assert_eq!(decide(&mut s, 99, SetupState::MapVeto, "m1"), Err(SetupError::NotYourTurn));
    assert_eq!(s.handle_decision(None, SetupState::MapVeto, "m1"), Err(SetupError::NotOnTeam));
    assert_eq!(decide(&mut s, B, SetupState::SidePick, "ct"), Err(SetupError::WrongPhase));
    assert_eq!(decide(&mut s, B, SetupState::MapVeto, "nuke"), Err(SetupError::InvalidChoice));
    assert_eq!(format!("{:?}", s), before);
}

#[test]
fn map_pool_shrinks_by_one_per_decision() {
    let mut s = new_setup(SeriesType::Bo3, &["eu"]);
    let mut len = s.maps_remaining.len();
    assert_eq!(len, 7);
    let order = [(A, "m1"), (B, "m2"), (A, "m3"), (B, "m4"), (B, "m5"), (A, "m6")];
    for (team, map) in order {
        decide(&mut s, team, SetupState::MapVeto, map).unwrap();
        assert_eq!(s.maps_remaining.len(), len - 1);
        assert!(s.maps_remaining.iter().all(|m| m.name != map));
        len -= 1;
    }
}

#[test]
fn vetoed_map_cannot_be_chosen_again() {
    let mut s = new_setup(SeriesType::Bo3, &["eu"]);
    decide(&mut s, A, SetupState::MapVeto, "m1").unwrap();
    let before = format!("{:?}", s);
    assert_eq!(decide(&mut s, B, SetupState::MapVeto, "m1"), Err(SetupError::InvalidChoice));
    assert_eq!(format!("{:?}", s), before);
}

#[test]
fn cursor_advances_and_phase_changes_at_list_end() {
    let mut s = new_setup(SeriesType::Bo3, &["eu"]);
    let order = [(A, "m1"), (B, "m2"), (A, "m3"), (B, "m4"), (B, "m5")];
    for (i, (team, map)) in order.iter().enumerate() {
        assert_eq!(s.current_step, i);
        decide(&mut s, *team, SetupState::MapVeto, map).unwrap();
        assert_eq!(s.current_phase, SetupState::MapVeto);
        assert_eq!(s.current_step, i + 1);
    }
    decide(&mut s, A, SetupState::MapVeto, "m6").unwrap();
    assert_eq!(s.current_phase, SetupState::SidePick);
    assert_eq!(s.current_step, 0);
    assert_eq!(s.maps_sel.len(), 3);
    assert_eq!(
        decide(&mut s, B, SetupState::SidePick, "t"),
        Ok(Progress::SideChosen { next_team: A })
    );
    assert_eq!(s.current_step, 1);
    assert!(!s.is_complete());
    assert_eq!(
        decide(&mut s, B, SetupState::SidePick, "ct"),
        Err(SetupError::NotYourTurn)
    );
    decide(&mut s, A, SetupState::SidePick, "ct").unwrap();
    assert_eq!(s.current_step, 2);
    assert_eq!(decide(&mut s, B, SetupState::SidePick, "t"), Ok(Progress::SetupCompleted));
    assert!(s.is_complete());
    assert_eq!(decide(&mut s, B, SetupState::SidePick, "t"), Err(SetupError::WrongPhase));
}

#[test]
fn sides_are_complementary_and_chosen_by_non_picker() {
    let mut s = new_setup(SeriesType::Bo5, &["eu"]);
    let order = [(A, "m1"), (B, "m2"), (A, "m3"), (B, "m4"), (A, "m5"), (B, "m6"), (A, "m7")];
    for (team, map) in order {
        decide(&mut s, team, SetupState::MapVeto, map).unwrap();
    }
    assert_eq!(s.maps_sel.len(), 5);
    for (i, side) in ["ct", "t", "ct", "t", "ct"].iter().enumerate() {
        let picker = s.maps_sel[i].picked_by_role;
        let chooser = if picker == A { B } else { A };
        assert_eq!(decide(&mut s, picker, SetupState::SidePick, side), Err(SetupError::NotYourTurn));
        decide(&mut s, chooser, SetupState::SidePick, side).unwrap();
        let m = &s.maps_sel[i];
        let (ct, t) = (m.start_ct_team_role.unwrap(), m.start_t_team_role.unwrap());
        assert_ne!(ct, t);
        assert!(ct == A || ct == B);
        assert!(t == A || t == B);
        if *side == "ct" {
            assert_eq!(ct, chooser);
        } else {
            assert_eq!(t, chooser);
        }
    }
    assert!(s.is_complete());
}

#[test]
fn side_choice_must_be_ct_or_t() {
    let mut s = new_setup(SeriesType::Bo1, &["eu"]);
    for (team, map) in [(B, "m1"), (A, "m2"), (B, "m3"), (A, "m4"), (B, "m5"), (A, "m6")] {
        decide(&mut s, team, SetupState::MapVeto, map).unwrap();
    }
    assert_eq!(decide(&mut s, B, SetupState::SidePick, "x"), Err(SetupError::InvalidChoice));
    assert_eq!(s.current_step, 0);
}

#[test]
fn single_template_skips_server_pick() {
    let s = new_setup(SeriesType::Bo1, &["eu"]);
    assert_eq!(s.current_phase, SetupState::MapVeto);
    assert_eq!(s.server_id.as_deref(), Some("id-eu"));
    assert_eq!(s.turn_team(), Some(B));
}

#[test]
fn two_templates_go_straight_to_pick() {
    let mut s = new_setup(SeriesType::Bo1, &["eu", "us"]);
    assert_eq!(s.turn_team(), Some(B));
    assert_eq!(decide(&mut s, A, SetupState::ServerPick, "eu"), Err(SetupError::NotYourTurn));
    assert_eq!(decide(&mut s, B, SetupState::ServerPick, "mars"), Err(SetupError::InvalidChoice));
    assert_eq!(decide(&mut s, B, SetupState::ServerPick, "eu"), Ok(Progress::ServerChosen));
    assert_eq!(s.server_id.as_deref(), Some("id-eu"));
    assert_eq!(s.servers_remaining.len(), 2);
}

#[test]
fn start_errors() {
    let r = Setup::new(1, SeriesType::Bo1, team(1, A, "x"), team(2, A, "y"), &pool(7), servers(&["eu"]));
    assert_eq!(r.err(), Some(StartError::SameTeam));
    let mut maps = pool(7);
    maps[3].disabled = true;
    let r = Setup::new(1, SeriesType::Bo1, team(1, A, "x"), team(2, B, "y"), &maps, servers(&["eu"]));
    assert_eq!(r.err(), Some(StartError::NotEnoughMaps));
    let r = Setup::new(1, SeriesType::Bo1, team(1, A, "x"), team(2, B, "y"), &pool(7), vec![]);
    assert_eq!(r.err(), Some(StartError::NoServerTemplates));
}

#[test]
fn disabled_maps_are_left_out_of_the_pool() {
    let mut maps = pool(9);
    maps[0].disabled = true;
    let s = Setup::new(1, SeriesType::Bo3, team(1, A, "x"), team(2, B, "y"), &maps, servers(&["eu"]))
        .unwrap();
    let names: Vec<&str> = s.maps_remaining.iter().map(|m| m.name.as_str()).collect();
    assert_eq!(names, vec!["m2", "m3", "m4", "m5", "m6", "m7", "m8", "m9"]);
    assert_eq!(s.init_veto_msg, "Best of 3 option selected. Starting map veto. <@&11> bans first.\n");
}
