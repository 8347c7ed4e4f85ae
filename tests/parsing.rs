use matchbot::{
    convert_steamid_to_64, get_series_score, is_valid_steam_id, parse_steam_id,
    steam2_id, CustomError, MatchScore, SeriesType, StepType,
};

#[test]
fn steam_id_to_64() {
    assert_eq!(convert_steamid_to_64("STEAM_0:1:12345678"), 76561197984957085);
    assert_eq!(convert_steamid_to_64("STEAM_1:0:0"), 76561197960265728);
}

#[test]
fn steam_id_forms() {
    assert_eq!(parse_steam_id("STEAM_5:0:7"), Some(76561197960265742));
    assert_eq!(parse_steam_id("STEAM_6:0:7"), None);
    assert_eq!(parse_steam_id("STEAM_0:2:7"), None);
    assert_eq!(parse_steam_id("STEAM_0:1:"), None);
    assert_eq!(parse_steam_id("STEAM_0:1:12a"), None);
    assert_eq!(parse_steam_id("steam_0:1:12"), None);
    assert_eq!(parse_steam_id("STEAM_0:1:99999999999999999999"), None);
    assert!(is_valid_steam_id("STEAM_0:1:12345678"));
    assert!(!is_valid_steam_id("STEAM_0:1:12345678 "));
}

#[test]
fn steam_id_largest_z() {
    // 76561197960265728 + 2 * z + y must stay within i64.
    assert_eq!(parse_steam_id("STEAM_0:1:4573405419447255039"), Some(9223372036854775807));
    assert_eq!(parse_steam_id("STEAM_0:0:4573405419447255040"), None);
}

#[test]
fn steam2_text_of_64() {
    assert_eq!(steam2_id(76561197984957085), "STEAM_1:1:12345678");
    assert_eq!(steam2_id(76561197960265728), "STEAM_1:0:0");
}

#[test]
fn series_score() {
    let s = |one, two| MatchScore { match_id: 0, team_one_score: one, team_two_score: two };
    assert_eq!(get_series_score(&vec![s(16, 9)], SeriesType::Bo1), (16, 9));
    let maps = vec![s(16, 9), s(3, 16), s(16, 14), s(0, 0)];
    assert_eq!(get_series_score(&maps, SeriesType::Bo3), (2, 1));
    assert_eq!(get_series_score(&vec![], SeriesType::Bo5), (0, 0));
}

#[test]
fn series_type_words() {
    assert_eq!(SeriesType::from_str("bo1"), Ok(SeriesType::Bo1));
    assert_eq!(SeriesType::from_str("bo3"), Ok(SeriesType::Bo3));
    assert_eq!(SeriesType::from_str("bo5"), Ok(SeriesType::Bo5));
    assert_eq!(SeriesType::from_str("Bo1"), Err(()));
    assert_eq!(StepType::Veto.to_string(), "/ban");
    assert_eq!(StepType::Pick.to_string(), "/pick");
}

#[test]
fn not_found_error() {
    let e = CustomError::not_found("missing".to_string());
    assert_eq!((e.msg.as_str(), e.status), ("missing", 404));
}
