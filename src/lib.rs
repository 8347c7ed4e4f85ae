//! Match setup for two-team best-of-N series: the turn order of map vetoes
//! and picks, the session state machine that enforces whose turn it is, and
//! the ordered provisioning pipeline that follows a completed setup.
pub mod models;
pub mod provision;
pub mod records;
pub mod scores;
pub mod setup;
pub mod steamid;
pub mod text;
pub mod turn_order;

pub use models::{
    CustomError, MapPoolEntry, NewVoteInfo, SelectedMap, SeriesType, ServerTemplates, SetupState,
    StepType, Team,
};
pub use provision::{
    connect_address, connect_link, console_text, configure_form, duplicate_url,
    game_server_url, gslt_request, login_token, record_live_server, shortener_url, start_match,
    start_series_match, start_url, sync_url, Action, CreateGsltRequest, DathostStartResponse,
    Pipeline, Ports, ServerDuplicateResponse, Stage, SteamApiResponse, SteamApiRootResponse,
};
pub use records::{eos_str, print_veto_info, veto_line, NewMatchSetupStep, NewSeriesMap};
pub use scores::{get_series_score, MatchScore};
pub use setup::{
    enabled_pool, find_map, find_server, Progress, Setup, SetupError, SetupView, StartError,
};
pub use steamid::{
    convert_steamid_to_64, is_valid_steam_id, parse_steam_id, steam2_id, team_conn_str, SteamUser,
};
pub use turn_order::{bo1_setup, bo3_setup, bo5_setup, veto_pick_order};
