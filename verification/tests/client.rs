use steam_api::player_service::get_badges::{path_and_query, Badge, Badges, PATH};
use steam_api::utils::{api_uri, uri_outcome, AUTHORITY};
use steam_api::{ApiError, ErrorKind, SteamClient, SteamID};

fn player() -> SteamID {
    SteamID::from_raw(76561198061271782).unwrap()
}

#[test]
fn client_with_a_key_gives_it() {
    let client = SteamClient::with_api_key("0123456789ABCDEF");
    assert_eq!(client.api_key(), Ok(String::from("0123456789ABCDEF")));
}

#[test]
fn client_without_a_key_has_none() {
    let client = SteamClient::new();
    assert_eq!(client.api_key(), Err(ApiError::new(ErrorKind::NoAPIKey)));
    assert_eq!(client.api_key().unwrap_err().kind(), ErrorKind::NoAPIKey);
}

#[test]
fn error_keeps_its_kind() {
    assert_eq!(ApiError::new(ErrorKind::APIKeyRequired).kind(), ErrorKind::APIKeyRequired);
    assert_eq!(ApiError::new(ErrorKind::InvalidUri).kind(), ErrorKind::InvalidUri);
    assert_ne!(ApiError::new(ErrorKind::NoAPIKey), ApiError::new(ErrorKind::APIKeyRequired));
}

#[test]
fn badges_path_and_query_is_written() {
    assert_eq!(PATH, "/IPlayerService/GetBadges/v0001/");
    assert_eq!(
        path_and_query("0123456789ABCDEF", player()),
        "/IPlayerService/GetBadges/v0001/?key=0123456789ABCDEF&steamid=76561198061271782"
    );
    assert_eq!(
        path_and_query("", SteamID::from_raw(0).unwrap()),
        "/IPlayerService/GetBadges/v0001/?key=&steamid=0"
    );
}

#[test]
fn badges_uri_needs_a_key() {
    let client = SteamClient::new();
    assert_eq!(client.badges_uri(player()).unwrap_err().kind(), ErrorKind::APIKeyRequired);
}

#[test]
fn badges_uri_is_built() {
    let client = SteamClient::with_api_key("0123456789ABCDEF");
    let uri = client.badges_uri(player()).unwrap();
    assert_eq!(uri.scheme_str(), Some("https"));
    assert_eq!(uri.host(), Some("api.steampowered.com"));
    assert_eq!(uri.path(), "/IPlayerService/GetBadges/v0001/");
    assert_eq!(uri.query(), Some("key=0123456789ABCDEF&steamid=76561198061271782"));
    assert_eq!(
        uri.to_string(),
        "https://api.steampowered.com/IPlayerService/GetBadges/v0001/?key=0123456789ABCDEF&steamid=76561198061271782"
    );
}

#[test]
fn badges_uri_rejects_a_key_that_no_uri_can_hold() {
    let client = SteamClient::with_api_key("two words");
    assert_eq!(client.badges_uri(player()).unwrap_err().kind(), ErrorKind::InvalidUri);
    let client = SteamClient::with_api_key("clé");
    assert_eq!(client.badges_uri(player()).unwrap_err().kind(), ErrorKind::InvalidUri);
}

#[test]
fn api_uri_uses_the_api_host() {
    assert_eq!(AUTHORITY, "api.steampowered.com");
    let uri = api_uri("/ISteamUser/GetPlayerSummaries/v0002/?steamids=1").unwrap();
    assert_eq!(uri.to_string(), "https://api.steampowered.com/ISteamUser/GetPlayerSummaries/v0002/?steamids=1");
    assert_eq!(api_uri("/a b").unwrap_err().kind(), ErrorKind::InvalidUri);
}

#[test]
fn uri_outcome_keeps_the_uri_and_names_the_error() {
    let built = hyper::Uri::builder().scheme("https").authority("example.org").path_and_query("/x").build();
    assert_eq!(uri_outcome(built).unwrap().to_string(), "https://example.org/x");
    let refused = hyper::Uri::builder().scheme("https").authority("exa mple").path_and_query("/x").build();
    assert_eq!(uri_outcome(refused).unwrap_err().kind(), ErrorKind::InvalidUri);
}

#[test]
fn badges_hold_what_the_api_answers() {
    let badge = Badge {
        badgeid: 13,
        level: 5,
        completion_time: 1400000000,
        communityitemid: Some(String::from("123456")),
        border_color: Some(0),
        appid: Some(440),
        xp: 500,
        scarcity: 1000,
    };
    let badges = Badges {
        badges: vec![badge.clone()],
        player_xp: 500,
        player_level: 5,
        player_xp_needed_to_level_up: 100,
        player_xp_needed_current_level: 400,
    };
    assert_eq!(badges.badges.len(), 1);
    assert_eq!(badges.badges[0], badge);
    assert_eq!(badges.clone(), badges);
}
