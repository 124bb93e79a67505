use lastfm_scrobbler::client::{
    ApiRequest, LastFmClient, Operation, CONTENT_LENGTH, REQUEST_TIMEOUT_SECONDS, USER_AGENT,
};
use lastfm_scrobbler::config::SongConfig;
use lastfm_scrobbler::signer::{md5_hash, sign};

fn pairs(request: &ApiRequest) -> Vec<(String, String)> {
    request.params().iter().map(|p| (p.name.clone(), p.value.clone())).collect()
}

fn own(list: &[(&str, &str)]) -> Vec<(String, String)> {
    list.iter().map(|(name, value)| (name.to_string(), value.to_string())).collect()
}

fn song(artist: &str, title: &str) -> SongConfig {
    SongConfig { artist: artist.to_string(), title: title.to_string() }
}

#[test]
fn transport_settings() {
    assert_eq!(USER_AGENT, "PostmanRuntime/7.37.3");
    assert_eq!(REQUEST_TIMEOUT_SECONDS, 15);
    assert_eq!(CONTENT_LENGTH, 0);
}

#[test]
fn method_names() {
    assert_eq!(Operation::GetToken.method_name(), "auth.getToken");
    assert_eq!(Operation::GetSession.method_name(), "auth.getSession");
    assert_eq!(Operation::Scrobble.method_name(), "track.scrobble");
    assert!(!Operation::GetToken.is_signed());
    assert!(Operation::GetSession.is_signed());
    assert!(Operation::Scrobble.is_signed());
}

#[test]
fn token_request_is_unsigned() {
    let client = LastFmClient::new("https://example.test", "K", "S");
    let request = client.token();
    assert_eq!(request.operation(), Operation::GetToken);
    assert_eq!(request.url(), "https://example.test");
    assert_eq!(
        pairs(&request),
        own(&[("api_key", "K"), ("method", "auth.getToken"), ("format", "json")])
    );
}

#[test]
fn token_request_is_built_anew_each_time() {
    let client = LastFmClient::new("https://example.test", "K", "S");
    let first = client.token();
    let second = client.token();
    assert_eq!(pairs(&first), pairs(&second));
    assert_eq!(first.url(), second.url());
    assert_eq!(pairs(&first).len(), 3);
}

#[test]
fn session_exchange_is_signed() {
    let client = LastFmClient::new("https://example.test", "K", "S");
    let request = client.session("T");
    assert_eq!(request.operation(), Operation::GetSession);
    assert_eq!(request.url(), "https://example.test");
    assert_eq!(
        pairs(&request),
        own(&[
            ("api_key", "K"),
            ("method", "auth.getSession"),
            ("token", "T"),
            ("api_sig", "a9b7c596842f7f7bf14e3f42ba211de8"),
            ("format", "json"),
        ])
    );
    assert_eq!(pairs(&request)[3].1, md5_hash("api_keyKmethodauth.getSessiontokenTS"));
}

#[test]
fn scrobble_signs_the_fixed_order() {
    let client = LastFmClient::new("https://example.test", "K", "S");
    let request = client.track_scrobble("SK", &song("A", "B"), 1000);
    assert_eq!(request.operation(), Operation::Scrobble);
    assert_eq!(request.url(), "https://example.test");
    assert_eq!(
        pairs(&request),
        own(&[
            ("api_key", "K"),
            ("artist", "A"),
            ("method", "track.scrobble"),
            ("sk", "SK"),
            ("timestamp", "1000"),
            ("track", "B"),
            ("api_sig", "f6471d03edbf7a516c8521e68ac4df7f"),
            ("format", "json"),
        ])
    );
    assert_eq!(
        pairs(&request)[6].1,
        md5_hash("api_keyKartistAmethodtrack.scrobbleskSKtimestamp1000trackBS")
    );
}

#[test]
fn scrobble_with_a_lowercase_session() {
    let client = LastFmClient::new("https://example.test", "K", "S");
    let request = client.track_scrobble("sk", &song("A", "B"), 1000);
    assert_eq!(
        pairs(&request)[6].1,
        md5_hash("api_keyKartistAmethodtrack.scrobblesksktimestamp1000trackBS")
    );
    assert_eq!(pairs(&request)[6].1, "1fb9a6e18aef838884e6a3472c70c892");
}

#[test]
fn signed_requests_carry_the_signature_of_all_their_parameters() {
    let client = LastFmClient::new("https://example.test", "K", "S");
    let session = client.session("T");
    assert_eq!(pairs(&session)[3].1, sign("S", session.params()));
    let scrobble = client.track_scrobble("SK", &song("A", "B"), 1_700_000_000);
    assert_eq!(pairs(&scrobble)[6].0, "api_sig");
    assert_eq!(pairs(&scrobble)[6].1, sign("S", scrobble.params()));
    assert_eq!(pairs(&scrobble)[4].1, "1700000000");
}

#[test]
fn scrobble_signature_follows_the_timestamp() {
    let client = LastFmClient::new("https://example.test", "K", "S");
    let first = client.track_scrobble("SK", &song("A", "B"), 1000);
    let second = client.track_scrobble("SK", &song("A", "B"), 1001);
    assert_ne!(pairs(&first)[6].1, pairs(&second)[6].1);
}

#[test]
fn authorization_url_names_key_and_token() {
    let client = LastFmClient::new("https://example.test", "K", "S");
    assert_eq!(
        client.authorization_url("T"),
        "http://www.last.fm/api/auth/?api_key=K&token=T"
    );
}
