use lastfm_scrobbler::client::{ApiRequest, Operation, Session, SessionResponse, TokenResponse};
use lastfm_scrobbler::config::{ApiConfig, Config, ScrobblerConfig, SongConfig};
use lastfm_scrobbler::error::ScrobbleError;
use lastfm_scrobbler::scheduler::{
    pick_track, status_line, Action, Event, Outcome, Phase, RawResponse, Scheduler, Stage,
    ACCEPTED_STATUS, AUTHORIZATION_WAIT_SECONDS, DRAWS_PER_STEP,
};
use lastfm_scrobbler::signer::sign;
use lastfm_scrobbler::timestamp::{unix_now, week_start};
use std::time::Duration;

fn song(artist: &str, title: &str) -> SongConfig {
    SongConfig { artist: artist.to_string(), title: title.to_string() }
}

fn config(songs: Vec<SongConfig>) -> Config {
    Config {
        api: ApiConfig {
            url: "https://example.test".to_string(),
            key: "K".to_string(),
            secret: "S".to_string(),
        },
        scrobbler: ScrobblerConfig { cooldown: Duration::from_millis(1500), songs },
    }
}

fn token(value: &str) -> Event {
    Event::Token(Ok(TokenResponse { token: value.to_string() }))
}

fn session(key: &str) -> Event {
    Event::Session(Ok(SessionResponse { session: Session { key: key.to_string() } }))
}

fn value_of(request: &ApiRequest, name: &str) -> String {
    let found: Vec<String> = request
        .params()
        .iter()
        .filter(|p| p.name == name)
        .map(|p| p.value.clone())
        .collect();
    assert_eq!(found.len(), 1);
    found[0].clone()
}

fn sent(action: Action) -> ApiRequest {
    match action {
        Action::Call(request) => request,
        _ => panic!("a request was due"),
    }
}

fn halted(action: Action) -> Outcome {
    match action {
        Action::Halt(outcome) => outcome,
        _ => panic!("the run was to halt"),
    }
}

fn authenticated(songs: Vec<SongConfig>) -> Scheduler {
    let mut scheduler = Scheduler::new(config(songs));
    let token_call = sent(scheduler.step(Event::Tick));
    assert_eq!(token_call.operation(), Operation::GetToken);
    assert!(matches!(
        scheduler.step(token("T")),
        Action::Authorize { .. }
    ));
    let session_call = sent(scheduler.step(Event::AuthorizationWaited));
    assert_eq!(session_call.operation(), Operation::GetSession);
    assert!(matches!(scheduler.step(session("SK")), Action::Proceed));
    assert_eq!(scheduler.phase(), Phase::SessionEstablished);
    scheduler
}

fn next_scrobble(scheduler: &mut Scheduler) -> ApiRequest {
    let mut rounds: u64 = 0;
    loop {
        match scheduler.step(Event::Tick) {
            Action::Proceed => {
                rounds += 1;
                assert!(rounds < 200_000_000);
            }
            Action::Call(request) => return request,
            _ => panic!("a scrobble was due"),
        }
    }
}

fn accepted() -> Event {
    Event::Scrobbled(Ok(RawResponse { status: 200, payload: Ok("{}".to_string()) }))
}

#[test]
fn constants_of_the_run() {
    assert_eq!(AUTHORIZATION_WAIT_SECONDS, 10);
    assert_eq!(ACCEPTED_STATUS, 200);
    assert_eq!(DRAWS_PER_STEP, 1_000);
}

#[test]
fn a_new_scheduler_has_done_nothing() {
    let scheduler = Scheduler::new(config(vec![song("A", "B")]));
    assert_eq!(scheduler.phase(), Phase::Start);
    assert_eq!(scheduler.total_scrobbles(), 0);
}

#[test]
fn the_handshake_runs_token_authorization_session() {
    let mut scheduler = Scheduler::new(config(vec![song("A", "B")]));
    let token_call = sent(scheduler.step(Event::Tick));
    assert_eq!(scheduler.phase(), Phase::AwaitingToken);
    assert_eq!(token_call.operation(), Operation::GetToken);
    assert_eq!(token_call.url(), "https://example.test");
    assert_eq!(value_of(&token_call, "api_key"), "K");
    assert_eq!(value_of(&token_call, "method"), "auth.getToken");
    assert_eq!(value_of(&token_call, "format"), "json");
    assert_eq!(token_call.params().len(), 3);

    match scheduler.step(token("T")) {
        Action::Authorize { address, wait_seconds } => {
            assert_eq!(address, "http://www.last.fm/api/auth/?api_key=K&token=T");
            assert_eq!(wait_seconds, 10);
        }
        _ => panic!("the authorization was due"),
    }
    assert_eq!(scheduler.phase(), Phase::TokenObtained);

    let session_call = sent(scheduler.step(Event::AuthorizationWaited));
    assert_eq!(scheduler.phase(), Phase::AwaitingSession);
    assert_eq!(session_call.operation(), Operation::GetSession);
    assert_eq!(value_of(&session_call, "api_key"), "K");
    assert_eq!(value_of(&session_call, "method"), "auth.getSession");
    assert_eq!(value_of(&session_call, "token"), "T");
    assert_eq!(value_of(&session_call, "api_sig"), "a9b7c596842f7f7bf14e3f42ba211de8");
    assert_eq!(value_of(&session_call, "format"), "json");

    assert!(matches!(scheduler.step(session("SK")), Action::Proceed));
    assert_eq!(scheduler.phase(), Phase::SessionEstablished);
    assert_eq!(scheduler.total_scrobbles(), 0);
}

#[test]
fn a_failed_token_call_is_fatal() {
    let mut scheduler = Scheduler::new(config(vec![song("A", "B")]));
    sent(scheduler.step(Event::Tick));
    let outcome = halted(scheduler.step(Event::Token(Err(ScrobbleError::Transport(
        "timed out".to_string(),
    )))));
    assert_eq!(outcome, Outcome::Failed(ScrobbleError::Transport("timed out".to_string())));
    assert_eq!(scheduler.phase(), Phase::Stopped);
}

#[test]
fn an_undecodable_token_is_fatal() {
    let mut scheduler = Scheduler::new(config(vec![song("A", "B")]));
    sent(scheduler.step(Event::Tick));
    let outcome =
        halted(scheduler.step(Event::Token(Err(ScrobbleError::Decode("no token".to_string())))));
    assert_eq!(outcome, Outcome::Failed(ScrobbleError::Decode("no token".to_string())));
    assert_eq!(scheduler.phase(), Phase::Stopped);
}

#[test]
fn a_failed_session_call_is_fatal() {
    let mut scheduler = Scheduler::new(config(vec![song("A", "B")]));
    sent(scheduler.step(Event::Tick));
    scheduler.step(token("T"));
    sent(scheduler.step(Event::AuthorizationWaited));
    let outcome = halted(
        scheduler.step(Event::Session(Err(ScrobbleError::Decode("no session".to_string())))),
    );
    assert_eq!(outcome, Outcome::Failed(ScrobbleError::Decode("no session".to_string())));
    assert_eq!(scheduler.phase(), Phase::Stopped);
}

#[test]
fn accepted_scrobble_counts_one_and_goes_on() {
    let mut scheduler = authenticated(vec![song("A", "B")]);
    let before = unix_now().expect("the clock is readable");
    let request = next_scrobble(&mut scheduler);
    let after = unix_now().expect("the clock is readable");
    assert_eq!(scheduler.phase(), Phase::Submitting { track: 0 });
    assert_eq!(request.operation(), Operation::Scrobble);
    assert_eq!(request.url(), "https://example.test");
    assert_eq!(value_of(&request, "api_key"), "K");
    assert_eq!(value_of(&request, "artist"), "A");
    assert_eq!(value_of(&request, "method"), "track.scrobble");
    assert_eq!(value_of(&request, "sk"), "SK");
    assert_eq!(value_of(&request, "track"), "B");
    assert_eq!(value_of(&request, "format"), "json");
    assert_eq!(value_of(&request, "api_sig"), sign("S", request.params()));
    let timestamp: u64 = value_of(&request, "timestamp").parse().expect("a decimal numeral");
    assert!(timestamp <= after);
    assert!(timestamp >= week_start(before));

    assert_eq!(scheduler.total_scrobbles(), 0);
    match scheduler.step(accepted()) {
        Action::Pause { line, cooldown } => {
            assert_eq!(line, "Scrobbled A - B! Total scrobbles: 1");
            assert_eq!(cooldown, Duration::from_millis(1500));
        }
        _ => panic!("the pause was due"),
    }
    assert_eq!(scheduler.total_scrobbles(), 1);
    assert_eq!(scheduler.phase(), Phase::Cooling);

    let second = next_scrobble(&mut scheduler);
    assert_eq!(second.operation(), Operation::Scrobble);
    assert!(matches!(scheduler.step(accepted()), Action::Pause { .. }));
    assert_eq!(scheduler.total_scrobbles(), 2);
}

#[test]
fn refused_scrobble_stops_at_once() {
    let mut scheduler = authenticated(vec![song("A", "B")]);
    next_scrobble(&mut scheduler);
    assert!(matches!(scheduler.step(accepted()), Action::Pause { .. }));
    next_scrobble(&mut scheduler);
    let outcome = halted(scheduler.step(Event::Scrobbled(Ok(RawResponse {
        status: 403,
        payload: Ok("{\"error\":9}".to_string()),
    }))));
    assert_eq!(
        outcome,
        Outcome::Rejected { status: 403, payload: Ok("{\"error\":9}".to_string()) }
    );
    assert_eq!(scheduler.phase(), Phase::Stopped);
    assert_eq!(scheduler.total_scrobbles(), 1);

    for _ in 0..5 {
        assert_eq!(halted(scheduler.step(Event::Tick)), Outcome::OutOfTurn);
        assert_eq!(scheduler.phase(), Phase::Stopped);
    }
    assert_eq!(halted(scheduler.step(accepted())), Outcome::OutOfTurn);
    assert_eq!(scheduler.total_scrobbles(), 1);
}

#[test]
fn a_refusal_with_an_undecodable_body_reports_both() {
    let mut scheduler = authenticated(vec![song("A", "B")]);
    next_scrobble(&mut scheduler);
    let outcome = halted(scheduler.step(Event::Scrobbled(Ok(RawResponse {
        status: 500,
        payload: Err(ScrobbleError::Decode("not json".to_string())),
    }))));
    assert_eq!(
        outcome,
        Outcome::Rejected {
            status: 500,
            payload: Err(ScrobbleError::Decode("not json".to_string())),
        }
    );
    assert_eq!(scheduler.phase(), Phase::Stopped);
}

#[test]
fn only_status_200_counts_as_accepted() {
    for status in [0u16, 199, 201, 204, 301, 400, 403, 500] {
        let mut scheduler = authenticated(vec![song("A", "B")]);
        next_scrobble(&mut scheduler);
        let outcome = halted(
            scheduler.step(Event::Scrobbled(Ok(RawResponse { status, payload: Ok(String::new()) }))),
        );
        assert_eq!(outcome, Outcome::Rejected { status, payload: Ok(String::new()) });
        assert_eq!(scheduler.total_scrobbles(), 0);
    }
}

#[test]
fn an_accepted_scrobble_counts_whatever_its_body() {
    let mut scheduler = authenticated(vec![song("A", "B")]);
    next_scrobble(&mut scheduler);
    let action = scheduler.step(Event::Scrobbled(Ok(RawResponse {
        status: 200,
        payload: Err(ScrobbleError::Decode("not json".to_string())),
    })));
    assert!(matches!(action, Action::Pause { .. }));
    assert_eq!(scheduler.total_scrobbles(), 1);
}

#[test]
fn a_scrobble_that_cannot_be_sent_is_fatal() {
    let mut scheduler = authenticated(vec![song("A", "B")]);
    next_scrobble(&mut scheduler);
    let outcome = halted(
        scheduler.step(Event::Scrobbled(Err(ScrobbleError::Transport("refused".to_string())))),
    );
    assert_eq!(outcome, Outcome::Failed(ScrobbleError::Transport("refused".to_string())));
    assert_eq!(scheduler.phase(), Phase::Stopped);
}

#[test]
fn empty_playlist_fails_before_any_scrobble() {
    let mut scheduler = authenticated(Vec::new());
    let outcome = halted(scheduler.step(Event::Tick));
    assert_eq!(outcome, Outcome::Failed(ScrobbleError::Configuration));
    assert_eq!(scheduler.phase(), Phase::Stopped);
    assert_eq!(scheduler.total_scrobbles(), 0);
    assert_eq!(halted(scheduler.step(Event::Tick)), Outcome::OutOfTurn);
}

#[test]
fn an_event_out_of_turn_ends_the_run() {
    let mut at_start = Scheduler::new(config(vec![song("A", "B")]));
    assert_eq!(halted(at_start.step(Event::AuthorizationWaited)), Outcome::OutOfTurn);
    assert_eq!(at_start.phase(), Phase::Stopped);

    let mut awaiting_token = Scheduler::new(config(vec![song("A", "B")]));
    sent(awaiting_token.step(Event::Tick));
    assert_eq!(
        halted(awaiting_token.step(session("SK"))),
        Outcome::OutOfTurn
    );

    let mut authorizing = Scheduler::new(config(vec![song("A", "B")]));
    sent(authorizing.step(Event::Tick));
    authorizing.step(token("T"));
    assert_eq!(
        halted(authorizing.step(session("SK"))),
        Outcome::OutOfTurn
    );

    let mut established = authenticated(vec![song("A", "B")]);
    assert_eq!(halted(established.step(accepted())), Outcome::OutOfTurn);
    assert_eq!(established.total_scrobbles(), 0);
}

#[test]
fn the_cycle_visits_every_track() {
    let songs = vec![song("A", "1"), song("B", "2"), song("C", "3")];
    let mut scheduler = authenticated(songs);
    let mut seen = [0u32; 3];
    for round in 0..300u64 {
        let request = next_scrobble(&mut scheduler);
        let artist = value_of(&request, "artist");
        let title = value_of(&request, "track");
        let index = match (artist.as_str(), title.as_str()) {
            ("A", "1") => 0,
            ("B", "2") => 1,
            ("C", "3") => 2,
            _ => panic!("a track that is not on the playlist"),
        };
        assert_eq!(scheduler.phase(), Phase::Submitting { track: index });
        seen[index] += 1;
        assert!(matches!(scheduler.step(accepted()), Action::Pause { .. }));
        assert_eq!(scheduler.total_scrobbles(), round + 1);
    }
    assert!(seen[0] > 50 && seen[1] > 50 && seen[2] > 50);
}

#[test]
fn pick_track_is_spread_over_the_playlist() {
    let songs = vec![song("A", "1"), song("B", "2"), song("C", "3"), song("D", "4")];
    let mut generator = rand::thread_rng();
    let mut seen = [0u32; 4];
    for _ in 0..4_000 {
        let index = pick_track(&mut generator, &songs).expect("the playlist holds tracks");
        assert!(index < 4);
        seen[index] += 1;
    }
    for count in seen {
        assert!(count > 700);
        assert!(count < 1_300);
    }
}

#[test]
fn pick_track_of_one_track() {
    let songs = vec![song("A", "1")];
    let mut generator = rand::thread_rng();
    for _ in 0..100 {
        assert_eq!(pick_track(&mut generator, &songs), Ok(0));
    }
}

#[test]
fn pick_track_of_no_track() {
    let mut generator = rand::thread_rng();
    assert_eq!(pick_track(&mut generator, &Vec::new()), Err(ScrobbleError::Configuration));
}

#[test]
fn status_line_names_track_and_total() {
    assert_eq!(status_line(&song("A", "B"), 1), "Scrobbled A - B! Total scrobbles: 1");
    assert_eq!(
        status_line(&song("$uicideboy$", "LTE"), 1234),
        "Scrobbled $uicideboy$ - LTE! Total scrobbles: 1234"
    );
}

#[test]
fn phases_belong_to_the_five_stages() {
    assert_eq!(Phase::Start.stage(), Stage::Start);
    assert_eq!(Phase::AwaitingToken.stage(), Stage::Start);
    assert_eq!(Phase::TokenObtained.stage(), Stage::TokenObtained);
    assert_eq!(Phase::AwaitingSession.stage(), Stage::TokenObtained);
    assert_eq!(Phase::SessionEstablished.stage(), Stage::SessionEstablished);
    assert_eq!(Phase::Drawing { track: 0, now: 0 }.stage(), Stage::Looping);
    assert_eq!(Phase::Submitting { track: 0 }.stage(), Stage::Looping);
    assert_eq!(Phase::Cooling.stage(), Stage::Looping);
    assert_eq!(Phase::Stopped.stage(), Stage::Stopped);
}

#[test]
fn a_run_goes_through_the_stages_in_order() {
    let mut scheduler = Scheduler::new(config(vec![song("A", "B")]));
    assert_eq!(scheduler.phase().stage(), Stage::Start);
    sent(scheduler.step(Event::Tick));
    assert_eq!(scheduler.phase().stage(), Stage::Start);
    scheduler.step(token("T"));
    assert_eq!(scheduler.phase().stage(), Stage::TokenObtained);
    sent(scheduler.step(Event::AuthorizationWaited));
    assert_eq!(scheduler.phase().stage(), Stage::TokenObtained);
    scheduler.step(session("SK"));
    assert_eq!(scheduler.phase().stage(), Stage::SessionEstablished);
    next_scrobble(&mut scheduler);
    assert_eq!(scheduler.phase().stage(), Stage::Looping);
    scheduler.step(accepted());
    assert_eq!(scheduler.phase().stage(), Stage::Looping);
    next_scrobble(&mut scheduler);
    scheduler.step(Event::Scrobbled(Ok(RawResponse { status: 403, payload: Ok(String::new()) })));
    assert_eq!(scheduler.phase().stage(), Stage::Stopped);
}
