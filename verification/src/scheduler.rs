//! The scheduler: one authentication, then scrobble after scrobble until the
//! service refuses one.
//!
//! The scheduler decides and never waits. Whoever drives it performs the
//! action that a step returns and comes back with the event that followed.

use crate::bindings::random_up_to;
use crate::client::{
    authorization_address, scrobble_params, session_params, token_params, ApiRequest,
    LastFmClient, Operation, RequestView, SessionResponse, TokenResponse,
};
use crate::config::{Config, SongConfig};
use crate::error::ScrobbleError;
use crate::text::{decimal, decimal_string};
use crate::timestamp::{random_timestamp_at, sampled_within, timely, unix_now};
use rand::rngs::ThreadRng;
use std::time::Duration;
use vstd::prelude::*;

verus! {

/// How long the driver waits for a person to authorize the token, in seconds.
pub const AUTHORIZATION_WAIT_SECONDS: u64 = 10;

/// How many candidate timestamps one step draws at most. Where all of them
/// are rejected the driver comes back for the next step, which draws on.
pub const DRAWS_PER_STEP: u32 = 1_000;

/// The status with which the service answers a scrobble that it accepted.
pub const ACCEPTED_STATUS: u16 = 200;

/// Where a run stands.
#[derive(Clone, Copy, Debug, PartialEq, Eq, Structural)]
pub enum Phase {
    /// Nothing has happened yet.
    Start,
    /// The token has been asked for.
    AwaitingToken,
    /// The token is known and a person is authorizing it.
    TokenObtained,
    /// The session has been asked for.
    AwaitingSession,
    /// The session is known; the cycle has not begun.
    SessionEstablished,
    /// In the cycle: the track at `track` is chosen, the clock read `now`, and
    /// a timestamp is being drawn.
    Drawing { track: usize, now: u64 },
    /// In the cycle: the track at `track` has been submitted.
    Submitting { track: usize },
    /// In the cycle: pausing after an accepted scrobble.
    Cooling,
    /// The run is over.
    Stopped,
}

/// The stages of a run, in the order in which a run goes through them.
#[derive(Clone, Copy, Debug, PartialEq, Eq, Structural)]
pub enum Stage {
    /// The token is not known yet.
    Start,
    /// The token is known, the session is not.
    TokenObtained,
    /// The session is known; the cycle has not begun.
    SessionEstablished,
    /// Scrobble after scrobble.
    Looping,
    /// The run is over.
    Stopped,
}

impl Stage {
    /// The place of the stage in the order of the stages.
    pub open spec fn rank(self) -> nat {
        match self {
            Stage::Start => 0,
            Stage::TokenObtained => 1,
            Stage::SessionEstablished => 2,
            Stage::Looping => 3,
            Stage::Stopped => 4,
        }
    }
}

impl Phase {
    /// The stage that the phase belongs to.
    pub open spec fn stage_of(self) -> Stage {
        match self {
            Phase::Start => Stage::Start,
            Phase::AwaitingToken => Stage::Start,
            Phase::TokenObtained => Stage::TokenObtained,
            Phase::AwaitingSession => Stage::TokenObtained,
            Phase::SessionEstablished => Stage::SessionEstablished,
            Phase::Drawing { track, now } => Stage::Looping,
            Phase::Submitting { track } => Stage::Looping,
            Phase::Cooling => Stage::Looping,
            Phase::Stopped => Stage::Stopped,
        }
    }

    /// Gives the stage that the phase belongs to.
    pub fn stage(self) -> (stage: Stage)
        ensures
            stage == self.stage_of(),
    {
        match self {
            Phase::Start => Stage::Start,
            Phase::AwaitingToken => Stage::Start,
            Phase::TokenObtained => Stage::TokenObtained,
            Phase::AwaitingSession => Stage::TokenObtained,
            Phase::SessionEstablished => Stage::SessionEstablished,
            Phase::Drawing { track: _, now: _ } => Stage::Looping,
            Phase::Submitting { track: _ } => Stage::Looping,
            Phase::Cooling => Stage::Looping,
            Phase::Stopped => Stage::Stopped,
        }
    }
}

/// The answer to a scrobble: its status, and its body decoded as a diagnostic
/// payload, or the failure to decode it.
#[derive(Debug, PartialEq, Eq)]
pub struct RawResponse {
    pub status: u16,
    pub payload: Result<String, ScrobbleError>,
}

/// What the driver reports back.
#[derive(Debug, PartialEq, Eq)]
pub enum Event {
    /// The last action is done and called for no answer.
    Tick,
    /// The token call ended, with the decoded answer or a failure.
    Token(Result<TokenResponse, ScrobbleError>),
    /// The wait for the authorization is over.
    AuthorizationWaited,
    /// The session call ended, with the decoded answer or a failure.
    Session(Result<SessionResponse, ScrobbleError>),
    /// The scrobble call ended, with the response or a failure to get one.
    Scrobbled(Result<RawResponse, ScrobbleError>),
}

/// How a run ended.
#[derive(Debug, PartialEq, Eq)]
pub enum Outcome {
    /// The service refused a scrobble. This is the planned end of a run.
    Rejected { status: u16, payload: Result<String, ScrobbleError> },
    /// The run could not go on.
    Failed(ScrobbleError),
    /// The driver reported an event that the phase was not waiting for.
    OutOfTurn,
}

/// What the driver is to do next.
pub enum Action {
    /// Report `Event::Tick` at once.
    Proceed,
    /// Send the request and report how it ended: `Event::Token`,
    /// `Event::Session` or `Event::Scrobbled`, by its operation.
    Call(ApiRequest),
    /// Show `address` to a person, wait `wait_seconds`, then report
    /// `Event::AuthorizationWaited`.
    Authorize { address: String, wait_seconds: u64 },
    /// Print `line`, wait for the next tick of a timer of period `cooldown`,
    /// then report `Event::Tick`.
    Pause { line: String, cooldown: Duration },
    /// Stop.
    Halt(Outcome),
}

/// What a scheduler is made of.
pub struct SchedulerView {
    pub url: Seq<char>,
    pub key: Seq<char>,
    pub secret: Seq<char>,
    pub cooldown: Duration,
    pub songs: Seq<(Seq<char>, Seq<char>)>,
    pub phase: Phase,
    pub token: Seq<char>,
    pub session: Seq<char>,
    pub total: u64,
}

impl SchedulerView {
    /// While a run is in the cycle, its playlist holds a track, and the track
    /// that is chosen is one of the playlist.
    pub open spec fn consistent(self) -> bool {
        match self.phase {
            Phase::Drawing { track, now } => track < self.songs.len(),
            Phase::Submitting { track } => track < self.songs.len(),
            Phase::Cooling => self.songs.len() > 0,
            _ => true,
        }
    }
}

/// The line that reports an accepted scrobble.
pub open spec fn status_text(song: (Seq<char>, Seq<char>), total: u64) -> Seq<char> {
    "Scrobbled "@ + song.0 + " - "@ + song.1 + "! Total scrobbles: "@ + decimal(total as nat)
}

/// The count after one more accepted scrobble. It stays at the largest number
/// that it can hold.
pub open spec fn counted(total: u64) -> u64 {
    if total < u64::MAX {
        (total + 1) as u64
    } else {
        total
    }
}

/// The run ends: the phase is `Stopped`, nothing else changes, and the driver
/// is told to halt with `outcome`.
pub open spec fn halts(
    pre: SchedulerView,
    post: SchedulerView,
    action: Action,
    outcome: Outcome,
) -> bool {
    &&& post == (SchedulerView { phase: Phase::Stopped, ..pre })
    &&& action == Action::Halt(outcome)
}

/// The driver is told to send exactly the request `request`.
pub open spec fn calls(action: Action, request: RequestView) -> bool {
    action matches Action::Call(sent) && sent@ == request
}

/// A round of the cycle begins: with an empty playlist the run fails; else a
/// track of the playlist is chosen and the clock is read, and the run fails
/// where the clock cannot be read.
pub open spec fn begins(pre: SchedulerView, post: SchedulerView, action: Action) -> bool {
    if pre.songs.len() == 0 {
        halts(pre, post, action, Outcome::Failed(ScrobbleError::Configuration))
    } else {
        ||| halts(pre, post, action, Outcome::Failed(ScrobbleError::Clock))
        ||| {
            &&& post.phase matches Phase::Drawing { track, now }
            &&& track < pre.songs.len()
            &&& post == (SchedulerView { phase: post.phase, ..pre })
            &&& action is Proceed
        }
    }
}

/// Candidate timestamps are drawn for the track at `track` until one is not
/// after `now`, and the scrobble with that timestamp is sent; where the draws
/// of this step are all rejected, nothing changes and the driver comes back
/// for more.
pub open spec fn draws(
    pre: SchedulerView,
    track: usize,
    now: u64,
    post: SchedulerView,
    action: Action,
) -> bool {
    exists|outcome: Option<u64>| #[trigger]
        sampled_within(now as int, DRAWS_PER_STEP as int, outcome) && match outcome {
            None => post == pre && action is Proceed,
            Some(timestamp) => {
                &&& post == (SchedulerView { phase: Phase::Submitting { track }, ..pre })
                &&& calls(
                    action,
                    RequestView {
                        operation: Operation::Scrobble,
                        url: pre.url,
                        params: scrobble_params(
                            pre.key,
                            pre.secret,
                            pre.songs[track as int].0,
                            pre.session,
                            timestamp as nat,
                            pre.songs[track as int].1,
                        ),
                        secret: pre.secret,
                    },
                )
            },
        }
}

/// The answer to the scrobble of the track at `track` is in: an accepted one
/// is counted and reported, and the pause follows; any other status ends the
/// run.
pub open spec fn answers(
    pre: SchedulerView,
    track: usize,
    response: RawResponse,
    post: SchedulerView,
    action: Action,
) -> bool {
    if response.status == ACCEPTED_STATUS {
        &&& post == (SchedulerView { phase: Phase::Cooling, total: counted(pre.total), ..pre })
        &&& action matches Action::Pause { line, cooldown }
        &&& line@ == status_text(pre.songs[track as int], counted(pre.total))
        &&& cooldown == pre.cooldown
    } else {
        halts(
            pre,
            post,
            action,
            Outcome::Rejected { status: response.status, payload: response.payload },
        )
    }
}

/// What one step may do: for each phase, the event that it waits for and what
/// follows from it; any other event ends the run.
pub open spec fn moves(pre: SchedulerView, event: Event, post: SchedulerView, action: Action) -> bool {
    match (pre.phase, event) {
        (Phase::Start, Event::Tick) => {
            &&& post == (SchedulerView { phase: Phase::AwaitingToken, ..pre })
            &&& calls(
                action,
                RequestView {
                    operation: Operation::GetToken,
                    url: pre.url,
                    params: token_params(pre.key),
                    secret: pre.secret,
                },
            )
        },
        (Phase::AwaitingToken, Event::Token(Ok(answer))) => {
            &&& post == (SchedulerView {
                phase: Phase::TokenObtained,
                token: answer.token@,
                ..pre
            })
            &&& action matches Action::Authorize { address, wait_seconds }
            &&& address@ == authorization_address(pre.key, answer.token@)
            &&& wait_seconds == AUTHORIZATION_WAIT_SECONDS
        },
        (Phase::AwaitingToken, Event::Token(Err(error))) => halts(
            pre,
            post,
            action,
            Outcome::Failed(error),
        ),
        (Phase::TokenObtained, Event::AuthorizationWaited) => {
            &&& post == (SchedulerView { phase: Phase::AwaitingSession, ..pre })
            &&& calls(
                action,
                RequestView {
                    operation: Operation::GetSession,
                    url: pre.url,
                    params: session_params(pre.key, pre.secret, pre.token),
                    secret: pre.secret,
                },
            )
        },
        (Phase::AwaitingSession, Event::Session(Ok(answer))) => {
            &&& post == (SchedulerView {
                phase: Phase::SessionEstablished,
                session: answer.session.key@,
                ..pre
            })
            &&& action is Proceed
        },
        (Phase::AwaitingSession, Event::Session(Err(error))) => halts(
            pre,
            post,
            action,
            Outcome::Failed(error),
        ),
        (Phase::SessionEstablished, Event::Tick) => begins(pre, post, action),
        (Phase::Cooling, Event::Tick) => begins(pre, post, action),
        (Phase::Drawing { track, now }, Event::Tick) => draws(pre, track, now, post, action),
        (Phase::Submitting { track }, Event::Scrobbled(Ok(response))) => answers(
            pre,
            track,
            response,
            post,
            action,
        ),
        (Phase::Submitting { track }, Event::Scrobbled(Err(error))) => halts(
            pre,
            post,
            action,
            Outcome::Failed(error),
        ),
        _ => halts(pre, post, action, Outcome::OutOfTurn),
    }
}

/// Chooses a track of the playlist, each with the same chance. Fails with
/// `ScrobbleError::Configuration` exactly where the playlist is empty.
pub fn pick_track(generator: &mut ThreadRng, songs: &Vec<SongConfig>) -> (choice: Result<
    usize,
    ScrobbleError,
>)
    ensures
        songs@.len() == 0 ==> choice == Err::<usize, ScrobbleError>(ScrobbleError::Configuration),
        songs@.len() > 0 ==> choice is Ok && choice->Ok_0 < songs@.len(),
{
    if songs.len() == 0 {
        Err(ScrobbleError::Configuration)
    } else {
        let last: u64 = (songs.len() - 1) as u64;
        let drawn: u64 = random_up_to(generator, last);
        Ok(drawn as usize)
    }
}

/// Builds the line that reports an accepted scrobble of `song`, the
/// `total`-th of the run.
pub fn status_line(song: &SongConfig, total: u64) -> (line: String)
    ensures
        line@ == status_text(song@, total),
{
    let count: String = decimal_string(total);
    let mut line: String = String::from_str("Scrobbled ");
    line.append(song.artist.as_str());
    line.append(" - ");
    line.append(song.title.as_str());
    line.append("! Total scrobbles: ");
    line.append(count.as_str());
    line
}

/// The scheduler of one run.
pub struct Scheduler {
    client: LastFmClient,
    cooldown: Duration,
    songs: Vec<SongConfig>,
    phase: Phase,
    token: String,
    session: String,
    total: u64,
}

impl View for Scheduler {
    type V = SchedulerView;

    closed spec fn view(&self) -> SchedulerView {
        SchedulerView {
            url: self.client.url(),
            key: self.client.key(),
            secret: self.client.secret(),
            cooldown: self.cooldown,
            songs: self.songs.deep_view(),
            phase: self.phase,
            token: self.token@,
            session: self.session@,
            total: self.total,
        }
    }
}

impl Scheduler {
    #[verifier::type_invariant]
    spec fn track_is_listed(self) -> bool {
        match self.phase {
            Phase::Drawing { track, now } => track < self.songs@.len(),
            Phase::Submitting { track } => track < self.songs@.len(),
            Phase::Cooling => self.songs@.len() > 0,
            _ => true,
        }
    }

    /// Makes the scheduler of a run under `config`. Nothing has happened yet.
    pub fn new(config: Config) -> (scheduler: Self)
        ensures
            scheduler@ == (SchedulerView {
                url: config.api.url@,
                key: config.api.key@,
                secret: config.api.secret@,
                cooldown: config.scrobbler.cooldown,
                songs: config.scrobbler.songs.deep_view(),
                phase: Phase::Start,
                token: Seq::<char>::empty(),
                session: Seq::<char>::empty(),
                total: 0,
            }),
            scheduler@.consistent(),
    {
        let client: LastFmClient = LastFmClient::new(
            config.api.url.as_str(),
            config.api.key.as_str(),
            config.api.secret.as_str(),
        );
        Scheduler {
            client,
            cooldown: config.scrobbler.cooldown,
            songs: config.scrobbler.songs,
            phase: Phase::Start,
            token: String::new(),
            session: String::new(),
            total: 0,
        }
    }

    /// Where the run stands.
    pub fn phase(&self) -> (phase: Phase)
        ensures
            phase == self@.phase,
    {
        self.phase
    }

    /// How many scrobbles the service has accepted in this run.
    pub fn total_scrobbles(&self) -> (total: u64)
        ensures
            total == self@.total,
    {
        self.total
    }

    /// Ends the run with `outcome`.
    fn halt(&mut self, outcome: Outcome) -> (action: Action)
        ensures
            halts(old(self)@, final(self)@, action, outcome),
    {
        self.phase = Phase::Stopped;
        Action::Halt(outcome)
    }

    /// Begins a round of the cycle.
    fn begin_round(&mut self) -> (action: Action)
        ensures
            begins(old(self)@, final(self)@, action),
    {
        let mut generator: ThreadRng = rand::thread_rng();
        match pick_track(&mut generator, &self.songs) {
            Err(error) => self.halt(Outcome::Failed(error)),
            Ok(track) => match unix_now() {
                Err(error) => self.halt(Outcome::Failed(error)),
                Ok(now) => {
                    self.phase = Phase::Drawing { track, now };
                    Action::Proceed
                },
            },
        }
    }

    /// Draws a timestamp for the track at `track` and sends the scrobble.
    fn draw(&mut self, track: usize, now: u64) -> (action: Action)
        requires
            old(self)@.phase == (Phase::Drawing { track, now }),
        ensures
            draws(old(self)@, track, now, final(self)@, action),
    {
        proof {
            use_type_invariant(&*self);
        }
        let mut generator: ThreadRng = rand::thread_rng();
        let outcome: Option<u64> = random_timestamp_at(&mut generator, now, DRAWS_PER_STEP);
        match outcome {
            None => Action::Proceed,
            Some(timestamp) => {
                let request: ApiRequest = self.client.track_scrobble(
                    self.session.as_str(),
                    &self.songs[track],
                    timestamp,
                );
                self.phase = Phase::Submitting { track };
                Action::Call(request)
            },
        }
    }

    /// Takes in the answer to the scrobble of the track at `track`.
    fn answer(&mut self, track: usize, response: RawResponse) -> (action: Action)
        requires
            old(self)@.phase == (Phase::Submitting { track }),
        ensures
            answers(old(self)@, track, response, final(self)@, action),
    {
        proof {
            use_type_invariant(&*self);
        }
        if response.status == ACCEPTED_STATUS {
            if self.total < u64::MAX {
                self.total = self.total + 1;
            }
            self.phase = Phase::Cooling;
            let line: String = status_line(&self.songs[track], self.total);
            Action::Pause { line, cooldown: self.cooldown }
        } else {
            self.halt(Outcome::Rejected { status: response.status, payload: response.payload })
        }
    }

    /// Takes the run one step further: takes in `event` and says what the
    /// driver is to do next.
    pub fn step(&mut self, event: Event) -> (action: Action)
        ensures
            moves(old(self)@, event, final(self)@, action),
            final(self)@.consistent(),
    {
        let phase: Phase = self.phase;
        let action: Action = match phase {
            Phase::Start => match event {
                Event::Tick => {
                    self.phase = Phase::AwaitingToken;
                    Action::Call(self.client.token())
                },
                _ => self.halt(Outcome::OutOfTurn),
            },
            Phase::AwaitingToken => match event {
                Event::Token(Ok(answer)) => {
                    let address: String = self.client.authorization_url(answer.token.as_str());
                    self.token = answer.token;
                    self.phase = Phase::TokenObtained;
                    Action::Authorize { address, wait_seconds: AUTHORIZATION_WAIT_SECONDS }
                },
                Event::Token(Err(error)) => self.halt(Outcome::Failed(error)),
                _ => self.halt(Outcome::OutOfTurn),
            },
            Phase::TokenObtained => match event {
                Event::AuthorizationWaited => {
                    self.phase = Phase::AwaitingSession;
                    Action::Call(self.client.session(self.token.as_str()))
                },
                _ => self.halt(Outcome::OutOfTurn),
            },
            Phase::AwaitingSession => match event {
                Event::Session(Ok(answer)) => {
                    self.session = answer.session.key;
                    self.phase = Phase::SessionEstablished;
                    Action::Proceed
                },
                Event::Session(Err(error)) => self.halt(Outcome::Failed(error)),
                _ => self.halt(Outcome::OutOfTurn),
            },
            Phase::SessionEstablished => match event {
                Event::Tick => self.begin_round(),
                _ => self.halt(Outcome::OutOfTurn),
            },
            Phase::Cooling => match event {
                Event::Tick => self.begin_round(),
                _ => self.halt(Outcome::OutOfTurn),
            },
            Phase::Drawing { track, now } => match event {
                Event::Tick => self.draw(track, now),
                _ => self.halt(Outcome::OutOfTurn),
            },
            Phase::Submitting { track } => match event {
                Event::Scrobbled(Ok(response)) => self.answer(track, response),
                Event::Scrobbled(Err(error)) => self.halt(Outcome::Failed(error)),
                _ => self.halt(Outcome::OutOfTurn),
            },
            Phase::Stopped => self.halt(Outcome::OutOfTurn),
        };
        proof {
            use_type_invariant(&*self);
        }
        action
    }
}

/// A step leaves a consistent scheduler consistent.
pub proof fn lemma_moves_keep_consistent(
    pre: SchedulerView,
    event: Event,
    post: SchedulerView,
    action: Action,
)
    requires
        pre.consistent(),
        moves(pre, event, post, action),
    ensures
        post.consistent(),
{
}

/// A run never goes back: a step stays in its stage, goes on to the next one,
/// or stops the run.
pub proof fn lemma_run_moves_forward(
    pre: SchedulerView,
    event: Event,
    post: SchedulerView,
    action: Action,
)
    requires
        moves(pre, event, post, action),
    ensures
        post.phase.stage_of() == pre.phase.stage_of() || post.phase.stage_of().rank()
            == pre.phase.stage_of().rank() + 1 || post.phase is Stopped,
        post.phase.stage_of().rank() >= pre.phase.stage_of().rank(),
{
}

/// A step changes nothing of what the run was configured with.
pub proof fn lemma_configuration_is_fixed(
    pre: SchedulerView,
    event: Event,
    post: SchedulerView,
    action: Action,
)
    requires
        moves(pre, event, post, action),
    ensures
        post.url == pre.url,
        post.key == pre.key,
        post.secret == pre.secret,
        post.cooldown == pre.cooldown,
        post.songs == pre.songs,
{
}

/// Whether `event` tells a scheduler that waits for the answer to a scrobble
/// that the service accepted it.
pub open spec fn accepted(pre: SchedulerView, event: Event) -> bool {
    &&& pre.phase is Submitting
    &&& event matches Event::Scrobbled(Ok(response))
    &&& response.status == ACCEPTED_STATUS
}

/// The count goes up by one with each accepted scrobble, and changes with
/// nothing else.
pub proof fn lemma_counting(pre: SchedulerView, event: Event, post: SchedulerView, action: Action)
    requires
        moves(pre, event, post, action),
    ensures
        post.total == if accepted(pre, event) {
            counted(pre.total)
        } else {
            pre.total
        },
        pre.total < u64::MAX ==> counted(pre.total) == pre.total + 1,
{
}

/// The first scrobble that the service does not accept ends the run: whatever
/// the status, the run stops, reports the status and the payload, and counts
/// nothing.
pub proof fn lemma_refusal_stops(
    pre: SchedulerView,
    response: RawResponse,
    post: SchedulerView,
    action: Action,
)
    requires
        pre.phase is Submitting,
        response.status != ACCEPTED_STATUS,
        moves(pre, Event::Scrobbled(Ok(response)), post, action),
    ensures
        post.phase is Stopped,
        post.total == pre.total,
        action == Action::Halt(
            Outcome::Rejected { status: response.status, payload: response.payload },
        ),
{
}

/// A run that has stopped stays stopped: whatever is reported, nothing
/// changes and the driver is told to halt.
pub proof fn lemma_stopped_stays(
    pre: SchedulerView,
    event: Event,
    post: SchedulerView,
    action: Action,
)
    requires
        pre.phase is Stopped,
        moves(pre, event, post, action),
    ensures
        post == pre,
        action == Action::Halt(Outcome::OutOfTurn),
{
}

/// Once it is known, the session is kept as it is to the end of the run: it
/// is never asked for again and never replaced.
pub proof fn lemma_session_is_kept(
    pre: SchedulerView,
    event: Event,
    post: SchedulerView,
    action: Action,
)
    requires
        !(pre.phase is AwaitingSession),
        moves(pre, event, post, action),
    ensures
        post.session == pre.session,
        !(pre.phase is TokenObtained) ==> !(action matches Action::Call(request)
            && request@.operation == Operation::GetSession),
{
}

/// Each request is sent from one phase only: the token call at the start,
/// the session call after the authorization, a scrobble after a draw.
pub proof fn lemma_requests_in_turn(
    pre: SchedulerView,
    event: Event,
    post: SchedulerView,
    action: Action,
)
    requires
        moves(pre, event, post, action),
    ensures
        action matches Action::Call(request) ==> match request@.operation {
            Operation::GetToken => pre.phase is Start,
            Operation::GetSession => pre.phase is TokenObtained,
            Operation::Scrobble => pre.phase is Drawing,
        },
{
}

/// With an empty playlist no scrobble is ever sent: the attempt to enter the
/// cycle ends the run with a configuration error.
pub proof fn lemma_empty_playlist_sends_no_scrobble(
    pre: SchedulerView,
    event: Event,
    post: SchedulerView,
    action: Action,
)
    requires
        pre.consistent(),
        pre.songs.len() == 0,
        moves(pre, event, post, action),
    ensures
        !(action matches Action::Call(request) && request@.operation == Operation::Scrobble),
        pre.phase is SessionEstablished && event is Tick ==> action == Action::Halt(
            Outcome::Failed(ScrobbleError::Configuration),
        ) && post.phase is Stopped,
{
}

/// The playlist is checked where the cycle is entered and never again: a
/// round that follows a pause begins without a configuration error.
pub proof fn lemma_playlist_checked_on_entry(
    pre: SchedulerView,
    post: SchedulerView,
    action: Action,
)
    requires
        pre.consistent(),
        pre.phase is Cooling,
        moves(pre, Event::Tick, post, action),
    ensures
        action != Action::Halt(Outcome::Failed(ScrobbleError::Configuration)),
        post.phase is Drawing || action == Action::Halt(Outcome::Failed(ScrobbleError::Clock)),
{
}

/// Every scrobble that is sent carries a timely timestamp: one of the week
/// of the clock reading, and not after that reading.
pub proof fn lemma_scrobble_is_timely(
    pre: SchedulerView,
    track: usize,
    now: u64,
    post: SchedulerView,
    action: Action,
)
    requires
        pre.phase == (Phase::Drawing { track, now }),
        moves(pre, Event::Tick, post, action),
    ensures
        action matches Action::Call(request) ==> exists|timestamp: u64|
            #[trigger] timely(now as int, timestamp as int) && request@.params == scrobble_params(
                pre.key,
                pre.secret,
                pre.songs[track as int].0,
                pre.session,
                timestamp as nat,
                pre.songs[track as int].1,
            ),
{
    if action is Call {
        let outcome = choose|outcome: Option<u64>| #[trigger]
            sampled_within(now as int, DRAWS_PER_STEP as int, outcome) && match outcome {
                None => post == pre && action is Proceed,
                Some(timestamp) => {
                    &&& post == (SchedulerView { phase: Phase::Submitting { track }, ..pre })
                    &&& calls(
                        action,
                        RequestView {
                            operation: Operation::Scrobble,
                            url: pre.url,
                            params: scrobble_params(
                                pre.key,
                                pre.secret,
                                pre.songs[track as int].0,
                                pre.session,
                                timestamp as nat,
                                pre.songs[track as int].1,
                            ),
                            secret: pre.secret,
                        },
                    )
                },
            };
        let timestamp = outcome->Some_0;
        assert(timely(now as int, timestamp as int));
    }
}

} // verus!
