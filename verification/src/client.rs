//! The three remote calls, as the query parameters that each one sends.

use crate::config::SongConfig;
use crate::signer::{
    lemma_signature_depends_on_value, lemma_signed_names, lemma_signing_text_push, sign,
    signature_of, signing_base, signing_piece, signing_text, Param,
};
use crate::text::{decimal, decimal_string, lemma_decimal_injective};
use vstd::prelude::*;

verus! {

/// How the transport identifies itself to the service.
pub const USER_AGENT: &'static str = "PostmanRuntime/7.37.3";

/// How long the transport waits for the answer to a request, in seconds.
pub const REQUEST_TIMEOUT_SECONDS: u64 = 15;

/// The content length that the transport announces: requests have no body.
pub const CONTENT_LENGTH: u64 = 0;

/// The remote operations.
#[derive(Clone, Copy, Debug, PartialEq, Eq, Structural)]
pub enum Operation {
    /// Obtain a request token.
    GetToken,
    /// Exchange an authorized token for a session.
    GetSession,
    /// Submit one scrobble.
    Scrobble,
}

impl Operation {
    /// The method name that the service knows the operation by.
    pub open spec fn method(self) -> Seq<char> {
        match self {
            Operation::GetToken => "auth.getToken"@,
            Operation::GetSession => "auth.getSession"@,
            Operation::Scrobble => "track.scrobble"@,
        }
    }

    /// Whether calls of the operation carry a signature.
    pub open spec fn signed(self) -> bool {
        !(self is GetToken)
    }

    /// Gives the method name that the service knows the operation by.
    pub fn method_name(self) -> (name: &'static str)
        ensures
            name@ == self.method(),
    {
        match self {
            Operation::GetToken => "auth.getToken",
            Operation::GetSession => "auth.getSession",
            Operation::Scrobble => "track.scrobble",
        }
    }

    /// Tells whether calls of the operation carry a signature.
    pub fn is_signed(self) -> (signed: bool)
        ensures
            signed == self.signed(),
    {
        match self {
            Operation::GetToken => false,
            Operation::GetSession => true,
            Operation::Scrobble => true,
        }
    }
}

/// The body of the answer to the token call.
#[derive(Debug, PartialEq, Eq)]
pub struct TokenResponse {
    pub token: String,
}

/// The session that the service opened.
#[derive(Debug, PartialEq, Eq)]
pub struct Session {
    pub key: String,
}

/// The body of the answer to the session exchange. Whatever else the service
/// puts beside the session key is ignored.
#[derive(Debug, PartialEq, Eq)]
pub struct SessionResponse {
    pub session: Session,
}

/// The two parameters that close a signed call: the signature of `signed`
/// under `secret`, and the output format.
pub open spec fn closing_params(secret: Seq<char>, signed: Seq<(Seq<char>, Seq<char>)>) -> Seq<
    (Seq<char>, Seq<char>),
> {
    seq![("api_sig"@, signature_of(secret, signed)), ("format"@, "json"@)]
}

/// The parameters of the call that asks for a token.
pub open spec fn token_params(key: Seq<char>) -> Seq<(Seq<char>, Seq<char>)> {
    seq![("api_key"@, key), ("method"@, "auth.getToken"@), ("format"@, "json"@)]
}

/// The signed parameters of the session exchange, in the order that the
/// service signs them in.
pub open spec fn session_signed_params(key: Seq<char>, token: Seq<char>) -> Seq<
    (Seq<char>, Seq<char>),
> {
    seq![("api_key"@, key), ("method"@, "auth.getSession"@), ("token"@, token)]
}

/// All parameters of the session exchange.
pub open spec fn session_params(key: Seq<char>, secret: Seq<char>, token: Seq<char>) -> Seq<
    (Seq<char>, Seq<char>),
> {
    session_signed_params(key, token) + closing_params(secret, session_signed_params(key, token))
}

/// The signed parameters of a scrobble, in the order that the service signs
/// them in.
pub open spec fn scrobble_signed_params(
    key: Seq<char>,
    artist: Seq<char>,
    session: Seq<char>,
    timestamp: nat,
    title: Seq<char>,
) -> Seq<(Seq<char>, Seq<char>)> {
    seq![
        ("api_key"@, key),
        ("artist"@, artist),
        ("method"@, "track.scrobble"@),
        ("sk"@, session),
        ("timestamp"@, decimal(timestamp)),
        ("track"@, title),
    ]
}

/// All parameters of a scrobble.
pub open spec fn scrobble_params(
    key: Seq<char>,
    secret: Seq<char>,
    artist: Seq<char>,
    session: Seq<char>,
    timestamp: nat,
    title: Seq<char>,
) -> Seq<(Seq<char>, Seq<char>)> {
    scrobble_signed_params(key, artist, session, timestamp, title) + closing_params(
        secret,
        scrobble_signed_params(key, artist, session, timestamp, title),
    )
}

/// The address at which a person authorizes `token` for the application of
/// `key`.
pub open spec fn authorization_address(key: Seq<char>, token: Seq<char>) -> Seq<char> {
    "http://www.last.fm/api/auth/?api_key="@ + key + "&token="@ + token
}

/// Whether `params` hold the signature of all of them under `secret`.
pub open spec fn closed_under_signature(
    params: Seq<(Seq<char>, Seq<char>)>,
    secret: Seq<char>,
) -> bool {
    params.contains(("api_sig"@, signature_of(secret, params)))
}

/// What a request is made of. `secret` is the secret that it was built under.
pub struct RequestView {
    pub operation: Operation,
    pub url: Seq<char>,
    pub params: Seq<(Seq<char>, Seq<char>)>,
    pub secret: Seq<char>,
}

/// One call, ready to be sent: a POST to `url` with `params` as the query
/// string and an empty body. A request cannot be changed once it is built, so
/// the signature that a signed one carries is always that of its parameters.
pub struct ApiRequest {
    operation: Operation,
    url: String,
    params: Vec<Param>,
    secret: Ghost<Seq<char>>,
}

impl View for ApiRequest {
    type V = RequestView;

    closed spec fn view(&self) -> RequestView {
        RequestView {
            operation: self.operation,
            url: self.url@,
            params: self.params.deep_view(),
            secret: self.secret@,
        }
    }
}

impl ApiRequest {
    #[verifier::type_invariant]
    spec fn signature_is_current(self) -> bool {
        self.operation.signed() ==> closed_under_signature(
            self.params.deep_view(),
            self.secret@,
        )
    }

    /// The operation that the request calls.
    pub fn operation(&self) -> (operation: Operation)
        ensures
            operation == self@.operation,
    {
        self.operation
    }

    /// The address that the request goes to.
    pub fn url(&self) -> (url: &String)
        ensures
            url@ == self@.url,
    {
        &self.url
    }

    /// The query parameters, in the order in which they are sent. Those of a
    /// signed operation hold their own signature.
    pub fn params(&self) -> (params: &Vec<Param>)
        ensures
            params.deep_view() == self@.params,
            self@.operation.signed() ==> closed_under_signature(self@.params, self@.secret),
    {
        proof {
            use_type_invariant(self);
        }
        &self.params
    }
}

/// The two parameters that close a call are not signed: with them the call
/// has the signature that it had without them, and so holds the signature of
/// all its parameters.
pub proof fn lemma_closing_params_unsigned(secret: Seq<char>, signed: Seq<(Seq<char>, Seq<char>)>)
    ensures
        signature_of(secret, signed + closing_params(secret, signed)) == signature_of(
            secret,
            signed,
        ),
        closed_under_signature(signed + closing_params(secret, signed), secret),
{
    let closing = closing_params(secret, signed);
    lemma_signing_text_push(signed, closing[0]);
    lemma_signing_text_push(signed.push(closing[0]), closing[1]);
    assert(signed.push(closing[0]).push(closing[1]) =~= signed + closing);
    assert(signing_piece(closing[0]) =~= Seq::<char>::empty());
    assert(signing_piece(closing[1]) =~= Seq::<char>::empty());
    assert(signing_text(signed + closing) =~= signing_text(signed));
    assert((signed + closing)[signed.len() as int] == closing[0]);
}

/// The session exchange signs `api_key`, `method` and `token`, in this order,
/// each name directly followed by its value, and the secret last.
pub proof fn lemma_session_signing_base(key: Seq<char>, secret: Seq<char>, token: Seq<char>)
    ensures
        signing_base(secret, session_signed_params(key, token)) == "api_key"@ + key + "method"@
            + "auth.getSession"@ + "token"@ + token + secret,
        signature_of(secret, session_params(key, secret, token)) == signature_of(
            secret,
            session_signed_params(key, token),
        ),
{
    lemma_signed_names();
    let none = Seq::<(Seq<char>, Seq<char>)>::empty();
    let first = none.push(("api_key"@, key));
    let second = first.push(("method"@, "auth.getSession"@));
    let third = second.push(("token"@, token));
    assert(third =~= session_signed_params(key, token));
    lemma_signing_text_push(none, ("api_key"@, key));
    lemma_signing_text_push(first, ("method"@, "auth.getSession"@));
    lemma_signing_text_push(second, ("token"@, token));
    assert(signing_text(none) =~= Seq::<char>::empty());
    assert(signing_base(secret, third) =~= "api_key"@ + key + "method"@ + "auth.getSession"@
        + "token"@ + token + secret);
    lemma_closing_params_unsigned(secret, session_signed_params(key, token));
}

/// A scrobble signs `api_key`, `artist`, `method`, `sk`, `timestamp` and
/// `track`, in this order, each name directly followed by its value, the
/// timestamp as a decimal numeral, and the secret last.
pub proof fn lemma_scrobble_signing_base(
    key: Seq<char>,
    secret: Seq<char>,
    artist: Seq<char>,
    session: Seq<char>,
    timestamp: nat,
    title: Seq<char>,
)
    ensures
        signing_base(secret, scrobble_signed_params(key, artist, session, timestamp, title))
            == "api_key"@ + key + "artist"@ + artist + "method"@ + "track.scrobble"@ + "sk"@
            + session + "timestamp"@ + decimal(timestamp) + "track"@ + title + secret,
        signature_of(secret, scrobble_params(key, secret, artist, session, timestamp, title))
            == signature_of(
            secret,
            scrobble_signed_params(key, artist, session, timestamp, title),
        ),
{
    lemma_signed_names();
    let none = Seq::<(Seq<char>, Seq<char>)>::empty();
    let first = none.push(("api_key"@, key));
    let second = first.push(("artist"@, artist));
    let third = second.push(("method"@, "track.scrobble"@));
    let fourth = third.push(("sk"@, session));
    let fifth = fourth.push(("timestamp"@, decimal(timestamp)));
    let sixth = fifth.push(("track"@, title));
    assert(sixth =~= scrobble_signed_params(key, artist, session, timestamp, title));
    lemma_signing_text_push(none, ("api_key"@, key));
    lemma_signing_text_push(first, ("artist"@, artist));
    lemma_signing_text_push(second, ("method"@, "track.scrobble"@));
    lemma_signing_text_push(third, ("sk"@, session));
    lemma_signing_text_push(fourth, ("timestamp"@, decimal(timestamp)));
    lemma_signing_text_push(fifth, ("track"@, title));
    assert(signing_text(none) =~= Seq::<char>::empty());
    assert(signing_base(secret, sixth) =~= "api_key"@ + key + "artist"@ + artist + "method"@
        + "track.scrobble"@ + "sk"@ + session + "timestamp"@ + decimal(timestamp) + "track"@
        + title + secret);
    lemma_closing_params_unsigned(
        secret,
        scrobble_signed_params(key, artist, session, timestamp, title),
    );
}

/// Scrobbles that differ in nothing but the timestamp sign different texts.
pub proof fn lemma_scrobble_depends_on_timestamp(
    key: Seq<char>,
    secret: Seq<char>,
    artist: Seq<char>,
    session: Seq<char>,
    timestamp: nat,
    other: nat,
    title: Seq<char>,
)
    requires
        timestamp != other,
    ensures
        signing_base(secret, scrobble_signed_params(key, artist, session, timestamp, title))
            != signing_base(secret, scrobble_signed_params(key, artist, session, other, title)),
{
    let params = scrobble_signed_params(key, artist, session, timestamp, title);
    lemma_signed_names();
    if decimal(timestamp) == decimal(other) {
        lemma_decimal_injective(timestamp, other);
    }
    lemma_signature_depends_on_value(secret, params, 4, decimal(other));
    assert(params.update(4, ("timestamp"@, decimal(other))) =~= scrobble_signed_params(
        key,
        artist,
        session,
        other,
        title,
    ));
}

/// Signs `signed` under `secret` and closes the call with the signature and
/// the output format.
fn seal(operation: Operation, url: &str, secret: &str, signed: Vec<Param>) -> (request: ApiRequest)
    requires
        operation.signed(),
    ensures
        request@ == (RequestView {
            operation,
            url: url@,
            params: signed.deep_view() + closing_params(secret@, signed.deep_view()),
            secret: secret@,
        }),
{
    let ghost before: Seq<(Seq<char>, Seq<char>)> = signed.deep_view();
    let signature: String = sign(secret, &signed);
    let mut params: Vec<Param> = signed;
    params.push(Param::new("api_sig", signature.as_str()));
    params.push(Param::new("format", "json"));
    proof {
        assert(params.deep_view() =~= before + closing_params(secret@, before));
        lemma_closing_params_unsigned(secret@, before);
    }
    ApiRequest { operation, url: String::from_str(url), params, secret: Ghost(secret@) }
}

/// The client of one application: where the service is, and the key and the
/// secret that the application holds.
pub struct LastFmClient {
    url: String,
    key: String,
    secret: String,
}

impl LastFmClient {
    /// The address of the service.
    pub closed spec fn url(&self) -> Seq<char> {
        self.url@
    }

    /// The application key.
    pub closed spec fn key(&self) -> Seq<char> {
        self.key@
    }

    /// The application secret.
    pub closed spec fn secret(&self) -> Seq<char> {
        self.secret@
    }

    /// Makes the client of the application with this key and secret.
    pub fn new(api_url: &str, app_key: &str, app_secret: &str) -> (client: Self)
        ensures
            client.url() == api_url@,
            client.key() == app_key@,
            client.secret() == app_secret@,
    {
        LastFmClient {
            url: String::from_str(api_url),
            key: String::from_str(app_key),
            secret: String::from_str(app_secret),
        }
    }

    /// Builds the call that asks for a request token. It is not signed.
    pub fn token(&self) -> (request: ApiRequest)
        ensures
            request@ == (RequestView {
                operation: Operation::GetToken,
                url: self.url(),
                params: token_params(self.key()),
                secret: self.secret(),
            }),
    {
        let mut params: Vec<Param> = Vec::new();
        params.push(Param::new("api_key", self.key.as_str()));
        params.push(Param::new("method", Operation::GetToken.method_name()));
        params.push(Param::new("format", "json"));
        proof {
            assert(params.deep_view() =~= token_params(self.key()));
        }
        ApiRequest {
            operation: Operation::GetToken,
            url: self.url.clone(),
            params,
            secret: Ghost(self.secret@),
        }
    }

    /// Builds the call that exchanges `token` for a session, signed under the
    /// application secret.
    pub fn session(&self, token: &str) -> (request: ApiRequest)
        ensures
            request@ == (RequestView {
                operation: Operation::GetSession,
                url: self.url(),
                params: session_params(self.key(), self.secret(), token@),
                secret: self.secret(),
            }),
    {
        let mut signed: Vec<Param> = Vec::new();
        signed.push(Param::new("api_key", self.key.as_str()));
        signed.push(Param::new("method", Operation::GetSession.method_name()));
        signed.push(Param::new("token", token));
        proof {
            assert(signed.deep_view() =~= session_signed_params(self.key(), token@));
        }
        seal(Operation::GetSession, self.url.as_str(), self.secret.as_str(), signed)
    }

    /// Builds the call that scrobbles `song` at `timestamp` in the session
    /// `session`, signed under the application secret.
    pub fn track_scrobble(&self, session: &str, song: &SongConfig, timestamp: u64) -> (request:
        ApiRequest)
        ensures
            request@ == (RequestView {
                operation: Operation::Scrobble,
                url: self.url(),
                params: scrobble_params(
                    self.key(),
                    self.secret(),
                    song.artist@,
                    session@,
                    timestamp as nat,
                    song.title@,
                ),
                secret: self.secret(),
            }),
    {
        let moment: String = decimal_string(timestamp);
        let mut signed: Vec<Param> = Vec::new();
        signed.push(Param::new("api_key", self.key.as_str()));
        signed.push(Param::new("artist", song.artist.as_str()));
        signed.push(Param::new("method", Operation::Scrobble.method_name()));
        signed.push(Param::new("sk", session));
        signed.push(Param::new("timestamp", moment.as_str()));
        signed.push(Param::new("track", song.title.as_str()));
        proof {
            assert(signed.deep_view() =~= scrobble_signed_params(
                self.key(),
                song.artist@,
                session@,
                timestamp as nat,
                song.title@,
            ));
        }
        seal(Operation::Scrobble, self.url.as_str(), self.secret.as_str(), signed)
    }

    /// Builds the address at which a person authorizes `token` for this
    /// application.
    pub fn authorization_url(&self, token: &str) -> (address: String)
        ensures
            address@ == authorization_address(self.key(), token@),
    {
        let mut address: String = String::from_str("http://www.last.fm/api/auth/?api_key=");
        address.append(self.key.as_str());
        address.append("&token=");
        address.append(token);
        address
    }
}

} // verus!
