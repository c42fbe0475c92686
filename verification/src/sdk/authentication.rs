//! The client's side of authentication. The client decides here what to do
//! next; sending, receiving and packing are done by the caller, who reports
//! the outcome of each as an event.

use crate::auth::{AuthChallenge, AuthorizationResponse, ChallengeModel};
use crate::didcomm::pack_one;
use crate::ids::fresh_id;
use crate::messages::{spec_authenticate_type, PlaintextModel, UnpackedMessage};
use crate::text::texts;
use affinidi_messaging_didcomm::DIDCommAgent;
use vstd::prelude::*;
use vstd::string::StringExecFns;

verus! {

/// The kinds of failure on the client's side.
#[derive(Clone, Copy, Debug, PartialEq, Eq, Structural)]
pub enum ATMErrorKind {
    /// A request could not be sent or its answer not read.
    TransportError,
    /// The mediator did not let the client in.
    AuthenticationError,
    /// A message could not be packed for sending.
    MsgSendError,
    /// The client is not configured for what it is asked to do.
    ConfigError,
}

/// A failure on the client's side.
#[derive(Debug)]
pub struct ATMError {
    pub kind: ATMErrorKind,
    pub reason: String,
}

impl ATMError {
    /// A failure of `kind`.
    pub fn new(kind: ATMErrorKind, reason: &str) -> (e: ATMError)
        ensures
            e.kind == kind,
            e.reason@ == reason@,
    {
        ATMError { kind, reason: reason.to_owned() }
    }
}

/// What the client is configured with.
#[derive(Debug)]
pub struct ATMConfig {
    /// The client's own DID.
    pub my_did: Option<String>,
    /// The DID of the mediator.
    pub atm_did: Option<String>,
    /// The address of the mediator's API.
    pub atm_api: String,
}

/// The client.
#[derive(Debug)]
pub struct ATM {
    pub config: ATMConfig,
    /// Whether the client holds tokens from an authentication.
    pub authenticated: bool,
    pub jwt_tokens: Option<AuthorizationResponse>,
    /// Whether the client uses a WebSocket for live delivery.
    pub ws_enabled: bool,
    /// Whether the task that serves the WebSocket has been started.
    pub ws_running: bool,
}

/// How a request to the mediator ended.
#[derive(Debug)]
pub enum HttpReply<T> {
    /// The request could not be sent, or its answer not received.
    Failed,
    /// The mediator answered with a status that is no success.
    Refused,
    /// The answer could not be read.
    Unreadable,
    /// The mediator answered; this is what the answer carried.
    Answer(Option<T>),
}

/// What happened since the client last said what to do.
#[derive(Debug)]
pub enum AuthEvent {
    /// Authentication is asked for.
    Begin,
    /// The mediator replied to the request for a challenge.
    ChallengeReply(HttpReply<AuthChallenge>),
    /// The mediator replied to the response.
    TokenReply(HttpReply<AuthorizationResponse>),
}

/// What the caller is to do next.
#[derive(Debug)]
pub enum AuthAction {
    /// Authentication has ended, with tokens or with a failure.
    Done(Result<AuthorizationResponse, ATMError>),
    /// Post `body` as JSON to `url` to get a challenge.
    RequestChallenge { url: String, body: String },
    /// Post the packed response `body` to `url`.
    PostResponse { url: String, body: String },
}

/// The JSON text that states the challenge by its members `nonce`,
/// `bound_did`, `issued_at` and `expires_at`. It stands for what
/// `serde_json` renders.
pub uninterp spec fn challenge_json(
    nonce: Seq<char>,
    bound_did: Seq<char>,
    issued_at: u64,
    expires_at: u64,
) -> Seq<char>;

/// Builds a `serde_json::Map` of the four members of the challenge and
/// renders it with `to_string`. Rendering depends on the values alone, so the
/// contract names the result. Not proved.
#[verifier::external_body]
fn challenge_body(c: &AuthChallenge) -> (json: String)
    ensures
        json@ == challenge_json(c.nonce@, c.bound_did@, c.issued_at, c.expires_at),
{
    let mut members = serde_json::Map::new();
    members.insert("nonce".to_owned(), c.nonce.as_str().into());
    members.insert("bound_did".to_owned(), c.bound_did.as_str().into());
    members.insert("issued_at".to_owned(), c.issued_at.into());
    members.insert("expires_at".to_owned(), c.expires_at.into());
    serde_json::Value::Object(members).to_string()
}

/// Whether `message` is the response to the challenge `c` that `my_did`
/// sends to the mediator `atm_did` at the second `now`: it echoes the
/// challenge and is void sixty seconds later.
pub open spec fn responds_to(
    message: PlaintextModel,
    c: ChallengeModel,
    my_did: Seq<char>,
    atm_did: Seq<char>,
    now: u64,
) -> bool {
    &&& message.type_ == spec_authenticate_type()
    &&& message.from == Some(my_did)
    &&& message.to == Some(seq![atm_did])
    &&& message.created_time == Some(now)
    &&& message.expires_time == Some((now + 60) as u64)
    &&& message.body == challenge_json(c.nonce, c.bound_did, c.issued_at, c.expires_at)
    &&& message.thid is None
    &&& message.pthid is None
    &&& message.attachments is None
}

/// A copy of a pair of tokens.
pub fn copy_tokens(tokens: &AuthorizationResponse) -> (copy: AuthorizationResponse)
    ensures
        copy.access_token@ == tokens.access_token@,
        copy.refresh_token@ == tokens.refresh_token@,
{
    AuthorizationResponse {
        access_token: tokens.access_token.clone(),
        refresh_token: tokens.refresh_token.clone(),
    }
}

/// Whether `action` ends authentication with a failure of `kind`.
pub open spec fn fails_with(action: AuthAction, kind: ATMErrorKind) -> bool {
    action matches AuthAction::Done(Err(e)) && e.kind == kind
}

/// Whether `action` ends authentication with the tokens `tokens`.
pub open spec fn succeeds_with(action: AuthAction, tokens: AuthorizationResponse) -> bool {
    &&& action matches AuthAction::Done(Ok(t))
    &&& t.access_token@ == tokens.access_token@
    &&& t.refresh_token@ == tokens.refresh_token@
}

impl ATM {
    /// A client that has not authenticated.
    pub fn new(config: ATMConfig) -> (atm: ATM)
        ensures
            atm.config == config,
            !atm.authenticated,
            atm.jwt_tokens is None,
            !atm.ws_enabled,
            !atm.ws_running,
    {
        ATM { config, authenticated: false, jwt_tokens: None, ws_enabled: false, ws_running: false }
    }

    /// Whether the client knows its own DID and the mediator's.
    pub open spec fn has_dids(&self) -> bool {
        self.config.my_did is Some && self.config.atm_did is Some
    }

    /// The address of the mediator's API followed by `path`.
    pub fn endpoint(&self, path: &str) -> (url: String)
        ensures
            url@ == self.config.atm_api@ + path@,
    {
        let mut url = self.config.atm_api.clone();
        url.append(path);
        url
    }

    /// What the client does first when authentication is asked for.
    pub open spec fn begun(&self, action: AuthAction) -> bool {
        if self.authenticated {
            match self.jwt_tokens {
                Some(tokens) => succeeds_with(action, tokens),
                None => fails_with(action, ATMErrorKind::AuthenticationError),
            }
        } else if !self.has_dids() {
            fails_with(action, ATMErrorKind::ConfigError)
        } else {
            &&& action matches AuthAction::RequestChallenge { url, body }
            &&& url@ == self.config.atm_api@ + "/authenticate/challenge"@
            &&& body@ == "{\"did\": \""@ + self.config.my_did->Some_0@ + "\"}"@
        }
    }

    /// What the client makes of the mediator's reply to its request for a
    /// challenge: given a challenge, it has its packed response posted, or
    /// fails where the response cannot be packed.
    pub open spec fn challenged(&self, reply: HttpReply<AuthChallenge>, action: AuthAction) -> bool {
        match reply {
            HttpReply::Failed => fails_with(action, ATMErrorKind::TransportError),
            HttpReply::Refused => fails_with(action, ATMErrorKind::AuthenticationError),
            HttpReply::Unreadable => fails_with(action, ATMErrorKind::AuthenticationError),
            HttpReply::Answer(None) => fails_with(action, ATMErrorKind::AuthenticationError),
            HttpReply::Answer(Some(c)) => if !self.has_dids() {
                fails_with(action, ATMErrorKind::ConfigError)
            } else {
                ||| fails_with(action, ATMErrorKind::MsgSendError)
                ||| action matches AuthAction::PostResponse { url, body } && url@
                    == self.config.atm_api@ + "/authenticate"@
            },
        }
    }

    /// What the client makes of the mediator's reply to its response.
    pub open spec fn answered(reply: HttpReply<AuthorizationResponse>, action: AuthAction) -> bool {
        match reply {
            HttpReply::Failed => fails_with(action, ATMErrorKind::TransportError),
            HttpReply::Refused => fails_with(action, ATMErrorKind::AuthenticationError),
            HttpReply::Unreadable => fails_with(action, ATMErrorKind::AuthenticationError),
            HttpReply::Answer(None) => fails_with(action, ATMErrorKind::AuthenticationError),
            HttpReply::Answer(Some(tokens)) => succeeds_with(action, tokens),
        }
    }

    /// Builds the response to the challenge `body`, under the id `id`, at
    /// the second `now`. The response is void sixty seconds later.
    pub fn _create_auth_challenge_response(&self, body: &AuthChallenge, id: String, now: u64) -> (result:
        Result<UnpackedMessage, ATMError>)
        requires
            now + 60 <= u64::MAX,
        ensures
            !self.has_dids() ==> (result matches Err(e) && e.kind == ATMErrorKind::ConfigError),
            self.has_dids() ==> {
                &&& result matches Ok(message)
                &&& message.id@ == id@
                &&& responds_to(
                    message@,
                    body@,
                    self.config.my_did->Some_0@,
                    self.config.atm_did->Some_0@,
                    now,
                )
            },
    {
        match (&self.config.my_did, &self.config.atm_did) {
            (Some(my_did), Some(atm_did)) => {
                let mut to: Vec<String> = Vec::new();
                to.push(atm_did.clone());
                assert(texts(to@) =~= seq![atm_did@]);
                Ok(
                    UnpackedMessage {
                        id,
                        type_: "https://affinidi.com/atm/1.0/authenticate".to_owned(),
                        from: Some(my_did.clone()),
                        to: Some(to),
                        thid: None,
                        pthid: None,
                        created_time: Some(now),
                        expires_time: Some(now + 60),
                        body: challenge_body(body),
                        attachments: None,
                    },
                )
            },
            _ => Err(
                ATMError::new(ATMErrorKind::ConfigError, "The client needs its DID and the mediator's"),
            ),
        }
    }

    /// Takes the client one step through authentication: told what happened,
    /// it says what is to be done next.
    ///
    /// Asked to begin, a client that holds tokens hands them out; another asks
    /// for a challenge. Given the challenge, it builds its response as
    /// `_create_auth_challenge_response` does, packs it for the mediator with
    /// the keys of `agent` and has it posted; given tokens, it keeps them and
    /// is authenticated. Whatever goes wrong on the way ends the
    /// authentication with a failure and leaves the client as it was.
    pub fn authenticate(&mut self, agent: &DIDCommAgent, event: AuthEvent, now: u64) -> (action:
        AuthAction)
        requires
            event is ChallengeReply ==> now + 60 <= u64::MAX,
        ensures
            match event {
                AuthEvent::Begin => old(self).begun(action) && *final(self) == *old(self),
                AuthEvent::ChallengeReply(reply) => old(self).challenged(reply, action)
                    && *final(self) == *old(self),
                AuthEvent::TokenReply(reply) => {
                    &&& ATM::answered(reply, action)
                    &&& final(self).config == old(self).config
                    &&& final(self).ws_enabled == old(self).ws_enabled
                    &&& final(self).ws_running == old(self).ws_running
                    &&& match reply {
                        HttpReply::Answer(Some(tokens)) => {
                            &&& final(self).authenticated
                            &&& final(self).jwt_tokens matches Some(kept)
                            &&& kept.access_token@ == tokens.access_token@
                            &&& kept.refresh_token@ == tokens.refresh_token@
                        },
                        _ => {
                            &&& final(self).authenticated == old(self).authenticated
                            &&& final(self).jwt_tokens == old(self).jwt_tokens
                        },
                    }
                },
            },
    {
        match event {
            AuthEvent::Begin => {
                if self.authenticated {
                    return match &self.jwt_tokens {
                        Some(tokens) => AuthAction::Done(Ok(copy_tokens(tokens))),
                        None => AuthAction::Done(
                            Err(
                                ATMError::new(
                                    ATMErrorKind::AuthenticationError,
                                    "Authenticated but no tokens found",
                                ),
                            ),
                        ),
                    };
                }
                match (&self.config.my_did, &self.config.atm_did) {
                    (Some(my_did), Some(_)) => {
                        let mut body = "{\"did\": \"".to_owned();
                        body.append(my_did.as_str());
                        body.append("\"}");
                        AuthAction::RequestChallenge {
                            url: self.endpoint("/authenticate/challenge"),
                            body,
                        }
                    },
                    _ => AuthAction::Done(
                        Err(
                            ATMError::new(
                                ATMErrorKind::ConfigError,
                                "The client needs its DID and the mediator's",
                            ),
                        ),
                    ),
                }
            },
            AuthEvent::ChallengeReply(reply) => match reply {
                HttpReply::Failed => AuthAction::Done(
                    Err(
                        ATMError::new(
                            ATMErrorKind::TransportError,
                            "retrieving authentication challenge failed",
                        ),
                    ),
                ),
                HttpReply::Refused => AuthAction::Done(
                    Err(
                        ATMError::new(
                            ATMErrorKind::AuthenticationError,
                            "Failed to get authentication challenge",
                        ),
                    ),
                ),
                HttpReply::Unreadable => AuthAction::Done(
                    Err(
                        ATMError::new(
                            ATMErrorKind::AuthenticationError,
                            "Couldn't deserialize AuthenticationChallenge",
                        ),
                    ),
                ),
                HttpReply::Answer(None) => AuthAction::Done(
                    Err(
                        ATMError::new(
                            ATMErrorKind::AuthenticationError,
                            "No challenge received from ATM",
                        ),
                    ),
                ),
                HttpReply::Answer(Some(challenge)) => {
                    match self._create_auth_challenge_response(&challenge, fresh_id(), now) {
                        Ok(message) => match (&self.config.my_did, &self.config.atm_did) {
                            (Some(my_did), Some(atm_did)) => match pack_one(
                                agent,
                                &message,
                                my_did.as_str(),
                                atm_did.as_str(),
                            ) {
                                Some(body) => AuthAction::PostResponse {
                                    url: self.endpoint("/authenticate"),
                                    body,
                                },
                                None => AuthAction::Done(
                                    Err(
                                        ATMError::new(
                                            ATMErrorKind::MsgSendError,
                                            "Couldn't pack authentication response message",
                                        ),
                                    ),
                                ),
                            },
                            _ => AuthAction::Done(
                                Err(
                                    ATMError::new(
                                        ATMErrorKind::ConfigError,
                                        "The client needs its DID and the mediator's",
                                    ),
                                ),
                            ),
                        },
                        Err(e) => AuthAction::Done(Err(e)),
                    }
                },
            },
            AuthEvent::TokenReply(reply) => match reply {
                HttpReply::Failed => AuthAction::Done(
                    Err(
                        ATMError::new(
                            ATMErrorKind::TransportError,
                            "Could not post authentication response",
                        ),
                    ),
                ),
                HttpReply::Refused => AuthAction::Done(
                    Err(
                        ATMError::new(
                            ATMErrorKind::AuthenticationError,
                            "Failed to get authentication response",
                        ),
                    ),
                ),
                HttpReply::Unreadable => AuthAction::Done(
                    Err(
                        ATMError::new(
                            ATMErrorKind::AuthenticationError,
                            "Couldn't deserialize AuthorizationResponse",
                        ),
                    ),
                ),
                HttpReply::Answer(None) => AuthAction::Done(
                    Err(
                        ATMError::new(
                            ATMErrorKind::AuthenticationError,
                            "No tokens received from ATM",
                        ),
                    ),
                ),
                HttpReply::Answer(Some(tokens)) => {
                    let out = copy_tokens(&tokens);
                    self.jwt_tokens = Some(tokens);
                    self.authenticated = true;
                    AuthAction::Done(Ok(out))
                },
            },
        }
    }
}

} // verus!
