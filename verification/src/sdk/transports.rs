//! What the client sends, and how it reads the mediator's answers. The
//! requests are made here; the caller sends them and reports how they ended.

use crate::auth::AuthorizationResponse;
use crate::didcomm::pack_one;
use crate::messages::UnpackedMessage;
use crate::sdk::authentication::{ATMError, ATMErrorKind, HttpReply, ATM};
use crate::text::texts;
use affinidi_messaging_didcomm::DIDCommAgent;
use vstd::prelude::*;
use vstd::string::StringExecFns;

verus! {

/// A message of the grid protocol.
#[derive(Clone, Copy, Debug, PartialEq, Eq, Structural)]
pub enum GRIDMessage {
    /// Count one up.
    Inc,
}

/// What the mediator answered to a message that was sent.
#[derive(Debug)]
pub enum SendMessageResponse<T> {
    /// The answer of the REST API, if one was asked for and given.
    RestAPI(Option<T>),
}

/// A request to post.
#[derive(Debug)]
pub struct PostRequest {
    pub url: String,
    /// The value of the `Authorization` header, if the request carries one.
    pub authorization: Option<String>,
    pub body: String,
}

/// The type of a message that carries archived bytes.
pub open spec fn spec_rkyv_type() -> Seq<char> {
    "https://didcomm.org/rkyv/1.0/message"@
}

/// The text of `bytes` in URL-safe base64 without padding. It stands for
/// what the `encode` of `base64::prelude::BASE64_URL_SAFE_NO_PAD` returns.
pub uninterp spec fn base64url_text(bytes: Seq<u8>) -> Seq<char>;

/// Calls `encode` of `base64::prelude::BASE64_URL_SAFE_NO_PAD`. Encoding
/// depends on the bytes alone, so the contract names the result. Not proved.
#[verifier::external_body]
fn base64url_encode(bytes: &[u8]) -> (text: String)
    ensures
        text@ == base64url_text(bytes@),
{
    base64::Engine::encode(&base64::prelude::BASE64_URL_SAFE_NO_PAD, bytes)
}

/// The JSON text of a list of one attachment that carries `payload` in
/// base64.
pub open spec fn payload_attachments(payload: Seq<u8>) -> Seq<char> {
    "[{\"data\":{\"base64\":\""@ + base64url_text(payload) + "\"}}]"@
}

/// Whether `message` carries `payload` to `to` under the type `type_`: one
/// attachment of those bytes, an empty body, and `to` as the one recipient.
pub open spec fn carries(
    message: UnpackedMessage,
    id: Seq<char>,
    type_: Seq<char>,
    to: Seq<char>,
    payload: Seq<u8>,
) -> bool {
    &&& message.id@ == id
    &&& message.type_@ == type_
    &&& message.from is None
    &&& message.to matches Some(list) && texts(list@) == seq![to]
    &&& message.thid is None
    &&& message.pthid is None
    &&& message.created_time is None
    &&& message.expires_time is None
    &&& message.body@ == "null"@
    &&& message.attachments matches Some(list) && list@ == payload_attachments(payload)
}

/// The message that carries `payload` to `to` under the type `type_`.
pub fn payload_message(id: String, type_: &str, to: &str, payload: &[u8]) -> (message:
    UnpackedMessage)
    ensures
        carries(message, id@, type_@, to@, payload@),
{
    let mut list: Vec<String> = Vec::new();
    list.push(to.to_owned());
    assert(texts(list@) =~= seq![to@]);
    let mut attachments = "[{\"data\":{\"base64\":\"".to_owned();
    attachments.append(base64url_encode(payload).as_str());
    attachments.append("\"}}]");
    UnpackedMessage {
        id,
        type_: type_.to_owned(),
        from: None,
        to: Some(list),
        thid: None,
        pthid: None,
        created_time: None,
        expires_time: None,
        body: "null".to_owned(),
        attachments: Some(attachments),
    }
}

/// The endpoint to which a packed message goes: the service endpoint that
/// packing found for the recipient. Without one the message cannot be sent.
pub fn delivery_endpoint(messaging_service: Option<String>) -> (result: Result<String, ATMError>)
    ensures
        match messaging_service {
            Some(endpoint) => result == Ok::<String, ATMError>(endpoint),
            None => result matches Err(e) && e.kind == ATMErrorKind::TransportError && e.reason@
                == "No messaging service"@,
        },
{
    match messaging_service {
        Some(endpoint) => Ok(endpoint),
        None => Err(ATMError::new(ATMErrorKind::TransportError, "No messaging service")),
    }
}

/// Whether a request that ended as `reply` was accepted by the API: it was
/// if an answer came with a status of success. A status that is no success
/// is a `TransportError` that says that the API returned an error.
pub fn accepted<T>(reply: &HttpReply<T>) -> (result: Result<(), ATMError>)
    ensures
        result is Ok <==> (reply is Answer || reply is Unreadable),
        result matches Err(e) ==> e.kind == ATMErrorKind::TransportError,
        reply is Refused ==> (result matches Err(e) && e.reason@ == "API returned an error"@),
        reply is Failed ==> (result matches Err(e) && e.reason@ == "Couldn't send the request"@),
{
    match reply {
        HttpReply::Failed => Err(
            ATMError::new(ATMErrorKind::TransportError, "Couldn't send the request"),
        ),
        HttpReply::Refused => Err(
            ATMError::new(ATMErrorKind::TransportError, "API returned an error"),
        ),
        _ => Ok(()),
    }
}

impl ATM {
    /// The value of the `Authorization` header that carries `tokens`.
    pub fn bearer(tokens: &AuthorizationResponse) -> (value: String)
        ensures
            value@ == "Bearer "@ + tokens.access_token@,
    {
        let mut value = "Bearer ".to_owned();
        value.append(tokens.access_token.as_str());
        value
    }

    /// The request that sends the packed message `message` to the mediator
    /// on behalf of the client that holds `tokens`.
    pub fn send_didcomm_message(&self, tokens: &AuthorizationResponse, message: &str) -> (request:
        PostRequest)
        ensures
            request.url@ == self.config.atm_api@ + "/authenticate"@,
            request.authorization matches Some(value) && value@ == "Bearer "@
                + tokens.access_token@,
            request.body@ == message@,
    {
        PostRequest {
            url: self.endpoint("/authenticate"),
            authorization: Some(ATM::bearer(tokens)),
            body: message.to_owned(),
        }
    }

    /// What the client makes of the answer to a message that it sent.
    ///
    /// A request that failed or was refused is a `TransportError`. Where a
    /// response was asked for, it is what the answer carried, and an answer
    /// that cannot be read is a `TransportError`; where none was asked for,
    /// the answer is not read.
    pub fn didcomm_response<T>(reply: HttpReply<T>, return_response: bool) -> (result: Result<
        SendMessageResponse<T>,
        ATMError,
    >)
        ensures
            match reply {
                HttpReply::Failed => result matches Err(e) && e.kind
                    == ATMErrorKind::TransportError,
                HttpReply::Refused => result matches Err(e) && e.kind
                    == ATMErrorKind::TransportError,
                HttpReply::Unreadable => if return_response {
                    result matches Err(e) && e.kind == ATMErrorKind::TransportError
                } else {
                    result matches Ok(SendMessageResponse::RestAPI(None))
                },
                HttpReply::Answer(data) => if return_response {
                    result matches Ok(SendMessageResponse::RestAPI(d)) && d == data
                } else {
                    result matches Ok(SendMessageResponse::RestAPI(None))
                },
            },
    {
        match reply {
            HttpReply::Failed => Err(
                ATMError::new(ATMErrorKind::TransportError, "Couldn't get body"),
            ),
            HttpReply::Refused => Err(
                ATMError::new(ATMErrorKind::TransportError, "API returned an error"),
            ),
            HttpReply::Unreadable => if return_response {
                Err(ATMError::new(ATMErrorKind::TransportError, "Couldn't parse response"))
            } else {
                Ok(SendMessageResponse::RestAPI(None))
            },
            HttpReply::Answer(data) => if return_response {
                Ok(SendMessageResponse::RestAPI(data))
            } else {
                Ok(SendMessageResponse::RestAPI(None))
            },
        }
    }

    /// The request that sends the archived bytes `rkyv_data` to `to`: a
    /// message that carries them as `payload_message` makes it, under the id
    /// `id`, packed from the client's DID with the keys of `agent`, for the
    /// recipient's endpoint `messaging_service`, with the client's tokens.
    ///
    /// A client without a DID of its own fails with `ConfigError`, a message
    /// that cannot be packed with `MsgSendError`, a recipient without an
    /// endpoint with `TransportError`. Whether the message can be packed, and
    /// what the envelope holds, is for the cryptography to say.
    pub fn send_rkyv_message(
        &self,
        agent: &DIDCommAgent,
        to: &str,
        id: String,
        rkyv_data: &[u8],
        messaging_service: Option<String>,
        tokens: &AuthorizationResponse,
    ) -> (result: Result<PostRequest, ATMError>)
        ensures
            self.config.my_did is None ==> (result matches Err(e) && e.kind
                == ATMErrorKind::ConfigError),
            result matches Ok(request) ==> {
                &&& self.config.my_did is Some
                &&& messaging_service matches Some(endpoint) && request.url == endpoint
                &&& request.authorization matches Some(value) && value@ == "Bearer "@
                    + tokens.access_token@
            },
            result matches Err(e) ==> {
                ||| e.kind == ATMErrorKind::ConfigError && self.config.my_did is None
                ||| e.kind == ATMErrorKind::MsgSendError
                ||| e.kind == ATMErrorKind::TransportError && messaging_service is None && e.reason@
                    == "No messaging service"@
            },
    {
        let envelope = self.pack_payload(
            agent,
            id,
            "https://didcomm.org/rkyv/1.0/message",
            to,
            rkyv_data,
        )?;
        ATM::delivery_request(messaging_service, Some(tokens), envelope)
    }

    /// The request that sends the archived grid message `grid_message` to
    /// `to` under the protocol `protocol`: as `send_rkyv_message`, with the
    /// client's tokens as every request but those of authentication carries
    /// them.
    pub fn send_grid_message(
        &self,
        agent: &DIDCommAgent,
        protocol: &str,
        to: &str,
        id: String,
        grid_message: &[u8],
        messaging_service: Option<String>,
        tokens: &AuthorizationResponse,
    ) -> (result: Result<PostRequest, ATMError>)
        ensures
            self.config.my_did is None ==> (result matches Err(e) && e.kind
                == ATMErrorKind::ConfigError),
            result matches Ok(request) ==> {
                &&& self.config.my_did is Some
                &&& messaging_service matches Some(endpoint) && request.url == endpoint
                &&& request.authorization matches Some(value) && value@ == "Bearer "@
                    + tokens.access_token@
            },
            result matches Err(e) ==> {
                ||| e.kind == ATMErrorKind::ConfigError && self.config.my_did is None
                ||| e.kind == ATMErrorKind::MsgSendError
                ||| e.kind == ATMErrorKind::TransportError && messaging_service is None && e.reason@
                    == "No messaging service"@
            },
    {
        let envelope = self.pack_payload(agent, id, protocol, to, grid_message)?;
        ATM::delivery_request(messaging_service, Some(tokens), envelope)
    }

    /// Packs the message that carries `payload` to `to` under the type
    /// `type_`, from the client's DID.
    pub fn pack_payload(
        &self,
        agent: &DIDCommAgent,
        id: String,
        type_: &str,
        to: &str,
        payload: &[u8],
    ) -> (result: Result<String, ATMError>)
        ensures
            self.config.my_did is None ==> (result matches Err(e) && e.kind
                == ATMErrorKind::ConfigError),
            result is Ok ==> self.config.my_did is Some,
            result matches Err(e) ==> {
                ||| e.kind == ATMErrorKind::ConfigError && self.config.my_did is None
                ||| e.kind == ATMErrorKind::MsgSendError
            },
    {
        match &self.config.my_did {
            Some(my_did) => {
                let message = payload_message(id, type_, to, payload);
                match pack_one(agent, &message, my_did.as_str(), to) {
                    Some(envelope) => Ok(envelope),
                    None => Err(
                        ATMError::new(ATMErrorKind::MsgSendError, "Couldn't pack the message"),
                    ),
                }
            },
            None => Err(
                ATMError::new(ATMErrorKind::ConfigError, "The client needs its DID"),
            ),
        }
    }

    /// The request that posts the packed envelope `envelope` to the
    /// recipient's endpoint, with the client's tokens where it has
    /// authenticated for the purpose.
    pub fn delivery_request(
        messaging_service: Option<String>,
        tokens: Option<&AuthorizationResponse>,
        envelope: String,
    ) -> (result: Result<PostRequest, ATMError>)
        ensures
            match messaging_service {
                Some(endpoint) => {
                    &&& result matches Ok(request)
                    &&& request.url == endpoint
                    &&& request.body == envelope
                    &&& match tokens {
                        Some(t) => request.authorization matches Some(value) && value@
                            == "Bearer "@ + t.access_token@,
                        None => request.authorization is None,
                    }
                },
                None => result matches Err(e) && e.kind == ATMErrorKind::TransportError
                    && e.reason@ == "No messaging service"@,
            },
    {
        let url = delivery_endpoint(messaging_service)?;
        let authorization = match tokens {
            Some(t) => Some(ATM::bearer(t)),
            None => None,
        };
        Ok(PostRequest { url, authorization, body: envelope })
    }
}

/// What the client and the task that serves its WebSocket tell each other.
#[derive(Clone, Copy, Debug, PartialEq, Eq, Structural)]
pub enum WSCommand {
    /// The task has started.
    Started,
    /// The task is to end.
    Exit,
}

/// How many commands may wait between the client and the task.
pub const WS_CHANNEL_CAPACITY: usize = 32;

impl ATM {
    /// Notes that the task that serves the WebSocket was started, given the
    /// first thing that the task said, and tells whether that was that it has
    /// started.
    pub fn start_websocket_task(&mut self, first: Option<WSCommand>) -> (started: bool)
        ensures
            started == (first == Some(WSCommand::Started)),
            final(self).ws_running,
            final(self).config == old(self).config,
            final(self).authenticated == old(self).authenticated,
            final(self).jwt_tokens == old(self).jwt_tokens,
            final(self).ws_enabled == old(self).ws_enabled,
    {
        self.ws_running = true;
        match first {
            Some(WSCommand::Started) => true,
            _ => false,
        }
    }

    /// What to tell the task that serves the WebSocket so that it ends:
    /// `Exit` where a task was started, nothing otherwise.
    pub fn abort_websocket_task(&mut self) -> (command: Option<WSCommand>)
        ensures
            command == if old(self).ws_running {
                Some(WSCommand::Exit)
            } else {
                None
            },
            *final(self) == *old(self),
    {
        if self.ws_running {
            Some(WSCommand::Exit)
        } else {
            None
        }
    }
}

} // verus!
