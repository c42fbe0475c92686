//! The protocol dispatcher: which handler answers a message, by its type.

use crate::errors::{ErrorKind, MediatorError};
use crate::ids::fresh_id;
use crate::messages::{
    is_expired, spec_forward_type, spec_ping_response_type, spec_ping_type, MessageResponse,
    PlaintextModel, ProcessMessageResponse, UnpackedMessage,
};
use crate::routing::{expired_outcome, forward_of, forward_outcome};
use crate::session::Session;
use crate::text::str_eq;
use vstd::prelude::*;

verus! {

/// The protocols that the mediator handles.
#[derive(Clone, Copy, Debug, PartialEq, Eq, Structural)]
pub enum MessageType {
    /// A forward message of the routing protocol.
    Forward,
    /// A trust ping.
    TrustPing,
    /// Anything else.
    Unknown,
}

/// The protocol that a message type URI names.
pub open spec fn spec_message_type(type_: Seq<char>) -> MessageType {
    if type_ == spec_forward_type() {
        MessageType::Forward
    } else if type_ == spec_ping_type() {
        MessageType::TrustPing
    } else {
        MessageType::Unknown
    }
}

/// The protocol that the type URI `type_` names.
pub fn message_type(type_: &str) -> (kind: MessageType)
    ensures
        kind == spec_message_type(type_@),
{
    if str_eq(type_, "https://didcomm.org/routing/2.0/forward") {
        MessageType::Forward
    } else if str_eq(type_, "https://didcomm.org/trust-ping/2.0/ping") {
        MessageType::TrustPing
    } else {
        MessageType::Unknown
    }
}

/// Whether `result` refuses a request with a failure of `kind`.
pub open spec fn refused<T>(result: Result<T, MediatorError>, kind: ErrorKind, session_id: Seq<char>) -> bool {
    &&& result matches Err(e)
    &&& e.kind == kind
    &&& e.session_id@ == session_id
}

/// Whether `result` refuses a request with a failure of `kind` for the
/// reason `reason`.
pub open spec fn refused_because<T>(
    result: Result<T, MediatorError>,
    kind: ErrorKind,
    session_id: Seq<char>,
    reason: Seq<char>,
) -> bool {
    &&& result matches Err(e)
    &&& e.kind == kind
    &&& e.session_id@ == session_id
    &&& e.reason@ == reason
}

/// Whether `answer` is the answer to the ping `ping` that the mediator
/// `mediator_did` sends at the second `now` under the id `id`: addressed back
/// to the sender alone, in the thread of the ping.
pub open spec fn answers_ping(
    answer: PlaintextModel,
    ping: PlaintextModel,
    mediator_did: Seq<char>,
    id: Seq<char>,
    now: u64,
) -> bool {
    &&& ping.from matches Some(sender)
    &&& answer.id == id
    &&& answer.type_ == spec_ping_response_type()
    &&& answer.from == Some(mediator_did)
    &&& answer.to == Some(seq![sender])
    &&& answer.thid == Some(ping.id)
    &&& answer.pthid is None
    &&& answer.created_time == Some(now)
    &&& answer.expires_time is None
    &&& answer.body == "{}"@
    &&& answer.attachments is None
}

/// What the ping handler answers.
pub open spec fn ping_outcome(
    result: Result<Option<ProcessMessageResponse>, MediatorError>,
    ping: PlaintextModel,
    session_id: Seq<char>,
    mediator_did: Seq<char>,
    id: Seq<char>,
    now: u64,
) -> bool {
    if ping.from is Some {
        &&& result matches Ok(Some(response))
        &&& response.store_message
        &&& !response.force_live_delivery
        &&& response.message_response matches MessageResponse::Message(answer)
        &&& answers_ping(answer@, ping, mediator_did, id, now)
    } else {
        refused_because(
            result,
            ErrorKind::RequestDataError,
            session_id,
            "Anonymous trust ping cannot be answered"@,
        )
    }
}

/// Answers a trust ping: a ping response goes back to the sender, under the
/// id `response_id`, to be stored for it. A ping without a sender cannot be
/// answered and is refused.
pub fn ping_response(
    msg: &UnpackedMessage,
    session: &Session,
    mediator_did: &str,
    response_id: String,
    now: u64,
) -> (result: Result<Option<ProcessMessageResponse>, MediatorError>)
    ensures
        ping_outcome(result, msg@, session.session_id@, mediator_did@, response_id@, now),
{
    match &msg.from {
        Some(sender) => {
            let mut to: Vec<String> = Vec::new();
            to.push(sender.clone());
            assert(crate::text::texts(to@) =~= seq![sender@]);
            let answer = UnpackedMessage {
                id: response_id,
                type_: "https://didcomm.org/trust-ping/2.0/ping-response".to_owned(),
                from: Some(mediator_did.to_owned()),
                to: Some(to),
                thid: Some(msg.id.clone()),
                pthid: None,
                created_time: Some(now),
                expires_time: None,
                body: "{}".to_owned(),
                attachments: None,
            };
            Ok(
                Some(
                    ProcessMessageResponse {
                        store_message: true,
                        force_live_delivery: false,
                        message_response: MessageResponse::Message(answer),
                    },
                ),
            )
        },
        None => Err(
            MediatorError::new(
                ErrorKind::RequestDataError,
                session.session_id.as_str(),
                "Anonymous trust ping cannot be answered",
            ),
        ),
    }
}

/// Hands a message to the handler of its protocol, at the second `now`.
///
/// A message whose `expires_time` is `now` or earlier is refused as
/// `MessageExpired` before any handler is chosen. A forward message is
/// answered by the forward handler, a trust ping by a ping response under a
/// fresh id; a message of any other type is refused as `ParseError`.
pub fn process_message(msg: &UnpackedMessage, session: &Session, mediator_did: &str, now: u64) -> (result:
    Result<Option<ProcessMessageResponse>, MediatorError>)
    ensures
        is_expired(msg.expires_time, now) ==> expired_outcome(
            result,
            session.session_id@,
            msg.expires_time,
            now,
        ),
        !is_expired(msg.expires_time, now) ==> match spec_message_type(msg.type_@) {
            MessageType::Forward => forward_outcome(result, forward_of(msg@), session.session_id@),
            MessageType::TrustPing => exists|id: Seq<char>|
                ping_outcome(result, msg@, session.session_id@, mediator_did@, id, now),
            MessageType::Unknown => refused_because(
                result,
                ErrorKind::ParseError,
                session.session_id@,
                "Unknown message type"@,
            ),
        },
{
    match msg.expiry_error(session.session_id.as_str(), now) {
        Some(e) => {
            return Err(e);
        },
        None => {},
    }
    match message_type(msg.type_.as_str()) {
        MessageType::Forward => crate::routing::process(msg, session, now),
        MessageType::TrustPing => {
            let id = fresh_id();
            let ghost shown = id@;
            let result = ping_response(msg, session, mediator_did, id, now);
            assert(ping_outcome(result, msg@, session.session_id@, mediator_did@, shown, now));
            result
        },
        MessageType::Unknown => Err(
            MediatorError::new(
                ErrorKind::ParseError,
                session.session_id.as_str(),
                "Unknown message type",
            ),
        ),
    }
}

} // verus!
