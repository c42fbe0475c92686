//! The forward protocol: unwrapping a forward envelope and queuing what it
//! carries for the next hop.

use crate::errors::{ErrorKind, MediatorError};
use crate::messages::{
    is_expired, spec_expired_reason, MessageResponse, PlaintextModel, ProcessMessageResponse,
    UnpackedMessage,
};
use crate::session::Session;
use crate::text::opt_text;
use vstd::prelude::*;

verus! {

/// What a forward message carries: the next hop and the envelope for it.
#[derive(Debug)]
pub struct ParsedForward {
    /// The DID of the next hop.
    pub next: String,
    /// The forwarded envelope, as JSON text. It is never opened here.
    pub forwarded_msg: String,
}

/// The next hop and the forwarded envelope that a message of the type
/// `type_` carries whose body and list of attachments are the given JSON
/// texts, if it is a forward message that carries any: the `next` of its
/// body, and the JSON payload of its first attachment as text. It stands for
/// what `unwrap_forward` of the DIDComm crate returns.
pub uninterp spec fn forward_parts(
    type_: Seq<char>,
    body: Seq<char>,
    attachments: Option<Seq<char>>,
) -> Option<(Seq<char>, Seq<char>)>;

/// What the message `msg` carries to forward.
pub open spec fn forward_of(msg: PlaintextModel) -> Option<(Seq<char>, Seq<char>)> {
    forward_parts(msg.type_, msg.body, msg.attachments)
}

/// The texts of a parsed forward message.
pub open spec fn parsed_view(parsed: Option<ParsedForward>) -> Option<(Seq<char>, Seq<char>)> {
    match parsed {
        Some(p) => Some((p.next@, p.forwarded_msg@)),
        None => None,
    }
}

/// Makes a `Message` of the DIDComm crate of the type, the body and the
/// attachments, the attachments filed under the header `attachments` where
/// `affinidi_messaging_didcomm::message::forward::unwrap_forward` looks for
/// them, and calls it. It reads nothing else of the message, so the contract
/// names the result: nothing where body or attachments are no JSON or the
/// message is no forward message with a `next` and a JSON attachment. Not
/// proved.
#[verifier::external_body]
fn unwrap_forward(msg: &UnpackedMessage) -> (parsed: Option<ParsedForward>)
    ensures
        parsed_view(parsed) == forward_parts(msg.type_@, msg.body@, opt_text(msg.attachments)),
{
    let body = serde_json::from_str(msg.body.as_str()).ok()?;
    let mut message = affinidi_messaging_didcomm::Message::new(msg.type_.as_str(), body);
    let attachments = serde_json::from_str(msg.attachments.as_deref()?).ok()?;
    message.extra.insert("attachments".to_owned(), attachments);
    let (next, forwarded_msg) =
        affinidi_messaging_didcomm::message::forward::unwrap_forward(&message).ok()?;
    Some(ParsedForward { next, forwarded_msg })
}

/// What the forward handler answers, given what the message carries.
pub open spec fn forward_outcome(
    result: Result<Option<ProcessMessageResponse>, MediatorError>,
    parts: Option<(Seq<char>, Seq<char>)>,
    session_id: Seq<char>,
) -> bool {
    match parts {
        Some((next, forwarded)) => {
            &&& result matches Ok(Some(response))
            &&& response.store_message
            &&& response.force_live_delivery
            &&& response.message_response matches MessageResponse::PackedMessage {
                to,
                packed_message,
            }
            &&& to@ == next
            &&& packed_message@ == forwarded
        },
        None => {
            &&& result matches Err(e)
            &&& e.kind == ErrorKind::RequestDataError
            &&& e.session_id@ == session_id
            &&& e.reason@ == "Message is not a valid ForwardRequest"@
        },
    }
}

/// Whether `result` is the refusal, at the second `now`, of a message that
/// expires at `expires_time`: a `MessageExpired` that names both times.
pub open spec fn expired_outcome<T>(
    result: Result<T, MediatorError>,
    session_id: Seq<char>,
    expires_time: Option<u64>,
    now: u64,
) -> bool {
    &&& result matches Err(e)
    &&& e.kind == ErrorKind::MessageExpired
    &&& e.session_id@ == session_id
    &&& expires_time matches Some(expires)
    &&& e.reason@ == spec_expired_reason(expires, now)
}

/// The answer to a forward message, given what it was found to carry: the
/// forwarded envelope goes to the next hop as it is, stored and with live
/// delivery forced. A message that carries nothing to forward is refused.
pub fn forward_response(parsed: Option<ParsedForward>, session: &Session) -> (result: Result<
    Option<ProcessMessageResponse>,
    MediatorError,
>)
    ensures
        forward_outcome(result, parsed_view(parsed), session.session_id@),
{
    match parsed {
        Some(p) => Ok(
            Some(
                ProcessMessageResponse {
                    store_message: true,
                    force_live_delivery: true,
                    message_response: MessageResponse::PackedMessage {
                        to: p.next,
                        packed_message: p.forwarded_msg,
                    },
                },
            ),
        ),
        None => Err(
            MediatorError::new(
                ErrorKind::RequestDataError,
                session.session_id.as_str(),
                "Message is not a valid ForwardRequest",
            ),
        ),
    }
}

/// Handles a forward message at the second `now`.
///
/// A message whose `expires_time` is `now` or earlier is refused as
/// `MessageExpired`, with both times in the reason. Otherwise the answer is
/// that of `forward_response` to what the message carries.
pub fn process(msg: &UnpackedMessage, session: &Session, now: u64) -> (result: Result<
    Option<ProcessMessageResponse>,
    MediatorError,
>)
    ensures
        is_expired(msg.expires_time, now) ==> expired_outcome(
            result,
            session.session_id@,
            msg.expires_time,
            now,
        ),
        !is_expired(msg.expires_time, now) ==> forward_outcome(
            result,
            forward_of(msg@),
            session.session_id@,
        ),
{
    match msg.expiry_error(session.session_id.as_str(), now) {
        Some(e) => {
            return Err(e);
        },
        None => {},
    }
    let parsed = unwrap_forward(msg);
    forward_response(parsed, session)
}

} // verus!
