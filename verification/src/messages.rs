//! Unpacked messages, what unpacking found out about them, and what a
//! protocol handler answers.

use crate::errors::{ErrorKind, MediatorError};
use crate::text::{decimal, decimal_text, opt_text, texts, with_number};
use vstd::prelude::*;
use vstd::string::StringExecFns;

verus! {

/// The type of a forward message of the routing protocol.
pub open spec fn spec_forward_type() -> Seq<char> {
    "https://didcomm.org/routing/2.0/forward"@
}

/// The type of a trust ping.
pub open spec fn spec_ping_type() -> Seq<char> {
    "https://didcomm.org/trust-ping/2.0/ping"@
}

/// The type of the answer to a trust ping.
pub open spec fn spec_ping_response_type() -> Seq<char> {
    "https://didcomm.org/trust-ping/2.0/ping-response"@
}

/// The type of the answer to an authentication challenge.
pub open spec fn spec_authenticate_type() -> Seq<char> {
    "https://affinidi.com/atm/1.0/authenticate"@
}

/// The plaintext of a DIDComm message.
#[derive(Debug)]
pub struct UnpackedMessage {
    pub id: String,
    /// The URI that names the protocol and the kind of message.
    pub type_: String,
    pub from: Option<String>,
    pub to: Option<Vec<String>>,
    pub thid: Option<String>,
    pub pthid: Option<String>,
    /// Seconds since the epoch.
    pub created_time: Option<u64>,
    /// Seconds since the epoch from which the message is void.
    pub expires_time: Option<u64>,
    /// The body, as JSON text.
    pub body: String,
    /// The attachments, as the JSON text of their list.
    pub attachments: Option<String>,
}

/// The texts of an optional list of strings.
pub open spec fn opt_texts(v: Option<Vec<String>>) -> Option<Seq<Seq<char>>> {
    match v {
        Some(list) => Some(texts(list@)),
        None => None,
    }
}

/// What the mediator's logic reads of a message.
pub struct PlaintextModel {
    pub id: Seq<char>,
    pub type_: Seq<char>,
    pub from: Option<Seq<char>>,
    pub to: Option<Seq<Seq<char>>>,
    pub thid: Option<Seq<char>>,
    pub pthid: Option<Seq<char>>,
    pub created_time: Option<u64>,
    pub expires_time: Option<u64>,
    pub body: Seq<char>,
    pub attachments: Option<Seq<char>>,
}

impl View for UnpackedMessage {
    type V = PlaintextModel;

    open spec fn view(&self) -> PlaintextModel {
        PlaintextModel {
            id: self.id@,
            type_: self.type_@,
            from: opt_text(self.from),
            to: opt_texts(self.to),
            thid: opt_text(self.thid),
            pthid: opt_text(self.pthid),
            created_time: self.created_time,
            expires_time: self.expires_time,
            body: self.body@,
            attachments: opt_text(self.attachments),
        }
    }
}

/// Whether a message that expires at `expires_time`, if at all, is void at
/// the second `now`: it is from the very second of its expiry on.
pub open spec fn is_expired(expires_time: Option<u64>, now: u64) -> bool {
    match expires_time {
        Some(e) => e <= now,
        None => false,
    }
}

/// The reason for which a message that expired at `expires` is refused at
/// the second `now`: it names both times.
pub open spec fn spec_expired_reason(expires: u64, now: u64) -> Seq<char> {
    "Message expired at ("@ + decimal_text(expires as nat) + ") now("@ + decimal_text(now as nat)
        + ")"@
}

impl UnpackedMessage {
    /// The refusal of the message at the second `now`, where it is void by
    /// then: a `MessageExpired` of the session that names the time of expiry
    /// and `now`. Nothing where the message is still good.
    pub fn expiry_error(&self, session_id: &str, now: u64) -> (error: Option<MediatorError>)
        ensures
            error is Some <==> is_expired(self.expires_time, now),
            error matches Some(e) ==> {
                &&& e.kind == ErrorKind::MessageExpired
                &&& e.session_id@ == session_id@
                &&& self.expires_time matches Some(expires)
                &&& e.reason@ == spec_expired_reason(expires, now)
            },
    {
        match self.expires_time {
            Some(expires) => {
                if expires <= now {
                    let mut reason = with_number("Message expired at (", expires, ") now(");
                    reason.append(decimal(now).as_str());
                    reason.append(")");
                    Some(MediatorError::new(ErrorKind::MessageExpired, session_id, reason.as_str()))
                } else {
                    None
                }
            },
            None => None,
        }
    }

    /// Whether the message is void at the second `now`.
    pub fn expired_at(&self, now: u64) -> (void: bool)
        ensures
            void == is_expired(self.expires_time, now),
    {
        match self.expires_time {
            Some(e) => e <= now,
            None => false,
        }
    }
}

/// What unpacking found out about an envelope.
#[derive(Debug)]
pub struct UnpackMetadata {
    /// The envelope was encrypted.
    pub encrypted: bool,
    /// The sender proved possession of a key of its DID.
    pub authenticated: bool,
    /// The message was signed.
    pub non_repudiation: bool,
    /// The sender stays unknown to the recipient.
    pub anonymous_sender: bool,
    /// The key of the sender that the envelope was encrypted from.
    pub encrypted_from_kid: Option<String>,
    /// The keys that the envelope was encrypted to.
    pub encrypted_to_kids: Vec<String>,
    /// The key that signed the message.
    pub sign_from: Option<String>,
    /// The service endpoint found for the sender.
    pub messaging_service: Option<String>,
}

/// What a handler wants sent.
#[derive(Debug)]
pub enum MessageResponse {
    /// Nothing: the message is dropped.
    Empty,
    /// An envelope that is packed already, as a forwarded one is.
    PackedMessage { to: String, packed_message: String },
    /// A message still to be packed, once for each recipient.
    Message(UnpackedMessage),
}

/// A handler's answer to a message.
#[derive(Debug)]
pub struct ProcessMessageResponse {
    /// Whether to queue the response in the recipients' mailboxes.
    pub store_message: bool,
    /// Whether to try live delivery even to subscribers of other instances.
    pub force_live_delivery: bool,
    pub message_response: MessageResponse,
}

} // verus!
