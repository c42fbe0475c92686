//! The boundary to the DIDComm cryptography: unpacking an envelope into a
//! message, and packing a message into an envelope for its recipient. The
//! keys live in an agent of the DIDComm crate that the caller has filled.

use crate::dispatch::{refused, refused_because};
use crate::errors::{ErrorKind, MediatorError};
use crate::inbound::PackedFor;
use crate::messages::{UnpackMetadata, UnpackedMessage};
use crate::session::Session;
use crate::secrets::{did_of, spec_did_of};
use crate::text::{opt_text, texts};
use affinidi_messaging_didcomm::{DIDCommAgent, DIDCommError, Message, UnpackResult};
use vstd::prelude::*;

verus! {

/// The agent of the DIDComm crate: the keys of the local identities and of
/// the peers that were resolved. Nothing of its inside is seen here.
#[verifier::external_type_specification]
#[verifier::external_body]
pub struct ExDIDCommAgent(affinidi_messaging_didcomm::DIDCommAgent);

/// What the DIDComm crate makes of an envelope. Nothing of its inside is
/// seen here.
#[verifier::external_type_specification]
#[verifier::external_body]
pub struct ExUnpackResult(affinidi_messaging_didcomm::UnpackResult);

/// Why an envelope could not be unpacked.
#[derive(Clone, Copy, Debug, PartialEq, Eq, Structural)]
pub enum UnpackFailure {
    /// The envelope could not be interpreted.
    Parse,
    /// The envelope was read, but decryption or verification failed.
    Unpack,
}

/// Whether `text` is JSON. It stands for whether `serde_json::from_str`
/// reads the text as a `serde_json::Value`.
pub uninterp spec fn json_readable(text: Seq<char>) -> bool;

/// Calls `serde_json::from_str` for a `serde_json::Value` and says whether
/// it succeeded. Reading depends on the text alone, so the contract names the
/// result. Not proved.
#[verifier::external_body]
fn reads_as_json(text: &str) -> (readable: bool)
    ensures
        readable == json_readable(text@),
{
    serde_json::from_str::<serde_json::Value>(text).is_ok()
}

/// Calls `DIDCommAgent::unpack`. What comes back depends on the keys that
/// the agent holds, so nothing is claimed of it. Of the crate's errors,
/// `InvalidMessage` is told apart as a failure to parse.
#[verifier::external_body]
fn agent_unpack(
    agent: &DIDCommAgent,
    envelope: &str,
    sender_did: Option<&str>,
) -> Result<UnpackResult, UnpackFailure> {
    agent.unpack(envelope, sender_did).map_err(
        |e| match e {
            DIDCommError::InvalidMessage(_) => UnpackFailure::Parse,
            _ => UnpackFailure::Unpack,
        },
    )
}

/// Calls `UnpackMetadata::from_unpack_result` of the DIDComm crate and moves
/// its fields over. The result is opaque, so nothing is claimed.
#[verifier::external_body]
fn unpacked_metadata(result: &UnpackResult) -> UnpackMetadata {
    let found = affinidi_messaging_didcomm::UnpackMetadata::from_unpack_result(result);
    UnpackMetadata {
        encrypted: found.encrypted,
        authenticated: found.authenticated,
        non_repudiation: found.non_repudiation,
        anonymous_sender: found.anonymous_sender,
        encrypted_from_kid: found.encrypted_from_kid,
        encrypted_to_kids: found.encrypted_to_kids,
        sign_from: found.sign_from,
        messaging_service: None,
    }
}

/// Takes the message out of what was unpacked, whichever way it was
/// protected, and moves its fields over; body and attachments are rendered
/// as JSON text with `to_string` of `serde_json`. The result is opaque, so
/// nothing is claimed.
#[verifier::external_body]
fn unpacked_message(result: &UnpackResult) -> Option<UnpackedMessage> {
    let (UnpackResult::Encrypted { message: m, .. }
    | UnpackResult::Signed { message: m, .. }
    | UnpackResult::Plaintext(m)) = result else { return None };
    let attachments = m.attachments.as_ref().and_then(|a| serde_json::to_string(a).ok());
    let (id, type_, from, to) = (m.id.clone(), m.typ.clone(), m.from.clone(), m.to.clone());
    let (thid, pthid, body) = (m.thid.clone(), m.pthid.clone(), m.body.to_string());
    let (created_time, expires_time) = (m.created_time, m.expires_time);
    Some(UnpackedMessage { id, type_, from, to, thid, pthid, created_time, expires_time, body, attachments })
}

/// Makes a `Message` of the DIDComm crate of the fields of `msg` and calls
/// `DIDCommAgent::pack_authcrypt`. Encryption draws keys at random, so
/// nothing is claimed of the envelope; there is none where body or
/// attachments are no JSON or the agent lacks a key.
#[verifier::external_body]
fn agent_pack(
    agent: &DIDCommAgent,
    msg: &UnpackedMessage,
    from_did: &str,
    to_did: &str,
) -> Option<String> {
    let body = serde_json::from_str(msg.body.as_str()).ok()?;
    let mut m = Message::build(msg.id.as_str(), msg.type_.as_str(), body).finalize();
    m.from = msg.from.clone();
    m.to = msg.to.clone();
    m.thid = msg.thid.clone();
    m.pthid = msg.pthid.clone();
    m.created_time = msg.created_time;
    m.expires_time = msg.expires_time;
    m.attachments = msg.attachments.as_deref().map(serde_json::from_str).transpose().ok()?;
    agent.pack_authcrypt(&m, from_did, to_did).ok()
}

/// The key id of the sender that the encrypted envelope `envelope` names in
/// its protected header; nothing where the text is no such envelope or names
/// no sender. It stands for what `serde_json` reads of the envelope as a
/// `Jwe` and of its decoded protected header as a `ProtectedHeader` of the
/// DIDComm crate.
pub uninterp spec fn jwe_sender_kid(envelope: Seq<char>) -> Option<Seq<char>>;

/// Reads the envelope as a `Jwe` of the DIDComm crate with
/// `serde_json::from_str`, decodes its protected header with the `decode` of
/// `base64::prelude::BASE64_URL_SAFE_NO_PAD`, reads that as a
/// `ProtectedHeader` with `serde_json::from_slice` and picks its `skid`. All
/// of this depends on the text alone, so the contract names the result. Not
/// proved.
#[verifier::external_body]
fn sender_kid(envelope: &str) -> (kid: Option<String>)
    ensures
        opt_text(kid) == jwe_sender_kid(envelope@),
{
    let jwe: affinidi_messaging_didcomm::jwe::envelope::Jwe = serde_json::from_str(envelope).ok()?;
    let header =
        base64::Engine::decode(&base64::prelude::BASE64_URL_SAFE_NO_PAD, jwe.protected).ok()?;
    serde_json::from_slice::<affinidi_messaging_didcomm::jwe::envelope::ProtectedHeader>(&header)
        .ok()?
        .skid
}

/// The DID of the sender that an envelope names: the DID of the sender's
/// key id.
pub open spec fn spec_envelope_sender(envelope: Seq<char>) -> Option<Seq<char>> {
    match jwe_sender_kid(envelope) {
        Some(kid) => Some(spec_did_of(kid)),
        None => None,
    }
}

/// The DID of the sender that the envelope names, if it names one. Its keys
/// must be known to the agent before the envelope can be unpacked.
pub fn envelope_sender(envelope: &str) -> (did: Option<String>)
    ensures
        opt_text(did) == spec_envelope_sender(envelope@),
{
    match sender_kid(envelope) {
        Some(kid) => Some(did_of(kid.as_str())),
        None => None,
    }
}

/// How many cryptographic operations unpacking took, by what it found out:
/// one where the envelope was encrypted, and one where the message was
/// signed.
pub open spec fn spec_crypto_operations(metadata: UnpackMetadata) -> nat {
    let decryptions: nat = if metadata.encrypted { 1 } else { 0 };
    let verifications: nat = if metadata.non_repudiation { 1 } else { 0 };
    decryptions + verifications
}

/// How many cryptographic operations unpacking took.
pub fn crypto_operations(metadata: &UnpackMetadata) -> (n: usize)
    ensures
        n == spec_crypto_operations(*metadata),
{
    let decryptions: usize = if metadata.encrypted { 1 } else { 0 };
    let verifications: usize = if metadata.non_repudiation { 1 } else { 0 };
    decryptions + verifications
}

/// What unpacking an envelope comes to, given what the DIDComm crate made
/// of it: a failure to parse is a `ParseError`, any other failure an
/// `UnpackError`, and so is an envelope that yields no message or one that
/// took more cryptographic operations than `limit` allows.
pub fn unpack_outcome(
    unpacked: Result<Option<(UnpackedMessage, UnpackMetadata)>, UnpackFailure>,
    limit: usize,
    session_id: &str,
) -> (result: Result<(UnpackedMessage, UnpackMetadata), MediatorError>)
    ensures
        match unpacked {
            Ok(Some(found)) => if spec_crypto_operations(found.1) <= limit {
                result == Ok::<(UnpackedMessage, UnpackMetadata), MediatorError>(found)
            } else {
                refused_because(
                    result,
                    ErrorKind::UnpackError,
                    session_id@,
                    "Unpacking took more cryptographic operations than allowed"@,
                )
            },
            Ok(None) => refused_because(
                result,
                ErrorKind::UnpackError,
                session_id@,
                "Couldn't unpack incoming message"@,
            ),
            Err(UnpackFailure::Parse) => refused_because(
                result,
                ErrorKind::ParseError,
                session_id@,
                "Raw inbound DIDComm message"@,
            ),
            Err(UnpackFailure::Unpack) => refused_because(
                result,
                ErrorKind::UnpackError,
                session_id@,
                "Couldn't unpack incoming message"@,
            ),
        },
{
    match unpacked {
        Ok(Some(found)) => {
            if crypto_operations(&found.1) <= limit {
                Ok(found)
            } else {
                Err(
                    MediatorError::new(
                        ErrorKind::UnpackError,
                        session_id,
                        "Unpacking took more cryptographic operations than allowed",
                    ),
                )
            }
        },
        Ok(None) => Err(
            MediatorError::new(
                ErrorKind::UnpackError,
                session_id,
                "Couldn't unpack incoming message",
            ),
        ),
        Err(UnpackFailure::Parse) => Err(
            MediatorError::new(ErrorKind::ParseError, session_id, "Raw inbound DIDComm message"),
        ),
        Err(UnpackFailure::Unpack) => Err(
            MediatorError::new(
                ErrorKind::UnpackError,
                session_id,
                "Couldn't unpack incoming message",
            ),
        ),
    }
}

/// Unpacks an envelope with the keys of `agent`. `sender_did` names the
/// sender where the envelope is to prove who sent it, and `limit` is the
/// most cryptographic operations that unpacking may take.
///
/// An envelope that is no JSON cannot be interpreted: it is a `ParseError`,
/// and no key is tried on it. Whether any other envelope can be unpacked is
/// for the cryptography to say. A message that comes out took no more
/// operations than `limit`. A failure is a `ParseError` or an `UnpackError`
/// of the session, as `unpack_outcome` tells them apart.
pub fn unpack_envelope(
    agent: &DIDCommAgent,
    envelope: &str,
    sender_did: Option<&str>,
    limit: usize,
    session_id: &str,
) -> (result: Result<(UnpackedMessage, UnpackMetadata), MediatorError>)
    ensures
        !json_readable(envelope@) ==> refused_because(
            result,
            ErrorKind::ParseError,
            session_id@,
            "Raw inbound DIDComm message"@,
        ),
        result matches Ok(found) ==> json_readable(envelope@) && spec_crypto_operations(found.1)
            <= limit,
        result is Err ==> refused(result, ErrorKind::ParseError, session_id@) || refused(
            result,
            ErrorKind::UnpackError,
            session_id@,
        ),
{
    if !reads_as_json(envelope) {
        return unpack_outcome(Err(UnpackFailure::Parse), limit, session_id);
    }
    let unpacked = match agent_unpack(agent, envelope, sender_did) {
        Ok(found) => match unpacked_message(&found) {
            Some(message) => Ok(Some((message, unpacked_metadata(&found)))),
            None => Ok(None),
        },
        Err(failure) => Err(failure),
    };
    unpack_outcome(unpacked, limit, session_id)
}

/// Whether body and attachments of `message` are JSON, as a message must
/// have them that is to be packed.
pub open spec fn packable(message: UnpackedMessage) -> bool {
    &&& json_readable(message.body@)
    &&& message.attachments matches Some(list) ==> json_readable(list@)
}

/// Packs `message` for `to_did`, encrypted and authenticated from
/// `from_did`, with the keys of `agent`.
///
/// A message whose body or attachments are no JSON is not packed, and no
/// key is tried on it. Whether there is an envelope for any other message,
/// and what it holds, is for the cryptography to say.
pub fn pack_one(
    agent: &DIDCommAgent,
    message: &UnpackedMessage,
    from_did: &str,
    to_did: &str,
) -> (envelope: Option<String>)
    ensures
        envelope is Some ==> packable(*message),
{
    if !reads_as_json(message.body.as_str()) {
        return None;
    }
    let attached = match &message.attachments {
        Some(list) => reads_as_json(list.as_str()),
        None => true,
    };
    if !attached {
        return None;
    }
    agent_pack(agent, message, from_did, to_did)
}

/// Whether `list` holds one envelope for each of `recipients`, in order.
pub open spec fn packed_for_each(list: Seq<PackedFor>, recipients: Seq<Seq<char>>) -> bool {
    &&& list.len() == recipients.len()
    &&& forall|i: int| 0 <= i < list.len() ==> (#[trigger] list[i]).to_did@ == recipients[i]
}

/// Packs `message` once for each of `recipients`, encrypted and
/// authenticated from `from_did`.
///
/// A message is packed for one key of each recipient, so where the session
/// allows no key for a recipient, nothing can be packed. Otherwise whether
/// a message can be packed for a recipient is for the cryptography to say.
/// Where it can for all, there is one envelope for each recipient, in their
/// order; where it cannot for one, the failure is a `PackError`.
pub fn pack_all(
    agent: &DIDCommAgent,
    message: &UnpackedMessage,
    recipients: &Vec<String>,
    from_did: &str,
    session: &Session,
) -> (result: Result<Vec<PackedFor>, MediatorError>)
    ensures
        result matches Ok(list) ==> packed_for_each(list@, texts(recipients@)),
        result is Err ==> refused(result, ErrorKind::PackError, session.session_id@),
        session.limits.to_keys_per_recipient_limit == 0 && recipients@.len() > 0 ==> refused_because(
            result,
            ErrorKind::PackError,
            session.session_id@,
            "Recipient has more keys than allowed"@,
        ),
        recipients@.len() == 0 ==> result is Ok,
{
    if session.limits.to_keys_per_recipient_limit == 0 && recipients.len() > 0 {
        return Err(
            MediatorError::new(
                ErrorKind::PackError,
                session.session_id.as_str(),
                "Recipient has more keys than allowed",
            ),
        );
    }
    let mut list: Vec<PackedFor> = Vec::new();
    let mut i: usize = 0;
    while i < recipients.len()
        invariant
            0 <= i <= recipients.len(),
            list@.len() == i,
            session.limits.to_keys_per_recipient_limit > 0 || recipients@.len() == 0,
            forall|j: int| 0 <= j < i ==> (#[trigger] list@[j]).to_did@ == recipients@[j]@,
        decreases recipients.len() - i,
    {
        match pack_one(agent, message, from_did, recipients[i].as_str()) {
            Some(packed) => {
                list.push(PackedFor { to_did: recipients[i].clone(), packed });
            },
            None => {
                return Err(
                    MediatorError::new(
                        ErrorKind::PackError,
                        session.session_id.as_str(),
                        "Couldn't pack the message for a recipient",
                    ),
                );
            },
        }
        i += 1;
    }
    Ok(list)
}

} // verus!
