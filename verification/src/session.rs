//! The per-request session: who is asking, and under which limits.

use crate::digest::{did_hash, spec_did_hash};
use vstd::prelude::*;

verus! {

/// The limits that bear on one request, as they stood when it began.
#[derive(Clone, Copy, Debug, PartialEq, Eq, Structural)]
pub struct RequestLimits {
    /// The most headers one listing returns.
    pub max_listed_messages: u32,
    /// The most messages one request may delete.
    pub max_deleted_messages: u32,
    /// The most recipients one outbound message may have.
    pub to_recipients_limit: usize,
    /// The most keys of one recipient that a message is packed for.
    pub to_keys_per_recipient_limit: usize,
    /// The most cryptographic operations spent on unpacking one message.
    pub crypto_operations_per_message_limit: usize,
}

/// An authenticated request: its correlation id, the caller's DID with its
/// hash, and the limits in force.
#[derive(Debug)]
pub struct Session {
    pub session_id: String,
    pub did: String,
    pub did_hash: String,
    pub limits: RequestLimits,
}

impl Session {
    /// Whether the cached hash is the hash of the session's DID.
    pub open spec fn wf(&self) -> bool {
        self.did_hash@ == spec_did_hash(self.did@)
    }

    /// The session of the request `session_id` made by `did`.
    pub fn new(session_id: &str, did: &str, limits: RequestLimits) -> (session: Session)
        ensures
            session.wf(),
            session.session_id@ == session_id@,
            session.did@ == did@,
            session.limits == limits,
    {
        Session {
            session_id: session_id.to_owned(),
            did: did.to_owned(),
            did_hash: did_hash(did),
            limits,
        }
    }
}

} // verus!
