//! Core of a DIDComm v2 mediator: a relay that queues packed messages per
//! recipient, pushes them to live subscribers, authenticates agents with a
//! challenge/response exchange and routes forward envelopes.
//!
//! Every function here carries a contract that Verus proves. Calls into other
//! crates are confined to small wrappers whose contracts are stated, not proved;
//! each of them says so in its documentation.

pub mod auth;
pub mod config;
pub mod didcomm;
pub mod digest;
pub mod dispatch;
pub mod errors;
pub mod handlers;
pub mod ids;
pub mod inbound;
pub mod mailbox;
pub mod messages;
pub mod routing;
pub mod secrets;
pub mod sdk;
pub mod seq_facts;
pub mod session;
pub mod state;
pub mod streaming;
pub mod text;
