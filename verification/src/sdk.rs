//! The client side: what an agent does to talk to the mediator.

pub mod authentication;
pub mod transports;
pub mod utils;
