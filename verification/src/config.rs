//! The mediator's configuration: the file as it is read, where its secrets
//! come from, and the settings that the mediator runs with.

pub mod env;
pub mod raw;
pub mod settings;
pub mod sources;
