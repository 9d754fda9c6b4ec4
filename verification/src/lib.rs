//! Registration, lookup and audit logging for holders of AKT tokens.
//!
//! A user is known by a blockchain address. A request to look a user up or to
//! register one is answered only after a human-verification service has
//! accepted the caller's response; audit entries are appended under bearer
//! tokens that expire.
//!
//! The crate holds the decisions of that service and none of its I/O. A
//! request is served by a [`workflow::Session`]: it names the next thing to do
//! outside (ask the verification service, read or write the record store),
//! takes what came back, and ends with an [`workflow::Outcome`].

pub mod api;
pub mod db;
pub mod recaptcha;
pub mod store;
pub mod text;
pub mod token;
pub mod workflow;

