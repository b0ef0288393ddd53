//! A client library for a home-heating cloud service: the session-token
//! lifecycle, the lookup of the heating device in a product listing, the
//! mapping of command-line words to actions, the request bodies, and the
//! rendering of the heating status.
pub mod command;
pub mod config;
pub mod device;
pub mod json;
pub mod request;
pub mod session;
pub mod status;
pub mod text;
