//! A client of the YouTrack issue tracker, without the I/O.
//!
//! The payloads of the tracker are read into records ([`issue::Issue`],
//! [`field::Field`], [`project::Project`], [`query::SavedQuery`]), requests
//! are made as values ([`request::Request`]), and what each function returns
//! is stated over the mathematical value of its input. Sending a request and
//! receiving a payload is left to the caller.

pub mod batch;
pub mod config;
pub mod error;
pub mod extract;
pub mod field;
pub mod issue;
pub mod json;
pub mod logging;
pub mod options;
pub mod project;
pub mod query;
pub mod reply;
pub mod request;
pub mod text;
pub mod time;
