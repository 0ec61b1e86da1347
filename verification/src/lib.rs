//! A typed client library for the Help Scout help-desk REST API.
//!
//! The heart of the crate is the request pipeline in [`client`]: it builds
//! request descriptors (method, URL with an encoded query string, optional
//! body), classifies HTTP responses into typed results, and decides when a
//! transient failure is retried.  The `api` modules mirror the remote
//! resources (conversations, customers, mailboxes, users, teams, tags,
//! reports) with parameter builders and data models.
//!
//! Network transport is deliberately kept out of this crate: callers send the
//! prepared requests themselves and feed each response back into the
//! pipeline, which tells them whether to finish or retry.

pub mod api;
mod client;
mod date_format;
mod envelope;
mod error;
mod query;
mod text;
pub mod webhook;

pub use client::{
    AttemptResponse, BodyShape, CallOutcome, CallSuccess, Client, CodeField, Decision, ErrorField,
    HttpMethod, PreparedRequest, RetryState, Status, Step,
};
pub use date_format::Timestamp;
pub use envelope::{Collection, Item};
pub use error::HelpScoutError;
pub use query::{decode_query, encode_query};
