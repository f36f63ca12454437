//! A typed client for a hosted natural-language API.
//!
//! The library describes each call as plain values: the payload types and
//! their builders, the JSON body they put on the wire, the URL, method and
//! credential of the outgoing request, and what becomes of the reply.
//! Sending the request is left to the embedding program.
use vstd::prelude::*;

pub mod classifications;
pub mod client;
pub mod content;
pub mod json;
pub mod model;

verus! {

/// The address that every operation resolves against.
pub const OPENAI_URL: &'static str = "https://api.openai.com/v1";

} // verus!
