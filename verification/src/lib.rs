//! A verified client layer for a remote note-taking service.
//!
//! The library owns everything about the client that can be stated and
//! proved: request construction (method, URL, JSON body), response
//! classification, the JSON wire codec for every entity, pagination
//! draining, and the tool dispatcher's decode/encode steps. Performing
//! the HTTP exchanges themselves is left to the surrounding program.

pub mod auth;
pub mod codec;
pub mod dispatch;
pub mod json;
pub mod note;
pub mod notes;
pub mod session;
pub mod transport;
pub mod user;
