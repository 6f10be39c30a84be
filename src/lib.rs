//! A client library for a messaging platform's HTTP bot API: a builder for
//! outgoing message parameters, the JSON encoding of those parameters, and
//! the mapping of the platform's JSON answers to typed results.

pub mod json;
pub mod keyboards;
pub mod models;
pub mod sendables;
pub mod api;
