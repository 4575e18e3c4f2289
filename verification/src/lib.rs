//! Typed request-building client for the LTA DataMall open-data service.
//!
//! Every endpoint of the upstream service is a plain HTTP GET: a fixed URL,
//! an `AccountKey` header carrying the caller's API key, and a handful of
//! query parameters (an optional pagination offset, a geographic search
//! triple, or a formatted month filter). This crate holds the verified part
//! of that client: building the outgoing request exactly, and turning a raw
//! response (status code plus body, or a transport failure) into the typed
//! result or error the caller sees. Performing the network call itself, and
//! decoding JSON text into the wire structs, are left to the embedding
//! application.

pub mod client;
pub mod crowd;
pub mod decimal;
pub mod errors;
pub mod pipeline;
pub mod taxi;
pub mod traffic;
