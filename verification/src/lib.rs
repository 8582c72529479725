//! Client library for a federated chat protocol's HTTP client-server API.
//!
//! The library holds the protocol logic: building JSON request bodies,
//! decoding success and error responses, classifying failures into one
//! error taxonomy, and driving the interactive-authentication handshake.
//! Performing the HTTP round trips themselves is left to the embedding
//! program, which hands each raw outcome (status code and body, or a
//! transport failure) back to this library for interpretation.

pub mod api;
pub mod auth;
pub mod client;
pub mod json;
pub mod login;
pub mod registration;
pub mod rooms;
