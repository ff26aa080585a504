//! Typed, never-null wrappers for the type and constant handles of an IR
//! engine that is driven through a C interface.
//!
//! The library performs no foreign call itself. Every operation builds a
//! [`engine::Call`], hands it to the engine function that the caller supplies,
//! and decodes the [`engine::Reply`]. Its contracts say which call is sent and
//! what is made of each possible reply.

pub mod context;
pub mod engine;
pub mod kind;
pub mod laws;
pub mod render;
pub mod types;
pub mod values;
