//! Protocol adapter between an OpenAI-style chat completion contract and a
//! conversational backend with its own request shape and event stream.
//!
//! The crate holds the rules of the adapter and nothing that waits: it builds
//! the backend query from a message list, turns a backend answer into a chat
//! completion object, maps backend stream events to server-sent-event frames,
//! renders failures as JSON and resolves the server's settings. Sockets, routing and
//! the backend client live with the caller, which hands plain values in and
//! takes plain values back.

pub mod text;
pub mod decimal;
pub mod escape;
pub mod json;
pub mod model;
pub mod error;
pub mod backend;
pub mod usage;
pub mod auth;
pub mod translate;
pub mod blocking;
pub mod stream;
pub mod mapper;
pub mod config;
