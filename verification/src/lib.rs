//! Polls with live vote counts behind a passwordless login.
//!
//! The library holds what the service decides: the registry of polls and what each
//! operation on it answers ([`store`], [`handlers::poll`]), what a socket connection does
//! about each thing that happens on it ([`websocket`]), and the two-step ceremonies by
//! which a user registers a credential and logs in ([`handlers::auth`]), with the
//! credential directory ([`models::user`]) and the per-session state ([`session`]) they
//! work on. Every function states what it returns and changes, and is verified against
//! that statement; [`laws`] holds what follows for several calls taken together.
//!
//! The library does no input or output. Around it stands a server that owns the locks,
//! the sessions and the sockets: it hands the library plain values, applies what the
//! library answers, and publishes the events that the library returns, each once, after
//! the registry is unlocked again.
//!
//! Three things come from other crates and are taken on trust, each behind a small
//! item that says what is assumed of it: the credential checks of `webauthn-rs`
//! ([`passkey`]), random identifiers from `uuid` ([`ids`]) and the time from `chrono`
//! ([`clock`]).

pub mod clock;
pub mod config;
pub mod error;
pub mod handlers;
pub mod ids;
pub mod laws;
pub mod models;
pub mod passkey;
pub mod session;
pub mod state;
pub mod store;
pub mod websocket;
