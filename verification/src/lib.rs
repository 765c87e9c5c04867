//! A session-routing broker between links (front-end callers) and sinks
//! (back-end workers): sessions, ordering, the application registry and the
//! relay that pairs each forwarded request with its reply.
//!
//! The library decides and keeps state; it performs no I/O. Where a call has
//! to wait for a remote sink, the entry point hands back a `RelayCall` that
//! names the channel and the message, and a second entry point takes the
//! reply once it has arrived.

pub mod dispatch_config;
pub mod dispatch_rules;
pub mod error;
pub mod globs;
pub mod hub_app;
pub mod http_activity;
pub mod hub_session;
pub mod link_authenticator;
pub mod link_hub;
pub mod link_session;
pub mod proto;
pub mod relay;
pub mod session_index;
pub mod sink_app;
pub mod sink_authenticator;
pub mod sink_hub;
pub mod sink_session;
pub mod status;
pub mod tables;
