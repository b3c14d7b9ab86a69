//! Core of a peer-to-peer chat client that routes conversation traffic
//! through an anonymizing proxy onto an overlay network.
//!
//! Three subsystems carry the weight: a bounded sliding-window buffer for
//! inbound text messages ([`buffer`]), a single-flight, deadline-bounded,
//! retrying cache for conversation summaries ([`chat_data`]), and the state
//! bookkeeping of a tunnel-based duplex messenger ([`messenger`]).
//! The asynchronous plumbing (sockets, timers, locks) lives outside this
//! library; every decision the plumbing has to make is a function in here,
//! stated and proved.

pub mod buffer;
pub mod chat_data;
pub mod contact;
pub mod database;
pub mod home;
pub mod messenger;
pub mod paths;
pub mod routes;
pub mod text;
