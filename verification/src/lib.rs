//! Session orchestration core of a multi-participant game streaming gateway.
//!
//! A web server groups browser peers into rooms, and one streamer process per
//! room fans a remote stream out to the peers of that room. This library holds
//! the decisions of both sides: who may join a room and in which slot, which
//! inputs a peer may send, where a message goes next. Sockets, processes and
//! the streaming client itself stay with the caller, which performs the
//! actions that the functions here hand back.

pub mod accounts;
pub mod api_bindings;
pub mod config;
pub mod discord;
pub mod error;
pub mod gamepads;
pub mod host;
pub mod ipc;
pub mod peer_manager;
pub mod peer_table;
pub mod room;
pub mod room_manager;
pub mod server;
pub mod streamer;
pub mod strings;
pub mod transport;
pub mod video;
