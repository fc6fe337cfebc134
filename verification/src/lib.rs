//! Planning and control logic of a layered tunneling proxy.
//!
//! The crate decides; it performs no input or output of its own.  From a
//! configuration document it works out the role of the process and the fixed
//! nesting of transport layers on each side ([`launch_from_config_string`]).
//! For a running proxy it answers every accept result with the next thing to
//! do ([`dispatch`]), and it drives both directions of an established session
//! and its teardown, one event at a time ([`relay_tcp`], [`relay_udp`]).
//! A caller owns the sockets and buffers: it performs each request that the
//! crate hands out and reports what came of it.

pub mod client;
pub mod config;
pub mod copy;
pub mod dispatch;
pub mod document;
pub mod error;
pub mod forward;
pub mod launch;
pub mod mode;
pub mod pipeline;
pub mod relay;
pub mod server;

pub use client::ClientProxy;
pub use copy::{
    copy_tcp, copy_udp, CopyOutcome, CopyState, CopyStep, DatagramEvent, DatagramRequest, StreamEvent,
    StreamRequest, RELAY_BUFFER_SIZE,
};
pub use config::{ClientConfig, ForwardConfig, SectionSet, ServerConfig};
pub use dispatch::{dispatch, start_session, AcceptResult, Dispatch, SessionStart};
pub use document::{ConfigOutline, Field};
pub use error::{ConfigError, Section};
pub use forward::ForwardProxy;
pub use launch::{launch_from_config_string, launch_from_outline, LaunchPlan};
pub use mode::ProxyMode;
pub use pipeline::{Layer, Pipeline};
pub use relay::{relay_tcp, relay_udp, Direction, Relay, RelayAction, RelayEvent, RelayPhase, Side};
pub use server::ServerProxy;
