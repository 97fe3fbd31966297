//! A hub that lets several devices on a local network share one clipboard.
//!
//! The crate holds the decisions of the hub and nothing that touches a socket,
//! a clock or a disk: the surrounding program feeds it frames and timestamps
//! and carries out the reactions it returns.
//!
//! - [`codec`] reads and writes the frames of the wire protocol.
//! - [`registry`] owns the clipboard value and the set of connected sessions.
//! - [`session`] is the life of one connection: start, frames, heartbeat, end.
//! - [`config`], [`services`], [`streaming`] and [`server`] hold what the
//!   plain HTTP side of the server decides: which folders it works with,
//!   which names files are stored under, what a listing shows, which content
//!   type a file gets, and how the server is announced.

pub mod codec;
pub mod config;
pub mod registry;
pub mod server;
pub mod services;
pub mod session;
pub mod streaming;
pub mod text;
