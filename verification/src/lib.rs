//! The half of a privileged Unix-socket daemon that is the same whatever the
//! daemon does: take the socket and give it away to a group, reclaim a stale
//! one, ask the kernel who is calling, authorize the call, audit it, and tell
//! a busy daemon from a wedged one under a watchdog. An HTTP/JSON reader and a
//! dispatch pipeline are there for a daemon that speaks HTTP.
//!
//! Everything here is a decision: what to do next, what to answer, what to
//! write in the journal. Reading sockets, clocks and the environment is left
//! to the program around it, which hands in what it read and does what it is
//! told.
use vstd::prelude::*;

pub mod audit;
pub mod authorization;
pub mod call;
pub mod caller;
pub mod connection;
pub mod exchange;
pub mod handler;
pub mod http;
pub mod io;
pub mod json;
pub mod server;
pub mod service;
pub mod socket;
pub mod text;
pub mod time;
pub mod watchdog;

pub use audit::{Announcement, Operation};
pub use authorization::{AllowSocketPeers, Authorizer, Denial, DenyAll, PeerGate};
pub use call::{Authorization, Call};
pub use caller::{AccountNames, Caller, MAX_CALLER_NAME_CHARS};
pub use handler::{Handler, Reply};
pub use http::ServeOutcome;
pub use io::{ErrorKind, IoError};
pub use server::ServerConfig;
pub use service::{FrameworkErrorKind, HttpVerb, Route, Service, WireError};
pub use socket::{BindError, SocketConfig};
pub use time::{Duration, Instant};

verus! {

/// This crate's name, for a daemon that wants to say what framework it runs on.
pub const FRAMEWORK_NAME: &'static str = "uds-policy";

/// This crate's version.
pub const FRAMEWORK_VERSION: &'static str = "0.1.0";

}
