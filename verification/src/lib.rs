//! Session core of an asynchronous IMAP client.
//!
//! The crate holds the decisions of a client session: which identifier the
//! next command carries, in which order the stages of a connection follow
//! each other, which response frame ends a command, and when the session is
//! handed back to its owner.  Sockets, TLS and the wire codec stay outside;
//! they report what happened as plain events and the state machines here say
//! what follows.

pub mod connect;
pub mod establish;
pub mod exchange;
pub mod response;
pub mod session;
pub mod simple;
pub mod tag;
pub mod types;

pub use connect::{pick_address, ConnectEvent, ImapConnectFuture, Stage};
pub use response::{Event, ResponseStream, Wants};
pub use session::{Client, ClientState, Outgoing};
pub use tag::{IdGenerator, RequestId};
pub use types::{Async, Error, Request, State, Step, StreamEvent};
