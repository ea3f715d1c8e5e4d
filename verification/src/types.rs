//! Plain values that the session's state machines take and give.

use vstd::prelude::*;

verus! {

/// The port of IMAP over implicit TLS, the only one a session connects to.
pub const IMAPS_PORT: u16 = 993;

/// The protocol phase of a session.
#[derive(Clone, Copy, Debug, PartialEq, Eq, Structural)]
pub enum State {
    NotAuthenticated,
    Authenticated,
    Selected,
    Logout,
}

/// Whether something asked for is there yet.
#[derive(Debug, PartialEq, Eq)]
pub enum Async<T> {
    Ready(T),
    NotReady,
}

/// One event of a stream that ends by handing a value back: an item, or the
/// value that closes the stream.
#[derive(Debug, PartialEq, Eq)]
pub enum StreamEvent<I, S> {
    Next(I),
    Done(S),
}

/// What a state machine answers to an event: go on with the next piece of
/// outside work at once, or end the poll with a result.
#[derive(Debug, PartialEq, Eq)]
pub enum Step<V, E> {
    Continue,
    Return(Result<Async<V>, Error<E>>),
}

/// Why an operation of the session failed.  Every variant but the first
/// carries the cause that the transport reported.
#[derive(Debug, PartialEq, Eq)]
pub enum Error<E> {
    /// The host name resolved to no address; the text names the host.
    AddressResolution(String),
    /// The TCP connection could not be opened.
    Connect(E),
    /// The TLS handshake failed.
    Tls(E),
    /// The first frame could not be decoded.
    Protocol(E),
    /// Sending a command or reading its responses failed.
    StreamAborted(E),
}

/// A command as it goes on the wire: its identifier and its encoded text.
#[derive(Debug)]
pub struct Request(pub crate::tag::RequestId, pub Vec<u8>);

} // verus!
