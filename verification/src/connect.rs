//! Opening a session: the stages from a host name to a greeted channel.
//!
//! An [`ImapConnectFuture`] holds whatever the current stage is waiting on
//! and does no input or output itself.  Its driver polls the resource of
//! the current [`Stage`], reports what happened as a [`ConnectEvent`], and
//! [`advance`](ImapConnectFuture::advance) says whether to go on with the
//! next stage at once or what the poll returns.

use crate::session::{Client, ClientState, SessionModel};
use crate::types::{Async, Error, Step};
use vstd::pervasive::unreached;
use vstd::prelude::*;
use vstd::string::*;

verus! {

/// A connection that is being opened.
///
/// `C` is the TCP connect in flight, `H` the TLS handshake in flight and
/// `T` the framed channel.  The machine holds exactly one of them at a time;
/// `ServerGreeting(None)` is a machine that has given its channel away or
/// has failed, and holds nothing.
pub enum ImapConnectFuture<C, H, T> {
    /// The TCP connection is being opened; the text is the host name that
    /// the peer's certificate will be checked against.
    TcpConnecting(C, String),
    /// The TLS handshake is under way.
    TlsHandshake(H),
    /// The channel is framed and the server's greeting is awaited.
    ServerGreeting(Option<T>),
}

/// The stage of a connection that is being opened.
#[derive(Clone, Copy, Debug, PartialEq, Eq, Structural)]
pub enum Stage {
    /// The TCP connection is being opened.
    Tcp,
    /// The TLS handshake is under way.
    Tls,
    /// The server's greeting is awaited.
    Greeting,
    /// The machine has given its result or has failed.
    Finished,
}

/// What the driver reports to a connection that is being opened.
pub enum ConnectEvent<H, T, R, E> {
    /// The TCP connection is open, and this handshake has been started on
    /// it.
    Connected(H),
    /// The handshake has completed, and this is the secured channel, framed.
    Secured(T),
    /// The channel produced its first frame.
    Greeting(R),
    /// The outside work has not finished yet.
    NotReady,
    /// The outside work failed with this cause.
    Failed(E),
}

/// A [`ConnectEvent`] without the resources it moves.
pub ghost enum ConnectInput<R, E> {
    Connected,
    Secured,
    Greeting(R),
    NotReady,
    Failed(E),
}

impl<H, T, R, E> View for ConnectEvent<H, T, R, E> {
    type V = ConnectInput<R, E>;

    open spec fn view(&self) -> ConnectInput<R, E> {
        match *self {
            ConnectEvent::Connected(_) => ConnectInput::Connected,
            ConnectEvent::Secured(_) => ConnectInput::Secured,
            ConnectEvent::Greeting(frame) => ConnectInput::Greeting(frame),
            ConnectEvent::NotReady => ConnectInput::NotReady,
            ConnectEvent::Failed(cause) => ConnectInput::Failed(cause),
        }
    }
}

impl<T, R, E> Step<(Client<T>, R), E> {
    /// The step with the state of the session in place of the session.
    pub open spec fn established(self) -> Step<(SessionModel, R), E> {
        match self {
            Step::Continue => Step::Continue,
            Step::Return(Ok(Async::NotReady)) => Step::Return(Ok(Async::NotReady)),
            Step::Return(Ok(Async::Ready((client, greeting)))) => Step::Return(
                Ok(Async::Ready((client.state(), greeting))),
            ),
            Step::Return(Err(error)) => Step::Return(Err(error)),
        }
    }
}

impl Stage {
    /// The place of the stage in the order of stages.
    pub open spec fn rank(self) -> nat {
        match self {
            Stage::Tcp => 0,
            Stage::Tls => 1,
            Stage::Greeting => 2,
            Stage::Finished => 3,
        }
    }

    /// Whether `input` can be the report of the work of this stage.
    pub open spec fn accepts<R, E>(self, input: ConnectInput<R, E>) -> bool {
        match self {
            Stage::Tcp => input is Connected || input is NotReady || input is Failed,
            Stage::Tls => input is Secured || input is NotReady || input is Failed,
            Stage::Greeting => input is Greeting || input is NotReady || input is Failed,
            Stage::Finished => false,
        }
    }

    /// The stage after `input`, and the answer to it.
    ///
    /// The completion of a stage leads to the next one, which is to be
    /// polled at once.  The greeting completes the machine: it answers with
    /// a session that is not authenticated and has issued no identifier,
    /// and with the greeting.  A failure ends the machine, with the cause
    /// wrapped by the stage that it struck.
    pub open spec fn advance<R, E>(self, input: ConnectInput<R, E>) -> (
        Stage,
        Step<(SessionModel, R), E>,
    ) {
        match (self, input) {
            (Stage::Tcp, ConnectInput::Connected) => (Stage::Tls, Step::Continue),
            (Stage::Tls, ConnectInput::Secured) => (Stage::Greeting, Step::Continue),
            (Stage::Greeting, ConnectInput::Greeting(frame)) => (
                Stage::Finished,
                Step::Return(Ok(Async::Ready((SessionModel::fresh(), frame)))),
            ),
            (Stage::Tcp, ConnectInput::Failed(cause)) => (
                Stage::Finished,
                Step::Return(Err(Error::Connect(cause))),
            ),
            (Stage::Tls, ConnectInput::Failed(cause)) => (
                Stage::Finished,
                Step::Return(Err(Error::Tls(cause))),
            ),
            (Stage::Greeting, ConnectInput::Failed(cause)) => (
                Stage::Finished,
                Step::Return(Err(Error::Protocol(cause))),
            ),
            _ => (self, Step::Return(Ok(Async::NotReady))),
        }
    }
}

/// The text of the error for a host name that resolved to no address.
pub open spec fn no_address_text(server: Seq<char>) -> Seq<char> {
    "no IP addresses found for "@ + server
}

/// Picks the address to connect to among those that `server` resolved to:
/// the first one.  Without any, the error names the host.
pub fn pick_address<A, E>(server: &str, resolved: Vec<A>) -> (picked: Result<A, Error<E>>)
    ensures
        resolved@.len() > 0 ==> picked == Ok::<A, Error<E>>(resolved@[0]),
        resolved@.len() == 0 ==> (picked matches Err(Error::AddressResolution(text)) && text@
            == no_address_text(server@)),
{
    let mut resolved = resolved;
    if resolved.len() == 0 {
        let mut text = String::from_str("no IP addresses found for ");
        text.append(server);
        Err(Error::AddressResolution(text))
    } else {
        Ok(resolved.remove(0))
    }
}

impl<T> Client<T> {
    /// Starts to open a session with `server`, over the TCP connect
    /// `connecting` that is in flight to the address picked for it.
    pub fn connect<C, H>(server: &str, connecting: C) -> (machine: ImapConnectFuture<C, H, T>)
        ensures
            machine matches ImapConnectFuture::TcpConnecting(future, domain) && future
                == connecting && domain@ == server@,
    {
        ImapConnectFuture::TcpConnecting(connecting, String::from_str(server))
    }
}

impl<C, H, T> ImapConnectFuture<C, H, T> {
    /// The stage that the machine is in.
    pub open spec fn stage(&self) -> Stage {
        match *self {
            ImapConnectFuture::TcpConnecting(_, _) => Stage::Tcp,
            ImapConnectFuture::TlsHandshake(_) => Stage::Tls,
            ImapConnectFuture::ServerGreeting(Some(_)) => Stage::Greeting,
            ImapConnectFuture::ServerGreeting(None) => Stage::Finished,
        }
    }

    /// The stage that the machine is in.
    pub fn current_stage(&self) -> (stage: Stage)
        ensures
            stage == self.stage(),
    {
        match self {
            ImapConnectFuture::TcpConnecting(_, _) => Stage::Tcp,
            ImapConnectFuture::TlsHandshake(_) => Stage::Tls,
            ImapConnectFuture::ServerGreeting(Some(_)) => Stage::Greeting,
            ImapConnectFuture::ServerGreeting(None) => Stage::Finished,
        }
    }

    /// Whether `event` can be the report of the work of the current stage.
    pub fn accepts<R, E>(&self, event: &ConnectEvent<H, T, R, E>) -> (ok: bool)
        ensures
            ok == self.stage().accepts(event@),
    {
        match self.current_stage() {
            Stage::Tcp => match event {
                ConnectEvent::Connected(_) | ConnectEvent::NotReady | ConnectEvent::Failed(_) => true,
                _ => false,
            },
            Stage::Tls => match event {
                ConnectEvent::Secured(_) | ConnectEvent::NotReady | ConnectEvent::Failed(_) => true,
                _ => false,
            },
            Stage::Greeting => match event {
                ConnectEvent::Greeting(_) | ConnectEvent::NotReady | ConnectEvent::Failed(_) => true,
                _ => false,
            },
            Stage::Finished => false,
        }
    }

    /// The host name that the peer's certificate is to be checked against,
    /// while the TCP connection is being opened.
    pub fn domain(&self) -> (domain: Option<&str>)
        ensures
            match *self {
                ImapConnectFuture::TcpConnecting(_, name) => domain matches Some(text) && text@
                    == name@,
                _ => domain is None,
            },
    {
        match self {
            ImapConnectFuture::TcpConnecting(_, name) => Some(name.as_str()),
            _ => None,
        }
    }

    /// Lends the TCP connect in flight, to be polled.
    pub fn connecting_mut(&mut self) -> (future: &mut C)
        requires
            old(self).stage() == Stage::Tcp,
        ensures
            *old(self) matches ImapConnectFuture::TcpConnecting(held, name) && *future == held
                && *final(self) == ImapConnectFuture::<C, H, T>::TcpConnecting(
                *final(future),
                name,
            ),
    {
        match self {
            ImapConnectFuture::TcpConnecting(future, _) => future,
            _ => unreached(),
        }
    }

    /// Lends the TLS handshake in flight, to be polled.
    pub fn handshake_mut(&mut self) -> (future: &mut H)
        requires
            old(self).stage() == Stage::Tls,
        ensures
            *old(self) matches ImapConnectFuture::TlsHandshake(held) && *future == held
                && *final(self) == ImapConnectFuture::<C, H, T>::TlsHandshake(*final(future)),
    {
        match self {
            ImapConnectFuture::TlsHandshake(future) => future,
            _ => unreached(),
        }
    }

    /// Lends the channel, to read the greeting from.
    pub fn transport_mut(&mut self) -> (transport: &mut T)
        requires
            old(self).stage() == Stage::Greeting,
        ensures
            *old(self) matches ImapConnectFuture::ServerGreeting(Some(held)) && *transport == held
                && *final(self) == ImapConnectFuture::<C, H, T>::ServerGreeting(
                Some(*final(transport)),
            ),
    {
        match self {
            ImapConnectFuture::ServerGreeting(Some(transport)) => transport,
            _ => unreached(),
        }
    }

    /// Takes the report of the outside work of the current stage, and says
    /// what follows.
    ///
    /// The stage and the answer are those of [`Stage::advance`].  The
    /// machine holds what the event brought; the session that the greeting
    /// completes holds the channel that the machine held; after a failure
    /// the machine holds nothing.
    pub fn advance<R, E>(&mut self, event: ConnectEvent<H, T, R, E>) -> (step: Step<
        (Client<T>, R),
        E,
    >)
        requires
            old(self).stage().accepts(event@),
        ensures
            final(self).stage() == old(self).stage().advance(event@).0,
            step.established() == old(self).stage().advance(event@).1,
            match event {
                ConnectEvent::Connected(handshake) => *final(self)
                    == ImapConnectFuture::<C, H, T>::TlsHandshake(handshake),
                ConnectEvent::Secured(transport) => *final(self) == ImapConnectFuture::<
                    C,
                    H,
                    T,
                >::ServerGreeting(Some(transport)),
                ConnectEvent::Greeting(_) => *final(self) == ImapConnectFuture::<
                    C,
                    H,
                    T,
                >::ServerGreeting(None) && (step matches Step::Return(
                    Ok(Async::Ready((client, _))),
                ) && *old(self) == ImapConnectFuture::<C, H, T>::ServerGreeting(
                    Some(client.transport()),
                )),
                ConnectEvent::NotReady => *final(self) == *old(self),
                ConnectEvent::Failed(_) => *final(self) == ImapConnectFuture::<
                    C,
                    H,
                    T,
                >::ServerGreeting(None),
            },
    {
        match event {
            ConnectEvent::Connected(handshake) => {
                *self = ImapConnectFuture::TlsHandshake(handshake);
                Step::Continue
            },
            ConnectEvent::Secured(transport) => {
                *self = ImapConnectFuture::ServerGreeting(Some(transport));
                Step::Continue
            },
            ConnectEvent::Greeting(greeting) => {
                let mut held = ImapConnectFuture::ServerGreeting(None);
                core::mem::swap(self, &mut held);
                match held {
                    ImapConnectFuture::ServerGreeting(Some(transport)) => Step::Return(
                        Ok(Async::Ready((Client::assemble(transport, ClientState::new()), greeting))),
                    ),
                    _ => unreached(),
                }
            },
            ConnectEvent::NotReady => Step::Return(Ok(Async::NotReady)),
            ConnectEvent::Failed(cause) => {
                let error = match self.current_stage() {
                    Stage::Tcp => Error::Connect(cause),
                    Stage::Tls => Error::Tls(cause),
                    _ => Error::Protocol(cause),
                };
                *self = ImapConnectFuture::ServerGreeting(None);
                Step::Return(Err(error))
            },
        }
    }
}

} // verus!
