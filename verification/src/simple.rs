//! A smaller client: it keeps the server's greeting with the session, and
//! the one command it knows is a login under a fixed identifier.
//!
//! Connections are opened through the same stages as in
//! [`connect`](crate::connect), reported with the same events; the greeting
//! is text here and ends up inside the session.

use crate::connect::{ConnectEvent, ConnectInput, Stage};
use crate::types::{Async, Error, State, Step};
use vstd::pervasive::unreached;
use vstd::prelude::*;
use vstd::string::*;

verus! {

/// What a session knows beside its channel: the protocol phase and the
/// greeting that the server opened with.
pub struct ClientState {
    state: State,
    server_greeting: String,
}

/// The state of a session as a plain value.
pub ghost struct GreetedModel {
    /// The protocol phase.
    pub phase: State,
    /// The server's greeting.
    pub greeting: Seq<char>,
}

impl View for ClientState {
    type V = GreetedModel;

    closed spec fn view(&self) -> GreetedModel {
        GreetedModel { phase: self.state, greeting: self.server_greeting@ }
    }
}

/// A session: one channel of type `T`, the phase and the greeting.
pub struct Client<T> {
    transport: T,
    state: ClientState,
}

/// A login on its way out: the channel to send it over, the line to send,
/// and the state that the session resumes with.
pub struct LoginRequest<T> {
    pub transport: T,
    pub message: String,
    pub state: ClientState,
}

/// The text that names `server` and the IMAPS port, as a resolver takes it.
pub open spec fn socket_address_text(server: Seq<char>) -> Seq<char> {
    server + ":993"@
}

/// The line that logs `account` in with `password`.
pub open spec fn login_text(account: Seq<char>, password: Seq<char>) -> Seq<char> {
    "a001 LOGIN "@ + account + " "@ + password
}

/// The text that names `server` and the IMAPS port, as a resolver takes it.
pub fn socket_address(server: &str) -> (text: String)
    ensures
        text@ == socket_address_text(server@),
{
    let mut text = String::from_str(server);
    text.append(":993");
    text
}

impl<T> Client<T> {
    /// The channel of the session.
    pub closed spec fn transport(&self) -> T {
        self.transport
    }

    /// The state of the session.
    pub closed spec fn state(&self) -> GreetedModel {
        self.state@
    }

    /// Starts to open a session with `server`, over the TCP connect
    /// `connecting` that is in flight to its address.
    pub fn connect<C, H>(server: &str, connecting: C) -> (machine: ConnectFuture<C, H, T>)
        ensures
            machine matches ConnectFuture::TcpConnecting(future, domain) && future == connecting
                && domain@ == server@,
    {
        ConnectFuture::TcpConnecting(connecting, String::from_str(server))
    }

    /// Starts a login: gives the session away and forms the line to send.
    pub fn login(self, account: &str, password: &str) -> (out: LoginRequest<T>)
        ensures
            out.transport == self.transport(),
            out.message@ == login_text(account@, password@),
            out.state@ == self.state(),
    {
        let Client { transport, state } = self;
        let mut message = String::from_str("a001 LOGIN ");
        message.append(account);
        message.append(" ");
        message.append(password);
        assert(message@ =~= login_text(account@, password@));
        LoginRequest { transport, message, state }
    }

    /// The greeting that the server opened the session with.
    pub fn server_greeting(&self) -> (greeting: &str)
        ensures
            greeting@ == self.state().greeting,
    {
        self.state.server_greeting.as_str()
    }

    /// The protocol phase of the session.
    pub fn phase(&self) -> (phase: State)
        ensures
            phase == self.state().phase,
    {
        self.state.state
    }
}

impl<T, E> Step<Client<T>, E> {
    /// The step with the state of the session in place of the session.
    pub open spec fn greeted(self) -> Step<GreetedModel, E> {
        match self {
            Step::Continue => Step::Continue,
            Step::Return(Ok(Async::NotReady)) => Step::Return(Ok(Async::NotReady)),
            Step::Return(Ok(Async::Ready(client))) => Step::Return(
                Ok(Async::Ready(client.state())),
            ),
            Step::Return(Err(error)) => Step::Return(Err(error)),
        }
    }
}

/// The answer of the connection machine of [`connect`](crate::connect),
/// with the greeting moved into the session and the identifier count
/// dropped.
pub open spec fn keep_greeting<E>(step: Step<(crate::session::SessionModel, String), E>) -> Step<
    GreetedModel,
    E,
> {
    match step {
        Step::Continue => Step::Continue,
        Step::Return(Ok(Async::NotReady)) => Step::Return(Ok(Async::NotReady)),
        Step::Return(Ok(Async::Ready((session, greeting)))) => Step::Return(
            Ok(Async::Ready(GreetedModel { phase: session.phase, greeting: greeting@ })),
        ),
        Step::Return(Err(error)) => Step::Return(Err(error)),
    }
}

/// A connection that is being opened.
///
/// `C` is the TCP connect in flight, `H` the TLS handshake in flight and
/// `T` the framed channel.  `ServerGreeting(None)` is a machine that has
/// given its channel away or has failed.
pub enum ConnectFuture<C, H, T> {
    /// The TCP connection is being opened; the text is the host name that
    /// the peer's certificate will be checked against.
    TcpConnecting(C, String),
    /// The TLS handshake is under way.
    TlsHandshake(H),
    /// The channel is framed and the server's greeting is awaited.
    ServerGreeting(Option<T>),
}

impl<C, H, T> ConnectFuture<C, H, T> {
    /// The stage that the machine is in.
    pub open spec fn stage(&self) -> Stage {
        match *self {
            ConnectFuture::TcpConnecting(_, _) => Stage::Tcp,
            ConnectFuture::TlsHandshake(_) => Stage::Tls,
            ConnectFuture::ServerGreeting(Some(_)) => Stage::Greeting,
            ConnectFuture::ServerGreeting(None) => Stage::Finished,
        }
    }

    /// The stage that the machine is in.
    pub fn current_stage(&self) -> (stage: Stage)
        ensures
            stage == self.stage(),
    {
        match self {
            ConnectFuture::TcpConnecting(_, _) => Stage::Tcp,
            ConnectFuture::TlsHandshake(_) => Stage::Tls,
            ConnectFuture::ServerGreeting(Some(_)) => Stage::Greeting,
            ConnectFuture::ServerGreeting(None) => Stage::Finished,
        }
    }

    /// Whether `event` can be the report of the work of the current stage.
    pub fn accepts<E>(&self, event: &ConnectEvent<H, T, String, E>) -> (ok: bool)
        ensures
            ok == self.stage().accepts(event@),
    {
        match self.current_stage() {
            Stage::Tcp => match event {
                ConnectEvent::Connected(_) | ConnectEvent::NotReady | ConnectEvent::Failed(_) => true,
                _ => false,
            },
            Stage::Tls => match event {
                ConnectEvent::Secured(_) | ConnectEvent::NotReady | ConnectEvent::Failed(_) => true,
                _ => false,
            },
            Stage::Greeting => match event {
                ConnectEvent::Greeting(_) | ConnectEvent::NotReady | ConnectEvent::Failed(_) => true,
                _ => false,
            },
            Stage::Finished => false,
        }
    }

    /// The host name that the peer's certificate is to be checked against,
    /// while the TCP connection is being opened.
    pub fn domain(&self) -> (domain: Option<&str>)
        ensures
            match *self {
                ConnectFuture::TcpConnecting(_, name) => domain matches Some(text) && text@
                    == name@,
                _ => domain is None,
            },
    {
        match self {
            ConnectFuture::TcpConnecting(_, name) => Some(name.as_str()),
            _ => None,
        }
    }

    /// Lends the TCP connect in flight, to be polled.
    pub fn connecting_mut(&mut self) -> (future: &mut C)
        requires
            old(self).stage() == Stage::Tcp,
        ensures
            *old(self) matches ConnectFuture::TcpConnecting(held, name) && *future == held
                && *final(self) == ConnectFuture::<C, H, T>::TcpConnecting(*final(future), name),
    {
        match self {
            ConnectFuture::TcpConnecting(future, _) => future,
            _ => unreached(),
        }
    }

    /// Lends the TLS handshake in flight, to be polled.
    pub fn handshake_mut(&mut self) -> (future: &mut H)
        requires
            old(self).stage() == Stage::Tls,
        ensures
            *old(self) matches ConnectFuture::TlsHandshake(held) && *future == held && *final(self)
                == ConnectFuture::<C, H, T>::TlsHandshake(*final(future)),
    {
        match self {
            ConnectFuture::TlsHandshake(future) => future,
            _ => unreached(),
        }
    }

    /// Lends the channel, to read the greeting from.
    pub fn transport_mut(&mut self) -> (transport: &mut T)
        requires
            old(self).stage() == Stage::Greeting,
        ensures
            *old(self) matches ConnectFuture::ServerGreeting(Some(held)) && *transport == held
                && *final(self) == ConnectFuture::<C, H, T>::ServerGreeting(
                Some(*final(transport)),
            ),
    {
        match self {
            ConnectFuture::ServerGreeting(Some(transport)) => transport,
            _ => unreached(),
        }
    }

    /// Takes the report of the outside work of the current stage, and says
    /// what follows.
    ///
    /// The stage and the answer are those of [`Stage::advance`], with the
    /// greeting kept in the session.  The machine holds what the event
    /// brought; the session that the greeting completes holds the channel
    /// that the machine held; after a failure the machine holds nothing.
    pub fn advance<E>(&mut self, event: ConnectEvent<H, T, String, E>) -> (step: Step<Client<T>, E>)
        requires
            old(self).stage().accepts(event@),
        ensures
            final(self).stage() == old(self).stage().advance(event@).0,
            step.greeted() == keep_greeting(old(self).stage().advance(event@).1),
            match event {
                ConnectEvent::Connected(handshake) => *final(self) == ConnectFuture::<
                    C,
                    H,
                    T,
                >::TlsHandshake(handshake),
                ConnectEvent::Secured(transport) => *final(self) == ConnectFuture::<
                    C,
                    H,
                    T,
                >::ServerGreeting(Some(transport)),
                ConnectEvent::Greeting(_) => *final(self) == ConnectFuture::<
                    C,
                    H,
                    T,
                >::ServerGreeting(None) && (step matches Step::Return(Ok(Async::Ready(client)))
                    && *old(self) == ConnectFuture::<C, H, T>::ServerGreeting(
                    Some(client.transport()),
                )),
                ConnectEvent::NotReady => *final(self) == *old(self),
                ConnectEvent::Failed(_) => *final(self) == ConnectFuture::<
                    C,
                    H,
                    T,
                >::ServerGreeting(None),
            },
    {
        match event {
            ConnectEvent::Connected(handshake) => {
                *self = ConnectFuture::TlsHandshake(handshake);
                Step::Continue
            },
            ConnectEvent::Secured(transport) => {
                *self = ConnectFuture::ServerGreeting(Some(transport));
                Step::Continue
            },
            ConnectEvent::Greeting(greeting) => {
                let mut held = ConnectFuture::ServerGreeting(None);
                core::mem::swap(self, &mut held);
                match held {
                    ConnectFuture::ServerGreeting(Some(transport)) => Step::Return(
                        Ok(
                            Async::Ready(
                                Client {
                                    transport,
                                    state: ClientState {
                                        state: State::NotAuthenticated,
                                        server_greeting: greeting,
                                    },
                                },
                            ),
                        ),
                    ),
                    _ => unreached(),
                }
            },
            ConnectEvent::NotReady => Step::Return(Ok(Async::NotReady)),
            ConnectEvent::Failed(cause) => {
                let error = match self.current_stage() {
                    Stage::Tcp => Error::Connect(cause),
                    Stage::Tls => Error::Tls(cause),
                    _ => Error::Protocol(cause),
                };
                *self = ConnectFuture::ServerGreeting(None);
                Step::Return(Err(error))
            },
        }
    }
}

/// What the driver reports to a login in flight.
pub enum LoginEvent<T, E> {
    /// The send has completed and gave the channel back.
    Sent(T),
    /// The send has not finished yet.
    NotReady,
    /// The send failed with this cause.
    Failed(E),
}

/// A [`LoginEvent`] without the channel it moves.
pub ghost enum LoginInput<E> {
    Sent,
    NotReady,
    Failed(E),
}

impl<T, E> View for LoginEvent<T, E> {
    type V = LoginInput<E>;

    open spec fn view(&self) -> LoginInput<E> {
        match *self {
            LoginEvent::Sent(_) => LoginInput::Sent,
            LoginEvent::NotReady => LoginInput::NotReady,
            LoginEvent::Failed(cause) => LoginInput::Failed(cause),
        }
    }
}

/// The answer of a login in flight that holds the state `held` to `input`:
/// when the line is out the session resumes, authenticated and with the
/// greeting it had; a failure aborts and leaves no session.
pub open spec fn login_answer<E>(held: GreetedModel, input: LoginInput<E>) -> Step<
    GreetedModel,
    E,
> {
    match input {
        LoginInput::Sent => Step::Return(
            Ok(Async::Ready(GreetedModel { phase: State::Authenticated, ..held })),
        ),
        LoginInput::NotReady => Step::Return(Ok(Async::NotReady)),
        LoginInput::Failed(cause) => Step::Return(Err(Error::StreamAborted(cause))),
    }
}

/// A login in flight.  `S` is the send, which owns the channel until it
/// completes.
pub struct LoginFuture<S> {
    future: S,
    clst: Option<ClientState>,
}

impl<S> LoginFuture<S> {
    /// The send in flight.
    pub closed spec fn future(&self) -> S {
        self.future
    }

    /// The state that the session resumes with, until the login has
    /// completed or failed.
    pub closed spec fn held(&self) -> Option<GreetedModel> {
        match self.clst {
            Some(state) => Some(state@),
            None => None,
        }
    }

    /// The login whose line has just been handed to the channel as `future`.
    pub fn new(future: S, state: ClientState) -> (login: Self)
        ensures
            login.future() == future,
            login.held() == Some(state@),
    {
        LoginFuture { future, clst: Some(state) }
    }

    /// Whether the login is still in flight and takes a report.
    pub fn pending(&self) -> (pending: bool)
        ensures
            pending == self.held().is_some(),
    {
        self.clst.is_some()
    }

    /// Lends the send in flight, to be polled.
    pub fn future_mut(&mut self) -> (future: &mut S)
        ensures
            *future == old(self).future(),
            final(self).future() == *final(future),
            final(self).held() == old(self).held(),
    {
        &mut self.future
    }

    /// Takes the report of the send, and says what the poll returns: the
    /// answer of [`login_answer`].  The session that resumes holds the
    /// channel that the send gave back.  Only "not ready" leaves the login
    /// in flight.
    pub fn advance<T, E>(&mut self, event: LoginEvent<T, E>) -> (step: Step<Client<T>, E>)
        requires
            old(self).held().is_some(),
        ensures
            step.greeted() == login_answer(old(self).held().unwrap(), event@),
            final(self).future() == old(self).future(),
            final(self).held() == if event is NotReady {
                old(self).held()
            } else {
                None
            },
            event matches LoginEvent::Sent(transport) ==> (step matches Step::Return(
                Ok(Async::Ready(client)),
            ) && client.transport() == transport),
    {
        match event {
            LoginEvent::Sent(transport) => {
                let mut state = self.clst.take().unwrap();
                state.state = State::Authenticated;
                Step::Return(Ok(Async::Ready(Client { transport, state })))
            },
            LoginEvent::NotReady => Step::Return(Ok(Async::NotReady)),
            LoginEvent::Failed(cause) => {
                self.clst = None;
                Step::Return(Err(Error::StreamAborted(cause)))
            },
        }
    }
}

} // verus!
