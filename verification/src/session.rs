//! The session: a channel to the server, the protocol phase and the
//! identifier generator, owned together and handed on as one value.

use crate::tag::{tag_text, IdGenerator, RequestId};
use crate::types::{Request, State};
use imap_proto::builders::command::Command;
use vstd::prelude::*;

verus! {

/// Makes `imap_proto::builders::command::Command`, a command as that
/// crate's builder leaves it, known to the verifier as a type.  Nothing is
/// known of what a command holds.
#[verifier::external_type_specification]
#[verifier::external_body]
pub struct ExCommand(Command);

/// Takes a built command apart with
/// `imap_proto::builders::command::Command::into_parts`, which hands out the
/// two fields of the command: its encoded text and the phase that it leads
/// to, if any.  The phase comes back as this crate's [`State`], variant for
/// variant.  The body is not verified, and nothing is claimed of the result.
#[verifier::external_body]
fn command_parts(cmd: Command) -> (parts: (Vec<u8>, Option<State>)) {
    let (bytes, next) = cmd.into_parts();
    let next_state = match next {
        None => None,
        Some(imap_proto::State::NotAuthenticated) => Some(State::NotAuthenticated),
        Some(imap_proto::State::Authenticated) => Some(State::Authenticated),
        Some(imap_proto::State::Selected) => Some(State::Selected),
        Some(imap_proto::State::Logout) => Some(State::Logout),
    };
    (bytes, next_state)
}

/// What a session knows beside its channel: the protocol phase and the
/// generator of command identifiers.
pub struct ClientState {
    state: State,
    request_ids: IdGenerator,
}

/// A session's state as a plain value.
pub ghost struct SessionModel {
    /// The protocol phase.
    pub phase: State,
    /// How many identifiers the session has issued.
    pub issued: nat,
}

impl SessionModel {
    /// The state of a session that has just been opened.
    pub open spec fn fresh() -> SessionModel {
        SessionModel { phase: State::NotAuthenticated, issued: 0 }
    }

    /// The state after one more identifier has been issued.
    pub open spec fn after_issue(self) -> SessionModel {
        SessionModel { issued: self.issued + 1, ..self }
    }

    /// The state after a command that declared `next_state` has completed.
    pub open spec fn after_completion(self, next_state: Option<State>) -> SessionModel {
        match next_state {
            Some(phase) => SessionModel { phase, ..self },
            None => self,
        }
    }
}

impl View for ClientState {
    type V = SessionModel;

    closed spec fn view(&self) -> SessionModel {
        SessionModel { phase: self.state, issued: self.request_ids.issued() }
    }
}

impl ClientState {
    /// The state of a session that has just been opened.
    pub fn new() -> (fresh: Self)
        ensures
            fresh@ == SessionModel::fresh(),
    {
        Self { state: State::NotAuthenticated, request_ids: IdGenerator::new() }
    }

    /// The protocol phase.
    pub fn state(&self) -> (phase: State)
        ensures
            phase == self@.phase,
    {
        self.state
    }

    /// Enters the phase that a completed command declared, if it declared
    /// one.
    pub(crate) fn complete(&mut self, next_state: Option<State>)
        ensures
            final(self)@ == old(self)@.after_completion(next_state),
    {
        if let Some(phase) = next_state {
            self.state = phase;
        }
    }
}

impl Default for ClientState {
    fn default() -> (fresh: Self)
        ensures
            fresh@ == SessionModel::fresh(),
    {
        Self::new()
    }
}

/// A session: one channel of type `T` and the state that goes with it.
///
/// A `Client` cannot be copied.  Whoever holds it is the only one who can
/// start a command, and starting one gives the value away.
pub struct Client<T> {
    transport: T,
    state: ClientState,
}

/// A command on its way out: the channel to send it over, the request to
/// send, and what the response stream needs to recognise the end.
pub struct Outgoing<T> {
    pub transport: T,
    pub request: Request,
    pub state: ClientState,
    pub request_id: RequestId,
    pub next_state: Option<State>,
}

impl<T> Client<T> {
    /// The channel of the session.
    pub closed spec fn transport(&self) -> T {
        self.transport
    }

    /// The state of the session.
    pub closed spec fn state(&self) -> SessionModel {
        self.state@
    }

    /// Joins a channel and a state into a session.
    pub(crate) fn assemble(transport: T, state: ClientState) -> (client: Self)
        ensures
            client.transport() == transport,
            client.state() == state@,
    {
        Client { transport, state }
    }

    /// The protocol phase of the session.
    pub fn phase(&self) -> (phase: State)
        ensures
            phase == self.state().phase,
    {
        self.state.state()
    }

    /// Starts a command: gives the session away, issues the next identifier
    /// and pairs it with the encoded command.
    ///
    /// `next_state` is the phase that the session enters when the command
    /// has completed; with `None` the phase stays.
    pub fn dispatch(self, cmd_bytes: Vec<u8>, next_state: Option<State>) -> (out: Outgoing<T>)
        ensures
            out.transport == self.transport(),
            out.request.0@ == tag_text(self.state().issued + 1),
            out.request.1 == cmd_bytes,
            out.request_id@ == out.request.0@,
            out.state@ == self.state().after_issue(),
            out.next_state == next_state,
    {
        let Client { transport, mut state } = self;
        let request_id = state.request_ids.next().unwrap();
        let request = Request(request_id.clone(), cmd_bytes);
        Outgoing { transport, request, state, request_id, next_state }
    }

    /// Starts a command that was built with `imap_proto`'s command builder.
    ///
    /// The encoded text and the phase that follows are whatever the built
    /// command holds; everything else is as [`Client::dispatch`] says.
    pub fn call(self, cmd: Command) -> (out: Outgoing<T>)
        ensures
            out.transport == self.transport(),
            out.request.0@ == tag_text(self.state().issued + 1),
            out.request_id@ == out.request.0@,
            out.state@ == self.state().after_issue(),
    {
        let (cmd_bytes, next_state) = command_parts(cmd);
        self.dispatch(cmd_bytes, next_state)
    }
}

} // verus!
