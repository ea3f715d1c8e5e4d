//! The stream of responses to one command.
//!
//! A [`ResponseStream`] holds the session while its command is in flight.
//! It does no input or output itself.  Its driver asks what the stream
//! [`wants`](ResponseStream::wants), does that piece of outside work on the
//! resource the stream lends, and reports what happened as an [`Event`];
//! [`advance`](ResponseStream::advance) then says whether to go on at once
//! or what the poll returns.

use crate::session::{Client, ClientState, SessionModel};
use crate::tag::RequestId;
use crate::types::{Async, Error, State, Step, StreamEvent};
use vstd::prelude::*;

verus! {

/// The outside work that a stream is waiting for.
#[derive(Clone, Copy, Debug, PartialEq, Eq, Structural)]
pub enum Wants {
    /// The command is still being sent: poll the send.
    Send,
    /// The command is out and not yet completed: read one frame.
    Read,
    /// The completing frame has been delivered: no outside work, the next
    /// step hands the session back.
    Finish,
    /// The stream has ended or failed: no outside work, nothing follows.
    Nothing,
}

/// What the driver reports to a stream.
pub enum Event<T, R, E> {
    /// No outside work was due.
    Polled,
    /// The send has completed and gave the channel back.
    Sent(T),
    /// The channel produced a frame, which carries this identifier or none.
    Frame(R, Option<RequestId>),
    /// The channel has ended.
    Closed,
    /// The outside work has not finished yet.
    NotReady,
    /// The outside work failed with this cause.
    Failed(E),
}

/// An [`Event`] without the resources it moves.
pub ghost enum Input<R, E> {
    Polled,
    Sent,
    Frame(R, Option<Seq<char>>),
    Closed,
    NotReady,
    Failed(E),
}

impl<T, R, E> View for Event<T, R, E> {
    type V = Input<R, E>;

    open spec fn view(&self) -> Input<R, E> {
        match *self {
            Event::Polled => Input::Polled,
            Event::Sent(_) => Input::Sent,
            Event::Frame(frame, id) => Input::Frame(
                frame,
                match id {
                    Some(tag) => Some(tag@),
                    None => None,
                },
            ),
            Event::Closed => Input::Closed,
            Event::NotReady => Input::NotReady,
            Event::Failed(cause) => Input::Failed(cause),
        }
    }
}

impl<T, R, E> Step<StreamEvent<R, Client<T>>, E> {
    /// The step with the state of the session in place of the session.
    pub open spec fn outcome(self) -> Step<StreamEvent<R, SessionModel>, E> {
        match self {
            Step::Continue => Step::Continue,
            Step::Return(Ok(Async::NotReady)) => Step::Return(Ok(Async::NotReady)),
            Step::Return(Ok(Async::Ready(StreamEvent::Next(frame)))) => Step::Return(
                Ok(Async::Ready(StreamEvent::Next(frame))),
            ),
            Step::Return(Ok(Async::Ready(StreamEvent::Done(client)))) => Step::Return(
                Ok(Async::Ready(StreamEvent::Done(client.state()))),
            ),
            Step::Return(Err(error)) => Step::Return(Err(error)),
        }
    }
}

/// The protocol state of a response stream.
pub ghost struct StreamModel {
    /// The command is still being sent.
    pub sending: bool,
    /// The stream holds the channel.
    pub open: bool,
    /// The state of the session, until it has been handed back.
    pub state: Option<SessionModel>,
    /// The identifier of the command.
    pub request_id: Seq<char>,
    /// The phase that the session enters when the command completes.
    pub next_state: Option<State>,
    /// The completing frame has been delivered.
    pub done: bool,
}

impl StreamModel {
    /// A stream whose command has just been handed to the channel.
    pub open spec fn begin(
        state: SessionModel,
        request_id: Seq<char>,
        next_state: Option<State>,
    ) -> StreamModel {
        StreamModel {
            sending: true,
            open: false,
            state: Some(state),
            request_id,
            next_state,
            done: false,
        }
    }

    /// What holds of every stream: while the send is in flight the channel
    /// is away and nothing has completed, and as long as the stream holds the
    /// send or the channel it holds the session's state.
    pub open spec fn wf(self) -> bool {
        &&& self.sending ==> !self.open && !self.done
        &&& self.sending || self.open ==> self.state.is_some()
    }

    /// The outside work that the stream is waiting for.
    pub open spec fn wants(self) -> Wants {
        if self.sending {
            Wants::Send
        } else if !self.open {
            Wants::Nothing
        } else if self.done {
            Wants::Finish
        } else {
            Wants::Read
        }
    }

    /// Whether `input` can be the report of the work that the stream is
    /// waiting for.
    pub open spec fn accepts<R, E>(self, input: Input<R, E>) -> bool {
        match self.wants() {
            Wants::Send => input is Sent || input is NotReady || input is Failed,
            Wants::Read => input is Frame || input is Closed || input is NotReady
                || input is Failed,
            Wants::Finish | Wants::Nothing => input is Polled,
        }
    }

    /// The state after `input`, and the answer to it.
    ///
    /// While the command is being sent, completion moves on to reading at
    /// once and a failure aborts.  While reading, every frame is delivered;
    /// the one that carries the command's identifier marks the stream as
    /// done, so that the step after it hands the session back, in the phase
    /// that the command declared.  A channel that has ended counts as not
    /// ready.  After the session has been handed back, or after a failure,
    /// nothing is ever ready again.
    pub open spec fn advance<R, E>(self, input: Input<R, E>) -> (StreamModel, Step<StreamEvent<R, SessionModel>, E>) {
        match (self.wants(), input) {
            (Wants::Send, Input::Sent) => (
                StreamModel { sending: false, open: true, ..self },
                Step::Continue,
            ),
            (Wants::Send, Input::Failed(cause)) => (
                StreamModel { sending: false, ..self },
                Step::Return(Err(Error::StreamAborted(cause))),
            ),
            (Wants::Read, Input::Frame(frame, id)) => (
                StreamModel { done: id == Some(self.request_id), ..self },
                Step::Return(Ok(Async::Ready(StreamEvent::Next(frame)))),
            ),
            (Wants::Read, Input::Failed(cause)) => (
                StreamModel { open: false, ..self },
                Step::Return(Err(Error::StreamAborted(cause))),
            ),
            (Wants::Finish, Input::Polled) => (
                StreamModel { open: false, state: None, next_state: None, ..self },
                Step::Return(
                    Ok(
                        Async::Ready(
                            StreamEvent::Done(
                                self.state.unwrap().after_completion(self.next_state),
                            ),
                        ),
                    ),
                ),
            ),
            _ => (self, Step::Return(Ok(Async::NotReady))),
        }
    }
}

/// The responses to one command, and at their end the session.
///
/// `S` is the send in flight, which owns the channel until it completes;
/// `T` is the channel.
pub struct ResponseStream<S, T> {
    future: Option<S>,
    transport: Option<T>,
    state: Option<ClientState>,
    request_id: RequestId,
    next_state: Option<State>,
    done: bool,
}

impl<S, T> View for ResponseStream<S, T> {
    type V = StreamModel;

    closed spec fn view(&self) -> StreamModel {
        StreamModel {
            sending: self.future.is_some(),
            open: self.transport.is_some(),
            state: match self.state {
                Some(state) => Some(state@),
                None => None,
            },
            request_id: self.request_id@,
            next_state: self.next_state,
            done: self.done,
        }
    }
}

impl<S, T> ResponseStream<S, T> {
    /// The send in flight, while there is one.
    pub closed spec fn future(&self) -> Option<S> {
        self.future
    }

    /// The channel, while the stream holds it.
    pub closed spec fn transport(&self) -> Option<T> {
        self.transport
    }

    /// The protocol state says which resources the stream holds.
    pub proof fn lemma_holds(&self)
        ensures
            self@.sending == self.future().is_some(),
            self@.open == self.transport().is_some(),
    {
    }

    /// The stream of a command whose send has just been started.
    pub fn new(
        future: S,
        state: ClientState,
        request_id: RequestId,
        next_state: Option<State>,
    ) -> (stream: Self)
        ensures
            stream@ == StreamModel::begin(state@, request_id@, next_state),
            stream@.wf(),
            stream.future() == Some(future),
            stream.transport().is_none(),
    {
        Self {
            future: Some(future),
            transport: None,
            state: Some(state),
            request_id,
            next_state,
            done: false,
        }
    }

    /// The outside work that the stream is waiting for.
    pub fn wants(&self) -> (wants: Wants)
        ensures
            wants == self@.wants(),
    {
        if self.future.is_some() {
            Wants::Send
        } else if self.transport.is_none() {
            Wants::Nothing
        } else if self.done {
            Wants::Finish
        } else {
            Wants::Read
        }
    }

    /// Whether `event` can be the report of the work that the stream is
    /// waiting for.
    pub fn accepts<R, E>(&self, event: &Event<T, R, E>) -> (ok: bool)
        ensures
            ok == self@.accepts(event@),
    {
        match self.wants() {
            Wants::Send => match event {
                Event::Sent(_) | Event::NotReady | Event::Failed(_) => true,
                _ => false,
            },
            Wants::Read => match event {
                Event::Frame(_, _) | Event::Closed | Event::NotReady | Event::Failed(_) => true,
                _ => false,
            },
            Wants::Finish | Wants::Nothing => match event {
                Event::Polled => true,
                _ => false,
            },
        }
    }

    /// Lends the send in flight, to be polled.
    pub fn future_mut(&mut self) -> (future: &mut S)
        requires
            old(self)@.wants() == Wants::Send,
        ensures
            Some(*future) == old(self).future(),
            final(self).future() == Some(*final(future)),
            final(self).transport() == old(self).transport(),
            final(self)@ == old(self)@,
    {
        self.future.as_mut().unwrap()
    }

    /// Lends the channel, to read one frame from.
    pub fn transport_mut(&mut self) -> (transport: &mut T)
        requires
            old(self)@.wants() == Wants::Read,
        ensures
            Some(*transport) == old(self).transport(),
            final(self).transport() == Some(*final(transport)),
            final(self).future() == old(self).future(),
            final(self)@ == old(self)@,
    {
        self.transport.as_mut().unwrap()
    }

    /// Takes the report of the outside work that the stream was waiting
    /// for, and says what follows.
    ///
    /// The protocol state and the answer are those of
    /// [`StreamModel::advance`].  The channel that a completed send gives
    /// back is the one that the stream holds from then on, and the one that
    /// the session holds when the stream hands it back.  A failure drops the
    /// channel and the send.
    pub fn advance<R, E>(&mut self, event: Event<T, R, E>) -> (step: Step<StreamEvent<R, Client<T>>, E>)
        requires
            old(self)@.wf(),
            old(self)@.accepts(event@),
        ensures
            final(self)@.wf(),
            final(self)@ == old(self)@.advance(event@).0,
            step.outcome() == old(self)@.advance(event@).1,
            step matches Step::Return(Ok(Async::Ready(StreamEvent::Done(client)))) ==> Some(
                client.transport(),
            ) == old(self).transport(),
            final(self).future() == match event {
                Event::Sent(_) | Event::Failed(_) => None,
                _ => old(self).future(),
            },
            final(self).transport() == match event {
                Event::Sent(transport) => Some(transport),
                Event::Failed(_) | Event::Polled => None,
                _ => old(self).transport(),
            },
    {
        match event {
            Event::Sent(transport) => {
                self.future = None;
                self.transport = Some(transport);
                Step::Continue
            },
            Event::Failed(cause) => {
                self.future = None;
                self.transport = None;
                Step::Return(Err(Error::StreamAborted(cause)))
            },
            Event::Frame(frame, id) => {
                self.done = match id {
                    Some(tag) => tag == self.request_id,
                    None => false,
                };
                Step::Return(Ok(Async::Ready(StreamEvent::Next(frame))))
            },
            Event::Closed | Event::NotReady => Step::Return(Ok(Async::NotReady)),
            Event::Polled => {
                if self.transport.is_none() {
                    Step::Return(Ok(Async::NotReady))
                } else {
                    let transport = self.transport.take().unwrap();
                    let mut state = self.state.take().unwrap();
                    state.complete(self.next_state.take());
                    Step::Return(Ok(Async::Ready(StreamEvent::Done(Client::assemble(transport, state)))))
                }
            },
        }
    }
}

} // verus!
