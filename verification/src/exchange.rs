//! What holds of whole exchanges: the answers of a response stream to a
//! sequence of reports, taken together.

use crate::response::{Input, StreamModel, Wants};
use crate::session::SessionModel;
use crate::types::{Async, Error, State, Step, StreamEvent};
use vstd::prelude::*;

verus! {

/// The answer that ends a poll without anything to deliver.
pub open spec fn not_ready<R, E>() -> Step<StreamEvent<R, SessionModel>, E> {
    Step::Return(Ok(Async::NotReady))
}

/// The answer that delivers `frame`.
pub open spec fn next<R, E>(frame: R) -> Step<StreamEvent<R, SessionModel>, E> {
    Step::Return(Ok(Async::Ready(StreamEvent::Next(frame))))
}

/// The answer that hands the session back in state `state`.
pub open spec fn done<R, E>(state: SessionModel) -> Step<StreamEvent<R, SessionModel>, E> {
    Step::Return(Ok(Async::Ready(StreamEvent::Done(state))))
}

/// The answer that aborts the stream with `cause`.
pub open spec fn aborted<R, E>(cause: E) -> Step<StreamEvent<R, SessionModel>, E> {
    Step::Return(Err(Error::StreamAborted(cause)))
}

/// What a stream that is reading answers to a report that does not
/// complete its command: the frame, if the report brings one, and else
/// that nothing is ready.
pub open spec fn passed<R, E>(input: Input<R, E>) -> Step<StreamEvent<R, SessionModel>, E> {
    match input {
        Input::Frame(frame, _) => next(frame),
        _ => not_ready(),
    }
}

impl StreamModel {
    /// The state after the reports `inputs`, one after the other, and the
    /// answers to them in the same order.
    pub open spec fn run<R, E>(self, inputs: Seq<Input<R, E>>) -> (
        StreamModel,
        Seq<Step<StreamEvent<R, SessionModel>, E>>,
    )
        decreases inputs.len(),
    {
        if inputs.len() == 0 {
            (self, Seq::empty())
        } else {
            let first = self.advance(inputs[0]);
            let rest = first.0.run(inputs.drop_first());
            (rest.0, seq![first.1] + rest.1)
        }
    }

    /// Whether each of `inputs` is a report that the stream accepts when
    /// its turn comes.
    pub open spec fn admits<R, E>(self, inputs: Seq<Input<R, E>>) -> bool
        decreases inputs.len(),
    {
        inputs.len() == 0 || (self.accepts(inputs[0]) && self.advance(inputs[0]).0.admits(
            inputs.drop_first(),
        ))
    }

    /// Whether `input` is a report of a read that does not complete the
    /// command: no frame yet, the end of the channel, or a frame that does
    /// not carry the command's identifier.
    pub open spec fn quiet<R, E>(self, input: Input<R, E>) -> bool {
        match input {
            Input::Frame(_, id) => id != Some(self.request_id),
            Input::Closed | Input::NotReady => true,
            _ => false,
        }
    }
}

/// Every step keeps a stream well formed.
pub proof fn lemma_advance_keeps_wf<R, E>(m: StreamModel, input: Input<R, E>)
    requires
        m.wf(),
    ensures
        m.advance(input).0.wf(),
{
}

/// What each answer means.  A stream goes on at once only when its send
/// has completed; it delivers a frame only when a read brought that frame;
/// it fails only when the outside work failed; it hands the session back
/// only when it was waiting to finish; and it comes to wait for that only by
/// delivering a frame that carries its command's identifier.
pub proof fn lemma_answers<R, E>(m: StreamModel, input: Input<R, E>)
    requires
        m.wf(),
        m.accepts(input),
    ensures
        m.advance(input).1 is Continue <==> m.wants() == Wants::Send && input is Sent,
        forall|frame: R|
            m.advance(input).1 == next::<R, E>(frame) <==> m.wants() == Wants::Read && input is Frame
                && input->Frame_0 == frame,
        forall|cause: E|
            m.advance(input).1 == aborted::<R, E>(cause) <==> input == Input::<R, E>::Failed(cause),
        m.advance(input).1 matches Step::Return(Ok(Async::Ready(StreamEvent::Done(_))))
            <==> m.wants() == Wants::Finish,
        m.advance(input).0.wants() == Wants::Finish <==> m.wants() == Wants::Read && input is Frame
            && input->Frame_1 == Some(m.request_id),
{
}

/// Running a single report is taking one step.
pub proof fn lemma_run_one<R, E>(m: StreamModel, input: Input<R, E>)
    ensures
        m.run(seq![input]).0 == m.advance(input).0,
        m.run(seq![input]).1 == seq![m.advance(input).1],
        m.admits(seq![input]) == m.accepts(input),
{
    let one = seq![input];
    let after = m.advance(input).0;
    assert(one[0] == input);
    assert(one.drop_first() =~= Seq::<Input<R, E>>::empty());
    assert(after.run(one.drop_first()).0 == after);
    assert(after.run(one.drop_first()).1 =~= Seq::<Step<StreamEvent<R, SessionModel>, E>>::empty());
    assert(after.admits(one.drop_first()));
    assert(m.run(one).1 =~= seq![m.advance(input).1]);
}

/// Running two sequences of reports one after the other is running their
/// concatenation.
pub proof fn lemma_run_append<R, E>(m: StreamModel, a: Seq<Input<R, E>>, b: Seq<Input<R, E>>)
    ensures
        m.run(a + b).0 == m.run(a).0.run(b).0,
        m.run(a + b).1 == m.run(a).1 + m.run(a).0.run(b).1,
        m.admits(a + b) == (m.admits(a) && m.run(a).0.admits(b)),
    decreases a.len(),
{
    if a.len() == 0 {
        assert(a + b =~= b);
        assert(m.run(a).1 + m.run(b).1 =~= m.run(b).1);
    } else {
        let first = m.advance(a[0]);
        assert((a + b)[0] == a[0]);
        assert((a + b).drop_first() =~= a.drop_first() + b);
        lemma_run_append(first.0, a.drop_first(), b);
        assert(seq![first.1] + (first.0.run(a.drop_first()).1 + m.run(a).0.run(b).1) =~= (seq![
            first.1,
        ] + first.0.run(a.drop_first()).1) + m.run(a).0.run(b).1);
    }
}

/// Frames pass in order.  A stream that is reading answers each report
/// that does not complete its command with exactly the frame that the
/// report brought, or with "not ready" where it brought none, and stays as
/// it was: nothing is held back, dropped, repeated or reordered.
pub proof fn lemma_quiet_reads_pass<R, E>(m: StreamModel, reads: Seq<Input<R, E>>)
    requires
        m.wants() == Wants::Read,
        forall|i: int| 0 <= i < reads.len() ==> m.quiet(#[trigger] reads[i]),
    ensures
        m.admits(reads),
        m.run(reads).0 == m,
        m.run(reads).1 == Seq::new(reads.len(), |i: int| passed(reads[i])),
    decreases reads.len(),
{
    if reads.len() == 0 {
        assert(m.run(reads).1 =~= Seq::new(reads.len(), |i: int| passed(reads[i])));
    } else {
        let rest = reads.drop_first();
        assert(m.quiet(reads[0]));
        assert(m.advance(reads[0]).0 == m);
        assert(m.advance(reads[0]).1 == passed(reads[0]));
        assert forall|i: int| 0 <= i < rest.len() implies m.quiet(#[trigger] rest[i]) by {
            assert(rest[i] == reads[i + 1]);
        }
        lemma_quiet_reads_pass(m, rest);
        assert(m.run(reads).1 =~= Seq::new(reads.len(), |i: int| passed(reads[i])));
    }
}

/// Once a stream wants nothing, nothing follows.  However often it is
/// polled, it answers "not ready" and stays as it was; in particular it
/// never hands out a session.
pub proof fn lemma_nothing_follows<R, E>(m: StreamModel, inputs: Seq<Input<R, E>>)
    requires
        m.wants() == Wants::Nothing,
        m.admits(inputs),
    ensures
        m.run(inputs).0 == m,
        m.run(inputs).1 == Seq::new(inputs.len(), |i: int| not_ready::<R, E>()),
    decreases inputs.len(),
{
    if inputs.len() == 0 {
        assert(m.run(inputs).1 =~= Seq::new(inputs.len(), |i: int| not_ready::<R, E>()));
    } else {
        assert(m.accepts(inputs[0]));
        assert(m.advance(inputs[0]).0 == m);
        lemma_nothing_follows(m, inputs.drop_first());
        assert(m.run(inputs).1 =~= Seq::new(inputs.len(), |i: int| not_ready::<R, E>()));
    }
}

/// A failure ends the stream without a session.  Whether the send fails or
/// a read, the stream answers with the cause, wrapped as a stream abort, and
/// wants nothing from then on: every later poll answers "not ready".
pub proof fn lemma_failure_discards_session<R, E>(
    m: StreamModel,
    cause: E,
    later: Seq<Input<R, E>>,
)
    requires
        m.wf(),
        m.wants() == Wants::Send || m.wants() == Wants::Read,
        m.advance(Input::<R, E>::Failed(cause)).0.admits(later),
    ensures
        m.accepts(Input::<R, E>::Failed(cause)),
        m.advance(Input::<R, E>::Failed(cause)).1 == aborted::<R, E>(cause),
        m.advance(Input::<R, E>::Failed(cause)).0.wants() == Wants::Nothing,
        m.advance(Input::<R, E>::Failed(cause)).0.run(later).1 == Seq::new(
            later.len(),
            |i: int| not_ready::<R, E>(),
        ),
{
    lemma_nothing_follows(m.advance(Input::<R, E>::Failed(cause)).0, later);
}

/// The end of an exchange.  A stream that is reading answers the frame
/// that carries its command's identifier by delivering that frame, answers
/// the next poll by handing the session back, in the phase that the command
/// declared or, if it declared none, in the phase it was in, and answers
/// every poll after that with "not ready": the session comes back once.
pub proof fn lemma_completion<R, E>(m: StreamModel, last: R, later: Seq<Input<R, E>>)
    requires
        m.wf(),
        m.wants() == Wants::Read,
        m.run(seq![Input::<R, E>::Frame(last, Some(m.request_id)), Input::Polled]).0.admits(later),
    ensures
        m.admits(seq![Input::<R, E>::Frame(last, Some(m.request_id)), Input::Polled]),
        m.run(seq![Input::<R, E>::Frame(last, Some(m.request_id)), Input::Polled]).1 == seq![
            next::<R, E>(last),
            done::<R, E>(m.state.unwrap().after_completion(m.next_state)),
        ],
        m.run(seq![Input::<R, E>::Frame(last, Some(m.request_id)), Input::Polled]).0.wants()
            == Wants::Nothing,
        m.run(seq![Input::<R, E>::Frame(last, Some(m.request_id)), Input::Polled]).0.run(later).1
            == Seq::new(later.len(), |i: int| not_ready::<R, E>()),
{
    let tagged = Input::<R, E>::Frame(last, Some(m.request_id));
    let both = seq![tagged, Input::Polled];
    let m1 = m.advance(tagged).0;
    assert(m1.wants() == Wants::Finish);
    let m2 = m1.advance(Input::<R, E>::Polled).0;
    assert(both =~= seq![tagged] + seq![Input::<R, E>::Polled]);
    lemma_run_one(m, tagged);
    lemma_run_one(m1, Input::<R, E>::Polled);
    lemma_run_append(m, seq![tagged], seq![Input::<R, E>::Polled]);
    assert(m.run(both).0 == m2);
    assert(m.run(both).1 =~= seq![
        next::<R, E>(last),
        done::<R, E>(m.state.unwrap().after_completion(m.next_state)),
    ]);
    lemma_nothing_follows(m2, later);
}

/// A whole exchange.  From the moment the command is handed to the
/// channel: once the send completes the stream goes on to read at once; it
/// then delivers every frame in the order of arrival, the frame that carries
/// the command's identifier last; and the poll after that hands back the
/// session, with the phase that the command declared, or unchanged if it
/// declared none, and with the count of issued identifiers as it was.
pub proof fn lemma_exchange<R, E>(
    state: SessionModel,
    request_id: Seq<char>,
    next_state: Option<State>,
    reads: Seq<Input<R, E>>,
    last: R,
)
    requires
        forall|i: int|
            0 <= i < reads.len() ==> StreamModel::begin(state, request_id, next_state).quiet(
                #[trigger] reads[i],
            ),
    ensures
        ({
            let start = StreamModel::begin(state, request_id, next_state);
            let inputs = seq![Input::<R, E>::Sent] + reads + seq![
                Input::<R, E>::Frame(last, Some(request_id)),
                Input::Polled,
            ];
            &&& start.admits(inputs)
            &&& start.run(inputs).1 == seq![Step::<StreamEvent<R, SessionModel>, E>::Continue] + Seq::new(
                reads.len(),
                |i: int| passed(reads[i]),
            ) + seq![next::<R, E>(last), done::<R, E>(state.after_completion(next_state))]
            &&& start.run(inputs).0.wants() == Wants::Nothing
        }),
{
    let start = StreamModel::begin(state, request_id, next_state);
    let sent = seq![Input::<R, E>::Sent];
    let end = seq![Input::<R, E>::Frame(last, Some(request_id)), Input::Polled];
    let reading = start.advance(Input::<R, E>::Sent).0;
    lemma_run_one(start, Input::<R, E>::Sent);
    assert forall|i: int| 0 <= i < reads.len() implies reading.quiet(#[trigger] reads[i]) by {
        assert(start.quiet(reads[i]));
    }
    lemma_quiet_reads_pass(reading, reads);
    lemma_completion(reading, last, Seq::<Input<R, E>>::empty());
    lemma_run_append(start, sent, reads);
    lemma_run_append(start, sent + reads, end);
}

} // verus!
