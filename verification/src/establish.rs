//! What holds of opening a session as a whole: the answers of the
//! connection machine to a sequence of reports, taken together.

use crate::connect::{ConnectInput, Stage};
use crate::session::SessionModel;
use crate::types::{Async, Error, Step};
use vstd::prelude::*;

verus! {

/// The answer that ends a poll because the current stage is not through.
pub open spec fn waiting<R, E>() -> Step<(SessionModel, R), E> {
    Step::Return(Ok(Async::NotReady))
}

/// The answer that completes the machine with a new session and the
/// server's greeting.
pub open spec fn greeted<R, E>(greeting: R) -> Step<(SessionModel, R), E> {
    Step::Return(Ok(Async::Ready((SessionModel::fresh(), greeting))))
}

/// `count` reports that the outside work has not finished yet.
pub open spec fn waits<R, E>(count: nat) -> Seq<ConnectInput<R, E>> {
    Seq::new(count, |i: int| ConnectInput::NotReady)
}

impl Stage {
    /// The stage after the reports `inputs`, one after the other, and the
    /// answers to them in the same order.
    pub open spec fn run<R, E>(self, inputs: Seq<ConnectInput<R, E>>) -> (
        Stage,
        Seq<Step<(SessionModel, R), E>>,
    )
        decreases inputs.len(),
    {
        if inputs.len() == 0 {
            (self, Seq::empty())
        } else {
            let first = self.advance(inputs[0]);
            let rest = first.0.run(inputs.drop_first());
            (rest.0, seq![first.1] + rest.1)
        }
    }

    /// Whether each of `inputs` is a report that the machine accepts when
    /// its turn comes.
    pub open spec fn admits<R, E>(self, inputs: Seq<ConnectInput<R, E>>) -> bool
        decreases inputs.len(),
    {
        inputs.len() == 0 || (self.accepts(inputs[0]) && self.advance(inputs[0]).0.admits(
            inputs.drop_first(),
        ))
    }
}

/// Stages follow each other strictly.  A report never leads back to an
/// earlier stage.  The machine goes on at once exactly when a stage has
/// completed and the next one begins; it stays where it is exactly when the
/// work has not finished; and it yields a session exactly when the greeting
/// arrives in the last stage, never before the handshake is through.
pub proof fn lemma_stages_in_order<R, E>(stage: Stage, input: ConnectInput<R, E>)
    requires
        stage.accepts(input),
    ensures
        stage.advance(input).0.rank() >= stage.rank(),
        stage.advance(input).1 is Continue <==> (stage.advance(input).0.rank() == stage.rank() + 1
            && stage.advance(input).0 != Stage::Finished),
        stage.advance(input).0 == stage <==> input is NotReady,
        stage.advance(input).1 matches Step::Return(Ok(Async::Ready(_))) <==> (stage
            == Stage::Greeting && input is Greeting),
        input is Failed ==> stage.advance(input).0 == Stage::Finished && stage.advance(input).1
            is Return && stage.advance(input).1->Return_0 is Err,
{
}

/// Running a single report is taking one step.
pub proof fn lemma_connect_run_one<R, E>(stage: Stage, input: ConnectInput<R, E>)
    ensures
        stage.run(seq![input]).0 == stage.advance(input).0,
        stage.run(seq![input]).1 == seq![stage.advance(input).1],
        stage.admits(seq![input]) == stage.accepts(input),
{
    let one = seq![input];
    let after = stage.advance(input).0;
    assert(one[0] == input);
    assert(one.drop_first() =~= Seq::<ConnectInput<R, E>>::empty());
    assert(after.run(one.drop_first()).0 == after);
    assert(after.run(one.drop_first()).1 =~= Seq::<Step<(SessionModel, R), E>>::empty());
    assert(after.admits(one.drop_first()));
    assert(stage.run(one).1 =~= seq![stage.advance(input).1]);
}

/// Running two sequences of reports one after the other is running their
/// concatenation.
pub proof fn lemma_connect_run_append<R, E>(
    stage: Stage,
    a: Seq<ConnectInput<R, E>>,
    b: Seq<ConnectInput<R, E>>,
)
    ensures
        stage.run(a + b).0 == stage.run(a).0.run(b).0,
        stage.run(a + b).1 == stage.run(a).1 + stage.run(a).0.run(b).1,
        stage.admits(a + b) == (stage.admits(a) && stage.run(a).0.admits(b)),
    decreases a.len(),
{
    if a.len() == 0 {
        assert(a + b =~= b);
        assert(stage.run(a).1 + stage.run(b).1 =~= stage.run(b).1);
    } else {
        let first = stage.advance(a[0]);
        assert((a + b)[0] == a[0]);
        assert((a + b).drop_first() =~= a.drop_first() + b);
        lemma_connect_run_append(first.0, a.drop_first(), b);
        assert(seq![first.1] + (first.0.run(a.drop_first()).1 + stage.run(a).0.run(b).1) =~= (
        seq![first.1] + first.0.run(a.drop_first()).1) + stage.run(a).0.run(b).1);
    }
}

/// While the work of a stage has not finished, the machine stays in the
/// stage and every poll answers "not ready".
pub proof fn lemma_waiting_stays<R, E>(stage: Stage, count: nat)
    requires
        stage != Stage::Finished,
    ensures
        stage.admits(waits::<R, E>(count)),
        stage.run(waits::<R, E>(count)).0 == stage,
        stage.run(waits::<R, E>(count)).1 == Seq::new(count, |i: int| waiting::<R, E>()),
    decreases count,
{
    let inputs = waits::<R, E>(count);
    if count == 0 {
        assert(stage.run(inputs).1 =~= Seq::new(count, |i: int| waiting::<R, E>()));
    } else {
        assert(inputs.drop_first() =~= waits::<R, E>((count - 1) as nat));
        lemma_waiting_stays::<R, E>(stage, (count - 1) as nat);
        assert(stage.run(inputs).1 =~= Seq::new(count, |i: int| waiting::<R, E>()));
    }
}

/// A machine that has finished accepts no report: it yields its session
/// once, and after a failure it yields none.
pub proof fn lemma_finished_admits_nothing<R, E>(inputs: Seq<ConnectInput<R, E>>)
    ensures
        Stage::Finished.admits(inputs) <==> inputs.len() == 0,
{
}

/// Opening a session.  However long each stage takes, a machine that
/// starts with the TCP connect, sees it complete, sees the handshake
/// complete and then receives a frame answers "not ready" while it waits,
/// goes on at once after each of the first two stages, and in the end
/// yields a session that is not authenticated and has issued no identifier,
/// together with that frame as the greeting.
pub proof fn lemma_establish<R, E>(tcp_waits: nat, tls_waits: nat, greeting_waits: nat, greeting: R)
    ensures
        ({
            let inputs = waits::<R, E>(tcp_waits) + seq![ConnectInput::<R, E>::Connected]
                + waits::<R, E>(tls_waits) + seq![ConnectInput::<R, E>::Secured] + waits::<R, E>(
                greeting_waits,
            ) + seq![ConnectInput::<R, E>::Greeting(greeting)];
            &&& Stage::Tcp.admits(inputs)
            &&& Stage::Tcp.run(inputs).0 == Stage::Finished
            &&& Stage::Tcp.run(inputs).1 == Seq::new(tcp_waits, |i: int| waiting::<R, E>())
                + seq![Step::<(SessionModel, R), E>::Continue] + Seq::new(
                tls_waits,
                |i: int| waiting::<R, E>(),
            ) + seq![Step::<(SessionModel, R), E>::Continue] + Seq::new(
                greeting_waits,
                |i: int| waiting::<R, E>(),
            ) + seq![greeted::<R, E>(greeting)]
        }),
{
    let a = waits::<R, E>(tcp_waits);
    let b = seq![ConnectInput::<R, E>::Connected];
    let c = waits::<R, E>(tls_waits);
    let d = seq![ConnectInput::<R, E>::Secured];
    let e = waits::<R, E>(greeting_waits);
    let f = seq![ConnectInput::<R, E>::Greeting(greeting)];
    lemma_waiting_stays::<R, E>(Stage::Tcp, tcp_waits);
    lemma_connect_run_one(Stage::Tcp, ConnectInput::<R, E>::Connected);
    lemma_waiting_stays::<R, E>(Stage::Tls, tls_waits);
    lemma_connect_run_one(Stage::Tls, ConnectInput::<R, E>::Secured);
    lemma_waiting_stays::<R, E>(Stage::Greeting, greeting_waits);
    lemma_connect_run_one(Stage::Greeting, ConnectInput::<R, E>::Greeting(greeting));
    lemma_connect_run_append(Stage::Tcp, a, b);
    lemma_connect_run_append(Stage::Tcp, a + b, c);
    lemma_connect_run_append(Stage::Tcp, a + b + c, d);
    lemma_connect_run_append(Stage::Tcp, a + b + c + d, e);
    lemma_connect_run_append(Stage::Tcp, a + b + c + d + e, f);
}

/// A failure in any stage ends the machine without a session: the answer
/// is the cause, wrapped by the stage that it struck, and no report is
/// accepted afterwards.
pub proof fn lemma_failure_yields_no_session<R, E>(
    stage: Stage,
    cause: E,
    later: Seq<ConnectInput<R, E>>,
)
    requires
        stage != Stage::Finished,
        stage.advance(ConnectInput::<R, E>::Failed(cause)).0.admits(later),
    ensures
        stage.accepts(ConnectInput::<R, E>::Failed(cause)),
        stage.advance(ConnectInput::<R, E>::Failed(cause)).1 == Step::<
            (SessionModel, R),
            E,
        >::Return(
            Err(
                match stage {
                    Stage::Tcp => Error::Connect(cause),
                    Stage::Tls => Error::Tls(cause),
                    _ => Error::Protocol(cause),
                },
            ),
        ),
        later.len() == 0,
{
}

} // verus!
