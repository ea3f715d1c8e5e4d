use imap_session::{
    Async, Client, ClientState, ConnectEvent, Error, Event, ImapConnectFuture, Outgoing,
    RequestId, ResponseStream, State, Step, StreamEvent, Wants,
};

type Stream = ResponseStream<&'static str, &'static str>;
type Answer = Step<StreamEvent<String, Client<&'static str>>, String>;

fn tag(text: &str) -> Option<RequestId> {
    Some(RequestId(text.to_string()))
}

fn frame(text: &str, id: Option<RequestId>) -> Event<&'static str, String, String> {
    Event::Frame(text.to_string(), id)
}

fn sending(next_state: Option<State>) -> Stream {
    ResponseStream::new("send", ClientState::new(), RequestId("A0001".to_string()), next_state)
}

fn reading(next_state: Option<State>) -> Stream {
    let mut stream = sending(next_state);
    assert!(matches!(stream.advance::<String, String>(Event::Sent("channel")), Step::Continue));
    stream
}

fn expect_next(answer: Answer, text: &str) {
    match answer {
        Step::Return(Ok(Async::Ready(StreamEvent::Next(got)))) => assert_eq!(got, text),
        _ => panic!("expected the frame {}", text),
    }
}

fn expect_done(answer: Answer) -> Client<&'static str> {
    match answer {
        Step::Return(Ok(Async::Ready(StreamEvent::Done(client)))) => client,
        _ => panic!("expected the session"),
    }
}

fn expect_not_ready(answer: Answer) {
    assert!(matches!(answer, Step::Return(Ok(Async::NotReady))));
}

#[test]
fn a_new_stream_wants_the_send() {
    let stream = sending(None);
    assert_eq!(stream.wants(), Wants::Send);
    assert!(stream.accepts::<String, String>(&Event::Sent("channel")));
    assert!(stream.accepts::<String, String>(&Event::NotReady));
    assert!(stream.accepts::<String, String>(&Event::Failed("x".to_string())));
    assert!(!stream.accepts::<String, String>(&Event::Polled));
    assert!(!stream.accepts::<String, String>(&Event::Closed));
    assert!(!stream.accepts::<String, String>(&frame("* OK", None)));
}

#[test]
fn a_pending_send_is_not_ready() {
    let mut stream = sending(None);
    expect_not_ready(stream.advance::<String, String>(Event::NotReady));
    assert_eq!(stream.wants(), Wants::Send);
    expect_not_ready(stream.advance::<String, String>(Event::NotReady));
    assert_eq!(stream.wants(), Wants::Send);
}

#[test]
fn a_completed_send_goes_on_to_read() {
    let mut stream = sending(None);
    assert!(matches!(stream.advance::<String, String>(Event::Sent("channel")), Step::Continue));
    assert_eq!(stream.wants(), Wants::Read);
    assert!(stream.accepts::<String, String>(&frame("* OK", None)));
    assert!(stream.accepts::<String, String>(&Event::Closed));
    assert!(stream.accepts::<String, String>(&Event::NotReady));
    assert!(stream.accepts::<String, String>(&Event::Failed("x".to_string())));
    assert!(!stream.accepts::<String, String>(&Event::Sent("channel")));
    assert!(!stream.accepts::<String, String>(&Event::Polled));
}

#[test]
fn frames_come_in_order_then_the_tagged_one_then_done_once() {
    let mut stream = reading(None);
    let frames = ["* 1 EXISTS", "* 2 RECENT", "* FLAGS (\\Seen)", "* OK"];
    for text in frames {
        expect_next(stream.advance(frame(text, None)), text);
        assert_eq!(stream.wants(), Wants::Read);
    }
    expect_next(stream.advance(frame("A0001 OK done", tag("A0001"))), "A0001 OK done");
    assert_eq!(stream.wants(), Wants::Finish);
    assert!(stream.accepts::<String, String>(&Event::Polled));
    assert!(!stream.accepts::<String, String>(&frame("* late", None)));
    let client = expect_done(stream.advance(Event::Polled));
    assert_eq!(client.phase(), State::NotAuthenticated);
    assert_eq!(stream.wants(), Wants::Nothing);
    for _ in 0..3 {
        expect_not_ready(stream.advance(Event::Polled));
        assert_eq!(stream.wants(), Wants::Nothing);
    }
}

#[test]
fn the_tagged_frame_alone_completes() {
    let mut stream = reading(None);
    expect_next(stream.advance(frame("A0001 OK", tag("A0001"))), "A0001 OK");
    let client = expect_done(stream.advance(Event::Polled));
    let out = client.dispatch(Vec::new(), None);
    assert_eq!(out.transport, "channel");
}

#[test]
fn a_frame_with_another_identifier_does_not_complete() {
    let mut stream = reading(None);
    expect_next(stream.advance(frame("A0002 OK", tag("A0002"))), "A0002 OK");
    assert_eq!(stream.wants(), Wants::Read);
    expect_next(stream.advance(frame("a0001 OK", tag("a0001"))), "a0001 OK");
    assert_eq!(stream.wants(), Wants::Read);
    expect_next(stream.advance(frame("A0001 OK", tag("A0001"))), "A0001 OK");
    assert_eq!(stream.wants(), Wants::Finish);
}

#[test]
fn waiting_for_a_frame_is_not_ready() {
    let mut stream = reading(None);
    expect_not_ready(stream.advance(Event::NotReady));
    assert_eq!(stream.wants(), Wants::Read);
    expect_next(stream.advance(frame("* OK", None)), "* OK");
    expect_not_ready(stream.advance(Event::NotReady));
    assert_eq!(stream.wants(), Wants::Read);
}

#[test]
fn a_channel_that_ended_counts_as_not_ready() {
    let mut stream = reading(None);
    expect_not_ready(stream.advance(Event::Closed));
    assert_eq!(stream.wants(), Wants::Read);
}

#[test]
fn a_declared_phase_is_entered_on_completion() {
    let mut stream = reading(Some(State::Authenticated));
    expect_next(stream.advance(frame("* OK", None)), "* OK");
    expect_next(stream.advance(frame("A0001 OK", tag("A0001"))), "A0001 OK");
    let client = expect_done(stream.advance(Event::Polled));
    assert_eq!(client.phase(), State::Authenticated);
}

#[test]
fn without_a_declared_phase_the_phase_stays() {
    let mut stream = reading(Some(State::Selected));
    stream.advance::<String, String>(frame("A0001 OK", tag("A0001")));
    let client = expect_done(stream.advance(Event::Polled));
    assert_eq!(client.phase(), State::Selected);
    let Outgoing { transport, state, request_id, next_state, .. } =
        client.dispatch(b"NOOP".to_vec(), None);
    assert_eq!(request_id.0, "A0001");
    let mut stream: Stream = ResponseStream::new("send", state, request_id, next_state);
    stream.advance::<String, String>(Event::Sent(transport));
    stream.advance::<String, String>(frame("A0001 OK", tag("A0001")));
    let client = expect_done(stream.advance(Event::Polled));
    assert_eq!(client.phase(), State::Selected);
}

#[test]
fn a_failed_read_aborts_and_no_session_follows() {
    let mut stream = reading(Some(State::Authenticated));
    expect_next(stream.advance(frame("* OK", None)), "* OK");
    let answer: Answer = stream.advance(Event::Failed("connection reset".to_string()));
    assert!(matches!(
        answer,
        Step::Return(Err(Error::StreamAborted(ref cause))) if cause == "connection reset"
    ));
    assert_eq!(stream.wants(), Wants::Nothing);
    assert!(!stream.accepts::<String, String>(&frame("A0001 OK", tag("A0001"))));
    assert!(!stream.accepts::<String, String>(&Event::Sent("channel")));
    for _ in 0..5 {
        expect_not_ready(stream.advance(Event::Polled));
        assert_eq!(stream.wants(), Wants::Nothing);
    }
}

#[test]
fn a_failed_send_aborts_and_no_session_follows() {
    let mut stream = sending(None);
    expect_not_ready(stream.advance(Event::NotReady));
    let answer: Answer = stream.advance(Event::Failed("broken pipe".to_string()));
    assert!(matches!(
        answer,
        Step::Return(Err(Error::StreamAborted(ref cause))) if cause == "broken pipe"
    ));
    assert_eq!(stream.wants(), Wants::Nothing);
    for _ in 0..5 {
        expect_not_ready(stream.advance(Event::Polled));
    }
}

#[test]
fn the_driver_works_on_what_the_stream_lends() {
    let mut stream: ResponseStream<u32, u32> =
        ResponseStream::new(1, ClientState::new(), RequestId("A0001".to_string()), None);
    *stream.future_mut() += 1;
    *stream.future_mut() += 1;
    stream.advance::<String, String>(Event::Sent(10));
    *stream.transport_mut() += 5;
    stream.advance::<String, String>(Event::Frame("A0001 OK".to_string(), tag("A0001")));
    match stream.advance::<String, String>(Event::Polled) {
        Step::Return(Ok(Async::Ready(StreamEvent::Done(client)))) => {
            assert_eq!(client.dispatch(Vec::new(), None).transport, 15);
        }
        _ => panic!("expected the session"),
    }
}

#[test]
fn connect_then_login() {
    let mut machine: ImapConnectFuture<&str, &str, &'static str> =
        Client::connect("imap.example.org", "tcp");
    machine.advance::<String, String>(ConnectEvent::Connected("tls"));
    machine.advance::<String, String>(ConnectEvent::Secured("channel"));
    let (client, greeting) = match machine
        .advance::<String, String>(ConnectEvent::Greeting("* OK Service Ready".to_string()))
    {
        Step::Return(Ok(Async::Ready(pair))) => pair,
        _ => panic!("the greeting completes the machine"),
    };
    assert_eq!(greeting, "* OK Service Ready");
    assert_eq!(client.phase(), State::NotAuthenticated);

    let out = client.dispatch(b"LOGIN user secret".to_vec(), Some(State::Authenticated));
    assert_eq!(out.request.0 .0, "A0001");
    let Outgoing { transport, state, request_id, next_state, .. } = out;
    let mut stream: Stream = ResponseStream::new("send", state, request_id, next_state);
    assert!(matches!(stream.advance::<String, String>(Event::Sent(transport)), Step::Continue));
    expect_next(stream.advance(frame("* OK", None)), "* OK");
    expect_next(
        stream.advance(frame("A0001 OK LOGIN completed", tag("A0001"))),
        "A0001 OK LOGIN completed",
    );
    let client = expect_done(stream.advance(Event::Polled));
    assert_eq!(client.phase(), State::Authenticated);
}
