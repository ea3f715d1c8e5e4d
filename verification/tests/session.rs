use imap_proto::builders::command::CommandBuilder;
use imap_session::{
    Async, Client, ClientState, ConnectEvent, ImapConnectFuture, Outgoing, State, Step,
};

fn open(transport: &'static str) -> Client<&'static str> {
    let mut machine: ImapConnectFuture<u8, u8, &'static str> = Client::connect("example.org", 0);
    machine.advance::<String, String>(ConnectEvent::Connected(0));
    machine.advance::<String, String>(ConnectEvent::Secured(transport));
    match machine.advance::<String, String>(ConnectEvent::Greeting("* OK".to_string())) {
        Step::Return(Ok(Async::Ready((client, _)))) => client,
        _ => panic!("the greeting completes the machine"),
    }
}

#[test]
fn new_state_is_not_authenticated() {
    assert_eq!(ClientState::new().state(), State::NotAuthenticated);
    assert_eq!(ClientState::default().state(), State::NotAuthenticated);
}

#[test]
fn dispatch_pairs_the_first_identifier_with_the_command() {
    let client = open("channel");
    let out = client.dispatch(b"NOOP".to_vec(), None);
    assert_eq!(out.transport, "channel");
    assert_eq!(out.request.0 .0, "A0001");
    assert_eq!(out.request.1, b"NOOP".to_vec());
    assert_eq!(out.request_id.0, "A0001");
    assert_eq!(out.next_state, None);
    assert_eq!(out.state.state(), State::NotAuthenticated);
}

#[test]
fn dispatch_keeps_the_declared_phase_for_later() {
    let client = open("channel");
    let out = client.dispatch(b"LOGIN a b".to_vec(), Some(State::Authenticated));
    assert_eq!(out.next_state, Some(State::Authenticated));
    assert_eq!(out.state.state(), State::NotAuthenticated);
}

#[test]
fn dispatch_takes_an_empty_command() {
    let client = open("channel");
    let out = client.dispatch(Vec::new(), None);
    assert_eq!(out.request.0 .0, "A0001");
    assert!(out.request.1.is_empty());
}

#[test]
fn call_takes_a_built_command_apart() {
    let client = open("channel");
    let out = client.call(CommandBuilder::login("djc", "s3cr3t"));
    assert_eq!(out.transport, "channel");
    assert_eq!(out.request.0 .0, "A0001");
    assert_eq!(out.request.1, b"LOGIN \"djc\" \"s3cr3t\"".to_vec());
    assert_eq!(out.request_id.0, "A0001");
    assert_eq!(out.next_state, Some(State::Authenticated));
}

#[test]
fn call_maps_every_phase_of_a_built_command() {
    let out = open("a").call(CommandBuilder::check());
    assert_eq!(out.request.1, b"CHECK".to_vec());
    assert_eq!(out.next_state, None);
    let out = open("b").call(CommandBuilder::close());
    assert_eq!(out.request.1, b"CLOSE".to_vec());
    assert_eq!(out.next_state, Some(State::Authenticated));
    let out = open("c").call(CommandBuilder::select("INBOX"));
    assert_eq!(out.next_state, Some(State::Selected));
}

#[test]
fn a_session_that_comes_back_issues_the_next_identifier() {
    let client = open("channel");
    let Outgoing { transport, state, .. } = client.dispatch(b"NOOP".to_vec(), None);
    let mut stream = imap_session::ResponseStream::new((), state, imap_session::RequestId("A0001".to_string()), None);
    stream.advance::<String, String>(imap_session::Event::Sent(transport));
    stream.advance::<String, String>(imap_session::Event::Frame(
        "A0001 OK".to_string(),
        Some(imap_session::RequestId("A0001".to_string())),
    ));
    let client = match stream.advance::<String, String>(imap_session::Event::Polled) {
        Step::Return(Ok(Async::Ready(imap_session::StreamEvent::Done(client)))) => client,
        _ => panic!("the stream hands the session back"),
    };
    let out = client.dispatch(b"NOOP".to_vec(), None);
    assert_eq!(out.request.0 .0, "A0002");
    assert_eq!(out.transport, "channel");
}
