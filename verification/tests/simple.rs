use imap_session::simple::{
    socket_address, Client, ConnectFuture, LoginEvent, LoginFuture, LoginRequest,
};
use imap_session::{Async, ConnectEvent, Error, Stage, State, Step};

type Machine = ConnectFuture<&'static str, &'static str, &'static str>;
type Report = ConnectEvent<&'static str, &'static str, String, String>;

fn open() -> Client<&'static str> {
    let mut machine: Machine = Client::connect("imap.example.org", "tcp");
    machine.advance::<String>(Report::Connected("tls"));
    machine.advance::<String>(Report::Secured("channel"));
    match machine.advance::<String>(Report::Greeting("* OK Service Ready".to_string())) {
        Step::Return(Ok(Async::Ready(client))) => client,
        _ => panic!("the greeting completes the machine"),
    }
}

#[test]
fn the_address_names_host_and_port() {
    assert_eq!(socket_address("imap.example.org"), "imap.example.org:993");
    assert_eq!(socket_address(""), ":993");
}

#[test]
fn the_session_keeps_the_greeting() {
    let client = open();
    assert_eq!(client.server_greeting(), "* OK Service Ready");
    assert_eq!(client.phase(), State::NotAuthenticated);
}

#[test]
fn the_machine_goes_through_the_stages() {
    let mut machine: Machine = Client::connect("imap.example.org", "tcp");
    assert_eq!(machine.current_stage(), Stage::Tcp);
    assert_eq!(machine.domain(), Some("imap.example.org"));
    assert!(matches!(machine.advance::<String>(Report::NotReady), Step::Return(Ok(Async::NotReady))));
    assert!(matches!(machine.advance::<String>(Report::Connected("tls")), Step::Continue));
    assert_eq!(machine.current_stage(), Stage::Tls);
    assert!(matches!(machine.advance::<String>(Report::Secured("channel")), Step::Continue));
    assert_eq!(machine.current_stage(), Stage::Greeting);
    assert!(machine.accepts::<String>(&Report::Greeting("* OK".to_string())));
    assert!(!machine.accepts::<String>(&Report::Connected("tls")));
    machine.advance::<String>(Report::Greeting("* OK".to_string()));
    assert_eq!(machine.current_stage(), Stage::Finished);
    assert!(!machine.accepts::<String>(&Report::NotReady));
}

#[test]
fn failures_are_wrapped_by_their_stage() {
    let mut machine: Machine = Client::connect("h", "tcp");
    assert!(matches!(
        machine.advance::<String>(Report::Failed("a".to_string())),
        Step::Return(Err(Error::Connect(ref cause))) if cause == "a"
    ));
    assert_eq!(machine.current_stage(), Stage::Finished);
    let mut machine: Machine = Client::connect("h", "tcp");
    machine.advance::<String>(Report::Connected("tls"));
    assert!(matches!(
        machine.advance::<String>(Report::Failed("b".to_string())),
        Step::Return(Err(Error::Tls(ref cause))) if cause == "b"
    ));
    let mut machine: Machine = Client::connect("h", "tcp");
    machine.advance::<String>(Report::Connected("tls"));
    machine.advance::<String>(Report::Secured("channel"));
    assert!(matches!(
        machine.advance::<String>(Report::Failed("c".to_string())),
        Step::Return(Err(Error::Protocol(ref cause))) if cause == "c"
    ));
}

#[test]
fn the_machine_lends_its_resources() {
    let mut machine: ConnectFuture<u32, u32, u32> = Client::connect("h", 1);
    *machine.connecting_mut() += 1;
    assert!(matches!(machine, ConnectFuture::TcpConnecting(2, _)));
    machine.advance::<String>(ConnectEvent::Connected(5));
    *machine.handshake_mut() += 1;
    assert!(matches!(machine, ConnectFuture::TlsHandshake(6)));
    machine.advance::<String>(ConnectEvent::Secured(8));
    *machine.transport_mut() += 1;
    assert!(matches!(machine, ConnectFuture::ServerGreeting(Some(9))));
}

#[test]
fn login_forms_the_line() {
    let LoginRequest { transport, message, .. } = open().login("alice", "s3cret");
    assert_eq!(transport, "channel");
    assert_eq!(message, "a001 LOGIN alice s3cret");
}

#[test]
fn login_with_empty_words() {
    let LoginRequest { message, .. } = open().login("", "");
    assert_eq!(message, "a001 LOGIN  ");
}

#[test]
fn a_completed_login_authenticates() {
    let LoginRequest { transport, state, .. } = open().login("alice", "s3cret");
    let mut login = LoginFuture::new("send", state);
    assert!(login.pending());
    assert!(matches!(
        login.advance::<&str, String>(LoginEvent::NotReady),
        Step::Return(Ok(Async::NotReady))
    ));
    assert!(login.pending());
    match login.advance::<&str, String>(LoginEvent::Sent(transport)) {
        Step::Return(Ok(Async::Ready(client))) => {
            assert_eq!(client.phase(), State::Authenticated);
            assert_eq!(client.server_greeting(), "* OK Service Ready");
            assert_eq!(client.login("a", "b").transport, "channel");
        }
        _ => panic!("the login completes"),
    }
    assert!(!login.pending());
}

#[test]
fn a_failed_login_leaves_no_session() {
    let LoginRequest { state, .. } = open().login("alice", "s3cret");
    let mut login = LoginFuture::new(7u32, state);
    *login.future_mut() += 1;
    assert!(matches!(
        login.advance::<&str, String>(LoginEvent::Failed("reset".to_string())),
        Step::Return(Err(Error::StreamAborted(ref cause))) if cause == "reset"
    ));
    assert!(!login.pending());
}
