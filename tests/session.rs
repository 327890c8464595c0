use rsocx::session::{Action, Phase, Session};
use rsocx::socks::{ConnectFailure, Destination, Host};

fn bound() -> Destination {
    Destination { host: Host::Ipv4(vec![127, 0, 0, 1]), port: 5555 }
}

#[test]
fn connect_request_succeeds() {
    let mut s = Session::new();
    assert_eq!(s.phase(), Phase::AwaitGreeting);
    assert_eq!(s.on_data(&[5, 1, 0]), Action::Send(vec![5, 0]));
    assert_eq!(s.phase(), Phase::AwaitRequest);
    assert_eq!(s.on_data(&[]), Action::ReadMore);
    assert_eq!(s.on_data(&[5, 1, 0, 1, 93, 184]), Action::ReadMore);
    assert_eq!(
        s.on_data(&[216, 34, 0, 80]),
        Action::Connect(Destination { host: Host::Ipv4(vec![93, 184, 216, 34]), port: 80 })
    );
    assert_eq!(s.phase(), Phase::Connecting);
    assert_eq!(
        s.on_connect(Ok(bound())),
        Action::Relay { reply: vec![5, 0, 0, 1, 127, 0, 0, 1, 0x15, 0xb3], early: vec![] }
    );
    assert_eq!(s.phase(), Phase::Connected);
    assert_eq!(s.close(), Action::Close);
    assert_eq!(s.phase(), Phase::Closed);
}

#[test]
fn pipelined_handshake_keeps_early_payload() {
    let mut s = Session::new();
    let mut chunk = vec![5u8, 1, 0, 5, 1, 0, 3, 1, b'h', 0, 80];
    chunk.extend_from_slice(b"GET / HTTP/1.0\r\n\r\n");
    assert_eq!(s.on_data(&chunk), Action::Send(vec![5, 0]));
    assert_eq!(
        s.on_data(&[]),
        Action::Connect(Destination { host: Host::Domain(vec![b'h']), port: 80 })
    );
    assert_eq!(s.on_data(b"more"), Action::Idle);
    match s.on_connect(Ok(bound())) {
        Action::Relay { early, .. } => assert_eq!(early, b"GET / HTTP/1.0\r\n\r\nmore".to_vec()),
        other => panic!("unexpected {:?}", other),
    }
}

#[test]
fn unsupported_command_is_refused_without_connect() {
    let mut s = Session::new();
    assert_eq!(s.on_data(&[5, 1, 0]), Action::Send(vec![5, 0]));
    assert_eq!(
        s.on_data(&[5, 2, 0, 1, 10, 0, 0, 1, 0, 21]),
        Action::SendAndClose(vec![5, 7, 0, 1, 0, 0, 0, 0, 0, 0])
    );
    assert_eq!(s.phase(), Phase::Closed);
    assert_eq!(s.on_data(&[5, 1, 0, 1, 10, 0, 0, 1, 0, 21]), Action::Idle);
    assert_eq!(s.on_connect(Ok(bound())), Action::Idle);
    assert_eq!(s.phase(), Phase::Closed);
}

#[test]
fn udp_associate_is_refused() {
    let mut s = Session::new();
    s.on_data(&[5, 1, 0]);
    assert_eq!(
        s.on_data(&[5, 3, 0, 1, 0, 0, 0, 0, 0, 0]),
        Action::SendAndClose(vec![5, 7, 0, 1, 0, 0, 0, 0, 0, 0])
    );
}

#[test]
fn no_acceptable_method() {
    let mut s = Session::new();
    assert_eq!(s.on_data(&[5, 1, 2]), Action::SendAndClose(vec![5, 0xff]));
    assert_eq!(s.phase(), Phase::Closed);
}

#[test]
fn greeting_with_wrong_version_closes() {
    let mut s = Session::new();
    assert_eq!(s.on_data(&[4, 1, 0]), Action::Close);
    assert_eq!(s.phase(), Phase::Closed);
}

#[test]
fn request_with_wrong_version_closes() {
    let mut s = Session::new();
    s.on_data(&[5, 1, 0]);
    assert_eq!(s.on_data(&[4, 1, 0, 1]), Action::Close);
    assert_eq!(s.phase(), Phase::Closed);
}

#[test]
fn unknown_address_type_is_refused() {
    let mut s = Session::new();
    s.on_data(&[5, 1, 0]);
    assert_eq!(
        s.on_data(&[5, 1, 0, 9]),
        Action::SendAndClose(vec![5, 8, 0, 1, 0, 0, 0, 0, 0, 0])
    );
}

#[test]
fn connect_failure_is_reported() {
    let mut s = Session::new();
    s.on_data(&[5, 1, 0]);
    s.on_data(&[5, 1, 0, 1, 10, 0, 0, 1, 0, 22]);
    assert_eq!(
        s.on_connect(Err(ConnectFailure::Refused)),
        Action::SendAndClose(vec![5, 5, 0, 1, 0, 0, 0, 0, 0, 0])
    );
    assert_eq!(s.phase(), Phase::Closed);
}

#[test]
fn connect_failure_other_is_general_failure() {
    let mut s = Session::new();
    s.on_data(&[5, 1, 0]);
    s.on_data(&[5, 1, 0, 1, 10, 0, 0, 1, 0, 22]);
    assert_eq!(
        s.on_connect(Err(ConnectFailure::Other)),
        Action::SendAndClose(vec![5, 1, 0, 1, 0, 0, 0, 0, 0, 0])
    );
}

#[test]
fn client_gone_during_handshake() {
    let mut s = Session::new();
    s.on_data(&[5]);
    assert_eq!(s.close(), Action::Close);
    assert_eq!(s.phase(), Phase::Closed);
}
