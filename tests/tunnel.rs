use rsocx::relay::{ReadOutcome, Relay, RelayAction, Side};
use rsocx::session::{Action, Session};
use rsocx::socks::{Destination, Host};
use rsocx::tunnel::{
    Master, MasterAction, MasterEvent, MasterPhase, Slave, SlaveAction, SlaveEvent, SlavePhase,
    CONTROL_SIGNAL,
};

#[test]
fn master_pairs_each_client_with_next_data_connection() {
    let (mut m, a) = Master::new();
    assert_eq!(a, MasterAction::AcceptSlave);
    assert_eq!(m.on_event(MasterEvent::SlaveAccepted), MasterAction::AcceptClient);
    for _ in 0..3 {
        assert_eq!(
            m.on_event(MasterEvent::ClientAccepted),
            MasterAction::SendSignal(CONTROL_SIGNAL)
        );
        assert_eq!(m.on_event(MasterEvent::SignalSent), MasterAction::AcceptData);
        assert_eq!(m.phase(), MasterPhase::AwaitData);
        assert_eq!(m.on_event(MasterEvent::DataAccepted), MasterAction::SpawnRelay);
        assert_eq!(m.phase(), MasterPhase::AwaitClient);
    }
}

#[test]
fn master_slave_accept_failure_stops() {
    let (mut m, _) = Master::new();
    assert_eq!(m.on_event(MasterEvent::Failed), MasterAction::Stop);
    assert_eq!(m.phase(), MasterPhase::Stopped);
}

#[test]
fn master_client_accept_failure_is_contained() {
    let (mut m, _) = Master::new();
    m.on_event(MasterEvent::SlaveAccepted);
    assert_eq!(m.on_event(MasterEvent::Failed), MasterAction::AcceptClient);
    assert_eq!(m.phase(), MasterPhase::AwaitClient);
}

#[test]
fn master_signal_failure_stops_accepting() {
    let (mut m, _) = Master::new();
    m.on_event(MasterEvent::SlaveAccepted);
    m.on_event(MasterEvent::ClientAccepted);
    m.on_event(MasterEvent::SignalSent);
    assert_eq!(m.on_event(MasterEvent::DataAccepted), MasterAction::SpawnRelay);
    // A relay is running now; it does not belong to the master.
    let mut running = Relay::new();
    assert_eq!(m.on_event(MasterEvent::ClientAccepted), MasterAction::SendSignal(CONTROL_SIGNAL));
    assert_eq!(m.on_event(MasterEvent::Failed), MasterAction::Stop);
    assert_eq!(m.phase(), MasterPhase::Stopped);
    assert_eq!(m.on_event(MasterEvent::ClientAccepted), MasterAction::Stop);
    assert_eq!(m.on_event(MasterEvent::DataAccepted), MasterAction::Stop);
    assert_eq!(m.phase(), MasterPhase::Stopped);
    // The relay started before carries on to its own end.
    assert_eq!(
        running.on_read(Side::A, ReadOutcome::Data(vec![1, 2])),
        RelayAction::Write { to: Side::B, data: vec![1, 2] }
    );
    assert_eq!(running.on_write(true), RelayAction::ReadEither);
    assert_eq!(running.on_read(Side::B, ReadOutcome::Eof), RelayAction::Finish);
}

#[test]
fn master_data_accept_failure_stops() {
    let (mut m, _) = Master::new();
    m.on_event(MasterEvent::SlaveAccepted);
    m.on_event(MasterEvent::ClientAccepted);
    m.on_event(MasterEvent::SignalSent);
    assert_eq!(m.on_event(MasterEvent::Failed), MasterAction::Stop);
}

#[test]
fn slave_opens_one_connection_per_signal() {
    let (mut s, a) = Slave::new();
    assert_eq!(a, SlaveAction::ConnectControl);
    assert_eq!(s.on_event(SlaveEvent::Connected), SlaveAction::ReadSignal);
    for b in [CONTROL_SIGNAL, 0u8, 0xff] {
        assert_eq!(s.on_event(SlaveEvent::SignalRead(b)), SlaveAction::OpenData);
        assert_eq!(s.phase(), SlavePhase::OpeningData);
        assert_eq!(s.on_event(SlaveEvent::DataOpened), SlaveAction::SpawnSession);
        assert_eq!(s.phase(), SlavePhase::AwaitSignal);
    }
}

#[test]
fn slave_control_failure_stops() {
    let (mut s, _) = Slave::new();
    s.on_event(SlaveEvent::Connected);
    assert_eq!(s.on_event(SlaveEvent::Failed), SlaveAction::Stop);
    assert_eq!(s.phase(), SlavePhase::Stopped);
    assert_eq!(s.on_event(SlaveEvent::SignalRead(CONTROL_SIGNAL)), SlaveAction::Stop);
}

#[test]
fn slave_connect_failure_stops() {
    let (mut s, _) = Slave::new();
    assert_eq!(s.on_event(SlaveEvent::Failed), SlaveAction::Stop);
    let (mut s2, _) = Slave::new();
    s2.on_event(SlaveEvent::Connected);
    s2.on_event(SlaveEvent::SignalRead(CONTROL_SIGNAL));
    assert_eq!(s2.on_event(SlaveEvent::Failed), SlaveAction::Stop);
}

/// Pushes `bytes` from side `from` through a relay and returns what it
/// wrote, and to which side.
fn pass(r: &mut Relay, from: Side, bytes: &[u8]) -> (Side, Vec<u8>) {
    match r.on_read(from, ReadOutcome::Data(bytes.to_vec())) {
        RelayAction::Write { to, data } => {
            assert_eq!(r.on_write(true), RelayAction::ReadEither);
            (to, data)
        }
        other => panic!("unexpected {:?}", other),
    }
}

#[test]
fn tunnel_connect_through_slave() {
    // Master with control 127.0.0.1:9000 and clients on 127.0.0.1:1080.
    let (mut master, _) = Master::new();
    let (mut slave, _) = Slave::new();
    assert_eq!(slave.on_event(SlaveEvent::Connected), SlaveAction::ReadSignal);
    assert_eq!(master.on_event(MasterEvent::SlaveAccepted), MasterAction::AcceptClient);
    // A client connects; the master emits one control byte.
    let byte = match master.on_event(MasterEvent::ClientAccepted) {
        MasterAction::SendSignal(b) => b,
        other => panic!("unexpected {:?}", other),
    };
    assert_eq!(byte, CONTROL_SIGNAL);
    assert_eq!(master.on_event(MasterEvent::SignalSent), MasterAction::AcceptData);
    // The slave reads it and opens one data connection to 127.0.0.1:9000.
    assert_eq!(slave.on_event(SlaveEvent::SignalRead(byte)), SlaveAction::OpenData);
    assert_eq!(slave.on_event(SlaveEvent::DataOpened), SlaveAction::SpawnSession);
    assert_eq!(master.on_event(MasterEvent::DataAccepted), MasterAction::SpawnRelay);

    // Client <-> master relay (A = client, B = data connection) and the
    // slave's SOCKS5 session on the data connection.
    let mut master_relay = Relay::new();
    let mut session = Session::new();

    let (to, data) = pass(&mut master_relay, Side::A, &[5, 1, 0]);
    assert_eq!(to, Side::B);
    let reply = session.on_data(&data);
    assert_eq!(reply, Action::Send(vec![5, 0]));
    let (to, data) = pass(&mut master_relay, Side::B, &[5, 0]);
    assert_eq!((to, data), (Side::A, vec![5, 0]));

    let (_, data) = pass(&mut master_relay, Side::A, &[5, 1, 0, 1, 93, 184, 216, 34, 0, 80]);
    assert_eq!(
        session.on_data(&data),
        Action::Connect(Destination { host: Host::Ipv4(vec![93, 184, 216, 34]), port: 80 })
    );
    let bound = Destination { host: Host::Ipv4(vec![10, 0, 0, 2]), port: 40000 };
    let reply = match session.on_connect(Ok(bound)) {
        Action::Relay { reply, early } => {
            assert!(early.is_empty());
            reply
        }
        other => panic!("unexpected {:?}", other),
    };
    assert_eq!(reply[1], 0);
    let (_, data) = pass(&mut master_relay, Side::B, &reply);
    assert_eq!(data, reply);

    // The HTTP request crosses both relays unchanged.
    let request = b"GET / HTTP/1.1\r\nHost: 93.184.216.34\r\n\r\n".to_vec();
    let mut slave_relay = Relay::new();
    let (_, at_slave) = pass(&mut master_relay, Side::A, &request);
    let (to, at_destination) = pass(&mut slave_relay, Side::A, &at_slave);
    assert_eq!(to, Side::B);
    assert_eq!(at_destination, request);
}

#[test]
fn standalone_sessions_do_not_mix() {
    let mut s1 = Session::new();
    let mut s2 = Session::new();
    assert_eq!(s1.on_data(&[5, 1, 0]), Action::Send(vec![5, 0]));
    assert_eq!(s2.on_data(&[5, 1, 0]), Action::Send(vec![5, 0]));
    assert_eq!(
        s1.on_data(&[5, 1, 0, 1, 10, 0, 0, 1, 0, 80]),
        Action::Connect(Destination { host: Host::Ipv4(vec![10, 0, 0, 1]), port: 80 })
    );
    assert_eq!(
        s2.on_data(&[5, 1, 0, 1, 10, 0, 0, 2, 0, 81]),
        Action::Connect(Destination { host: Host::Ipv4(vec![10, 0, 0, 2]), port: 81 })
    );
    let b1 = Destination { host: Host::Ipv4(vec![127, 0, 0, 1]), port: 1 };
    let b2 = Destination { host: Host::Ipv4(vec![127, 0, 0, 1]), port: 2 };
    assert!(matches!(s1.on_connect(Ok(b1)), Action::Relay { .. }));
    assert!(matches!(s2.on_connect(Ok(b2)), Action::Relay { .. }));
    let mut r1 = Relay::new();
    let mut r2 = Relay::new();
    let (_, d1) = pass(&mut r1, Side::A, b"first payload");
    let (_, d2) = pass(&mut r2, Side::A, b"second payload");
    let (_, e2) = pass(&mut r2, Side::B, b"second answer");
    let (_, e1) = pass(&mut r1, Side::B, b"first answer");
    assert_eq!(d1, b"first payload".to_vec());
    assert_eq!(d2, b"second payload".to_vec());
    assert_eq!(e1, b"first answer".to_vec());
    assert_eq!(e2, b"second answer".to_vec());
}
