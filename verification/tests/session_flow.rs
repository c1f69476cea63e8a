use xplane_udp::beacon::Beacon;
use xplane_udp::beacon::InterceptStep;
use xplane_udp::beacon::RecvOutcome;
use xplane_udp::command_handler::AlertMessage;
use xplane_udp::consts::XP_DEFAULT_SENDING_PORT;
use xplane_udp::dataref_type::DataRefType;
use xplane_udp::errors::XpError;
use xplane_udp::net::Endpoint;
use xplane_udp::net::HostIp;
use xplane_udp::session::Session;
use xplane_udp::session::SessionState;

fn endpoints() -> (Endpoint, Endpoint) {
    (
        Endpoint { ip: HostIp::V4(127, 0, 0, 1), port: 49000 },
        Endpoint { ip: HostIp::V4(127, 0, 0, 1), port: 49001 },
    )
}

fn beacon_frame() -> Vec<u8> {
    let mut buf: Vec<u8> = Vec::new();
    buf.extend_from_slice(b"BECN");
    buf.push(0);
    buf.push(1);
    buf.push(2);
    buf.extend_from_slice(&1i32.to_le_bytes());
    buf.extend_from_slice(&123400i32.to_le_bytes());
    buf.extend_from_slice(&1u32.to_le_bytes());
    buf.extend_from_slice(&49011u16.to_le_bytes());
    buf.extend_from_slice(b"sim-host\0");
    buf
}

#[test]
fn operations_before_run_are_rejected() {
    let (recv, send) = endpoints();
    let mut session = Session::manual(recv, send);
    assert_eq!(
        session.subscribe("sim/a", 1, DataRefType::Float).unwrap_err(),
        XpError::NotConnected
    );
    assert_eq!(session.unsubscribe("sim/a").unwrap_err(), XpError::NotConnected);
    assert_eq!(session.unsubscribe_next().unwrap_err(), XpError::NotConnected);
    assert_eq!(session.cmd("sim/op").unwrap_err(), XpError::NotConnected);
    assert_eq!(session.alert(AlertMessage::default()).unwrap_err(), XpError::NotConnected);
}

#[test]
fn run_connects_exactly_once() {
    let (recv, send) = endpoints();
    let mut session = Session::manual(recv, send);
    assert_eq!(session.state, SessionState::Connecting);
    session.run().unwrap();
    assert_eq!(session.state, SessionState::Connected);
    assert_eq!(session.run().unwrap_err(), XpError::NotConnected);
}

#[test]
fn connected_session_serves_all_operations() {
    let (recv, send) = endpoints();
    let mut session = Session::manual(recv, send);
    session.run().unwrap();
    let sub = session.subscribe("sim/a", 4, DataRefType::Float).unwrap();
    assert_eq!(&sub[0..4], b"RREF");
    let cmd = session.cmd("sim/op/quit").unwrap();
    assert_eq!(&cmd[0..4], b"CMND");
    let mut alert = AlertMessage::default();
    alert.set_line("hello", 0).unwrap();
    let alert_msg = session.alert(alert).unwrap();
    assert_eq!(&alert_msg[0..4], b"ALRT");
    let stop = session.unsubscribe("sim/a").unwrap();
    assert_eq!(&stop[5..9], &0i32.to_le_bytes());
}

#[test]
fn subscribe_unsubscribe_read_is_absent() {
    let (recv, send) = endpoints();
    let mut session = Session::manual(recv, send);
    session.run().unwrap();
    session.subscribe("sim/gone", 2, DataRefType::Float).unwrap();
    assert!(session.get_dataref("sim/gone").is_some());
    session.unsubscribe("sim/gone").unwrap();
    assert_eq!(session.get_dataref("sim/gone"), None);
}

#[test]
fn shutdown_unsubscribes_everything_and_is_idempotent() {
    let (recv, send) = endpoints();
    let mut session = Session::manual(recv, send);
    session.run().unwrap();
    session.subscribe("sim/a", 1, DataRefType::Float).unwrap();
    session.subscribe("sim/b", 1, DataRefType::Float).unwrap();
    session.begin_shutdown();
    assert_eq!(session.state, SessionState::ShuttingDown);
    let mut pairs: Vec<(Vec<u8>, Vec<u8>)> = Vec::new();
    while let Some(pair) = session.unsubscribe_next().unwrap() {
        pairs.push(pair);
    }
    session.finish_shutdown();
    assert_eq!(pairs.len(), 2);
    let mut names: Vec<Vec<u8>> = pairs.iter().map(|p| p.0.clone()).collect();
    names.sort();
    assert_eq!(names, vec![b"sim/a".to_vec(), b"sim/b".to_vec()]);
    for (_, msg) in &pairs {
        assert_eq!(&msg[0..4], b"RREF");
        assert_eq!(&msg[5..9], &0i32.to_le_bytes());
    }
    assert_eq!(session.state, SessionState::Closed);
    assert_eq!(session.get_dataref("sim/a"), None);
    // Shutting a closed session down again changes nothing and yields
    // no further teardown steps.
    session.begin_shutdown();
    assert_eq!(session.state, SessionState::Closed);
    assert_eq!(session.unsubscribe_next().unwrap_err(), XpError::NotConnected);
    session.finish_shutdown();
    assert_eq!(session.state, SessionState::Closed);
}

#[test]
fn discovery_derives_addresses_from_the_beacon() {
    let mut beacon = Beacon::new(3000);
    let src = Endpoint { ip: HostIp::V4(10, 0, 0, 9), port: 49707 };
    let step = beacon.handle_recv(RecvOutcome::Datagram(beacon_frame(), src));
    assert_eq!(step, InterceptStep::Accepted);
    let session = Session::from_discovery(beacon).unwrap();
    assert_eq!(session.xp_receiving_address, Endpoint { ip: HostIp::V4(10, 0, 0, 9), port: 49011 });
    assert_eq!(
        session.xp_sending_address,
        Endpoint { ip: HostIp::V4(10, 0, 0, 9), port: XP_DEFAULT_SENDING_PORT }
    );
    assert_eq!(session.state, SessionState::Connecting);
}

#[test]
fn discovery_without_announcement_is_not_found() {
    let beacon = Beacon::new(3000);
    match Session::from_discovery(beacon) {
        Ok(_) => panic!("discovery without an announcement must fail"),
        Err(e) => assert_eq!(e, XpError::NotFound),
    }
}

#[test]
fn beacon_timeouts_are_retried_three_times() {
    let mut beacon = Beacon::new(4000);
    assert_eq!(beacon.per_attempt_timeout_ms(), 1000);
    assert_eq!(beacon.handle_recv(RecvOutcome::TimedOut), InterceptStep::Retry);
    assert_eq!(beacon.handle_recv(RecvOutcome::TimedOut), InterceptStep::Retry);
    assert_eq!(beacon.handle_recv(RecvOutcome::TimedOut), InterceptStep::Retry);
    assert_eq!(
        beacon.handle_recv(RecvOutcome::TimedOut),
        InterceptStep::GiveUp(XpError::NotFound)
    );
}

#[test]
fn beacon_parse_failures_are_retried_then_terminal() {
    let mut beacon = Beacon::new(4000);
    let src = Endpoint { ip: HostIp::V4(10, 0, 0, 9), port: 49707 };
    let junk = b"not a beacon".to_vec();
    for _ in 0..3 {
        assert_eq!(
            beacon.handle_recv(RecvOutcome::Datagram(junk.clone(), src)),
            InterceptStep::Retry
        );
    }
    assert_eq!(
        beacon.handle_recv(RecvOutcome::Datagram(junk, src)),
        InterceptStep::GiveUp(XpError::ProtocolDecode)
    );
}

#[test]
fn beacon_receive_failure_is_terminal_transport_error() {
    let mut beacon = Beacon::new(4000);
    assert_eq!(
        beacon.handle_recv(RecvOutcome::Failed),
        InterceptStep::GiveUp(XpError::Transport)
    );
}

#[test]
fn beacon_retry_budgets_reset_for_a_fresh_interception() {
    let mut beacon = Beacon::new(4000);
    for _ in 0..3 {
        beacon.handle_recv(RecvOutcome::TimedOut);
    }
    beacon.begin_intercept();
    assert_eq!(beacon.handle_recv(RecvOutcome::TimedOut), InterceptStep::Retry);
}

#[test]
fn beacon_address_must_be_multicast() {
    let bad = Endpoint { ip: HostIp::V4(10, 0, 0, 1), port: 49707 };
    match Beacon::new_with_address(bad, 1000) {
        Ok(_) => panic!("a unicast group address must be rejected"),
        Err(e) => assert_eq!(e, XpError::InvalidInput),
    }
    let good = Endpoint { ip: HostIp::V4(239, 255, 1, 1), port: 49707 };
    let beacon = match Beacon::new_with_address(good, 1000) {
        Ok(b) => b,
        Err(_) => panic!("the default multicast group must be accepted"),
    };
    assert_eq!(beacon.get_address(), good);
    assert!(beacon.get_beacon().is_none());
}

#[test]
fn multicast_detection_covers_both_families() {
    assert!(HostIp::V4(224, 0, 0, 1).is_multicast());
    assert!(HostIp::V4(239, 255, 1, 1).is_multicast());
    assert!(!HostIp::V4(223, 255, 255, 255).is_multicast());
    assert!(!HostIp::V4(240, 0, 0, 1).is_multicast());
    assert!(HostIp::V6(0xff02, 0, 0, 0, 0, 0, 0, 1).is_multicast());
    assert!(!HostIp::V6(0xfe80, 0, 0, 0, 0, 0, 0, 1).is_multicast());
}
