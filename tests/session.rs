use socks5rs::common::{IpAddr, SocketAddr};
use socks5rs::error::IoFailure;
use socks5rs::session::{join_host_and_port, Action, Event, Phase, Session};

fn local() -> SocketAddr {
    SocketAddr::new(IpAddr::V4([10, 0, 0, 1]), 1080)
}

#[test]
fn connect_to_ipv4_literal_then_relay_and_close() {
    let mut s = Session::new(Some(local()));
    assert_eq!(s.step(Event::Received(vec![0x05, 0x01, 0x00])), Action::Send(vec![0x05, 0x00]));
    assert_eq!(s.phase, Phase::AwaitingRequest);

    let a = s.step(Event::Received(vec![0x05, 0x01, 0x00, 0x01, 127, 0, 0, 1, 0x1f, 0x90]));
    assert_eq!(a, Action::Connect(SocketAddr::new(IpAddr::V4([127, 0, 0, 1]), 8080)));
    assert_eq!(s.phase, Phase::Dialing);

    let out = SocketAddr::new(IpAddr::V4([127, 0, 0, 1]), 50000);
    let a = s.step(Event::Connected(out));
    assert_eq!(a, Action::SendThenRelay(vec![0x05, 0x00, 0x00, 0x01, 127, 0, 0, 1, 0xc3, 0x50]));
    assert_eq!(s.phase, Phase::Relaying);

    assert_eq!(s.step(Event::Ended), Action::Close);
    assert_eq!(s.phase, Phase::Closed);
    assert_eq!(s.step(Event::Received(vec![1, 2, 3])), Action::Close);
    assert_eq!(s.phase, Phase::Closed);
}

#[test]
fn connect_to_unreachable_address_replies_with_error() {
    let mut s = Session::new(Some(local()));
    s.step(Event::Received(vec![0x05, 0x02, 0x02, 0x00]));
    s.step(Event::Received(vec![0x05, 0x01, 0x00, 0x01, 192, 0, 2, 1, 0x00, 0x50]));
    let a = s.step(Event::ConnectFailed(IoFailure::NetworkUnreachable));
    assert_eq!(a, Action::SendThenClose(vec![0x05, 0x03, 0x00, 0x01, 10, 0, 0, 1, 0x04, 0x38]));
    assert_eq!(s.phase, Phase::Failed);
    assert_eq!(s.step(Event::Connected(local())), Action::Close);
    assert_eq!(s.phase, Phase::Failed);

    let mut s = Session::new(Some(local()));
    s.step(Event::Received(vec![0x05, 0x01, 0x00]));
    s.step(Event::Received(vec![0x05, 0x01, 0x00, 0x01, 192, 0, 2, 1, 0x00, 0x50]));
    match s.step(Event::ConnectFailed(IoFailure::Other)) {
        Action::SendThenClose(r) => assert_eq!(r[1], 0x01),
        other => panic!("unexpected action {:?}", other),
    }
}

#[test]
fn domain_is_resolved_then_first_address_dialed() {
    let mut s = Session::new(Some(local()));
    s.step(Event::Received(vec![0x05, 0x01, 0x00]));
    let a = s.step(Event::Received(vec![0x05, 0x01, 0x00, 0x03, 0x05, b'x', b'.', b'c', b'o', b'm', 0x01, 0xbb]));
    assert_eq!(a, Action::Resolve(b"x.com:443".to_vec()));
    assert_eq!(s.phase, Phase::Resolving);
    let first = SocketAddr::new(IpAddr::V4([93, 184, 216, 34]), 443);
    let second = SocketAddr::new(IpAddr::V4([93, 184, 216, 35]), 443);
    assert_eq!(s.step(Event::Resolved(vec![first, second])), Action::Connect(first));
    assert_eq!(s.phase, Phase::Dialing);
}

#[test]
fn unresolvable_domain_is_host_unreachable() {
    let mut s = Session::new(Some(local()));
    s.step(Event::Received(vec![0x05, 0x01, 0x00]));
    s.step(Event::Received(vec![0x05, 0x01, 0x00, 0x03, 0x01, b'x', 0x00, 0x50]));
    let a = s.step(Event::Resolved(vec![]));
    assert_eq!(a, Action::SendThenClose(vec![0x05, 0x04, 0x00, 0x01, 10, 0, 0, 1, 0x04, 0x38]));
    assert_eq!(s.phase, Phase::Failed);
}

#[test]
fn greeting_without_no_auth_closes_silently() {
    let mut s = Session::new(Some(local()));
    assert_eq!(s.step(Event::Received(vec![0x05, 0x01, 0x02])), Action::Close);
    assert_eq!(s.phase, Phase::Failed);
    let mut s = Session::new(Some(local()));
    assert_eq!(s.step(Event::Received(vec![0x05, 0x00, 0x00])), Action::Close);
    assert_eq!(s.phase, Phase::Failed);
}

#[test]
fn bad_request_gets_error_reply_when_local_address_known() {
    let mut s = Session::new(Some(local()));
    s.step(Event::Received(vec![0x05, 0x01, 0x00]));
    let a = s.step(Event::Received(vec![0x05, 0x05, 0x00, 0x01, 1, 1, 1, 1, 0, 80]));
    assert_eq!(a, Action::SendThenClose(vec![0x05, 0x07, 0x00, 0x01, 10, 0, 0, 1, 0x04, 0x38]));
    let mut s = Session::new(None);
    s.step(Event::Received(vec![0x05, 0x01, 0x00]));
    assert_eq!(s.step(Event::Received(vec![0x05, 0x01])), Action::Close);
    assert_eq!(s.phase, Phase::Failed);
}

#[test]
fn bind_and_associate_close_cleanly() {
    for cmd in [0x02u8, 0x03] {
        let mut s = Session::new(Some(local()));
        s.step(Event::Received(vec![0x05, 0x01, 0x00]));
        assert_eq!(s.step(Event::Received(vec![0x05, cmd, 0x00, 0x01, 1, 1, 1, 1, 0, 80])), Action::Close);
        assert_eq!(s.phase, Phase::Closed);
    }
}

#[test]
fn host_and_port_text() {
    assert_eq!(join_host_and_port(b"example.org", 0), b"example.org:0".to_vec());
    assert_eq!(join_host_and_port(b"a", 65535), b"a:65535".to_vec());
    assert_eq!(join_host_and_port(b"", 10), b":10".to_vec());
}
