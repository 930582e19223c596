use igdp::addr::{Host, IpAddress};
use igdp::discovery::{interpret_search_reply, next_search_action, simulate_search, SearchAction};
use igdp::error::Error;

#[test]
fn reply_on_second_attempt_uses_two() {
    let replies = vec![false, true, false];
    assert_eq!(simulate_search(&replies), (2, true));
}

#[test]
fn silent_gateway_times_out_after_three() {
    let replies = vec![false, false, false];
    assert_eq!(simulate_search(&replies), (3, false));
    assert_eq!(simulate_search(&Vec::new()), (3, false));
}

#[test]
fn immediate_reply_uses_one() {
    let replies = vec![true];
    assert_eq!(simulate_search(&replies), (1, true));
}

#[test]
fn policy_gives_up_after_three_sends() {
    assert_eq!(next_search_action(0), SearchAction::Send);
    assert_eq!(next_search_action(2), SearchAction::Send);
    assert_eq!(next_search_action(3), SearchAction::GiveUp);
}

#[test]
fn search_reply_discovers_location() {
    let raw = b"HTTP/1.1 200 OK\r\nCACHE-CONTROL: max-age=120\r\nST: upnp:rootdevice\r\nLOCATION: http://192.168.1.1:5000/rootDesc.xml\r\n\r\n";
    let d = interpret_search_reply(raw).expect("discovery");
    assert_eq!(d.url.path, "/rootDesc.xml");
    assert!(matches!(d.url.host, Host::V4(192, 168, 1, 1)));
    assert_eq!(d.url.port, Some(5000));
    assert!(matches!(d.addr.ip, IpAddress::V4(192, 168, 1, 1)));
    assert_eq!(d.addr.port, 5000);
}

#[test]
fn search_reply_404_is_unexpected_status() {
    let raw = b"HTTP/1.1 404 Not Found\r\n\r\n";
    assert!(matches!(interpret_search_reply(raw), Err(Error::StatusCode(Some(404)))));
}

#[test]
fn search_reply_without_status_line_has_no_code() {
    let raw = b"mangled bytes\r\n\r\n";
    assert!(matches!(interpret_search_reply(raw), Err(Error::StatusCode(None))));
}

#[test]
fn search_reply_without_location_fails() {
    let raw = b"HTTP/1.1 200 OK\r\nST: upnp:rootdevice\r\n\r\n";
    assert!(matches!(interpret_search_reply(raw), Err(Error::Location)));
}

#[test]
fn search_reply_with_unparsable_location_fails() {
    let raw = b"HTTP/1.1 200 OK\r\nLocation: not a url\r\n\r\n";
    assert!(matches!(interpret_search_reply(raw), Err(Error::Location)));
}

#[test]
fn symbolic_host_fails_with_host_port() {
    let raw = b"HTTP/1.1 200 OK\r\nLocation: http://gateway.local:5000/rootDesc.xml\r\n\r\n";
    assert!(matches!(interpret_search_reply(raw), Err(Error::HostPort)));
}

#[test]
fn missing_port_fails_with_host_port() {
    let raw = b"HTTP/1.1 200 OK\r\nLocation: http://192.168.1.1/rootDesc.xml\r\n\r\n";
    assert!(matches!(interpret_search_reply(raw), Err(Error::HostPort)));
}

#[test]
fn ipv6_location_is_accepted() {
    let raw = b"HTTP/1.1 200 OK\r\nLocation: http://[fe80::1]:5000/rootDesc.xml\r\n\r\n";
    let d = interpret_search_reply(raw).expect("discovery");
    match &d.addr.ip {
        IpAddress::V6(t) => assert_eq!(t, "fe80::1"),
        _ => panic!("expected a v6 endpoint"),
    }
    assert_eq!(d.addr.port, 5000);
}
