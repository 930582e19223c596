use igdp::addr::{parse_ip, parse_ipv4, parse_ipv6_text, parse_url, url2sock, Host, IpAddress};
use igdp::error::Error;

#[test]
fn ipv4_literals() {
    assert_eq!(parse_ipv4("192.168.0.1"), Some((192, 168, 0, 1)));
    assert_eq!(parse_ipv4("0.0.0.0"), Some((0, 0, 0, 0)));
    assert_eq!(parse_ipv4("255.255.255.255"), Some((255, 255, 255, 255)));
    assert_eq!(parse_ipv4("256.0.0.1"), None);
    assert_eq!(parse_ipv4("203.000.113.007"), None);
    assert_eq!(parse_ipv4("01.2.3.4"), None);
    assert_eq!(parse_ipv4("1.2.3"), None);
    assert_eq!(parse_ipv4("1.2.3.4.5"), None);
    assert_eq!(parse_ipv4("1.2..4"), None);
    assert_eq!(parse_ipv4("a.b.c.d"), None);
}

#[test]
fn ipv6_literals() {
    assert!(parse_ipv6_text("fe80::1"));
    assert!(parse_ipv6_text("::"));
    assert!(parse_ipv6_text("::1"));
    assert!(parse_ipv6_text("2001:db8:0:0:0:0:0:1"));
    assert!(!parse_ipv6_text("2001:db8"));
    assert!(!parse_ipv6_text("1::2::3"));
    assert!(!parse_ipv6_text("12345::1"));
    assert!(!parse_ipv6_text("gggg::1"));
    assert!(!parse_ipv6_text(""));
}

#[test]
fn ip_parsing_distinguishes_families() {
    assert!(matches!(parse_ip("203.0.113.7"), Some(IpAddress::V4(203, 0, 113, 7))));
    match parse_ip("fe80::1") {
        Some(IpAddress::V6(t)) => assert_eq!(t, "fe80::1"),
        _ => panic!("expected v6"),
    }
    assert!(parse_ip("999.1.2.3").is_none());
    assert!(parse_ip("host.example").is_none());
}

#[test]
fn url_with_port_and_path() {
    let u = parse_url("http://192.168.1.1:5000/rootDesc.xml").expect("url");
    assert_eq!(u.scheme, "http");
    assert!(matches!(u.host, Host::V4(192, 168, 1, 1)));
    assert_eq!(u.port, Some(5000));
    assert_eq!(u.path, "/rootDesc.xml");
}

#[test]
fn url_query_is_not_part_of_path() {
    let u = parse_url("http://192.168.1.1:5000/desc.xml?a=1#frag").expect("url");
    assert_eq!(u.path, "/desc.xml");
}

#[test]
fn url_without_path_gets_root_path() {
    let u = parse_url("http://192.168.1.1:5000").expect("url");
    assert_eq!(u.path, "/");
}

#[test]
fn url_with_bracketed_ipv6_host() {
    let u = parse_url("http://[2001:db8::1]:8080/x").expect("url");
    match &u.host {
        Host::V6(t) => assert_eq!(t, "2001:db8::1"),
        _ => panic!("expected v6 host"),
    }
    assert_eq!(u.port, Some(8080));
}

#[test]
fn url_with_symbolic_host() {
    let u = parse_url("http://gateway.local:5000/d.xml").expect("url");
    match &u.host {
        Host::Name(t) => assert_eq!(t, "gateway.local"),
        _ => panic!("expected a name host"),
    }
}

#[test]
fn malformed_urls_are_rejected() {
    assert!(parse_url("no-scheme-here").is_none());
    assert!(parse_url("http://").is_none());
    assert!(parse_url("http://192.168.1.1:99999/").is_none());
    assert!(parse_url("http://bad host/").is_none());
    assert!(parse_url("1http://x/").is_none());
}

#[test]
fn url2sock_accepts_only_literal_host_and_port() {
    let ok = parse_url("http://192.168.1.1:5000/d.xml").expect("url");
    let e = url2sock(&ok).expect("endpoint");
    assert!(matches!(e.ip, IpAddress::V4(192, 168, 1, 1)));
    assert_eq!(e.port, 5000);

    let name = parse_url("http://gateway.local:5000/d.xml").expect("url");
    assert!(matches!(url2sock(&name), Err(Error::HostPort)));

    let portless = parse_url("http://192.168.1.1/d.xml").expect("url");
    assert!(matches!(url2sock(&portless), Err(Error::HostPort)));
}
