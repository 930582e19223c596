use igdp::addr::{Host, UrlInfo};
use igdp::error::Error;
use igdp::session::extract_control_url;

fn base_url() -> UrlInfo {
    UrlInfo {
        scheme: "http".to_string(),
        host: Host::V4(192, 168, 1, 1),
        port: Some(5000),
        path: "/rootDesc.xml".to_string(),
    }
}

fn http_200(body: &str) -> Vec<u8> {
    let mut raw = format!("HTTP/1.1 200 OK\r\nContent-Length: {}\r\n\r\n", body.len()).into_bytes();
    raw.extend_from_slice(body.as_bytes());
    raw
}

#[test]
fn control_url_of_matching_service() {
    let body = "<?xml version=\"1.0\"?>\
        <root xmlns=\"urn:schemas-upnp-org:device-1-0\"><device><serviceList>\
        <service>\
        <serviceType>urn:schemas-upnp-org:service:WANCommonInterfaceConfig:1</serviceType>\
        <controlURL>/ctl/CmnIfCfg</controlURL>\
        </service>\
        <service>\
        <serviceType>URN:schemas-upnp-org:service:WANIPConnection:2</serviceType>\
        <controlURL>/ctl/IPConn</controlURL>\
        </service>\
        </serviceList></device></root>";
    let url = extract_control_url(base_url(), &http_200(body)).expect("control url");
    assert_eq!(url.path, "/ctl/IPConn");
    assert_eq!(url.scheme, "http");
    assert!(matches!(url.host, Host::V4(192, 168, 1, 1)));
    assert_eq!(url.port, Some(5000));
}

#[test]
fn control_path_without_slash_is_rebased() {
    let body = "<?xml version=\"1.0\"?><root><service>\
        <serviceType>urn:schemas-upnp-org:service:WANIPConnection:2</serviceType>\
        <controlURL>ctl/IPConn</controlURL>\
        </service></root>";
    let url = extract_control_url(base_url(), &http_200(body)).expect("control url");
    assert_eq!(url.path, "/ctl/IPConn");
}

#[test]
fn no_matching_service_yields_missing_control_url() {
    let body = "<?xml version=\"1.0\"?><root><service>\
        <serviceType>urn:schemas-upnp-org:service:WANIPConnection:1</serviceType>\
        <controlURL>/ctl/IPConn</controlURL>\
        </service></root>";
    let r = extract_control_url(base_url(), &http_200(body));
    assert!(matches!(r, Err(Error::ControlUrl)));
}

#[test]
fn matching_service_without_control_url_yields_missing_control_url() {
    let body = "<?xml version=\"1.0\"?><root><service>\
        <serviceType>urn:schemas-upnp-org:service:WANIPConnection:2</serviceType>\
        </service></root>";
    let r = extract_control_url(base_url(), &http_200(body));
    assert!(matches!(r, Err(Error::ControlUrl)));
}

#[test]
fn first_match_without_control_url_is_decisive() {
    let body = "<?xml version=\"1.0\"?><root>\
        <service>\
        <serviceType>urn:schemas-upnp-org:service:WANIPConnection:2</serviceType>\
        </service>\
        <service>\
        <serviceType>urn:schemas-upnp-org:service:WANIPConnection:2</serviceType>\
        <controlURL>/ctl/Second</controlURL>\
        </service>\
        </root>";
    let r = extract_control_url(base_url(), &http_200(body));
    assert!(matches!(r, Err(Error::ControlUrl)));
}

#[test]
fn description_with_non_200_status_fails() {
    let raw = b"HTTP/1.1 500 Internal Server Error\r\n\r\n";
    let r = extract_control_url(base_url(), raw);
    assert!(matches!(r, Err(Error::StatusCode(Some(500)))));
}

#[test]
fn malformed_description_xml_fails() {
    let r = extract_control_url(base_url(), &http_200("<root><unclosed></root>"));
    assert!(matches!(r, Err(Error::Xml)));
}

#[test]
fn invalid_utf8_body_fails() {
    let mut raw = b"HTTP/1.1 200 OK\r\n\r\n".to_vec();
    raw.extend_from_slice(&[0xff, 0xfe, 0x80]);
    let r = extract_control_url(base_url(), &raw);
    assert!(matches!(r, Err(Error::Utf8)));
}
