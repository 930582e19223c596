use igdp::addr::IpAddress;
use igdp::error::Error;
use igdp::session::{extract_external_ip, extract_port_mapping};

fn http_200(body: &str) -> Vec<u8> {
    let mut raw = format!("HTTP/1.1 200 OK\r\nContent-Length: {}\r\n\r\n", body.len()).into_bytes();
    raw.extend_from_slice(body.as_bytes());
    raw
}

fn ip_response(inner: &str) -> Vec<u8> {
    let body = format!(
        "<?xml version=\"1.0\"?>\
         <s:Envelope xmlns:s=\"http://schemas.xmlsoap.org/soap/envelope/\"><s:Body>\
         <u:GetExternalIPAddressResponse xmlns:u=\"urn:schemas-upnp-org:service:WANIPConnection:2\">\
         {}\
         </u:GetExternalIPAddressResponse>\
         </s:Body></s:Envelope>",
        inner
    );
    http_200(&body)
}

#[test]
fn external_ip_is_parsed() {
    let raw = ip_response("<NewExternalIPAddress>203.0.113.7</NewExternalIPAddress>");
    let r = extract_external_ip(&raw).expect("action");
    assert!(matches!(r, Some(IpAddress::V4(203, 0, 113, 7))));
}

#[test]
fn missing_external_ip_field_is_success_without_data() {
    let raw = ip_response("");
    let r = extract_external_ip(&raw).expect("action");
    assert!(r.is_none());
}

#[test]
fn unparsable_external_ip_is_success_without_data() {
    let raw = ip_response("<NewExternalIPAddress>not-an-ip</NewExternalIPAddress>");
    let r = extract_external_ip(&raw).expect("action");
    assert!(r.is_none());
}

#[test]
fn external_ip_with_error_status_fails() {
    let raw = b"HTTP/1.1 500 Internal Server Error\r\n\r\n";
    assert!(matches!(extract_external_ip(raw), Err(Error::StatusCode(Some(500)))));
}

fn port_response(inner: &str) -> Vec<u8> {
    let body = format!(
        "<?xml version=\"1.0\"?>\
         <s:Envelope xmlns:s=\"http://schemas.xmlsoap.org/soap/envelope/\"><s:Body>\
         <u:AddAnyPortMappingResponse xmlns:u=\"urn:schemas-upnp-org:service:WANIPConnection:2\">\
         {}\
         </u:AddAnyPortMappingResponse>\
         </s:Body></s:Envelope>",
        inner
    );
    http_200(&body)
}

#[test]
fn reserved_port_is_parsed() {
    let raw = port_response("<NewReservedPort>33445</NewReservedPort>");
    let r = extract_port_mapping(&raw).expect("action");
    assert_eq!(r, Some(33445));
}

#[test]
fn missing_reserved_port_is_success_without_data() {
    let raw = port_response("");
    let r = extract_port_mapping(&raw).expect("action");
    assert!(r.is_none());
}

#[test]
fn oversized_reserved_port_is_success_without_data() {
    let raw = port_response("<NewReservedPort>70000</NewReservedPort>");
    let r = extract_port_mapping(&raw).expect("action");
    assert!(r.is_none());
}

#[test]
fn malformed_action_xml_fails() {
    let raw = http_200("no xml here <");
    assert!(matches!(extract_port_mapping(&raw), Err(Error::Xml)));
}
