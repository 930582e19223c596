use igdp::addr::{Endpoint, IpAddress};
use igdp::soap::{format_add_any_port_mapping, format_add_port_body, format_external_ip,
    format_get_req, service_type, ssdp_search_request, PortMapping, Protocol};

fn gateway() -> Endpoint {
    Endpoint { ip: IpAddress::V4(192, 168, 1, 1), port: 5000 }
}

fn mapping() -> PortMapping {
    PortMapping {
        protocol: Protocol::Tcp,
        address: IpAddress::V4(192, 168, 1, 7),
        port: 33445,
        description: "test".to_string(),
        lease_secs: 600,
    }
}

#[test]
fn ssdp_request_has_fixed_headers() {
    let req = ssdp_search_request();
    assert!(req.starts_with("M-SEARCH * HTTP/1.1\r\n"));
    assert!(req.contains("Host: 239.255.255.250:1900\r\n"));
    assert!(req.contains("MAN: \"ssdp:discover\"\r\n"));
    assert!(req.contains("MX: 1\r\n"));
    assert!(req.contains("ST: urn:schemas-upnp-org:service:WANIPConnection:2\r\n"));
    assert!(req.ends_with("\r\n\r\n"));
}

#[test]
fn service_type_is_wanipconnection_v2() {
    assert_eq!(service_type(), "urn:schemas-upnp-org:service:WANIPConnection:2");
}

#[test]
fn get_request_is_exact() {
    let req = format_get_req(&gateway(), "/rootDesc.xml");
    assert_eq!(
        req,
        "GET /rootDesc.xml HTTP/1.1\r\nHost: 192.168.1.1:5000\r\nConnection: close\r\n\r\n"
    );
}

#[test]
fn get_request_brackets_ipv6_host() {
    let e = Endpoint { ip: IpAddress::V6("fe80::1".to_string()), port: 5000 };
    let req = format_get_req(&e, "/d.xml");
    assert!(req.contains("Host: [fe80::1]:5000\r\n"));
}

#[test]
fn external_ip_request_envelope() {
    let req = format_external_ip(&gateway(), "/ctl/IPConn");
    assert!(req.starts_with("POST /ctl/IPConn HTTP/1.1\r\n"));
    assert!(req.contains("Host: 192.168.1.1:5000\r\n"));
    assert!(req.contains("Content-Type: text/xml\r\n"));
    assert!(req.contains(
        "SOAPAction: \"urn:schemas-upnp-org:service:WANIPConnection:2#GetExternalIPAddress\"\r\n"
    ));
    assert!(req.contains("Connection: Close\r\n\r\n"));
    assert!(req.contains("<u:GetExternalIPAddress xmlns:u=\"urn:schemas-upnp-org:service:WANIPConnection:2\"/>"));
    let body = req.split("\r\n\r\n").nth(1).expect("body");
    assert!(req.contains(&format!("Content-Length: {}\r\n", body.len())));
}

#[test]
fn add_port_mapping_body_fragments() {
    let body = format_add_port_body(&mapping());
    assert!(body.contains("<u:NewProtocol>TCP</u:NewProtocol>"));
    assert!(body.contains("<u:NewInternalPort>33445</u:NewInternalPort>"));
    assert!(body.contains("<u:NewLeaseDuration>600</u:NewLeaseDuration>"));
    assert!(body.contains("<u:NewExternalPort>0</u:NewExternalPort>"));
    assert!(body.contains("<u:NewInternalClient>192.168.1.7</u:NewInternalClient>"));
    assert!(body.contains("<u:NewPortMappingDescription>test</u:NewPortMappingDescription>"));
    assert!(body.contains("<u:NewRemoteHost/>"));
    assert!(body.contains("<u:NewEnabled>true</u:NewEnabled>"));
}

#[test]
fn udp_mapping_names_udp() {
    let mut pm = mapping();
    pm.protocol = Protocol::Udp;
    let body = format_add_port_body(&pm);
    assert!(body.contains("<u:NewProtocol>UDP</u:NewProtocol>"));
}

#[test]
fn add_port_mapping_request_wraps_body() {
    let req = format_add_any_port_mapping(&gateway(), "/ctl/IPConn", &mapping());
    let body = format_add_port_body(&mapping());
    assert!(req.starts_with("POST /ctl/IPConn HTTP/1.1\r\n"));
    assert!(req.contains(
        "SOAPAction: \"urn:schemas-upnp-org:service:WANIPConnection:2#AddAnyPortMapping\"\r\n"
    ));
    assert!(req.ends_with(&body));
    assert!(req.contains(&format!("Content-Length: {}\r\n", body.len())));
}

#[test]
fn protocol_names_are_exact_case() {
    assert_eq!(Protocol::Tcp.name(), "TCP");
    assert_eq!(Protocol::Udp.name(), "UDP");
}
