use vstd::prelude::*;
use vstd::string::*;
use crate::addr::{endpoint_str, ip_str, endpoint_string, ip_string, Endpoint, IpAddress, IpModel};
use crate::ascii::{dec_seq, u64_to_string};
use vstd::utf8::encode_utf8;

verus! {

// ---------------------------------------------------------------------------
// Wire constants
// ---------------------------------------------------------------------------

/// The service the client looks for, WANIPConnection version 2.
pub open spec fn service_type_str() -> Seq<char> {
    "urn:schemas-upnp-org:service:WANIPConnection:2"@
}

/// The fixed WANIPConnection v2 service URN.
pub fn service_type() -> (r: &'static str)
    ensures
        r@ == service_type_str(),
{
    "urn:schemas-upnp-org:service:WANIPConnection:2"
}

/// The SSDP M-SEARCH datagram sent to the multicast group.
pub open spec fn ssdp_search_str() -> Seq<char> {
    "M-SEARCH * HTTP/1.1\r\nHost: 239.255.255.250:1900\r\nMAN: \"ssdp:discover\"\r\nMX: 1\r\nST: urn:schemas-upnp-org:service:WANIPConnection:2\r\nCPFN.UPNP.ORG: igdp\r\n\r\n"@
}

/// The SSDP M-SEARCH request asking for a WANIPConnection v2 endpoint.
pub fn ssdp_search_request() -> (r: &'static str)
    ensures
        r@ == ssdp_search_str(),
{
    "M-SEARCH * HTTP/1.1\r\nHost: 239.255.255.250:1900\r\nMAN: \"ssdp:discover\"\r\nMX: 1\r\nST: urn:schemas-upnp-org:service:WANIPConnection:2\r\nCPFN.UPNP.ORG: igdp\r\n\r\n"
}

// ---------------------------------------------------------------------------
// Protocols and port mappings
// ---------------------------------------------------------------------------

/// The transport protocol a port mapping is requested for.
#[derive(Clone, Copy, Debug, PartialEq, Eq)]
pub enum Protocol {
    Tcp,
    Udp,
}

/// The protocol name as it appears in a SOAP body: exact case.
pub open spec fn protocol_str(p: Protocol) -> Seq<char> {
    match p {
        Protocol::Tcp => "TCP"@,
        Protocol::Udp => "UDP"@,
    }
}

impl Protocol {
    /// The protocol's wire name.
    pub fn name(&self) -> (r: &'static str)
        ensures
            r@ == protocol_str(*self),
    {
        match self {
            Protocol::Tcp => "TCP",
            Protocol::Udp => "UDP",
        }
    }
}

/// A port-mapping request: the external port is always requested as "any"
/// (0); the gateway chooses and returns the actual external port.
pub struct PortMapping {
    pub protocol: Protocol,
    pub address: IpAddress,
    pub port: u16,
    pub description: String,
    pub lease_secs: u64,
}

pub ghost struct PortMappingModel {
    pub protocol: Protocol,
    pub address: IpModel,
    pub port: u16,
    pub description: Seq<char>,
    pub lease_secs: u64,
}

impl View for PortMapping {
    type V = PortMappingModel;

    open spec fn view(&self) -> PortMappingModel {
        PortMappingModel {
            protocol: self.protocol,
            address: self.address@,
            port: self.port,
            description: self.description@,
            lease_secs: self.lease_secs,
        }
    }
}

// ---------------------------------------------------------------------------
// Request formatting
// ---------------------------------------------------------------------------

/// The device-description fetch: a close-after-response GET.
pub open spec fn get_req_str(host: crate::addr::EndpointModel, path: Seq<char>) -> Seq<char> {
    "GET "@ + path + " HTTP/1.1\r\nHost: "@ + endpoint_str(host)
        + "\r\nConnection: close\r\n\r\n"@
}

/// Formats the HTTP GET for the device description.
pub fn format_get_req(host: &Endpoint, path: &str) -> (r: String)
    ensures
        r@ == get_req_str(host@, path@),
{
    let mut r = "GET ".to_owned();
    r.append(path);
    r.append(" HTTP/1.1\r\nHost: ");
    r.append(endpoint_string(host).as_str());
    r.append("\r\nConnection: close\r\n\r\n");
    proof {
        assert(r@ =~= get_req_str(host@, path@));
    }
    r
}

/// The SOAP 1.1 envelope for GetExternalIPAddress, which takes no
/// arguments.
pub open spec fn external_ip_body_str() -> Seq<char> {
    "<?xml version=\"1.0\" encoding=\"utf-8\"?>\r\n<s:Envelope xmlns:s=\"http://schemas.xmlsoap.org/soap/envelope/\" s:encodingStyle=\"http://schemas.xmlsoap.org/soap/encoding/\"><s:Body><u:GetExternalIPAddress xmlns:u=\"urn:schemas-upnp-org:service:WANIPConnection:2\"/></s:Body></s:Envelope>"@
}

/// A SOAP POST to the control path: `Content-Length` is the byte length of
/// the body, and `SOAPAction` carries the fully qualified action URN.
pub open spec fn soap_post_str(
    host: crate::addr::EndpointModel,
    path: Seq<char>,
    action: Seq<char>,
    body: Seq<char>,
) -> Seq<char> {
    "POST "@ + path + " HTTP/1.1\r\nHost: "@ + endpoint_str(host) + "\r\nContent-Length: "@
        + dec_seq((encode_utf8(body).len() as usize) as int) + "\r\nContent-Type: text/xml\r\nSOAPAction: \"urn:schemas-upnp-org:service:WANIPConnection:2#"@
        + action + "\"\r\nConnection: Close\r\n\r\n"@ + body
}

fn format_soap_post(host: &Endpoint, path: &str, action: &str, body: &str) -> (r: String)
    ensures
        r@ == soap_post_str(host@, path@, action@, body@),
{
    let mut r = "POST ".to_owned();
    r.append(path);
    r.append(" HTTP/1.1\r\nHost: ");
    r.append(endpoint_string(host).as_str());
    r.append("\r\nContent-Length: ");
    r.append(u64_to_string(body.len() as u64).as_str());
    r.append("\r\nContent-Type: text/xml\r\nSOAPAction: \"urn:schemas-upnp-org:service:WANIPConnection:2#");
    r.append(action);
    r.append("\"\r\nConnection: Close\r\n\r\n");
    r.append(body);
    proof {
        assert(r@ =~= soap_post_str(host@, path@, action@, body@));
    }
    r
}

/// The full GetExternalIPAddress request.
pub open spec fn external_ip_req_str(host: crate::addr::EndpointModel, path: Seq<char>) -> Seq<
    char,
> {
    soap_post_str(host, path, "GetExternalIPAddress"@, external_ip_body_str())
}

/// Formats the HTTP POST invoking GetExternalIPAddress.
pub fn format_external_ip(host: &Endpoint, path: &str) -> (r: String)
    ensures
        r@ == external_ip_req_str(host@, path@),
{
    format_soap_post(
        host,
        path,
        "GetExternalIPAddress",
        "<?xml version=\"1.0\" encoding=\"utf-8\"?>\r\n<s:Envelope xmlns:s=\"http://schemas.xmlsoap.org/soap/envelope/\" s:encodingStyle=\"http://schemas.xmlsoap.org/soap/encoding/\"><s:Body><u:GetExternalIPAddress xmlns:u=\"urn:schemas-upnp-org:service:WANIPConnection:2\"/></s:Body></s:Envelope>",
    )
}

/// The SOAP 1.1 envelope for AddAnyPortMapping: external port fixed at 0,
/// the gateway picks the actual external port.
pub open spec fn add_port_body_str(pm: PortMappingModel) -> Seq<char> {
    "<?xml version=\"1.0\" encoding=\"utf-8\"?>\r\n<s:Envelope xmlns:s=\"http://schemas.xmlsoap.org/soap/envelope/\" s:encodingStyle=\"http://schemas.xmlsoap.org/soap/encoding/\"><s:Body><u:AddAnyPortMapping xmlns:u=\"urn:schemas-upnp-org:service:WANIPConnection:2\"><u:NewRemoteHost/><u:NewExternalPort>0</u:NewExternalPort><u:NewProtocol>"@
        + protocol_str(pm.protocol) + "</u:NewProtocol><u:NewInternalPort>"@ + dec_seq(
        pm.port as int,
    ) + "</u:NewInternalPort><u:NewInternalClient>"@ + ip_str(pm.address)
        + "</u:NewInternalClient><u:NewEnabled>true</u:NewEnabled><u:NewPortMappingDescription>"@
        + pm.description + "</u:NewPortMappingDescription><u:NewLeaseDuration>"@ + dec_seq(
        pm.lease_secs as int,
    ) + "</u:NewLeaseDuration></u:AddAnyPortMapping></s:Body></s:Envelope>"@
}

/// Formats the SOAP body of an AddAnyPortMapping request.
pub fn format_add_port_body(pm: &PortMapping) -> (r: String)
    ensures
        r@ == add_port_body_str(pm@),
{
    let mut r =
        "<?xml version=\"1.0\" encoding=\"utf-8\"?>\r\n<s:Envelope xmlns:s=\"http://schemas.xmlsoap.org/soap/envelope/\" s:encodingStyle=\"http://schemas.xmlsoap.org/soap/encoding/\"><s:Body><u:AddAnyPortMapping xmlns:u=\"urn:schemas-upnp-org:service:WANIPConnection:2\"><u:NewRemoteHost/><u:NewExternalPort>0</u:NewExternalPort><u:NewProtocol>".to_owned();
    r.append(pm.protocol.name());
    r.append("</u:NewProtocol><u:NewInternalPort>");
    r.append(u64_to_string(pm.port as u64).as_str());
    r.append("</u:NewInternalPort><u:NewInternalClient>");
    r.append(ip_string(&pm.address).as_str());
    r.append("</u:NewInternalClient><u:NewEnabled>true</u:NewEnabled><u:NewPortMappingDescription>");
    r.append(pm.description.as_str());
    r.append("</u:NewPortMappingDescription><u:NewLeaseDuration>");
    r.append(u64_to_string(pm.lease_secs).as_str());
    r.append("</u:NewLeaseDuration></u:AddAnyPortMapping></s:Body></s:Envelope>");
    proof {
        assert(r@ =~= add_port_body_str(pm@));
    }
    r
}

/// The full AddAnyPortMapping request.
pub open spec fn add_port_req_str(
    host: crate::addr::EndpointModel,
    path: Seq<char>,
    pm: PortMappingModel,
) -> Seq<char> {
    soap_post_str(host, path, "AddAnyPortMapping"@, add_port_body_str(pm))
}

/// Formats the HTTP POST invoking AddAnyPortMapping.
pub fn format_add_any_port_mapping(host: &Endpoint, path: &str, pm: &PortMapping) -> (r: String)
    ensures
        r@ == add_port_req_str(host@, path@, pm@),
{
    let body = format_add_port_body(pm);
    format_soap_post(host, path, "AddAnyPortMapping", body.as_str())
}

} // verus!
