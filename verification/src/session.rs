use vstd::prelude::*;
use vstd::string::*;
use vstd::utf8::{decode_utf8, valid_utf8};
use crate::addr::{ip_of, parse_ip, Endpoint, EndpointModel, IpAddress, IpModel, UrlInfo,
    UrlModel};
use crate::ascii::{all_digits_range, ascii_eq_chars, bytes_to_str, dec_val_range,
    parse_dec_range, str_eq_ignore_ascii_case};
use crate::error::Error;
use crate::http::{body_bytes, parse_response, parse_response_spec, status_line_ok};
use crate::soap::{service_type, service_type_str};
use crate::xml::{descend, doc_wf, find_child, parse_xml, text_at, xml_doc_of, Cursor, XmlDoc,
    XmlNodeModel};

verus! {

// ---------------------------------------------------------------------------
// Shared response handling
// ---------------------------------------------------------------------------

/// What interpreting an HTTP response body as XML yields: only a complete
/// 200 response with a well-formed UTF-8 XML body passes.
pub open spec fn response_doc_spec(bytes: Seq<u8>) -> Result<Seq<XmlNodeModel>, Error> {
    match parse_response_spec(bytes) {
        None => Err(
            if status_line_ok(bytes) {
                Error::Http
            } else {
                Error::StatusCode(None)
            },
        ),
        Some(resp) => {
            if resp.code != 200 {
                Err(Error::StatusCode(Some(resp.code)))
            } else {
                let body = bytes.subrange(resp.body_start, bytes.len() as int);
                if !valid_utf8(body) {
                    Err(Error::Utf8)
                } else {
                    match xml_doc_of(decode_utf8(body)) {
                        None => Err(Error::Xml),
                        Some(d) => Ok(d),
                    }
                }
            }
        },
    }
}

/// Parses a response and its XML body.
pub fn response_doc(bytes: &[u8]) -> (r: Result<XmlDoc, Error>)
    ensures
        match r {
            Ok(d) => response_doc_spec(bytes@) == Ok::<Seq<XmlNodeModel>, Error>(d@) && doc_wf(d@),
            Err(e) => response_doc_spec(bytes@) == Err::<Seq<XmlNodeModel>, Error>(e),
        },
{
    let resp = match parse_response(bytes) {
        Ok(resp) => resp,
        Err(e) => {
            return Err(e);
        },
    };
    if resp.code != 200 {
        return Err(Error::StatusCode(Some(resp.code)));
    }
    let body = body_bytes(bytes, &resp);
    let bs = match bytes_to_str(body.as_slice()) {
        Some(s) => s,
        None => {
            return Err(Error::Utf8);
        },
    };
    match parse_xml(bs) {
        Some(d) => Ok(d),
        None => Err(Error::Xml),
    }
}

// ---------------------------------------------------------------------------
// Control URL resolution
// ---------------------------------------------------------------------------

/// State after the control URL has been resolved: the control URL (the
/// discovered URL with its path replaced) and the address it was fetched
/// through.
pub struct Control {
    pub url: UrlInfo,
    pub addr: Endpoint,
}

pub ghost struct ControlModel {
    pub url: UrlModel,
    pub addr: EndpointModel,
}

impl View for Control {
    type V = ControlModel;

    open spec fn view(&self) -> ControlModel {
        ControlModel { url: self.url@, addr: self.addr@ }
    }
}

/// The text of the named child of node `i`, if both exist.
pub open spec fn child_text(d: Seq<XmlNodeModel>, i: int, name: Seq<char>) -> Option<Seq<char>> {
    text_at(d, find_child(d, i, name))
}

/// Whether node `i` is a `service` element whose `serviceType` text equals
/// the WANIPConnection v2 URN up to ASCII case.
pub open spec fn service_matches(d: Seq<XmlNodeModel>, i: int) -> bool {
    &&& d[i].name == "service"@
    &&& match child_text(d, i, "serviceType"@) {
        Some(t) => ascii_eq_chars(t, service_type_str()),
        None => false,
    }
}

/// The `controlURL` text of the first matching service element at or after
/// `i`, in document order.  The first match is decisive: when it lacks a
/// `controlURL` text, the scan yields nothing.
pub open spec fn control_path_from(d: Seq<XmlNodeModel>, i: int) -> Option<Seq<char>>
    decreases d.len() - i,
{
    if i < 0 || i >= d.len() {
        None
    } else if service_matches(d, i) {
        child_text(d, i, "controlURL"@)
    } else {
        control_path_from(d, i + 1)
    }
}

/// Scans the document for the WANIPConnection v2 service and returns its
/// control URL text.
pub fn control_path_of(doc: &XmlDoc) -> (r: Option<String>)
    ensures
        match r {
            Some(t) => control_path_from(doc@, 0) == Some(t@),
            None => control_path_from(doc@, 0) is None,
        },
{
    let n = doc.nodes.len();
    let service_name = "service".to_owned();
    let mut i: usize = 0;
    while i < n
        invariant
            0 <= i <= n == doc@.len(),
            service_name@ == "service"@,
            control_path_from(doc@, 0) == control_path_from(doc@, i as int),
        decreases n - i,
    {
        let nd = &doc.nodes[i];
        if nd.name == service_name {
            let cur = Cursor { doc, node: Some(i) };
            let matches_type = match cur.get("serviceType").text() {
                Some(t) => str_eq_ignore_ascii_case(t.as_str(), service_type()),
                None => false,
            };
            if matches_type {
                return cur.get("controlURL").text();
            }
        }
        i = i + 1;
    }
    None
}

/// When no `service` element at or after `i` matches the WANIPConnection
/// v2 URN, the scan finds nothing — so resolution fails with
/// `Error::ControlUrl`.
pub proof fn lemma_no_matching_service(d: Seq<XmlNodeModel>, i: int)
    requires
        forall|j: int| i <= j < d.len() ==> !(#[trigger] service_matches(d, j)),
    ensures
        control_path_from(d, i) is None,
    decreases d.len() - i,
{
    if 0 <= i < d.len() {
        lemma_no_matching_service(d, i + 1);
    }
}

/// The first matching service is decisive: when it lacks a `controlURL`
/// text, the scan finds nothing — resolution fails with
/// `Error::ControlUrl` even if a later matching service carries one.
pub proof fn lemma_first_match_without_control_url(d: Seq<XmlNodeModel>, i: int, m: int)
    requires
        0 <= i <= m < d.len(),
        service_matches(d, m),
        forall|j: int| i <= j < m ==> !(#[trigger] service_matches(d, j)),
        child_text(d, m, "controlURL"@) is None,
    ensures
        control_path_from(d, i) is None,
    decreases m - i,
{
    if i < m {
        lemma_first_match_without_control_url(d, i + 1, m);
    }
}

/// A control path rebased onto the discovered URL: a leading slash is
/// added when missing.
pub open spec fn rebase_path(t: Seq<char>) -> Seq<char> {
    if t.len() > 0 && t[0] == '/' {
        t
    } else {
        seq!['/'] + t
    }
}

fn rebase_path_exec(t: String) -> (r: String)
    ensures
        r@ == rebase_path(t@),
{
    proof {
        reveal_strlit("/");
    }
    if t.unicode_len() > 0 && t.as_str().get_char(0) == '/' {
        t
    } else {
        let mut r = "/".to_owned();
        r.append(t.as_str());
        proof {
            assert(r@ =~= rebase_path(t@));
        }
        r
    }
}

/// What resolving the control URL from a device description yields: the
/// control path of the WANIPConnection v2 service replaces the path of the
/// discovered URL; everything else of the URL is kept.
pub open spec fn control_url_spec(base: UrlModel, bytes: Seq<u8>) -> Result<UrlModel, Error> {
    match response_doc_spec(bytes) {
        Err(e) => Err(e),
        Ok(d) => match control_path_from(d, 0) {
            None => Err(Error::ControlUrl),
            Some(t) => Ok(
                UrlModel {
                    scheme: base.scheme,
                    host: base.host,
                    port: base.port,
                    path: rebase_path(t),
                },
            ),
        },
    }
}

/// Extracts the control URL from a device description response, rebasing
/// its path onto the discovered URL.
pub fn extract_control_url(base: UrlInfo, bytes: &[u8]) -> (r: Result<UrlInfo, Error>)
    ensures
        match r {
            Ok(u) => control_url_spec(base@, bytes@) == Ok::<UrlModel, Error>(u@),
            Err(e) => control_url_spec(base@, bytes@) == Err::<UrlModel, Error>(e),
        },
{
    let doc = match response_doc(bytes) {
        Ok(d) => d,
        Err(e) => {
            return Err(e);
        },
    };
    match control_path_of(&doc) {
        None => Err(Error::ControlUrl),
        Some(t) => {
            let path = rebase_path_exec(t);
            Ok(UrlInfo { scheme: base.scheme, host: base.host, port: base.port, path })
        },
    }
}

// ---------------------------------------------------------------------------
// Action responses
// ---------------------------------------------------------------------------

/// The text at the fixed GetExternalIPAddress result path.
pub open spec fn external_ip_text(d: Seq<XmlNodeModel>) -> Option<Seq<char>> {
    text_at(
        d,
        descend(
            d,
            descend(
                d,
                descend(d, descend(d, Some(0), "Envelope"@), "Body"@),
                "GetExternalIPAddressResponse"@,
            ),
            "NewExternalIPAddress"@,
        ),
    )
}

/// What a GetExternalIPAddress response yields: an absent result field, or
/// one that does not spell an IP address, is success with no data.
pub open spec fn external_ip_spec(bytes: Seq<u8>) -> Result<Option<IpModel>, Error> {
    match response_doc_spec(bytes) {
        Err(e) => Err(e),
        Ok(d) => Ok(
            match external_ip_text(d) {
                None => None,
                Some(t) => ip_of(t),
            },
        ),
    }
}

/// Extracts the external IP address from a GetExternalIPAddress response.
pub fn extract_external_ip(bytes: &[u8]) -> (r: Result<Option<IpAddress>, Error>)
    ensures
        match r {
            Ok(Some(ip)) => external_ip_spec(bytes@) == Ok::<Option<IpModel>, Error>(Some(ip@)),
            Ok(None) => external_ip_spec(bytes@) == Ok::<Option<IpModel>, Error>(None),
            Err(e) => external_ip_spec(bytes@) == Err::<Option<IpModel>, Error>(e),
        },
{
    let doc = match response_doc(bytes) {
        Ok(d) => d,
        Err(e) => {
            return Err(e);
        },
    };
    let cur = Cursor::new(&doc);
    let t = cur.get("Envelope").get("Body").get("GetExternalIPAddressResponse").get(
        "NewExternalIPAddress",
    ).text();
    match t {
        None => Ok(None),
        Some(s) => Ok(parse_ip(s.as_str())),
    }
}

/// The number spelled by a reserved-port result field, when it fits a
/// 16-bit port.
pub open spec fn port_text_val(t: Seq<char>) -> Option<u16> {
    if t.len() > 0 && all_digits_range(t, 0, t.len() as int) && dec_val_range(
        t,
        0,
        t.len() as int,
    ) <= 65535 {
        Some(dec_val_range(t, 0, t.len() as int) as u16)
    } else {
        None
    }
}

/// The text at the fixed AddAnyPortMapping result path.
pub open spec fn reserved_port_text(d: Seq<XmlNodeModel>) -> Option<Seq<char>> {
    text_at(
        d,
        descend(
            d,
            descend(
                d,
                descend(d, descend(d, Some(0), "Envelope"@), "Body"@),
                "AddAnyPortMappingResponse"@,
            ),
            "NewReservedPort"@,
        ),
    )
}

/// What an AddAnyPortMapping response yields: the reserved external port,
/// or success with no data when the field is absent or not a port number.
pub open spec fn reserved_port_spec(bytes: Seq<u8>) -> Result<Option<u16>, Error> {
    match response_doc_spec(bytes) {
        Err(e) => Err(e),
        Ok(d) => Ok(
            match reserved_port_text(d) {
                None => None,
                Some(t) => port_text_val(t),
            },
        ),
    }
}

/// Extracts the reserved external port from an AddAnyPortMapping response.
pub fn extract_port_mapping(bytes: &[u8]) -> (r: Result<Option<u16>, Error>)
    ensures
        match r {
            Ok(p) => reserved_port_spec(bytes@) == Ok::<Option<u16>, Error>(p),
            Err(e) => reserved_port_spec(bytes@) == Err::<Option<u16>, Error>(e),
        },
{
    let doc = match response_doc(bytes) {
        Ok(d) => d,
        Err(e) => {
            return Err(e);
        },
    };
    let cur = Cursor::new(&doc);
    let t = cur.get("Envelope").get("Body").get("AddAnyPortMappingResponse").get(
        "NewReservedPort",
    ).text();
    match t {
        None => Ok(None),
        Some(s) => {
            let st = s.as_str();
            let n = st.unicode_len();
            match parse_dec_range(st, 0, n, 65535) {
                Some(v) => Ok(Some(v as u16)),
                None => Ok(None),
            }
        },
    }
}

} // verus!
