use vstd::prelude::*;
use vstd::utf8::{decode_utf8, valid_utf8};
use crate::addr::{parse_url, parse_url_spec, url2sock, Endpoint, EndpointModel, HostModel,
    IpModel, UrlInfo, UrlModel};
use crate::ascii::bytes_to_str;
use crate::error::Error;
use crate::http::{find_header, header_value, parse_response, parse_response_spec,
    status_line_ok};

verus! {

// ---------------------------------------------------------------------------
// Retry policy
// ---------------------------------------------------------------------------

/// What the discovery loop does next, after some number of M-SEARCH
/// datagrams have gone unanswered.
#[derive(Debug, Clone, Copy, PartialEq, Eq)]
pub enum SearchAction {
    /// Send another M-SEARCH and wait one second for a datagram.
    Send,
    /// All attempts are spent: fail with `Error::Timeout`.
    GiveUp,
}

/// Discovery sends at most three M-SEARCH datagrams; silence is retried,
/// and only silence.
pub fn next_search_action(attempts_done: u8) -> (r: SearchAction)
    ensures
        r is Send <==> attempts_done < 3,
{
    if attempts_done < 3 {
        SearchAction::Send
    } else {
        SearchAction::GiveUp
    }
}

/// How many datagrams a discovery run sends when the gateway's behaviour
/// per attempt is given by `replies` (true: a datagram arrives within that
/// attempt's window).
pub open spec fn search_attempts(replies: Seq<bool>) -> int {
    if 0 < replies.len() && replies[0] {
        1
    } else if 1 < replies.len() && replies[1] {
        2
    } else if 2 < replies.len() && replies[2] {
        3
    } else {
        3
    }
}

/// Whether a discovery run ends with a datagram rather than a timeout.
pub open spec fn search_succeeds(replies: Seq<bool>) -> bool {
    ||| (0 < replies.len() && replies[0])
    ||| (1 < replies.len() && replies[1])
    ||| (2 < replies.len() && replies[2])
}

/// Runs the retry policy against a given reply pattern; yields the number
/// of attempts used and whether a datagram was received.  Entries beyond
/// the pattern count as silence.
pub fn simulate_search(replies: &Vec<bool>) -> (r: (u8, bool))
    ensures
        r.0 as int == search_attempts(replies@),
        r.1 == search_succeeds(replies@),
{
    let mut attempts: u8 = 0;
    loop
        invariant
            0 <= attempts <= 3,
            forall|i: int| 0 <= i < attempts ==> !(i < replies@.len() && replies@[i]),
        decreases 4 - attempts,
    {
        match next_search_action(attempts) {
            SearchAction::GiveUp => {
                return (attempts, false);
            },
            SearchAction::Send => {
                let idx = attempts as usize;
                attempts = attempts + 1;
                if idx < replies.len() {
                    if replies[idx] {
                        return (attempts, true);
                    }
                }
            },
        }
    }
}

/// A gateway that stays silent on the first attempt and replies on the
/// second is found with two datagrams sent.
pub proof fn lemma_reply_on_second_attempt(replies: Seq<bool>)
    requires
        replies.len() >= 2,
        !replies[0],
        replies[1],
    ensures
        search_succeeds(replies),
        search_attempts(replies) == 2,
{
}

/// A gateway that never replies costs exactly three attempts, and the run
/// does not succeed.
pub proof fn lemma_silent_gateway(replies: Seq<bool>)
    requires
        forall|i: int| 0 <= i < replies.len() ==> !replies[i],
    ensures
        !search_succeeds(replies),
        search_attempts(replies) == 3,
{
}

// ---------------------------------------------------------------------------
// Interpreting the M-SEARCH reply
// ---------------------------------------------------------------------------

/// State after discovery: the device description URL, paired with the
/// resolved network address it will be fetched from.
pub struct Discovery {
    pub url: UrlInfo,
    pub addr: Endpoint,
}

pub ghost struct DiscoveryModel {
    pub url: UrlModel,
    pub addr: EndpointModel,
}

impl View for Discovery {
    type V = DiscoveryModel;

    open spec fn view(&self) -> DiscoveryModel {
        DiscoveryModel { url: self.url@, addr: self.addr@ }
    }
}

/// What an M-SEARCH reply yields: the reply must be a 200 response whose
/// `Location` header (matched case-insensitively) parses as a URL with a
/// literal host and an explicit port.
pub open spec fn search_reply_spec(bytes: Seq<u8>) -> Result<DiscoveryModel, Error> {
    match parse_response_spec(bytes) {
        None => Err(
            if status_line_ok(bytes) {
                Error::Http
            } else {
                Error::StatusCode(None)
            },
        ),
        Some(resp) => {
            if resp.code != 200 {
                Err(Error::StatusCode(Some(resp.code)))
            } else {
                match find_header(resp.headers, vstd::utf8::encode_utf8("location"@)) {
                    None => Err(Error::Location),
                    Some(v) => {
                        if !valid_utf8(v) {
                            Err(Error::Location)
                        } else {
                            match parse_url_spec(decode_utf8(v)) {
                                None => Err(Error::Location),
                                Some(u) => match (u.host, u.port) {
                                    (HostModel::V4(a, b, c, d), Some(p)) => Ok(
                                        DiscoveryModel {
                                            url: u,
                                            addr: EndpointModel {
                                                ip: IpModel::V4(a, b, c, d),
                                                port: p,
                                            },
                                        },
                                    ),
                                    (HostModel::V6(t), Some(p)) => Ok(
                                        DiscoveryModel {
                                            url: u,
                                            addr: EndpointModel { ip: IpModel::V6(t), port: p },
                                        },
                                    ),
                                    _ => Err(Error::HostPort),
                                },
                            }
                        }
                    },
                }
            }
        },
    }
}

/// A successful discovery always pairs the URL with the literal address it
/// names: a symbolic host name or a missing port never reaches the
/// Discovered state, so no later step depends on name resolution.
pub proof fn lemma_discovered_host_is_literal(bytes: Seq<u8>, d: DiscoveryModel)
    requires
        search_reply_spec(bytes) == Ok::<DiscoveryModel, Error>(d),
    ensures
        d.url.port == Some(d.addr.port),
        match d.url.host {
            HostModel::V4(a, b, c, e) => d.addr.ip == IpModel::V4(a, b, c, e),
            HostModel::V6(t) => d.addr.ip == IpModel::V6(t),
            HostModel::Name(_) => false,
        },
{
}

/// Interprets the datagram that ended the discovery loop.  Parsing
/// failures on a received datagram are fatal, never retried.
pub fn interpret_search_reply(buf: &[u8]) -> (r: Result<Discovery, Error>)
    ensures
        match r {
            Ok(d) => search_reply_spec(buf@) == Ok::<DiscoveryModel, Error>(d@),
            Err(e) => search_reply_spec(buf@) == Err::<DiscoveryModel, Error>(e),
        },
{
    let resp = match parse_response(buf) {
        Ok(resp) => resp,
        Err(e) => {
            return Err(e);
        },
    };
    if resp.code != 200 {
        return Err(Error::StatusCode(Some(resp.code)));
    }
    let loc = match header_value(&resp, "location".as_bytes()) {
        Some(v) => v,
        None => {
            return Err(Error::Location);
        },
    };
    let ls = match bytes_to_str(loc.as_slice()) {
        Some(s) => s,
        None => {
            return Err(Error::Location);
        },
    };
    let url = match parse_url(ls) {
        Some(u) => u,
        None => {
            return Err(Error::Location);
        },
    };
    let addr = match url2sock(&url) {
        Ok(a) => a,
        Err(e) => {
            return Err(e);
        },
    };
    Ok(Discovery { url, addr })
}

} // verus!
