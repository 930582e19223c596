use vstd::prelude::*;
use vstd::string::*;
use crate::ascii::{all_digits_range, dec_val_range, dec_seq, is_digit_char, parse_dec_range,
    u64_to_string};
use crate::error::Error;

verus! {

// ---------------------------------------------------------------------------
// Character classes
// ---------------------------------------------------------------------------

pub open spec fn is_alpha(c: char) -> bool {
    (65 <= c as u32 && c as u32 <= 90) || (97 <= c as u32 && c as u32 <= 122)
}

pub open spec fn is_hex_char(c: char) -> bool {
    is_digit_char(c) || (97 <= c as u32 && c as u32 <= 102) || (65 <= c as u32 && c as u32 <= 70)
}

/// Characters allowed in a symbolic host name.
pub open spec fn is_reg_name_char(c: char) -> bool {
    is_alpha(c) || is_digit_char(c) || c == '-' || c == '.' || c == '_' || c == '~'
}

pub open spec fn is_scheme_char(c: char) -> bool {
    is_alpha(c) || is_digit_char(c) || c == '+' || c == '-' || c == '.'
}

/// A URL scheme: a letter followed by letters, digits, `+`, `-` or `.`.
pub open spec fn scheme_ok(s: Seq<char>) -> bool {
    s.len() >= 1 && is_alpha(s[0]) && forall|k: int| 0 <= k < s.len() ==> is_scheme_char(s[k])
}

// ---------------------------------------------------------------------------
// Scanning helpers
// ---------------------------------------------------------------------------

/// The position of the first `c` at or after `i`, if any.
pub open spec fn find_char(s: Seq<char>, i: int, c: char) -> Option<int>
    decreases s.len() - i,
{
    if i < 0 || i >= s.len() {
        None
    } else if s[i] == c {
        Some(i)
    } else {
        find_char(s, i + 1, c)
    }
}

/// The end of the authority part: the first `/`, `?` or `#` at or after `i`,
/// or the end of the string.
pub open spec fn delim_end(s: Seq<char>, i: int) -> int
    decreases s.len() - i,
{
    if 0 <= i < s.len() {
        if s[i] == '/' || s[i] == '?' || s[i] == '#' {
            i
        } else {
            delim_end(s, i + 1)
        }
    } else {
        s.len() as int
    }
}

/// The end of the path part: the first `?` or `#` at or after `i`, or the
/// end of the string.
pub open spec fn query_end(s: Seq<char>, i: int) -> int
    decreases s.len() - i,
{
    if 0 <= i < s.len() {
        if s[i] == '?' || s[i] == '#' {
            i
        } else {
            query_end(s, i + 1)
        }
    } else {
        s.len() as int
    }
}

fn find_char_exec(s: &str, start: usize, c: char) -> (r: Option<usize>)
    requires
        start <= s@.len(),
    ensures
        match r {
            Some(j) => find_char(s@, start as int, c) == Some(j as int) && start <= j && j
                < s@.len() && s@[j as int] == c,
            None => find_char(s@, start as int, c) is None,
        },
{
    let n = s.unicode_len();
    let mut j = start;
    while j < n
        invariant
            start <= j <= n == s@.len(),
            find_char(s@, start as int, c) == find_char(s@, j as int, c),
        decreases n - j,
    {
        if s.get_char(j) == c {
            return Some(j);
        }
        j = j + 1;
    }
    None
}

fn delim_end_exec(s: &str, start: usize) -> (r: usize)
    requires
        start <= s@.len(),
    ensures
        delim_end(s@, start as int) == r as int,
        start <= r <= s@.len(),
{
    let n = s.unicode_len();
    let mut j = start;
    while j < n
        invariant
            start <= j <= n == s@.len(),
            delim_end(s@, start as int) == delim_end(s@, j as int),
        decreases n - j,
    {
        let c = s.get_char(j);
        if c == '/' || c == '?' || c == '#' {
            return j;
        }
        j = j + 1;
    }
    n
}

fn query_end_exec(s: &str, start: usize) -> (r: usize)
    requires
        start <= s@.len(),
    ensures
        query_end(s@, start as int) == r as int,
        start <= r <= s@.len(),
{
    let n = s.unicode_len();
    let mut j = start;
    while j < n
        invariant
            start <= j <= n == s@.len(),
            query_end(s@, start as int) == query_end(s@, j as int),
        decreases n - j,
    {
        let c = s.get_char(j);
        if c == '?' || c == '#' {
            return j;
        }
        j = j + 1;
    }
    n
}

// ---------------------------------------------------------------------------
// IPv4
// ---------------------------------------------------------------------------

/// One decimal octet `s[i..j)`: non-empty digits whose value is at most
/// 255, written without a leading zero.
pub open spec fn octet_of(s: Seq<char>, i: int, j: int) -> Option<u8> {
    if i < j && (j - i == 1 || s[i] != '0') && all_digits_range(s, i, j) && dec_val_range(s, i, j)
        <= 255 {
        Some(dec_val_range(s, i, j) as u8)
    } else {
        None
    }
}

/// A literal IPv4 address: four decimal octets joined by dots.
pub open spec fn ipv4_of(s: Seq<char>) -> Option<(u8, u8, u8, u8)> {
    match find_char(s, 0, '.') {
        None => None,
        Some(p1) => match find_char(s, p1 + 1, '.') {
            None => None,
            Some(p2) => match find_char(s, p2 + 1, '.') {
                None => None,
                Some(p3) => {
                    if find_char(s, p3 + 1, '.') is Some {
                        None
                    } else {
                        match (
                            octet_of(s, 0, p1),
                            octet_of(s, p1 + 1, p2),
                            octet_of(s, p2 + 1, p3),
                            octet_of(s, p3 + 1, s.len() as int),
                        ) {
                            (Some(a), Some(b), Some(c), Some(d)) => Some((a, b, c, d)),
                            _ => None,
                        }
                    }
                },
            },
        },
    }
}

fn octet_exec(s: &str, i: usize, j: usize) -> (r: Option<u8>)
    requires
        i <= j <= s@.len(),
    ensures
        r == octet_of(s@, i as int, j as int),
{
    if j - i > 1 && s.get_char(i) == '0' {
        return None;
    }
    match parse_dec_range(s, i, j, 255) {
        Some(v) => Some(v as u8),
        None => None,
    }
}

/// Parses a literal IPv4 address such as `192.168.0.1`.
pub fn parse_ipv4(s: &str) -> (r: Option<(u8, u8, u8, u8)>)
    ensures
        r == ipv4_of(s@),
{
    let n = s.unicode_len();
    let p1 = match find_char_exec(s, 0, '.') {
        Some(p) => p,
        None => {
            return None;
        },
    };
    let p2 = match find_char_exec(s, p1 + 1, '.') {
        Some(p) => p,
        None => {
            return None;
        },
    };
    let p3 = match find_char_exec(s, p2 + 1, '.') {
        Some(p) => p,
        None => {
            return None;
        },
    };
    if find_char_exec(s, p3 + 1, '.').is_some() {
        return None;
    }
    let a = octet_exec(s, 0, p1);
    let b = octet_exec(s, p1 + 1, p2);
    let c = octet_exec(s, p2 + 1, p3);
    let d = octet_exec(s, p3 + 1, n);
    match (a, b, c, d) {
        (Some(a), Some(b), Some(c), Some(d)) => Some((a, b, c, d)),
        _ => None,
    }
}

// ---------------------------------------------------------------------------
// IPv6
// ---------------------------------------------------------------------------

/// Hex digits `s[i..j)` forming one IPv6 group: one to four of them.
pub open spec fn group_ok(s: Seq<char>, i: int, j: int) -> bool {
    i < j && j - i <= 4 && forall|k: int| i <= k < j ==> is_hex_char(s[k])
}

/// The number of colon-separated hex groups filling `s[i..]`, if they do.
pub open spec fn group_list(s: Seq<char>, i: int) -> Option<int>
    decreases s.len() - i,
{
    match find_char(s, i, ':') {
        None => if group_ok(s, i, s.len() as int) {
            Some(1)
        } else {
            None
        },
        Some(j) => {
            if i < j && j + 1 <= s.len() && group_ok(s, i, j) {
                match group_list(s, j + 1) {
                    Some(m) => Some(m + 1),
                    None => None,
                }
            } else {
                None
            }
        },
    }
}

/// The position of the first `::` at or after `i`, if any.
pub open spec fn find_dc(s: Seq<char>, i: int) -> Option<int>
    decreases s.len() - i,
{
    if i < 0 || i + 1 >= s.len() {
        None
    } else if s[i] == ':' && s[i + 1] == ':' {
        Some(i)
    } else {
        find_dc(s, i + 1)
    }
}

/// A literal IPv6 address: eight hex groups, or at most seven around one
/// `::` abbreviation.  The dotted IPv4-in-IPv6 tail form (a trailing
/// `a.b.c.d` in place of the last two groups) is not part of this grammar.
pub open spec fn is_ipv6_text(s: Seq<char>) -> bool {
    match find_dc(s, 0) {
        None => group_list(s, 0) == Some(8int),
        Some(k) => {
            if !(0 <= k && k + 2 <= s.len()) {
                false
            } else {
                let left = if k == 0 {
                    Some(0int)
                } else {
                    group_list(s.subrange(0, k), 0)
                };
                let right = if k + 2 == s.len() {
                    Some(0int)
                } else {
                    group_list(s.subrange(k + 2, s.len() as int), 0)
                };
                match (left, right) {
                    (Some(l), Some(r)) => l + r <= 7,
                    _ => false,
                }
            }
        },
    }
}

/// Counts the groups of a group list, exactly up to eight; any count of
/// nine or more is reported as nine.
fn group_list_exec(s: &str, i: usize) -> (r: Option<u32>)
    requires
        i <= s@.len(),
    ensures
        match r {
            Some(m) => m <= 9 && (group_list(s@, i as int) matches Some(g) && (g == m as int || (m
                == 9 && g >= 9))),
            None => group_list(s@, i as int) is None,
        },
    decreases s@.len() - i,
{
    let n = s.unicode_len();
    match find_char_exec(s, i, ':') {
        None => {
            if group_ok_exec(s, i, n) {
                Some(1)
            } else {
                None
            }
        },
        Some(j) => {
            if i < j && group_ok_exec(s, i, j) {
                match group_list_exec(s, j + 1) {
                    Some(m) => if m >= 9 {
                        Some(9)
                    } else {
                        Some(m + 1)
                    },
                    None => None,
                }
            } else {
                None
            }
        },
    }
}

fn group_ok_exec(s: &str, i: usize, j: usize) -> (r: bool)
    requires
        i <= s@.len(),
        j <= s@.len(),
    ensures
        r == group_ok(s@, i as int, j as int),
{
    if !(i < j && j - i <= 4) {
        return false;
    }
    let mut k = i;
    while k < j
        invariant
            i <= k <= j <= s@.len(),
            forall|t: int| i <= t < k ==> is_hex_char(s@[t]),
        decreases j - k,
    {
        let c = s.get_char(k) as u32;
        if !((48 <= c && c <= 57) || (97 <= c && c <= 102) || (65 <= c && c <= 70)) {
            return false;
        }
        k = k + 1;
    }
    true
}

fn find_dc_exec(s: &str) -> (r: Option<usize>)
    ensures
        match r {
            Some(k) => find_dc(s@, 0) == Some(k as int) && k + 2 <= s@.len(),
            None => find_dc(s@, 0) is None,
        },
{
    let n = s.unicode_len();
    let mut j: usize = 0;
    while j < n
        invariant
            0 <= j <= n == s@.len(),
            find_dc(s@, 0) == find_dc(s@, j as int),
        decreases n - j,
    {
        if j + 1 >= n {
            return None;
        }
        if s.get_char(j) == ':' && s.get_char(j + 1) == ':' {
            return Some(j);
        }
        j = j + 1;
    }
    None
}

/// Checks a literal IPv6 address in its textual, unbracketed form.
pub fn parse_ipv6_text(s: &str) -> (r: bool)
    ensures
        r == is_ipv6_text(s@),
{
    let n = s.unicode_len();
    match find_dc_exec(s) {
        None => {
            match group_list_exec(s, 0) {
                Some(m) => m == 8,
                None => false,
            }
        },
        Some(k) => {
            let left: Option<u32> = if k == 0 {
                Some(0)
            } else {
                let ls = s.substring_char(0, k);
                group_list_exec(ls, 0)
            };
            let right: Option<u32> = if k + 2 == n {
                Some(0)
            } else {
                let rs = s.substring_char(k + 2, n);
                group_list_exec(rs, 0)
            };
            match (left, right) {
                (Some(l), Some(r)) => l + r <= 7,
                _ => false,
            }
        },
    }
}

// ---------------------------------------------------------------------------
// Hosts and URLs
// ---------------------------------------------------------------------------

/// The host part of a URL: a literal address or a symbolic name.
pub enum Host {
    V4(u8, u8, u8, u8),
    V6(String),
    Name(String),
}

pub ghost enum HostModel {
    V4(u8, u8, u8, u8),
    V6(Seq<char>),
    Name(Seq<char>),
}

impl View for Host {
    type V = HostModel;

    open spec fn view(&self) -> HostModel {
        match self {
            Host::V4(a, b, c, d) => HostModel::V4(*a, *b, *c, *d),
            Host::V6(t) => HostModel::V6(t@),
            Host::Name(t) => HostModel::Name(t@),
        }
    }
}

/// A parsed URL, reduced to what the client reads: scheme, host, explicit
/// port, and path.
pub struct UrlInfo {
    pub scheme: String,
    pub host: Host,
    pub port: Option<u16>,
    pub path: String,
}

pub ghost struct UrlModel {
    pub scheme: Seq<char>,
    pub host: HostModel,
    pub port: Option<u16>,
    pub path: Seq<char>,
}

impl View for UrlInfo {
    type V = UrlModel;

    open spec fn view(&self) -> UrlModel {
        UrlModel { scheme: self.scheme@, host: self.host@, port: self.port, path: self.path@ }
    }
}

/// The host classification: a digits-and-dots host must be a literal IPv4
/// address; otherwise only symbolic-name characters are accepted.
pub open spec fn host_of(h: Seq<char>) -> Option<HostModel> {
    if h.len() == 0 {
        None
    } else if forall|k: int| 0 <= k < h.len() ==> (is_digit_char(h[k]) || h[k] == '.') {
        match ipv4_of(h) {
            Some(q) => Some(HostModel::V4(q.0, q.1, q.2, q.3)),
            None => None,
        }
    } else if forall|k: int| 0 <= k < h.len() ==> is_reg_name_char(h[k]) {
        Some(HostModel::Name(h))
    } else {
        None
    }
}

/// A port written after the host: all of `a[i..]`, non-empty decimal digits
/// valued at most 65535.
pub open spec fn port_of(a: Seq<char>, i: int) -> Option<u16> {
    if i < a.len() && all_digits_range(a, i, a.len() as int) && dec_val_range(
        a,
        i,
        a.len() as int,
    ) <= 65535 {
        Some(dec_val_range(a, i, a.len() as int) as u16)
    } else {
        None
    }
}

/// The authority part of a URL: a bracketed IPv6 literal or a plain host,
/// optionally followed by `:` and a port.
pub open spec fn authority_of(a: Seq<char>) -> Option<(HostModel, Option<u16>)> {
    if a.len() == 0 {
        None
    } else if a[0] == '[' {
        match find_char(a, 1, ']') {
            None => None,
            Some(rb) => {
                if !(1 <= rb && rb <= a.len()) {
                    None
                } else if !is_ipv6_text(a.subrange(1, rb)) {
                    None
                } else if rb + 1 == a.len() {
                    Some((HostModel::V6(a.subrange(1, rb)), None))
                } else if a[rb + 1] == ':' {
                    match port_of(a, rb + 2) {
                        Some(p) => Some((HostModel::V6(a.subrange(1, rb)), Some(p))),
                        None => None,
                    }
                } else {
                    None
                }
            },
        }
    } else {
        match find_char(a, 0, ':') {
            None => match host_of(a) {
                Some(h) => Some((h, None)),
                None => None,
            },
            Some(ci) => {
                if !(0 <= ci && ci <= a.len()) {
                    None
                } else {
                    match (host_of(a.subrange(0, ci)), port_of(a, ci + 1)) {
                        (Some(h), Some(p)) => Some((h, Some(p))),
                        _ => None,
                    }
                }
            },
        }
    }
}

/// The path of the URL whose authority ends at `ae`: from the first `/` up
/// to the query or fragment; `/` when absent.
pub open spec fn path_of(s: Seq<char>, ae: int) -> Seq<char> {
    if 0 <= ae < s.len() && s[ae] == '/' {
        s.subrange(ae, query_end(s, ae))
    } else {
        seq!['/']
    }
}

/// The URL grammar accepted by the client: `scheme://authority[/path]`.
pub open spec fn parse_url_spec(s: Seq<char>) -> Option<UrlModel> {
    match find_char(s, 0, ':') {
        None => None,
        Some(k) => {
            if !(k + 2 < s.len() && s[k + 1] == '/' && s[k + 2] == '/') {
                None
            } else if !scheme_ok(s.subrange(0, k)) {
                None
            } else {
                let ae = delim_end(s, k + 3);
                if !(k + 3 <= ae && ae <= s.len()) {
                    None
                } else {
                    match authority_of(s.subrange(k + 3, ae)) {
                        None => None,
                        Some((h, p)) => Some(
                            UrlModel {
                                scheme: s.subrange(0, k),
                                host: h,
                                port: p,
                                path: path_of(s, ae),
                            },
                        ),
                    }
                }
            }
        },
    }
}

fn host_of_exec(h: &str) -> (r: Option<Host>)
    ensures
        match r {
            Some(v) => host_of(h@) == Some(v@),
            None => host_of(h@) is None,
        },
{
    let n = h.unicode_len();
    if n == 0 {
        return None;
    }
    let mut all_dd = true;
    let mut all_rn = true;
    let mut k: usize = 0;
    while k < n
        invariant
            0 <= k <= n == h@.len(),
            all_dd == (forall|t: int| 0 <= t < k ==> (is_digit_char(h@[t]) || h@[t] == '.')),
            all_rn == (forall|t: int| 0 <= t < k ==> is_reg_name_char(h@[t])),
        decreases n - k,
    {
        let c = h.get_char(k);
        let u = c as u32;
        let digit = 48 <= u && u <= 57;
        let alpha = (65 <= u && u <= 90) || (97 <= u && u <= 122);
        let dd = digit || c == '.';
        let rn = alpha || digit || c == '-' || c == '.' || c == '_' || c == '~';
        all_dd = all_dd && dd;
        all_rn = all_rn && rn;
        k = k + 1;
    }
    if all_dd {
        match parse_ipv4(h) {
            Some((a, b, c, d)) => Some(Host::V4(a, b, c, d)),
            None => None,
        }
    } else if all_rn {
        Some(Host::Name(h.to_owned()))
    } else {
        None
    }
}

fn authority_of_exec(a: &str) -> (r: Option<(Host, Option<u16>)>)
    ensures
        match r {
            Some(hp) => authority_of(a@) == Some((hp.0@, hp.1)),
            None => authority_of(a@) is None,
        },
{
    let n = a.unicode_len();
    if n == 0 {
        return None;
    }
    if a.get_char(0) == '[' {
        let rb = match find_char_exec(a, 1, ']') {
            Some(rb) => rb,
            None => {
                return None;
            },
        };
        let inner = a.substring_char(1, rb);
        if !parse_ipv6_text(inner) {
            return None;
        }
        let host = Host::V6(inner.to_owned());
        if rb + 1 == n {
            return Some((host, None));
        }
        if a.get_char(rb + 1) == ':' {
            match parse_dec_range(a, rb + 2, n, 65535) {
                Some(p) => Some((host, Some(p as u16))),
                None => None,
            }
        } else {
            None
        }
    } else {
        match find_char_exec(a, 0, ':') {
            None => {
                match host_of_exec(a) {
                    Some(h) => Some((h, None)),
                    None => None,
                }
            },
            Some(ci) => {
                let hs = a.substring_char(0, ci);
                let h = match host_of_exec(hs) {
                    Some(h) => h,
                    None => {
                        return None;
                    },
                };
                match parse_dec_range(a, ci + 1, n, 65535) {
                    Some(p) => Some((h, Some(p as u16))),
                    None => None,
                }
            },
        }
    }
}

fn scheme_ok_exec(sch: &str) -> (r: bool)
    ensures
        r == scheme_ok(sch@),
{
    let m = sch.unicode_len();
    if m == 0 {
        return false;
    }
    let c0 = sch.get_char(0) as u32;
    if !((65 <= c0 && c0 <= 90) || (97 <= c0 && c0 <= 122)) {
        return false;
    }
    let mut t: usize = 0;
    while t < m
        invariant
            0 <= t <= m == sch@.len(),
            forall|q: int| 0 <= q < t ==> is_scheme_char(sch@[q]),
        decreases m - t,
    {
        let c = sch.get_char(t);
        let u = c as u32;
        let ok = (65 <= u && u <= 90) || (97 <= u && u <= 122) || (48 <= u && u <= 57) || c == '+'
            || c == '-' || c == '.';
        if !ok {
            return false;
        }
        t = t + 1;
    }
    true
}

fn slash_string() -> (r: String)
    ensures
        r@ == seq!['/'],
{
    proof {
        reveal_strlit("/");
    }
    let r = "/".to_owned();
    proof {
        assert(r@ =~= seq!['/']);
    }
    r
}

/// Parses a URL of the form `scheme://host[:port][/path...]`.
pub fn parse_url(s: &str) -> (r: Option<UrlInfo>)
    ensures
        match r {
            Some(u) => parse_url_spec(s@) == Some(u@),
            None => parse_url_spec(s@) is None,
        },
{
    let n = s.unicode_len();
    let k = match find_char_exec(s, 0, ':') {
        Some(k) => k,
        None => {
            return None;
        },
    };
    if n < 3 || k > n - 3 {
        return None;
    }
    if !(s.get_char(k + 1) == '/' && s.get_char(k + 2) == '/') {
        return None;
    }
    let sch = s.substring_char(0, k);
    if !scheme_ok_exec(sch) {
        return None;
    }
    let ae = delim_end_exec(s, k + 3);
    let auth = s.substring_char(k + 3, ae);
    let (host, port) = match authority_of_exec(auth) {
        Some(hp) => hp,
        None => {
            return None;
        },
    };
    let path: String = if ae < n && s.get_char(ae) == '/' {
        let qe = query_end_exec(s, ae);
        s.substring_char(ae, qe).to_owned()
    } else {
        slash_string()
    };
    Some(UrlInfo { scheme: sch.to_owned(), host, port, path })
}

// ---------------------------------------------------------------------------
// Endpoints
// ---------------------------------------------------------------------------

/// A literal IP address; an IPv6 address is kept in its validated textual
/// form.
pub enum IpAddress {
    V4(u8, u8, u8, u8),
    V6(String),
}

pub ghost enum IpModel {
    V4(u8, u8, u8, u8),
    V6(Seq<char>),
}

impl View for IpAddress {
    type V = IpModel;

    open spec fn view(&self) -> IpModel {
        match self {
            IpAddress::V4(a, b, c, d) => IpModel::V4(*a, *b, *c, *d),
            IpAddress::V6(t) => IpModel::V6(t@),
        }
    }
}

/// A concrete network address: a literal IP address and a port.
pub struct Endpoint {
    pub ip: IpAddress,
    pub port: u16,
}

pub ghost struct EndpointModel {
    pub ip: IpModel,
    pub port: u16,
}

impl View for Endpoint {
    type V = EndpointModel;

    open spec fn view(&self) -> EndpointModel {
        EndpointModel { ip: self.ip@, port: self.port }
    }
}

/// Resolves a URL to the network address it names.  Only literal IPv4 and
/// IPv6 hosts with an explicit port are accepted; a symbolic host name or a
/// missing port fails with `Error::HostPort` rather than triggering any
/// name resolution.
pub fn url2sock(url: &UrlInfo) -> (r: Result<Endpoint, Error>)
    ensures
        match (url@.host, url@.port) {
            (HostModel::V4(a, b, c, d), Some(p)) => r matches Ok(e) && e@ == (EndpointModel {
                ip: IpModel::V4(a, b, c, d),
                port: p,
            }),
            (HostModel::V6(txt), Some(p)) => r matches Ok(e) && e@ == (EndpointModel {
                ip: IpModel::V6(txt),
                port: p,
            }),
            _ => r == Err::<Endpoint, Error>(Error::HostPort),
        },
{
    match (&url.host, &url.port) {
        (Host::V4(a, b, c, d), Some(p)) => Ok(
            Endpoint { ip: IpAddress::V4(*a, *b, *c, *d), port: *p },
        ),
        (Host::V6(txt), Some(p)) => Ok(Endpoint { ip: IpAddress::V6(txt.clone()), port: *p }),
        _ => Err(Error::HostPort),
    }
}

/// The IP address spelled by `s`, if any.
pub open spec fn ip_of(s: Seq<char>) -> Option<IpModel> {
    match ipv4_of(s) {
        Some(q) => Some(IpModel::V4(q.0, q.1, q.2, q.3)),
        None => if is_ipv6_text(s) {
            Some(IpModel::V6(s))
        } else {
            None
        },
    }
}

/// Parses a literal IP address, IPv4 or IPv6.
pub fn parse_ip(s: &str) -> (r: Option<IpAddress>)
    ensures
        match r {
            Some(ip) => ip_of(s@) == Some(ip@),
            None => ip_of(s@) is None,
        },
{
    match parse_ipv4(s) {
        Some((a, b, c, d)) => Some(IpAddress::V4(a, b, c, d)),
        None => {
            if parse_ipv6_text(s) {
                Some(IpAddress::V6(s.to_owned()))
            } else {
                None
            }
        },
    }
}

// ---------------------------------------------------------------------------
// Rendering
// ---------------------------------------------------------------------------

/// The textual form of an IP address, as it appears inside a SOAP body.
pub open spec fn ip_str(ip: IpModel) -> Seq<char> {
    match ip {
        IpModel::V4(a, b, c, d) => dec_seq(a as int) + seq!['.'] + dec_seq(b as int) + seq!['.']
            + dec_seq(c as int) + seq!['.'] + dec_seq(d as int),
        IpModel::V6(t) => t,
    }
}

/// The textual form of an endpoint, as it appears in a `Host` header.
pub open spec fn endpoint_str(e: EndpointModel) -> Seq<char> {
    match e.ip {
        IpModel::V4(_, _, _, _) => ip_str(e.ip) + seq![':'] + dec_seq(e.port as int),
        IpModel::V6(t) => seq!['['] + t + seq![']'] + seq![':'] + dec_seq(e.port as int),
    }
}

fn dot_string() -> (r: String)
    ensures
        r@ == seq!['.'],
{
    proof {
        reveal_strlit(".");
    }
    let r = ".".to_owned();
    proof {
        assert(r@ =~= seq!['.']);
    }
    r
}

/// Renders an IP address.
pub fn ip_string(ip: &IpAddress) -> (r: String)
    ensures
        r@ == ip_str(ip@),
{
    match ip {
        IpAddress::V4(a, b, c, d) => {
            let mut r = u64_to_string(*a as u64);
            r.append(dot_string().as_str());
            r.append(u64_to_string(*b as u64).as_str());
            r.append(dot_string().as_str());
            r.append(u64_to_string(*c as u64).as_str());
            r.append(dot_string().as_str());
            r.append(u64_to_string(*d as u64).as_str());
            proof {
                assert(r@ =~= ip_str(ip@));
            }
            r
        },
        IpAddress::V6(t) => t.clone(),
    }
}

/// Renders an endpoint as `host:port`, bracketing an IPv6 host.
pub fn endpoint_string(e: &Endpoint) -> (r: String)
    ensures
        r@ == endpoint_str(e@),
{
    proof {
        reveal_strlit("[");
        reveal_strlit("]:");
        reveal_strlit(":");
    }
    match &e.ip {
        IpAddress::V4(_, _, _, _) => {
            let mut r = ip_string(&e.ip);
            r.append(":");
            r.append(u64_to_string(e.port as u64).as_str());
            proof {
                assert(r@ =~= endpoint_str(e@));
            }
            r
        },
        IpAddress::V6(t) => {
            let mut r = "[".to_owned();
            r.append(t.as_str());
            r.append("]:");
            r.append(u64_to_string(e.port as u64).as_str());
            proof {
                assert(r@ =~= endpoint_str(e@));
            }
            r
        },
    }
}

} // verus!
