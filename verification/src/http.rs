use vstd::prelude::*;
use crate::ascii::{ascii_eq, is_digit};
use crate::error::Error;
use vstd::slice::slice_to_vec;

verus! {

// ---------------------------------------------------------------------------
// Model
// ---------------------------------------------------------------------------

/// One HTTP header: raw name and value bytes, the value with surrounding
/// whitespace removed.
pub struct Header {
    pub name: Vec<u8>,
    pub value: Vec<u8>,
}

pub ghost struct HeaderModel {
    pub name: Seq<u8>,
    pub value: Seq<u8>,
}

impl View for Header {
    type V = HeaderModel;

    open spec fn view(&self) -> HeaderModel {
        HeaderModel { name: self.name@, value: self.value@ }
    }
}

/// A parsed HTTP response: status code, headers, and the offset at which
/// the body begins.  Only complete, non-chunked messages are supported.
pub struct Response {
    pub code: u16,
    pub headers: Vec<Header>,
    pub body_start: usize,
}

pub ghost struct RespModel {
    pub code: u16,
    pub headers: Seq<HeaderModel>,
    pub body_start: int,
}

pub open spec fn headers_view(hs: Seq<Header>) -> Seq<HeaderModel> {
    Seq::new(hs.len(), |k: int| hs[k]@)
}

impl View for Response {
    type V = RespModel;

    open spec fn view(&self) -> RespModel {
        RespModel {
            code: self.code,
            headers: headers_view(self.headers@),
            body_start: self.body_start as int,
        }
    }
}

// ---------------------------------------------------------------------------
// Grammar
// ---------------------------------------------------------------------------

/// The position of the first CRLF at or after `i`, if any.
pub open spec fn find_eol(s: Seq<u8>, i: int) -> Option<int>
    decreases s.len() - i,
{
    if i < 0 {
        None
    } else if i + 1 >= s.len() {
        None
    } else if s[i] == 13 && s[i + 1] == 10 {
        Some(i)
    } else {
        find_eol(s, i + 1)
    }
}

/// The position of the first `b` at or after `i` in `s[..end)`, if any.
pub open spec fn find_byte(s: Seq<u8>, i: int, b: u8) -> Option<int>
    decreases s.len() - i,
{
    if i < 0 || i >= s.len() {
        None
    } else if s[i] == b {
        Some(i)
    } else {
        find_byte(s, i + 1, b)
    }
}

pub open spec fn is_ws(b: u8) -> bool {
    b == 32 || b == 9
}

/// First index at or after `i` whose byte is not a space or tab.
pub open spec fn skip_ws(s: Seq<u8>, i: int) -> int
    decreases s.len() - i,
{
    if 0 <= i < s.len() && is_ws(s[i]) {
        skip_ws(s, i + 1)
    } else {
        i
    }
}

/// Last bound at or before `j` such that the byte before it is not a space
/// or tab.
pub open spec fn rskip_ws(s: Seq<u8>, j: int) -> int
    decreases j,
{
    if 0 < j <= s.len() && is_ws(s[j - 1]) {
        rskip_ws(s, j - 1)
    } else {
        j
    }
}

/// `s` with leading and trailing spaces and tabs removed.
pub open spec fn trim(s: Seq<u8>) -> Seq<u8> {
    let a = skip_ws(s, 0);
    let b = rskip_ws(s, s.len() as int);
    if 0 <= a && a <= b && b <= s.len() {
        s.subrange(a, b)
    } else {
        Seq::empty()
    }
}

/// A header name: non-empty, printable ASCII without colon or space.
pub open spec fn name_ok(n: Seq<u8>) -> bool {
    n.len() > 0 && forall|k: int| 0 <= k < n.len() ==> 33 <= n[k] && n[k] <= 126 && n[k] != 58
}

/// One header line (without its CRLF): `name ":" value` with optional
/// whitespace around the value.
pub open spec fn parse_header_line(line: Seq<u8>) -> Option<HeaderModel> {
    match find_byte(line, 0, 58) {
        None => None,
        Some(ci) => {
            if name_ok(line.subrange(0, ci)) {
                Some(
                    HeaderModel {
                        name: line.subrange(0, ci),
                        value: trim(line.subrange(ci + 1, line.len() as int)),
                    },
                )
            } else {
                None
            }
        },
    }
}

/// The header block starting at `i`: header lines up to and including an
/// empty line; returns the headers and the offset just past the empty line,
/// where the body begins.
pub open spec fn parse_headers(s: Seq<u8>, i: int) -> Option<(Seq<HeaderModel>, int)>
    decreases s.len() - i,
{
    match find_eol(s, i) {
        None => None,
        Some(j) => {
            if !(i <= j && j + 2 <= s.len()) {
                None
            } else if j == i {
                Some((Seq::empty(), i + 2))
            } else {
                match parse_header_line(s.subrange(i, j)) {
                    None => None,
                    Some(h) => match parse_headers(s, j + 2) {
                        None => None,
                        Some((hs, b)) => Some((seq![h] + hs, b)),
                    },
                }
            }
        },
    }
}

/// A parsable status line: `HTTP/<digit>.<digit> <3 digits>` followed by
/// a space and a reason phrase, or directly by CRLF.
pub open spec fn status_line_ok(s: Seq<u8>) -> bool {
    &&& s.len() >= 14
    &&& s[0] == 72 && s[1] == 84 && s[2] == 84 && s[3] == 80 && s[4] == 47
    &&& is_digit(s[5]) && s[6] == 46 && is_digit(s[7]) && s[8] == 32
    &&& is_digit(s[9]) && is_digit(s[10]) && is_digit(s[11])
    &&& match find_eol(s, 0) {
        Some(e) => e >= 12 && (e == 12 || s[12] == 32),
        None => false,
    }
}

/// The status code spelled by a parsable status line.
pub open spec fn code_of(s: Seq<u8>) -> u16 {
    (((s[9] - 48) as int) * 100 + ((s[10] - 48) as int) * 10 + ((s[11] - 48) as int)) as u16
}

/// The full response grammar: status line, header block, body offset.
pub open spec fn parse_response_spec(s: Seq<u8>) -> Option<RespModel> {
    if !status_line_ok(s) {
        None
    } else {
        match find_eol(s, 0) {
            None => None,
            Some(e) => match parse_headers(s, e + 2) {
                None => None,
                Some((hs, b)) => Some(RespModel { code: code_of(s), headers: hs, body_start: b }),
            },
        }
    }
}

/// The value of the first header whose name equals `name` up to ASCII case,
/// scanning from position `k`.
pub open spec fn find_header_from(hs: Seq<HeaderModel>, name: Seq<u8>, k: int) -> Option<Seq<u8>>
    decreases hs.len() - k,
{
    if k < 0 || k >= hs.len() {
        None
    } else if ascii_eq(hs[k].name, name) {
        Some(hs[k].value)
    } else {
        find_header_from(hs, name, k + 1)
    }
}

/// The value of the first header whose name equals `name` up to ASCII case.
pub open spec fn find_header(hs: Seq<HeaderModel>, name: Seq<u8>) -> Option<Seq<u8>> {
    find_header_from(hs, name, 0)
}

// ---------------------------------------------------------------------------
// Executable parser
// ---------------------------------------------------------------------------

fn find_eol_exec(s: &[u8], start: usize) -> (r: Option<usize>)
    requires
        start <= s@.len(),
    ensures
        match r {
            Some(j) => find_eol(s@, start as int) == Some(j as int) && start <= j && j + 1
                < s@.len() && s@[j as int] == 13 && s@[j as int + 1] == 10,
            None => find_eol(s@, start as int) is None,
        },
{
    let n = s.len();
    let mut j = start;
    while j < n
        invariant
            start <= j <= n == s@.len(),
            find_eol(s@, start as int) == find_eol(s@, j as int),
        decreases n - j,
    {
        if j + 1 >= n {
            return None;
        }
        if s[j] == 13 && s[j + 1] == 10 {
            return Some(j);
        }
        j = j + 1;
    }
    None
}

fn find_byte_exec(s: &[u8], start: usize, b: u8) -> (r: Option<usize>)
    requires
        start <= s@.len(),
    ensures
        match r {
            Some(j) => find_byte(s@, start as int, b) == Some(j as int) && start <= j && j
                < s@.len() && s@[j as int] == b,
            None => find_byte(s@, start as int, b) is None,
        },
{
    let n = s.len();
    let mut j = start;
    while j < n
        invariant
            start <= j <= n == s@.len(),
            find_byte(s@, start as int, b) == find_byte(s@, j as int, b),
        decreases n - j,
    {
        if s[j] == b {
            return Some(j);
        }
        j = j + 1;
    }
    None
}

fn parse_header_line_exec(line: &[u8]) -> (r: Option<Header>)
    ensures
        match r {
            Some(h) => parse_header_line(line@) == Some(h@),
            None => parse_header_line(line@) is None,
        },
{
    let n = line.len();
    let ci = match find_byte_exec(line, 0, 58) {
        Some(ci) => ci,
        None => {
            return None;
        },
    };
    if ci == 0 {
        return None;
    }
    // Validate the name characters.
    let mut k: usize = 0;
    while k < ci
        invariant
            0 <= k <= ci < n == line@.len(),
            find_byte(line@, 0, 58) == Some(ci as int),
            forall|t: int| 0 <= t < k ==> 33 <= line@[t] && line@[t] <= 126 && line@[t] != 58,
        decreases ci - k,
    {
        let b = line[k];
        if b < 33 || b > 126 || b == 58 {
            proof {
                let sub = line@.subrange(0, ci as int);
                assert(sub[k as int] == line@[k as int]);
                assert(!name_ok(sub));
            }
            return None;
        }
        k = k + 1;
    }
    proof {
        let sub = line@.subrange(0, ci as int);
        assert(forall|t: int| 0 <= t < ci ==> sub[t] == line@[t]);
        assert(name_ok(sub));
    }
    // Trim the value.
    let vs = &line[ci + 1..n];
    let m = vs.len();
    let mut a: usize = 0;
    while a < m && (vs[a] == 32 || vs[a] == 9)
        invariant
            0 <= a <= m == vs@.len(),
            skip_ws(vs@, 0) == skip_ws(vs@, a as int),
        decreases m - a,
    {
        a = a + 1;
    }
    assert(skip_ws(vs@, 0) == a as int);
    let mut b: usize = m;
    while b > a && (vs[b - 1] == 32 || vs[b - 1] == 9)
        invariant
            a <= b <= m == vs@.len(),
            rskip_ws(vs@, m as int) == rskip_ws(vs@, b as int),
        decreases b,
    {
        b = b - 1;
    }
    let name = slice_to_vec(&line[0..ci]);
    let value = slice_to_vec(&vs[a..b]);
    let h = Header { name, value };
    proof {
        lemma_rskip_le(vs@, b as int);
        assert(trim(vs@) =~= vs@.subrange(a as int, b as int));
        assert(parse_header_line(line@) == Some(h@));
    }
    Some(h)
}

proof fn lemma_rskip_le(s: Seq<u8>, j: int)
    ensures
        rskip_ws(s, j) <= j,
    decreases j,
{
    if 0 < j <= s.len() && is_ws(s[j - 1]) {
        lemma_rskip_le(s, j - 1);
    }
}

fn parse_headers_exec(s: &[u8], i: usize) -> (r: Option<(Vec<Header>, usize)>)
    requires
        i <= s@.len(),
    ensures
        match r {
            Some(p) => parse_headers(s@, i as int) == Some((headers_view(p.0@), p.1 as int))
                && i <= p.1 <= s@.len(),
            None => parse_headers(s@, i as int) is None,
        },
    decreases s@.len() - i,
{
    // Binds the slice length so that the offset arithmetic below is known
    // to stay within `usize`.
    let _n = s.len();
    let j = match find_eol_exec(s, i) {
        Some(j) => j,
        None => {
            return None;
        },
    };
    if j == i {
        let empty: Vec<Header> = Vec::new();
        proof {
            assert(headers_view(empty@) =~= Seq::<HeaderModel>::empty());
        }
        return Some((empty, i + 2));
    }
    let line = &s[i..j];
    let h = match parse_header_line_exec(line) {
        Some(h) => h,
        None => {
            return None;
        },
    };
    match parse_headers_exec(s, j + 2) {
        Some((mut hs, b)) => {
            hs.insert(0, h);
            proof {
                assert(headers_view(hs@) =~= seq![h@] + headers_view(hs@.subrange(
                    1,
                    hs@.len() as int,
                )));
                assert(headers_view(hs@.subrange(1, hs@.len() as int)) =~= headers_view(
                    hs@.drop_first(),
                ));
            }
            Some((hs, b))
        },
        None => None,
    }
}

/// Parses a complete HTTP response held in `s`.
///
/// Fails with `Error::StatusCode(None)` when the status line itself is not
/// parsable, and with `Error::Http` when the header block is malformed.
pub fn parse_response(s: &[u8]) -> (r: Result<Response, Error>)
    ensures
        match r {
            Ok(resp) => parse_response_spec(s@) == Some(resp@) && resp.body_start <= s@.len(),
            Err(e) => parse_response_spec(s@) is None && e == (if status_line_ok(s@) {
                Error::Http
            } else {
                Error::StatusCode(None)
            }),
        },
{
    let n = s.len();
    let e = match find_eol_exec(s, 0) {
        Some(e) => e,
        None => {
            return Err(Error::StatusCode(None));
        },
    };
    if !(n >= 14 && s[0] == 72 && s[1] == 84 && s[2] == 84 && s[3] == 80 && s[4] == 47 && 48
        <= s[5] && s[5] <= 57 && s[6] == 46 && 48 <= s[7] && s[7] <= 57 && s[8] == 32 && 48 <= s[9]
        && s[9] <= 57 && 48 <= s[10] && s[10] <= 57 && 48 <= s[11] && s[11] <= 57) {
        return Err(Error::StatusCode(None));
    }
    if !(e >= 12 && (e == 12 || s[12] == 32)) {
        return Err(Error::StatusCode(None));
    }
    assert(status_line_ok(s@));
    let code: u16 = ((s[9] - 48) as u16) * 100 + ((s[10] - 48) as u16) * 10 + ((s[11] - 48) as u16);
    match parse_headers_exec(s, e + 2) {
        Some((headers, body_start)) => Ok(Response { code, headers, body_start }),
        None => Err(Error::Http),
    }
}

/// The value of the first header matching `name` up to ASCII case, copied.
pub fn header_value(resp: &Response, name: &[u8]) -> (r: Option<Vec<u8>>)
    ensures
        match r {
            Some(v) => find_header(resp@.headers, name@) == Some(v@),
            None => find_header(resp@.headers, name@) is None,
        },
{
    let n = resp.headers.len();
    let mut k: usize = 0;
    while k < n
        invariant
            0 <= k <= n == resp.headers@.len(),
            find_header(resp@.headers, name@) == find_header_from(resp@.headers, name@, k as int),
        decreases n - k,
    {
        let hdr = &resp.headers[k];
        if crate::ascii::eq_ignore_ascii_case(hdr.name.as_slice(), name) {
            return Some(slice_to_vec(hdr.value.as_slice()));
        }
        k = k + 1;
    }
    None
}

/// Copies the body of a parsed response out of the raw bytes.
pub fn body_bytes(s: &[u8], resp: &Response) -> (r: Vec<u8>)
    requires
        resp.body_start <= s@.len(),
    ensures
        r@ == s@.subrange(resp@.body_start, s@.len() as int),
{
    slice_to_vec(&s[resp.body_start..s.len()])
}

} // verus!
