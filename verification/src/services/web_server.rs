//! Minimal HTTP/Redfish-like management protocol.
//!
//! The service exposes just enough Redfish shape for host tools to inspect
//! and toggle the controlled Raspberry Pi power state:
//! - `GET /ping` for a connectivity check;
//! - `GET /redfish/v1` and `GET /redfish/v1/Systems` for service discovery;
//! - `GET /redfish/v1/Systems/1` for the current power state;
//! - `POST /redfish/v1/Systems/1/Actions/ComputerSystem.Reset` with a
//!   compact JSON body naming `"ResetType":"On"`, `"ForceOff"` or
//!   `"ForceRestart"`.
//!
//! A request is read up to the blank line that ends its header (or until the
//! 1024-byte buffer is full or the peer stops sending). Routing looks at the
//! first two whitespace-separated words of the first line (method and path)
//! of the request decoded as UTF-8; invalid UTF-8 reads as an empty request.
//! Every other request gets an empty 404 reply.

use vstd::prelude::*;
use vstd::std_specs::iter::IteratorSpec;
use vstd::string::StringSliceAdditionalSpecFns;
use vstd::utf8::{decode_utf8, valid_utf8};
use crate::services::power_control::PowerAction;
use crate::utils::{
    ascii, ascii_bytes, decimal, dump_system_info, extend_bytes, find_blank_line, find_header_end, itoa,
    lemma_find_blank_line, system_info_off, system_info_on,
};

verus! {

/// `core::str::from_utf8`: the bytes viewed as a string slice when they are
/// well-formed UTF-8, `None` otherwise.
#[verifier::external_body]
fn str_from_utf8(b: &[u8]) -> (r: Option<&str>)
    ensures
        r is Some <==> valid_utf8(b@),
        r matches Some(s) ==> s.spec_bytes() == b@,
{
    core::str::from_utf8(b).ok()
}

fn collect_chars(s: &str) -> (v: Vec<char>)
    ensures
        v@ == s@,
{
    broadcast use vstd::string::next_postcondition, vstd::string::axiom_spec_iter;
    let mut it = s.chars();
    let mut v: Vec<char> = Vec::new();
    loop
        invariant
            v@ + it.remaining() == s@,
            it.decrease() is Some,
        ensures
            v@ == s@,
        decreases it.decrease()->0,
    {
        match it.next() {
            Some(c) => {
                v.push(c);
            },
            None => {
                assert(v@ =~= s@);
                break;
            },
        }
    }
    v
}

fn request_chars(b: &[u8]) -> (v: Vec<char>)
    ensures
        v@ == if valid_utf8(b@) { decode_utf8(b@) } else { Seq::empty() },
{
    match str_from_utf8(b) {
        Some(s) => {
            proof {
                vstd::utf8::encode_utf8_decode_utf8(s@);
            }
            collect_chars(s)
        },
        None => Vec::new(),
    }
}

/// Unicode `White_Space` characters, as `char::is_whitespace` classifies them.
pub open spec fn is_whitespace(c: char) -> bool {
    ||| ('\u{9}' <= c && c <= '\u{d}')
    ||| c == ' '
    ||| c == '\u{85}'
    ||| c == '\u{a0}'
    ||| c == '\u{1680}'
    ||| ('\u{2000}' <= c && c <= '\u{200a}')
    ||| c == '\u{2028}'
    ||| c == '\u{2029}'
    ||| c == '\u{202f}'
    ||| c == '\u{205f}'
    ||| c == '\u{3000}'
}

/// Whether `c` has the Unicode `White_Space` property.
pub fn char_is_whitespace(c: char) -> (r: bool)
    ensures
        r == is_whitespace(c),
{
    (c >= '\u{9}' && c <= '\u{d}') || c == ' ' || c == '\u{85}' || c == '\u{a0}' || c == '\u{1680}'
        || (c >= '\u{2000}' && c <= '\u{200a}') || c == '\u{2028}' || c == '\u{2029}' || c == '\u{202f}'
        || c == '\u{205f}' || c == '\u{3000}'
}

/// Text of a request: its UTF-8 decoding, or empty when it is not UTF-8.
pub open spec fn request_text(req: Seq<u8>) -> Seq<char> {
    if valid_utf8(req) { decode_utf8(req) } else { Seq::empty() }
}

/// Index of the first `'\n'` in `t` at or after `i`, or `t.len()`.
pub open spec fn line_end(t: Seq<char>, i: int) -> int
    decreases t.len() - i,
{
    if i < 0 || i >= t.len() {
        t.len() as int
    } else if t[i] == '\n' {
        i
    } else {
        line_end(t, i + 1)
    }
}

/// First index at or after `i` that is not whitespace (or the end).
pub open spec fn skip_space(s: Seq<char>, i: int) -> int
    decreases s.len() - i,
{
    if 0 <= i < s.len() && is_whitespace(s[i]) { skip_space(s, i + 1) } else { i }
}

/// First index at or after `i` that is whitespace (or the end).
pub open spec fn skip_word(s: Seq<char>, i: int) -> int
    decreases s.len() - i,
{
    if 0 <= i < s.len() && !is_whitespace(s[i]) { skip_word(s, i + 1) } else { i }
}

/// First line of a request text.
pub open spec fn request_line(t: Seq<char>) -> Seq<char> {
    t.subrange(0, line_end(t, 0))
}

/// First word of the request line, or empty.
pub open spec fn request_method(t: Seq<char>) -> Seq<char> {
    let l = request_line(t);
    let a = skip_space(l, 0);
    l.subrange(a, skip_word(l, a))
}

/// Second word of the request line, or empty.
pub open spec fn request_path(t: Seq<char>) -> Seq<char> {
    let l = request_line(t);
    let b = skip_word(l, skip_space(l, 0));
    let c = skip_space(l, b);
    l.subrange(c, skip_word(l, c))
}

/// Whether `pat` occurs in `h` at position `i`.
pub open spec fn occurs_at(h: Seq<u8>, pat: Seq<u8>, i: int) -> bool {
    0 <= i && i + pat.len() <= h.len() && h.subrange(i, i + pat.len()) == pat
}

/// Whether `pat` occurs in `h`.
pub open spec fn contains(h: Seq<u8>, pat: Seq<u8>) -> bool {
    exists|i: int| occurs_at(h, pat, i)
}

/// Reply chosen for a management request.
#[derive(Debug, Clone, Copy, PartialEq, Eq, Structural)]
pub enum HttpReply {
    /// `GET /ping`.
    Pong,
    /// `GET /redfish/v1`.
    ServiceRoot,
    /// `GET /redfish/v1/Systems`.
    SystemsCollection,
    /// `GET /redfish/v1/Systems/1`, with the power state at request time.
    SystemInfo(bool),
    /// Reset with `"ResetType":"On"`.
    PowerOn,
    /// Reset with `"ResetType":"ForceOff"`.
    ForceOff,
    /// Reset with `"ResetType":"ForceRestart"`.
    ForceRestart,
    /// Anything else.
    NotFound,
}

/// Path of the reset action.
pub open spec fn reset_path() -> Seq<char> {
    "/redfish/v1/Systems/1/Actions/ComputerSystem.Reset"@
}

/// Reply to the request bytes `req` when the power flag is `power_on`.
pub open spec fn route(req: Seq<u8>, power_on: bool) -> HttpReply {
    let t = request_text(req);
    let m = request_method(t);
    let p = request_path(t);
    if m == "GET"@ && p == "/ping"@ {
        HttpReply::Pong
    } else if m == "GET"@ && p == "/redfish/v1"@ {
        HttpReply::ServiceRoot
    } else if m == "GET"@ && p == "/redfish/v1/Systems"@ {
        HttpReply::SystemsCollection
    } else if m == "GET"@ && p == "/redfish/v1/Systems/1"@ {
        HttpReply::SystemInfo(power_on)
    } else if m == "POST"@ && p == reset_path() {
        if contains(req, ascii("\"ResetType\":\"On\""@)) {
            HttpReply::PowerOn
        } else if contains(req, ascii("\"ResetType\":\"ForceOff\""@)) {
            HttpReply::ForceOff
        } else if contains(req, ascii("\"ResetType\":\"ForceRestart\""@)) {
            HttpReply::ForceRestart
        } else {
            HttpReply::NotFound
        }
    } else {
        HttpReply::NotFound
    }
}

fn find_line_end(t: &Vec<char>) -> (r: usize)
    ensures
        r == line_end(t@, 0),
        r <= t@.len(),
{
    let mut i: usize = 0;
    while i < t.len()
        invariant
            i <= t@.len(),
            line_end(t@, 0) == line_end(t@, i as int),
        decreases t@.len() - i,
    {
        if t[i] == '\n' {
            return i;
        }
        i = i + 1;
    }
    i
}

proof fn lemma_skip_bounds(s: Seq<char>, i: int)
    requires
        0 <= i <= s.len(),
    ensures
        i <= skip_space(s, i) <= s.len(),
        i <= skip_word(s, i) <= s.len(),
    decreases s.len() - i,
{
    if i < s.len() {
        lemma_skip_bounds(s, i + 1);
    }
}

fn find_skip(t: &Vec<char>, end: usize, i: usize, word: bool) -> (r: usize)
    requires
        end <= t@.len(),
        i <= end,
    ensures
        word ==> r == skip_word(t@.subrange(0, end as int), i as int),
        !word ==> r == skip_space(t@.subrange(0, end as int), i as int),
        i <= r <= end,
{
    let ghost l = t@.subrange(0, end as int);
    let mut j: usize = i;
    while j < end && (char_is_whitespace(t[j]) != word)
        invariant
            l == t@.subrange(0, end as int),
            end <= t@.len(),
            i <= j <= end,
            word ==> skip_word(l, i as int) == skip_word(l, j as int),
            !word ==> skip_space(l, i as int) == skip_space(l, j as int),
        decreases end - j,
    {
        j = j + 1;
    }
    j
}

fn chars_equal(t: &Vec<char>, a: usize, b: usize, lit: &str) -> (r: bool)
    requires
        a <= b <= t@.len(),
    ensures
        r == (t@.subrange(a as int, b as int) == lit@),
{
    let l = collect_chars(lit);
    if b - a != l.len() {
        return false;
    }
    let mut k: usize = 0;
    while k < l.len()
        invariant
            a <= b <= t@.len(),
            l@ == lit@,
            b - a == l@.len(),
            k <= l@.len(),
            forall|q: int| 0 <= q < k ==> t@[a + q] == l@[q],
        decreases l@.len() - k,
    {
        if t[a + k] != l[k] {
            assert(t@.subrange(a as int, b as int)[k as int] != lit@[k as int]);
            return false;
        }
        k = k + 1;
    }
    assert(t@.subrange(a as int, b as int) =~= lit@);
    true
}

/// Whether `pat` occurs in `h`.
pub fn contains_bytes(h: &[u8], pat: &[u8]) -> (r: bool)
    ensures
        r == contains(h@, pat@),
{
    if pat.len() > h.len() {
        assert forall|i: int| !occurs_at(h@, pat@, i) by {}
        return false;
    }
    let mut i: usize = 0;
    while i <= h.len() - pat.len()
        invariant
            pat@.len() <= h@.len(),
            i <= h@.len() - pat@.len() + 1,
            forall|q: int| 0 <= q < i ==> !occurs_at(h@, pat@, q),
        decreases h@.len() - pat@.len() + 1 - i,
    {
        let mut k: usize = 0;
        let mut same = true;
        while k < pat.len()
            invariant
                pat@.len() <= h@.len(),
                i + pat@.len() <= h.len(),
                k <= pat@.len(),
                same == (forall|q: int| 0 <= q < k ==> h@[i + q] == pat@[q]),
            decreases pat@.len() - k,
        {
            if h[i + k] != pat[k] {
                same = false;
            }
            k = k + 1;
        }
        if same {
            assert(h@.subrange(i as int, i + pat@.len()) =~= pat@);
            assert(occurs_at(h@, pat@, i as int));
            return true;
        }
        assert(!occurs_at(h@, pat@, i as int)) by {
            if h@.subrange(i as int, i + pat@.len()) == pat@ {
                assert forall|q: int| 0 <= q < pat@.len() implies h@[i + q] == pat@[q] by {
                    assert(h@.subrange(i as int, i + pat@.len())[q] == h@[i + q]);
                }
            }
        }
        i = i + 1;
    }
    assert forall|q: int| !occurs_at(h@, pat@, q) by {
        if 0 <= q < i {
        }
    }
    false
}

/// The request text as characters and the bounds of its method (`a..b`)
/// and path (`c..d`).
fn request_line_bounds(req: &[u8]) -> (r: (Vec<char>, usize, usize, usize, usize))
    ensures
        r.1 <= r.2 <= r.0@.len(),
        r.3 <= r.4 <= r.0@.len(),
        request_method(request_text(req@)) == r.0@.subrange(r.1 as int, r.2 as int),
        request_path(request_text(req@)) == r.0@.subrange(r.3 as int, r.4 as int),
{
    let t = request_chars(req);
    let le = find_line_end(&t);
    let ghost l = t@.subrange(0, le as int);
    proof {
        lemma_skip_bounds(l, 0);
    }
    let a = find_skip(&t, le, 0, false);
    proof {
        lemma_skip_bounds(l, a as int);
    }
    let b = find_skip(&t, le, a, true);
    proof {
        lemma_skip_bounds(l, b as int);
    }
    let c = find_skip(&t, le, b, false);
    proof {
        lemma_skip_bounds(l, c as int);
    }
    let d = find_skip(&t, le, c, true);
    let ghost m = request_method(request_text(req@));
    let ghost p = request_path(request_text(req@));
    assert(m =~= t@.subrange(a as int, b as int));
    assert(p =~= t@.subrange(c as int, d as int));
    (t, a, b, c, d)
}

/// Whether the request is a POST to the reset action.
pub fn is_reset_post(req: &[u8]) -> (r: bool)
    ensures
        r == (request_method(request_text(req@)) == "POST"@ && request_path(request_text(req@)) == reset_path()),
{
    let (t, a, b, c, d) = request_line_bounds(req);
    chars_equal(&t, a, b, "POST") && chars_equal(&t, c, d, "/redfish/v1/Systems/1/Actions/ComputerSystem.Reset")
}

/// Chooses the reply to the request bytes `req` when the power flag is
/// `power_on`.
pub fn route_http_request(req: &[u8], power_on: bool) -> (r: HttpReply)
    ensures
        r == route(req@, power_on),
{
    let (t, a, b, c, d) = request_line_bounds(req);
    let is_get = chars_equal(&t, a, b, "GET");
    if is_get && chars_equal(&t, c, d, "/ping") {
        HttpReply::Pong
    } else if is_get && chars_equal(&t, c, d, "/redfish/v1") {
        HttpReply::ServiceRoot
    } else if is_get && chars_equal(&t, c, d, "/redfish/v1/Systems") {
        HttpReply::SystemsCollection
    } else if is_get && chars_equal(&t, c, d, "/redfish/v1/Systems/1") {
        HttpReply::SystemInfo(power_on)
    } else if chars_equal(&t, a, b, "POST") && chars_equal(
        &t,
        c,
        d,
        "/redfish/v1/Systems/1/Actions/ComputerSystem.Reset",
    ) {
        proof {
            reveal_strlit("\"ResetType\":\"On\"");
            reveal_strlit("\"ResetType\":\"ForceOff\"");
            reveal_strlit("\"ResetType\":\"ForceRestart\"");
        }
        if contains_bytes(req, ascii_bytes("\"ResetType\":\"On\"")) {
            HttpReply::PowerOn
        } else if contains_bytes(req, ascii_bytes("\"ResetType\":\"ForceOff\"")) {
            HttpReply::ForceOff
        } else if contains_bytes(req, ascii_bytes("\"ResetType\":\"ForceRestart\"")) {
            HttpReply::ForceRestart
        } else {
            HttpReply::NotFound
        }
    } else {
        HttpReply::NotFound
    }
}

/// Capacity of the request buffer.
pub const REQUEST_CAPACITY: usize = 1024;

/// Bytes of an HTTP request received so far.
pub struct HttpRequestBuffer {
    pub buf: [u8; REQUEST_CAPACITY],
    pub filled: usize,
}

impl HttpRequestBuffer {
    /// Received bytes.
    pub open spec fn received(&self) -> Seq<u8> {
        self.buf@.subrange(0, self.filled as int)
    }

    /// An empty request buffer, zero-filled.
    pub fn new() -> (r: Self)
        ensures
            r.filled == 0,
            r.received() == Seq::<u8>::empty(),
            r.buf@ == Seq::new(REQUEST_CAPACITY as nat, |i: int| 0u8),
    {
        let r = HttpRequestBuffer { buf: [0u8; REQUEST_CAPACITY], filled: 0 };
        assert(r.buf@ =~= Seq::new(REQUEST_CAPACITY as nat, |i: int| 0u8));
        assert(r.received() =~= Seq::<u8>::empty());
        r
    }

    /// Appends a read of at most `REQUEST_CAPACITY - filled` bytes. Reading
    /// stops (result `false`) when the peer closed the connection or failed,
    /// once the header's blank line has arrived, or when the buffer is full.
    pub fn on_read(&mut self, received: Result<&[u8], ()>) -> (more: bool)
        requires
            old(self).filled <= REQUEST_CAPACITY,
            received matches Ok(d) ==> d@.len() <= REQUEST_CAPACITY - old(self).filled,
        ensures
            final(self).filled <= REQUEST_CAPACITY,
            match received {
                Ok(d) => if d@.len() == 0 {
                    !more && final(self).received() == old(self).received()
                } else {
                    &&& final(self).received() == old(self).received() + d@
                    &&& more == (find_blank_line(final(self).received(), 0) == -1
                        && final(self).filled < REQUEST_CAPACITY)
                },
                Err(()) => !more && final(self).received() == old(self).received(),
            },
    {
        let d = match received {
            Err(()) => return false,
            Ok(d) => d,
        };
        if d.len() == 0 {
            return false;
        }
        let ghost old_rec = self.received();
        let mut i: usize = 0;
        while i < d.len()
            invariant
                old(self).filled + d@.len() <= REQUEST_CAPACITY,
                self.filled == old(self).filled,
                old_rec == old(self).received(),
                i <= d@.len(),
                forall|k: int| 0 <= k < self.filled ==> self.buf@[k] == old_rec[k],
                forall|k: int| 0 <= k < i ==> self.buf@[self.filled + k] == d@[k],
            decreases d@.len() - i,
        {
            self.buf[self.filled + i] = d[i];
            i = i + 1;
        }
        self.filled = self.filled + d.len();
        assert(self.received() =~= old_rec + d@);
        let end = find_header_end(&self.buf, self.filled);
        end == -1 && self.filled < REQUEST_CAPACITY
    }

    /// The received request bytes.
    pub fn request(&self) -> (r: &[u8])
        requires
            self.filled <= REQUEST_CAPACITY,
        ensures
            r@ == self.received(),
    {
        &self.buf[0..self.filled]
    }
}

impl HttpReply {
    /// HTTP status code of the reply.
    pub open spec fn spec_status(self) -> u16 {
        if self == HttpReply::NotFound { 404 } else { 200 }
    }

    /// HTTP status code of the reply.
    pub fn status(&self) -> (r: u16)
        ensures
            r == self.spec_status(),
    {
        match self {
            HttpReply::NotFound => 404,
            _ => 200,
        }
    }

    /// Reason phrase of the reply.
    pub fn reason(&self) -> (r: &'static str)
        ensures
            r@ == if *self == HttpReply::NotFound { "Not Found"@ } else { "OK"@ },
    {
        match self {
            HttpReply::NotFound => "Not Found",
            _ => "OK",
        }
    }

    /// Body of the reply.
    pub fn body(&self) -> (r: &'static str)
        ensures
            r@ == match *self {
                HttpReply::Pong => "connection up!"@,
                HttpReply::ServiceRoot => ROOT_RESOURCE@,
                HttpReply::SystemsCollection => SYSTEM_RESOURCE@,
                HttpReply::SystemInfo(on) => if on { system_info_on() } else { system_info_off() },
                HttpReply::PowerOn => "Power On!"@,
                HttpReply::ForceOff => "Force Power Off!"@,
                HttpReply::ForceRestart => "Force Restart!"@,
                HttpReply::NotFound => ""@,
            },
    {
        match self {
            HttpReply::Pong => "connection up!",
            HttpReply::ServiceRoot => ROOT_RESOURCE,
            HttpReply::SystemsCollection => SYSTEM_RESOURCE,
            HttpReply::SystemInfo(on) => dump_system_info("1", *on),
            HttpReply::PowerOn => "Power On!",
            HttpReply::ForceOff => "Force Power Off!",
            HttpReply::ForceRestart => "Force Restart!",
            HttpReply::NotFound => "",
        }
    }

    /// Power action requested by the reply's request, if any.
    pub fn action(&self) -> (r: Option<PowerAction>)
        ensures
            r == match *self {
                HttpReply::PowerOn => Some(PowerAction::On),
                HttpReply::ForceOff => Some(PowerAction::ForceOff),
                HttpReply::ForceRestart => Some(PowerAction::ForceRestart),
                _ => None,
            },
    {
        match self {
            HttpReply::PowerOn => Some(PowerAction::On),
            HttpReply::ForceOff => Some(PowerAction::ForceOff),
            HttpReply::ForceRestart => Some(PowerAction::ForceRestart),
            _ => None,
        }
    }
}

/// HTTP/1.1 response with a JSON content type. The `Content-Length` field
/// is the body length truncated to 16 bits.
pub open spec fn http_response_bytes(status: u16, reason: Seq<u8>, body: Seq<u8>) -> Seq<u8> {
    ascii("HTTP/1.1 "@) + decimal(status as nat) + ascii(" "@) + reason
        + ascii("\r\nContent-Type: application/json\r\nContent-Length: "@) + decimal(
        (body.len() as u16) as nat,
    ) + ascii("\r\nConnection: close\r\n\r\n"@) + body
}

/// Composes an HTTP/1.1 response without heap formatting of numbers.
pub fn send_response(status: u16, reason: &[u8], body: &[u8]) -> (r: Vec<u8>)
    ensures
        r@ == http_response_bytes(status, reason@, body@),
{
    let mut out: Vec<u8> = Vec::new();
    let mut num_buf = [0u8; 8];
    proof {
        reveal_strlit("HTTP/1.1 ");
        reveal_strlit(" ");
        reveal_strlit("\r\nContent-Type: application/json\r\nContent-Length: ");
        reveal_strlit("\r\nConnection: close\r\n\r\n");
        crate::utils::lemma_decimal_u16_len(status as nat);
        crate::utils::lemma_ascii_roundtrip(status as nat, 8);
    }
    extend_bytes(&mut out, ascii_bytes("HTTP/1.1 "));
    extend_bytes(&mut out, itoa(status, &mut num_buf));
    extend_bytes(&mut out, ascii_bytes(" "));
    extend_bytes(&mut out, reason);
    extend_bytes(&mut out, ascii_bytes("\r\nContent-Type: application/json\r\nContent-Length: "));
    let len = body.len() as u16;
    proof {
        crate::utils::lemma_decimal_u16_len(len as nat);
        crate::utils::lemma_ascii_roundtrip(len as nat, 8);
    }
    extend_bytes(&mut out, itoa(len, &mut num_buf));
    extend_bytes(&mut out, ascii_bytes("\r\nConnection: close\r\n\r\n"));
    if body.len() != 0 {
        extend_bytes(&mut out, body);
    }
    assert(out@ =~= http_response_bytes(status, reason@, body@));
    out
}

/// Redfish service root document.
pub const ROOT_RESOURCE: &'static str = r##"{
    "@odata.type": "#ServiceRoot.v1_15_0.ServiceRoot",
    "@odata.id": "/redfish/v1",
    "@odata.context": "/redfish/v1/$metadata#ServiceRoot.ServiceRoot",
    "Id": "RootService",
    "Name": "Root Service",
    "RedfishVersion": "1.13.0",
    "Systems": {
        "@odata.id": "/redfish/v1/Systems"
    },
    "Chassis": {
        "@odata.id": "/redfish/v1/Chassis"
    },
    "Managers": {
        "@odata.id": "/redfish/v1/Managers"
    }
}"##;

/// Redfish Systems collection document.
pub const SYSTEM_RESOURCE: &'static str = r##"{
  "@odata.id": "/redfish/v1/Systems",
  "Members": [
    { "@odata.id": "/redfish/v1/Systems/1" }
  ],
  "Members@odata.count": 1
}"##;

/// The management endpoints: each GET path names its document, the power
/// actions are only taken by a POST to the reset action whose body names
/// the reset type, and every other request is answered Not Found. The
/// system resource reports the power flag given.
pub proof fn lemma_route_endpoints(req: Seq<u8>, power_on: bool)
    ensures
        ({
            let m = request_method(request_text(req));
            let p = request_path(request_text(req));
            let r = route(req, power_on);
            &&& m == "GET"@ && p == "/ping"@ ==> r == HttpReply::Pong
            &&& m == "GET"@ && p == "/redfish/v1"@ ==> r == HttpReply::ServiceRoot
            &&& m == "GET"@ && p == "/redfish/v1/Systems"@ ==> r == HttpReply::SystemsCollection
            &&& m == "GET"@ && p == "/redfish/v1/Systems/1"@ ==> r == HttpReply::SystemInfo(power_on)
            &&& (r == HttpReply::PowerOn || r == HttpReply::ForceOff || r == HttpReply::ForceRestart)
                ==> m == "POST"@ && p == reset_path()
            &&& r == HttpReply::PowerOn <==> m == "POST"@ && p == reset_path()
                && contains(req, ascii("\"ResetType\":\"On\""@))
            &&& r == HttpReply::ForceOff ==> contains(req, ascii("\"ResetType\":\"ForceOff\""@))
            &&& (m != "GET"@ && m != "POST"@) ==> r == HttpReply::NotFound
        }),
{
    reveal_strlit("GET");
    reveal_strlit("POST");
    reveal_strlit("/ping");
    reveal_strlit("/redfish/v1");
    reveal_strlit("/redfish/v1/Systems");
    reveal_strlit("/redfish/v1/Systems/1");
    assert("GET"@.len() != "POST"@.len());
    assert("/ping"@.len() == 5 && "/redfish/v1"@.len() == 11);
    assert("/redfish/v1/Systems"@.len() == 19 && "/redfish/v1/Systems/1"@.len() == 21);
}

} // verus!
