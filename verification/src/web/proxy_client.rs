//! Which headers a proxied request and response carry, and how the upstream
//! request is addressed.
use vstd::prelude::*;

use crate::errors::BridgeError;
use crate::text::{chars_eq, chars_of, copy_string, str_eq, string_from_chars, views};

verus! {

/// Request headers that are not forwarded upstream.
pub const HOP_BY_HOP_REQ: [&'static str; 4] = ["connection", "keep-alive", "host", "content-length"];

/// Response headers that are not handed back to the client.
pub const HOP_BY_HOP_RESP: [&'static str; 4] = [
    "connection",
    "keep-alive",
    "content-length",
    "transfer-encoding",
];

/// Request headers that are not forwarded on a WebSocket upgrade.
pub const WS_STRIP_REQ: [&'static str; 10] = [
    "host",
    "connection",
    "upgrade",
    "sec-websocket-key",
    "sec-websocket-version",
    "sec-websocket-accept",
    "sec-websocket-extensions",
    "content-length",
    "keep-alive",
    "transfer-encoding",
];

/// The characters of each name of a list.
pub open spec fn name_views(list: Seq<&'static str>) -> Seq<Seq<char>> {
    list.map_values(|s: &'static str| s@)
}

/// Whether `name` is one of `list`.
pub fn is_listed(name: &str, list: &[&'static str]) -> (r: bool)
    ensures
        r == name_views(list@).contains(name@),
{
    let mut i: usize = 0;
    while i < list.len()
        invariant
            i <= list@.len(),
            forall|j: int| 0 <= j < i ==> name_views(list@)[j] != name@,
        decreases list@.len() - i,
    {
        if str_eq(list[i], name) {
            assert(name_views(list@)[i as int] == name@);
            return true;
        }
        i = i + 1;
    }
    assert(!name_views(list@).contains(name@)) by {
        if name_views(list@).contains(name@) {
            let j = choose|j: int| 0 <= j < name_views(list@).len() && name_views(list@)[j] == name@;
            assert(name_views(list@)[j] != name@);
        }
    }
    false
}

/// A request header is forwarded unless it is hop-by-hop, or it carries the
/// caller's credentials (`authorization`, `inference-service`) on an
/// inference request.
pub open spec fn forwards_request(name: Seq<char>, inference: bool) -> bool {
    !((inference && (name == "authorization"@ || name == "inference-service"@)) || name_views(
        HOP_BY_HOP_REQ@,
    ).contains(name))
}

/// Whether a request header is forwarded upstream.
pub fn forwards_request_header(name: &str, inference: bool) -> (r: bool)
    ensures
        r == forwards_request(name@, inference),
{
    if inference && (str_eq(name, "authorization") || str_eq(name, "inference-service")) {
        return false;
    }
    !is_listed(name, HOP_BY_HOP_REQ.as_slice())
}

/// Whether a response header is handed back to the client.
pub fn forwards_response_header(name: &str) -> (r: bool)
    ensures
        r == !name_views(HOP_BY_HOP_RESP@).contains(name@),
{
    !is_listed(name, HOP_BY_HOP_RESP.as_slice())
}

/// Whether a request header is forwarded on a WebSocket upgrade.
pub fn forwards_ws_header(name: &str) -> (r: bool)
    ensures
        r == !name_views(WS_STRIP_REQ@).contains(name@),
{
    !is_listed(name, WS_STRIP_REQ.as_slice())
}

/// The Jupyter kernel subprotocol, which is not forwarded on a notebook
/// WebSocket.
pub const JUPYTER_KERNEL_PROTOCOL: &'static str = "v1.kernel.websocket.jupyter.org";

/// Whether a header value is forwarded on a notebook WebSocket.
pub fn forwards_notebook_ws_value(value: &str) -> (r: bool)
    ensures
        r == (value@ != JUPYTER_KERNEL_PROTOCOL@),
{
    !str_eq(value, JUPYTER_KERNEL_PROTOCOL)
}

/// The `x-forwarded-for` chain after appending the client `ip`.
pub open spec fn forwarded_for_chain(prior: Option<Seq<char>>, ip: Seq<char>) -> Seq<char> {
    match prior {
        Some(p) => p + ", "@ + ip,
        None => ip,
    }
}

/// Appends the client address to an existing `x-forwarded-for` chain.
pub fn forwarded_for(prior: Option<&str>, ip: &str) -> (r: String)
    ensures
        r@ == forwarded_for_chain(
            match prior {
                Some(p) => Some(p@),
                None => None,
            },
            ip@,
        ),
{
    match prior {
        Some(p) => copy_string(p).concat(", ").concat(ip),
        None => copy_string(ip),
    }
}

/// The cookie values packed into one header: each non-first value is
/// preceded by `;` once something has been packed.
pub open spec fn packed_cookies(values: Seq<Seq<char>>) -> Seq<char>
    decreases values.len(),
{
    if values.len() == 0 {
        Seq::empty()
    } else {
        let acc = packed_cookies(values.drop_last());
        if acc.len() == 0 {
            values.last()
        } else {
            acc + ";"@ + values.last()
        }
    }
}

/// Packs the values of all `cookie` headers into one, or `None` when they
/// pack to nothing.
pub fn pack_cookies(values: &Vec<String>) -> (r: Option<String>)
    ensures
        packed_cookies(views(values@)).len() == 0 ==> r is None,
        packed_cookies(views(values@)).len() > 0 ==> (r matches Some(c) && c@ == packed_cookies(
            views(values@),
        )),
{
    let mut cookies = String::new();
    let ghost vs = views(values@);
    let mut i: usize = 0;
    while i < values.len()
        invariant
            i <= values@.len(),
            vs == views(values@),
            cookies@ == packed_cookies(vs.take(i as int)),
        decreases values@.len() - i,
    {
        assert(vs.take(i + 1).drop_last() =~= vs.take(i as int));
        let c = chars_of(cookies.as_str());
        if c.len() == 0 {
            cookies = values[i].clone();
        } else {
            cookies = cookies.concat(";").concat(values[i].as_str());
        }
        i = i + 1;
    }
    assert(vs.take(values@.len() as int) =~= vs);
    let c = chars_of(cookies.as_str());
    if c.len() == 0 {
        None
    } else {
        Some(cookies)
    }
}

/// The upstream address of a WebSocket: an `https://` address becomes
/// `wss://`, an `http://` one `ws://`, and any other stays.
pub open spec fn ws_address(raw: Seq<char>) -> Seq<char> {
    if raw.len() >= 8 && raw.take(8) == "https://"@ {
        "wss://"@ + raw.skip(8)
    } else if raw.len() >= 7 && raw.take(7) == "http://"@ {
        "ws://"@ + raw.skip(7)
    } else {
        raw
    }
}

/// Whether the characters `s` start with `p`.
pub fn has_prefix(s: &[char], p: &str) -> (r: bool)
    ensures
        r == (s@.len() >= p@.len() && s@.take(p@.len() as int) == p@),
{
    let pc = chars_of(p);
    if s.len() < pc.len() {
        return false;
    }
    let mut i: usize = 0;
    while i < pc.len()
        invariant
            pc@ == p@,
            pc@.len() <= s@.len(),
            i <= pc@.len(),
            forall|j: int| 0 <= j < i ==> s@[j] == pc@[j],
        decreases pc@.len() - i,
    {
        if s[i] != pc[i] {
            assert(s@.take(p@.len() as int)[i as int] != p@[i as int]);
            return false;
        }
        i = i + 1;
    }
    assert(s@.take(p@.len() as int) =~= p@);
    true
}

fn suffix_string(s: &[char], from: usize) -> (r: String)
    requires
        from <= s@.len(),
    ensures
        r@ == s@.skip(from as int),
{
    let r = crate::text::substring(s, from, s.len());
    assert(s@.subrange(from as int, s@.len() as int) =~= s@.skip(from as int));
    r
}

/// The WebSocket address of an upstream URL.
pub fn ws_upstream_url(raw: &str) -> (r: String)
    ensures
        r@ == ws_address(raw@),
{
    let c = chars_of(raw);
    proof {
        reveal_strlit("https://");
        reveal_strlit("http://");
    }
    if has_prefix(c.as_slice(), "https://") {
        copy_string("wss://").concat(suffix_string(c.as_slice(), 8).as_str())
    } else if has_prefix(c.as_slice(), "http://") {
        copy_string("ws://").concat(suffix_string(c.as_slice(), 7).as_str())
    } else {
        string_from_chars(c.as_slice())
    }
}

/// The lower-case form of an ASCII letter; any other character stays.
pub open spec fn ascii_lower(c: char) -> char {
    if 'A' <= c && c <= 'Z' {
        ((c as int) + 32) as char
    } else {
        c
    }
}

/// `a` and `b` are equal up to the case of ASCII letters.
pub open spec fn eq_ignore_ascii_case(a: Seq<char>, b: Seq<char>) -> bool {
    a.len() == b.len() && forall|i: int| 0 <= i < a.len() ==> ascii_lower(a[i]) == ascii_lower(b[i])
}

fn lower(c: char) -> (r: char)
    ensures
        r == ascii_lower(c),
{
    if 'A' <= c && c <= 'Z' {
        ((c as u8) + 32) as char
    } else {
        c
    }
}

fn equals_ignoring_case(a: &str, b: &str) -> (r: bool)
    ensures
        r == eq_ignore_ascii_case(a@, b@),
{
    let x = chars_of(a);
    let y = chars_of(b);
    if x.len() != y.len() {
        return false;
    }
    let mut i: usize = 0;
    while i < x.len()
        invariant
            x@ == a@,
            y@ == b@,
            x@.len() == y@.len(),
            i <= x@.len(),
            forall|j: int| 0 <= j < i ==> ascii_lower(a@[j]) == ascii_lower(b@[j]),
        decreases x@.len() - i,
    {
        if lower(x[i]) != lower(y[i]) {
            return false;
        }
        i = i + 1;
    }
    true
}

/// A request asks for a WebSocket when its `upgrade` header says `websocket`
/// and its `connection` header says `upgrade`, in any letter case.
pub open spec fn websocket_request(upgrade: Option<Seq<char>>, connection: Option<Seq<char>>) -> bool {
    &&& upgrade matches Some(u) && eq_ignore_ascii_case(u, "websocket"@)
    &&& connection matches Some(c) && eq_ignore_ascii_case(c, "upgrade"@)
}

/// Whether a request asks for a WebSocket, given its readable `upgrade` and
/// `connection` header values.
pub fn is_websocket(upgrade: Option<&str>, connection: Option<&str>) -> (r: bool)
    ensures
        r == websocket_request(
            match upgrade {
                Some(u) => Some(u@),
                None => None,
            },
            match connection {
                Some(c) => Some(c@),
                None => None,
            },
        ),
{
    let up = match upgrade {
        Some(u) => equals_ignoring_case(u, "websocket"),
        None => false,
    };
    let conn = match connection {
        Some(c) => equals_ignoring_case(c, "upgrade"),
        None => false,
    };
    up && conn
}

/// The value of `x-forwarded-proto` on every upstream request.
pub const FORWARDED_PROTO: &'static str = "https";

/// A byte that may stand in a header value read as text: visible ASCII or
/// a tab.
pub open spec fn is_header_text_byte(b: u8) -> bool {
    (32 <= b && b < 127) || b == 9
}

/// The text of a header value, when every byte may stand in text.
pub open spec fn header_text(v: Seq<u8>) -> Option<Seq<char>> {
    if forall|i: int| 0 <= i < v.len() ==> is_header_text_byte(#[trigger] v[i]) {
        Some(v.map_values(|b: u8| b as char))
    } else {
        None
    }
}

/// A header as a name and the bytes of its value.
pub open spec fn header_views(hs: Seq<(String, Vec<u8>)>) -> Seq<(Seq<char>, Seq<u8>)> {
    hs.map_values(|h: (String, Vec<u8>)| (h.0@, h.1@))
}

/// The value of the first header named `name`.
pub open spec fn first_value(hs: Seq<(Seq<char>, Seq<u8>)>, name: Seq<char>) -> Option<Seq<u8>>
    decreases hs.len(),
{
    if hs.len() == 0 {
        None
    } else {
        match first_value(hs.drop_last(), name) {
            Some(v) => Some(v),
            None => if hs.last().0 == name {
                Some(hs.last().1)
            } else {
                None
            },
        }
    }
}

/// The `x-forwarded-for` chain a request brings: the text of its first
/// `x-forwarded-for` header, when that is text.
pub open spec fn prior_forwarded_for(hs: Seq<(Seq<char>, Seq<u8>)>) -> Option<Seq<char>> {
    match first_value(hs, "x-forwarded-for"@) {
        Some(v) => header_text(v),
        None => None,
    }
}

/// Which headers pass from one side of the proxy to the other.
#[derive(Debug, Clone, Copy, PartialEq, Eq, Structural)]
pub enum HeaderPolicy {
    /// A request forwarded upstream, carrying the caller's credentials
    /// or not (`inference`).
    Request { inference: bool },
    /// A WebSocket upgrade forwarded upstream.
    WebSocket,
    /// A response handed back to the client.
    Response,
}

/// Whether a header named `name` passes under `p`.
pub open spec fn passes(p: HeaderPolicy, name: Seq<char>) -> bool {
    match p {
        HeaderPolicy::Request { inference } => forwards_request(name, inference),
        HeaderPolicy::WebSocket => !name_views(WS_STRIP_REQ@).contains(name),
        HeaderPolicy::Response => !name_views(HOP_BY_HOP_RESP@).contains(name),
    }
}

/// The headers of `hs` that pass under `p`, in order.
pub open spec fn kept(hs: Seq<(Seq<char>, Seq<u8>)>, p: HeaderPolicy) -> Seq<(Seq<char>, Seq<u8>)>
    decreases hs.len(),
{
    if hs.len() == 0 {
        Seq::empty()
    } else {
        let rest = kept(hs.drop_last(), p);
        if passes(p, hs.last().0) {
            rest.push(hs.last())
        } else {
            rest
        }
    }
}

/// Only headers that pass a policy cross the proxy: every header kept under
/// `p` passes `p` (so no hop-by-hop header is ever forwarded), and no more
/// headers are kept than were given.
pub proof fn lemma_kept_pass(hs: Seq<(Seq<char>, Seq<u8>)>, p: HeaderPolicy)
    ensures
        forall|i: int| 0 <= i < kept(hs, p).len() ==> passes(p, #[trigger] kept(hs, p)[i].0),
        kept(hs, p).len() <= hs.len(),
    decreases hs.len(),
{
    if hs.len() > 0 {
        lemma_kept_pass(hs.drop_last(), p);
    }
}

/// The hop-by-hop request headers `connection`, `keep-alive`, `host` and
/// `content-length` are never forwarded upstream, on inference requests or
/// others, so no request forwarded upstream carries one.
pub proof fn lemma_hop_by_hop_request_dropped(hs: Seq<(Seq<char>, Seq<u8>)>, inference: bool)
    ensures
        !forwards_request("connection"@, inference),
        !forwards_request("keep-alive"@, inference),
        !forwards_request("host"@, inference),
        !forwards_request("content-length"@, inference),
        forall|i: int|
            0 <= i < kept(hs, HeaderPolicy::Request { inference }).len() ==> {
                let n = #[trigger] kept(hs, HeaderPolicy::Request { inference })[i].0;
                n != "connection"@ && n != "keep-alive"@ && n != "host"@ && n != "content-length"@
            },
{
    let names = name_views(HOP_BY_HOP_REQ@);
    assert(names[0] == "connection"@);
    assert(names[1] == "keep-alive"@);
    assert(names[2] == "host"@);
    assert(names[3] == "content-length"@);
    lemma_kept_pass(hs, HeaderPolicy::Request { inference });
}

/// Headers that all pass a policy cross it unchanged, duplicates and order
/// included.
pub proof fn lemma_kept_all_pass(hs: Seq<(Seq<char>, Seq<u8>)>, p: HeaderPolicy)
    requires
        forall|i: int| 0 <= i < hs.len() ==> passes(p, #[trigger] hs[i].0),
    ensures
        kept(hs, p) == hs,
    decreases hs.len(),
{
    if hs.len() > 0 {
        assert forall|i: int| 0 <= i < hs.drop_last().len() implies passes(
            p,
            #[trigger] hs.drop_last()[i].0,
        ) by {
            assert(hs.drop_last()[i] == hs[i]);
        }
        lemma_kept_all_pass(hs.drop_last(), p);
        assert(passes(p, hs[hs.len() - 1].0));
        assert(hs.drop_last().push(hs.last()) =~= hs);
    }
}

/// The text values of the `cookie` headers (in any letter case), in order.
pub open spec fn cookie_texts(hs: Seq<(Seq<char>, Seq<u8>)>) -> Seq<Seq<char>>
    decreases hs.len(),
{
    if hs.len() == 0 {
        Seq::empty()
    } else {
        let rest = cookie_texts(hs.drop_last());
        match header_text(hs.last().1) {
            Some(t) => if eq_ignore_ascii_case(hs.last().0, "cookie"@) {
                rest.push(t)
            } else {
                rest
            },
            None => rest,
        }
    }
}

fn passes_exec(p: HeaderPolicy, name: &str) -> (r: bool)
    ensures
        r == passes(p, name@),
{
    match p {
        HeaderPolicy::Request { inference } => forwards_request_header(name, inference),
        HeaderPolicy::WebSocket => forwards_ws_header(name),
        HeaderPolicy::Response => forwards_response_header(name),
    }
}

/// The text of a header value, when every byte may stand in text.
pub fn header_value_text(v: &[u8]) -> (r: Option<String>)
    ensures
        match r {
            Some(t) => header_text(v@) == Some(t@),
            None => header_text(v@) is None,
        },
{
    let mut out = String::new();
    let mut i: usize = 0;
    while i < v.len()
        invariant
            i <= v@.len(),
            forall|j: int| 0 <= j < i ==> is_header_text_byte(#[trigger] v@[j]),
            out@ == v@.take(i as int).map_values(|b: u8| b as char),
        decreases v@.len() - i,
    {
        let b = v[i];
        if !((32 <= b && b < 127) || b == 9) {
            assert(!is_header_text_byte(v@[i as int]));
            return None;
        }
        out.push(b as char);
        assert(out@ =~= v@.take(i + 1).map_values(|b: u8| b as char));
        i = i + 1;
    }
    assert(v@.take(v@.len() as int) =~= v@);
    Some(out)
}

/// The headers of `hs` that pass under `p`, in order.
pub fn keep_headers(hs: &Vec<(String, Vec<u8>)>, p: HeaderPolicy) -> (r: Vec<(String, Vec<u8>)>)
    ensures
        header_views(r@) == kept(header_views(hs@), p),
{
    let ghost hv = header_views(hs@);
    let mut out: Vec<(String, Vec<u8>)> = Vec::new();
    let mut i: usize = 0;
    while i < hs.len()
        invariant
            i <= hs@.len(),
            hv == header_views(hs@),
            header_views(out@) == kept(hv.take(i as int), p),
        decreases hs@.len() - i,
    {
        assert(hv.take(i + 1).drop_last() =~= hv.take(i as int));
        assert(hv.take(i + 1).last() == hv[i as int]);
        if passes_exec(p, hs[i].0.as_str()) {
            let name = hs[i].0.clone();
            let value = hs[i].1.clone();
            assert(value@ =~= hs@[i as int].1@);
            let ghost before = out@;
            out.push((name, value));
            assert(header_views(out@) =~= header_views(before).push(hv[i as int]));
        }
        i = i + 1;
    }
    assert(hv.take(hs@.len() as int) =~= hv);
    out
}

/// The text of the first `x-forwarded-for` header, when that is text.
pub fn prior_forwarded_for_text(hs: &Vec<(String, Vec<u8>)>) -> (r: Option<String>)
    ensures
        match r {
            Some(t) => prior_forwarded_for(header_views(hs@)) == Some(t@),
            None => prior_forwarded_for(header_views(hs@)) is None,
        },
{
    let ghost hv = header_views(hs@);
    let mut i: usize = 0;
    while i < hs.len()
        invariant
            i <= hs@.len(),
            hv == header_views(hs@),
            first_value(hv.take(i as int), "x-forwarded-for"@) is None,
        decreases hs@.len() - i,
    {
        assert(hv.take(i + 1).drop_last() =~= hv.take(i as int));
        if str_eq(hs[i].0.as_str(), "x-forwarded-for") {
            proof {
                lemma_first_value_extends(hv, i as int, "x-forwarded-for"@);
            }
            return header_value_text(hs[i].1.as_slice());
        }
        i = i + 1;
    }
    assert(hv.take(hs@.len() as int) =~= hv);
    None
}

proof fn lemma_first_value_extends(hv: Seq<(Seq<char>, Seq<u8>)>, i: int, name: Seq<char>)
    requires
        0 <= i < hv.len(),
        first_value(hv.take(i), name) is None,
        hv[i].0 == name,
    ensures
        first_value(hv, name) == Some(hv[i].1),
    decreases hv.len() - i,
{
    if i + 1 == hv.len() {
        assert(hv.drop_last() =~= hv.take(i));
    } else {
        assert(hv.drop_last().take(i) =~= hv.take(i));
        lemma_first_value_extends(hv.drop_last(), i, name);
    }
}

/// The text values of the `cookie` headers, in order.
pub fn cookie_values(hs: &Vec<(String, Vec<u8>)>) -> (r: Vec<String>)
    ensures
        views(r@) == cookie_texts(header_views(hs@)),
{
    let ghost hv = header_views(hs@);
    let mut out: Vec<String> = Vec::new();
    let mut i: usize = 0;
    while i < hs.len()
        invariant
            i <= hs@.len(),
            hv == header_views(hs@),
            views(out@) == cookie_texts(hv.take(i as int)),
        decreases hs@.len() - i,
    {
        assert(hv.take(i + 1).drop_last() =~= hv.take(i as int));
        assert(hv.take(i + 1).last() == hv[i as int]);
        match header_value_text(hs[i].1.as_slice()) {
            Some(t) => {
                if equals_ignoring_case(hs[i].0.as_str(), "cookie") {
                    let ghost before = out@;
                    out.push(t);
                    assert(views(out@) =~= views(before).push(t@));
                }
            },
            None => {},
        }
        i = i + 1;
    }
    assert(hv.take(hs@.len() as int) =~= hv);
    out
}

/// How the headers of a request are forwarded upstream: the headers that
/// are appended, in order, and the values that replace every
/// `x-forwarded-for` and every `cookie` header (besides `x-forwarded-proto`,
/// which is always `FORWARDED_PROTO`).
pub struct UpstreamHeaders {
    pub appended: Vec<(String, Vec<u8>)>,
    pub forwarded_for: Option<String>,
    pub cookie: Option<String>,
}

/// The headers of an upstream request, from the client's request headers
/// `req`: those that pass under `p`; when the client's address `peer_ip` is
/// known, the `x-forwarded-for` chain with it appended; and, when `pack`,
/// the values of all readable `cookie` headers packed into one (when they
/// pack to something).
pub fn upstream_headers(
    req: &Vec<(String, Vec<u8>)>,
    p: HeaderPolicy,
    pack: bool,
    peer_ip: Option<&str>,
) -> (r: UpstreamHeaders)
    ensures
        header_views(r.appended@) == kept(header_views(req@), p),
        peer_ip is None ==> r.forwarded_for is None,
        peer_ip matches Some(ip) ==> (r.forwarded_for matches Some(x) && x@ == forwarded_for_chain(
            prior_forwarded_for(header_views(req@)),
            ip@,
        )),
        !pack ==> r.cookie is None,
        pack && packed_cookies(cookie_texts(header_views(req@))).len() == 0 ==> r.cookie is None,
        pack && packed_cookies(cookie_texts(header_views(req@))).len() > 0 ==> (r.cookie matches Some(
            c,
        ) && c@ == packed_cookies(cookie_texts(header_views(req@)))),
{
    let appended = keep_headers(req, p);
    let forwarded_for = match peer_ip {
        Some(ip) => {
            let prior = prior_forwarded_for_text(req);
            let chain = match &prior {
                Some(t) => forwarded_for(Some(t.as_str()), ip),
                None => forwarded_for(None, ip),
            };
            Some(chain)
        },
        None => None,
    };
    let cookie = if pack {
        pack_cookies(&cookie_values(req))
    } else {
        None
    };
    UpstreamHeaders { appended, forwarded_for, cookie }
}

/// A message the client sends over a WebSocket, or that is sent to it.
#[derive(Debug, PartialEq, Eq)]
pub enum ClientMessage {
    Text(String),
    Binary(Vec<u8>),
    Ping(Vec<u8>),
    Pong(Vec<u8>),
    Close,
}

/// A message the upstream server sends over a WebSocket, or that is sent to
/// it; `Frame` is a raw frame.
#[derive(Debug, PartialEq, Eq)]
pub enum UpstreamMessage {
    Text(String),
    Binary(Vec<u8>),
    Ping(Vec<u8>),
    Pong(Vec<u8>),
    Close,
    Frame,
}

/// What one side of a WebSocket relay produced: a message, a read error, or
/// the end of its stream.
#[derive(Debug, PartialEq, Eq)]
pub enum RelayEvent<M> {
    Message(M),
    Failed,
    Ended,
}

/// What the relay does with an event: send a message to the other side,
/// ignore it, or close both sides. A send that fails closes both sides too.
#[derive(Debug, PartialEq, Eq)]
pub enum RelayAction<M> {
    Forward(M),
    Ignore,
    Shutdown,
}

/// What the relay does with an event from the client: every message goes
/// upstream as the same kind of message (a close as a close without a
/// reason); a read error or the end of the stream closes both sides.
pub fn relay_from_client(ev: RelayEvent<ClientMessage>) -> (r: RelayAction<UpstreamMessage>)
    ensures
        match ev {
            RelayEvent::Message(m) => r == RelayAction::Forward(
                match m {
                    ClientMessage::Text(t) => UpstreamMessage::Text(t),
                    ClientMessage::Binary(b) => UpstreamMessage::Binary(b),
                    ClientMessage::Ping(p) => UpstreamMessage::Ping(p),
                    ClientMessage::Pong(p) => UpstreamMessage::Pong(p),
                    ClientMessage::Close => UpstreamMessage::Close,
                },
            ),
            _ => r == RelayAction::<UpstreamMessage>::Shutdown,
        },
{
    match ev {
        RelayEvent::Message(m) => RelayAction::Forward(
            match m {
                ClientMessage::Text(t) => UpstreamMessage::Text(t),
                ClientMessage::Binary(b) => UpstreamMessage::Binary(b),
                ClientMessage::Ping(p) => UpstreamMessage::Ping(p),
                ClientMessage::Pong(p) => UpstreamMessage::Pong(p),
                ClientMessage::Close => UpstreamMessage::Close,
            },
        ),
        RelayEvent::Failed => RelayAction::Shutdown,
        RelayEvent::Ended => RelayAction::Shutdown,
    }
}

/// What the relay does with an event from the upstream server: data and
/// control messages go to the client as the same kind of message; a close,
/// a read error or the end of the stream closes both sides; a raw frame is
/// ignored.
pub fn relay_from_upstream(ev: RelayEvent<UpstreamMessage>) -> (r: RelayAction<ClientMessage>)
    ensures
        match ev {
            RelayEvent::Message(m) => match m {
                UpstreamMessage::Text(t) => r == RelayAction::Forward(ClientMessage::Text(t)),
                UpstreamMessage::Binary(b) => r == RelayAction::Forward(ClientMessage::Binary(b)),
                UpstreamMessage::Ping(p) => r == RelayAction::Forward(ClientMessage::Ping(p)),
                UpstreamMessage::Pong(p) => r == RelayAction::Forward(ClientMessage::Pong(p)),
                UpstreamMessage::Close => r == RelayAction::<ClientMessage>::Shutdown,
                UpstreamMessage::Frame => r == RelayAction::<ClientMessage>::Ignore,
            },
            _ => r == RelayAction::<ClientMessage>::Shutdown,
        },
{
    match ev {
        RelayEvent::Message(m) => match m {
            UpstreamMessage::Text(t) => RelayAction::Forward(ClientMessage::Text(t)),
            UpstreamMessage::Binary(b) => RelayAction::Forward(ClientMessage::Binary(b)),
            UpstreamMessage::Ping(p) => RelayAction::Forward(ClientMessage::Ping(p)),
            UpstreamMessage::Pong(p) => RelayAction::Forward(ClientMessage::Pong(p)),
            UpstreamMessage::Close => RelayAction::Shutdown,
            UpstreamMessage::Frame => RelayAction::Ignore,
        },
        RelayEvent::Failed => RelayAction::Shutdown,
        RelayEvent::Ended => RelayAction::Shutdown,
    }
}

/// The HTTP status of a switch to the WebSocket protocol.
pub const SWITCHING_PROTOCOLS: u16 = 101;

/// The upstream answer to a WebSocket upgrade is accepted only when it
/// switches protocols; otherwise the error names its status (`status_text`,
/// as the status is written out).
pub fn upstream_switched(status: u16, status_text: &str) -> (r: Result<(), BridgeError>)
    ensures
        status == SWITCHING_PROTOCOLS ==> r is Ok,
        status != SWITCHING_PROTOCOLS ==> (r matches Err(BridgeError::GeneralError(m)) && m@
            == "Upstream server did not switch protocols: "@ + status_text@),
{
    if status == SWITCHING_PROTOCOLS {
        Ok(())
    } else {
        Err(
            BridgeError::GeneralError(
                copy_string("Upstream server did not switch protocols: ").concat(status_text),
            ),
        )
    }
}

/// The headers of a notebook WebSocket request, as text: every header whose
/// value is text, except the Jupyter kernel subprotocol, in order.
pub open spec fn notebook_ws_kept(hs: Seq<(Seq<char>, Seq<u8>)>) -> Seq<(Seq<char>, Seq<char>)>
    decreases hs.len(),
{
    if hs.len() == 0 {
        Seq::empty()
    } else {
        let rest = notebook_ws_kept(hs.drop_last());
        match header_text(hs.last().1) {
            Some(t) => if t != JUPYTER_KERNEL_PROTOCOL@ {
                rest.push((hs.last().0, t))
            } else {
                rest
            },
            None => rest,
        }
    }
}

/// The headers forwarded on a notebook WebSocket, with their text values.
pub fn notebook_ws_headers(hs: &Vec<(String, Vec<u8>)>) -> (r: Vec<(String, String)>)
    ensures
        r@.map_values(|h: (String, String)| (h.0@, h.1@)) == notebook_ws_kept(header_views(hs@)),
{
    let ghost hv = header_views(hs@);
    let mut out: Vec<(String, String)> = Vec::new();
    let mut i: usize = 0;
    while i < hs.len()
        invariant
            i <= hs@.len(),
            hv == header_views(hs@),
            out@.map_values(|h: (String, String)| (h.0@, h.1@)) == notebook_ws_kept(
                hv.take(i as int),
            ),
        decreases hs@.len() - i,
    {
        assert(hv.take(i + 1).drop_last() =~= hv.take(i as int));
        assert(hv.take(i + 1).last() == hv[i as int]);
        match header_value_text(hs[i].1.as_slice()) {
            Some(t) => {
                if forwards_notebook_ws_value(t.as_str()) {
                    let name = hs[i].0.clone();
                    let ghost before = out@;
                    out.push((name, t));
                    assert(out@.map_values(|h: (String, String)| (h.0@, h.1@)) =~= before.map_values(
                        |h: (String, String)| (h.0@, h.1@),
                    ).push((hv[i as int].0, t@)));
                }
            },
            None => {},
        }
        i = i + 1;
    }
    assert(hv.take(hs@.len() as int) =~= hv);
    out
}

/// A message on a notebook WebSocket, from either side: `Continuation` is
/// a continuation frame with its payload, `Other` any other raw frame or
/// message.
#[derive(Debug, PartialEq, Eq)]
pub enum NotebookFrame {
    Text(String),
    Binary(Vec<u8>),
    Ping(Vec<u8>),
    Pong(Vec<u8>),
    Close,
    Continuation(Vec<u8>),
    Other,
}

/// What the notebook relay does with an event: send a message to the other
/// side (a failed send is only reported), send one and then close both
/// sides, do nothing, or close both sides.
#[derive(Debug, PartialEq, Eq)]
pub enum NotebookAction {
    Send(NotebookFrame),
    SendAndClose(NotebookFrame),
    Ignore,
    Close,
}

/// The message is text, binary data, a ping or a pong.
pub open spec fn is_data_or_ping(m: NotebookFrame) -> bool {
    m is Text || m is Binary || m is Ping || m is Pong
}

/// What the notebook relay does with an event from the client: data,
/// pings and pongs go to the notebook; a close is passed on and ends the
/// relay; any other message, or the end of the stream, ends it; a read
/// error is skipped.
pub fn notebook_from_client(ev: RelayEvent<NotebookFrame>) -> (r: NotebookAction)
    ensures
        match ev {
            RelayEvent::Message(m) => if is_data_or_ping(m) {
                r == NotebookAction::Send(m)
            } else if m is Close {
                r == NotebookAction::SendAndClose(NotebookFrame::Close)
            } else {
                r == NotebookAction::Close
            },
            RelayEvent::Failed => r == NotebookAction::Ignore,
            RelayEvent::Ended => r == NotebookAction::Close,
        },
{
    match ev {
        RelayEvent::Message(m) => match m {
            NotebookFrame::Text(t) => NotebookAction::Send(NotebookFrame::Text(t)),
            NotebookFrame::Binary(b) => NotebookAction::Send(NotebookFrame::Binary(b)),
            NotebookFrame::Ping(p) => NotebookAction::Send(NotebookFrame::Ping(p)),
            NotebookFrame::Pong(p) => NotebookAction::Send(NotebookFrame::Pong(p)),
            NotebookFrame::Close => NotebookAction::SendAndClose(NotebookFrame::Close),
            NotebookFrame::Continuation(_) => NotebookAction::Close,
            NotebookFrame::Other => NotebookAction::Close,
        },
        RelayEvent::Failed => NotebookAction::Ignore,
        RelayEvent::Ended => NotebookAction::Close,
    }
}

/// What the notebook relay does with an event from the notebook: data,
/// pings, pongs and continuation frames go to the client; a close, any
/// other raw frame, a read error or the end of the stream end the relay.
pub fn notebook_from_server(ev: RelayEvent<NotebookFrame>) -> (r: NotebookAction)
    ensures
        match ev {
            RelayEvent::Message(m) => if is_data_or_ping(m) || m is Continuation {
                r == NotebookAction::Send(m)
            } else {
                r == NotebookAction::Close
            },
            _ => r == NotebookAction::Close,
        },
{
    match ev {
        RelayEvent::Message(m) => match m {
            NotebookFrame::Text(t) => NotebookAction::Send(NotebookFrame::Text(t)),
            NotebookFrame::Binary(b) => NotebookAction::Send(NotebookFrame::Binary(b)),
            NotebookFrame::Ping(p) => NotebookAction::Send(NotebookFrame::Ping(p)),
            NotebookFrame::Pong(p) => NotebookAction::Send(NotebookFrame::Pong(p)),
            NotebookFrame::Continuation(p) => NotebookAction::Send(NotebookFrame::Continuation(p)),
            NotebookFrame::Close => NotebookAction::Close,
            NotebookFrame::Other => NotebookAction::Close,
        },
        RelayEvent::Failed => NotebookAction::Close,
        RelayEvent::Ended => NotebookAction::Close,
    }
}

/// The notebook's answer to a WebSocket upgrade is accepted only when it
/// switches protocols.
pub fn notebook_switched(status: u16) -> (r: Result<(), BridgeError>)
    ensures
        status == SWITCHING_PROTOCOLS ==> r is Ok,
        status != SWITCHING_PROTOCOLS ==> (r matches Err(BridgeError::GeneralError(m)) && m@
            == "Failed to establish websocket connection"@),
{
    if status == SWITCHING_PROTOCOLS {
        Ok(())
    } else {
        Err(BridgeError::GeneralError(copy_string("Failed to establish websocket connection")))
    }
}

} // verus!
