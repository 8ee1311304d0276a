//! The decisions of the web server: connection handling, proxying and the
//! request middlewares.
use vstd::prelude::*;

use crate::text::{chars_of, copy_string, str_eq};

pub mod bridge_middleware;
pub mod guardian_middleware;
pub mod helper;
pub mod proxy_client;
pub mod proxy_protocol;

verus! {

/// The port the bridge serves on.
pub const SERVER_PORT: u16 = 8080;
/// The port that answers plain HTTP with a redirect to HTTPS.
pub const REDIRECT_PORT: u16 = 8000;

/// HTTP 302 Found.
pub const FOUND: u16 = 302;
/// HTTP 308 Permanent Redirect.
pub const PERMANENT_REDIRECT: u16 = 308;

/// What a request's credential cookie turned out to be.
pub enum CookieRead<T> {
    /// The request carries no such cookie.
    Absent,
    /// The cookie is there but does not hold a valid value.
    Unreadable,
    /// The value the cookie holds.
    Read(T),
}

/// What a middleware does with a request.
#[derive(Debug, PartialEq, Eq)]
pub enum Verdict {
    /// Hand the request on to the service.
    Forward,
    /// Answer with this status and an empty body.
    Reject(u16),
    /// Answer with this status and this `Location`.
    Redirect(u16, String),
}

/// The mathematical value of a verdict.
pub enum SpecVerdict {
    Forward,
    Reject(u16),
    Redirect(u16, Seq<char>),
}

impl View for Verdict {
    type V = SpecVerdict;

    open spec fn view(&self) -> SpecVerdict {
        match self {
            Verdict::Forward => SpecVerdict::Forward,
            Verdict::Reject(s) => SpecVerdict::Reject(*s),
            Verdict::Redirect(s, l) => SpecVerdict::Redirect(*s, l@),
        }
    }
}

/// The address the server listens on: loopback in debug builds, every
/// interface otherwise.
pub fn server_address(debug: bool) -> (r: &'static str)
    ensures
        r@ == (if debug {
            "127.255.255.254"@
        } else {
            "0.0.0.0"@
        }),
{
    if debug {
        "127.255.255.254"
    } else {
        "0.0.0.0"
    }
}

/// `s` ends with `suffix`.
pub open spec fn ends_with(s: Seq<char>, suffix: Seq<char>) -> bool {
    s.len() >= suffix.len() && s.skip(s.len() - suffix.len()) == suffix
}

/// Whether `s` ends with `suffix`.
pub fn has_suffix(s: &[char], suffix: &[char]) -> (r: bool)
    ensures
        r == ends_with(s@, suffix@),
{
    if s.len() < suffix.len() {
        return false;
    }
    let off = s.len() - suffix.len();
    let mut i: usize = 0;
    while i < suffix.len()
        invariant
            off + suffix@.len() == s@.len(),
            s@.len() == s.len(),
            suffix@.len() == suffix.len(),
            i <= suffix@.len(),
            forall|j: int| 0 <= j < i ==> s@[off + j] == suffix@[j],
        decreases suffix@.len() - i,
    {
        if s[off + i] != suffix[i] {
            assert(s@.skip(off as int)[i as int] != suffix@[i as int]);
            return false;
        }
        i = i + 1;
    }
    assert(s@.skip(off as int) =~= suffix@);
    true
}

/// A cross-origin request is allowed from the bridge itself or from any of
/// its subdomains.
pub open spec fn origin_allowed(origin: Seq<char>, bridge_url: Seq<char>) -> bool {
    origin == "https://"@ + bridge_url || ends_with(origin, "."@ + bridge_url)
}

/// Whether a cross-origin request from `origin` is allowed.
pub fn allowed_origin(origin: &str, bridge_url: &str) -> (r: bool)
    ensures
        r == origin_allowed(origin@, bridge_url@),
{
    let exact = copy_string("https://").concat(bridge_url);
    if str_eq(origin, exact.as_str()) {
        return true;
    }
    let o = chars_of(origin);
    let suffix = chars_of(copy_string(".").concat(bridge_url).as_str());
    has_suffix(o.as_slice(), suffix.as_slice())
}

/// The HTTP protocol a TLS connection speaks.
#[derive(Debug, Clone, Copy, PartialEq, Eq, Structural)]
pub enum Protocol {
    Http1,
    Http2,
}

/// The protocol of a TLS connection: HTTP/2 when ALPN agreed on `h2`.
pub fn select_protocol(alpn: Option<&[u8]>) -> (r: Protocol)
    ensures
        r == (match alpn {
            Some(p) => if p@ == seq![0x68u8, 0x32u8] {
                Protocol::Http2
            } else {
                Protocol::Http1
            },
            None => Protocol::Http1,
        }),
{
    match alpn {
        Some(p) => {
            if p.len() == 2 && p[0] == 0x68 && p[1] == 0x32 {
                assert(p@ =~= seq![0x68u8, 0x32u8]);
                Protocol::Http2
            } else {
                Protocol::Http1
            }
        },
        None => Protocol::Http1,
    }
}

} // verus!
