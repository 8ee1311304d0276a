//! The request middlewares of the bridge: session cookies, resource access,
//! HTTPS redirection, security headers and inference authorization.
use vstd::prelude::*;

use super::proxy_client::has_prefix;
use super::{CookieRead, SpecVerdict, Verdict, PERMANENT_REDIRECT};
use crate::auth::Claims;
use crate::db::models::BridgeCookie;
use crate::errors::{FORBIDDEN, INTERNAL_SERVER_ERROR, UNAUTHORIZED};
use crate::text::{
    chars_of, copy_string, first_occurrence, occurs_at, split_chars, split_from, split_spec, str_eq,
    string_from_chars, views,
};

verus! {

/// Checks the bridge session cookie, and the session it names when the
/// cache keeps sessions.
pub struct CookieCheck;

/// The session cookie check in front of a service.
pub struct CookieCheckMW<S> {
    pub service: S,
}

/// What the session cookie check does first.
#[derive(Debug, PartialEq, Eq)]
pub enum SessionGate {
    /// Hand the request on.
    Forward,
    /// Answer with this status.
    Reject(u16),
    /// Look the cookie's session up in the cache first.
    CheckSession,
}

impl CookieCheck {
    /// Puts the check in front of `service`.
    pub fn new_transform<S>(&self, service: S) -> (r: CookieCheckMW<S>)
        ensures
            r.service == service,
    {
        CookieCheckMW { service }
    }
}

impl<S> CookieCheckMW<S> {
    /// A request without a session cookie is unauthorized, one with an
    /// unreadable cookie fails; otherwise it goes on directly when the cache
    /// keeps no sessions, is unauthorized when the cookie names no session,
    /// and waits for the session lookup when it does.
    pub fn decide(&self, cookie: &CookieRead<BridgeCookie>, cache_enabled: bool) -> (r: SessionGate)
        ensures
            r == (match cookie {
                CookieRead::Absent => SessionGate::Reject(UNAUTHORIZED),
                CookieRead::Unreadable => SessionGate::Reject(INTERNAL_SERVER_ERROR),
                CookieRead::Read(c) => if !cache_enabled {
                    SessionGate::Forward
                } else if c.session_id is None {
                    SessionGate::Reject(UNAUTHORIZED)
                } else {
                    SessionGate::CheckSession
                },
            }),
    {
        match cookie {
            CookieRead::Absent => SessionGate::Reject(UNAUTHORIZED),
            CookieRead::Unreadable => SessionGate::Reject(INTERNAL_SERVER_ERROR),
            CookieRead::Read(c) => {
                if !cache_enabled {
                    SessionGate::Forward
                } else if c.session_id.is_none() {
                    SessionGate::Reject(UNAUTHORIZED)
                } else {
                    SessionGate::CheckSession
                }
            },
        }
    }

    /// The request goes on only when the cache holds the cookie's session
    /// id; a different id or a failed lookup (`None`) is unauthorized.
    pub fn session_verdict(&self, session_id: &str, cached: Option<&str>) -> (r: Verdict)
        ensures
            r@ == (match cached {
                Some(c) => if c@ == session_id@ {
                    SpecVerdict::Forward
                } else {
                    SpecVerdict::Reject(UNAUTHORIZED)
                },
                None => SpecVerdict::Reject(UNAUTHORIZED),
            }),
    {
        match cached {
            Some(c) => if str_eq(c, session_id) {
                Verdict::Forward
            } else {
                Verdict::Reject(UNAUTHORIZED)
            },
            None => Verdict::Reject(UNAUTHORIZED),
        }
    }
}

/// Redirects plain HTTP requests to HTTPS.
pub struct HttpRedirect;

/// The HTTPS redirect in front of a service.
pub struct HttpRedirectMW<S> {
    pub service: S,
}

impl HttpRedirect {
    /// Puts the redirect in front of `service`.
    pub fn new_transform<S>(&self, service: S) -> (r: HttpRedirectMW<S>)
        ensures
            r.service == service,
    {
        HttpRedirectMW { service }
    }
}

impl<S> HttpRedirectMW<S> {
    /// A request over `http` is sent permanently to the same host and URI
    /// over `https`; any other goes on.
    pub fn decide(&self, scheme: &str, host: &str, uri: &str) -> (r: Verdict)
        ensures
            r@ == (if scheme@ == "http"@ {
                SpecVerdict::Redirect(PERMANENT_REDIRECT, "https://"@ + host@ + uri@)
            } else {
                SpecVerdict::Forward
            }),
    {
        if str_eq(scheme, "http") {
            Verdict::Redirect(PERMANENT_REDIRECT, copy_string("https://").concat(host).concat(uri))
        } else {
            Verdict::Forward
        }
    }
}

/// Checks the Open WebUI cookie.
pub struct OWUICookieCheck;

/// The Open WebUI cookie check in front of a service.
pub struct OWUICookieCheckMW<S> {
    pub service: S,
}

impl OWUICookieCheck {
    /// Puts the check in front of `service`.
    pub fn new_transform<S>(&self, service: S) -> (r: OWUICookieCheckMW<S>)
        ensures
            r.service == service,
    {
        OWUICookieCheckMW { service }
    }
}

impl<S> OWUICookieCheckMW<S> {
    /// A request without the cookie is forbidden, one with an unreadable
    /// cookie fails, and one with a readable cookie goes on.
    pub fn decide<T>(&self, cookie: &CookieRead<T>) -> (r: Verdict)
        ensures
            r@ == (match cookie {
                CookieRead::Absent => SpecVerdict::Reject(FORBIDDEN),
                CookieRead::Unreadable => SpecVerdict::Reject(INTERNAL_SERVER_ERROR),
                CookieRead::Read(_) => SpecVerdict::Forward,
            }),
    {
        match cookie {
            CookieRead::Absent => Verdict::Reject(FORBIDDEN),
            CookieRead::Unreadable => Verdict::Reject(INTERNAL_SERVER_ERROR),
            CookieRead::Read(_) => Verdict::Forward,
        }
    }
}

/// The path prefix of resource routes.
pub const RESOURCE_PREFIX: &'static str = "/resource";

/// The resource a path asks for: the first segment after the resource
/// prefix (or of the whole path, without it), empty when there is none.
pub open spec fn requested_resource(path: Seq<char>) -> Seq<char> {
    let p = if path.len() >= 9 && path.take(9) == RESOURCE_PREFIX@ {
        path.skip(9)
    } else {
        path
    };
    let parts = split_spec(p, "/"@);
    if parts.len() > 1 {
        parts[1]
    } else {
        Seq::empty()
    }
}

/// Scanning `s` from `start` for a `/`: when the characters before `k` hold
/// none, the first one found is at `k` if `k` holds one, and there is none
/// when `k` is the end.
proof fn lemma_next_slash(s: Seq<char>, start: int, k: int)
    requires
        "/"@ == seq!['/'],
        0 <= start <= k <= s.len(),
        forall|j: int| start <= j < k ==> s[j] != '/',
    ensures
        k < s.len() && s[k] == '/' ==> first_occurrence(s, "/"@, start) == Some(k),
        k == s.len() ==> first_occurrence(s, "/"@, start) is None,
    decreases k - start,
{
    if start < s.len() {
        if start < k {
            assert(!occurs_at(s, "/"@, start)) by {
                if occurs_at(s, "/"@, start) {
                    assert(s.subrange(start, start + 1)[0] == s[start]);
                }
            }
            lemma_next_slash(s, start + 1, k);
        } else if k < s.len() && s[k] == '/' {
            assert(s.subrange(k, k + 1) =~= "/"@);
        }
    }
}

/// The resource a path under the resource prefix asks for is its first
/// segment: for every name `r` without a `/`, both `/resource/r` and
/// `/resource/r/...` ask for `r`.
pub proof fn lemma_requested_resource_first_segment(r: Seq<char>, rest: Seq<char>)
    requires
        !r.contains('/'),
    ensures
        requested_resource("/resource/"@ + r) == r,
        requested_resource("/resource/"@ + r + "/"@ + rest) == r,
{
    reveal_strlit("/resource/");
    reveal_strlit("/resource");
    reveal_strlit("/");
    assert("/"@ =~= seq!['/']);
    let d = "/"@;
    let n: int = r.len() as int;
    let a = "/resource/"@ + r;
    let b = "/resource/"@ + r + "/"@ + rest;
    assert(a.take(9) =~= RESOURCE_PREFIX@);
    assert(b.take(9) =~= RESOURCE_PREFIX@);
    let pa = a.skip(9);
    let pb = b.skip(9);
    assert(pa =~= d + r);
    assert(pb =~= d + r + d + rest);
    assert forall|j: int| 1 <= j < 1 + n implies pa[j] != '/' by {
        assert(pa[j] == r[j - 1]);
    }
    assert forall|j: int| 1 <= j < 1 + n implies pb[j] != '/' by {
        assert(pb[j] == r[j - 1]);
    }
    lemma_next_slash(pa, 0, 0);
    lemma_next_slash(pb, 0, 0);
    lemma_next_slash(pa, 1, 1 + n);
    lemma_next_slash(pb, 1, 1 + n);
    assert(pb[1 + n] == '/');
    assert(split_from(pa, d, 0) == seq![pa.subrange(0, 0)] + split_from(pa, d, 1));
    assert(split_from(pa, d, 1) == seq![pa.subrange(1, pa.len() as int)]);
    assert(pa.subrange(1, pa.len() as int) =~= r);
    assert(split_spec(pa, d)[1] == r);
    assert(split_from(pb, d, 0) == seq![pb.subrange(0, 0)] + split_from(pb, d, 1));
    assert(split_from(pb, d, 1) == seq![pb.subrange(1, 1 + n)] + split_from(
        pb,
        d,
        2 + n,
    ));
    assert(pb.subrange(1, 1 + n) =~= r);
    assert(split_spec(pb, d)[1] == r);
}

/// Checks that the session cookie grants the resource a request asks for.
pub struct ResourceCookieCheck;

/// The resource check in front of a service.
pub struct ResourceCookieCheckMW<S> {
    pub service: S,
}

/// What the resource check does with a request.
#[derive(Debug, PartialEq, Eq)]
pub enum ResourceVerdict {
    /// Hand the request on, with the resource it reaches.
    Forward(String),
    /// Answer with this status.
    Reject(u16),
}

impl ResourceCookieCheck {
    /// Puts the check in front of `service`.
    pub fn new_transform<S>(&self, service: S) -> (r: ResourceCookieCheckMW<S>)
        ensures
            r.service == service,
    {
        ResourceCookieCheckMW { service }
    }
}

fn resource_of(path: &str) -> (r: String)
    ensures
        r@ == requested_resource(path@),
{
    let c = chars_of(path);
    proof {
        reveal_strlit("/resource");
    }
    let starts = has_prefix(c.as_slice(), RESOURCE_PREFIX);
    let rest: String = if starts {
        let r = crate::text::substring(c.as_slice(), 9, c.len());
        assert(c@.subrange(9, c@.len() as int) =~= c@.skip(9));
        r
    } else {
        string_from_chars(c.as_slice())
    };
    let rc = chars_of(rest.as_str());
    let slash = chars_of("/");
    let parts = split_chars(rc.as_slice(), slash.as_slice());
    if parts.len() > 1 {
        assert(views(parts@)[1] == parts@[1]@);
        parts[1].clone()
    } else {
        String::new()
    }
}

fn list_contains(list: &Vec<String>, s: &str) -> (r: bool)
    ensures
        r == views(list@).contains(s@),
{
    let mut i: usize = 0;
    while i < list.len()
        invariant
            i <= list@.len(),
            forall|j: int| 0 <= j < i ==> views(list@)[j] != s@,
        decreases list@.len() - i,
    {
        if str_eq(list[i].as_str(), s) {
            assert(views(list@)[i as int] == s@);
            return true;
        }
        i = i + 1;
    }
    assert(!views(list@).contains(s@)) by {
        if views(list@).contains(s@) {
            let j = choose|j: int| 0 <= j < views(list@).len() && views(list@)[j] == s@;
            assert(views(list@)[j] != s@);
        }
    }
    false
}

/// The resources a session cookie grants.
pub open spec fn granted(cookie: BridgeCookie) -> Seq<Seq<char>> {
    match cookie.resources {
        Some(v) => views(v@),
        None => Seq::empty(),
    }
}

impl<S> ResourceCookieCheckMW<S> {
    /// A request goes on when its session cookie grants the resource its
    /// path asks for; an unreadable cookie fails, and any other request is
    /// forbidden.
    pub fn decide(&self, cookie: &CookieRead<BridgeCookie>, path: &str) -> (r: ResourceVerdict)
        ensures
            match cookie {
                CookieRead::Absent => r == ResourceVerdict::Reject(FORBIDDEN),
                CookieRead::Unreadable => r == ResourceVerdict::Reject(INTERNAL_SERVER_ERROR),
                CookieRead::Read(c) => if c.resources is Some && granted(*c).contains(
                    requested_resource(path@),
                ) {
                    r matches ResourceVerdict::Forward(res) && res@ == requested_resource(path@)
                } else {
                    r == ResourceVerdict::Reject(FORBIDDEN)
                },
            },
    {
        match cookie {
            CookieRead::Absent => ResourceVerdict::Reject(FORBIDDEN),
            CookieRead::Unreadable => ResourceVerdict::Reject(INTERNAL_SERVER_ERROR),
            CookieRead::Read(c) => {
                match &c.resources {
                    Some(allowed) => {
                        let resource = resource_of(path);
                        if list_contains(allowed, resource.as_str()) {
                            ResourceVerdict::Forward(resource)
                        } else {
                            ResourceVerdict::Reject(FORBIDDEN)
                        }
                    },
                    None => ResourceVerdict::Reject(FORBIDDEN),
                }
            },
        }
    }
}

/// The content security policy of pages without a policy of their own.
pub const DEFAULT_CSP: &'static str = "default-src 'self'; img-src *; style-src 'self'; script-src 'self';";
/// The cache policy of every response.
pub const CACHE_CONTROL: &'static str = "no-cache";
/// The transport security policy of every response.
pub const HSTS: &'static str = "max-age=31536000; includeSubDomains";

/// The policy of the first custom entry whose key occurs in `path`.
pub open spec fn custom_policy(path: Seq<char>, custom: Seq<(Seq<char>, Seq<char>)>) -> Option<
    Seq<char>,
>
    decreases custom.len(),
{
    if custom.len() == 0 {
        None
    } else if first_occurrence(path, custom[0].0, 0) is Some {
        Some(custom[0].1)
    } else {
        custom_policy(path, custom.drop_first())
    }
}

/// Adds the security and cache headers to every response.
pub struct SecurityCacheHeader;

/// The security headers in front of a service.
pub struct SecurityCacheHeaderMW<S> {
    pub service: S,
}

impl SecurityCacheHeader {
    /// Puts the headers in front of `service`.
    pub fn new_transform<S>(&self, service: S) -> (r: SecurityCacheHeaderMW<S>)
        ensures
            r.service == service,
    {
        SecurityCacheHeaderMW { service }
    }
}

fn occurs_in(path: &[char], key: &[char]) -> (r: bool)
    ensures
        r == (first_occurrence(path@, key@, 0) is Some),
{
    if key.len() == 0 {
        assert(path@.subrange(0, 0) =~= key@);
        assert(crate::text::occurs_at(path@, key@, 0));
        return true;
    }
    let mut i: usize = 0;
    while i <= path.len()
        invariant
            key@.len() >= 1,
            key@.len() == key.len(),
            first_occurrence(path@, key@, 0) == first_occurrence(path@, key@, i as int),
            path@.len() == path.len(),
        decreases path@.len() + 1 - i,
    {
        if key.len() <= path.len() - i {
            let mut j: usize = 0;
            let mut same = true;
            while j < key.len()
                invariant
                    i + key@.len() <= path@.len(),
                    path@.len() == path.len(),
                    key@.len() == key.len(),
                    j <= key@.len(),
                    same ==> forall|k: int| 0 <= k < j ==> path@[i + k] == key@[k],
                    !same ==> !crate::text::occurs_at(path@, key@, i as int),
                decreases key@.len() - j,
            {
                if path[i + j] != key[j] {
                    assert(path@.subrange(i as int, i + key@.len())[j as int] != key@[j as int]);
                    same = false;
                }
                j = j + 1;
            }
            if same {
                assert(path@.subrange(i as int, i + key@.len()) =~= key@);
                return true;
            }
        } else {
            return false;
        }
        i = i + 1;
    }
    false
}

impl<S> SecurityCacheHeaderMW<S> {
    /// The content security policy of a path: that of the first custom
    /// entry whose key occurs in the path, or the default one.
    pub fn csp(&self, path: &str, custom: &Vec<(String, String)>) -> (r: String)
        ensures
            r@ == (match custom_policy(
                path@,
                custom@.map_values(|p: (String, String)| (p.0@, p.1@)),
            ) {
                Some(p) => p,
                None => DEFAULT_CSP@,
            }),
    {
        let pc = chars_of(path);
        let ghost cv = custom@.map_values(|p: (String, String)| (p.0@, p.1@));
        assert(cv.skip(0) =~= cv);
        let mut i: usize = 0;
        while i < custom.len()
            invariant
                i <= custom@.len(),
                pc@ == path@,
                cv == custom@.map_values(|p: (String, String)| (p.0@, p.1@)),
                custom_policy(path@, cv) == custom_policy(path@, cv.skip(i as int)),
            decreases custom@.len() - i,
        {
            let key = chars_of(custom[i].0.as_str());
            assert(cv.skip(i as int)[0] == (custom@[i as int].0@, custom@[i as int].1@));
            assert(cv.skip(i as int).drop_first() =~= cv.skip(i + 1));
            if occurs_in(pc.as_slice(), key.as_slice()) {
                return custom[i].1.clone();
            }
            i = i + 1;
        }
        assert(cv.skip(custom@.len() as int) =~= Seq::<(Seq<char>, Seq<char>)>::empty());
        copy_string(DEFAULT_CSP)
    }
}

/// An inference request goes on when its token grants the service that its
/// `Inference-Service` header names.
pub open spec fn inference_allowed(claims: Claims, inference: Option<Seq<char>>) -> bool {
    match inference {
        Some(i) => exists|k: int| 0 <= k < claims.scp@.len() && #[trigger] claims.scp@[k]@ == i,
        None => false,
    }
}

/// Whether a bearer token with `claims` may use the inference service the
/// request names (`None` when the request names none).
pub fn validator(claims: &Claims, inference: Option<&str>) -> (r: bool)
    ensures
        r == inference_allowed(
            *claims,
            match inference {
                Some(i) => Some(i@),
                None => None,
            },
        ),
{
    match inference {
        Some(i) => claims.has_scope(i),
        None => false,
    }
}

} // verus!
