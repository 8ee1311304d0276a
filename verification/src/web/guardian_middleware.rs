//! The request middlewares of the admin portal: its cookie, HTMX-only
//! routes, maintenance windows, security headers and error pages.
use vstd::prelude::*;

use super::{CookieRead, SpecVerdict, Verdict, FOUND};
use crate::errors::{BAD_REQUEST, FORBIDDEN, INTERNAL_SERVER_ERROR, UNAUTHORIZED};
use crate::text::copy_string;

pub use super::bridge_middleware::validator;

verus! {

/// The status of a missing page.
pub const NOT_FOUND: u16 = 404;

/// Checks the portal cookie.
pub struct CookieCheck;

/// The portal cookie check in front of a service.
pub struct CookieCheckMW<S> {
    pub service: S,
}

impl CookieCheck {
    /// Puts the check in front of `service`.
    pub fn new_transform<S>(&self, service: S) -> (r: CookieCheckMW<S>)
        ensures
            r.service == service,
    {
        CookieCheckMW { service }
    }
}

impl<S> CookieCheckMW<S> {
    /// A request without the cookie is forbidden, one with an unreadable
    /// cookie fails, and one with a readable cookie goes on.
    pub fn decide<T>(&self, cookie: &CookieRead<T>) -> (r: Verdict)
        ensures
            r@ == (match cookie {
                CookieRead::Absent => SpecVerdict::Reject(FORBIDDEN),
                CookieRead::Unreadable => SpecVerdict::Reject(INTERNAL_SERVER_ERROR),
                CookieRead::Read(_) => SpecVerdict::Forward,
            }),
    {
        match cookie {
            CookieRead::Absent => Verdict::Reject(FORBIDDEN),
            CookieRead::Unreadable => Verdict::Reject(INTERNAL_SERVER_ERROR),
            CookieRead::Read(_) => Verdict::Forward,
        }
    }
}

/// The header through which a failing HTMX request gets its message.
pub const HTMX_ERROR_RES: &'static str = "HTMX-Error-Response";

/// Lets only HTMX requests through.
pub struct Htmx;

/// The HTMX check in front of a service.
pub struct HtmxMW<S> {
    pub service: S,
}

impl Htmx {
    /// Puts the check in front of `service`.
    pub fn new_transform<S>(&self, service: S) -> (r: HtmxMW<S>)
        ensures
            r.service == service,
    {
        HtmxMW { service }
    }
}

/// The bytes of `true`.
pub open spec fn true_bytes() -> Seq<u8> {
    seq![0x74u8, 0x72u8, 0x75u8, 0x65u8]
}

impl<S> HtmxMW<S> {
    /// A request goes on when its `HX-Request` header is `true`; any other
    /// is a bad request.
    pub fn decide(&self, hx_request: Option<&[u8]>) -> (r: Verdict)
        ensures
            r@ == (match hx_request {
                Some(v) => if v@ == true_bytes() {
                    SpecVerdict::Forward
                } else {
                    SpecVerdict::Reject(BAD_REQUEST)
                },
                None => SpecVerdict::Reject(BAD_REQUEST),
            }),
    {
        match hx_request {
            Some(v) => {
                if v.len() == 4 && v[0] == 0x74 && v[1] == 0x72 && v[2] == 0x75 && v[3] == 0x65 {
                    assert(v@ =~= true_bytes());
                    Verdict::Forward
                } else {
                    Verdict::Reject(BAD_REQUEST)
                }
            },
            None => Verdict::Reject(BAD_REQUEST),
        }
    }
}

/// The page shown during maintenance.
pub const MAINTENANCE_PAGE: &'static str = "/maintenance";

/// Sends requests to the maintenance page during a maintenance window.
pub struct Maintainence;

/// The maintenance check in front of a service.
pub struct MaintainenceMW<S> {
    pub service: S,
}

impl Maintainence {
    /// Puts the check in front of `service`.
    pub fn new_transform<S>(&self, service: S) -> (r: MaintainenceMW<S>)
        ensures
            r.service == service,
    {
        MaintainenceMW { service }
    }
}

impl<S> MaintainenceMW<S> {
    /// During a maintenance window (`Some(true)`) a request is sent to the
    /// maintenance page; otherwise, also when the window flag could not be
    /// read (`None`), it goes on.
    pub fn decide(&self, window: Option<bool>) -> (r: Verdict)
        ensures
            r@ == (if window == Some(true) {
                SpecVerdict::Redirect(FOUND, MAINTENANCE_PAGE@)
            } else {
                SpecVerdict::Forward
            }),
    {
        match window {
            Some(true) => Verdict::Redirect(FOUND, copy_string(MAINTENANCE_PAGE)),
            _ => Verdict::Forward,
        }
    }
}

/// The content security policy of the portal.
pub const PORTAL_CSP: &'static str = "default-src 'self' https://cdn.jsdelivr.net/npm/bootstrap-icons@1.11.3/font/fonts/bootstrap-icons.woff2 https://cdn.jsdelivr.net/npm/bootstrap-icons@1.11.3/font/fonts/bootstrap-icons.woff; img-src * data:; style-src 'self' 'unsafe-inline' https://cdn.jsdelivr.net/npm/bootstrap@5.3.3/dist/css/bootstrap.min.css https://cdn.jsdelivr.net/npm/bootstrap-icons@1.11.3/font/bootstrap-icons.min.css; script-src 'self' 'unsafe-eval' 'nonce-login-redirect-guardian' 'nonce-guardian-group-form-val' 'nonce-guardian-theme-selector' https://cdn.jsdelivr.net/npm/bootstrap@5.3.3/dist/js/bootstrap.bundle.min.js https://unpkg.com/htmx.org@2.0.1 https://unpkg.com/htmx-ext-response-targets@2.0.0/response-targets.js;";

/// Adds the content security policy to every response.
pub struct SecurityHeader;

/// The security header in front of a service.
pub struct SecurityHeaderMW<S> {
    pub service: S,
}

impl SecurityHeader {
    /// Puts the header in front of `service`.
    pub fn new_transform<S>(&self, service: S) -> (r: SecurityHeaderMW<S>)
        ensures
            r.service == service,
    {
        SecurityHeaderMW { service }
    }
}

impl<S> SecurityHeaderMW<S> {
    /// The content security policy every response gets.
    pub fn csp(&self) -> (r: &'static str)
        ensures
            r == PORTAL_CSP,
    {
        PORTAL_CSP
    }
}

/// The content type of an error page.
#[derive(Debug, Clone, Copy, PartialEq, Eq, Structural)]
pub enum PageType {
    Html,
    FormUrlEncoded,
}

/// The body of an error page.
#[derive(Debug, PartialEq, Eq)]
pub enum PageBody {
    /// The rendered template of this name.
    Template(&'static str),
    /// This text.
    Text(String),
}

/// The page an error response is replaced with.
#[derive(Debug, PartialEq, Eq)]
pub struct ErrorPage {
    pub status: u16,
    pub body: PageBody,
    pub content_type: PageType,
    /// Whether the headers of the original response are kept.
    pub keep_headers: bool,
}

/// The template of the page for an error status, if it has one.
pub open spec fn error_template(status: u16) -> Option<&'static str> {
    if status == NOT_FOUND {
        Some("pages/404.html")
    } else if status == INTERNAL_SERVER_ERROR {
        Some("pages/500.html")
    } else if status == BAD_REQUEST {
        Some("pages/400.html")
    } else if status == UNAUTHORIZED {
        Some("pages/401.html")
    } else if status == FORBIDDEN {
        Some("pages/403.html")
    } else {
        None
    }
}

/// The page that replaces an error response with status `status`. A bad
/// request that carries an HTMX message (`Some`) shows that message, as
/// form data, or a notice when the message is not readable text (`None`);
/// an unauthorized response keeps its headers. Other statuses keep their
/// response.
pub fn error_page(status: u16, htmx_message: Option<Option<String>>) -> (r: Option<ErrorPage>)
    ensures
        error_template(status) is None ==> r is None,
        error_template(status) matches Some(t) ==> (r matches Some(p) && {
            &&& p.status == status
            &&& p.keep_headers == (status == UNAUTHORIZED)
            &&& if status == BAD_REQUEST && htmx_message is Some {
                &&& p.content_type == PageType::FormUrlEncoded
                &&& p.body matches PageBody::Text(m) && m@ == (match htmx_message {
                    Some(Some(m)) => m@,
                    _ => "Htmx message retrieval failed"@,
                })
            } else {
                &&& p.content_type == PageType::Html
                &&& p.body == PageBody::Template(t)
            }
        }),
{
    let template = if status == NOT_FOUND {
        "pages/404.html"
    } else if status == INTERNAL_SERVER_ERROR {
        "pages/500.html"
    } else if status == BAD_REQUEST {
        "pages/400.html"
    } else if status == UNAUTHORIZED {
        "pages/401.html"
    } else if status == FORBIDDEN {
        "pages/403.html"
    } else {
        return None;
    };
    if status == BAD_REQUEST {
        if let Some(m) = htmx_message {
            let text = match m {
                Some(t) => t,
                None => copy_string("Htmx message retrieval failed"),
            };
            return Some(
                ErrorPage {
                    status,
                    body: PageBody::Text(text),
                    content_type: PageType::FormUrlEncoded,
                    keep_headers: false,
                },
            );
        }
    }
    Some(
        ErrorPage {
            status,
            body: PageBody::Template(template),
            content_type: PageType::Html,
            keep_headers: status == UNAUTHORIZED,
        },
    )
}

} // verus!
