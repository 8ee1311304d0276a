use openbridge::errors::BridgeError;
use openbridge::auth::Claims;
use openbridge::db::models::{BridgeCookie, UserType};
use openbridge::web::bridge_middleware::{
    validator, CookieCheck, HttpRedirect, OWUICookieCheck, ResourceCookieCheck,
    ResourceVerdict, SecurityCacheHeader, SessionGate, DEFAULT_CSP,
};
use openbridge::web::guardian_middleware::{
    error_page, CookieCheck as PortalCookieCheck, Htmx, Maintainence, PageBody, PageType,
    SecurityHeader, PORTAL_CSP,
};
use openbridge::web::helper::{
    add_token_exp, delimited_string_to_vec, generate_salt, observability_post,
};
use openbridge::web::proxy_client::{
    forwarded_for, forwards_notebook_ws_value, forwards_request_header,
    forwards_response_header, forwards_ws_header, header_value_text, is_websocket, keep_headers,
    notebook_from_client, notebook_from_server, notebook_switched, notebook_ws_headers,
    pack_cookies, relay_from_client, relay_from_upstream, upstream_headers, upstream_switched,
    ws_upstream_url, ClientMessage, HeaderPolicy, NotebookAction, NotebookFrame, RelayAction,
    RelayEvent, UpstreamMessage,
};
use openbridge::web::{allowed_origin, select_protocol, server_address, CookieRead, Protocol, Verdict};

#[test]
fn test_delimited_string_to_vec() {
    let s = vec!["a,b,c".to_string(), "d,e,f".to_string()];
    let delimiter = ",";
    let res = delimited_string_to_vec(s, delimiter);
    assert_eq!(
        res,
        vec![
            "a".to_string(),
            "b".to_string(),
            "c".to_string(),
            "d".to_string(),
            "e".to_string(),
            "f".to_string()
        ]
    );
}

#[test]
fn delimited_string_edge_cases() {
    let res = delimited_string_to_vec(vec!["a,,b,".to_string(), String::new()], ",");
    assert_eq!(res, vec!["a", "", "b", "", ""]);
    let res = delimited_string_to_vec(vec!["x::y::".to_string()], "::");
    assert_eq!(res, vec!["x", "y", ""]);
    let res = delimited_string_to_vec(vec!["ab".to_string()], "");
    assert_eq!(res, vec!["", "a", "b", ""]);
    let res = delimited_string_to_vec(vec!["aaa".to_string()], "aa");
    assert_eq!(res, vec!["", "a"]);
}

fn cookie(resources: Option<Vec<&str>>, session_id: Option<&str>) -> BridgeCookie {
    BridgeCookie {
        subject: "u1".to_string(),
        user_type: UserType::User,
        config: None,
        resources: resources.map(|v| v.into_iter().map(|s| s.to_string()).collect()),
        token: None,
        session_id: session_id.map(|s| s.to_string()),
    }
}

#[test]
fn session_cookie_check() {
    let mw = CookieCheck.new_transform(());
    assert_eq!(mw.decide(&CookieRead::Absent, true), SessionGate::Reject(401));
    assert_eq!(mw.decide(&CookieRead::Unreadable, false), SessionGate::Reject(500));
    assert_eq!(mw.decide(&CookieRead::Read(cookie(None, None)), false), SessionGate::Forward);
    assert_eq!(mw.decide(&CookieRead::Read(cookie(None, None)), true), SessionGate::Reject(401));
    assert_eq!(mw.decide(&CookieRead::Read(cookie(None, Some("s"))), true), SessionGate::CheckSession);
    assert_eq!(mw.session_verdict("s", Some("s")), Verdict::Forward);
    assert_eq!(mw.session_verdict("s", Some("t")), Verdict::Reject(401));
    assert_eq!(mw.session_verdict("s", None), Verdict::Reject(401));
}

#[test]
fn https_redirect() {
    let mw = HttpRedirect.new_transform(());
    assert_eq!(
        mw.decide("http", "example.org", "/a?b=1"),
        Verdict::Redirect(308, "https://example.org/a?b=1".to_string())
    );
    assert_eq!(mw.decide("https", "example.org", "/"), Verdict::Forward);
}

#[test]
fn owui_and_portal_cookies() {
    let o = OWUICookieCheck.new_transform(());
    assert_eq!(o.decide::<u8>(&CookieRead::Absent), Verdict::Reject(403));
    assert_eq!(o.decide::<u8>(&CookieRead::Unreadable), Verdict::Reject(500));
    assert_eq!(o.decide(&CookieRead::Read(1u8)), Verdict::Forward);
    let p = PortalCookieCheck.new_transform(());
    assert_eq!(p.decide::<u8>(&CookieRead::Absent), Verdict::Reject(403));
    assert_eq!(p.decide::<u8>(&CookieRead::Unreadable), Verdict::Reject(500));
    assert_eq!(p.decide(&CookieRead::Read(1u8)), Verdict::Forward);
}

#[test]
fn resource_cookie_check() {
    let mw = ResourceCookieCheck.new_transform(());
    let c = cookie(Some(vec!["molviewer", "docs"]), None);
    let read = CookieRead::Read(c);
    assert_eq!(
        mw.decide(&read, "/resource/molviewer/index.html"),
        ResourceVerdict::Forward("molviewer".to_string())
    );
    assert_eq!(mw.decide(&read, "/docs/x"), ResourceVerdict::Forward("docs".to_string()));
    assert_eq!(mw.decide(&read, "/resource/other"), ResourceVerdict::Reject(403));
    assert_eq!(mw.decide(&CookieRead::Read(cookie(None, None)), "/resource/docs"), ResourceVerdict::Reject(403));
    assert_eq!(mw.decide(&CookieRead::Absent, "/resource/docs"), ResourceVerdict::Reject(403));
    assert_eq!(mw.decide(&CookieRead::Unreadable, "/resource/docs"), ResourceVerdict::Reject(500));
}

#[test]
fn security_headers() {
    let mw = SecurityCacheHeader.new_transform(());
    let custom = vec![("/resource/molviewer".to_string(), "default-src *".to_string())];
    assert_eq!(mw.csp("/resource/molviewer/app.js", &custom), "default-src *");
    assert_eq!(mw.csp("/portal", &custom), DEFAULT_CSP);
    let s = SecurityHeader.new_transform(());
    assert_eq!(s.csp(), PORTAL_CSP);
}

#[test]
fn htmx_and_maintenance() {
    let h = Htmx.new_transform(());
    assert_eq!(h.decide(Some(b"true")), Verdict::Forward);
    assert_eq!(h.decide(Some(b"TRUE")), Verdict::Reject(400));
    assert_eq!(h.decide(None), Verdict::Reject(400));
    let m = Maintainence.new_transform(());
    assert_eq!(m.decide(Some(true)), Verdict::Redirect(302, "/maintenance".to_string()));
    assert_eq!(m.decide(Some(false)), Verdict::Forward);
    assert_eq!(m.decide(None), Verdict::Forward);
}

#[test]
fn error_pages() {
    let p = error_page(404, None).unwrap();
    assert_eq!(p.body, PageBody::Template("pages/404.html"));
    assert_eq!(p.content_type, PageType::Html);
    assert!(!p.keep_headers);
    let p = error_page(400, Some(Some("bad name".to_string()))).unwrap();
    assert_eq!(p.body, PageBody::Text("bad name".to_string()));
    assert_eq!(p.content_type, PageType::FormUrlEncoded);
    let p = error_page(400, Some(None)).unwrap();
    assert_eq!(p.body, PageBody::Text("Htmx message retrieval failed".to_string()));
    let p = error_page(400, None).unwrap();
    assert_eq!(p.body, PageBody::Template("pages/400.html"));
    assert!(error_page(401, None).unwrap().keep_headers);
    assert_eq!(error_page(403, None).unwrap().body, PageBody::Template("pages/403.html"));
    assert_eq!(error_page(500, None).unwrap().body, PageBody::Template("pages/500.html"));
    assert!(error_page(409, None).is_none());
}

fn claims(scp: Vec<&str>) -> Claims {
    Claims::issue(100, 20, "sub", "openad-user", scp.into_iter().map(|s| s.to_string()).collect())
}

#[test]
fn inference_scopes() {
    let c = claims(vec!["llm", "vision"]);
    assert!(validator(&c, Some("vision")));
    assert!(!validator(&c, Some("audio")));
    assert!(!validator(&c, Some("")));
    assert!(!validator(&c, None));
}

#[test]
fn proxy_headers() {
    assert!(forwards_request_header("accept", true));
    assert!(!forwards_request_header("authorization", true));
    assert!(forwards_request_header("authorization", false));
    assert!(!forwards_request_header("inference-service", true));
    assert!(!forwards_request_header("host", false));
    assert!(!forwards_request_header("content-length", false));
    assert!(!forwards_response_header("transfer-encoding"));
    assert!(forwards_response_header("content-type"));
    assert!(!forwards_ws_header("sec-websocket-key"));
    assert!(forwards_ws_header("cookie"));
    assert!(!forwards_notebook_ws_value("v1.kernel.websocket.jupyter.org"));
    assert!(forwards_notebook_ws_value("json"));
}

#[test]
fn forwarding_values() {
    assert_eq!(forwarded_for(Some("1.1.1.1"), "2.2.2.2"), "1.1.1.1, 2.2.2.2");
    assert_eq!(forwarded_for(None, "2.2.2.2"), "2.2.2.2");
    assert_eq!(pack_cookies(&vec!["a=1".to_string(), "b=2".to_string()]), Some("a=1;b=2".to_string()));
    assert_eq!(pack_cookies(&vec!["".to_string(), "b=2".to_string()]), Some("b=2".to_string()));
    assert_eq!(pack_cookies(&vec![]), None);
    assert_eq!(pack_cookies(&vec!["".to_string()]), None);
    assert_eq!(ws_upstream_url("https://h/x"), "wss://h/x");
    assert_eq!(ws_upstream_url("http://h/x"), "ws://h/x");
    assert_eq!(ws_upstream_url("ws://h/x"), "ws://h/x");
    assert!(is_websocket(Some("WebSocket"), Some("Upgrade")));
    assert!(!is_websocket(Some("websocket"), Some("keep-alive")));
    assert!(!is_websocket(None, Some("upgrade")));
}

#[test]
fn server_decisions() {
    assert_eq!(server_address(true), "127.255.255.254");
    assert_eq!(server_address(false), "0.0.0.0");
    assert!(allowed_origin("https://bridge.example.org", "bridge.example.org"));
    assert!(allowed_origin("https://app.bridge.example.org", "bridge.example.org"));
    assert!(!allowed_origin("https://evilbridge.example.org", "bridge.example.org"));
    assert!(!allowed_origin("http://bridge.example.org", "bridge.example.org"));
    assert_eq!(select_protocol(Some(b"h2")), Protocol::Http2);
    assert_eq!(select_protocol(Some(b"http/1.1")), Protocol::Http1);
    assert_eq!(select_protocol(None), Protocol::Http1);
}

#[test]
fn helper_texts() {
    let c = claims(vec![]);
    assert_eq!(add_token_exp(Some(&c)), "1970-01-01 0:02:00.0 +00:00:00");
    assert_eq!(add_token_exp(None), "Not a valid token");
    let bc = BridgeCookie {
        subject: "ann".to_string(),
        user_type: UserType::SystemAdmin,
        config: None,
        resources: None,
        token: None,
        session_id: None,
    };
    assert_eq!(
        observability_post("opened the portal", &bc, "ACME"),
        "*~*~*User: ann with type: SystemAdmin opened the portal for ACME"
    );
}

#[test]
fn test_generate_salt_shape() {
    let a = generate_salt();
    let b = generate_salt();
    assert_eq!(a.len(), 44);
    assert!(a.ends_with('='));
    assert!(!a.ends_with("=="));
    assert!(a[..43]
        .chars()
        .all(|c| c.is_ascii_alphanumeric() || c == '+' || c == '/'));
    assert_ne!(a, b);
}

fn hdr(name: &str, value: &[u8]) -> (String, Vec<u8>) {
    (name.to_string(), value.to_vec())
}

#[test]
fn header_texts() {
    assert_eq!(header_value_text(b"a=1; b=2"), Some("a=1; b=2".to_string()));
    assert_eq!(header_value_text(b"tab\there"), Some("tab\there".to_string()));
    assert_eq!(header_value_text(b""), Some(String::new()));
    assert_eq!(header_value_text(&[0x61, 0x80]), None);
    assert_eq!(header_value_text(&[0x61, 0x0a]), None);
}

#[test]
fn upstream_request_headers() {
    let req = vec![
        hdr("host", b"bridge.example"),
        hdr("authorization", b"Bearer t"),
        hdr("cookie", b"a=1"),
        hdr("x-forwarded-for", b"10.0.0.1"),
        hdr("accept", b"*/*"),
        hdr("Cookie", b"b=2"),
        hdr("cookie", &[0xff]),
        hdr("x-forwarded-for", b"10.0.0.2"),
        hdr("content-length", b"3"),
    ];
    let plain = upstream_headers(&req, HeaderPolicy::Request { inference: false }, true, Some("1.2.3.4"));
    assert_eq!(
        plain.appended,
        vec![
            hdr("authorization", b"Bearer t"),
            hdr("cookie", b"a=1"),
            hdr("x-forwarded-for", b"10.0.0.1"),
            hdr("accept", b"*/*"),
            hdr("Cookie", b"b=2"),
            hdr("cookie", &[0xff]),
            hdr("x-forwarded-for", b"10.0.0.2"),
        ]
    );
    assert_eq!(plain.forwarded_for, Some("10.0.0.1, 1.2.3.4".to_string()));
    assert_eq!(plain.cookie, Some("a=1;b=2".to_string()));

    let inference = upstream_headers(&req, HeaderPolicy::Request { inference: true }, false, None);
    assert_eq!(inference.appended.len(), 6);
    assert!(inference.appended.iter().all(|h| h.0 != "authorization"));
    assert_eq!(inference.forwarded_for, None);
    assert_eq!(inference.cookie, None);

    let bare = vec![hdr("accept", b"*/*")];
    let r = upstream_headers(&bare, HeaderPolicy::Request { inference: false }, true, Some("::1"));
    assert_eq!(r.forwarded_for, Some("::1".to_string()));
    assert_eq!(r.cookie, None);
}

#[test]
fn websocket_and_response_headers() {
    let req = vec![
        hdr("upgrade", b"websocket"),
        hdr("sec-websocket-key", b"k"),
        hdr("sec-websocket-protocol", b"v1.kernel.websocket.jupyter.org"),
        hdr("origin", b"https://bridge.example"),
    ];
    let ws = upstream_headers(&req, HeaderPolicy::WebSocket, false, Some("1.2.3.4"));
    assert_eq!(
        ws.appended,
        vec![
            hdr("sec-websocket-protocol", b"v1.kernel.websocket.jupyter.org"),
            hdr("origin", b"https://bridge.example"),
        ]
    );
    assert_eq!(ws.forwarded_for, Some("1.2.3.4".to_string()));
    let res = vec![
        hdr("transfer-encoding", b"chunked"),
        hdr("set-cookie", b"a=1"),
        hdr("connection", b"close"),
        hdr("set-cookie", b"b=2"),
    ];
    assert_eq!(
        keep_headers(&res, HeaderPolicy::Response),
        vec![hdr("set-cookie", b"a=1"), hdr("set-cookie", b"b=2")]
    );
    assert_eq!(
        notebook_ws_headers(&req),
        vec![
            ("upgrade".to_string(), "websocket".to_string()),
            ("sec-websocket-key".to_string(), "k".to_string()),
            ("origin".to_string(), "https://bridge.example".to_string()),
        ]
    );
}

#[test]
fn websocket_relay() {
    assert_eq!(
        relay_from_client(RelayEvent::Message(ClientMessage::Text("hi".to_string()))),
        RelayAction::Forward(UpstreamMessage::Text("hi".to_string()))
    );
    assert_eq!(
        relay_from_client(RelayEvent::Message(ClientMessage::Close)),
        RelayAction::Forward(UpstreamMessage::Close)
    );
    assert_eq!(relay_from_client(RelayEvent::Failed), RelayAction::Shutdown);
    assert_eq!(relay_from_client(RelayEvent::Ended), RelayAction::Shutdown);
    assert_eq!(
        relay_from_upstream(RelayEvent::Message(UpstreamMessage::Binary(vec![1, 2]))),
        RelayAction::Forward(ClientMessage::Binary(vec![1, 2]))
    );
    assert_eq!(
        relay_from_upstream(RelayEvent::Message(UpstreamMessage::Close)),
        RelayAction::Shutdown
    );
    assert_eq!(
        relay_from_upstream(RelayEvent::Message(UpstreamMessage::Frame)),
        RelayAction::Ignore
    );
    assert!(upstream_switched(101, "101 Switching Protocols").is_ok());
    match upstream_switched(404, "404 Not Found") {
        Err(BridgeError::GeneralError(m)) => {
            assert_eq!(m, "Upstream server did not switch protocols: 404 Not Found")
        }
        _ => panic!("expected an error"),
    }
}

#[test]
fn notebook_relay() {
    assert_eq!(
        notebook_from_client(RelayEvent::Message(NotebookFrame::Ping(vec![7]))),
        NotebookAction::Send(NotebookFrame::Ping(vec![7]))
    );
    assert_eq!(
        notebook_from_client(RelayEvent::Message(NotebookFrame::Close)),
        NotebookAction::SendAndClose(NotebookFrame::Close)
    );
    assert_eq!(
        notebook_from_client(RelayEvent::Message(NotebookFrame::Continuation(vec![1]))),
        NotebookAction::Close
    );
    assert_eq!(notebook_from_client(RelayEvent::Failed), NotebookAction::Ignore);
    assert_eq!(notebook_from_client(RelayEvent::Ended), NotebookAction::Close);
    assert_eq!(
        notebook_from_server(RelayEvent::Message(NotebookFrame::Continuation(vec![1]))),
        NotebookAction::Send(NotebookFrame::Continuation(vec![1]))
    );
    assert_eq!(
        notebook_from_server(RelayEvent::Message(NotebookFrame::Other)),
        NotebookAction::Close
    );
    assert_eq!(notebook_from_server(RelayEvent::Failed), NotebookAction::Close);
    assert!(notebook_switched(101).is_ok());
    match notebook_switched(400) {
        Err(BridgeError::GeneralError(m)) => assert_eq!(m, "Failed to establish websocket connection"),
        _ => panic!("expected an error"),
    }
}

#[test]
fn delimited_split_laws() {
    let a = vec!["a,,b".to_string()];
    let b = vec!["".to_string(), "c,d".to_string()];
    let both: Vec<String> = a.iter().chain(b.iter()).cloned().collect();
    let mut parts = delimited_string_to_vec(a.clone(), ",");
    parts.extend(delimited_string_to_vec(b.clone(), ","));
    assert_eq!(delimited_string_to_vec(both.clone(), ","), parts);
    assert_eq!(delimited_string_to_vec(vec![], ","), Vec::<String>::new());
    assert_eq!(delimited_string_to_vec(a.clone(), ","), vec!["a", "", "b"]);
    assert_eq!(delimited_string_to_vec(vec!["".to_string()], ","), vec![""]);
    let pieces = delimited_string_to_vec(both.clone(), ",");
    assert_eq!(pieces.len(), both.iter().map(|x| x.matches(',').count() + 1).sum::<usize>());
    assert!(pieces.iter().all(|p| !p.contains(',')));
    for x in &both {
        assert_eq!(delimited_string_to_vec(vec![x.clone()], ",").join(","), *x);
    }
}
