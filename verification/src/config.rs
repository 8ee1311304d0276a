//! The configuration values of the bridge and the key material derived from
//! its signing key.
use std::collections::HashMap;

use vstd::prelude::*;

use crate::auth::{provider_table, OIDC_PROVIDER};
use crate::text::copy_string;

verus! {

/// Where the document database lives.
pub struct Database {
    pub url: String,
    pub name: String,
}

/// Where the key-value cache lives.
pub struct CacheDB {
    pub url: String,
    pub name: String,
}

/// One notebook image that users can start.
#[derive(Debug)]
pub struct Notebook {
    pub url: String,
    pub pull_policy: String,
    pub working_dir: Option<String>,
    pub volume_mnt_path: Option<String>,
    pub notebook_env: Option<Vec<String>>,
    pub env: Option<HashMap<String, String>>,
    pub secret: Option<String>,
    pub command: Option<Vec<String>>,
    pub args: Option<Vec<String>>,
    pub start_up_url: Option<String>,
    pub max_idle_time: Option<u64>,
}

/// The client registration at one OpenID Connect provider.
pub struct OIDC {
    pub client: String,
    pub url: String,
    pub redirect_url: String,
    pub client_id: String,
    pub client_secret: String,
}

/// The public signing key, published as a JSON Web Key.
#[derive(Debug)]
pub struct JWK {
    pub kty: &'static str,
    pub kid: String,
    pub key_ops: Vec<&'static str>,
    pub crv: &'static str,
    pub alg: &'static str,
    pub x: String,
    pub y: String,
}

/// The audiences a bridge token is valid for.
pub const AUD: [&'static str; 1] = ["openad-user"];

/// The character that stands for the six bits `v` in the URL-safe base64
/// alphabet.
pub open spec fn b64_char(v: int) -> char {
    if v < 26 {
        (65 + v) as char
    } else if v < 52 {
        (97 + v - 26) as char
    } else if v < 62 {
        (48 + v - 52) as char
    } else if v == 62 {
        '-'
    } else {
        '_'
    }
}

/// URL-safe base64 without padding: every three bytes become four
/// characters, and a last group of one or two bytes becomes two or three.
pub open spec fn base64url_nopad(d: Seq<u8>) -> Seq<char>
    decreases d.len(),
{
    let a = if d.len() > 0 { d[0] as int } else { 0 };
    let b = if d.len() > 1 { d[1] as int } else { 0 };
    let c = if d.len() > 2 { d[2] as int } else { 0 };
    if d.len() == 0 {
        Seq::empty()
    } else if d.len() == 1 {
        seq![b64_char(a / 4), b64_char((a % 4) * 16)]
    } else if d.len() == 2 {
        seq![
            b64_char(a / 4),
            b64_char((a % 4) * 16 + b / 16),
            b64_char((b % 16) * 4),
        ]
    } else {
        seq![
            b64_char(a / 4),
            b64_char((a % 4) * 16 + b / 16),
            b64_char((b % 16) * 4 + c / 64),
            b64_char(c % 64),
        ] + base64url_nopad(d.skip(3))
    }
}

/// Calls `base64::prelude::BASE64_URL_SAFE_NO_PAD.encode`: the RFC 4648
/// URL-safe alphabet with no padding, which `base64url_nopad` spells out.
#[verifier::external_body]
fn encode_base64url(data: &[u8]) -> (r: String)
    ensures
        r@ == base64url_nopad(data@),
{
    base64::Engine::encode(&base64::prelude::BASE64_URL_SAFE_NO_PAD, data)
}

/// The SHA-256 digest of `data`.
pub uninterp spec fn sha256_of(data: Seq<u8>) -> Seq<u8>;

/// Calls `sha2::Sha256::digest`. The digest is named by `sha256_of`; the
/// crate documents that it is 32 bytes long.
#[verifier::external_body]
fn sha256(data: &[u8]) -> (r: Vec<u8>)
    ensures
        r@ == sha256_of(data@),
        r@.len() == 32,
{
    <sha2::Sha256 as sha2::Digest>::digest(data).to_vec()
}

/// The key identifier of a public key: its SHA-256 digest in URL-safe base64.
pub fn key_id(public_key: &[u8]) -> (r: String)
    ensures
        r@ == base64url_nopad(sha256_of(public_key@)),
{
    let digest = sha256(public_key);
    encode_base64url(digest.as_slice())
}

/// The affine coordinates of the P-256 public key that the PEM text `pem`
/// holds, or `None` when it holds none.
pub uninterp spec fn p256_coordinates(pem: Seq<char>) -> Option<(Seq<u8>, Seq<u8>)>;

/// Calls `p256::PublicKey::from_public_key_pem`, then `to_jwk` and
/// `JwkEcKey::to_encoded_point`, and gives the point's `x` and `y`. The
/// coordinates are named by `p256_coordinates`.
#[verifier::external_body]
fn public_key_coordinates(pem: &str) -> (r: Option<(Vec<u8>, Vec<u8>)>)
    ensures
        r is None <==> p256_coordinates(pem@) is None,
        r matches Some(c) ==> p256_coordinates(pem@) == Some((c.0@, c.1@)),
{
    match <p256::PublicKey as p256::pkcs8::DecodePublicKey>::from_public_key_pem(pem) {
        Ok(key) => match key.to_jwk().to_encoded_point::<p256::NistP256>() {
            Ok(p) => match (p.x(), p.y()) {
                (Some(x), Some(y)) => Some((x.to_vec(), y.to_vec())),
                _ => None,
            },
            Err(_) => None,
        },
        Err(_) => None,
    }
}

impl JWK {
    /// The JSON Web Key of the P-256 public key in the PEM text `pem`, or
    /// `None` when the text holds no such key.
    pub fn from_public_key_pem(pem: &str, kid: String) -> (r: Option<Self>)
        ensures
            p256_coordinates(pem@) is None ==> r is None,
            p256_coordinates(pem@) matches Some(c) ==> (r matches Some(k) && {
                &&& k.kty@ == "EC"@
                &&& k.kid == kid
                &&& k.key_ops@.len() == 1 && k.key_ops@[0]@ == "verify"@
                &&& k.crv@ == "P-256"@
                &&& k.alg@ == "ES256"@
                &&& k.x@ == base64url_nopad(c.0)
                &&& k.y@ == base64url_nopad(c.1)
            }),
    {
        match public_key_coordinates(pem) {
            Some((x, y)) => Some(JWK::new(x.as_slice(), y.as_slice(), kid)),
            None => None,
        }
    }

    /// The JSON Web Key of a P-256 public key with affine coordinates `x` and `y`.
    pub fn new(x: &[u8], y: &[u8], kid: String) -> (r: Self)
        ensures
            r.kty@ == "EC"@,
            r.kid == kid,
            r.key_ops@.len() == 1 && r.key_ops@[0]@ == "verify"@,
            r.crv@ == "P-256"@,
            r.alg@ == "ES256"@,
            r.x@ == base64url_nopad(x@),
            r.y@ == base64url_nopad(y@),
    {
        let x = encode_base64url(x);
        let y = encode_base64url(y);
        let mut key_ops: Vec<&'static str> = Vec::new();
        key_ops.push("verify");
        Self { kty: "EC", kid, key_ops, crv: "P-256", alg: "ES256", x, y }
    }
}

/// What the TOML document `doc` holds under `key` in its table `table`, or in
/// the table `sub` inside that table: `None` where the document does not parse
/// or the path leads to no entry (a missing table or key, or a path step that is
/// not a table), `Some(None)` for an entry that is not a string, and
/// `Some(Some(text))` for a string entry.
pub uninterp spec fn toml_entry_at(
    doc: Seq<char>,
    table: Seq<char>,
    sub: Option<Seq<char>>,
    key: Seq<char>,
) -> Option<Option<Seq<char>>>;

/// The characters of an optional string slice.
pub open spec fn str_opt(s: Option<&str>) -> Option<Seq<char>> {
    match s {
        Some(t) => Some(t@),
        None => None,
    }
}

/// The characters of an optional string.
pub open spec fn string_opt(s: Option<String>) -> Option<Seq<char>> {
    match s {
        Some(t) => Some(t@),
        None => None,
    }
}

/// The characters of a looked-up entry.
pub open spec fn entry_view(e: Option<Option<String>>) -> Option<Option<Seq<char>>> {
    match e {
        Some(v) => Some(string_opt(v)),
        None => None,
    }
}

/// Calls `toml::from_str` into a `toml::Table`, then `get` on the table, on the
/// inner table where `sub` names one, and on the key, and tells the
/// `toml::Value` variants apart. What the document holds there is named by
/// `toml_entry_at`.
#[verifier::external_body]
fn toml_entry(doc: &str, table: &str, sub: Option<&str>, key: &str) -> (r: Option<Option<String>>)
    ensures
        entry_view(r) == toml_entry_at(doc@, table@, str_opt(sub), key@),
{
    let Ok(root) = toml::from_str::<toml::Table>(doc) else { return None };
    let Some(toml::Value::Table(outer)) = root.get(table) else { return None };
    let inner = match sub {
        Some(s) => match outer.get(s) { Some(toml::Value::Table(t)) => t, _ => return None },
        None => outer,
    };
    match inner.get(key) {
        Some(toml::Value::String(v)) => Some(Some(v.clone())),
        Some(_) => Some(None),
        None => None,
    }
}

/// The string under `key` in the table `table` (or its inner table `sub`) of
/// the TOML document `doc`, where there is one.
pub open spec fn toml_text_at(doc: Seq<char>, table: Seq<char>, sub: Option<Seq<char>>, key: Seq<char>) -> Option<Seq<char>> {
    match toml_entry_at(doc, table, sub, key) {
        Some(Some(t)) => Some(t),
        _ => None,
    }
}

fn toml_text(doc: &str, table: &str, sub: Option<&str>, key: &str) -> (r: Option<String>)
    ensures
        string_opt(r) == toml_text_at(doc@, table@, str_opt(sub), key@),
{
    match toml_entry(doc, table, sub, key) {
        Some(Some(t)) => Some(t),
        _ => None,
    }
}

/// The key of a store's URL: the local one in debug builds.
pub open spec fn url_key(debug: bool) -> Seq<char> {
    if debug {
        "url_local"@
    } else {
        "url"@
    }
}

/// The URL and the name of a store, read from the table `table` of `doc`:
/// both must be strings.
pub open spec fn store_settings(doc: Seq<char>, table: Seq<char>, debug: bool) -> Option<(Seq<char>, Seq<char>)> {
    match (toml_text_at(doc, table, None, url_key(debug)), toml_text_at(doc, table, None, "name"@)) {
        (Some(u), Some(n)) => Some((u, n)),
        _ => None,
    }
}

fn store_from_toml(debug: bool, doc: &str, table: &str) -> (r: Option<(String, String)>)
    ensures
        match store_settings(doc@, table@, debug) {
            Some((u, n)) => r matches Some(p) && p.0@ == u && p.1@ == n,
            None => r is None,
        },
{
    let key = if debug { "url_local" } else { "url" };
    proof {
        reveal_strlit("url_local");
        reveal_strlit("url");
    }
    assert(key@ == url_key(debug));
    match (toml_text(doc, table, None, key), toml_text(doc, table, None, "name")) {
        (Some(u), Some(n)) => Some((u, n)),
        _ => None,
    }
}

/// The document database settings in the database configuration `doc`: its
/// table `mongodb` holds the URL (`url_local` in debug builds, `url` otherwise)
/// and the name, or there are no settings.
pub fn database_from_toml(debug: bool, doc: &str) -> (r: Option<Database>)
    ensures
        match store_settings(doc@, "mongodb"@, debug) {
            Some((u, n)) => r matches Some(d) && d.url@ == u && d.name@ == n,
            None => r is None,
        },
{
    match store_from_toml(debug, doc, "mongodb") {
        Some((url, name)) => Some(Database { url, name }),
        None => None,
    }
}

/// The cache settings in the database configuration `doc`: its table `keydb`
/// holds the URL (`url_local` in debug builds, `url` otherwise) and the name,
/// or there are no settings.
pub fn cache_from_toml(debug: bool, doc: &str) -> (r: Option<CacheDB>)
    ensures
        match store_settings(doc@, "keydb"@, debug) {
            Some((u, n)) => r matches Some(c) && c.url@ == u && c.name@ == n,
            None => r is None,
        },
{
    match store_from_toml(debug, doc, "keydb") {
        Some((url, name)) => Some(CacheDB { url, name }),
        None => None,
    }
}

/// The client registration that the table `table` of the configuration `doc`
/// holds: `url` and `redirect_url` in the table, `client_id` and
/// `client_secret` in its inner table `client`, all of them strings.
pub open spec fn oidc_settings(doc: Seq<char>, table: Seq<char>) -> Option<
    (Seq<char>, Seq<char>, Seq<char>, Seq<char>),
> {
    match (
        toml_text_at(doc, table, None, "url"@),
        toml_text_at(doc, table, None, "redirect_url"@),
        toml_text_at(doc, table, Some("client"@), "client_id"@),
        toml_text_at(doc, table, Some("client"@), "client_secret"@),
    ) {
        (Some(u), Some(r), Some(i), Some(s)) => Some((u, r, i, s)),
        _ => None,
    }
}

/// `o` is the registration `s` read from the table `table`.
pub open spec fn oidc_is(o: OIDC, table: Seq<char>, s: (Seq<char>, Seq<char>, Seq<char>, Seq<char>)) -> bool {
    &&& o.client@ == table
    &&& o.url@ == s.0
    &&& o.redirect_url@ == s.1
    &&& o.client_id@ == s.2
    &&& o.client_secret@ == s.3
}

fn oidc_from_table(doc: &str, table: &str) -> (r: Option<OIDC>)
    ensures
        match oidc_settings(doc@, table@) {
            Some(s) => r matches Some(o) && oidc_is(o, table@, s),
            None => r is None,
        },
{
    match (
        toml_text(doc, table, None, "url"),
        toml_text(doc, table, None, "redirect_url"),
        toml_text(doc, table, Some("client"), "client_id"),
        toml_text(doc, table, Some("client"), "client_secret"),
    ) {
        (Some(url), Some(redirect_url), Some(client_id), Some(client_secret)) => Some(
            OIDC { client: copy_string(table), url, redirect_url, client_id, client_secret },
        ),
        _ => None,
    }
}

/// The client registrations in the configuration `doc`, one per provider of
/// `OIDC_PROVIDER` and in its order, each read from the provider's table; there
/// are none unless every provider's table holds a whole registration.
pub fn oidc_from_toml(doc: &str) -> (r: Option<Vec<OIDC>>)
    ensures
        match (
            oidc_settings(doc@, provider_table(OIDC_PROVIDER[0])@),
            oidc_settings(doc@, provider_table(OIDC_PROVIDER[1])@),
        ) {
            (Some(a), Some(b)) => r matches Some(v) && v@.len() == 2 && oidc_is(
                v@[0],
                provider_table(OIDC_PROVIDER[0])@,
                a,
            ) && oidc_is(v@[1], provider_table(OIDC_PROVIDER[1])@, b),
            _ => r is None,
        },
{
    let first: &'static str = OIDC_PROVIDER[0].into();
    let second: &'static str = OIDC_PROVIDER[1].into();
    match (oidc_from_table(doc, first), oidc_from_table(doc, second)) {
        (Some(a), Some(b)) => Some(vec![a, b]),
        _ => None,
    }
}

/// The application settings of the bridge.
pub struct AppConfig {
    pub name: String,
    pub description: String,
    pub company: String,
    pub notebook_namespace: String,
    /// The host the bridge is served at, where one is set.
    pub bridge_url: Option<String>,
    /// The access token and the endpoint of the observability service.
    pub observability_cred: Option<(String, String)>,
}

/// The entry under `key` in the table `app-config` of `doc`.
pub open spec fn app_entry(doc: Seq<char>, key: Seq<char>) -> Option<Option<Seq<char>>> {
    toml_entry_at(doc, "app-config"@, None, key)
}

/// The string under `key` in the table `app-config` of `doc`.
pub open spec fn app_text(doc: Seq<char>, key: Seq<char>) -> Option<Seq<char>> {
    toml_text_at(doc, "app-config"@, None, key)
}

/// The table `app-config` of `doc` holds what the bridge needs: its name,
/// description, company and notebook namespace as strings, and entries for
/// the observability access token and endpoint.
pub open spec fn app_settings_present(doc: Seq<char>) -> bool {
    &&& app_text(doc, "name"@) is Some
    &&& app_text(doc, "description"@) is Some
    &&& app_text(doc, "company"@) is Some
    &&& app_text(doc, "notebook_namespace"@) is Some
    &&& app_entry(doc, "observability_access_token"@) is Some
    &&& app_entry(doc, "observability_endpoint"@) is Some
}

/// The observability credentials that `doc` sets: both entries are strings.
pub open spec fn observability_settings(doc: Seq<char>) -> Option<(Seq<char>, Seq<char>)> {
    match (
        app_entry(doc, "observability_access_token"@),
        app_entry(doc, "observability_endpoint"@),
    ) {
        (Some(Some(t)), Some(Some(e))) => Some((t, e)),
        _ => None,
    }
}

/// The characters of optional credentials.
pub open spec fn cred_view(c: Option<(String, String)>) -> Option<(Seq<char>, Seq<char>)> {
    match c {
        Some((t, e)) => Some((t@, e@)),
        None => None,
    }
}

/// The application settings in the configuration `doc`, read from its table
/// `app-config`, or `None` when that table lacks what the bridge needs.
pub fn app_config_from_toml(doc: &str) -> (r: Option<AppConfig>)
    ensures
        (r is Some) <==> app_settings_present(doc@),
        r matches Some(a) ==> {
            &&& app_text(doc@, "name"@) == Some(a.name@)
            &&& app_text(doc@, "description"@) == Some(a.description@)
            &&& app_text(doc@, "company"@) == Some(a.company@)
            &&& app_text(doc@, "notebook_namespace"@) == Some(a.notebook_namespace@)
            &&& string_opt(a.bridge_url) == app_text(doc@, "bridge_url"@)
            &&& cred_view(a.observability_cred) == observability_settings(doc@)
        },
{
    let token = toml_entry(doc, "app-config", None, "observability_access_token");
    let endpoint = toml_entry(doc, "app-config", None, "observability_endpoint");
    match (
        toml_text(doc, "app-config", None, "name"),
        toml_text(doc, "app-config", None, "description"),
        toml_text(doc, "app-config", None, "company"),
        toml_text(doc, "app-config", None, "notebook_namespace"),
        token,
        endpoint,
    ) {
        (Some(name), Some(description), Some(company), Some(notebook_namespace), Some(t), Some(e)) => {
            Some(AppConfig {
                name,
                description,
                company,
                notebook_namespace,
                bridge_url: toml_text(doc, "app-config", None, "bridge_url"),
                observability_cred: observability_cred(t, e),
            })
        },
        _ => None,
    }
}

/// The credentials of the observability endpoint: both the access token and
/// the endpoint must be set.
pub fn observability_cred(token: Option<String>, endpoint: Option<String>) -> (r: Option<
    (String, String),
>)
    ensures
        match (token, endpoint) {
            (Some(t), Some(e)) => r == Some((t, e)),
            _ => r is None,
        },
{
    match (token, endpoint) {
        (Some(t), Some(e)) => Some((t, e)),
        _ => None,
    }
}

} // verus!
