//! Tokens, identity providers and the names of the session cookies.
use vstd::prelude::*;
use vstd::std_specs::convert::FromSpecImpl;

use crate::errors::BridgeError;
use crate::text::{copy_string, str_eq};

verus! {

/// The cookie that carries the bridge session.
pub const COOKIE_NAME: &'static str = "bridge-user";
/// The cookie that carries the notebook a user reaches.
pub const NOTEBOOK_COOKIE_NAME: &'static str = "bridge-notebook";
/// The cookie that carries the notebook status.
pub const NOTEBOOK_STATUS_COOKIE_NAME: &'static str = "bridge-notebook-status";

/// The issuer written into every token the bridge signs.
pub const ISSUER: &'static str = "bridge";

/// The claims of a bridge token.
#[derive(Debug)]
pub struct Claims {
    pub iss: String,
    pub exp: usize,
    pub sub: String,
    pub aud: String,
    pub scp: Vec<String>,
}

/// The text `time` gives for the date and time of the Unix timestamp `ts`
/// (seconds), or `None` when `ts` lies outside the dates it represents.
pub uninterp spec fn timestamp_text(ts: i64) -> Option<Seq<char>>;

/// Calls `time::OffsetDateTime::from_unix_timestamp` and formats the result
/// with its `Display`. The result is named by `timestamp_text`; which
/// timestamps are in range and how a date is written is left to the name.
#[verifier::external_body]
fn format_unix_timestamp(ts: i64) -> (r: Option<String>)
    ensures
        r is Some <==> timestamp_text(ts) is Some,
        r matches Some(t) ==> timestamp_text(ts) == Some(t@),
{
    match time::OffsetDateTime::from_unix_timestamp(ts) {
        Ok(d) => Some(d.to_string()),
        Err(_) => None,
    }
}

/// The text shown for a formatted expiry: the date itself, or a notice when
/// the timestamp is not a valid date.
pub open spec fn exp_text_of(formatted: Option<Seq<char>>) -> Seq<char> {
    match formatted {
        Some(t) => t,
        None => "Not a valid timestamp"@,
    }
}

/// The text shown for an expiry that `time` formatted as `formatted`.
pub fn exp_text(formatted: Option<String>) -> (r: String)
    ensures
        r@ == exp_text_of(
            match formatted {
                Some(t) => Some(t@),
                None => None,
            },
        ),
{
    match formatted {
        Some(d) => d,
        None => copy_string("Not a valid timestamp"),
    }
}

impl Claims {
    /// The claims of a token issued at `now` (seconds since the Unix epoch)
    /// that lives `token_lifetime` seconds.
    pub fn issue(now: usize, token_lifetime: usize, sub: &str, aud: &str, scp: Vec<String>) -> (r:
        Claims)
        requires
            now + token_lifetime <= usize::MAX,
        ensures
            r.iss@ == ISSUER@,
            r.exp == now + token_lifetime,
            r.sub@ == sub@,
            r.aud@ == aud@,
            r.scp == scp,
    {
        Claims {
            iss: copy_string(ISSUER),
            exp: now + token_lifetime,
            sub: copy_string(sub),
            aud: copy_string(aud),
            scp,
        }
    }

    /// The expiry as a date, or "Not a valid timestamp".
    pub fn token_exp_as_string(&self) -> (r: String)
        ensures
            r@ == exp_text_of(timestamp_text(self.exp as i64)),
    {
        exp_text(format_unix_timestamp(self.exp as i64))
    }

    /// The subject of the token.
    pub fn get_sub(&self) -> (r: &str)
        ensures
            r@ == self.sub@,
    {
        self.sub.as_str()
    }

    /// Whether the token grants the scope `scope`.
    pub fn has_scope(&self, scope: &str) -> (r: bool)
        ensures
            r == exists|i: int| 0 <= i < self.scp@.len() && #[trigger] self.scp@[i]@ == scope@,
    {
        let mut i: usize = 0;
        while i < self.scp.len()
            invariant
                i <= self.scp@.len(),
                forall|j: int| 0 <= j < i ==> #[trigger] self.scp@[j]@ != scope@,
            decreases self.scp@.len() - i,
        {
            if str_eq(self.scp[i].as_str(), scope) {
                return true;
            }
            i = i + 1;
        }
        false
    }
}

/// The identity providers a user can sign in with.
#[derive(Debug, Clone, Copy, PartialEq, Eq, Structural)]
pub enum OpenIDProvider {
    W3,
    IbmId,
    /// No supported provider.
    Unknown,
}

/// The providers that are configured, in order.
pub const OIDC_PROVIDER: [OpenIDProvider; 2] = [OpenIDProvider::W3, OpenIDProvider::IbmId];

/// The provider a login route names.
pub open spec fn provider_of(s: Seq<char>) -> OpenIDProvider {
    if s == "w3"@ {
        OpenIDProvider::W3
    } else if s == "ibm"@ {
        OpenIDProvider::IbmId
    } else {
        OpenIDProvider::Unknown
    }
}

/// The configuration table of a provider.
pub open spec fn provider_table(p: OpenIDProvider) -> &'static str {
    match p {
        OpenIDProvider::W3 => "openid-w3",
        OpenIDProvider::IbmId => "openid-ibmid",
        OpenIDProvider::Unknown => "",
    }
}

impl<'a> From<&'a str> for OpenIDProvider {
    fn from(provider: &'a str) -> (r: OpenIDProvider) {
        if str_eq(provider, "w3") {
            OpenIDProvider::W3
        } else if str_eq(provider, "ibm") {
            OpenIDProvider::IbmId
        } else {
            OpenIDProvider::Unknown
        }
    }
}

impl<'a> FromSpecImpl<&'a str> for OpenIDProvider {
    open spec fn obeys_from_spec() -> bool {
        true
    }

    open spec fn from_spec(provider: &'a str) -> OpenIDProvider {
        provider_of(provider@)
    }
}

impl From<OpenIDProvider> for &'static str {
    fn from(provider: OpenIDProvider) -> (r: &'static str) {
        match provider {
            OpenIDProvider::W3 => "openid-w3",
            OpenIDProvider::IbmId => "openid-ibmid",
            OpenIDProvider::Unknown => "",
        }
    }
}

impl FromSpecImpl<OpenIDProvider> for &'static str {
    open spec fn obeys_from_spec() -> bool {
        true
    }

    open spec fn from_spec(provider: OpenIDProvider) -> &'static str {
        provider_table(provider)
    }
}

/// The client of an identity provider, among the clients that were set up
/// (`w3`, `ibm`): a provider without one, or an unknown provider, is not
/// supported.
pub fn get_openid_provider<T>(provider: OpenIDProvider, w3: Option<T>, ibm: Option<T>) -> (r: Result<
    T,
    BridgeError,
>)
    ensures
        match (match provider {
            OpenIDProvider::W3 => w3,
            OpenIDProvider::IbmId => ibm,
            OpenIDProvider::Unknown => None,
        }) {
            Some(c) => r == Ok::<T, BridgeError>(c),
            None => r matches Err(BridgeError::AuthorizationServerNotSupported),
        },
{
    let client = match provider {
        OpenIDProvider::W3 => w3,
        OpenIDProvider::IbmId => ibm,
        OpenIDProvider::Unknown => None,
    };
    match client {
        Some(c) => Ok(c),
        None => Err(BridgeError::AuthorizationServerNotSupported),
    }
}

/// The PKCS#8 PEM form of the EC private key in the SEC1 PEM text `pem`,
/// read with the passphrase `passphrase`, or `None` when openssl reads no
/// such key from it with that passphrase.
pub uninterp spec fn pkcs8_of_sec1(pem: Seq<u8>, passphrase: Seq<u8>) -> Option<Seq<u8>>;

/// Calls openssl's `EcKey::private_key_from_pem_passphrase`,
/// `PKey::from_ec_key` and `PKey::private_key_to_pem_pkcs8` in turn. The
/// passphrase is handed to openssl directly, so it never asks for one; the
/// result is named by `pkcs8_of_sec1`. A passphrase holding a zero byte,
/// or a key text longer than `i32::MAX` bytes (openssl's memory buffer
/// asserts it), makes the call panic; `requires` leaves both out.
#[verifier::external_body]
fn pkcs8_pem(secret_pem: &[u8], passphrase: &[u8]) -> (r: Option<Vec<u8>>)
    requires
        !passphrase@.contains(0u8),
        secret_pem@.len() <= i32::MAX,
    ensures
        r is None <==> pkcs8_of_sec1(secret_pem@, passphrase@) is None,
        r matches Some(v) ==> pkcs8_of_sec1(secret_pem@, passphrase@) == Some(v@),
{
    match openssl::ec::EcKey::private_key_from_pem_passphrase(secret_pem, passphrase) {
        Ok(key) => match openssl::pkey::PKey::from_ec_key(key) {
            Ok(pkey) => match pkey.private_key_to_pem_pkcs8() {
                Ok(pem) => Some(pem),
                Err(_) => None,
            },
            Err(_) => None,
        },
        Err(_) => None,
    }
}

/// The signing key is read without a passphrase: a key that is encrypted
/// is refused rather than asked for one.
pub open spec fn no_passphrase() -> Seq<u8> {
    Seq::empty()
}

/// Convert SEC1 to PKCS8: the signing key is kept as SEC1 PEM, the token
/// library reads PKCS#8.
pub fn sec1_to_pkcs8(secret_pem: &[u8]) -> (r: Vec<u8>)
    requires
        secret_pem@.len() <= i32::MAX,
        pkcs8_of_sec1(secret_pem@, no_passphrase()) is Some,
    ensures
        pkcs8_of_sec1(secret_pem@, no_passphrase()) == Some(r@),
{
    let empty: [u8; 0] = [];
    assert(empty@ =~= no_passphrase());
    pkcs8_pem(secret_pem, &empty).unwrap()
}

/// The PKCS#8 form of a SEC1 EC private key, or `None` when the text holds
/// no such key that reads without a passphrase, or is longer than
/// `i32::MAX` bytes.
pub fn try_sec1_to_pkcs8(secret_pem: &[u8]) -> (r: Option<Vec<u8>>)
    ensures
        secret_pem@.len() > i32::MAX ==> r is None,
        secret_pem@.len() <= i32::MAX ==> (r is None <==> pkcs8_of_sec1(
            secret_pem@,
            no_passphrase(),
        ) is None),
        r matches Some(v) ==> pkcs8_of_sec1(secret_pem@, no_passphrase()) == Some(v@),
{
    if secret_pem.len() > 2147483647 {
        return None;
    }
    let empty: [u8; 0] = [];
    assert(empty@ =~= no_passphrase());
    match pkcs8_pem(secret_pem, &empty) {
        Some(_) => Some(sec1_to_pkcs8(secret_pem)),
        None => None,
    }
}

#[verifier::external_type_specification]
#[verifier::external_body]
pub struct ExEncodingKey(jsonwebtoken::EncodingKey);

#[verifier::external_type_specification]
#[verifier::external_body]
pub struct ExDecodingKey(jsonwebtoken::DecodingKey);

/// Whether `jsonwebtoken` reads an EC private signing key from the PKCS#8
/// PEM text `pem`.
pub uninterp spec fn ec_private_pem_reads(pem: Seq<u8>) -> bool;

/// Whether `jsonwebtoken` reads an EC public key from the PEM text `pem`.
pub uninterp spec fn ec_public_pem_reads(pem: Seq<u8>) -> bool;

/// Calls `jsonwebtoken::EncodingKey::from_ec_pem`. Whether it reads a key
/// is named by `ec_private_pem_reads`; the key itself is carried through.
#[verifier::external_body]
fn encoding_key_from_ec_pem(pem: &[u8]) -> (r: Option<jsonwebtoken::EncodingKey>)
    ensures
        r is Some <==> ec_private_pem_reads(pem@),
{
    match jsonwebtoken::EncodingKey::from_ec_pem(pem) {
        Ok(k) => Some(k),
        Err(_) => None,
    }
}

/// Calls `jsonwebtoken::DecodingKey::from_ec_pem`. Whether it reads a key
/// is named by `ec_public_pem_reads`; the key itself is carried through.
#[verifier::external_body]
fn decoding_key_from_ec_pem(pem: &[u8]) -> (r: Option<jsonwebtoken::DecodingKey>)
    ensures
        r is Some <==> ec_public_pem_reads(pem@),
{
    match jsonwebtoken::DecodingKey::from_ec_pem(pem) {
        Ok(k) => Some(k),
        Err(_) => None,
    }
}

/// Both keys read: the private key is at most `i32::MAX` bytes of SEC1 PEM
/// that turns into PKCS#8 without a passphrase, jsonwebtoken reads that as
/// a signing key, and it reads the public key.
pub open spec fn token_keys_read(private_pem: Seq<u8>, public_pem: Seq<u8>) -> bool {
    &&& private_pem.len() <= i32::MAX
    &&& pkcs8_of_sec1(private_pem, no_passphrase()) matches Some(p)
    &&& ec_private_pem_reads(p)
    &&& ec_public_pem_reads(public_pem)
}

/// The keys that sign and check bridge tokens, from the SEC1 PEM text of
/// the private key and the PEM text of the public key: the private key is
/// turned into PKCS#8 first. `None` when either key cannot be read.
pub fn token_keys(private_pem: &[u8], public_pem: &[u8]) -> (r: Option<
    (jsonwebtoken::EncodingKey, jsonwebtoken::DecodingKey),
>)
    ensures
        r is Some <==> token_keys_read(private_pem@, public_pem@),
{
    let pkcs8 = match try_sec1_to_pkcs8(private_pem) {
        Some(p) => p,
        None => return None,
    };
    let encoder = match encoding_key_from_ec_pem(pkcs8.as_slice()) {
        Some(k) => k,
        None => return None,
    };
    match decoding_key_from_ec_pem(public_pem) {
        Some(decoder) => Some((encoder, decoder)),
        None => None,
    }
}

} // verus!
