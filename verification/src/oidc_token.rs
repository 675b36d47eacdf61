//! What the broker mints itself: opaque random tokens and the claims of the
//! ID tokens it signs.

use vstd::prelude::*;
use vstd::string::StringExecFns;
use base64::engine::general_purpose::URL_SAFE_NO_PAD;
use base64::Engine;
use crate::consts::get_secret;
use crate::consts::Secret;
use crate::consts::Secrets;
use crate::handler_error::HandlerError;
use crate::text::opt_strings_view;

verus! {

/// The most random bytes of one token.
pub const MAX_TOKEN_BYTES: usize = 0x1000_0000;

/// The text that the URL-safe base64 alphabet without padding gives for
/// `bytes`, as `base64`'s `URL_SAFE_NO_PAD` engine writes it.
pub uninterp spec fn base64url(bytes: Seq<u8>) -> Seq<char>;

/// Calls `getrandom::getrandom` on a buffer of `count` bytes. Of the bytes
/// nothing is known; where the system gives none, the error is handed on.
#[verifier::external_body]
fn random_bytes(count: usize) -> (bytes: Result<Vec<u8>, getrandom::Error>)
    ensures
        bytes is Ok ==> bytes->Ok_0@.len() == count,
{
    let mut buffer = vec![0u8; count];
    getrandom::getrandom(&mut buffer).map(|_| buffer)
}

/// Calls `encode` of `base64`'s `URL_SAFE_NO_PAD` engine. The length is
/// bounded because `encode` panics where the length of its result does not
/// fit a `usize`.
#[verifier::external_body]
fn encode_base64url(bytes: &Vec<u8>) -> (text: String)
    requires
        bytes@.len() <= MAX_TOKEN_BYTES,
    ensures
        text@ == base64url(bytes@),
{
    URL_SAFE_NO_PAD.encode(bytes)
}

/// Whether `text` is the encoding of some `count` bytes.
pub open spec fn is_token(text: Seq<char>, count: nat) -> bool {
    exists|bytes: Seq<u8>| bytes.len() == count && text == #[trigger] base64url(bytes)
}

/// The token made of the bytes given: their URL-safe encoding, with no
/// structure of its own.
pub fn token_from_bytes(bytes: &Vec<u8>) -> (token: String)
    requires
        bytes@.len() <= MAX_TOKEN_BYTES,
    ensures
        token@ == base64url(bytes@),
        is_token(token@, bytes@.len()),
{
    encode_base64url(bytes)
}

/// A new opaque token of `BYTES` random bytes. It fails only where the
/// system gives no random bytes.
pub fn new_token<const BYTES: usize>() -> (token: Result<String, HandlerError>)
    requires
        BYTES <= MAX_TOKEN_BYTES,
    ensures
        token is Ok ==> is_token(token->Ok_0@, BYTES as nat),
        token is Err ==> token->Err_0@ is Random,
{
    match random_bytes(BYTES) {
        Ok(bytes) => Ok(token_from_bytes(&bytes)),
        Err(e) => Err(HandlerError::Random(e)),
    }
}

/// The claims of an ID token that the broker signs.
#[derive(Debug, Clone, PartialEq, Eq)]
pub struct OidcToken {
    /// The broker's own base URL.
    pub iss: String,
    /// The client that the token is for.
    pub aud: String,
    /// The user, as the upstream provider names them.
    pub sub: String,
    /// When the token expires, in seconds since the epoch.
    pub exp: u64,
    /// When the token was issued, in seconds since the epoch.
    pub iat: u64,
    /// The nonce that the client sent with its authorization request.
    pub nonce: String,
    /// The user's groups; absent unless the client asked for them.
    pub groups: Option<Vec<String>>,
}

/// `OidcToken` over sequences.
pub struct OidcTokenView {
    pub iss: Seq<char>,
    pub aud: Seq<char>,
    pub sub: Seq<char>,
    pub exp: u64,
    pub iat: u64,
    pub nonce: Seq<char>,
    pub groups: Option<Seq<Seq<char>>>,
}

impl View for OidcToken {
    type V = OidcTokenView;

    open spec fn view(&self) -> OidcTokenView {
        OidcTokenView {
            iss: self.iss@,
            aud: self.aud@,
            sub: self.sub@,
            exp: self.exp,
            iat: self.iat,
            nonce: self.nonce@,
            groups: opt_strings_view(self.groups),
        }
    }
}

/// The claims of the ID token for a login: issued by the broker to the
/// client, about the upstream subject, bound to the client's nonce.
pub open spec fn spec_create_oidc_token(
    secrets: Seq<Seq<char>>,
    client_id: Seq<char>,
    client_nonce: Seq<char>,
    google_subject: Seq<char>,
    issue_time: u64,
    expiration: u64,
    groups: Option<Seq<Seq<char>>>,
) -> OidcTokenView {
    OidcTokenView {
        iss: secrets[Secret::WORKER_DOMAIN.spec_index()],
        aud: client_id,
        sub: google_subject,
        exp: expiration,
        iat: issue_time,
        nonce: client_nonce,
        groups,
    }
}

/// Makes the claims of the ID token for a login. The host signs them with
/// the broker's private key.
pub fn create_oidc_token(
    secrets: &Secrets,
    client_id: &str,
    client_nonce: &str,
    google_subject: String,
    issue_time: u64,
    expiration: u64,
    groups: Option<Vec<String>>,
) -> (claims: OidcToken)
    ensures
        claims@ == spec_create_oidc_token(
            secrets@,
            client_id@,
            client_nonce@,
            google_subject@,
            issue_time,
            expiration,
            opt_strings_view(groups),
        ),
{
    OidcToken {
        iss: String::from_str(get_secret(secrets, Secret::WORKER_DOMAIN)),
        aud: String::from_str(client_id),
        sub: google_subject,
        exp: expiration,
        iat: issue_time,
        nonce: String::from_str(client_nonce),
        groups,
    }
}

} // verus!
