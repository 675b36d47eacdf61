//! The failures that a request handler can meet.

use vstd::prelude::*;
use vstd::string::StringExecFns;
use crate::endpoints::authorize_error::ErrorParams;
use crate::endpoints::authorize_error::ErrorParamsView;
use crate::endpoints::token_error::TokenErrorResponse;
use crate::endpoints::token_error::TokenErrorResponseView;

verus! {

/// The error that the `url` crate reports for a string that is no absolute URL.
#[verifier::external_type_specification]
#[verifier::external_body]
pub struct ExUrlParseError(url::ParseError);

/// The error that `getrandom` reports when the system gives no random bytes.
#[verifier::external_type_specification]
#[verifier::external_body]
pub struct ExRandomError(getrandom::Error);

/// Why a request could not be served. Failures of the host's own work
/// (storage, network, signing) carry the host's description of them; two
/// variants carry the protocol error that is owed to the client.
#[derive(Debug)]
pub enum HandlerError {
    /// The state store failed.
    Kv(String),
    /// A record could not be encoded for the store.
    CborSerialize(String),
    /// A stored record could not be decoded.
    CborDeserialize(String),
    /// A record that must exist was not found.
    KvMissing { kv_name: String, key: String },
    /// A secret that holds JSON could not be read.
    JsonDeserialize(String),
    /// The upstream provider's discovery document could not be had.
    Discovery(String),
    /// A string that had to be an absolute URL was none.
    ParseUrl(url::ParseError),
    /// The exchange with the upstream token endpoint failed in transport.
    GoogleToken(String),
    /// The upstream token response held no ID token.
    MissingIdToken,
    /// The upstream ID token did not pass verification.
    InvalidClaims(String),
    /// The upstream ID token held no email claim.
    MissingEmailClaim,
    /// An authorization error owed to the client.
    Authorize(ErrorParams),
    /// A token error owed to the client.
    Token(TokenErrorResponse),
    /// The directory's token endpoint failed.
    GroupsOauth(String),
    /// The directory's group listing failed.
    GroupsAdminApi(String),
    /// Signing the local ID token failed.
    JwtIdToken(String),
    /// Signing the directory assertion failed.
    JwtGroupsOauth(String),
    /// The system gave no random bytes for a new token.
    Random(getrandom::Error),
}

/// `HandlerError` over sequences.
pub enum HandlerErrorView {
    Kv(Seq<char>),
    CborSerialize(Seq<char>),
    CborDeserialize(Seq<char>),
    KvMissing { kv_name: Seq<char>, key: Seq<char> },
    JsonDeserialize(Seq<char>),
    Discovery(Seq<char>),
    ParseUrl(url::ParseError),
    GoogleToken(Seq<char>),
    MissingIdToken,
    InvalidClaims(Seq<char>),
    MissingEmailClaim,
    Authorize(ErrorParamsView),
    Token(TokenErrorResponseView),
    GroupsOauth(Seq<char>),
    GroupsAdminApi(Seq<char>),
    JwtIdToken(Seq<char>),
    JwtGroupsOauth(Seq<char>),
    Random(getrandom::Error),
}

impl View for HandlerError {
    type V = HandlerErrorView;

    open spec fn view(&self) -> HandlerErrorView {
        match self {
            HandlerError::Kv(m) => HandlerErrorView::Kv(m@),
            HandlerError::CborSerialize(m) => HandlerErrorView::CborSerialize(m@),
            HandlerError::CborDeserialize(m) => HandlerErrorView::CborDeserialize(m@),
            HandlerError::KvMissing { kv_name, key } => HandlerErrorView::KvMissing {
                kv_name: kv_name@,
                key: key@,
            },
            HandlerError::JsonDeserialize(m) => HandlerErrorView::JsonDeserialize(m@),
            HandlerError::Discovery(m) => HandlerErrorView::Discovery(m@),
            HandlerError::ParseUrl(e) => HandlerErrorView::ParseUrl(*e),
            HandlerError::GoogleToken(m) => HandlerErrorView::GoogleToken(m@),
            HandlerError::MissingIdToken => HandlerErrorView::MissingIdToken,
            HandlerError::InvalidClaims(m) => HandlerErrorView::InvalidClaims(m@),
            HandlerError::MissingEmailClaim => HandlerErrorView::MissingEmailClaim,
            HandlerError::Authorize(p) => HandlerErrorView::Authorize(p@),
            HandlerError::Token(p) => HandlerErrorView::Token(p@),
            HandlerError::GroupsOauth(m) => HandlerErrorView::GroupsOauth(m@),
            HandlerError::GroupsAdminApi(m) => HandlerErrorView::GroupsAdminApi(m@),
            HandlerError::JwtIdToken(m) => HandlerErrorView::JwtIdToken(m@),
            HandlerError::JwtGroupsOauth(m) => HandlerErrorView::JwtGroupsOauth(m@),
            HandlerError::Random(e) => HandlerErrorView::Random(*e),
        }
    }
}

/// The view of an outcome: of what was had, or of the failure.
pub open spec fn result_view<T: View>(
    outcome: Result<T, HandlerError>,
) -> Result<T::V, HandlerErrorView> {
    match outcome {
        Ok(value) => Ok(value@),
        Err(e) => Err(e@),
    }
}

/// The view of the outcome of a lookup: of what was found, if anything, or
/// of the failure.
pub open spec fn found_view<T: View>(outcome: Result<Option<T>, HandlerError>) -> Result<
    Option<T::V>,
    HandlerErrorView,
> {
    match outcome {
        Ok(Some(value)) => Ok(Some(value@)),
        Ok(None) => Ok(None),
        Err(e) => Err(e@),
    }
}

/// `Display` of `url::ParseError`: the crate's own words for the error.
/// Nothing is claimed of them.
#[verifier::external_body]
fn describe_parse_error(e: &url::ParseError) -> (words: String) {
    e.to_string()
}

/// `Display` of `getrandom::Error`: the crate's own words for the error.
/// Nothing is claimed of them.
#[verifier::external_body]
fn describe_random_error(e: &getrandom::Error) -> (words: String) {
    e.to_string()
}

impl HandlerErrorView {
    /// The line that describes the failure in a log. The failures of the
    /// `url` crate and of `getrandom` are described in their own words,
    /// which are not known here.
    pub open spec fn message(self) -> Option<Seq<char>> {
        match self {
            HandlerErrorView::Kv(m) => Some(m),
            HandlerErrorView::CborSerialize(m) => Some(m),
            HandlerErrorView::CborDeserialize(m) => Some(m),
            HandlerErrorView::KvMissing { kv_name, key } => Some(
                "Missing entry \""@ + key + "\" from store \""@ + kv_name + "\""@,
            ),
            HandlerErrorView::JsonDeserialize(m) => Some(m),
            HandlerErrorView::Discovery(m) => Some(m),
            HandlerErrorView::ParseUrl(_) => None,
            HandlerErrorView::GoogleToken(m) => Some(m),
            HandlerErrorView::MissingIdToken => Some(
                "Google Oauth response did not contain an id_token."@,
            ),
            HandlerErrorView::InvalidClaims(m) => Some(m),
            HandlerErrorView::MissingEmailClaim => Some(
                "Google Oauth response did not include an email claim."@,
            ),
            HandlerErrorView::Authorize(p) => Some(p.message()),
            HandlerErrorView::Token(p) => Some(p.message()),
            HandlerErrorView::GroupsOauth(m) => Some(m),
            HandlerErrorView::GroupsAdminApi(m) => Some(m),
            HandlerErrorView::JwtIdToken(m) => Some(m),
            HandlerErrorView::JwtGroupsOauth(m) => Some(m),
            HandlerErrorView::Random(_) => None,
        }
    }
}

impl HandlerError {
    /// The line that describes the failure in a log.
    pub fn message(&self) -> (line: String)
        ensures
            self@.message() matches Some(text) ==> line@ == text,
    {
        match self {
            HandlerError::Kv(m) => m.clone(),
            HandlerError::CborSerialize(m) => m.clone(),
            HandlerError::CborDeserialize(m) => m.clone(),
            HandlerError::KvMissing { kv_name, key } => {
                let mut line = String::from_str("Missing entry \"");
                line.append(key.as_str());
                line.append("\" from store \"");
                line.append(kv_name.as_str());
                line.append("\"");
                line
            },
            HandlerError::JsonDeserialize(m) => m.clone(),
            HandlerError::Discovery(m) => m.clone(),
            HandlerError::ParseUrl(e) => describe_parse_error(e),
            HandlerError::GoogleToken(m) => m.clone(),
            HandlerError::MissingIdToken => String::from_str(
                "Google Oauth response did not contain an id_token.",
            ),
            HandlerError::InvalidClaims(m) => m.clone(),
            HandlerError::MissingEmailClaim => String::from_str(
                "Google Oauth response did not include an email claim.",
            ),
            HandlerError::Authorize(p) => p.message(),
            HandlerError::Token(p) => p.message(),
            HandlerError::GroupsOauth(m) => m.clone(),
            HandlerError::GroupsAdminApi(m) => m.clone(),
            HandlerError::JwtIdToken(m) => m.clone(),
            HandlerError::JwtGroupsOauth(m) => m.clone(),
            HandlerError::Random(e) => describe_random_error(e),
        }
    }
}

} // verus!
