//! The broker as a relying party of the upstream provider: what it asks of
//! the provider and what it makes of the provider's answers.

use vstd::prelude::*;
use vstd::string::StringExecFns;
use crate::consts::get_secret;
use crate::consts::Secret;
use crate::consts::Secrets;
use crate::consts::KEY_PROVIDER_METADATA;
use crate::consts::KV_CACHE;
use crate::endpoints::token_error::TokenErrorResponse;
use crate::endpoints::token_error::TokenErrorResponseView;
use crate::handler_error::HandlerError;
use crate::handler_error::result_view;
use crate::handler_error::HandlerErrorView;
use crate::state::kv_get;
use crate::state::kv_put;
use crate::state::GenericStoredProviderMetadata;
use crate::state::KvGet;
use crate::state::KvGetView;
use crate::state::KvPut;
use crate::state::Ttl;
use crate::state::METADATA_TTL;
use crate::text::opt_view;
use crate::text::str_eq;
use crate::text::strings_view;
use crate::uri::url_parsed;
use crate::uri::RedirectUri;

verus! {

/// The issuer whose discovery document the broker reads.
pub const GOOGLE_ISSUER: &'static str = "https://accounts.google.com";

/// The callback address that is registered with the upstream provider for
/// development.
pub const DEV_CALLBACK: &'static str = "http://localhost:8787/callback";

/// The random bytes of an upstream CSRF token. The token doubles as a
/// password that is good for ten minutes.
pub const CSRF_BYTES: u32 = 23;

/// How the broker presents itself to the upstream provider.
#[derive(Debug, Clone, PartialEq, Eq)]
pub struct ClientConfig {
    pub client_id: String,
    pub client_secret: String,
    /// Where the upstream provider sends the browser back to.
    pub redirect_uri: String,
}

/// `ClientConfig` over sequences.
pub struct ClientConfigView {
    pub client_id: Seq<char>,
    pub client_secret: Seq<char>,
    pub redirect_uri: Seq<char>,
}

impl View for ClientConfig {
    type V = ClientConfigView;

    open spec fn view(&self) -> ClientConfigView {
        ClientConfigView {
            client_id: self.client_id@,
            client_secret: self.client_secret@,
            redirect_uri: self.redirect_uri@,
        }
    }
}

/// The broker's callback address: a fixed local one in the environment
/// `dev`, else the path `/callback` under the broker's own base URL.
pub open spec fn callback_uri(environment: Seq<char>, worker_domain: Seq<char>) -> Seq<char> {
    if environment == "dev"@ {
        DEV_CALLBACK@
    } else {
        worker_domain + "/callback"@
    }
}

/// The client configuration that the secrets and the environment give.
pub open spec fn spec_new_client(
    secrets: Seq<Seq<char>>,
    environment: Seq<char>,
) -> ClientConfigView {
    ClientConfigView {
        client_id: secrets[Secret::GOOGLE_CLIENT_ID.spec_index()],
        client_secret: secrets[Secret::GOOGLE_CLIENT_SECRET.spec_index()],
        redirect_uri: callback_uri(environment, secrets[Secret::WORKER_DOMAIN.spec_index()]),
    }
}

/// Makes the configuration of the broker as a client of the upstream
/// provider. It fails where the callback address is no absolute URL.
pub fn new_client(
    secrets: &Secrets,
    environment: &str,
) -> (client: Result<ClientConfig, HandlerError>)
    ensures
        client is Ok == url_parsed(spec_new_client(secrets@, environment@).redirect_uri) is Some,
        client is Ok ==> client->Ok_0@ == spec_new_client(secrets@, environment@),
        client is Err ==> client->Err_0@ is ParseUrl,
{
    let callback = if str_eq(environment, "dev") {
        String::from_str(DEV_CALLBACK)
    } else {
        String::from_str(get_secret(secrets, Secret::WORKER_DOMAIN)).concat("/callback")
    };
    match RedirectUri::parse(callback.as_str()) {
        Ok(_) => Ok(
            ClientConfig {
                client_id: String::from_str(get_secret(secrets, Secret::GOOGLE_CLIENT_ID)),
                client_secret: String::from_str(get_secret(secrets, Secret::GOOGLE_CLIENT_SECRET)),
                redirect_uri: callback,
            },
        ),
        Err(e) => Err(e),
    }
}

/// What the host is asked to build: an authorization URL at the upstream
/// provider for these scopes, with a fresh CSRF token of `csrf_bytes` random
/// bytes and a fresh nonce.
#[derive(Debug, Clone, PartialEq, Eq)]
pub struct AuthUrlRequest {
    pub scopes: Vec<String>,
    pub csrf_bytes: u32,
}

/// `AuthUrlRequest` over sequences.
pub struct AuthUrlRequestView {
    pub scopes: Seq<Seq<char>>,
    pub csrf_bytes: u32,
}

impl View for AuthUrlRequest {
    type V = AuthUrlRequestView;

    open spec fn view(&self) -> AuthUrlRequestView {
        AuthUrlRequestView { scopes: strings_view(self.scopes@), csrf_bytes: self.csrf_bytes }
    }
}

/// The request for an upstream authorization URL: `email` is always asked
/// for, then the scopes that the client's request leaves to forward.
pub open spec fn spec_get_google_auth_url(scopes: Seq<Seq<char>>) -> AuthUrlRequestView {
    AuthUrlRequestView { scopes: seq!["email"@] + scopes, csrf_bytes: CSRF_BYTES }
}

/// Asks for an authorization URL at the upstream provider.
pub fn get_google_auth_url(scopes: Vec<String>) -> (request: AuthUrlRequest)
    ensures
        request@ == spec_get_google_auth_url(strings_view(scopes@)),
{
    let mut all: Vec<String> = Vec::new();
    all.push(String::from_str("email"));
    let mut rest = scopes;
    let ghost given = strings_view(scopes@);
    all.append(&mut rest);
    assert(strings_view(all@) =~= seq!["email"@] + given);
    AuthUrlRequest { scopes: all, csrf_bytes: CSRF_BYTES }
}

/// What the host built: the URL to send the browser to, and the CSRF token
/// and nonce that went into it.
#[derive(Debug, Clone, PartialEq, Eq)]
pub struct GoogleAuthorize {
    pub redirect: String,
    pub csrf: String,
    pub nonce: String,
}

/// `GoogleAuthorize` over sequences.
pub struct GoogleAuthorizeView {
    pub redirect: Seq<char>,
    pub csrf: Seq<char>,
    pub nonce: Seq<char>,
}

impl View for GoogleAuthorize {
    type V = GoogleAuthorizeView;

    open spec fn view(&self) -> GoogleAuthorizeView {
        GoogleAuthorizeView { redirect: self.redirect@, csrf: self.csrf@, nonce: self.nonce@ }
    }
}

/// What a verified upstream identity gives the broker.
#[derive(Debug, Clone, PartialEq, Eq)]
pub struct GoogleIdToken {
    /// The upstream refresh credential, where one was issued.
    pub refresh_token: Option<String>,
    pub user_email: String,
    pub subject: String,
    /// When the upstream ID token was issued, in seconds since the epoch.
    pub issue_time: u64,
    /// When it expires, in seconds since the epoch.
    pub expiration: u64,
}

/// `GoogleIdToken` over sequences.
pub struct GoogleIdTokenView {
    pub refresh_token: Option<Seq<char>>,
    pub user_email: Seq<char>,
    pub subject: Seq<char>,
    pub issue_time: u64,
    pub expiration: u64,
}

impl View for GoogleIdToken {
    type V = GoogleIdTokenView;

    open spec fn view(&self) -> GoogleIdTokenView {
        GoogleIdTokenView {
            refresh_token: opt_view(self.refresh_token),
            user_email: self.user_email@,
            subject: self.subject@,
            issue_time: self.issue_time,
            expiration: self.expiration,
        }
    }
}

/// The claims of an upstream ID token whose signature and nonce were found
/// good.
#[derive(Debug, Clone, PartialEq, Eq)]
pub struct VerifiedClaims {
    pub email: Option<String>,
    pub subject: String,
    pub issue_time: u64,
    pub expiration: u64,
}

/// `VerifiedClaims` over sequences.
pub struct VerifiedClaimsView {
    pub email: Option<Seq<char>>,
    pub subject: Seq<char>,
    pub issue_time: u64,
    pub expiration: u64,
}

impl View for VerifiedClaims {
    type V = VerifiedClaimsView;

    open spec fn view(&self) -> VerifiedClaimsView {
        VerifiedClaimsView {
            email: opt_view(self.email),
            subject: self.subject@,
            issue_time: self.issue_time,
            expiration: self.expiration,
        }
    }
}

/// What the upstream token endpoint gave: the ID token, if any, with the
/// outcome of its verification against the key set and the expected nonce
/// (the claims, or why it failed), and the refresh credential, if any.
#[derive(Debug, Clone, PartialEq, Eq)]
pub struct UpstreamTokens {
    pub id_token: Option<Result<VerifiedClaims, String>>,
    pub refresh_token: Option<String>,
}

/// `UpstreamTokens` over sequences.
pub struct UpstreamTokensView {
    pub id_token: Option<Result<VerifiedClaimsView, Seq<char>>>,
    pub refresh_token: Option<Seq<char>>,
}

impl View for UpstreamTokens {
    type V = UpstreamTokensView;

    open spec fn view(&self) -> UpstreamTokensView {
        UpstreamTokensView {
            id_token: match self.id_token {
                Some(Ok(claims)) => Some(Ok(claims@)),
                Some(Err(why)) => Some(Err(why@)),
                None => None,
            },
            refresh_token: opt_view(self.refresh_token),
        }
    }
}

/// Why a request to the upstream token endpoint gave no tokens.
#[derive(Debug, Clone, PartialEq, Eq)]
pub enum RequestTokenError {
    /// The endpoint answered with an error of the protocol.
    ServerResponse(TokenErrorResponse),
    /// Anything else: the request did not get through, or the answer could
    /// not be read.
    Other(String),
}

/// `RequestTokenError` over sequences.
pub enum RequestTokenErrorView {
    ServerResponse(TokenErrorResponseView),
    Other(Seq<char>),
}

impl View for RequestTokenError {
    type V = RequestTokenErrorView;

    open spec fn view(&self) -> RequestTokenErrorView {
        match self {
            RequestTokenError::ServerResponse(e) => RequestTokenErrorView::ServerResponse(e@),
            RequestTokenError::Other(why) => RequestTokenErrorView::Other(why@),
        }
    }
}

/// The outcome of an exchange at the upstream token endpoint.
pub type TokenExchange = Result<UpstreamTokens, RequestTokenError>;

/// The view of the outcome of an exchange.
pub open spec fn exchange_view(response: TokenExchange) -> Result<
    UpstreamTokensView,
    RequestTokenErrorView,
> {
    match response {
        Ok(tokens) => Ok(tokens@),
        Err(e) => Err(e@),
    }
}

/// What an exchange gives the broker. An error of the protocol is kept as
/// it is, so that it can be handed on to the client; any other failure of the
/// request is a failure of the upstream exchange. Tokens without an ID token,
/// with one that failed verification, or with one that names no email give
/// no identity.
pub open spec fn spec_response_to_token(
    response: Result<UpstreamTokensView, RequestTokenErrorView>,
) -> Result<GoogleIdTokenView, HandlerErrorView> {
    match response {
        Err(RequestTokenErrorView::ServerResponse(e)) => Err(HandlerErrorView::Token(e)),
        Err(RequestTokenErrorView::Other(why)) => Err(HandlerErrorView::GoogleToken(why)),
        Ok(tokens) => match tokens.id_token {
            None => Err(HandlerErrorView::MissingIdToken),
            Some(Err(why)) => Err(HandlerErrorView::InvalidClaims(why)),
            Some(Ok(claims)) => match claims.email {
                None => Err(HandlerErrorView::MissingEmailClaim),
                Some(email) => Ok(
                    GoogleIdTokenView {
                        refresh_token: tokens.refresh_token,
                        user_email: email,
                        subject: claims.subject,
                        issue_time: claims.issue_time,
                        expiration: claims.expiration,
                    },
                ),
            },
        },
    }
}

/// Reads the verified identity out of the outcome of an exchange, or says
/// why there is none.
pub fn response_to_token(response: TokenExchange) -> (identity: Result<GoogleIdToken, HandlerError>)
    ensures
        result_view(identity) == spec_response_to_token(exchange_view(response)),
{
    let tokens = match response {
        Ok(tokens) => tokens,
        Err(RequestTokenError::ServerResponse(e)) => {
            return Err(HandlerError::Token(e));
        },
        Err(RequestTokenError::Other(why)) => {
            return Err(HandlerError::GoogleToken(why));
        },
    };
    let claims = match tokens.id_token {
        None => {
            return Err(HandlerError::MissingIdToken);
        },
        Some(Err(why)) => {
            return Err(HandlerError::InvalidClaims(why));
        },
        Some(Ok(claims)) => claims,
    };
    match claims.email {
        None => Err(HandlerError::MissingEmailClaim),
        Some(email) => Ok(
            GoogleIdToken {
                refresh_token: tokens.refresh_token,
                user_email: email,
                subject: claims.subject,
                issue_time: claims.issue_time,
                expiration: claims.expiration,
            },
        ),
    }
}

/// Where the lookup of the upstream provider's metadata stands.
#[derive(Debug, Clone, Copy, PartialEq, Eq)]
pub enum MetadataState {
    /// The cache was asked.
    AwaitCache,
    /// The provider was asked for its discovery document.
    AwaitDiscovery,
    /// The document is being written to the cache.
    AwaitStored,
    /// The lookup is over.
    Done,
}

/// What the host reports to the lookup of the metadata.
pub enum MetadataEvent<CP, CJ> {
    /// What the cache held.
    Cached(Result<Option<GenericStoredProviderMetadata<CP, CJ>>, HandlerError>),
    /// The discovery document and key set that the provider gave.
    Discovered(Result<GenericStoredProviderMetadata<CP, CJ>, HandlerError>),
    /// The cache was written.
    Stored(Result<(), HandlerError>),
}

/// What the lookup of the metadata asks of the host.
pub enum MetadataAction<CP, CJ> {
    /// Read the cache.
    Load(KvGet),
    /// Fetch the discovery document of `issuer` and its key set.
    Discover { issuer: String },
    /// Write the document and key set to the cache.
    Store(KvPut<GenericStoredProviderMetadata<CP, CJ>>),
    /// Use the cached document with the cached key set.
    UseCached(GenericStoredProviderMetadata<CP, CJ>),
    /// Use the document that was just discovered.
    UseDiscovered,
    /// Give up.
    Fail(HandlerError),
    /// Nothing: the lookup was over, or the report was not the one awaited.
    Ignore,
}

/// Starts the lookup of the upstream provider's metadata: the cache is
/// asked first.
pub fn get_provider_metadata() -> (first: (MetadataState, KvGet))
    ensures
        first.0 == MetadataState::AwaitCache,
        first.1@ == (KvGetView { kv_name: KV_CACHE@, key: KEY_PROVIDER_METADATA@ }),
{
    (MetadataState::AwaitCache, kv_get(KV_CACHE, KEY_PROVIDER_METADATA))
}

/// Takes the lookup of the metadata one step on. What the cache holds is
/// used. On a miss the provider is asked, and what it gives is cached for an
/// hour and then used. Any failure ends the lookup.
pub fn provider_metadata_step<CP, CJ>(
    state: MetadataState,
    event: MetadataEvent<CP, CJ>,
) -> (next: (MetadataState, MetadataAction<CP, CJ>))
    ensures
        match (state, event) {
            (MetadataState::AwaitCache, MetadataEvent::Cached(Ok(Some(stored)))) => {
                &&& next.0 == MetadataState::Done
                &&& next.1 == MetadataAction::<CP, CJ>::UseCached(stored)
            },
            (MetadataState::AwaitCache, MetadataEvent::Cached(Ok(None))) => {
                &&& next.0 == MetadataState::AwaitDiscovery
                &&& next.1 matches MetadataAction::Discover { issuer }
                &&& issuer@ == GOOGLE_ISSUER@
            },
            (MetadataState::AwaitCache, MetadataEvent::Cached(Err(e))) => {
                &&& next.0 == MetadataState::Done
                &&& next.1 == MetadataAction::<CP, CJ>::Fail(e)
            },
            (MetadataState::AwaitDiscovery, MetadataEvent::Discovered(Ok(found))) => {
                &&& next.0 == MetadataState::AwaitStored
                &&& next.1 matches MetadataAction::Store(put)
                &&& put.kv_name@ == KV_CACHE@
                &&& put.key@ == KEY_PROVIDER_METADATA@
                &&& put.value == found
                &&& put.ttl == METADATA_TTL
            },
            (MetadataState::AwaitDiscovery, MetadataEvent::Discovered(Err(e))) => {
                &&& next.0 == MetadataState::Done
                &&& next.1 == MetadataAction::<CP, CJ>::Fail(e)
            },
            (MetadataState::AwaitStored, MetadataEvent::Stored(Ok(_))) => {
                &&& next.0 == MetadataState::Done
                &&& next.1 == MetadataAction::<CP, CJ>::UseDiscovered
            },
            (MetadataState::AwaitStored, MetadataEvent::Stored(Err(e))) => {
                &&& next.0 == MetadataState::Done
                &&& next.1 == MetadataAction::<CP, CJ>::Fail(e)
            },
            _ => next.0 == state && next.1 == MetadataAction::<CP, CJ>::Ignore,
        },
{
    match (state, event) {
        (MetadataState::AwaitCache, MetadataEvent::Cached(Ok(Some(stored)))) => (
            MetadataState::Done,
            MetadataAction::UseCached(stored),
        ),
        (MetadataState::AwaitCache, MetadataEvent::Cached(Ok(None))) => (
            MetadataState::AwaitDiscovery,
            MetadataAction::Discover { issuer: String::from_str(GOOGLE_ISSUER) },
        ),
        (MetadataState::AwaitCache, MetadataEvent::Cached(Err(e))) => (
            MetadataState::Done,
            MetadataAction::Fail(e),
        ),
        (MetadataState::AwaitDiscovery, MetadataEvent::Discovered(Ok(found))) => (
            MetadataState::AwaitStored,
            MetadataAction::Store(kv_put(KV_CACHE, KEY_PROVIDER_METADATA, found, Ttl::hours(1))),
        ),
        (MetadataState::AwaitDiscovery, MetadataEvent::Discovered(Err(e))) => (
            MetadataState::Done,
            MetadataAction::Fail(e),
        ),
        (MetadataState::AwaitStored, MetadataEvent::Stored(Ok(_))) => (
            MetadataState::Done,
            MetadataAction::UseDiscovered,
        ),
        (MetadataState::AwaitStored, MetadataEvent::Stored(Err(e))) => (
            MetadataState::Done,
            MetadataAction::Fail(e),
        ),
        (state, _) => (state, MetadataAction::Ignore),
    }
}

} // verus!
