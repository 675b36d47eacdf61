//! The token endpoint: it exchanges a local authorization code or a local
//! refresh token for an ID token.

use vstd::prelude::*;
use vstd::string::StringExecFns;
use crate::consts::spec_token_header;
use crate::consts::token_header;
use crate::consts::Secret;
use crate::consts::Secrets;
use crate::consts::KV_ACCESS_TOKEN_STATE;
use crate::consts::KV_REFRESH_TOKEN_STATE;
use crate::endpoints::authorize::authorize_endpoint::spec_pending;
use crate::endpoints::authorize::authorize_endpoint::AuthorizeParamsView;
use crate::endpoints::callback::spec_access_state;
use crate::endpoints::token_error::error_response;
use crate::endpoints::token_error::spec_error_response;
use crate::endpoints::token_error::TokenErrorCode;
use crate::endpoints::token_error::TokenErrorCodeView;
use crate::endpoints::token_error::TokenErrorResponse;
use crate::endpoints::token_error::TokenErrorResponseView;
use crate::google::exchange_view;
use crate::google::response_to_token;
use crate::google::spec_response_to_token;
use crate::google::GoogleIdToken;
use crate::google::GoogleIdTokenView;
use crate::google::RequestTokenErrorView;
use crate::google::TokenExchange;
use crate::google::UpstreamTokensView;
use crate::handler_error::HandlerError;
use crate::handler_error::found_view;
use crate::handler_error::result_view;
use crate::handler_error::HandlerErrorView;
use crate::http::HttpResponse;
use crate::http::HttpResponseView;
use crate::http::ResponseBody;
use crate::http::ResponseBodyView;
use crate::oidc_token::create_oidc_token;
use crate::oidc_token::is_token;
use crate::oidc_token::new_token;
use crate::oidc_token::spec_create_oidc_token;
use crate::oidc_token::OidcToken;
use crate::oidc_token::OidcTokenView;
use crate::state::kv_delete;
use crate::state::kv_get;
use crate::state::spec_store_refresh_token_state;
use crate::state::store_delete;
use crate::state::store_get;
use crate::state::Store;
use crate::state::store_refresh_token_state;
use crate::state::AccessTokenState;
use crate::state::AccessTokenStateView;
use crate::state::CommonTokenState;
use crate::state::CommonTokenStateView;
use crate::state::KvDelete;
use crate::state::KvDeleteView;
use crate::state::KvGet;
use crate::state::KvGetView;
use crate::state::KvPut;
use crate::state::KvPutView;
use crate::state::RefreshTokenState;
use crate::state::RefreshTokenStateView;
use crate::text::opt_view;
use crate::text::strings_view;
use crate::uri::RedirectUri;

verus! {

/// What a client sends with an authorization code.
#[derive(Debug, Clone, PartialEq, Eq)]
pub struct CodeParams {
    pub code: String,
    pub redirect_uri: RedirectUri,
    pub client_id: String,
}

/// `CodeParams` over sequences.
pub struct CodeParamsView {
    pub code: Seq<char>,
    pub redirect_uri: Seq<char>,
    pub client_id: Seq<char>,
}

impl View for CodeParams {
    type V = CodeParamsView;

    open spec fn view(&self) -> CodeParamsView {
        CodeParamsView {
            code: self.code@,
            redirect_uri: self.redirect_uri@,
            client_id: self.client_id@,
        }
    }
}

/// The parameters of a token request, by grant type.
#[derive(Debug, Clone, PartialEq, Eq)]
pub enum Params {
    /// `authorization_code`
    Code(CodeParams),
    /// `refresh_token`
    Refresh { refresh_token: String },
}

/// `Params` over sequences.
pub enum ParamsView {
    Code(CodeParamsView),
    Refresh { refresh_token: Seq<char> },
}

impl View for Params {
    type V = ParamsView;

    open spec fn view(&self) -> ParamsView {
        match self {
            Params::Code(c) => ParamsView::Code(c@),
            Params::Refresh { refresh_token } => ParamsView::Refresh { refresh_token: refresh_token@ },
        }
    }
}

/// What the token endpoint answers to a grant.
#[derive(Debug, Clone, PartialEq, Eq)]
pub struct TokenResponse {
    pub access_token: String,
    pub token_type: String,
    pub expires_in: u32,
    pub refresh_token: Option<String>,
    pub id_token: String,
}

/// `TokenResponse` over sequences.
pub struct TokenResponseView {
    pub access_token: Seq<char>,
    pub token_type: Seq<char>,
    pub expires_in: u32,
    pub refresh_token: Option<Seq<char>>,
    pub id_token: Seq<char>,
}

impl View for TokenResponse {
    type V = TokenResponseView;

    open spec fn view(&self) -> TokenResponseView {
        TokenResponseView {
            access_token: self.access_token@,
            token_type: self.token_type@,
            expires_in: self.expires_in,
            refresh_token: opt_view(self.refresh_token),
            id_token: self.id_token@,
        }
    }
}

/// The seconds for which a client may take an ID token as fresh.
pub const EXPIRES_IN: u32 = 3600;

/// The random bytes of a local access token and of a local authorization code.
pub const SHORT_TOKEN_BYTES: usize = 16;

/// The random bytes of a local refresh token.
pub const REFRESH_TOKEN_BYTES: usize = 32;

/// The login that a grant stands for.
#[derive(Debug, Clone, PartialEq, Eq)]
pub enum Grant {
    /// An authorization code, with the login that was stored under it.
    Code { common: CommonTokenState },
    /// A refresh token, with the state that was stored under it.
    Refresh { refresh_token: String, state: RefreshTokenState },
}

/// `Grant` over sequences.
pub enum GrantView {
    Code { common: CommonTokenStateView },
    Refresh { refresh_token: Seq<char>, state: RefreshTokenStateView },
}

impl View for Grant {
    type V = GrantView;

    open spec fn view(&self) -> GrantView {
        match self {
            Grant::Code { common } => GrantView::Code { common: common@ },
            Grant::Refresh { refresh_token, state } => GrantView::Refresh {
                refresh_token: refresh_token@,
                state: state@,
            },
        }
    }
}

impl GrantView {
    /// The login of the grant.
    pub open spec fn common(self) -> CommonTokenStateView {
        match self {
            GrantView::Code { common } => common,
            GrantView::Refresh { state, .. } => state.common,
        }
    }
}

impl Grant {
    /// The login of the grant.
    pub fn common(&self) -> (common: &CommonTokenState)
        ensures
            common@ == self@.common(),
    {
        match self {
            Grant::Code { common } => common,
            Grant::Refresh { state, .. } => &state.common,
        }
    }
}

/// Where the handling of a token request stands.
#[derive(Debug, Clone, PartialEq, Eq)]
pub enum TokenFlow {
    /// The access exchange state under the code was asked for.
    AwaitAccessState { params: CodeParams },
    /// The refresh state under the refresh token was asked for.
    AwaitRefreshState { refresh_token: String },
    /// The upstream provider was asked to exchange the stored credential.
    AwaitExchange { grant: Grant },
    /// The refresh state is being removed, because the upstream provider
    /// refused its credential with `error`.
    AwaitRevoked { error: TokenErrorResponse },
    /// The user's groups were asked for.
    AwaitGroups { grant: Grant, identity: GoogleIdToken },
    /// The claims were handed over for signing. `google_refresh` is the
    /// refresh credential that came with the identity.
    AwaitSignature { grant: Grant, google_refresh: Option<String> },
    /// The refresh state is being written.
    AwaitStored { id_token: String, refresh_token: String },
    /// The request was answered.
    Done,
}

/// `TokenFlow` over sequences.
pub enum TokenFlowView {
    AwaitAccessState { params: CodeParamsView },
    AwaitRefreshState { refresh_token: Seq<char> },
    AwaitExchange { grant: GrantView },
    AwaitRevoked { error: TokenErrorResponseView },
    AwaitGroups { grant: GrantView, identity: GoogleIdTokenView },
    AwaitSignature { grant: GrantView, google_refresh: Option<Seq<char>> },
    AwaitStored { id_token: Seq<char>, refresh_token: Seq<char> },
    Done,
}

impl View for TokenFlow {
    type V = TokenFlowView;

    open spec fn view(&self) -> TokenFlowView {
        match self {
            TokenFlow::AwaitAccessState { params } => TokenFlowView::AwaitAccessState {
                params: params@,
            },
            TokenFlow::AwaitRefreshState { refresh_token } => TokenFlowView::AwaitRefreshState {
                refresh_token: refresh_token@,
            },
            TokenFlow::AwaitExchange { grant } => TokenFlowView::AwaitExchange { grant: grant@ },
            TokenFlow::AwaitRevoked { error } => TokenFlowView::AwaitRevoked { error: error@ },
            TokenFlow::AwaitGroups { grant, identity } => TokenFlowView::AwaitGroups {
                grant: grant@,
                identity: identity@,
            },
            TokenFlow::AwaitSignature { grant, google_refresh } => TokenFlowView::AwaitSignature {
                grant: grant@,
                google_refresh: opt_view(*google_refresh),
            },
            TokenFlow::AwaitStored { id_token, refresh_token } => TokenFlowView::AwaitStored {
                id_token: id_token@,
                refresh_token: refresh_token@,
            },
            TokenFlow::Done => TokenFlowView::Done,
        }
    }
}

/// What the host reports to the handling of a token request.
#[derive(Debug)]
pub enum TokenEvent {
    /// What the store held under the authorization code.
    AccessState(Result<Option<AccessTokenState>, HandlerError>),
    /// What the store held under the refresh token.
    RefreshState(Result<Option<RefreshTokenState>, HandlerError>),
    /// How the exchange at the upstream provider went; an error where the
    /// broker could not even be set up as its client.
    Exchanged(Result<TokenExchange, HandlerError>),
    /// The refresh state was removed.
    Revoked(Result<(), HandlerError>),
    /// The names of the user's groups.
    Groups(Result<Vec<String>, HandlerError>),
    /// The signed ID token.
    Signed(Result<String, HandlerError>),
    /// The refresh state was written.
    Stored(Result<(), HandlerError>),
}

/// `TokenEvent` over sequences.
pub enum TokenEventView {
    AccessState(Result<Option<AccessTokenStateView>, HandlerErrorView>),
    RefreshState(Result<Option<RefreshTokenStateView>, HandlerErrorView>),
    Exchanged(Result<Result<UpstreamTokensView, RequestTokenErrorView>, HandlerErrorView>),
    Revoked(Result<(), HandlerErrorView>),
    Groups(Result<Seq<Seq<char>>, HandlerErrorView>),
    Signed(Result<Seq<char>, HandlerErrorView>),
    Stored(Result<(), HandlerErrorView>),
}

impl View for TokenEvent {
    type V = TokenEventView;

    open spec fn view(&self) -> TokenEventView {
        match self {
            TokenEvent::AccessState(loaded) => TokenEventView::AccessState(found_view(*loaded)),
            TokenEvent::RefreshState(loaded) => TokenEventView::RefreshState(found_view(*loaded)),
            TokenEvent::Exchanged(exchanged) => TokenEventView::Exchanged(
                exchanged_view(*exchanged),
            ),
            TokenEvent::Revoked(revoked) => TokenEventView::Revoked(result_view(*revoked)),
            TokenEvent::Groups(groups) => TokenEventView::Groups(groups_view(*groups)),
            TokenEvent::Signed(signed) => TokenEventView::Signed(result_view(*signed)),
            TokenEvent::Stored(stored) => TokenEventView::Stored(result_view(*stored)),
        }
    }
}

/// The view of how an exchange went.
pub open spec fn exchanged_view(exchanged: Result<TokenExchange, HandlerError>) -> Result<
    Result<UpstreamTokensView, RequestTokenErrorView>,
    HandlerErrorView,
> {
    match exchanged {
        Ok(response) => Ok(exchange_view(response)),
        Err(e) => Err(e@),
    }
}

/// The view of the names of a user's groups, or of the failure to get them.
pub open spec fn groups_view(groups: Result<Vec<String>, HandlerError>) -> Result<
    Seq<Seq<char>>,
    HandlerErrorView,
> {
    match groups {
        Ok(names) => Ok(strings_view(names@)),
        Err(e) => Err(e@),
    }
}

/// What the handling of a token request asks of the host.
#[derive(Debug, Clone, PartialEq, Eq)]
pub enum TokenAction {
    /// Read the access exchange state under a key and report what is there.
    LoadAccessState(KvGet),
    /// Read the refresh state under a key and report what is there.
    LoadRefreshState(KvGet),
    /// Exchange the upstream authorization code, and verify the ID token
    /// that comes back against `nonce`.
    ExchangeCode { code: String, nonce: String },
    /// Exchange the upstream refresh credential, and verify the ID token
    /// that comes back against `nonce`.
    ExchangeRefresh { credential: String, nonce: String },
    /// Remove the refresh state under a key.
    Revoke(KvDelete),
    /// Ask the directory for the groups of the user with this email.
    ResolveGroups { email: String },
    /// Sign these claims with the broker's private key.
    Sign(OidcToken),
    /// Write a refresh state.
    Store(KvPut<RefreshTokenState>),
    /// Answer the client. The request is over.
    Respond(HttpResponse),
    /// Nothing: the request was over, or the report was not the one awaited.
    Ignore,
}

/// `TokenAction` over sequences.
pub enum TokenActionView {
    LoadAccessState(KvGetView),
    LoadRefreshState(KvGetView),
    ExchangeCode { code: Seq<char>, nonce: Seq<char> },
    ExchangeRefresh { credential: Seq<char>, nonce: Seq<char> },
    Revoke(KvDeleteView),
    ResolveGroups { email: Seq<char> },
    Sign(OidcTokenView),
    Store(KvPutView<RefreshTokenStateView>),
    Respond(HttpResponseView),
    Ignore,
}

impl View for TokenAction {
    type V = TokenActionView;

    open spec fn view(&self) -> TokenActionView {
        match self {
            TokenAction::LoadAccessState(get) => TokenActionView::LoadAccessState(get@),
            TokenAction::LoadRefreshState(get) => TokenActionView::LoadRefreshState(get@),
            TokenAction::ExchangeCode { code, nonce } => TokenActionView::ExchangeCode {
                code: code@,
                nonce: nonce@,
            },
            TokenAction::ExchangeRefresh { credential, nonce } => TokenActionView::ExchangeRefresh {
                credential: credential@,
                nonce: nonce@,
            },
            TokenAction::Revoke(delete) => TokenActionView::Revoke(delete@),
            TokenAction::ResolveGroups { email } => TokenActionView::ResolveGroups { email: email@ },
            TokenAction::Sign(claims) => TokenActionView::Sign(claims@),
            TokenAction::Store(put) => TokenActionView::Store(put@),
            TokenAction::Respond(response) => TokenActionView::Respond(response@),
            TokenAction::Ignore => TokenActionView::Ignore,
        }
    }
}

/// A step of the handling of a token request: where it stands afterwards,
/// and what it asks of the host.
pub type TokenStep = (TokenFlow, TokenAction);

/// `TokenStep` over sequences.
pub type TokenStepView = (TokenFlowView, TokenActionView);

/// The view of a step.
pub open spec fn step_view(step: TokenStep) -> TokenStepView {
    (step.0@, step.1@)
}

/// A token that was minted for a step, or the failure to mint it, or
/// nothing.
pub type Fresh = Option<Result<String, HandlerError>>;

/// `Fresh` over sequences.
pub type FreshView = Option<Result<Seq<char>, HandlerErrorView>>;

/// The view of a token minted for a step.
pub open spec fn fresh_view(fresh: Fresh) -> FreshView {
    match fresh {
        Some(Ok(token)) => Some(Ok(token@)),
        Some(Err(e)) => Some(Err(e@)),
        None => None,
    }
}

/// The response that carries the tokens of a grant: never to be cached, with
/// a bearer access token that is good for an hour.
pub open spec fn spec_token_response(
    id_token: Seq<char>,
    refresh_token: Option<Seq<char>>,
    access_token: Seq<char>,
) -> HttpResponseView {
    HttpResponseView {
        status: 200,
        headers: spec_token_header(),
        body: ResponseBodyView::Token(
            TokenResponseView {
                access_token,
                token_type: "Bearer"@,
                expires_in: EXPIRES_IN,
                refresh_token,
                id_token,
            },
        ),
    }
}

/// The response to a request that failed. An error of the protocol goes to
/// the client as it is. Of any other failure the client learns only that the
/// server failed.
pub open spec fn spec_failure(e: HandlerErrorView) -> HttpResponseView {
    match e {
        HandlerErrorView::Token(response) => spec_error_response(response),
        _ => spec_error_response(TokenErrorResponseView::server_error()),
    }
}

/// The response that refuses a grant as invalid.
pub open spec fn spec_invalid_grant(description: Seq<char>) -> HttpResponseView {
    spec_error_response(
        TokenErrorResponseView {
            error: TokenErrorCodeView::InvalidGrant,
            error_description: Some(description),
            error_uri: None,
        },
    )
}

/// The step that answers the client and ends the request.
pub open spec fn spec_respond(response: HttpResponseView) -> TokenStepView {
    (TokenFlowView::Done, TokenActionView::Respond(response))
}

/// The step that answers with the tokens of a grant. The access token is
/// the one minted for this step; without it the request fails.
pub open spec fn spec_respond_tokens(
    id_token: Seq<char>,
    refresh_token: Option<Seq<char>>,
    fresh: FreshView,
) -> TokenStepView {
    match fresh {
        Some(Ok(access_token)) => spec_respond(
            spec_token_response(id_token, refresh_token, access_token),
        ),
        Some(Err(e)) => spec_respond(spec_failure(e)),
        None => spec_respond(spec_error_response(TokenErrorResponseView::server_error())),
    }
}

/// The step that hands the claims of a login over for signing.
pub open spec fn spec_sign(
    secrets: Seq<Seq<char>>,
    grant: GrantView,
    identity: GoogleIdTokenView,
    groups: Option<Seq<Seq<char>>>,
) -> TokenStepView {
    (
        TokenFlowView::AwaitSignature { grant, google_refresh: identity.refresh_token },
        TokenActionView::Sign(
            spec_create_oidc_token(
                secrets,
                grant.common().client_id,
                grant.common().client_nonce,
                identity.subject,
                identity.issue_time,
                identity.expiration,
                groups,
            ),
        ),
    )
}

/// The first step of a token request: the record under the code or under
/// the refresh token is asked for.
pub open spec fn spec_start(params: ParamsView) -> TokenStepView {
    match params {
        ParamsView::Code(code) => (
            TokenFlowView::AwaitAccessState { params: code },
            TokenActionView::LoadAccessState(
                KvGetView { kv_name: KV_ACCESS_TOKEN_STATE@, key: code.code },
            ),
        ),
        ParamsView::Refresh { refresh_token } => (
            TokenFlowView::AwaitRefreshState { refresh_token },
            TokenActionView::LoadRefreshState(
                KvGetView { kv_name: KV_REFRESH_TOKEN_STATE@, key: refresh_token },
            ),
        ),
    }
}

/// The step after the store was asked for the record under a code. A code
/// under which nothing is stored, or whose record names another client or
/// another redirect URI than the request, is refused as an invalid grant.
/// Else the upstream code of the record is exchanged.
pub open spec fn spec_on_access_state(
    params: CodeParamsView,
    loaded: Result<Option<AccessTokenStateView>, HandlerErrorView>,
) -> TokenStepView {
    match loaded {
        Err(e) => spec_respond(spec_failure(e)),
        Ok(None) => spec_respond(spec_invalid_grant("Invalid code"@)),
        Ok(Some(stored)) => if params.client_id != stored.common.client_id {
            spec_respond(spec_invalid_grant("Invalid code"@))
        } else if params.redirect_uri != stored.client_redirect {
            spec_respond(spec_invalid_grant("redirect_url does not match registered"@))
        } else {
            (
                TokenFlowView::AwaitExchange { grant: GrantView::Code { common: stored.common } },
                TokenActionView::ExchangeCode {
                    code: stored.google_code,
                    nonce: stored.common.google_nonce,
                },
            )
        },
    }
}

/// The step after the store was asked for the record under a refresh
/// token. A token under which nothing is stored is refused as an invalid
/// grant. Else the upstream credential of the record is exchanged.
pub open spec fn spec_on_refresh_state(
    refresh_token: Seq<char>,
    loaded: Result<Option<RefreshTokenStateView>, HandlerErrorView>,
) -> TokenStepView {
    match loaded {
        Err(e) => spec_respond(spec_failure(e)),
        Ok(None) => spec_respond(spec_invalid_grant("Invalid refresh_token"@)),
        Ok(Some(state)) => (
            TokenFlowView::AwaitExchange { grant: GrantView::Refresh { refresh_token, state } },
            TokenActionView::ExchangeRefresh {
                credential: state.google_refresh,
                nonce: state.common.google_nonce,
            },
        ),
    }
}

/// Whether the upstream provider refused the credential of a refresh grant
/// as no longer valid.
pub open spec fn credential_revoked(grant: GrantView, e: HandlerErrorView) -> bool {
    &&& grant is Refresh
    &&& e matches HandlerErrorView::Token(response)
    &&& response.error == TokenErrorCodeView::InvalidGrant
}

/// The step after the exchange at the upstream provider. Where the provider
/// refuses the credential of a refresh grant as invalid, the local refresh
/// state is removed before the error goes to the client; no other failure
/// touches the store. With an identity, the user's groups are asked for if
/// the login wants them, else the claims go to be signed without groups.
pub open spec fn spec_on_exchanged(
    secrets: Seq<Seq<char>>,
    grant: GrantView,
    exchanged: Result<Result<UpstreamTokensView, RequestTokenErrorView>, HandlerErrorView>,
) -> TokenStepView {
    let identity = match exchanged {
        Ok(response) => spec_response_to_token(response),
        Err(e) => Err(e),
    };
    match identity {
        Err(e) => if credential_revoked(grant, e) {
            (
                TokenFlowView::AwaitRevoked { error: e->Token_0 },
                TokenActionView::Revoke(
                    KvDeleteView {
                        kv_name: KV_REFRESH_TOKEN_STATE@,
                        key: grant->Refresh_refresh_token,
                    },
                ),
            )
        } else {
            spec_respond(spec_failure(e))
        },
        Ok(identity) => if grant.common().groups_scope {
            (
                TokenFlowView::AwaitGroups { grant, identity },
                TokenActionView::ResolveGroups { email: identity.user_email },
            )
        } else {
            spec_sign(secrets, grant, identity, None)
        },
    }
}

/// The step after the refresh state was removed: the upstream provider's
/// error goes to the client, unless the removal itself failed.
pub open spec fn spec_on_revoked(
    error: TokenErrorResponseView,
    revoked: Result<(), HandlerErrorView>,
) -> TokenStepView {
    match revoked {
        Err(e) => spec_respond(spec_failure(e)),
        Ok(_) => spec_respond(spec_error_response(error)),
    }
}

/// The step after the directory was asked for the user's groups: the claims
/// go to be signed with the groups.
pub open spec fn spec_on_groups(
    secrets: Seq<Seq<char>>,
    grant: GrantView,
    identity: GoogleIdTokenView,
    groups: Result<Seq<Seq<char>>, HandlerErrorView>,
) -> TokenStepView {
    match groups {
        Err(e) => spec_respond(spec_failure(e)),
        Ok(names) => spec_sign(secrets, grant, identity, Some(names)),
    }
}

/// Whether a refresh grant has to write its state anew: the upstream
/// provider gave a refresh credential other than the stored one.
pub open spec fn credential_replaced(
    state: RefreshTokenStateView,
    google_refresh: Option<Seq<char>>,
) -> bool {
    google_refresh matches Some(credential) && credential != state.google_refresh
}

/// The step after the claims were signed.
///
/// For a code: where the upstream provider gave a refresh credential, a new
/// local refresh token is minted and the credential is stored under it;
/// else the tokens go to the client without a refresh token.
///
/// For a refresh token: where the upstream provider gave another refresh
/// credential than the stored one, the state is written anew under the same
/// local refresh token; else the tokens go to the client, with the same
/// local refresh token.
pub open spec fn spec_on_signed(
    grant: GrantView,
    google_refresh: Option<Seq<char>>,
    signed: Result<Seq<char>, HandlerErrorView>,
    fresh: FreshView,
) -> TokenStepView {
    match signed {
        Err(e) => spec_respond(spec_failure(e)),
        Ok(id_token) => match grant {
            GrantView::Code { common } => match google_refresh {
                None => spec_respond_tokens(id_token, None, fresh),
                Some(credential) => match fresh {
                    Some(Ok(client_refresh)) => (
                        TokenFlowView::AwaitStored { id_token, refresh_token: client_refresh },
                        TokenActionView::Store(
                            spec_store_refresh_token_state(
                                client_refresh,
                                RefreshTokenStateView { common, google_refresh: credential },
                            ),
                        ),
                    ),
                    Some(Err(e)) => spec_respond(spec_failure(e)),
                    None => spec_respond(
                        spec_error_response(TokenErrorResponseView::server_error()),
                    ),
                },
            },
            GrantView::Refresh { refresh_token, state } => if credential_replaced(
                state,
                google_refresh,
            ) {
                (
                    TokenFlowView::AwaitStored { id_token, refresh_token },
                    TokenActionView::Store(
                        spec_store_refresh_token_state(
                            refresh_token,
                            RefreshTokenStateView {
                                common: state.common,
                                google_refresh: google_refresh->Some_0,
                            },
                        ),
                    ),
                )
            } else {
                spec_respond_tokens(id_token, Some(refresh_token), fresh)
            },
        },
    }
}

/// The step after the refresh state was written: the tokens go to the
/// client.
pub open spec fn spec_on_stored(
    id_token: Seq<char>,
    refresh_token: Seq<char>,
    stored: Result<(), HandlerErrorView>,
    fresh: FreshView,
) -> TokenStepView {
    match stored {
        Err(e) => spec_respond(spec_failure(e)),
        Ok(_) => spec_respond_tokens(id_token, Some(refresh_token), fresh),
    }
}

/// The step that a report of the host leads to. A report that is not the
/// one awaited changes nothing.
pub open spec fn spec_step(
    secrets: Seq<Seq<char>>,
    state: TokenFlowView,
    event: TokenEventView,
    fresh: FreshView,
) -> TokenStepView {
    match (state, event) {
        (
            TokenFlowView::AwaitAccessState { params },
            TokenEventView::AccessState(loaded),
        ) => spec_on_access_state(params, loaded),
        (
            TokenFlowView::AwaitRefreshState { refresh_token },
            TokenEventView::RefreshState(loaded),
        ) => spec_on_refresh_state(refresh_token, loaded),
        (TokenFlowView::AwaitExchange { grant }, TokenEventView::Exchanged(exchanged)) => {
            spec_on_exchanged(secrets, grant, exchanged)
        },
        (TokenFlowView::AwaitRevoked { error }, TokenEventView::Revoked(revoked)) => {
            spec_on_revoked(error, revoked)
        },
        (TokenFlowView::AwaitGroups { grant, identity }, TokenEventView::Groups(groups)) => {
            spec_on_groups(secrets, grant, identity, groups)
        },
        (
            TokenFlowView::AwaitSignature { grant, google_refresh },
            TokenEventView::Signed(signed),
        ) => spec_on_signed(grant, google_refresh, signed, fresh),
        (
            TokenFlowView::AwaitStored { id_token, refresh_token },
            TokenEventView::Stored(stored),
        ) => spec_on_stored(id_token, refresh_token, stored, fresh),
        _ => (state, TokenActionView::Ignore),
    }
}

/// How many random bytes the token has that a step needs minted: a local
/// refresh token where a code's login gets its first refresh state, a local
/// access token where the step answers with tokens, none elsewhere.
pub open spec fn spec_minting(state: TokenFlowView, event: TokenEventView) -> Option<nat> {
    match (state, event) {
        (
            TokenFlowView::AwaitSignature { grant: GrantView::Code { .. }, google_refresh },
            TokenEventView::Signed(Ok(_)),
        ) => if google_refresh is Some {
            Some(REFRESH_TOKEN_BYTES as nat)
        } else {
            Some(SHORT_TOKEN_BYTES as nat)
        },
        (
            TokenFlowView::AwaitSignature {
                grant: GrantView::Refresh { state: stored, .. },
                google_refresh,
            },
            TokenEventView::Signed(Ok(_)),
        ) => if credential_replaced(stored, google_refresh) {
            None
        } else {
            Some(SHORT_TOKEN_BYTES as nat)
        },
        (TokenFlowView::AwaitStored { .. }, TokenEventView::Stored(Ok(_))) => Some(
            SHORT_TOKEN_BYTES as nat,
        ),
        _ => None,
    }
}

/// Whether `fresh` may be what was minted for a step that needs `bytes`:
/// nothing where nothing is needed; else a token of so many random bytes, or
/// the failure to get them.
pub open spec fn minted(fresh: FreshView, bytes: Option<nat>) -> bool {
    match bytes {
        None => fresh is None,
        Some(count) => match fresh {
            Some(Ok(token)) => is_token(token, count),
            Some(Err(e)) => e is Random,
            None => false,
        },
    }
}

/// Makes the response that carries the tokens of a grant.
pub fn token_response(
    id_token: String,
    refresh_token: Option<String>,
    access_token: String,
) -> (answer: HttpResponse)
    ensures
        answer@ == spec_token_response(id_token@, opt_view(refresh_token), access_token@),
{
    HttpResponse {
        status: 200,
        headers: token_header(),
        body: ResponseBody::Token(
            TokenResponse {
                access_token,
                token_type: String::from_str("Bearer"),
                expires_in: EXPIRES_IN,
                refresh_token,
                id_token,
            },
        ),
    }
}

/// Makes the response to a request that failed.
pub fn failure(e: HandlerError) -> (answer: HttpResponse)
    ensures
        answer@ == spec_failure(e@),
{
    match e {
        HandlerError::Token(response) => error_response(response),
        _ => error_response(TokenErrorResponse::server_error()),
    }
}

/// Makes the response that refuses a grant as invalid.
fn invalid_grant(description: &str) -> (answer: HttpResponse)
    ensures
        answer@ == spec_invalid_grant(description@),
{
    error_response(
        TokenErrorResponse::new(
            TokenErrorCode::InvalidGrant,
            Some(String::from_str(description)),
            None,
        ),
    )
}

/// The step that answers the client and ends the request.
fn respond(response: HttpResponse) -> (step: TokenStep)
    ensures
        step_view(step) == spec_respond(response@),
{
    (TokenFlow::Done, TokenAction::Respond(response))
}

/// The step that answers with the tokens of a grant.
fn respond_tokens(
    id_token: String,
    refresh_token: Option<String>,
    fresh: Fresh,
) -> (step: TokenStep)
    ensures
        step_view(step) == spec_respond_tokens(id_token@, opt_view(refresh_token), fresh_view(fresh)),
{
    match fresh {
        Some(Ok(access_token)) => respond(token_response(id_token, refresh_token, access_token)),
        Some(Err(e)) => respond(failure(e)),
        None => respond(error_response(TokenErrorResponse::server_error())),
    }
}

/// The step that hands the claims of a login over for signing.
fn sign(
    secrets: &Secrets,
    grant: Grant,
    identity: GoogleIdToken,
    groups: Option<Vec<String>>,
) -> (step: TokenStep)
    ensures
        step_view(step) == spec_sign(
            secrets@,
            grant@,
            identity@,
            crate::text::opt_strings_view(groups),
        ),
{
    let claims = create_oidc_token(
        secrets,
        grant.common().client_id.as_str(),
        grant.common().client_nonce.as_str(),
        identity.subject,
        identity.issue_time,
        identity.expiration,
        groups,
    );
    (
        TokenFlow::AwaitSignature { grant, google_refresh: identity.refresh_token },
        TokenAction::Sign(claims),
    )
}

/// Starts the handling of a token request: the record under the code or
/// under the refresh token is asked for.
pub fn token(params: Params) -> (step: TokenStep)
    ensures
        step_view(step) == spec_start(params@),
{
    match params {
        Params::Code(code) => {
            let load = kv_get(KV_ACCESS_TOKEN_STATE, code.code.as_str());
            (TokenFlow::AwaitAccessState { params: code }, TokenAction::LoadAccessState(load))
        },
        Params::Refresh { refresh_token } => {
            let load = kv_get(KV_REFRESH_TOKEN_STATE, refresh_token.as_str());
            (TokenFlow::AwaitRefreshState { refresh_token }, TokenAction::LoadRefreshState(load))
        },
    }
}

/// The `authorization_code` grant, once the store has been asked for the
/// record under the code: the request is held against the record.
pub fn access_token(
    params: CodeParams,
    loaded: Result<Option<AccessTokenState>, HandlerError>,
) -> (step: TokenStep)
    ensures
        step_view(step) == spec_on_access_state(params@, found_view(loaded)),
{
    let stored = match loaded {
        Err(e) => {
            return respond(failure(e));
        },
        Ok(None) => {
            return respond(invalid_grant("Invalid code"));
        },
        Ok(Some(stored)) => stored,
    };
    if params.client_id != stored.common.client_id {
        return respond(invalid_grant("Invalid code"));
    }
    if !params.redirect_uri.same(&stored.client_redirect) {
        return respond(invalid_grant("redirect_url does not match registered"));
    }
    let nonce = stored.common.google_nonce.clone();
    (
        TokenFlow::AwaitExchange { grant: Grant::Code { common: stored.common } },
        TokenAction::ExchangeCode { code: stored.google_code, nonce },
    )
}

/// The `refresh_token` grant, once the store has been asked for the record
/// under the refresh token.
pub fn refresh_token(
    token: String,
    loaded: Result<Option<RefreshTokenState>, HandlerError>,
) -> (step: TokenStep)
    ensures
        step_view(step) == spec_on_refresh_state(token@, found_view(loaded)),
{
    match loaded {
        Err(e) => respond(failure(e)),
        Ok(None) => respond(invalid_grant("Invalid refresh_token")),
        Ok(Some(state)) => {
            let credential = state.google_refresh.clone();
            let nonce = state.common.google_nonce.clone();
            (
                TokenFlow::AwaitExchange { grant: Grant::Refresh { refresh_token: token, state } },
                TokenAction::ExchangeRefresh { credential, nonce },
            )
        },
    }
}

/// The step after the exchange at the upstream provider.
fn on_exchanged(
    secrets: &Secrets,
    grant: Grant,
    exchanged: Result<TokenExchange, HandlerError>,
) -> (step: TokenStep)
    ensures
        step_view(step) == spec_on_exchanged(secrets@, grant@, exchanged_view(exchanged)),
{
    let identity = match exchanged {
        Ok(response) => response_to_token(response),
        Err(e) => Err(e),
    };
    match identity {
        Err(e) => {
            match e {
                HandlerError::Token(response) => {
                    match grant {
                        Grant::Refresh { refresh_token, state } => {
                            if response.error().is_invalid_grant() {
                                let delete = kv_delete(
                                    KV_REFRESH_TOKEN_STATE,
                                    refresh_token.as_str(),
                                );
                                (
                                    TokenFlow::AwaitRevoked { error: response },
                                    TokenAction::Revoke(delete),
                                )
                            } else {
                                respond(error_response(response))
                            }
                        },
                        Grant::Code { .. } => respond(error_response(response)),
                    }
                },
                other => respond(failure(other)),
            }
        },
        Ok(identity) => {
            if grant.common().groups_scope {
                let email = identity.user_email.clone();
                (
                    TokenFlow::AwaitGroups { grant, identity },
                    TokenAction::ResolveGroups { email },
                )
            } else {
                sign(secrets, grant, identity, None)
            }
        },
    }
}

/// The step after the refresh state was removed.
fn on_revoked(error: TokenErrorResponse, revoked: Result<(), HandlerError>) -> (step: TokenStep)
    ensures
        step_view(step) == spec_on_revoked(error@, result_view(revoked)),
{
    match revoked {
        Err(e) => respond(failure(e)),
        Ok(_) => respond(error_response(error)),
    }
}

/// The step after the directory was asked for the user's groups.
fn on_groups(
    secrets: &Secrets,
    grant: Grant,
    identity: GoogleIdToken,
    groups: Result<Vec<String>, HandlerError>,
) -> (step: TokenStep)
    ensures
        step_view(step) == spec_on_groups(secrets@, grant@, identity@, groups_view(groups)),
{
    match groups {
        Err(e) => respond(failure(e)),
        Ok(names) => sign(secrets, grant, identity, Some(names)),
    }
}

/// The step after the claims were signed.
fn on_signed(
    grant: Grant,
    google_refresh: Option<String>,
    signed: Result<String, HandlerError>,
    fresh: Fresh,
) -> (step: TokenStep)
    ensures
        step_view(step) == spec_on_signed(
            grant@,
            opt_view(google_refresh),
            result_view(signed),
            fresh_view(fresh),
        ),
{
    let id_token = match signed {
        Err(e) => {
            return respond(failure(e));
        },
        Ok(id_token) => id_token,
    };
    match grant {
        Grant::Code { common } => match google_refresh {
            None => respond_tokens(id_token, None, fresh),
            Some(credential) => match fresh {
                Some(Ok(client_refresh)) => {
                    let store = store_refresh_token_state(
                        client_refresh.as_str(),
                        RefreshTokenState { common, google_refresh: credential },
                    );
                    (
                        TokenFlow::AwaitStored { id_token, refresh_token: client_refresh },
                        TokenAction::Store(store),
                    )
                },
                Some(Err(e)) => respond(failure(e)),
                None => respond(error_response(TokenErrorResponse::server_error())),
            },
        },
        Grant::Refresh { refresh_token, state } => {
            match google_refresh {
                Some(credential) => {
                    if credential != state.google_refresh {
                        let store = store_refresh_token_state(
                            refresh_token.as_str(),
                            RefreshTokenState { common: state.common, google_refresh: credential },
                        );
                        (
                            TokenFlow::AwaitStored { id_token, refresh_token },
                            TokenAction::Store(store),
                        )
                    } else {
                        respond_tokens(id_token, Some(refresh_token), fresh)
                    }
                },
                None => respond_tokens(id_token, Some(refresh_token), fresh),
            }
        },
    }
}

/// The step after the refresh state was written.
fn on_stored(
    id_token: String,
    refresh_token: String,
    stored: Result<(), HandlerError>,
    fresh: Fresh,
) -> (step: TokenStep)
    ensures
        step_view(step) == spec_on_stored(
            id_token@,
            refresh_token@,
            result_view(stored),
            fresh_view(fresh),
        ),
{
    match stored {
        Err(e) => respond(failure(e)),
        Ok(_) => respond_tokens(id_token, Some(refresh_token), fresh),
    }
}

/// Takes the handling of a token request one step on, with the token given
/// where the step needs one minted.
pub fn token_step_with(
    secrets: &Secrets,
    state: TokenFlow,
    event: TokenEvent,
    fresh: Fresh,
) -> (step: TokenStep)
    ensures
        step_view(step) == spec_step(secrets@, state@, event@, fresh_view(fresh)),
{
    match (state, event) {
        (TokenFlow::AwaitAccessState { params }, TokenEvent::AccessState(loaded)) => access_token(
            params,
            loaded,
        ),
        (
            TokenFlow::AwaitRefreshState { refresh_token: token },
            TokenEvent::RefreshState(loaded),
        ) => refresh_token(token, loaded),
        (TokenFlow::AwaitExchange { grant }, TokenEvent::Exchanged(exchanged)) => on_exchanged(
            secrets,
            grant,
            exchanged,
        ),
        (TokenFlow::AwaitRevoked { error }, TokenEvent::Revoked(revoked)) => on_revoked(
            error,
            revoked,
        ),
        (TokenFlow::AwaitGroups { grant, identity }, TokenEvent::Groups(groups)) => on_groups(
            secrets,
            grant,
            identity,
            groups,
        ),
        (
            TokenFlow::AwaitSignature { grant, google_refresh },
            TokenEvent::Signed(signed),
        ) => on_signed(grant, google_refresh, signed, fresh),
        (TokenFlow::AwaitStored { id_token, refresh_token }, TokenEvent::Stored(stored)) => {
            on_stored(id_token, refresh_token, stored, fresh)
        },
        (state, _) => (state, TokenAction::Ignore),
    }
}

/// Tells how many random bytes the token has that a step needs minted.
fn minting(state: &TokenFlow, event: &TokenEvent) -> (bytes: Option<usize>)
    ensures
        bytes is Some == spec_minting(state@, event@) is Some,
        bytes is Some ==> bytes->Some_0 == spec_minting(state@, event@)->Some_0,
        bytes is Some ==> bytes->Some_0 == REFRESH_TOKEN_BYTES || bytes->Some_0 == SHORT_TOKEN_BYTES,
{
    match (state, event) {
        (TokenFlow::AwaitSignature { grant, google_refresh }, TokenEvent::Signed(Ok(_))) => {
            match grant {
                Grant::Code { .. } => {
                    if google_refresh.is_some() {
                        Some(REFRESH_TOKEN_BYTES)
                    } else {
                        Some(SHORT_TOKEN_BYTES)
                    }
                },
                Grant::Refresh { state: stored, .. } => {
                    match google_refresh {
                        Some(credential) => {
                            if *credential != stored.google_refresh {
                                None
                            } else {
                                Some(SHORT_TOKEN_BYTES)
                            }
                        },
                        None => Some(SHORT_TOKEN_BYTES),
                    }
                },
            }
        },
        (TokenFlow::AwaitStored { .. }, TokenEvent::Stored(Ok(_))) => Some(SHORT_TOKEN_BYTES),
        _ => None,
    }
}

/// What a step of a token request may come to: the step that `spec_step`
/// gives for some token that may have been minted for it.
pub open spec fn step_outcome(
    secrets: Seq<Seq<char>>,
    state: TokenFlowView,
    event: TokenEventView,
    step: TokenStepView,
) -> bool {
    exists|fresh: FreshView|
        minted(fresh, spec_minting(state, event)) && step == #[trigger] spec_step(
            secrets,
            state,
            event,
            fresh,
        )
}

/// Takes the handling of a token request one step on. Where the step needs
/// a new local token, it is minted here.
pub fn token_step(secrets: &Secrets, state: TokenFlow, event: TokenEvent) -> (step: TokenStep)
    ensures
        step_outcome(secrets@, state@, event@, step_view(step)),
{
    let fresh = match minting(&state, &event) {
        None => None,
        Some(bytes) => if bytes == REFRESH_TOKEN_BYTES {
            Some(new_token::<32>())
        } else {
            Some(new_token::<16>())
        },
    };
    let step = token_step_with(secrets, state, event, fresh);
    proof {
        assert(minted(fresh_view(fresh), spec_minting(state@, event@)));
        assert(step_view(step) == spec_step(secrets@, state@, event@, fresh_view(fresh)));
    }
    step
}

/// The login that the handling of a request is about, once the stored
/// record has been read.
pub open spec fn login(state: TokenFlowView) -> Option<CommonTokenStateView> {
    match state {
        TokenFlowView::AwaitExchange { grant } => Some(grant.common()),
        TokenFlowView::AwaitGroups { grant, .. } => Some(grant.common()),
        TokenFlowView::AwaitSignature { grant, .. } => Some(grant.common()),
        _ => None,
    }
}

/// What holds of every state that a request can be in: groups are awaited
/// only for a login that asked for them.
pub open spec fn consistent(state: TokenFlowView) -> bool {
    state matches TokenFlowView::AwaitGroups { grant, .. } ==> grant.common().groups_scope
}

/// Whether a response refuses the request with the error `invalid_grant`.
pub open spec fn refuses_grant(response: HttpResponseView) -> bool {
    &&& response.status == 400
    &&& response.body matches ResponseBodyView::TokenError(error)
    &&& error.error == TokenErrorCodeView::InvalidGrant
}

/// A request that has been answered takes no further step: whatever is
/// reported to it, it asks for nothing.
pub proof fn lemma_done_is_final(secrets: Seq<Seq<char>>, event: TokenEventView, fresh: FreshView)
    ensures
        spec_step(secrets, TokenFlowView::Done, event, fresh) == (
            TokenFlowView::Done,
            TokenActionView::Ignore,
        ),
{
}

/// A code under which nothing is stored, or whose record names another
/// client or another redirect URI than the request, is refused with
/// `invalid_grant`. The request ends there: no claims go to be signed.
pub proof fn lemma_mismatch_refuses_grant(
    secrets: Seq<Seq<char>>,
    params: CodeParamsView,
    loaded: Option<AccessTokenStateView>,
    fresh: FreshView,
)
    requires
        loaded matches Some(stored) ==> stored.common.client_id != params.client_id
            || stored.client_redirect != params.redirect_uri,
    ensures
        ({
            let step = spec_step(
                secrets,
                TokenFlowView::AwaitAccessState { params },
                TokenEventView::AccessState(Ok(loaded)),
                fresh,
            );
            &&& step.0 is Done
            &&& step.1 matches TokenActionView::Respond(response)
            &&& refuses_grant(response)
        }),
{
}

/// Where the upstream provider refuses the stored credential of a refresh
/// grant with `invalid_grant`, the local refresh state is removed and the
/// provider's error goes to the client. Once the state is removed, a
/// refresh with the same local token finds no record and is refused with
/// `invalid_grant` too.
pub proof fn lemma_revoked_credential_ends_refresh(
    secrets: Seq<Seq<char>>,
    refresh_token: Seq<char>,
    state: RefreshTokenStateView,
    error: TokenErrorResponseView,
    store: Store<RefreshTokenStateView>,
    later: int,
    fresh: FreshView,
)
    requires
        error.error == TokenErrorCodeView::InvalidGrant,
    ensures
        spec_step(
            secrets,
            TokenFlowView::AwaitExchange { grant: GrantView::Refresh { refresh_token, state } },
            TokenEventView::Exchanged(Ok(Err(RequestTokenErrorView::ServerResponse(error)))),
            fresh,
        ) == (
            TokenFlowView::AwaitRevoked { error },
            TokenActionView::Revoke(
                KvDeleteView { kv_name: KV_REFRESH_TOKEN_STATE@, key: refresh_token },
            ),
        ),
        spec_step(
            secrets,
            TokenFlowView::AwaitRevoked { error },
            TokenEventView::Revoked(Ok(())),
            fresh,
        ) == spec_respond(spec_error_response(error)),
        refuses_grant(spec_error_response(error)),
        store_get(
            store_delete(store, KV_REFRESH_TOKEN_STATE@, refresh_token),
            KV_REFRESH_TOKEN_STATE@,
            refresh_token,
            later,
        ) is None,
        spec_start(ParamsView::Refresh { refresh_token }) == (
            TokenFlowView::AwaitRefreshState { refresh_token },
            TokenActionView::LoadRefreshState(
                KvGetView { kv_name: KV_REFRESH_TOKEN_STATE@, key: refresh_token },
            ),
        ),
        ({
            let step = spec_step(
                secrets,
                TokenFlowView::AwaitRefreshState { refresh_token },
                TokenEventView::RefreshState(Ok(None)),
                fresh,
            );
            &&& step.0 is Done
            &&& step.1 matches TokenActionView::Respond(response)
            &&& refuses_grant(response)
        }),
{
}

/// Nothing but an `invalid_grant` for the credential of a refresh grant
/// removes a record: a step that asks for a removal is the step after an
/// exchange that ended in that error, and it removes the refresh state of
/// that grant.
pub proof fn lemma_only_revoked_credential_deletes(
    secrets: Seq<Seq<char>>,
    state: TokenFlowView,
    event: TokenEventView,
    fresh: FreshView,
)
    ensures
        spec_step(secrets, state, event, fresh).1 matches TokenActionView::Revoke(delete) ==> {
            &&& state matches TokenFlowView::AwaitExchange {
                grant: GrantView::Refresh { refresh_token, .. },
            }
            &&& delete == (KvDeleteView { kv_name: KV_REFRESH_TOKEN_STATE@, key: refresh_token })
            &&& event matches TokenEventView::Exchanged(exchanged)
            &&& {
                ||| exchanged matches Ok(Err(RequestTokenErrorView::ServerResponse(error)))
                    && error.error == TokenErrorCodeView::InvalidGrant
                ||| exchanged matches Err(HandlerErrorView::Token(error)) && error.error
                    == TokenErrorCodeView::InvalidGrant
            }
        },
{
}

/// A refresh state is written only once claims have been signed: no
/// failure writes to the store.
pub proof fn lemma_only_signed_tokens_are_stored(
    secrets: Seq<Seq<char>>,
    state: TokenFlowView,
    event: TokenEventView,
    fresh: FreshView,
)
    ensures
        spec_step(secrets, state, event, fresh).1 matches TokenActionView::Store(put) ==> {
            &&& state is AwaitSignature
            &&& event matches TokenEventView::Signed(Ok(_))
            &&& put.kv_name == KV_REFRESH_TOKEN_STATE@
            &&& put.ttl == crate::state::REFRESH_TTL
        },
{
}

/// A refresh does not rotate the local refresh token. Once the claims of a
/// refresh grant are signed, either the tokens go to the client with the
/// refresh token of the request, or the state is first written anew under
/// that same token, with the login unchanged and the upstream provider's new
/// credential, and the tokens go to the client with it afterwards.
pub proof fn lemma_refresh_is_not_rotated(
    secrets: Seq<Seq<char>>,
    refresh_token: Seq<char>,
    state: RefreshTokenStateView,
    google_refresh: Option<Seq<char>>,
    id_token: Seq<char>,
    access_token: Seq<char>,
)
    ensures
        ({
            let grant = GrantView::Refresh { refresh_token, state };
            let signed = spec_step(
                secrets,
                TokenFlowView::AwaitSignature { grant, google_refresh },
                TokenEventView::Signed(Ok(id_token)),
                if credential_replaced(state, google_refresh) {
                    None
                } else {
                    Some(Ok(access_token))
                },
            );
            let tokens = spec_respond(
                spec_token_response(id_token, Some(refresh_token), access_token),
            );
            if credential_replaced(state, google_refresh) {
                &&& signed.1 == TokenActionView::Store(
                    spec_store_refresh_token_state(
                        refresh_token,
                        RefreshTokenStateView {
                            common: state.common,
                            google_refresh: google_refresh->Some_0,
                        },
                    ),
                )
                &&& spec_step(
                    secrets,
                    signed.0,
                    TokenEventView::Stored(Ok(())),
                    Some(Ok(access_token)),
                ) == tokens
            } else {
                signed == tokens
            }
        }),
{
}

/// The login of a request is the one of the stored record, and for a code
/// it is the login of the client that makes the request.
pub proof fn lemma_login_is_the_stored_one(
    secrets: Seq<Seq<char>>,
    state: TokenFlowView,
    event: TokenEventView,
    fresh: FreshView,
)
    requires
        login(state) is None,
    ensures
        ({
            let next = spec_step(secrets, state, event, fresh);
            login(next.0) matches Some(common) ==> {
                ||| {
                    &&& state matches TokenFlowView::AwaitAccessState { params }
                    &&& event matches TokenEventView::AccessState(Ok(Some(stored)))
                    &&& common == stored.common
                    &&& common.client_id == params.client_id
                }
                ||| {
                    &&& state is AwaitRefreshState
                    &&& event matches TokenEventView::RefreshState(Ok(Some(stored)))
                    &&& common == stored.common
                }
            }
        }),
{
}

/// No step changes the login of a request, and every step keeps the state
/// consistent.
pub proof fn lemma_steps_keep_login(
    secrets: Seq<Seq<char>>,
    state: TokenFlowView,
    event: TokenEventView,
    fresh: FreshView,
)
    requires
        consistent(state),
    ensures
        ({
            let next = spec_step(secrets, state, event, fresh);
            &&& consistent(next.0)
            &&& login(state) is Some && login(next.0) is Some ==> login(next.0) == login(state)
        }),
{
}

/// Whatever claims go to be signed are bound to the login of the request:
/// the audience is the login's client, the nonce is the one that the client
/// sent (not the one that went upstream), the issuer is the broker, and
/// groups are there exactly where the login asked for them.
pub proof fn lemma_claims_are_bound_to_login(
    secrets: Seq<Seq<char>>,
    state: TokenFlowView,
    event: TokenEventView,
    fresh: FreshView,
)
    requires
        consistent(state),
    ensures
        spec_step(secrets, state, event, fresh).1 matches TokenActionView::Sign(claims) ==> {
            &&& login(state) matches Some(common)
            &&& claims.aud == common.client_id
            &&& claims.nonce == common.client_nonce
            &&& claims.groups is Some <==> common.groups_scope
            &&& claims.iss == secrets[Secret::WORKER_DOMAIN.spec_index()]
        },
{
}

/// The login of a code is the login of the authorization request that the
/// code came from. The access exchange state that the callback endpoint
/// leaves for the pending authorization of a request names the client of the
/// request, the nonce that the client sent (and beside it, apart, the nonce
/// that went upstream), and whether the request asked for groups. Claims
/// that are bound to that login therefore carry the client of the request as
/// audience and the client's own nonce. The refresh state that a code grant
/// stores carries the same login on to every later refresh.
pub proof fn lemma_login_comes_from_the_authorization_request(
    secrets: Seq<Seq<char>>,
    request: AuthorizeParamsView,
    google_nonce: Seq<char>,
    groups_scope: bool,
    google_code: Seq<char>,
    google_refresh: Seq<char>,
    id_token: Seq<char>,
    client_refresh: Seq<char>,
    claims: OidcTokenView,
)
    ensures
        ({
            let pending = spec_pending(request, google_nonce, groups_scope);
            let access = spec_access_state(pending, google_code);
            let stored = spec_step(
                secrets,
                TokenFlowView::AwaitSignature {
                    grant: GrantView::Code { common: access.common },
                    google_refresh: Some(google_refresh),
                },
                TokenEventView::Signed(Ok(id_token)),
                Some(Ok(client_refresh)),
            );
            &&& access.common.client_id == request.client_id
            &&& access.common.client_nonce == request.nonce
            &&& access.common.google_nonce == google_nonce
            &&& access.common.groups_scope == groups_scope
            &&& access.client_redirect == request.redirect_uri
            &&& bound_to(claims, access.common, secrets) ==> claims.aud == request.client_id
                && claims.nonce == request.nonce && (claims.groups is Some <==> groups_scope)
            &&& stored.1 matches TokenActionView::Store(put)
            &&& put.key == client_refresh
            &&& put.value.common == access.common
            &&& put.value.google_refresh == google_refresh
        }),
{
}

/// What the host reports, with the token that was minted for the step that
/// the report leads to.
pub type Report = (TokenEventView, FreshView);

/// What a request asks of the host, one thing after the other, while the
/// host reports `reports` to it.
pub open spec fn actions(
    secrets: Seq<Seq<char>>,
    state: TokenFlowView,
    reports: Seq<Report>,
) -> Seq<TokenActionView>
    decreases reports.len(),
{
    if reports.len() == 0 {
        Seq::empty()
    } else {
        let step = spec_step(secrets, state, reports[0].0, reports[0].1);
        seq![step.1] + actions(secrets, step.0, reports.drop_first())
    }
}

/// The login of the record that a report hands to a request that awaits
/// it: the record under the code, where it names the client and the redirect
/// URI of the request, or the record under the refresh token.
pub open spec fn accepted_login(
    state: TokenFlowView,
    event: TokenEventView,
) -> Option<CommonTokenStateView> {
    match (state, event) {
        (
            TokenFlowView::AwaitAccessState { params },
            TokenEventView::AccessState(Ok(Some(stored))),
        ) => if params.client_id == stored.common.client_id && params.redirect_uri
            == stored.client_redirect {
            Some(stored.common)
        } else {
            None
        },
        (
            TokenFlowView::AwaitRefreshState { .. },
            TokenEventView::RefreshState(Ok(Some(stored))),
        ) => Some(stored.common),
        _ => None,
    }
}

/// Whether claims are bound to a login.
pub open spec fn bound_to(
    claims: OidcTokenView,
    common: CommonTokenStateView,
    secrets: Seq<Seq<char>>,
) -> bool {
    &&& claims.aud == common.client_id
    &&& claims.nonce == common.client_nonce
    &&& claims.groups is Some <==> common.groups_scope
    &&& claims.iss == secrets[Secret::WORKER_DOMAIN.spec_index()]
}

/// Whether a request no longer awaits its record.
spec fn past_the_record(state: TokenFlowView) -> bool {
    !(state is AwaitAccessState) && !(state is AwaitRefreshState)
}

/// A request that has been answered asks for nothing more, whatever is
/// reported to it.
pub proof fn lemma_answered_asks_nothing(secrets: Seq<Seq<char>>, reports: Seq<Report>, i: int)
    requires
        0 <= i < reports.len(),
    ensures
        actions(secrets, TokenFlowView::Done, reports).len() == reports.len(),
        actions(secrets, TokenFlowView::Done, reports)[i] == TokenActionView::Ignore,
    decreases reports.len(),
{
    lemma_actions_len(secrets, TokenFlowView::Done, reports);
    lemma_actions_len(secrets, TokenFlowView::Done, reports.drop_first());
    if i > 0 {
        lemma_answered_asks_nothing(secrets, reports.drop_first(), i - 1);
    }
}

/// A request asks for one thing for each report.
pub proof fn lemma_actions_len(secrets: Seq<Seq<char>>, state: TokenFlowView, reports: Seq<Report>)
    ensures
        actions(secrets, state, reports).len() == reports.len(),
    decreases reports.len(),
{
    if reports.len() > 0 {
        let step = spec_step(secrets, state, reports[0].0, reports[0].1);
        lemma_actions_len(secrets, step.0, reports.drop_first());
    }
}

/// Once a code has been refused, no claims ever go to be signed for the
/// request, whatever the host reports afterwards.
pub proof fn lemma_refused_code_signs_nothing(
    secrets: Seq<Seq<char>>,
    params: CodeParamsView,
    loaded: Option<AccessTokenStateView>,
    reports: Seq<Report>,
    i: int,
)
    requires
        loaded matches Some(stored) ==> stored.common.client_id != params.client_id
            || stored.client_redirect != params.redirect_uri,
        reports.len() > 0,
        reports[0].0 == TokenEventView::AccessState(Ok(loaded)),
        0 <= i < reports.len(),
    ensures
        actions(secrets, TokenFlowView::AwaitAccessState { params }, reports).len()
            == reports.len(),
        !(actions(secrets, TokenFlowView::AwaitAccessState { params }, reports)[i] is Sign),
        actions(secrets, TokenFlowView::AwaitAccessState { params }, reports)[0]
            matches TokenActionView::Respond(response) && refuses_grant(response),
{
    let state = TokenFlowView::AwaitAccessState { params };
    lemma_actions_len(secrets, state, reports);
    lemma_mismatch_refuses_grant(secrets, params, loaded, reports[0].1);
    let step = spec_step(secrets, state, reports[0].0, reports[0].1);
    lemma_actions_len(secrets, step.0, reports.drop_first());
    if i > 0 {
        lemma_answered_asks_nothing(secrets, reports.drop_first(), i - 1);
    }
}

/// From a state in which the record has been read, whatever claims go to
/// be signed are bound to the login of that state.
proof fn lemma_later_claims_are_bound(
    secrets: Seq<Seq<char>>,
    state: TokenFlowView,
    reports: Seq<Report>,
    i: int,
    common: CommonTokenStateView,
)
    requires
        consistent(state),
        past_the_record(state),
        login(state) is Some ==> login(state) == Some(common),
        0 <= i < reports.len(),
        actions(secrets, state, reports)[i] is Sign,
    ensures
        bound_to(actions(secrets, state, reports)[i]->Sign_0, common, secrets),
    decreases reports.len(),
{
    let step = spec_step(secrets, state, reports[0].0, reports[0].1);
    lemma_actions_len(secrets, step.0, reports.drop_first());
    lemma_claims_are_bound_to_login(secrets, state, reports[0].0, reports[0].1);
    lemma_steps_keep_login(secrets, state, reports[0].0, reports[0].1);
    if i > 0 {
        assert(actions(secrets, state, reports)[i] == actions(
            secrets,
            step.0,
            reports.drop_first(),
        )[i - 1]);
        lemma_later_claims_are_bound(secrets, step.0, reports.drop_first(), i - 1, common);
    }
}

/// Every ID token is bound to the login of the request. Whatever the host
/// reports to a request, in whatever order: where claims go to be signed, an
/// earlier report handed the request its record, and the claims are bound to
/// the login of that record: the audience is its client, which for a code is
/// the client that makes the request, the nonce is the one that the client
/// sent with its authorization request, and groups are there exactly where
/// the login asked for them.
pub proof fn lemma_every_id_token_is_bound(
    secrets: Seq<Seq<char>>,
    params: ParamsView,
    reports: Seq<Report>,
    i: int,
)
    requires
        0 <= i < reports.len(),
        actions(secrets, spec_start(params).0, reports)[i] is Sign,
    ensures
        exists|j: int|
            0 <= j < i && (#[trigger] accepted_login(spec_start(params).0, reports[j].0)) is Some
                && bound_to(
                actions(secrets, spec_start(params).0, reports)[i]->Sign_0,
                accepted_login(spec_start(params).0, reports[j].0)->Some_0,
                secrets,
            ),
        params matches ParamsView::Code(code) ==> (actions(
            secrets,
            spec_start(params).0,
            reports,
        )[i]->Sign_0).aud == code.client_id,
    decreases reports.len(),
{
    let state = spec_start(params).0;
    let step = spec_step(secrets, state, reports[0].0, reports[0].1);
    let rest = reports.drop_first();
    lemma_actions_len(secrets, step.0, rest);
    lemma_actions_len(secrets, state, reports);
    assert(!(step.1 is Sign));
    assert(i > 0);
    assert(actions(secrets, state, reports)[i] == actions(secrets, step.0, rest)[i - 1]);
    if step.0 == state {
        lemma_every_id_token_is_bound(secrets, params, rest, i - 1);
        let j = choose|j: int|
            0 <= j < i - 1 && (#[trigger] accepted_login(state, rest[j].0)) is Some && bound_to(
                actions(secrets, state, rest)[i - 1]->Sign_0,
                accepted_login(state, rest[j].0)->Some_0,
                secrets,
            );
        assert(rest[j] == reports[j + 1]);
        assert(accepted_login(state, reports[j + 1].0) is Some);
    } else if step.0 is Done {
        lemma_answered_asks_nothing(secrets, rest, i - 1);
    } else {
        let common = accepted_login(state, reports[0].0)->Some_0;
        assert(accepted_login(state, reports[0].0) is Some);
        assert(login(step.0) == Some(common));
        lemma_later_claims_are_bound(secrets, step.0, rest, i - 1, common);
    }
}

} // verus!
