//! The authorization endpoint: it checks a client's request, has the host
//! begin the login at the upstream provider, and leaves a pending
//! authorization for the callback endpoint.

use vstd::prelude::*;
use vstd::string::StringExecFns;
use crate::consts::ClientRegistry;
use crate::consts::KV_AUTHORIZE_STATE;
use crate::endpoints::authorize::authorize_error::error;
use crate::endpoints::authorize::authorize_error::error_response;
use crate::endpoints::authorize::authorize_error::spec_error;
use crate::endpoints::authorize::authorize_error::spec_error_response;
use crate::endpoints::authorize::authorize_error::AuthorizeErrorCode;
use crate::endpoints::authorize::authorize_error::AuthorizeErrorCodeView;
use crate::endpoints::authorize::authorize_error::ErrorParams;
use crate::endpoints::authorize::authorize_error::ErrorParamsView;
use crate::endpoints::authorize::authorize_error::ErrorResponse;
use crate::endpoints::authorize::authorize_error::ErrorResponseView;
use crate::google::get_google_auth_url;
use crate::google::spec_get_google_auth_url;
use crate::google::AuthUrlRequest;
use crate::google::AuthUrlRequestView;
use crate::google::GoogleAuthorize;
use crate::google::GoogleAuthorizeView;
use crate::handler_error::HandlerError;
use crate::handler_error::result_view;
use crate::handler_error::HandlerErrorView;
use crate::http::HttpResponse;
use crate::http::HttpResponseView;
use crate::scope::invalid_scope_message;
use crate::scope::is_scope_text;
use crate::scope::parse_scopes;
use crate::scope::requested_scopes;
use crate::scope::scope_tokens;
use crate::scope::spec_requested_scopes;
use crate::state::kv_put;
use crate::state::store_get;
use crate::state::store_put;
use crate::state::AuthorizeState;
use crate::state::AuthorizeStateView;
use crate::state::GenericAuthorizeState;
use crate::state::KvPut;
use crate::state::KvPutView;
use crate::state::Store;
use crate::state::Ttl;
use crate::state::SHORT_TTL;
use crate::uri::RedirectUri;

verus! {

/// The response types that a client may ask for.
#[allow(non_camel_case_types)]
#[derive(Debug, Clone, Copy, PartialEq, Eq)]
pub enum ResponseType {
    /// The authorization-code flow.
    code,
}

/// The parameters of an authorization request.
#[derive(Debug, Clone, PartialEq, Eq)]
pub struct AuthorizeParams {
    pub response_type: ResponseType,
    pub client_id: String,
    pub redirect_uri: RedirectUri,
    pub state: String,
    pub nonce: String,
    pub scope: String,
}

/// `AuthorizeParams` over sequences.
pub struct AuthorizeParamsView {
    pub response_type: ResponseType,
    pub client_id: Seq<char>,
    pub redirect_uri: Seq<char>,
    pub state: Seq<char>,
    pub nonce: Seq<char>,
    pub scope: Seq<char>,
}

impl View for AuthorizeParams {
    type V = AuthorizeParamsView;

    open spec fn view(&self) -> AuthorizeParamsView {
        AuthorizeParamsView {
            response_type: self.response_type,
            client_id: self.client_id@,
            redirect_uri: self.redirect_uri@,
            state: self.state@,
            nonce: self.nonce@,
            scope: self.scope@,
        }
    }
}

/// Where the handling of an authorization request stands.
#[derive(Debug, Clone, PartialEq, Eq)]
pub enum AuthorizeFlow {
    /// The host was asked for an authorization URL at the upstream provider.
    AwaitUpstream { params: AuthorizeParams, groups_scope: bool },
    /// The pending authorization is being written. `redirect` is the
    /// upstream authorization URL.
    AwaitStored { params: AuthorizeParams, redirect: String },
    /// The request was answered.
    Done,
}

/// `AuthorizeFlow` over sequences.
pub enum AuthorizeFlowView {
    AwaitUpstream { params: AuthorizeParamsView, groups_scope: bool },
    AwaitStored { params: AuthorizeParamsView, redirect: Seq<char> },
    Done,
}

impl View for AuthorizeFlow {
    type V = AuthorizeFlowView;

    open spec fn view(&self) -> AuthorizeFlowView {
        match self {
            AuthorizeFlow::AwaitUpstream { params, groups_scope } => AuthorizeFlowView::AwaitUpstream {
                params: params@,
                groups_scope: *groups_scope,
            },
            AuthorizeFlow::AwaitStored { params, redirect } => AuthorizeFlowView::AwaitStored {
                params: params@,
                redirect: redirect@,
            },
            AuthorizeFlow::Done => AuthorizeFlowView::Done,
        }
    }
}

/// What the host reports to the handling of an authorization request.
#[derive(Debug)]
pub enum AuthorizeEvent {
    /// The upstream authorization URL with its CSRF token and nonce.
    Upstream(Result<GoogleAuthorize, HandlerError>),
    /// The pending authorization was written.
    Stored(Result<(), HandlerError>),
}

/// `AuthorizeEvent` over sequences.
pub enum AuthorizeEventView {
    Upstream(Result<GoogleAuthorizeView, HandlerErrorView>),
    Stored(Result<(), HandlerErrorView>),
}

impl View for AuthorizeEvent {
    type V = AuthorizeEventView;

    open spec fn view(&self) -> AuthorizeEventView {
        match self {
            AuthorizeEvent::Upstream(built) => AuthorizeEventView::Upstream(result_view(*built)),
            AuthorizeEvent::Stored(stored) => AuthorizeEventView::Stored(result_view(*stored)),
        }
    }
}

/// What the handling of an authorization request asks of the host.
#[derive(Debug, Clone, PartialEq, Eq)]
pub enum AuthorizeAction {
    /// Build an authorization URL at the upstream provider.
    BuildUrl(AuthUrlRequest),
    /// Write the pending authorization.
    Store(KvPut<AuthorizeState>),
    /// Answer the client. The request is over.
    Respond(HttpResponse),
    /// Nothing: the request was over, or the report was not the one awaited.
    Ignore,
}

/// `AuthorizeAction` over sequences.
pub enum AuthorizeActionView {
    BuildUrl(AuthUrlRequestView),
    Store(KvPutView<AuthorizeStateView>),
    Respond(HttpResponseView),
    Ignore,
}

impl View for AuthorizeAction {
    type V = AuthorizeActionView;

    open spec fn view(&self) -> AuthorizeActionView {
        match self {
            AuthorizeAction::BuildUrl(request) => AuthorizeActionView::BuildUrl(request@),
            AuthorizeAction::Store(put) => AuthorizeActionView::Store(put@),
            AuthorizeAction::Respond(response) => AuthorizeActionView::Respond(response@),
            AuthorizeAction::Ignore => AuthorizeActionView::Ignore,
        }
    }
}

/// A step of the handling of an authorization request.
pub type AuthorizeStep = (AuthorizeFlow, AuthorizeAction);

/// `AuthorizeStep` over sequences.
pub type AuthorizeStepView = (AuthorizeFlowView, AuthorizeActionView);

/// The view of a step.
pub open spec fn step_view(step: AuthorizeStep) -> AuthorizeStepView {
    (step.0@, step.1@)
}

/// What a request that passed the checks asks for: whether the client wants
/// the user's groups, and the authorization URL to build.
pub type Accepted = (bool, AuthUrlRequest);

/// `Accepted` over sequences.
pub type AcceptedView = (bool, AuthUrlRequestView);

/// The checks of an authorization request, in this order. The scope must
/// hold only characters of the scope alphabet, and `openid` must be among its
/// tokens: else `invalid_scope`. The registry must have been read. The
/// client must be registered, and the redirect URI must be one of its own:
/// else `access_denied`. A request that passes asks for an upstream
/// authorization URL with the scopes that are left to forward.
pub open spec fn spec_authorize_result(
    params: AuthorizeParamsView,
    registry: Result<Map<Seq<char>, Seq<Seq<char>>>, HandlerErrorView>,
) -> Result<AcceptedView, HandlerErrorView> {
    let requested = spec_requested_scopes(scope_tokens(params.scope));
    if !is_scope_text(params.scope) {
        Err(spec_error(AuthorizeErrorCodeView::InvalidScope, invalid_scope_message(params.scope)))
    } else if !requested.openid {
        Err(spec_error(AuthorizeErrorCodeView::InvalidScope, "scope field must contain \"openid\""@))
    } else {
        match registry {
            Err(e) => Err(e),
            Ok(clients) => if !clients.dom().contains(params.client_id) {
                Err(spec_error(AuthorizeErrorCodeView::AccessDenied, "Unregistered client_id"@))
            } else if !clients[params.client_id].contains(params.redirect_uri) {
                Err(spec_error(AuthorizeErrorCodeView::AccessDenied, "Unregistered redirect_uri"@))
            } else {
                Ok((requested.groups, spec_get_google_auth_url(requested.forwarded)))
            },
        }
    }
}

/// Checks an authorization request against the scope rules and the client
/// registry.
pub fn authorize_result(
    params: &AuthorizeParams,
    registry: Result<ClientRegistry, HandlerError>,
) -> (checked: Result<Accepted, HandlerError>)
    ensures
        result_view(checked) == spec_authorize_result(params@, result_view(registry)),
{
    let tokens = match parse_scopes(params.scope.as_str()) {
        Ok(tokens) => tokens,
        Err(e) => {
            return Err(e);
        },
    };
    let requested = requested_scopes(tokens);
    if !requested.openid {
        return error(
            AuthorizeErrorCode::InvalidScope,
            String::from_str("scope field must contain \"openid\""),
        );
    }
    let clients = match registry {
        Ok(clients) => clients,
        Err(e) => {
            return Err(e);
        },
    };
    let client = match clients.get(params.client_id.as_str()) {
        Some(client) => client,
        None => {
            return error(
                AuthorizeErrorCode::AccessDenied,
                String::from_str("Unregistered client_id"),
            );
        },
    };
    if !client.allows(&params.redirect_uri) {
        return error(
            AuthorizeErrorCode::AccessDenied,
            String::from_str("Unregistered redirect_uri"),
        );
    }
    Ok((requested.groups, get_google_auth_url(requested.forwarded)))
}

/// What a failure tells the client: an error of the protocol as it is, and
/// of any other failure only that the server failed.
pub open spec fn spec_error_params(e: HandlerErrorView) -> ErrorParamsView {
    match e {
        HandlerErrorView::Authorize(params) => params,
        _ => ErrorParamsView::server_error(),
    }
}

/// The response that delivers a failure to the client: a redirect to the
/// redirect URI of the request, with the error and the `state` of the
/// request.
pub open spec fn spec_deliver(
    params: AuthorizeParamsView,
    e: HandlerErrorView,
) -> HttpResponseView {
    spec_error_response(
        params.redirect_uri,
        ErrorResponseView { params: spec_error_params(e), state: params.state },
    )
}

/// The step that answers the client and ends the request.
pub open spec fn spec_respond(response: HttpResponseView) -> AuthorizeStepView {
    (AuthorizeFlowView::Done, AuthorizeActionView::Respond(response))
}

/// The pending authorization of a request, for the nonce that went
/// upstream.
pub open spec fn spec_pending(
    params: AuthorizeParamsView,
    google_nonce: Seq<char>,
    groups_scope: bool,
) -> AuthorizeStateView {
    GenericAuthorizeState {
        client_id: params.client_id,
        client_redirect: params.redirect_uri,
        client_state: params.state,
        client_nonce: params.nonce,
        google_nonce,
        groups_scope,
    }
}

/// The request that stores a pending authorization under the upstream CSRF
/// token, for ten minutes.
pub open spec fn spec_store_pending(
    params: AuthorizeParamsView,
    google: GoogleAuthorizeView,
    groups_scope: bool,
) -> KvPutView<AuthorizeStateView> {
    KvPutView {
        kv_name: KV_AUTHORIZE_STATE@,
        key: google.csrf,
        value: spec_pending(params, google.nonce, groups_scope),
        ttl: SHORT_TTL,
    }
}

/// The first step of an authorization request: a request that fails a check
/// is answered with the error; one that passes asks for an upstream
/// authorization URL.
pub open spec fn spec_start(
    params: AuthorizeParamsView,
    registry: Result<Map<Seq<char>, Seq<Seq<char>>>, HandlerErrorView>,
) -> AuthorizeStepView {
    match spec_authorize_result(params, registry) {
        Err(e) => spec_respond(spec_deliver(params, e)),
        Ok((groups_scope, request)) => (
            AuthorizeFlowView::AwaitUpstream { params, groups_scope },
            AuthorizeActionView::BuildUrl(request),
        ),
    }
}

/// The step that a report of the host leads to. With the upstream URL, the
/// pending authorization is stored under the URL's CSRF token. Once it is
/// stored, the browser is sent to the upstream URL. Any failure is delivered
/// to the client. A report that is not the one awaited changes nothing.
pub open spec fn spec_step(
    state: AuthorizeFlowView,
    event: AuthorizeEventView,
) -> AuthorizeStepView {
    match (state, event) {
        (
            AuthorizeFlowView::AwaitUpstream { params, groups_scope },
            AuthorizeEventView::Upstream(Err(e)),
        ) => spec_respond(spec_deliver(params, e)),
        (
            AuthorizeFlowView::AwaitUpstream { params, groups_scope },
            AuthorizeEventView::Upstream(Ok(google)),
        ) => (
            AuthorizeFlowView::AwaitStored { params, redirect: google.redirect },
            AuthorizeActionView::Store(spec_store_pending(params, google, groups_scope)),
        ),
        (
            AuthorizeFlowView::AwaitStored { params, redirect },
            AuthorizeEventView::Stored(Err(e)),
        ) => spec_respond(spec_deliver(params, e)),
        (
            AuthorizeFlowView::AwaitStored { params, redirect },
            AuthorizeEventView::Stored(Ok(_)),
        ) => spec_respond(HttpResponseView::see_other(redirect)),
        _ => (state, AuthorizeActionView::Ignore),
    }
}

/// Makes the response that delivers a failure to the client.
fn deliver(params: AuthorizeParams, e: HandlerError) -> (answer: HttpResponse)
    ensures
        answer@ == spec_deliver(params@, e@),
{
    let response_params = match e {
        HandlerError::Authorize(p) => p,
        _ => ErrorParams::server_error(),
    };
    error_response(
        params.redirect_uri,
        ErrorResponse { params: response_params, state: params.state },
    )
}

/// The step that answers the client and ends the request.
fn respond(response: HttpResponse) -> (step: AuthorizeStep)
    ensures
        step_view(step) == spec_respond(response@),
{
    (AuthorizeFlow::Done, AuthorizeAction::Respond(response))
}

/// Starts the handling of an authorization request: the request is checked
/// against the scope rules and the client registry.
pub fn authorize(params: AuthorizeParams, registry: Result<ClientRegistry, HandlerError>) -> (step:
    AuthorizeStep)
    ensures
        step_view(step) == spec_start(params@, result_view(registry)),
{
    match authorize_result(&params, registry) {
        Err(e) => respond(deliver(params, e)),
        Ok((groups_scope, request)) => (
            AuthorizeFlow::AwaitUpstream { params, groups_scope },
            AuthorizeAction::BuildUrl(request),
        ),
    }
}

/// Takes the handling of an authorization request one step on.
pub fn authorize_step(state: AuthorizeFlow, event: AuthorizeEvent) -> (step: AuthorizeStep)
    ensures
        step_view(step) == spec_step(state@, event@),
{
    match (state, event) {
        (AuthorizeFlow::AwaitUpstream { params, groups_scope }, AuthorizeEvent::Upstream(Err(e))) => {
            respond(deliver(params, e))
        },
        (
            AuthorizeFlow::AwaitUpstream { params, groups_scope },
            AuthorizeEvent::Upstream(Ok(google)),
        ) => {
            let pending = GenericAuthorizeState {
                client_id: params.client_id.clone(),
                client_redirect: params.redirect_uri.duplicate(),
                client_state: params.state.clone(),
                client_nonce: params.nonce.clone(),
                google_nonce: google.nonce,
                groups_scope,
            };
            let store = kv_put(KV_AUTHORIZE_STATE, google.csrf.as_str(), pending, Ttl::minutes(10));
            (
                AuthorizeFlow::AwaitStored { params, redirect: google.redirect },
                AuthorizeAction::Store(store),
            )
        },
        (AuthorizeFlow::AwaitStored { params, redirect }, AuthorizeEvent::Stored(Err(e))) => {
            respond(deliver(params, e))
        },
        (AuthorizeFlow::AwaitStored { params, redirect }, AuthorizeEvent::Stored(Ok(_))) => {
            respond(HttpResponse::see_other(redirect))
        },
        (state, _) => (state, AuthorizeAction::Ignore),
    }
}

/// Whether a request passes every check: its scope is written in the scope
/// alphabet and names `openid`, its client is registered, and its redirect
/// URI is one of the client's.
pub open spec fn valid_request(
    params: AuthorizeParamsView,
    clients: Map<Seq<char>, Seq<Seq<char>>>,
) -> bool {
    &&& is_scope_text(params.scope)
    &&& scope_tokens(params.scope).contains("openid"@)
    &&& clients.dom().contains(params.client_id)
    &&& clients[params.client_id].contains(params.redirect_uri)
}

/// The response that delivers the error `code` with some description to the
/// redirect URI and with the `state` of a request.
pub open spec fn delivers_error(
    response: HttpResponseView,
    params: AuthorizeParamsView,
    code: AuthorizeErrorCodeView,
) -> bool {
    exists|description: Seq<char>|
        response == #[trigger] spec_error_response(
            params.redirect_uri,
            ErrorResponseView {
                params: ErrorParamsView {
                    error: code,
                    error_description: Some(description),
                    error_uri: None,
                },
                state: params.state,
            },
        )
}

/// A request that has been answered takes no further step.
pub proof fn lemma_done_is_final(event: AuthorizeEventView)
    ensures
        spec_step(AuthorizeFlowView::Done, event) == (
            AuthorizeFlowView::Done,
            AuthorizeActionView::Ignore,
        ),
{
}

/// What a request asks of the host, one thing after the other, while the
/// host reports `reports` to it.
pub open spec fn actions(state: AuthorizeFlowView, reports: Seq<AuthorizeEventView>) -> Seq<
    AuthorizeActionView,
>
    decreases reports.len(),
{
    if reports.len() == 0 {
        Seq::empty()
    } else {
        let step = spec_step(state, reports[0]);
        seq![step.1] + actions(step.0, reports.drop_first())
    }
}

/// A request that was answered at once never goes upstream and never
/// writes to the store: whatever is reported to it afterwards, it asks for
/// nothing.
pub proof fn lemma_answered_asks_nothing(reports: Seq<AuthorizeEventView>, i: int)
    requires
        0 <= i < reports.len(),
    ensures
        actions(AuthorizeFlowView::Done, reports).len() == reports.len(),
        actions(AuthorizeFlowView::Done, reports)[i] == AuthorizeActionView::Ignore,
    decreases reports.len(),
{
    lemma_actions_len(AuthorizeFlowView::Done, reports);
    lemma_actions_len(AuthorizeFlowView::Done, reports.drop_first());
    if i > 0 {
        lemma_answered_asks_nothing(reports.drop_first(), i - 1);
    }
}

/// A request asks for one thing for each report.
pub proof fn lemma_actions_len(state: AuthorizeFlowView, reports: Seq<AuthorizeEventView>)
    ensures
        actions(state, reports).len() == reports.len(),
    decreases reports.len(),
{
    if reports.len() > 0 {
        lemma_actions_len(spec_step(state, reports[0]).0, reports.drop_first());
    }
}

/// A valid request is answered with a redirect to the upstream
/// authorization URL, and by then a pending authorization is stored under
/// the CSRF token of that URL: it holds the request and the upstream nonce,
/// and is read back for ten minutes. The upstream URL is asked for with the
/// scope `email` and the scopes of the request other than the pseudo-scopes.
pub proof fn lemma_valid_request_reaches_upstream(
    params: AuthorizeParamsView,
    clients: Map<Seq<char>, Seq<Seq<char>>>,
    google: GoogleAuthorizeView,
    store: Store<AuthorizeStateView>,
    now: int,
    later: int,
)
    requires
        valid_request(params, clients),
        now <= later < now + SHORT_TTL,
    ensures
        ({
            let requested = spec_requested_scopes(scope_tokens(params.scope));
            let first = spec_start(params, Ok(clients));
            let second = spec_step(first.0, AuthorizeEventView::Upstream(Ok(google)));
            let third = spec_step(second.0, AuthorizeEventView::Stored(Ok(())));
            &&& first.1 == AuthorizeActionView::BuildUrl(
                AuthUrlRequestView {
                    scopes: seq!["email"@] + requested.forwarded,
                    csrf_bytes: crate::google::CSRF_BYTES,
                },
            )
            &&& second.1 matches AuthorizeActionView::Store(put)
            &&& put.kv_name == KV_AUTHORIZE_STATE@
            &&& put.key == google.csrf
            &&& put.value == spec_pending(params, google.nonce, requested.groups)
            &&& store_get(store_put(store, put, now), KV_AUTHORIZE_STATE@, google.csrf, later)
                == Some(put.value)
            &&& third == spec_respond(HttpResponseView::see_other(google.redirect))
        }),
{
}

/// A request whose scope does not name `openid` is answered at once with a
/// redirect to the redirect URI of the request that carries the error
/// `invalid_scope` and the `state` of the request. The upstream provider is
/// never asked.
pub proof fn lemma_missing_openid_is_invalid_scope(
    params: AuthorizeParamsView,
    registry: Result<Map<Seq<char>, Seq<Seq<char>>>, HandlerErrorView>,
)
    requires
        !is_scope_text(params.scope) || !scope_tokens(params.scope).contains("openid"@),
    ensures
        ({
            let first = spec_start(params, registry);
            &&& first.0 is Done
            &&& first.1 matches AuthorizeActionView::Respond(response)
            &&& delivers_error(response, params, AuthorizeErrorCodeView::InvalidScope)
        }),
{
    let first = spec_start(params, registry);
    let description = if !is_scope_text(params.scope) {
        invalid_scope_message(params.scope)
    } else {
        "scope field must contain \"openid\""@
    };
    assert(first.1->Respond_0 == spec_error_response(
        params.redirect_uri,
        ErrorResponseView {
            params: ErrorParamsView {
                error: AuthorizeErrorCodeView::InvalidScope,
                error_description: Some(description),
                error_uri: None,
            },
            state: params.state,
        },
    ));
}

/// A request whose scope passes but whose client is not registered, or
/// whose redirect URI is not one of the client's, is answered at once with
/// the error `access_denied`. The upstream provider is never asked.
pub proof fn lemma_unregistered_is_access_denied(
    params: AuthorizeParamsView,
    clients: Map<Seq<char>, Seq<Seq<char>>>,
)
    requires
        is_scope_text(params.scope),
        scope_tokens(params.scope).contains("openid"@),
        !clients.dom().contains(params.client_id) || !clients[params.client_id].contains(
            params.redirect_uri,
        ),
    ensures
        ({
            let first = spec_start(params, Ok(clients));
            &&& first.0 is Done
            &&& first.1 matches AuthorizeActionView::Respond(response)
            &&& delivers_error(response, params, AuthorizeErrorCodeView::AccessDenied)
        }),
{
    let first = spec_start(params, Ok(clients));
    let description = if !clients.dom().contains(params.client_id) {
        "Unregistered client_id"@
    } else {
        "Unregistered redirect_uri"@
    };
    assert(first.1->Respond_0 == spec_error_response(
        params.redirect_uri,
        ErrorResponseView {
            params: ErrorParamsView {
                error: AuthorizeErrorCodeView::AccessDenied,
                error_description: Some(description),
                error_uri: None,
            },
            state: params.state,
        },
    ));
}

} // verus!
