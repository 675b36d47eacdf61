//! The callback endpoint: the upstream provider sends the browser here. It
//! finds the pending authorization, mints a local authorization code, leaves
//! an access exchange state for the token endpoint, and sends the browser
//! back to the client.

use vstd::prelude::*;
use vstd::string::StringExecFns;
use crate::consts::KV_ACCESS_TOKEN_STATE;
use crate::consts::KV_AUTHORIZE_STATE;
use crate::endpoints::authorize::authorize_error::error_response;
use crate::endpoints::authorize::authorize_error::spec_error_response;
use crate::endpoints::authorize::authorize_error::ErrorParams;
use crate::endpoints::authorize::authorize_error::ErrorParamsView;
use crate::endpoints::authorize::authorize_error::ErrorResponse;
use crate::endpoints::authorize::authorize_error::ErrorResponseView;
use crate::handler_error::HandlerError;
use crate::handler_error::found_view;
use crate::handler_error::result_view;
use crate::handler_error::HandlerErrorView;
use crate::http::HttpResponse;
use crate::http::HttpResponseView;
use crate::oidc_token::is_token;
use crate::oidc_token::new_token;
use crate::state::kv_get;
use crate::state::kv_put;
use crate::state::AccessTokenState;
use crate::state::AccessTokenStateView;
use crate::state::AuthorizeState;
use crate::state::AuthorizeStateView;
use crate::state::GenericAccessTokenState;
use crate::state::GenericCommonTokenState;
use crate::state::KvGet;
use crate::state::KvGetView;
use crate::state::KvPut;
use crate::state::KvPutView;
use crate::state::Ttl;
use crate::state::SHORT_TTL;
use crate::text::pairs_view;
use crate::uri::spec_with_params;
use crate::uri::with_params;
use crate::uri::RedirectUri;

verus! {

/// The random bytes of a local authorization code.
pub const CODE_BYTES: usize = 16;

/// What the upstream provider reports: an authorization code, or an error.
#[derive(Debug, Clone, PartialEq, Eq)]
pub enum CallbackEnum {
    Callback { code: String },
    Error(ErrorParams),
}

/// `CallbackEnum` over sequences.
pub enum CallbackEnumView {
    Callback { code: Seq<char> },
    Error(ErrorParamsView),
}

impl View for CallbackEnum {
    type V = CallbackEnumView;

    open spec fn view(&self) -> CallbackEnumView {
        match self {
            CallbackEnum::Callback { code } => CallbackEnumView::Callback { code: code@ },
            CallbackEnum::Error(params) => CallbackEnumView::Error(params@),
        }
    }
}

/// The parameters of a callback: what the upstream provider reports, and
/// the `state` that it echoes, which is the upstream CSRF token.
#[derive(Debug, Clone, PartialEq, Eq)]
pub struct CallbackParams {
    pub params: CallbackEnum,
    pub state: String,
}

/// `CallbackParams` over sequences.
pub struct CallbackParamsView {
    pub params: CallbackEnumView,
    pub state: Seq<char>,
}

impl View for CallbackParams {
    type V = CallbackParamsView;

    open spec fn view(&self) -> CallbackParamsView {
        CallbackParamsView { params: self.params@, state: self.state@ }
    }
}

/// Where the handling of a callback stands.
#[derive(Debug, Clone, PartialEq, Eq)]
pub enum CallbackFlow {
    /// The pending authorization under the CSRF token was asked for.
    AwaitPending { params: CallbackParams },
    /// The access exchange state is being written under `client_code`.
    AwaitStored { client_code: String, client_redirect: RedirectUri, client_state: String },
    /// The callback was answered.
    Done,
}

/// `CallbackFlow` over sequences.
pub enum CallbackFlowView {
    AwaitPending { params: CallbackParamsView },
    AwaitStored { client_code: Seq<char>, client_redirect: Seq<char>, client_state: Seq<char> },
    Done,
}

impl View for CallbackFlow {
    type V = CallbackFlowView;

    open spec fn view(&self) -> CallbackFlowView {
        match self {
            CallbackFlow::AwaitPending { params } => CallbackFlowView::AwaitPending {
                params: params@,
            },
            CallbackFlow::AwaitStored {
                client_code,
                client_redirect,
                client_state,
            } => CallbackFlowView::AwaitStored {
                client_code: client_code@,
                client_redirect: client_redirect@,
                client_state: client_state@,
            },
            CallbackFlow::Done => CallbackFlowView::Done,
        }
    }
}

/// What the host reports to the handling of a callback.
#[derive(Debug)]
pub enum CallbackEvent {
    /// What the store held under the CSRF token.
    Pending(Result<Option<AuthorizeState>, HandlerError>),
    /// The access exchange state was written.
    Stored(Result<(), HandlerError>),
}

/// `CallbackEvent` over sequences.
pub enum CallbackEventView {
    Pending(Result<Option<AuthorizeStateView>, HandlerErrorView>),
    Stored(Result<(), HandlerErrorView>),
}

impl View for CallbackEvent {
    type V = CallbackEventView;

    open spec fn view(&self) -> CallbackEventView {
        match self {
            CallbackEvent::Pending(loaded) => CallbackEventView::Pending(found_view(*loaded)),
            CallbackEvent::Stored(stored) => CallbackEventView::Stored(result_view(*stored)),
        }
    }
}

/// What the handling of a callback asks of the host.
#[derive(Debug, Clone, PartialEq, Eq)]
pub enum CallbackAction {
    /// Read the pending authorization.
    Load(KvGet),
    /// Write the access exchange state.
    Store(KvPut<AccessTokenState>),
    /// Answer. The callback is over.
    Respond(HttpResponse),
    /// Nothing: the callback was over, or the report was not the one awaited.
    Ignore,
}

/// `CallbackAction` over sequences.
pub enum CallbackActionView {
    Load(KvGetView),
    Store(KvPutView<AccessTokenStateView>),
    Respond(HttpResponseView),
    Ignore,
}

impl View for CallbackAction {
    type V = CallbackActionView;

    open spec fn view(&self) -> CallbackActionView {
        match self {
            CallbackAction::Load(get) => CallbackActionView::Load(get@),
            CallbackAction::Store(put) => CallbackActionView::Store(put@),
            CallbackAction::Respond(response) => CallbackActionView::Respond(response@),
            CallbackAction::Ignore => CallbackActionView::Ignore,
        }
    }
}

/// A step of the handling of a callback.
pub type CallbackStep = (CallbackFlow, CallbackAction);

/// `CallbackStep` over sequences.
pub type CallbackStepView = (CallbackFlowView, CallbackActionView);

/// The view of a step.
pub open spec fn step_view(step: CallbackStep) -> CallbackStepView {
    (step.0@, step.1@)
}

/// A code that was minted for a step, or the failure to mint it, or nothing.
pub type Fresh = Option<Result<String, HandlerError>>;

/// `Fresh` over sequences.
pub type FreshView = Option<Result<Seq<char>, HandlerErrorView>>;

/// The view of a code minted for a step.
pub open spec fn fresh_view(fresh: Fresh) -> FreshView {
    match fresh {
        Some(Ok(code)) => Some(Ok(code@)),
        Some(Err(e)) => Some(Err(e@)),
        None => None,
    }
}

/// The step that answers and ends the callback.
pub open spec fn spec_respond(response: HttpResponseView) -> CallbackStepView {
    (CallbackFlowView::Done, CallbackActionView::Respond(response))
}

/// The access exchange state that a pending authorization and an upstream
/// code give.
pub open spec fn spec_access_state(
    pending: AuthorizeStateView,
    google_code: Seq<char>,
) -> AccessTokenStateView {
    GenericAccessTokenState {
        common: GenericCommonTokenState {
            client_id: pending.client_id,
            client_nonce: pending.client_nonce,
            google_nonce: pending.google_nonce,
            groups_scope: pending.groups_scope,
        },
        client_redirect: pending.client_redirect,
        google_code,
    }
}

/// The request that stores an access exchange state under the local
/// authorization code, for ten minutes.
pub open spec fn spec_store_access_state(
    client_code: Seq<char>,
    pending: AuthorizeStateView,
    google_code: Seq<char>,
) -> KvPutView<AccessTokenStateView> {
    KvPutView {
        kv_name: KV_ACCESS_TOKEN_STATE@,
        key: client_code,
        value: spec_access_state(pending, google_code),
        ttl: SHORT_TTL,
    }
}

/// The response that sends the browser back to the client with the local
/// authorization code and the client's own `state`. Where the client's
/// redirect URI cannot be written, the callback fails.
pub open spec fn spec_return_to_client(
    client_redirect: Seq<char>,
    client_code: Seq<char>,
    client_state: Seq<char>,
) -> HttpResponseView {
    match spec_with_params(
        client_redirect,
        seq![("code"@, client_code), ("state"@, client_state)],
    ) {
        Some(location) => HttpResponseView::found(location),
        None => HttpResponseView::unauthorized(),
    }
}

/// The first step of a callback: the pending authorization under the
/// echoed `state` is asked for.
pub open spec fn spec_start(params: CallbackParamsView) -> CallbackStepView {
    (
        CallbackFlowView::AwaitPending { params },
        CallbackActionView::Load(KvGetView { kv_name: KV_AUTHORIZE_STATE@, key: params.state }),
    )
}

/// The step after the store was asked for the pending authorization.
/// Without it the client's redirect URI is not known, and the answer is a
/// plain 401. With it, an error of the upstream provider is handed on to the
/// client unchanged, with the client's own `state`; for an upstream code, a
/// local authorization code is minted and the access exchange state is
/// stored under it.
pub open spec fn spec_on_pending(
    params: CallbackParamsView,
    loaded: Result<Option<AuthorizeStateView>, HandlerErrorView>,
    fresh: FreshView,
) -> CallbackStepView {
    match spec_fetch_authorize_state(params.state, loaded) {
        Err(_) => spec_respond(HttpResponseView::unauthorized()),
        Ok(pending) => match params.params {
            CallbackEnumView::Error(error) => spec_respond(
                spec_error_response(
                    pending.client_redirect,
                    ErrorResponseView { params: error, state: pending.client_state },
                ),
            ),
            CallbackEnumView::Callback { code } => match fresh {
                Some(Ok(client_code)) => (
                    CallbackFlowView::AwaitStored {
                        client_code,
                        client_redirect: pending.client_redirect,
                        client_state: pending.client_state,
                    },
                    CallbackActionView::Store(spec_store_access_state(client_code, pending, code)),
                ),
                _ => spec_respond(HttpResponseView::unauthorized()),
            },
        },
    }
}

/// The step after the access exchange state was written: the browser is
/// sent back to the client. A failure to write it fails the callback.
pub open spec fn spec_on_stored(
    client_code: Seq<char>,
    client_redirect: Seq<char>,
    client_state: Seq<char>,
    stored: Result<(), HandlerErrorView>,
) -> CallbackStepView {
    match stored {
        Err(_) => spec_respond(HttpResponseView::unauthorized()),
        Ok(_) => spec_respond(spec_return_to_client(client_redirect, client_code, client_state)),
    }
}

/// The step that a report of the host leads to. A report that is not the
/// one awaited changes nothing.
pub open spec fn spec_step(
    state: CallbackFlowView,
    event: CallbackEventView,
    fresh: FreshView,
) -> CallbackStepView {
    match (state, event) {
        (
            CallbackFlowView::AwaitPending { params },
            CallbackEventView::Pending(loaded),
        ) => spec_on_pending(params, loaded, fresh),
        (
            CallbackFlowView::AwaitStored { client_code, client_redirect, client_state },
            CallbackEventView::Stored(stored),
        ) => spec_on_stored(client_code, client_redirect, client_state, stored),
        _ => (state, CallbackActionView::Ignore),
    }
}

/// Whether a step needs a local authorization code minted: the step that
/// finds the pending authorization of an upstream code.
pub open spec fn spec_minting(state: CallbackFlowView, event: CallbackEventView) -> bool {
    &&& state matches CallbackFlowView::AwaitPending { params }
    &&& params.params is Callback
    &&& event matches CallbackEventView::Pending(Ok(Some(_)))
}

/// Whether `fresh` may be what was minted for a step: nothing where nothing
/// is needed; else a code of sixteen random bytes, or the failure to get
/// them.
pub open spec fn minted(fresh: FreshView, needed: bool) -> bool {
    if needed {
        match fresh {
            Some(Ok(code)) => is_token(code, CODE_BYTES as nat),
            Some(Err(e)) => e is Random,
            None => false,
        }
    } else {
        fresh is None
    }
}

/// The step that answers and ends the callback.
fn respond(response: HttpResponse) -> (step: CallbackStep)
    ensures
        step_view(step) == spec_respond(response@),
{
    (CallbackFlow::Done, CallbackAction::Respond(response))
}

/// Starts the handling of a callback: the pending authorization under the
/// echoed `state` is asked for.
pub fn callback(params: CallbackParams) -> (step: CallbackStep)
    ensures
        step_view(step) == spec_start(params@),
{
    let load = kv_get(KV_AUTHORIZE_STATE, params.state.as_str());
    (CallbackFlow::AwaitPending { params }, CallbackAction::Load(load))
}

/// What the store gave for the pending authorization: the record, or the
/// failure that its absence is.
pub open spec fn spec_fetch_authorize_state(
    google_state: Seq<char>,
    loaded: Result<Option<AuthorizeStateView>, HandlerErrorView>,
) -> Result<AuthorizeStateView, HandlerErrorView> {
    match loaded {
        Ok(Some(pending)) => Ok(pending),
        Ok(None) => Err(
            HandlerErrorView::KvMissing { kv_name: KV_AUTHORIZE_STATE@, key: google_state },
        ),
        Err(e) => Err(e),
    }
}

/// Reads the pending authorization out of what the store gave under the
/// upstream CSRF token. An absent record is a failure.
pub fn fetch_authorize_state(
    google_state: &str,
    loaded: Result<Option<AuthorizeState>, HandlerError>,
) -> (pending: Result<AuthorizeState, HandlerError>)
    ensures
        result_view(pending) == spec_fetch_authorize_state(google_state@, found_view(loaded)),
{
    match loaded {
        Ok(Some(pending)) => Ok(pending),
        Ok(None) => Err(
            HandlerError::KvMissing {
                kv_name: String::from_str(KV_AUTHORIZE_STATE),
                key: String::from_str(google_state),
            },
        ),
        Err(e) => Err(e),
    }
}

/// The callback of an upstream code whose pending authorization was found:
/// the access exchange state goes to be stored under the local
/// authorization code.
pub fn callback_result(pending: AuthorizeState, google_code: String, client_code: String) -> (step:
    CallbackStep)
    ensures
        step_view(step) == (
            CallbackFlowView::AwaitStored {
                client_code: client_code@,
                client_redirect: pending@.client_redirect,
                client_state: pending@.client_state,
            },
            CallbackActionView::Store(
                spec_store_access_state(client_code@, pending@, google_code@),
            ),
        ),
{
    let record = GenericAccessTokenState {
        common: GenericCommonTokenState {
            client_id: pending.client_id,
            client_nonce: pending.client_nonce,
            google_nonce: pending.google_nonce,
            groups_scope: pending.groups_scope,
        },
        client_redirect: pending.client_redirect.duplicate(),
        google_code,
    };
    let store = kv_put(KV_ACCESS_TOKEN_STATE, client_code.as_str(), record, Ttl::minutes(10));
    (
        CallbackFlow::AwaitStored {
            client_code,
            client_redirect: pending.client_redirect,
            client_state: pending.client_state,
        },
        CallbackAction::Store(store),
    )
}

/// Makes the response that sends the browser back to the client.
fn return_to_client(
    client_redirect: RedirectUri,
    client_code: String,
    client_state: String,
) -> (answer: HttpResponse)
    ensures
        answer@ == spec_return_to_client(client_redirect@, client_code@, client_state@),
{
    let mut pairs: Vec<(String, String)> = Vec::new();
    pairs.push((String::from_str("code"), client_code));
    pairs.push((String::from_str("state"), client_state));
    assert(pairs_view(pairs@) =~= seq![("code"@, client_code@), ("state"@, client_state@)]);
    match with_params(client_redirect.as_str(), &pairs) {
        Some(location) => HttpResponse::found(location),
        None => HttpResponse::unauthorized(),
    }
}

/// Takes the handling of a callback one step on, with the code given where
/// the step needs one minted.
pub fn callback_step_with(state: CallbackFlow, event: CallbackEvent, fresh: Fresh) -> (step:
    CallbackStep)
    ensures
        step_view(step) == spec_step(state@, event@, fresh_view(fresh)),
{
    match (state, event) {
        (CallbackFlow::AwaitPending { params }, CallbackEvent::Pending(loaded)) => {
            let pending = match fetch_authorize_state(params.state.as_str(), loaded) {
                Ok(pending) => pending,
                Err(_) => {
                    return respond(HttpResponse::unauthorized());
                },
            };
            match params.params {
                CallbackEnum::Error(error) => respond(
                    error_response(
                        pending.client_redirect,
                        ErrorResponse { params: error, state: pending.client_state },
                    ),
                ),
                CallbackEnum::Callback { code } => match fresh {
                    Some(Ok(client_code)) => callback_result(pending, code, client_code),
                    _ => respond(HttpResponse::unauthorized()),
                },
            }
        },
        (
            CallbackFlow::AwaitStored { client_code, client_redirect, client_state },
            CallbackEvent::Stored(stored),
        ) => match stored {
            Err(_) => respond(HttpResponse::unauthorized()),
            Ok(_) => respond(return_to_client(client_redirect, client_code, client_state)),
        },
        (state, _) => (state, CallbackAction::Ignore),
    }
}

/// Tells whether a step needs a local authorization code minted.
fn minting(state: &CallbackFlow, event: &CallbackEvent) -> (needed: bool)
    ensures
        needed == spec_minting(state@, event@),
{
    match (state, event) {
        (CallbackFlow::AwaitPending { params }, CallbackEvent::Pending(Ok(Some(_)))) => {
            match params.params {
                CallbackEnum::Callback { .. } => true,
                CallbackEnum::Error(_) => false,
            }
        },
        _ => false,
    }
}

/// What a step of a callback may come to: the step that `spec_step` gives
/// for some code that may have been minted for it.
pub open spec fn step_outcome(
    state: CallbackFlowView,
    event: CallbackEventView,
    step: CallbackStepView,
) -> bool {
    exists|fresh: FreshView|
        minted(fresh, spec_minting(state, event)) && step == #[trigger] spec_step(
            state,
            event,
            fresh,
        )
}

/// Takes the handling of a callback one step on. Where the step needs a
/// new local authorization code, it is minted here.
pub fn callback_step(state: CallbackFlow, event: CallbackEvent) -> (step: CallbackStep)
    ensures
        step_outcome(state@, event@, step_view(step)),
{
    let fresh = if minting(&state, &event) {
        Some(new_token::<16>())
    } else {
        None
    };
    let step = callback_step_with(state, event, fresh);
    proof {
        assert(minted(fresh_view(fresh), spec_minting(state@, event@)));
        assert(step_view(step) == spec_step(state@, event@, fresh_view(fresh)));
    }
    step
}

/// A callback that has been answered takes no further step.
pub proof fn lemma_done_is_final(event: CallbackEventView, fresh: FreshView)
    ensures
        spec_step(CallbackFlowView::Done, event, fresh) == (
            CallbackFlowView::Done,
            CallbackActionView::Ignore,
        ),
{
}

/// What the host reports, with the code that was minted for the step that
/// the report leads to.
pub type Report = (CallbackEventView, FreshView);

/// What a callback asks of the host, one thing after the other, while the
/// host reports `reports` to it.
pub open spec fn actions(state: CallbackFlowView, reports: Seq<Report>) -> Seq<CallbackActionView>
    decreases reports.len(),
{
    if reports.len() == 0 {
        Seq::empty()
    } else {
        let step = spec_step(state, reports[0].0, reports[0].1);
        seq![step.1] + actions(step.0, reports.drop_first())
    }
}

/// A callback that was answered never writes to the store: whatever is
/// reported to it afterwards, it asks for nothing.
pub proof fn lemma_answered_asks_nothing(reports: Seq<Report>, i: int)
    requires
        0 <= i < reports.len(),
    ensures
        actions(CallbackFlowView::Done, reports).len() == reports.len(),
        actions(CallbackFlowView::Done, reports)[i] == CallbackActionView::Ignore,
    decreases reports.len(),
{
    lemma_actions_len(CallbackFlowView::Done, reports);
    lemma_actions_len(CallbackFlowView::Done, reports.drop_first());
    if i > 0 {
        lemma_answered_asks_nothing(reports.drop_first(), i - 1);
    }
}

/// A callback asks for one thing for each report.
pub proof fn lemma_actions_len(state: CallbackFlowView, reports: Seq<Report>)
    ensures
        actions(state, reports).len() == reports.len(),
    decreases reports.len(),
{
    if reports.len() > 0 {
        lemma_actions_len(
            spec_step(state, reports[0].0, reports[0].1).0,
            reports.drop_first(),
        );
    }
}

/// A callback whose `state` names no pending authorization, because none
/// was ever stored under it, or it has expired, or the store could not be
/// read, is answered with a plain 401 and never with a redirect. It ends
/// there.
pub proof fn lemma_unknown_state_is_unauthorized(
    params: CallbackParamsView,
    loaded: Result<Option<AuthorizeStateView>, HandlerErrorView>,
    fresh: FreshView,
)
    requires
        !(loaded matches Ok(Some(_))),
    ensures
        ({
            let first = spec_start(params);
            let second = spec_step(first.0, CallbackEventView::Pending(loaded), fresh);
            &&& first.1 == CallbackActionView::Load(
                KvGetView { kv_name: KV_AUTHORIZE_STATE@, key: params.state },
            )
            &&& second == spec_respond(HttpResponseView::unauthorized())
            &&& HttpResponseView::unauthorized().status == 401
            &&& !HttpResponseView::unauthorized().is_redirect()
        }),
{
}

/// An error that the upstream provider reports goes to the client as it
/// is, with the `state` that the client sent with its authorization request.
pub proof fn lemma_upstream_error_is_forwarded(
    error: ErrorParamsView,
    google_state: Seq<char>,
    pending: AuthorizeStateView,
    fresh: FreshView,
)
    ensures
        spec_step(
            CallbackFlowView::AwaitPending {
                params: CallbackParamsView {
                    params: CallbackEnumView::Error(error),
                    state: google_state,
                },
            },
            CallbackEventView::Pending(Ok(Some(pending))),
            fresh,
        ) == spec_respond(
            spec_error_response(
                pending.client_redirect,
                ErrorResponseView { params: error, state: pending.client_state },
            ),
        ),
{
}

} // verus!
