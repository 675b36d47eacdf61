use oidc_broker::endpoints::authorize_error::AuthorizeErrorCode;
use oidc_broker::endpoints::authorize_error::ErrorParams;
use oidc_broker::endpoints::callback;
use oidc_broker::endpoints::callback::callback_result;
use oidc_broker::endpoints::callback::callback_step;
use oidc_broker::endpoints::callback::callback_step_with;
use oidc_broker::endpoints::callback::fetch_authorize_state;
use oidc_broker::endpoints::callback::CallbackAction;
use oidc_broker::endpoints::callback::CallbackEnum;
use oidc_broker::endpoints::callback::CallbackEvent;
use oidc_broker::endpoints::callback::CallbackFlow;
use oidc_broker::endpoints::callback::CallbackParams;
use oidc_broker::handler_error::HandlerError;
use oidc_broker::http::HttpResponse;
use oidc_broker::http::ResponseBody;
use oidc_broker::state::AuthorizeState;
use oidc_broker::state::GenericAccessTokenState;
use oidc_broker::state::GenericAuthorizeState;
use oidc_broker::state::GenericCommonTokenState;
use oidc_broker::state::KvGet;
use oidc_broker::state::KvPut;
use oidc_broker::uri::RedirectUri;

fn pending() -> AuthorizeState {
    GenericAuthorizeState {
        client_id: "client-1".to_string(),
        client_redirect: RedirectUri::parse("https://client.example/cb?tenant=7").unwrap(),
        client_state: "client state".to_string(),
        client_nonce: "client-nonce".to_string(),
        google_nonce: "google-nonce".to_string(),
        groups_scope: true,
    }
}

fn code_params() -> CallbackParams {
    CallbackParams {
        params: CallbackEnum::Callback { code: "google-code".to_string() },
        state: "csrf-token".to_string(),
    }
}

fn error_params() -> CallbackParams {
    CallbackParams {
        params: CallbackEnum::Error(ErrorParams {
            error: AuthorizeErrorCode::AccessDenied,
            error_description: Some("The user said no".to_string()),
            error_uri: None,
        }),
        state: "csrf-token".to_string(),
    }
}

fn unauthorized() -> HttpResponse {
    HttpResponse { status: 401, headers: vec![], body: ResponseBody::Empty }
}

fn found(location: &str) -> HttpResponse {
    HttpResponse {
        status: 302,
        headers: vec![("location".to_string(), location.to_string())],
        body: ResponseBody::Empty,
    }
}

#[test]
fn a_callback_asks_for_the_pending_authorization_under_its_state() {
    let (state, action) = callback(code_params());
    assert_eq!(state, CallbackFlow::AwaitPending { params: code_params() });
    assert_eq!(
        action,
        CallbackAction::Load(KvGet {
            kv_name: "KV_AUTHORIZE_STATE".to_string(),
            key: "csrf-token".to_string()
        })
    );
}

#[test]
fn an_unknown_state_is_unauthorized() {
    for params in [code_params(), error_params()] {
        let (state, _) = callback(params);
        let (state, action) = callback_step(state, CallbackEvent::Pending(Ok(None)));
        assert_eq!(state, CallbackFlow::Done);
        assert_eq!(action, CallbackAction::Respond(unauthorized()));
    }
}

#[test]
fn a_store_that_cannot_be_read_is_unauthorized() {
    let (state, _) = callback(code_params());
    let (state, action) =
        callback_step(state, CallbackEvent::Pending(Err(HandlerError::Kv("down".to_string()))));
    assert_eq!(state, CallbackFlow::Done);
    assert_eq!(action, CallbackAction::Respond(unauthorized()));
}

#[test]
fn an_absent_record_is_a_missing_entry() {
    match fetch_authorize_state("csrf-token", Ok(None)) {
        Err(HandlerError::KvMissing { kv_name, key }) => {
            assert_eq!(kv_name, "KV_AUTHORIZE_STATE");
            assert_eq!(key, "csrf-token");
        }
        other => panic!("{:?}", other),
    }
    assert_eq!(fetch_authorize_state("csrf-token", Ok(Some(pending()))).unwrap(), pending());
    assert!(matches!(
        fetch_authorize_state("csrf-token", Err(HandlerError::Kv("down".to_string()))),
        Err(HandlerError::Kv(_))
    ));
}

#[test]
fn an_upstream_error_is_forwarded_with_the_clients_state() {
    let (state, _) = callback(error_params());
    let (state, action) = callback_step(state, CallbackEvent::Pending(Ok(Some(pending()))));
    assert_eq!(state, CallbackFlow::Done);
    assert_eq!(
        action,
        CallbackAction::Respond(found(
            "https://client.example/cb?error=access_denied\
             &error_description=The+user+said+no&state=client+state"
        ))
    );
}

#[test]
fn an_upstream_code_is_traded_for_a_local_code() {
    let (state, _) = callback(code_params());
    let (state, action) = callback_step(state, CallbackEvent::Pending(Ok(Some(pending()))));
    let client_code = match (&state, &action) {
        (
            CallbackFlow::AwaitStored { client_code, client_redirect, client_state },
            CallbackAction::Store(put),
        ) => {
            assert_eq!(client_code.len(), 22);
            assert_eq!(client_redirect.as_str(), "https://client.example/cb?tenant=7");
            assert_eq!(client_state, "client state");
            assert_eq!(
                put,
                &KvPut {
                    kv_name: "KV_ACCESS_TOKEN_STATE".to_string(),
                    key: client_code.clone(),
                    value: GenericAccessTokenState {
                        common: GenericCommonTokenState {
                            client_id: "client-1".to_string(),
                            client_nonce: "client-nonce".to_string(),
                            google_nonce: "google-nonce".to_string(),
                            groups_scope: true,
                        },
                        client_redirect: RedirectUri::parse("https://client.example/cb?tenant=7")
                            .unwrap(),
                        google_code: "google-code".to_string(),
                    },
                    ttl: 600,
                }
            );
            client_code.clone()
        }
        other => panic!("{:?}", other),
    };
    let (state, action) = callback_step(state, CallbackEvent::Stored(Ok(())));
    assert_eq!(state, CallbackFlow::Done);
    assert_eq!(
        action,
        CallbackAction::Respond(found(&format!(
            "https://client.example/cb?tenant=7&code={}&state=client+state",
            client_code
        )))
    );
}

#[test]
fn a_callback_uses_the_code_that_it_is_given() {
    let (state, action) = callback_result(pending(), "google-code".to_string(), "local code".to_string());
    assert!(matches!(&action, CallbackAction::Store(put) if put.key == "local code"));
    let (state, action) = callback_step_with(state, CallbackEvent::Stored(Ok(())), None);
    assert_eq!(state, CallbackFlow::Done);
    assert_eq!(
        action,
        CallbackAction::Respond(found(
            "https://client.example/cb?tenant=7&code=local+code&state=client+state"
        ))
    );
    assert!(matches!(action, CallbackAction::Respond(_)));
}

#[test]
fn a_callback_without_a_code_to_give_is_unauthorized() {
    let (state, _) = callback(code_params());
    let (state, action) =
        callback_step_with(state, CallbackEvent::Pending(Ok(Some(pending()))), None);
    assert_eq!(state, CallbackFlow::Done);
    assert_eq!(action, CallbackAction::Respond(unauthorized()));
}

#[test]
fn an_access_state_that_cannot_be_stored_is_unauthorized() {
    let (state, _) = callback_result(pending(), "google-code".to_string(), "local-code".to_string());
    let (state, action) =
        callback_step(state, CallbackEvent::Stored(Err(HandlerError::Kv("down".to_string()))));
    assert_eq!(state, CallbackFlow::Done);
    assert_eq!(action, CallbackAction::Respond(unauthorized()));
}

#[test]
fn a_callback_report_that_is_not_awaited_changes_nothing() {
    let (state, _) = callback(code_params());
    let (next, action) = callback_step(state.clone(), CallbackEvent::Stored(Ok(())));
    assert_eq!(next, state);
    assert_eq!(action, CallbackAction::Ignore);
    let (next, action) = callback_step(CallbackFlow::Done, CallbackEvent::Pending(Ok(None)));
    assert_eq!(next, CallbackFlow::Done);
    assert_eq!(action, CallbackAction::Ignore);
}
