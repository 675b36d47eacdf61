use oidc_broker::consts::ClientRegistry;
use oidc_broker::consts::ClientSecret;
use oidc_broker::endpoints::authorize::authorize_endpoint::authorize_result;
use oidc_broker::endpoints::authorize::authorize_endpoint::authorize_step;
use oidc_broker::endpoints::authorize::authorize_endpoint::AuthorizeAction;
use oidc_broker::endpoints::authorize::authorize_endpoint::AuthorizeEvent;
use oidc_broker::endpoints::authorize::authorize_endpoint::AuthorizeFlow;
use oidc_broker::endpoints::authorize::authorize_endpoint::AuthorizeParams;
use oidc_broker::endpoints::authorize::authorize_endpoint::ResponseType;
use oidc_broker::endpoints::authorize;
use oidc_broker::endpoints::authorize_error::error;
use oidc_broker::endpoints::authorize_error::error_response;
use oidc_broker::endpoints::authorize_error::AuthorizeErrorCode;
use oidc_broker::endpoints::authorize_error::ErrorParams;
use oidc_broker::endpoints::authorize_error::ErrorResponse;
use oidc_broker::google::AuthUrlRequest;
use oidc_broker::google::GoogleAuthorize;
use oidc_broker::handler_error::HandlerError;
use oidc_broker::http::HttpResponse;
use oidc_broker::http::ResponseBody;
use oidc_broker::state::GenericAuthorizeState;
use oidc_broker::state::KvPut;
use oidc_broker::uri::RedirectUri;

fn registry() -> Result<ClientRegistry, HandlerError> {
    let mut registry = ClientRegistry::new();
    registry.insert(
        "client-1".to_string(),
        ClientSecret {
            redirect_uris: vec![
                RedirectUri::parse("https://client.example/cb").unwrap(),
                RedirectUri::parse("https://client.example/cb2").unwrap(),
            ],
        },
    );
    Ok(registry)
}

fn params(scope: &str) -> AuthorizeParams {
    AuthorizeParams {
        response_type: ResponseType::code,
        client_id: "client-1".to_string(),
        redirect_uri: RedirectUri::parse("https://client.example/cb").unwrap(),
        state: "client state".to_string(),
        nonce: "client-nonce".to_string(),
        scope: scope.to_string(),
    }
}

fn google() -> GoogleAuthorize {
    GoogleAuthorize {
        redirect: "https://accounts.google.com/o/oauth2/v2/auth?client_id=x".to_string(),
        csrf: "csrf-token".to_string(),
        nonce: "google-nonce".to_string(),
    }
}

fn found(location: &str) -> HttpResponse {
    HttpResponse {
        status: 302,
        headers: vec![("location".to_string(), location.to_string())],
        body: ResponseBody::Empty,
    }
}

fn answered(step: (AuthorizeFlow, AuthorizeAction), response: HttpResponse) {
    assert_eq!(step.0, AuthorizeFlow::Done);
    assert_eq!(step.1, AuthorizeAction::Respond(response));
}

#[test]
fn a_valid_request_goes_upstream_and_leaves_a_pending_authorization() {
    let (state, action) = authorize(params("openid groups email profile"), registry());
    assert_eq!(
        action,
        AuthorizeAction::BuildUrl(AuthUrlRequest {
            scopes: vec!["email".to_string(), "email".to_string(), "profile".to_string()],
            csrf_bytes: 23,
        })
    );
    assert_eq!(
        state,
        AuthorizeFlow::AwaitUpstream { params: params("openid groups email profile"), groups_scope: true }
    );
    let (state, action) = authorize_step(state, AuthorizeEvent::Upstream(Ok(google())));
    assert_eq!(
        action,
        AuthorizeAction::Store(KvPut {
            kv_name: "KV_AUTHORIZE_STATE".to_string(),
            key: "csrf-token".to_string(),
            value: GenericAuthorizeState {
                client_id: "client-1".to_string(),
                client_redirect: RedirectUri::parse("https://client.example/cb").unwrap(),
                client_state: "client state".to_string(),
                client_nonce: "client-nonce".to_string(),
                google_nonce: "google-nonce".to_string(),
                groups_scope: true,
            },
            ttl: 600,
        })
    );
    let step = authorize_step(state, AuthorizeEvent::Stored(Ok(())));
    answered(
        step,
        HttpResponse {
            status: 303,
            headers: vec![(
                "location".to_string(),
                "https://accounts.google.com/o/oauth2/v2/auth?client_id=x".to_string(),
            )],
            body: ResponseBody::Empty,
        },
    );
}

#[test]
fn openid_alone_forwards_email_only() {
    let (state, action) = authorize(params("openid"), registry());
    assert_eq!(
        action,
        AuthorizeAction::BuildUrl(AuthUrlRequest { scopes: vec!["email".to_string()], csrf_bytes: 23 })
    );
    assert_eq!(state, AuthorizeFlow::AwaitUpstream { params: params("openid"), groups_scope: false });
}

#[test]
fn a_request_without_openid_is_an_invalid_scope() {
    let step = authorize(params("groups email"), registry());
    answered(
        step,
        found(
            "https://client.example/cb?error=invalid_scope\
             &error_description=scope+field+must+contain+%22openid%22&state=client+state",
        ),
    );
    let step = authorize(params(""), registry());
    answered(
        step,
        found(
            "https://client.example/cb?error=invalid_scope\
             &error_description=scope+field+must+contain+%22openid%22&state=client+state",
        ),
    );
}

#[test]
fn a_scope_outside_the_alphabet_is_an_invalid_scope() {
    let step = authorize(params("openid \"x\""), registry());
    answered(
        step,
        found(
            "https://client.example/cb?error=invalid_scope\
             &error_description=Encountered+invalid+character%28s%29+in+scope%3A+%22%22%22%2C+%22%22%22\
             &state=client+state",
        ),
    );
}

#[test]
fn an_unregistered_client_is_denied() {
    let mut request = params("openid");
    request.client_id = "client-2".to_string();
    let step = authorize(request, registry());
    answered(
        step,
        found(
            "https://client.example/cb?error=access_denied\
             &error_description=Unregistered+client_id&state=client+state",
        ),
    );
}

#[test]
fn an_unregistered_redirect_uri_is_denied() {
    let mut request = params("openid");
    request.redirect_uri = RedirectUri::parse("https://evil.example/cb").unwrap();
    let step = authorize(request, registry());
    answered(
        step,
        found(
            "https://evil.example/cb?error=access_denied\
             &error_description=Unregistered+redirect_uri&state=client+state",
        ),
    );
}

#[test]
fn the_scope_is_checked_before_the_registry() {
    let mut request = params("email");
    request.client_id = "client-2".to_string();
    match authorize_result(&request, registry()) {
        Err(HandlerError::Authorize(p)) => assert_eq!(p.error, AuthorizeErrorCode::InvalidScope),
        other => panic!("{:?}", other),
    }
    match authorize_result(&request, Err(HandlerError::JsonDeserialize("bad".to_string()))) {
        Err(HandlerError::Authorize(p)) => assert_eq!(p.error, AuthorizeErrorCode::InvalidScope),
        other => panic!("{:?}", other),
    }
}

#[test]
fn a_registry_that_cannot_be_read_is_a_server_error() {
    let step = authorize(params("openid"), Err(HandlerError::JsonDeserialize("bad".to_string())));
    answered(step, found("https://client.example/cb?error=server_error&state=client+state"));
}

#[test]
fn an_upstream_failure_is_a_server_error() {
    let (state, _) = authorize(params("openid"), registry());
    let step =
        authorize_step(state, AuthorizeEvent::Upstream(Err(HandlerError::Discovery("down".to_string()))));
    answered(step, found("https://client.example/cb?error=server_error&state=client+state"));
}

#[test]
fn a_pending_authorization_that_cannot_be_stored_is_a_server_error() {
    let (state, _) = authorize(params("openid"), registry());
    let (state, _) = authorize_step(state, AuthorizeEvent::Upstream(Ok(google())));
    let step = authorize_step(state, AuthorizeEvent::Stored(Err(HandlerError::Kv("down".to_string()))));
    answered(step, found("https://client.example/cb?error=server_error&state=client+state"));
}

#[test]
fn an_authorization_report_that_is_not_awaited_changes_nothing() {
    let (state, _) = authorize(params("openid"), registry());
    let (next, action) = authorize_step(state.clone(), AuthorizeEvent::Stored(Ok(())));
    assert_eq!(next, state);
    assert_eq!(action, AuthorizeAction::Ignore);
    let (next, action) = authorize_step(AuthorizeFlow::Done, AuthorizeEvent::Upstream(Ok(google())));
    assert_eq!(next, AuthorizeFlow::Done);
    assert_eq!(action, AuthorizeAction::Ignore);
}

#[test]
fn an_error_is_made_of_code_and_description() {
    let failed: Result<(), HandlerError> =
        error(AuthorizeErrorCode::AccessDenied, "Unregistered client_id".to_string());
    match failed {
        Err(HandlerError::Authorize(p)) => {
            assert_eq!(
                p,
                ErrorParams {
                    error: AuthorizeErrorCode::AccessDenied,
                    error_description: Some("Unregistered client_id".to_string()),
                    error_uri: None,
                }
            );
            assert_eq!(p.message(), "error: access_denied, error_description: Unregistered client_id");
        }
        other => panic!("{:?}", other),
    }
    assert_eq!(ErrorParams::server_error().message(), "error: server_error");
}

#[test]
fn an_error_response_replaces_the_query_of_the_redirect_uri() {
    let response = error_response(
        RedirectUri::parse("https://client.example/cb?keep=no#frag").unwrap(),
        ErrorResponse {
            params: ErrorParams {
                error: AuthorizeErrorCode::Extension("custom_error".to_string()),
                error_description: Some("a&b".to_string()),
                error_uri: Some("https://broker.example/errors/1".to_string()),
            },
            state: "s=1".to_string(),
        },
    );
    assert_eq!(
        response,
        found(
            "https://client.example/cb?error=custom_error&error_description=a%26b\
             &error_uri=https%3A%2F%2Fbroker.example%2Ferrors%2F1&state=s%3D1#frag"
        )
    );
}

#[test]
fn error_codes_are_written_as_the_protocol_names_them() {
    let codes = [
        (AuthorizeErrorCode::AccessDenied, "access_denied"),
        (AuthorizeErrorCode::AccountSelectionRequired, "account_selection_required"),
        (AuthorizeErrorCode::ConsentRequired, "consent_required"),
        (AuthorizeErrorCode::InteractionRequired, "interaction_required"),
        (AuthorizeErrorCode::InvalidRequest, "invalid_request"),
        (AuthorizeErrorCode::InvalidRequestObject, "invalid_request_object"),
        (AuthorizeErrorCode::InvalidRequestUri, "invalid_request_uri"),
        (AuthorizeErrorCode::InvalidScope, "invalid_scope"),
        (AuthorizeErrorCode::LoginRequired, "login_required"),
        (AuthorizeErrorCode::RegistrationNotSupported, "registration_not_supported"),
        (AuthorizeErrorCode::RequestNotSupported, "request_not_supported"),
        (AuthorizeErrorCode::RequestUriNotSupported, "request_uri_not_supported"),
        (AuthorizeErrorCode::ServerError, "server_error"),
        (AuthorizeErrorCode::TemporarilyUnavailable, "temporarily_unavailable"),
        (AuthorizeErrorCode::UnauthorizedClient, "unauthorized_client"),
        (AuthorizeErrorCode::UnsupportedResponseType, "unsupported_response_type"),
        (AuthorizeErrorCode::Extension("other".to_string()), "other"),
    ];
    for (code, text) in codes {
        assert_eq!(code.as_str(), text);
        assert_eq!(AuthorizeErrorCode::from_code(text), code);
    }
}
