use oidc_broker::consts::validate_secrets;
use oidc_broker::consts::Secrets;
use oidc_broker::endpoints::token::token_endpoint::access_token;
use oidc_broker::endpoints::token::token_endpoint::failure;
use oidc_broker::endpoints::token::token_endpoint::refresh_token;
use oidc_broker::endpoints::token::token_endpoint::token;
use oidc_broker::endpoints::token::token_endpoint::token_response;
use oidc_broker::endpoints::token::token_endpoint::token_step;
use oidc_broker::endpoints::token::token_endpoint::token_step_with;
use oidc_broker::endpoints::token::token_endpoint::CodeParams;
use oidc_broker::endpoints::token::token_endpoint::Grant;
use oidc_broker::endpoints::token::token_endpoint::Params;
use oidc_broker::endpoints::token::token_endpoint::TokenAction;
use oidc_broker::endpoints::token::token_endpoint::TokenEvent;
use oidc_broker::endpoints::token::token_endpoint::TokenFlow;
use oidc_broker::endpoints::token::token_endpoint::TokenResponse;
use oidc_broker::endpoints::token_error::TokenErrorCode;
use oidc_broker::endpoints::token_error::TokenErrorResponse;
use oidc_broker::google::RequestTokenError;
use oidc_broker::google::UpstreamTokens;
use oidc_broker::google::VerifiedClaims;
use oidc_broker::handler_error::HandlerError;
use oidc_broker::http::HttpResponse;
use oidc_broker::http::ResponseBody;
use oidc_broker::oidc_token::OidcToken;
use oidc_broker::state::AccessTokenState;
use oidc_broker::state::CommonTokenState;
use oidc_broker::state::GenericAccessTokenState;
use oidc_broker::state::GenericCommonTokenState;
use oidc_broker::state::KvDelete;
use oidc_broker::state::KvGet;
use oidc_broker::state::KvPut;
use oidc_broker::state::RefreshTokenState;
use oidc_broker::uri::RedirectUri;

fn secrets() -> Secrets {
    let values = [
        "{}",
        "https://broker.example",
        "private",
        "{}",
        "admin@example.com",
        "google-client",
        "google-secret",
        "{}",
        "example.com",
    ];
    let lookups: [Result<String, String>; 9] = values.map(|v| Ok(v.to_string()));
    validate_secrets(&lookups).unwrap()
}

fn no_store() -> Vec<(String, String)> {
    vec![
        ("cache-control".to_string(), "no-store".to_string()),
        ("pragma".to_string(), "no-cache".to_string()),
    ]
}

fn common(groups_scope: bool) -> CommonTokenState {
    GenericCommonTokenState {
        client_id: "client-1".to_string(),
        client_nonce: "client-nonce".to_string(),
        google_nonce: "google-nonce".to_string(),
        groups_scope,
    }
}

fn access_state(groups_scope: bool) -> AccessTokenState {
    GenericAccessTokenState {
        common: common(groups_scope),
        client_redirect: RedirectUri::parse("https://client.example/cb").unwrap(),
        google_code: "google-code".to_string(),
    }
}

fn refresh_state(groups_scope: bool) -> RefreshTokenState {
    RefreshTokenState { common: common(groups_scope), google_refresh: "google-refresh".to_string() }
}

fn code_params() -> CodeParams {
    CodeParams {
        code: "local-code".to_string(),
        redirect_uri: RedirectUri::parse("https://client.example/cb").unwrap(),
        client_id: "client-1".to_string(),
    }
}

fn tokens(refresh: Option<&str>) -> UpstreamTokens {
    UpstreamTokens {
        id_token: Some(Ok(VerifiedClaims {
            email: Some("user@example.com".to_string()),
            subject: "subject-7".to_string(),
            issue_time: 1_700_000_000,
            expiration: 1_700_003_600,
        })),
        refresh_token: refresh.map(|r| r.to_string()),
    }
}

fn claims(groups: Option<Vec<String>>) -> OidcToken {
    OidcToken {
        iss: "https://broker.example".to_string(),
        aud: "client-1".to_string(),
        sub: "subject-7".to_string(),
        exp: 1_700_003_600,
        iat: 1_700_000_000,
        nonce: "client-nonce".to_string(),
        groups,
    }
}

fn error_body(response: &HttpResponse) -> &TokenErrorResponse {
    match &response.body {
        ResponseBody::TokenError(e) => e,
        other => panic!("{:?}", other),
    }
}

fn refused(action: &TokenAction, code: TokenErrorCode, description: Option<&str>) {
    match action {
        TokenAction::Respond(response) => {
            assert_eq!(response.status, 400);
            assert_eq!(response.headers, no_store());
            let body = error_body(response);
            assert_eq!(body.error(), &code);
            assert_eq!(body.error_description().map(|d| d.as_str()), description);
            assert_eq!(body.error_uri(), None);
        }
        other => panic!("{:?}", other),
    }
}

fn token_body(action: TokenAction) -> TokenResponse {
    match action {
        TokenAction::Respond(response) => {
            assert_eq!(response.status, 200);
            assert_eq!(response.headers, no_store());
            match response.body {
                ResponseBody::Token(t) => t,
                other => panic!("{:?}", other),
            }
        }
        other => panic!("{:?}", other),
    }
}

#[test]
fn a_code_request_asks_for_the_record_under_the_code() {
    let (state, action) = token(Params::Code(code_params()));
    assert_eq!(state, TokenFlow::AwaitAccessState { params: code_params() });
    assert_eq!(
        action,
        TokenAction::LoadAccessState(KvGet {
            kv_name: "KV_ACCESS_TOKEN_STATE".to_string(),
            key: "local-code".to_string()
        })
    );
}

#[test]
fn a_refresh_request_asks_for_the_record_under_the_token() {
    let (state, action) = token(Params::Refresh { refresh_token: "local-refresh".to_string() });
    assert_eq!(state, TokenFlow::AwaitRefreshState { refresh_token: "local-refresh".to_string() });
    assert_eq!(
        action,
        TokenAction::LoadRefreshState(KvGet {
            kv_name: "KV_REFRESH_TOKEN_STATE".to_string(),
            key: "local-refresh".to_string()
        })
    );
}

#[test]
fn an_unknown_code_is_an_invalid_grant() {
    let (state, action) = access_token(code_params(), Ok(None));
    assert_eq!(state, TokenFlow::Done);
    refused(&action, TokenErrorCode::InvalidGrant, Some("Invalid code"));
}

#[test]
fn a_code_of_another_client_is_an_invalid_grant() {
    let mut params = code_params();
    params.client_id = "client-2".to_string();
    let (state, action) = access_token(params, Ok(Some(access_state(false))));
    assert_eq!(state, TokenFlow::Done);
    refused(&action, TokenErrorCode::InvalidGrant, Some("Invalid code"));
}

#[test]
fn a_code_with_another_redirect_uri_is_an_invalid_grant() {
    let mut params = code_params();
    params.redirect_uri = RedirectUri::parse("https://client.example/other").unwrap();
    let (state, action) = access_token(params, Ok(Some(access_state(false))));
    assert_eq!(state, TokenFlow::Done);
    refused(
        &action,
        TokenErrorCode::InvalidGrant,
        Some("redirect_url does not match registered"),
    );
}

#[test]
fn a_mismatch_of_both_reports_the_client_first() {
    let mut params = code_params();
    params.client_id = "client-2".to_string();
    params.redirect_uri = RedirectUri::parse("https://client.example/other").unwrap();
    let (_, action) = access_token(params, Ok(Some(access_state(false))));
    refused(&action, TokenErrorCode::InvalidGrant, Some("Invalid code"));
}

#[test]
fn a_store_failure_is_a_server_error() {
    let (state, action) = access_token(code_params(), Err(HandlerError::Kv("down".to_string())));
    assert_eq!(state, TokenFlow::Done);
    refused(&action, TokenErrorCode::ServerError, None);
    let (state, action) =
        refresh_token("local-refresh".to_string(), Err(HandlerError::CborSerialize("bad".to_string())));
    assert_eq!(state, TokenFlow::Done);
    refused(&action, TokenErrorCode::ServerError, None);
}

#[test]
fn a_matching_code_is_exchanged_upstream() {
    let (state, action) = access_token(code_params(), Ok(Some(access_state(true))));
    assert_eq!(state, TokenFlow::AwaitExchange { grant: Grant::Code { common: common(true) } });
    assert_eq!(
        action,
        TokenAction::ExchangeCode {
            code: "google-code".to_string(),
            nonce: "google-nonce".to_string()
        }
    );
}

#[test]
fn a_code_grant_without_groups_runs_to_the_tokens() {
    let secrets = secrets();
    let (state, _) = token(Params::Code(code_params()));
    let (state, _) =
        token_step(&secrets, state, TokenEvent::AccessState(Ok(Some(access_state(false)))));
    let (state, action) =
        token_step(&secrets, state, TokenEvent::Exchanged(Ok(Ok(tokens(Some("google-refresh"))))));
    assert_eq!(action, TokenAction::Sign(claims(None)));
    let (state, action) = token_step(&secrets, state, TokenEvent::Signed(Ok("signed.jwt".to_string())));
    let local_refresh = match (&state, &action) {
        (TokenFlow::AwaitStored { id_token, refresh_token }, TokenAction::Store(put)) => {
            assert_eq!(id_token, "signed.jwt");
            assert_eq!(refresh_token.len(), 43);
            assert_eq!(
                put,
                &KvPut {
                    kv_name: "KV_REFRESH_TOKEN_STATE".to_string(),
                    key: refresh_token.clone(),
                    value: refresh_state(false),
                    ttl: 31_449_600,
                }
            );
            refresh_token.clone()
        }
        other => panic!("{:?}", other),
    };
    let (state, action) = token_step(&secrets, state, TokenEvent::Stored(Ok(())));
    assert_eq!(state, TokenFlow::Done);
    let body = token_body(action);
    assert_eq!(body.access_token.len(), 22);
    assert_eq!(body.token_type, "Bearer");
    assert_eq!(body.expires_in, 3600);
    assert_eq!(body.refresh_token, Some(local_refresh));
    assert_eq!(body.id_token, "signed.jwt");
}

#[test]
fn a_code_grant_with_groups_asks_the_directory_first() {
    let secrets = secrets();
    let state = TokenFlow::AwaitExchange { grant: Grant::Code { common: common(true) } };
    let (state, action) = token_step(&secrets, state, TokenEvent::Exchanged(Ok(Ok(tokens(None)))));
    assert_eq!(action, TokenAction::ResolveGroups { email: "user@example.com".to_string() });
    let (state, action) = token_step(
        &secrets,
        state,
        TokenEvent::Groups(Ok(vec!["staff".to_string(), "admins".to_string()])),
    );
    assert_eq!(
        action,
        TokenAction::Sign(claims(Some(vec!["staff".to_string(), "admins".to_string()])))
    );
    let (state, action) = token_step(&secrets, state, TokenEvent::Signed(Ok("signed.jwt".to_string())));
    assert_eq!(state, TokenFlow::Done);
    let body = token_body(action);
    assert_eq!(body.refresh_token, None);
    assert_eq!(body.id_token, "signed.jwt");
    assert_eq!(body.access_token.len(), 22);
}

#[test]
fn groups_that_cannot_be_resolved_fail_the_grant() {
    let secrets = secrets();
    let state = TokenFlow::AwaitExchange { grant: Grant::Code { common: common(true) } };
    let (state, _) = token_step(&secrets, state, TokenEvent::Exchanged(Ok(Ok(tokens(None)))));
    let (state, action) = token_step(
        &secrets,
        state,
        TokenEvent::Groups(Err(HandlerError::GroupsAdminApi("403".to_string()))),
    );
    assert_eq!(state, TokenFlow::Done);
    refused(&action, TokenErrorCode::ServerError, None);
}

#[test]
fn an_empty_list_of_groups_is_still_a_list() {
    let secrets = secrets();
    let state = TokenFlow::AwaitExchange { grant: Grant::Code { common: common(true) } };
    let (state, _) = token_step(&secrets, state, TokenEvent::Exchanged(Ok(Ok(tokens(None)))));
    let (_, action) = token_step(&secrets, state, TokenEvent::Groups(Ok(vec![])));
    assert_eq!(action, TokenAction::Sign(claims(Some(vec![]))));
}

#[test]
fn a_missing_id_token_is_a_server_error() {
    let secrets = secrets();
    let state = TokenFlow::AwaitExchange { grant: Grant::Code { common: common(false) } };
    let response = UpstreamTokens { id_token: None, refresh_token: Some("r".to_string()) };
    let (state, action) = token_step(&secrets, state, TokenEvent::Exchanged(Ok(Ok(response))));
    assert_eq!(state, TokenFlow::Done);
    refused(&action, TokenErrorCode::ServerError, None);
}

#[test]
fn a_missing_email_is_a_server_error() {
    let secrets = secrets();
    let state = TokenFlow::AwaitExchange { grant: Grant::Code { common: common(false) } };
    let mut response = tokens(None);
    response.id_token = Some(Ok(VerifiedClaims {
        email: None,
        subject: "subject-7".to_string(),
        issue_time: 1,
        expiration: 2,
    }));
    let (state, action) = token_step(&secrets, state, TokenEvent::Exchanged(Ok(Ok(response))));
    assert_eq!(state, TokenFlow::Done);
    refused(&action, TokenErrorCode::ServerError, None);
}

#[test]
fn an_upstream_error_for_a_code_goes_to_the_client_as_it_is() {
    let secrets = secrets();
    let state = TokenFlow::AwaitExchange { grant: Grant::Code { common: common(false) } };
    let upstream = TokenErrorResponse::new(
        TokenErrorCode::InvalidGrant,
        Some("Bad code".to_string()),
        Some("https://upstream.example/errors".to_string()),
    );
    let (state, action) = token_step(
        &secrets,
        state,
        TokenEvent::Exchanged(Ok(Err(RequestTokenError::ServerResponse(upstream.clone())))),
    );
    assert_eq!(state, TokenFlow::Done);
    match action {
        TokenAction::Respond(response) => {
            assert_eq!(response.status, 400);
            assert_eq!(response.headers, no_store());
            assert_eq!(response.body, ResponseBody::TokenError(upstream));
        }
        other => panic!("{:?}", other),
    }
}

#[test]
fn a_revoked_credential_removes_the_refresh_state() {
    let secrets = secrets();
    let (state, _) = token(Params::Refresh { refresh_token: "local-refresh".to_string() });
    let (state, action) =
        token_step(&secrets, state, TokenEvent::RefreshState(Ok(Some(refresh_state(false)))));
    assert_eq!(
        action,
        TokenAction::ExchangeRefresh {
            credential: "google-refresh".to_string(),
            nonce: "google-nonce".to_string()
        }
    );
    let upstream =
        TokenErrorResponse::new(TokenErrorCode::InvalidGrant, Some("Token revoked".to_string()), None);
    let (state, action) = token_step(
        &secrets,
        state,
        TokenEvent::Exchanged(Ok(Err(RequestTokenError::ServerResponse(upstream.clone())))),
    );
    assert_eq!(state, TokenFlow::AwaitRevoked { error: upstream.clone() });
    assert_eq!(
        action,
        TokenAction::Revoke(KvDelete {
            kv_name: "KV_REFRESH_TOKEN_STATE".to_string(),
            key: "local-refresh".to_string()
        })
    );
    let (state, action) = token_step(&secrets, state, TokenEvent::Revoked(Ok(())));
    assert_eq!(state, TokenFlow::Done);
    refused(&action, TokenErrorCode::InvalidGrant, Some("Token revoked"));

    let (state, _) = token(Params::Refresh { refresh_token: "local-refresh".to_string() });
    let (state, action) = token_step(&secrets, state, TokenEvent::RefreshState(Ok(None)));
    assert_eq!(state, TokenFlow::Done);
    refused(&action, TokenErrorCode::InvalidGrant, Some("Invalid refresh_token"));
}

#[test]
fn a_removal_that_fails_is_a_server_error() {
    let secrets = secrets();
    let upstream = TokenErrorResponse::new(TokenErrorCode::InvalidGrant, None, None);
    let state = TokenFlow::AwaitRevoked { error: upstream };
    let (state, action) =
        token_step(&secrets, state, TokenEvent::Revoked(Err(HandlerError::Kv("down".to_string()))));
    assert_eq!(state, TokenFlow::Done);
    refused(&action, TokenErrorCode::ServerError, None);
}

#[test]
fn other_upstream_errors_leave_the_refresh_state_alone() {
    let secrets = secrets();
    let grant = Grant::Refresh {
        refresh_token: "local-refresh".to_string(),
        state: refresh_state(false),
    };
    let upstream = TokenErrorResponse::new(TokenErrorCode::InvalidClient, None, None);
    let (state, action) = token_step(
        &secrets,
        TokenFlow::AwaitExchange { grant: grant.clone() },
        TokenEvent::Exchanged(Ok(Err(RequestTokenError::ServerResponse(upstream)))),
    );
    assert_eq!(state, TokenFlow::Done);
    refused(&action, TokenErrorCode::InvalidClient, None);

    let (state, action) = token_step(
        &secrets,
        TokenFlow::AwaitExchange { grant: grant.clone() },
        TokenEvent::Exchanged(Ok(Err(RequestTokenError::Other("timeout".to_string())))),
    );
    assert_eq!(state, TokenFlow::Done);
    refused(&action, TokenErrorCode::ServerError, None);

    let (state, action) = token_step(
        &secrets,
        TokenFlow::AwaitExchange { grant },
        TokenEvent::Exchanged(Err(HandlerError::Discovery("unreachable".to_string()))),
    );
    assert_eq!(state, TokenFlow::Done);
    refused(&action, TokenErrorCode::ServerError, None);
}

#[test]
fn a_refresh_keeps_the_local_refresh_token() {
    let secrets = secrets();
    let grant = Grant::Refresh {
        refresh_token: "local-refresh".to_string(),
        state: refresh_state(false),
    };
    for upstream_refresh in [None, Some("google-refresh")] {
        let (state, action) = token_step(
            &secrets,
            TokenFlow::AwaitExchange { grant: grant.clone() },
            TokenEvent::Exchanged(Ok(Ok(tokens(upstream_refresh)))),
        );
        assert_eq!(action, TokenAction::Sign(claims(None)));
        let (state, action) =
            token_step(&secrets, state, TokenEvent::Signed(Ok("signed.jwt".to_string())));
        assert_eq!(state, TokenFlow::Done);
        let body = token_body(action);
        assert_eq!(body.refresh_token, Some("local-refresh".to_string()));
        assert_eq!(body.id_token, "signed.jwt");
        assert_eq!(body.access_token.len(), 22);
        assert_eq!(body.token_type, "Bearer");
        assert_eq!(body.expires_in, 3600);
    }
}

#[test]
fn a_replaced_credential_is_stored_under_the_same_token() {
    let secrets = secrets();
    let grant = Grant::Refresh {
        refresh_token: "local-refresh".to_string(),
        state: refresh_state(true),
    };
    let (state, _) = token_step(
        &secrets,
        TokenFlow::AwaitExchange { grant },
        TokenEvent::Exchanged(Ok(Ok(tokens(Some("google-refresh-2"))))),
    );
    let (state, _) = token_step(&secrets, state, TokenEvent::Groups(Ok(vec!["staff".to_string()])));
    let (state, action) = token_step(&secrets, state, TokenEvent::Signed(Ok("signed.jwt".to_string())));
    assert_eq!(
        action,
        TokenAction::Store(KvPut {
            kv_name: "KV_REFRESH_TOKEN_STATE".to_string(),
            key: "local-refresh".to_string(),
            value: RefreshTokenState {
                common: common(true),
                google_refresh: "google-refresh-2".to_string()
            },
            ttl: 31_449_600,
        })
    );
    let (state, action) = token_step(&secrets, state, TokenEvent::Stored(Ok(())));
    assert_eq!(state, TokenFlow::Done);
    assert_eq!(token_body(action).refresh_token, Some("local-refresh".to_string()));
}

#[test]
fn a_signature_that_fails_is_a_server_error() {
    let secrets = secrets();
    let state = TokenFlow::AwaitSignature {
        grant: Grant::Code { common: common(false) },
        google_refresh: Some("google-refresh".to_string()),
    };
    let (state, action) = token_step(
        &secrets,
        state,
        TokenEvent::Signed(Err(HandlerError::JwtIdToken("bad key".to_string()))),
    );
    assert_eq!(state, TokenFlow::Done);
    refused(&action, TokenErrorCode::ServerError, None);
}

#[test]
fn a_write_that_fails_is_a_server_error() {
    let secrets = secrets();
    let state = TokenFlow::AwaitStored {
        id_token: "signed.jwt".to_string(),
        refresh_token: "local-refresh".to_string(),
    };
    let (state, action) =
        token_step(&secrets, state, TokenEvent::Stored(Err(HandlerError::Kv("down".to_string()))));
    assert_eq!(state, TokenFlow::Done);
    refused(&action, TokenErrorCode::ServerError, None);
}

#[test]
fn a_report_that_is_not_awaited_changes_nothing() {
    let secrets = secrets();
    let state = TokenFlow::AwaitExchange { grant: Grant::Code { common: common(false) } };
    let (next, action) = token_step(&secrets, state.clone(), TokenEvent::Stored(Ok(())));
    assert_eq!(next, state);
    assert_eq!(action, TokenAction::Ignore);
    let (next, action) =
        token_step(&secrets, TokenFlow::Done, TokenEvent::Signed(Ok("signed.jwt".to_string())));
    assert_eq!(next, TokenFlow::Done);
    assert_eq!(action, TokenAction::Ignore);
}

#[test]
fn a_step_uses_the_token_that_it_is_given() {
    let secrets = secrets();
    let state = TokenFlow::AwaitStored {
        id_token: "signed.jwt".to_string(),
        refresh_token: "local-refresh".to_string(),
    };
    let (_, action) = token_step_with(
        &secrets,
        state.clone(),
        TokenEvent::Stored(Ok(())),
        Some(Ok("access-1".to_string())),
    );
    assert_eq!(
        token_body(action),
        TokenResponse {
            access_token: "access-1".to_string(),
            token_type: "Bearer".to_string(),
            expires_in: 3600,
            refresh_token: Some("local-refresh".to_string()),
            id_token: "signed.jwt".to_string(),
        }
    );
    let (_, action) = token_step_with(&secrets, state, TokenEvent::Stored(Ok(())), None);
    refused(&action, TokenErrorCode::ServerError, None);

    let state = TokenFlow::AwaitSignature {
        grant: Grant::Code { common: common(false) },
        google_refresh: Some("google-refresh".to_string()),
    };
    let (state, action) = token_step_with(
        &secrets,
        state,
        TokenEvent::Signed(Ok("signed.jwt".to_string())),
        Some(Ok("refresh-1".to_string())),
    );
    assert_eq!(
        state,
        TokenFlow::AwaitStored {
            id_token: "signed.jwt".to_string(),
            refresh_token: "refresh-1".to_string()
        }
    );
    assert_eq!(
        action,
        TokenAction::Store(KvPut {
            kv_name: "KV_REFRESH_TOKEN_STATE".to_string(),
            key: "refresh-1".to_string(),
            value: refresh_state(false),
            ttl: 31_449_600,
        })
    );
}

#[test]
fn a_token_response_is_a_bearer_token_for_an_hour() {
    let response = token_response("id".to_string(), None, "access".to_string());
    assert_eq!(
        response,
        HttpResponse {
            status: 200,
            headers: no_store(),
            body: ResponseBody::Token(TokenResponse {
                access_token: "access".to_string(),
                token_type: "Bearer".to_string(),
                expires_in: 3600,
                refresh_token: None,
                id_token: "id".to_string(),
            }),
        }
    );
}

#[test]
fn a_failure_tells_the_client_no_more_than_its_code() {
    let response = failure(HandlerError::KvMissing {
        kv_name: "KV_CACHE".to_string(),
        key: "secret-key".to_string(),
    });
    assert_eq!(response.status, 400);
    assert_eq!(response.headers, no_store());
    assert_eq!(response.body, ResponseBody::TokenError(TokenErrorResponse::server_error()));
    let owed = TokenErrorResponse::new(TokenErrorCode::InvalidRequest, Some("why".to_string()), None);
    let response = failure(HandlerError::Token(owed.clone()));
    assert_eq!(response.status, 400);
    assert_eq!(response.body, ResponseBody::TokenError(owed));
}
