use oidc_broker::consts::validate_secrets;
use oidc_broker::consts::Secrets;
use oidc_broker::endpoints::jwks;
use oidc_broker::endpoints::jwks::JwkSet;
use oidc_broker::endpoints::token_error::error;
use oidc_broker::endpoints::token_error::error_response;
use oidc_broker::endpoints::token_error::TokenErrorCode;
use oidc_broker::endpoints::token_error::TokenErrorResponse;
use oidc_broker::endpoints::well_known::openid_configuration;
use oidc_broker::endpoints::well_known::openid_configuration::OpenidConfiguration;
use oidc_broker::handler_error::HandlerError;
use oidc_broker::http::HttpResponse;
use oidc_broker::http::ResponseBody;
use oidc_broker::text::join_lines;

fn strings(items: &[&str]) -> Vec<String> {
    items.iter().map(|s| s.to_string()).collect()
}

fn secrets() -> Secrets {
    let values = [
        "{}",
        "https://broker.example",
        "private",
        "{\"kty\":\"RSA\",\"n\":\"abc\",\"e\":\"AQAB\"}",
        "admin@example.com",
        "google-client",
        "google-secret",
        "{}",
        "example.com",
    ];
    let lookups: [Result<String, String>; 9] = values.map(|v| Ok(v.to_string()));
    validate_secrets(&lookups).unwrap()
}

#[test]
fn the_discovery_document_is_derived_from_the_base_url() {
    assert_eq!(
        openid_configuration(&secrets()),
        OpenidConfiguration {
            issuer: "https://broker.example".to_string(),
            authorization_endpoint: "https://broker.example/authorize".to_string(),
            token_endpoint: "https://broker.example/token".to_string(),
            jwks_uri: "https://broker.example/jwks".to_string(),
            response_types_supported: strings(&["code", "none"]),
            subject_types_supported: strings(&["public"]),
            id_token_signing_alg_values_supported: strings(&["RS256"]),
            scopes_supported: strings(&["openid", "email"]),
            token_endpoint_auth_methods_supported: strings(&[
                "client_secret_post",
                "client_secret_basic"
            ]),
            claims_supported: strings(&["aud", "email", "exp", "groups", "iat", "iss", "sub"]),
            code_challenge_methods_supported: strings(&["plain", "S256"]),
            grant_types_supported: strings(&["authorization_code", "refresh_token"]),
        }
    );
}

#[test]
fn the_key_set_holds_the_one_public_key() {
    assert_eq!(
        jwks(&secrets()),
        JwkSet { keys: strings(&["{\"kty\":\"RSA\",\"n\":\"abc\",\"e\":\"AQAB\"}"]) }
    );
}

#[test]
fn a_token_error_is_a_bad_request_that_is_never_cached() {
    let owed = TokenErrorResponse::new(
        TokenErrorCode::InvalidGrant,
        Some("Invalid code".to_string()),
        None,
    );
    assert_eq!(
        error_response(owed.clone()),
        HttpResponse {
            status: 400,
            headers: vec![
                ("cache-control".to_string(), "no-store".to_string()),
                ("pragma".to_string(), "no-cache".to_string()),
            ],
            body: ResponseBody::TokenError(owed),
        }
    );
}

#[test]
fn a_token_error_is_made_of_code_and_description() {
    let failed: Result<(), HandlerError> =
        error(TokenErrorCode::InvalidGrant, Some("Invalid code".to_string()));
    match failed {
        Err(HandlerError::Token(e)) => {
            assert_eq!(e.error(), &TokenErrorCode::InvalidGrant);
            assert!(e.error().is_invalid_grant());
            assert_eq!(e.error_description(), Some(&"Invalid code".to_string()));
            assert_eq!(e.error_uri(), None);
        }
        other => panic!("{:?}", other),
    }
    let failed: Result<u8, HandlerError> = error(TokenErrorCode::InvalidClient, None);
    assert!(matches!(
        failed,
        Err(HandlerError::Token(e)) if e == TokenErrorResponse::new(TokenErrorCode::InvalidClient, None, None)
    ));
}

#[test]
fn token_error_codes_are_written_as_the_protocol_names_them() {
    let codes = [
        (TokenErrorCode::InvalidClient, "invalid_client"),
        (TokenErrorCode::InvalidGrant, "invalid_grant"),
        (TokenErrorCode::InvalidRequest, "invalid_request"),
        (TokenErrorCode::InvalidScope, "invalid_scope"),
        (TokenErrorCode::UnauthorizedClient, "unauthorized_client"),
        (TokenErrorCode::UnsupportedGrantType, "unsupported_grant_type"),
        (TokenErrorCode::ServerError, "server_error"),
        (TokenErrorCode::Extension("slow_down".to_string()), "slow_down"),
    ];
    for (code, text) in codes {
        assert_eq!(code.as_str(), text);
        assert_eq!(TokenErrorCode::from_code(text), code);
        assert_eq!(code.is_invalid_grant(), text == "invalid_grant");
    }
    assert!(!TokenErrorCode::Extension("invalid_grant".to_string()).is_invalid_grant());
}

#[test]
fn bare_responses_hold_a_status_alone() {
    assert_eq!(
        HttpResponse::unauthorized(),
        HttpResponse { status: 401, headers: vec![], body: ResponseBody::Empty }
    );
    assert_eq!(
        HttpResponse::internal_error(),
        HttpResponse { status: 500, headers: vec![], body: ResponseBody::Empty }
    );
    assert_eq!(
        HttpResponse::found("https://a.example/".to_string()),
        HttpResponse {
            status: 302,
            headers: vec![("location".to_string(), "https://a.example/".to_string())],
            body: ResponseBody::Empty
        }
    );
    assert_eq!(HttpResponse::see_other("https://a.example/".to_string()).status, 303);
}

#[test]
fn lines_are_joined_by_line_feeds() {
    assert_eq!(join_lines(&strings(&[])), "");
    assert_eq!(join_lines(&strings(&["one"])), "one");
    assert_eq!(join_lines(&strings(&["one", "", "three"])), "one\n\nthree");
}

#[test]
fn failures_are_described_for_the_log() {
    assert_eq!(
        HandlerError::KvMissing { kv_name: "KV_AUTHORIZE_STATE".to_string(), key: "abc".to_string() }
            .message(),
        "Missing entry \"abc\" from store \"KV_AUTHORIZE_STATE\""
    );
    assert_eq!(
        HandlerError::MissingIdToken.message(),
        "Google Oauth response did not contain an id_token."
    );
    assert_eq!(
        HandlerError::MissingEmailClaim.message(),
        "Google Oauth response did not include an email claim."
    );
    assert_eq!(HandlerError::Kv("kv is down".to_string()).message(), "kv is down");
    assert_eq!(HandlerError::InvalidClaims("bad nonce".to_string()).message(), "bad nonce");
    assert_eq!(
        HandlerError::Token(TokenErrorResponse::new(
            TokenErrorCode::InvalidGrant,
            Some("Token revoked".to_string()),
            Some("https://upstream.example/e".to_string())
        ))
        .message(),
        "invalid_grant: Token revoked / See https://upstream.example/e"
    );
    assert_eq!(
        HandlerError::Token(TokenErrorResponse::new(TokenErrorCode::InvalidClient, None, None))
            .message(),
        "invalid_client"
    );
    match oidc_broker::uri::RedirectUri::parse("/relative") {
        Err(e) => assert_eq!(e.message(), "relative URL without a base"),
        Ok(uri) => panic!("{:?}", uri),
    }
}
