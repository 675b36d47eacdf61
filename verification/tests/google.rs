use oidc_broker::consts::validate_secrets;
use oidc_broker::consts::Secrets;
use oidc_broker::endpoints::token_error::TokenErrorCode;
use oidc_broker::endpoints::token_error::TokenErrorResponse;
use oidc_broker::google::get_google_auth_url;
use oidc_broker::google::get_provider_metadata;
use oidc_broker::google::new_client;
use oidc_broker::google::provider_metadata_step;
use oidc_broker::google::response_to_token;
use oidc_broker::google::AuthUrlRequest;
use oidc_broker::google::ClientConfig;
use oidc_broker::google::GoogleIdToken;
use oidc_broker::google::MetadataAction;
use oidc_broker::google::MetadataEvent;
use oidc_broker::google::MetadataState;
use oidc_broker::google::RequestTokenError;
use oidc_broker::google::UpstreamTokens;
use oidc_broker::google::VerifiedClaims;
use oidc_broker::handler_error::HandlerError;
use oidc_broker::state::GenericStoredProviderMetadata;
use oidc_broker::state::KvGet;
use oidc_broker::state::KvPut;

fn secrets(domain: &str) -> Secrets {
    let values = [
        "{}",
        domain,
        "private",
        "{}",
        "admin@example.com",
        "google-client",
        "google-secret",
        "{}",
        "example.com",
    ];
    let lookups: [Result<String, String>; 9] = values.map(|v| Ok(v.to_string()));
    validate_secrets(&lookups).unwrap()
}

fn verified(email: Option<&str>) -> VerifiedClaims {
    VerifiedClaims {
        email: email.map(|e| e.to_string()),
        subject: "subject-7".to_string(),
        issue_time: 10,
        expiration: 20,
    }
}

type Stored = GenericStoredProviderMetadata<String, Vec<u8>>;

fn stored() -> Stored {
    GenericStoredProviderMetadata { metadata: "document".to_string(), jwks: vec![1, 2, 3] }
}

#[test]
fn the_callback_is_under_the_brokers_own_base_url() {
    assert_eq!(
        new_client(&secrets("https://broker.example"), "production").unwrap(),
        ClientConfig {
            client_id: "google-client".to_string(),
            client_secret: "google-secret".to_string(),
            redirect_uri: "https://broker.example/callback".to_string(),
        }
    );
    assert_eq!(
        new_client(&secrets("https://broker.example"), "").unwrap().redirect_uri,
        "https://broker.example/callback"
    );
    assert_eq!(
        new_client(&secrets("https://broker.example"), "Dev").unwrap().redirect_uri,
        "https://broker.example/callback"
    );
}

#[test]
fn the_callback_is_local_in_development() {
    assert_eq!(
        new_client(&secrets("https://broker.example"), "dev").unwrap().redirect_uri,
        "http://localhost:8787/callback"
    );
    assert_eq!(
        new_client(&secrets("not a url"), "dev").unwrap().redirect_uri,
        "http://localhost:8787/callback"
    );
}

#[test]
fn a_base_url_that_is_none_gives_no_client() {
    assert!(matches!(new_client(&secrets("broker.example"), "production"), Err(HandlerError::ParseUrl(_))));
    assert!(matches!(new_client(&secrets(""), "production"), Err(HandlerError::ParseUrl(_))));
}

#[test]
fn email_is_always_asked_for_upstream() {
    assert_eq!(
        get_google_auth_url(vec!["profile".to_string(), "email".to_string()]),
        AuthUrlRequest {
            scopes: vec!["email".to_string(), "profile".to_string(), "email".to_string()],
            csrf_bytes: 23,
        }
    );
    assert_eq!(
        get_google_auth_url(vec![]),
        AuthUrlRequest { scopes: vec!["email".to_string()], csrf_bytes: 23 }
    );
}

#[test]
fn a_verified_identity_is_read_out_of_the_tokens() {
    let identity = response_to_token(Ok(UpstreamTokens {
        id_token: Some(Ok(verified(Some("user@example.com")))),
        refresh_token: Some("google-refresh".to_string()),
    }));
    assert_eq!(
        identity.unwrap(),
        GoogleIdToken {
            refresh_token: Some("google-refresh".to_string()),
            user_email: "user@example.com".to_string(),
            subject: "subject-7".to_string(),
            issue_time: 10,
            expiration: 20,
        }
    );
    let identity = response_to_token(Ok(UpstreamTokens {
        id_token: Some(Ok(verified(Some("user@example.com")))),
        refresh_token: None,
    }));
    assert_eq!(identity.unwrap().refresh_token, None);
}

#[test]
fn tokens_without_an_identity_are_failures() {
    assert!(matches!(
        response_to_token(Ok(UpstreamTokens { id_token: None, refresh_token: None })),
        Err(HandlerError::MissingIdToken)
    ));
    assert!(matches!(
        response_to_token(Ok(UpstreamTokens {
            id_token: Some(Err("nonce mismatch".to_string())),
            refresh_token: None
        })),
        Err(HandlerError::InvalidClaims(why)) if why == "nonce mismatch"
    ));
    assert!(matches!(
        response_to_token(Ok(UpstreamTokens { id_token: Some(Ok(verified(None))), refresh_token: None })),
        Err(HandlerError::MissingEmailClaim)
    ));
}

#[test]
fn an_error_of_the_protocol_is_told_from_other_failures() {
    let upstream = TokenErrorResponse::new(TokenErrorCode::InvalidGrant, None, None);
    assert!(matches!(
        response_to_token(Err(RequestTokenError::ServerResponse(upstream.clone()))),
        Err(HandlerError::Token(e)) if e == upstream
    ));
    assert!(matches!(
        response_to_token(Err(RequestTokenError::Other("connection reset".to_string()))),
        Err(HandlerError::GoogleToken(why)) if why == "connection reset"
    ));
}

#[test]
fn cached_metadata_is_used() {
    let (state, get) = get_provider_metadata();
    assert_eq!(state, MetadataState::AwaitCache);
    assert_eq!(
        get,
        KvGet { kv_name: "KV_CACHE".to_string(), key: "KEY_PROVIDER_METADATA".to_string() }
    );
    let (state, action) = provider_metadata_step(state, MetadataEvent::Cached(Ok(Some(stored()))));
    assert_eq!(state, MetadataState::Done);
    assert!(matches!(action, MetadataAction::UseCached(s) if s == stored()));
}

#[test]
fn missing_metadata_is_discovered_and_cached_for_an_hour() {
    let (state, _) = get_provider_metadata();
    let (state, action) = provider_metadata_step::<String, Vec<u8>>(state, MetadataEvent::Cached(Ok(None)));
    assert_eq!(state, MetadataState::AwaitDiscovery);
    assert!(matches!(action, MetadataAction::Discover { issuer } if issuer == "https://accounts.google.com"));
    let (state, action) = provider_metadata_step(state, MetadataEvent::Discovered(Ok(stored())));
    assert_eq!(state, MetadataState::AwaitStored);
    assert!(matches!(
        action,
        MetadataAction::Store(put) if put == KvPut {
            kv_name: "KV_CACHE".to_string(),
            key: "KEY_PROVIDER_METADATA".to_string(),
            value: stored(),
            ttl: 3600,
        }
    ));
    let (state, action) = provider_metadata_step::<String, Vec<u8>>(state, MetadataEvent::Stored(Ok(())));
    assert_eq!(state, MetadataState::Done);
    assert!(matches!(action, MetadataAction::UseDiscovered));
}

#[test]
fn any_failure_ends_the_lookup_of_the_metadata() {
    let failures: Vec<(MetadataState, MetadataEvent<String, Vec<u8>>)> = vec![
        (MetadataState::AwaitCache, MetadataEvent::Cached(Err(HandlerError::Kv("down".to_string())))),
        (
            MetadataState::AwaitDiscovery,
            MetadataEvent::Discovered(Err(HandlerError::Discovery("down".to_string()))),
        ),
        (MetadataState::AwaitStored, MetadataEvent::Stored(Err(HandlerError::Kv("down".to_string())))),
    ];
    for (state, event) in failures {
        let (state, action) = provider_metadata_step(state, event);
        assert_eq!(state, MetadataState::Done);
        assert!(matches!(action, MetadataAction::Fail(_)));
    }
}

#[test]
fn a_metadata_report_that_is_not_awaited_changes_nothing() {
    let (state, action) =
        provider_metadata_step::<String, Vec<u8>>(MetadataState::AwaitCache, MetadataEvent::Stored(Ok(())));
    assert_eq!(state, MetadataState::AwaitCache);
    assert!(matches!(action, MetadataAction::Ignore));
    let (state, action) =
        provider_metadata_step(MetadataState::Done, MetadataEvent::Cached(Ok(Some(stored()))));
    assert_eq!(state, MetadataState::Done);
    assert!(matches!(action, MetadataAction::Ignore));
}
