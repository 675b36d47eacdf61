use oidc_broker::consts::get_secret;
use oidc_broker::consts::token_header;
use oidc_broker::consts::validate_secrets;
use oidc_broker::consts::ClientRegistry;
use oidc_broker::consts::ClientSecret;
use oidc_broker::consts::Secret;
use oidc_broker::consts::KEY_PROVIDER_METADATA;
use oidc_broker::consts::KEY_SERVICEACCOUNT_OAUTH_TOKEN;
use oidc_broker::consts::KV_ACCESS_TOKEN_STATE;
use oidc_broker::consts::KV_AUTHORIZE_STATE;
use oidc_broker::consts::KV_CACHE;
use oidc_broker::consts::KV_REFRESH_TOKEN_STATE;
use oidc_broker::consts::SECRET_COUNT;
use oidc_broker::uri::RedirectUri;

const ALL: [Secret; 9] = [
    Secret::CLIENT_SECRETS,
    Secret::WORKER_DOMAIN,
    Secret::JWK_PRIVATE,
    Secret::JWK_PUBLIC,
    Secret::GOOGLE_ADMIN_EMAIL,
    Secret::GOOGLE_CLIENT_ID,
    Secret::GOOGLE_CLIENT_SECRET,
    Secret::GOOGLE_SERVICEACCOUNT_KEY,
    Secret::GOOGLE_WORKSPACE_DOMAIN,
];

#[test]
fn secrets_are_numbered_in_order() {
    assert_eq!(SECRET_COUNT, 9);
    for (place, secret) in ALL.iter().enumerate() {
        assert_eq!(secret.as_index(), place);
        assert_eq!(Secret::from_index(place), Some(*secret));
    }
    assert_eq!(Secret::from_index(9), None);
    assert_eq!(Secret::from_index(usize::MAX), None);
}

#[test]
fn a_secret_is_configured_under_its_own_name() {
    assert_eq!(Secret::CLIENT_SECRETS.id(), "CLIENT_SECRETS");
    assert_eq!(Secret::WORKER_DOMAIN.id(), "WORKER_DOMAIN");
    assert_eq!(Secret::JWK_PRIVATE.id(), "JWK_PRIVATE");
    assert_eq!(Secret::JWK_PUBLIC.id(), "JWK_PUBLIC");
    assert_eq!(Secret::GOOGLE_ADMIN_EMAIL.id(), "GOOGLE_ADMIN_EMAIL");
    assert_eq!(Secret::GOOGLE_CLIENT_ID.id(), "GOOGLE_CLIENT_ID");
    assert_eq!(Secret::GOOGLE_CLIENT_SECRET.id(), "GOOGLE_CLIENT_SECRET");
    assert_eq!(Secret::GOOGLE_SERVICEACCOUNT_KEY.id(), "GOOGLE_SERVICEACCOUNT_KEY");
    assert_eq!(Secret::GOOGLE_WORKSPACE_DOMAIN.id(), "GOOGLE_WORKSPACE_DOMAIN");
}

#[test]
fn secrets_that_are_all_there_are_kept() {
    let lookups: [Result<String, String>; 9] = ALL.map(|s| Ok(format!("value of {}", s.id())));
    let secrets = validate_secrets(&lookups).unwrap();
    for secret in ALL {
        assert_eq!(get_secret(&secrets, secret), format!("value of {}", secret.id()));
    }
}

#[test]
fn missing_secrets_are_listed_one_per_line() {
    let mut lookups: [Result<String, String>; 9] = ALL.map(|s| Ok(s.id().to_string()));
    lookups[2] = Err("JWK_PRIVATE is missing".to_string());
    lookups[8] = Err("GOOGLE_WORKSPACE_DOMAIN is missing".to_string());
    assert_eq!(
        validate_secrets(&lookups),
        Err("JWK_PRIVATE is missing\nGOOGLE_WORKSPACE_DOMAIN is missing".to_string())
    );
    let mut lookups: [Result<String, String>; 9] = ALL.map(|s| Ok(s.id().to_string()));
    lookups[0] = Err("gone".to_string());
    assert_eq!(validate_secrets(&lookups), Err("gone".to_string()));
}

#[test]
fn stores_and_keys_are_named_after_themselves() {
    assert_eq!(KV_AUTHORIZE_STATE, "KV_AUTHORIZE_STATE");
    assert_eq!(KV_ACCESS_TOKEN_STATE, "KV_ACCESS_TOKEN_STATE");
    assert_eq!(KV_REFRESH_TOKEN_STATE, "KV_REFRESH_TOKEN_STATE");
    assert_eq!(KV_CACHE, "KV_CACHE");
    assert_eq!(KEY_PROVIDER_METADATA, "KEY_PROVIDER_METADATA");
    assert_eq!(KEY_SERVICEACCOUNT_OAUTH_TOKEN, "KEY_SERVICEACCOUNT_OAUTH_TOKEN");
}

#[test]
fn token_responses_are_never_cached() {
    assert_eq!(
        token_header(),
        vec![
            ("cache-control".to_string(), "no-store".to_string()),
            ("pragma".to_string(), "no-cache".to_string()),
        ]
    );
}

#[test]
fn a_registry_finds_what_was_registered_last() {
    let first = ClientSecret { redirect_uris: vec![RedirectUri::parse("https://a.example/cb").unwrap()] };
    let second = ClientSecret {
        redirect_uris: vec![
            RedirectUri::parse("https://b.example/cb").unwrap(),
            RedirectUri::parse("https://b.example/other").unwrap(),
        ],
    };
    let mut registry = ClientRegistry::new();
    assert_eq!(registry.get("app"), None);
    registry.insert("app".to_string(), first.clone());
    registry.insert("other".to_string(), first.clone());
    assert_eq!(registry.get("app"), Some(&first));
    registry.insert("app".to_string(), second.clone());
    assert_eq!(registry.get("app"), Some(&second));
    assert_eq!(registry.get("other"), Some(&first));
    assert_eq!(registry.get("App"), None);
    assert_eq!(registry.get(""), None);
}

#[test]
fn a_client_may_name_its_registered_redirect_uris_only() {
    let client = ClientSecret {
        redirect_uris: vec![
            RedirectUri::parse("https://b.example/cb").unwrap(),
            RedirectUri::parse("https://b.example/other").unwrap(),
        ],
    };
    assert!(client.allows(&RedirectUri::parse("https://b.example/cb").unwrap()));
    assert!(client.allows(&RedirectUri::parse("https://b.example/other").unwrap()));
    assert!(!client.allows(&RedirectUri::parse("https://b.example/cb/").unwrap()));
    assert!(!client.allows(&RedirectUri::parse("https://b.example/cb?x=1").unwrap()));
    assert!(!ClientSecret { redirect_uris: vec![] }
        .allows(&RedirectUri::parse("https://b.example/cb").unwrap()));
}
