//! The discovery document: where the broker's endpoints are and what they
//! support.

use vstd::prelude::*;
use vstd::string::StringExecFns;
use crate::consts::get_secret;
use crate::consts::Secret;
use crate::consts::Secrets;
use crate::text::concat;
use crate::text::strings_view;

verus! {

/// The discovery document of the broker.
#[derive(Debug, Clone, PartialEq, Eq)]
pub struct OpenidConfiguration {
    pub issuer: String,
    pub authorization_endpoint: String,
    pub token_endpoint: String,
    pub jwks_uri: String,
    pub response_types_supported: Vec<String>,
    pub subject_types_supported: Vec<String>,
    pub id_token_signing_alg_values_supported: Vec<String>,
    pub scopes_supported: Vec<String>,
    pub token_endpoint_auth_methods_supported: Vec<String>,
    pub claims_supported: Vec<String>,
    pub code_challenge_methods_supported: Vec<String>,
    pub grant_types_supported: Vec<String>,
}

/// `OpenidConfiguration` over sequences.
pub struct OpenidConfigurationView {
    pub issuer: Seq<char>,
    pub authorization_endpoint: Seq<char>,
    pub token_endpoint: Seq<char>,
    pub jwks_uri: Seq<char>,
    pub response_types_supported: Seq<Seq<char>>,
    pub subject_types_supported: Seq<Seq<char>>,
    pub id_token_signing_alg_values_supported: Seq<Seq<char>>,
    pub scopes_supported: Seq<Seq<char>>,
    pub token_endpoint_auth_methods_supported: Seq<Seq<char>>,
    pub claims_supported: Seq<Seq<char>>,
    pub code_challenge_methods_supported: Seq<Seq<char>>,
    pub grant_types_supported: Seq<Seq<char>>,
}

impl View for OpenidConfiguration {
    type V = OpenidConfigurationView;

    open spec fn view(&self) -> OpenidConfigurationView {
        OpenidConfigurationView {
            issuer: self.issuer@,
            authorization_endpoint: self.authorization_endpoint@,
            token_endpoint: self.token_endpoint@,
            jwks_uri: self.jwks_uri@,
            response_types_supported: strings_view(self.response_types_supported@),
            subject_types_supported: strings_view(self.subject_types_supported@),
            id_token_signing_alg_values_supported: strings_view(
                self.id_token_signing_alg_values_supported@,
            ),
            scopes_supported: strings_view(self.scopes_supported@),
            token_endpoint_auth_methods_supported: strings_view(
                self.token_endpoint_auth_methods_supported@,
            ),
            claims_supported: strings_view(self.claims_supported@),
            code_challenge_methods_supported: strings_view(self.code_challenge_methods_supported@),
            grant_types_supported: strings_view(self.grant_types_supported@),
        }
    }
}

/// The discovery document of a broker at the base URL `domain`: the
/// endpoints lie under the base URL, and what they support is fixed.
pub open spec fn spec_openid_configuration(domain: Seq<char>) -> OpenidConfigurationView {
    OpenidConfigurationView {
        issuer: domain,
        authorization_endpoint: domain + "/authorize"@,
        token_endpoint: domain + "/token"@,
        jwks_uri: domain + "/jwks"@,
        response_types_supported: seq!["code"@, "none"@],
        subject_types_supported: seq!["public"@],
        id_token_signing_alg_values_supported: seq!["RS256"@],
        scopes_supported: seq!["openid"@, "email"@],
        token_endpoint_auth_methods_supported: seq!["client_secret_post"@, "client_secret_basic"@],
        claims_supported: seq![
            "aud"@,
            "email"@,
            "exp"@,
            "groups"@,
            "iat"@,
            "iss"@,
            "sub"@,
        ],
        code_challenge_methods_supported: seq!["plain"@, "S256"@],
        grant_types_supported: seq!["authorization_code"@, "refresh_token"@],
    }
}

/// A list of one string.
fn list1(a: &str) -> (list: Vec<String>)
    ensures
        strings_view(list@) == seq![a@],
{
    let mut list: Vec<String> = Vec::new();
    list.push(String::from_str(a));
    assert(strings_view(list@) =~= seq![a@]);
    list
}

/// A list of two strings.
fn list2(a: &str, b: &str) -> (list: Vec<String>)
    ensures
        strings_view(list@) == seq![a@, b@],
{
    let mut list: Vec<String> = Vec::new();
    list.push(String::from_str(a));
    list.push(String::from_str(b));
    assert(strings_view(list@) =~= seq![a@, b@]);
    list
}

/// The claims that an ID token of the broker may hold.
fn claims_supported() -> (list: Vec<String>)
    ensures
        strings_view(list@) == seq![
            "aud"@,
            "email"@,
            "exp"@,
            "groups"@,
            "iat"@,
            "iss"@,
            "sub"@,
        ],
{
    let mut list: Vec<String> = Vec::new();
    list.push(String::from_str("aud"));
    list.push(String::from_str("email"));
    list.push(String::from_str("exp"));
    list.push(String::from_str("groups"));
    list.push(String::from_str("iat"));
    list.push(String::from_str("iss"));
    list.push(String::from_str("sub"));
    assert(strings_view(list@) =~= seq![
        "aud"@,
        "email"@,
        "exp"@,
        "groups"@,
        "iat"@,
        "iss"@,
        "sub"@,
    ]);
    list
}

/// Makes the discovery document of the broker from its own base URL.
pub fn openid_configuration(secrets: &Secrets) -> (document: OpenidConfiguration)
    ensures
        document@ == spec_openid_configuration(secrets@[Secret::WORKER_DOMAIN.spec_index()]),
{
    let domain = get_secret(secrets, Secret::WORKER_DOMAIN);
    OpenidConfiguration {
        issuer: String::from_str(domain),
        authorization_endpoint: concat(domain, "/authorize"),
        token_endpoint: concat(domain, "/token"),
        jwks_uri: concat(domain, "/jwks"),
        response_types_supported: list2("code", "none"),
        subject_types_supported: list1("public"),
        id_token_signing_alg_values_supported: list1("RS256"),
        scopes_supported: list2("openid", "email"),
        token_endpoint_auth_methods_supported: list2("client_secret_post", "client_secret_basic"),
        claims_supported: claims_supported(),
        code_challenge_methods_supported: list2("plain", "S256"),
        grant_types_supported: list2("authorization_code", "refresh_token"),
    }
}

} // verus!
