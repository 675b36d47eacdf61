//! The secrets that configure the broker, the names of its stores, and the
//! headers that go with every token response.

use vstd::prelude::*;
use vstd::string::StringExecFns;
use crate::text::join_lines;
use crate::text::pairs_view;
use crate::text::spec_join_lines;
use crate::text::str_eq;
use crate::text::strings_view;
use crate::uri::RedirectUri;

verus! {

/// The secrets that the broker needs, in the order in which they are kept.
#[allow(non_camel_case_types)]
#[derive(Debug, Clone, Copy, PartialEq, Eq)]
pub enum Secret {
    /// The client registry: a JSON map from client id to its redirect URIs.
    CLIENT_SECRETS,
    /// The broker's own base URL.
    WORKER_DOMAIN,
    /// The private key that signs ID tokens.
    JWK_PRIVATE,
    /// The public key that verifies them, as a JWK.
    JWK_PUBLIC,
    /// The administrator whom the directory service account impersonates.
    GOOGLE_ADMIN_EMAIL,
    /// The broker's client id at the upstream provider.
    GOOGLE_CLIENT_ID,
    /// The broker's client secret at the upstream provider.
    GOOGLE_CLIENT_SECRET,
    /// The key material of the directory service account.
    GOOGLE_SERVICEACCOUNT_KEY,
    /// The domain whose groups are reported.
    GOOGLE_WORKSPACE_DOMAIN,
}

/// How many secrets there are.
pub const SECRET_COUNT: usize = 9;

impl Secret {
    /// The place of the secret among the nine.
    pub open spec fn spec_index(self) -> int {
        match self {
            Secret::CLIENT_SECRETS => 0,
            Secret::WORKER_DOMAIN => 1,
            Secret::JWK_PRIVATE => 2,
            Secret::JWK_PUBLIC => 3,
            Secret::GOOGLE_ADMIN_EMAIL => 4,
            Secret::GOOGLE_CLIENT_ID => 5,
            Secret::GOOGLE_CLIENT_SECRET => 6,
            Secret::GOOGLE_SERVICEACCOUNT_KEY => 7,
            Secret::GOOGLE_WORKSPACE_DOMAIN => 8,
        }
    }

    /// The name under which the secret is configured.
    pub open spec fn spec_id(self) -> Seq<char> {
        match self {
            Secret::CLIENT_SECRETS => "CLIENT_SECRETS"@,
            Secret::WORKER_DOMAIN => "WORKER_DOMAIN"@,
            Secret::JWK_PRIVATE => "JWK_PRIVATE"@,
            Secret::JWK_PUBLIC => "JWK_PUBLIC"@,
            Secret::GOOGLE_ADMIN_EMAIL => "GOOGLE_ADMIN_EMAIL"@,
            Secret::GOOGLE_CLIENT_ID => "GOOGLE_CLIENT_ID"@,
            Secret::GOOGLE_CLIENT_SECRET => "GOOGLE_CLIENT_SECRET"@,
            Secret::GOOGLE_SERVICEACCOUNT_KEY => "GOOGLE_SERVICEACCOUNT_KEY"@,
            Secret::GOOGLE_WORKSPACE_DOMAIN => "GOOGLE_WORKSPACE_DOMAIN"@,
        }
    }

    /// The place of the secret among the nine.
    pub fn as_index(self) -> (index: usize)
        ensures
            index == self.spec_index(),
            index < SECRET_COUNT,
    {
        match self {
            Secret::CLIENT_SECRETS => 0,
            Secret::WORKER_DOMAIN => 1,
            Secret::JWK_PRIVATE => 2,
            Secret::JWK_PUBLIC => 3,
            Secret::GOOGLE_ADMIN_EMAIL => 4,
            Secret::GOOGLE_CLIENT_ID => 5,
            Secret::GOOGLE_CLIENT_SECRET => 6,
            Secret::GOOGLE_SERVICEACCOUNT_KEY => 7,
            Secret::GOOGLE_WORKSPACE_DOMAIN => 8,
        }
    }

    /// The secret at a place among the nine.
    pub fn from_index(index: usize) -> (secret: Option<Secret>)
        ensures
            secret is Some == (index < SECRET_COUNT),
            secret is Some ==> secret->Some_0.spec_index() == index,
    {
        match index {
            0 => Some(Secret::CLIENT_SECRETS),
            1 => Some(Secret::WORKER_DOMAIN),
            2 => Some(Secret::JWK_PRIVATE),
            3 => Some(Secret::JWK_PUBLIC),
            4 => Some(Secret::GOOGLE_ADMIN_EMAIL),
            5 => Some(Secret::GOOGLE_CLIENT_ID),
            6 => Some(Secret::GOOGLE_CLIENT_SECRET),
            7 => Some(Secret::GOOGLE_SERVICEACCOUNT_KEY),
            8 => Some(Secret::GOOGLE_WORKSPACE_DOMAIN),
            _ => None,
        }
    }

    /// The name under which the secret is configured.
    pub fn id(self) -> (name: &'static str)
        ensures
            name@ == self.spec_id(),
    {
        match self {
            Secret::CLIENT_SECRETS => "CLIENT_SECRETS",
            Secret::WORKER_DOMAIN => "WORKER_DOMAIN",
            Secret::JWK_PRIVATE => "JWK_PRIVATE",
            Secret::JWK_PUBLIC => "JWK_PUBLIC",
            Secret::GOOGLE_ADMIN_EMAIL => "GOOGLE_ADMIN_EMAIL",
            Secret::GOOGLE_CLIENT_ID => "GOOGLE_CLIENT_ID",
            Secret::GOOGLE_CLIENT_SECRET => "GOOGLE_CLIENT_SECRET",
            Secret::GOOGLE_SERVICEACCOUNT_KEY => "GOOGLE_SERVICEACCOUNT_KEY",
            Secret::GOOGLE_WORKSPACE_DOMAIN => "GOOGLE_WORKSPACE_DOMAIN",
        }
    }
}

/// The values of the nine secrets, read once when the broker starts.
#[derive(Debug, PartialEq, Eq)]
pub struct Secrets {
    values: Vec<String>,
}

impl View for Secrets {
    type V = Seq<Seq<char>>;

    closed spec fn view(&self) -> Seq<Seq<char>> {
        strings_view(self.values@)
    }
}

impl Secrets {
    /// There is a value for each secret.
    #[verifier::type_invariant]
    spec fn complete(&self) -> bool {
        self.values@.len() == SECRET_COUNT
    }
}

/// What the lookups of the secrets reported as missing: the description of
/// each failed lookup, in order.
pub open spec fn lookup_errors(lookups: Seq<Result<String, String>>) -> Seq<Seq<char>>
    decreases lookups.len(),
{
    if lookups.len() == 0 {
        Seq::empty()
    } else {
        let before = lookup_errors(lookups.drop_last());
        match lookups.last() {
            Ok(_) => before,
            Err(e) => before.push(e@),
        }
    }
}

/// Whether each lookup gave a value.
pub open spec fn all_found(lookups: Seq<Result<String, String>>) -> bool {
    forall|i: int| 0 <= i < lookups.len() ==> (#[trigger] lookups[i]) is Ok
}

/// Takes the outcome of looking up each of the nine secrets, in order: the
/// value, or the description of why there is none. Where each is there, the
/// result holds them. Where any is missing, the broker must not start: the
/// result is the descriptions of all that are missing, one per line.
pub fn validate_secrets(
    lookups: &[Result<String, String>; SECRET_COUNT],
) -> (checked: Result<Secrets, String>)
    ensures
        checked is Ok == all_found(lookups@),
        checked is Ok ==> forall|i: int|
            0 <= i < SECRET_COUNT ==> #[trigger] checked->Ok_0@[i] == (lookups@[i])->Ok_0@,
        checked is Ok ==> checked->Ok_0@.len() == SECRET_COUNT,
        checked is Err ==> checked->Err_0@ == spec_join_lines(lookup_errors(lookups@)),
{
    let mut values: Vec<String> = Vec::new();
    let mut errors: Vec<String> = Vec::new();
    let mut i: usize = 0;
    proof {
        assert(lookups@.take(0) =~= Seq::<Result<String, String>>::empty());
        assert(strings_view(errors@) =~= Seq::<Seq<char>>::empty());
    }
    while i < SECRET_COUNT
        invariant
            i <= SECRET_COUNT,
            lookups@.len() == SECRET_COUNT,
            strings_view(errors@) == lookup_errors(lookups@.take(i as int)),
            (errors@.len() == 0) == all_found(lookups@.take(i as int)),
            errors@.len() == 0 ==> values@.len() == i,
            errors@.len() == 0 ==> forall|k: int|
                0 <= k < i ==> (#[trigger] values@[k])@ == (lookups@[k])->Ok_0@,
        decreases SECRET_COUNT - i,
    {
        let ghost before = strings_view(errors@);
        let ghost seen = lookups@.take(i as int);
        let ghost next = lookups@.take(i + 1);
        proof {
            assert(next.drop_last() =~= seen);
            assert(next.last() == lookups@[i as int]);
            if all_found(next) {
                assert forall|k: int| 0 <= k < seen.len() implies (#[trigger] seen[k]) is Ok by {
                    assert(next[k] == seen[k]);
                }
                assert(next[i as int] is Ok);
            }
            if all_found(seen) && lookups@[i as int] is Ok {
                assert forall|k: int| 0 <= k < next.len() implies (#[trigger] next[k]) is Ok by {
                    if k < i {
                        assert(next[k] == seen[k]);
                    }
                }
            }
        }
        match &lookups[i] {
            Ok(value) => {
                values.push(value.clone());
            },
            Err(e) => {
                errors.push(e.clone());
                proof {
                    assert(strings_view(errors@) =~= before.push(e@));
                }
            },
        }
        i += 1;
    }
    proof {
        assert(lookups@.take(SECRET_COUNT as int) =~= lookups@);
    }
    if errors.len() > 0 {
        Err(join_lines(&errors))
    } else {
        let secrets = Secrets { values };
        proof {
            assert forall|k: int| 0 <= k < SECRET_COUNT implies #[trigger] secrets@[k]
                == (lookups@[k])->Ok_0@ by {
                assert(secrets@[k] == secrets.values@[k]@);
            }
        }
        Ok(secrets)
    }
}

/// The value of a secret.
pub fn get_secret(secrets: &Secrets, id: Secret) -> (value: &str)
    ensures
        value@ == secrets@[id.spec_index()],
{
    proof {
        use_type_invariant(secrets);
    }
    secrets.values[id.as_index()].as_str()
}

/// The store of pending authorizations, keyed by the upstream CSRF token.
pub const KV_AUTHORIZE_STATE: &'static str = "KV_AUTHORIZE_STATE";

/// The store of access exchange states, keyed by the local authorization code.
pub const KV_ACCESS_TOKEN_STATE: &'static str = "KV_ACCESS_TOKEN_STATE";

/// The store of refresh states, keyed by the local refresh token.
pub const KV_REFRESH_TOKEN_STATE: &'static str = "KV_REFRESH_TOKEN_STATE";

/// The store of values that all instances of the broker share.
pub const KV_CACHE: &'static str = "KV_CACHE";

/// The key of the cached upstream provider metadata.
pub const KEY_PROVIDER_METADATA: &'static str = "KEY_PROVIDER_METADATA";

/// The key of the cached directory access token.
pub const KEY_SERVICEACCOUNT_OAUTH_TOKEN: &'static str = "KEY_SERVICEACCOUNT_OAUTH_TOKEN";

/// The headers of every token response: it must be neither cached nor stored.
pub open spec fn spec_token_header() -> Seq<(Seq<char>, Seq<char>)> {
    seq![("cache-control"@, "no-store"@), ("pragma"@, "no-cache"@)]
}

/// The headers of every token response: it must be neither cached nor stored.
pub fn token_header() -> (headers: Vec<(String, String)>)
    ensures
        pairs_view(headers@) == spec_token_header(),
{
    let mut headers: Vec<(String, String)> = Vec::new();
    headers.push((String::from_str("cache-control"), String::from_str("no-store")));
    headers.push((String::from_str("pragma"), String::from_str("no-cache")));
    assert(pairs_view(headers@) =~= spec_token_header());
    headers
}

/// What is registered for a client: the redirect URIs that it may name.
#[derive(Debug, Clone, PartialEq, Eq)]
pub struct ClientSecret {
    pub redirect_uris: Vec<RedirectUri>,
}

impl View for ClientSecret {
    type V = Seq<Seq<char>>;

    open spec fn view(&self) -> Seq<Seq<char>> {
        Seq::new(self.redirect_uris@.len(), |i: int| self.redirect_uris@[i]@)
    }
}

impl ClientSecret {
    /// Whether `uri` is one of the client's registered redirect URIs.
    pub fn allows(&self, uri: &RedirectUri) -> (allowed: bool)
        ensures
            allowed == self@.contains(uri@),
    {
        let mut i: usize = 0;
        while i < self.redirect_uris.len()
            invariant
                i <= self.redirect_uris.len(),
                forall|k: int| 0 <= k < i ==> self@[k] != uri@,
            decreases self.redirect_uris.len() - i,
        {
            if self.redirect_uris[i].same(uri) {
                assert(self@[i as int] == uri@);
                return true;
            }
            i += 1;
        }
        false
    }
}

/// The clients of a list of registrations: for each client id the redirect
/// URIs of its last registration.
pub open spec fn registered(entries: Seq<(String, ClientSecret)>) -> Map<Seq<char>, Seq<Seq<char>>>
    decreases entries.len(),
{
    if entries.len() == 0 {
        Map::empty()
    } else {
        registered(entries.drop_last()).insert(entries.last().0@, entries.last().1@)
    }
}

/// A client id that no registration names is not registered.
proof fn lemma_not_registered(entries: Seq<(String, ClientSecret)>, client_id: Seq<char>)
    requires
        forall|k: int| 0 <= k < entries.len() ==> (#[trigger] entries[k]).0@ != client_id,
    ensures
        !registered(entries).dom().contains(client_id),
    decreases entries.len(),
{
    if entries.len() > 0 {
        let before = entries.drop_last();
        assert forall|k: int| 0 <= k < before.len() implies (#[trigger] before[k]).0@
            != client_id by {
            assert(before[k] == entries[k]);
        }
        lemma_not_registered(before, client_id);
        assert(entries.last() == entries[entries.len() - 1]);
    }
}

/// The last registration that names a client id is the one that counts.
proof fn lemma_registered(entries: Seq<(String, ClientSecret)>, client_id: Seq<char>, at: int)
    requires
        0 <= at < entries.len(),
        entries[at].0@ == client_id,
        forall|k: int| at < k < entries.len() ==> (#[trigger] entries[k]).0@ != client_id,
    ensures
        registered(entries).dom().contains(client_id),
        registered(entries)[client_id] == entries[at].1@,
    decreases entries.len(),
{
    if at < entries.len() - 1 {
        let before = entries.drop_last();
        assert(before[at] == entries[at]);
        assert forall|k: int| at < k < before.len() implies (#[trigger] before[k]).0@
            != client_id by {
            assert(before[k] == entries[k]);
        }
        lemma_registered(before, client_id, at);
        assert(entries.last() == entries[entries.len() - 1]);
    }
}

/// The client registry: for each registered client id, the redirect URIs
/// that the client may name.
#[derive(Debug, Clone, PartialEq, Eq)]
pub struct ClientRegistry {
    entries: Vec<(String, ClientSecret)>,
}

impl View for ClientRegistry {
    type V = Map<Seq<char>, Seq<Seq<char>>>;

    closed spec fn view(&self) -> Map<Seq<char>, Seq<Seq<char>>> {
        registered(self.entries@)
    }
}

impl ClientRegistry {
    /// A registry without clients.
    pub fn new() -> (registry: ClientRegistry)
        ensures
            registry@ == Map::<Seq<char>, Seq<Seq<char>>>::empty(),
    {
        ClientRegistry { entries: Vec::new() }
    }

    /// Registers a client. What was registered under the same id before is
    /// replaced.
    pub fn insert(&mut self, client_id: String, secret: ClientSecret)
        ensures
            final(self)@ == old(self)@.insert(client_id@, secret@),
    {
        let ghost before = self.entries@;
        self.entries.push((client_id, secret));
        proof {
            assert(self.entries@.drop_last() =~= before);
        }
    }

    /// What is registered for a client id, if anything.
    pub fn get(&self, client_id: &str) -> (found: Option<&ClientSecret>)
        ensures
            found is Some == self@.dom().contains(client_id@),
            found is Some ==> found->Some_0@ == self@[client_id@],
    {
        let mut i: usize = self.entries.len();
        while i > 0
            invariant
                i <= self.entries.len(),
                forall|k: int|
                    i <= k < self.entries@.len() ==> (#[trigger] self.entries@[k]).0@
                        != client_id@,
            decreases i,
        {
            i -= 1;
            if str_eq(self.entries[i].0.as_str(), client_id) {
                proof {
                    lemma_registered(self.entries@, client_id@, i as int);
                }
                return Some(&self.entries[i].1);
            }
        }
        proof {
            lemma_not_registered(self.entries@, client_id@);
        }
        None
    }
}

} // verus!
