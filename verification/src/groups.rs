//! Group membership from the directory: the token that opens the directory
//! API to the broker's service account, and the names of a user's groups.

use vstd::prelude::*;
use vstd::string::StringExecFns;
use crate::consts::get_secret;
use crate::consts::Secret;
use crate::consts::Secrets;
use crate::consts::KEY_SERVICEACCOUNT_OAUTH_TOKEN;
use crate::consts::KV_CACHE;
use crate::handler_error::HandlerError;
use crate::handler_error::found_view;
use crate::handler_error::result_view;
use crate::handler_error::HandlerErrorView;
use crate::state::kv_get;
use crate::state::kv_put;
use crate::state::KvGet;
use crate::state::KvGetView;
use crate::state::KvPut;
use crate::state::KvPutView;
use crate::state::Ttl;
use crate::text::opt_view;
use crate::text::pairs_view;
use crate::text::str_eq;
use crate::text::strings_view;
use crate::uri::spec_with_params;
use crate::uri::with_params;

verus! {

/// The directory API's list of groups.
pub const GROUPS_URL: &'static str = "https://admin.googleapis.com/admin/directory/v1/groups";

/// The token endpoint that grants access to the directory API.
pub const TOKEN_URL: &'static str = "https://oauth2.googleapis.com/token";

/// The scope of the access that the broker asks for: to read groups.
pub const DIRECTORY_SCOPE: &'static str =
    "https://www.googleapis.com/auth/admin.directory.group.readonly";

/// The grant type of a signed assertion.
pub const JWT_BEARER: &'static str = "urn:ietf:params:oauth:grant-type:jwt-bearer";

/// The seconds for which an assertion, and the access token granted for
/// it, is good: one hour.
pub const TOKEN_LIFETIME: i64 = 3600;

/// The seconds for which a directory access token is cached: a minute less
/// than it is good for.
pub const TOKEN_CACHE_TTL: u64 = 3540;

/// A group as the directory lists it.
#[derive(Debug, Clone, PartialEq, Eq)]
pub struct GoogleGroup {
    pub email: String,
}

impl View for GoogleGroup {
    type V = Seq<char>;

    open spec fn view(&self) -> Seq<char> {
        self.email@
    }
}

/// The emails of a list of groups.
pub open spec fn group_emails(groups: Seq<GoogleGroup>) -> Seq<Seq<char>> {
    Seq::new(groups.len(), |i: int| groups[i]@)
}

/// Whether the first `@` of `email` is at `at`.
pub open spec fn is_first_at(email: Seq<char>, at: int) -> bool {
    &&& 0 <= at < email.len()
    &&& email[at] == '@'
    &&& forall|k: int| 0 <= k < at ==> email[k] != '@'
}

/// The name under which a group is reported: what stands before the first
/// `@` of its email, where what stands after it is the workspace domain.
/// A group of another domain, or one whose email holds no `@`, has none.
pub open spec fn group_name(email: Seq<char>, workspace_domain: Seq<char>) -> Option<Seq<char>> {
    if exists|at: int| is_first_at(email, at) {
        let at = choose|at: int| is_first_at(email, at);
        if email.skip(at + 1) == workspace_domain {
            Some(email.take(at))
        } else {
            None
        }
    } else {
        None
    }
}

/// The names of the groups of the workspace domain among `emails`, in
/// order.
pub open spec fn group_names(emails: Seq<Seq<char>>, workspace_domain: Seq<char>) -> Seq<Seq<char>>
    decreases emails.len(),
{
    if emails.len() == 0 {
        Seq::empty()
    } else {
        let before = group_names(emails.drop_last(), workspace_domain);
        match group_name(emails.last(), workspace_domain) {
            Some(name) => before.push(name),
            None => before,
        }
    }
}

/// Where the first `@` of `email` is, if there is any.
fn find_at(email: &str) -> (found: Option<usize>)
    ensures
        found is Some ==> is_first_at(email@, found->Some_0 as int),
        found is None ==> forall|k: int| 0 <= k < email@.len() ==> email@[k] != '@',
{
    let n = email.unicode_len();
    let mut i: usize = 0;
    while i < n
        invariant
            n == email@.len(),
            i <= n,
            forall|k: int| 0 <= k < i ==> email@[k] != '@',
        decreases n - i,
    {
        if email.get_char(i) == '@' {
            return Some(i);
        }
        i += 1;
    }
    None
}

/// Tells the name under which a group is reported, if it is of the
/// workspace domain.
fn name_of_group(email: &str, workspace_domain: &str) -> (name: Option<String>)
    ensures
        opt_view(name) == group_name(email@, workspace_domain@),
{
    match find_at(email) {
        None => {
            assert(!exists|at: int| is_first_at(email@, at));
            None
        },
        Some(at) => {
            proof {
                let chosen = choose|a: int| is_first_at(email@, a);
                assert(is_first_at(email@, chosen));
                assert(chosen == at) by {
                    if chosen < at {
                        assert(email@[chosen] != '@');
                    }
                    if at < chosen {
                        assert(email@[at as int] != '@');
                    }
                }
            }
            let n = email.unicode_len();
            let domain = email.substring_char(at + 1, n);
            assert(domain@ =~= email@.skip(at + 1));
            if str_eq(domain, workspace_domain) {
                let name = email.substring_char(0, at);
                assert(name@ =~= email@.take(at as int));
                Some(String::from_str(name))
            } else {
                None
            }
        },
    }
}

/// The names of the groups that the directory lists for a user, as far as
/// they are of the workspace domain. Groups of other domains and entries
/// whose email holds no `@` are passed over.
pub fn get_user_groups(workspace_domain: &str, groups: &Vec<GoogleGroup>) -> (names: Vec<String>)
    ensures
        strings_view(names@) == group_names(group_emails(groups@), workspace_domain@),
{
    let mut names: Vec<String> = Vec::new();
    let ghost emails = group_emails(groups@);
    let mut i: usize = 0;
    proof {
        assert(emails.take(0) =~= Seq::<Seq<char>>::empty());
        assert(strings_view(names@) =~= Seq::<Seq<char>>::empty());
    }
    while i < groups.len()
        invariant
            i <= groups.len(),
            emails == group_emails(groups@),
            strings_view(names@) == group_names(emails.take(i as int), workspace_domain@),
        decreases groups.len() - i,
    {
        let ghost before = strings_view(names@);
        proof {
            assert(emails.take(i + 1).drop_last() =~= emails.take(i as int));
            assert(emails.take(i + 1).last() == groups@[i as int].email@);
        }
        match name_of_group(groups[i].email.as_str(), workspace_domain) {
            Some(name) => {
                names.push(name);
                proof {
                    assert(strings_view(names@) =~= before.push(name@));
                }
            },
            None => {},
        }
        i += 1;
    }
    proof {
        assert(emails.take(groups.len() as int) =~= emails);
    }
    names
}

/// The address that lists the groups of the user with this email: the
/// directory's list of groups with the email as `userKey`.
pub open spec fn spec_groups_url(user_email: Seq<char>) -> Option<Seq<char>> {
    spec_with_params(GROUPS_URL@, seq![("userKey"@, user_email)])
}

/// Makes the address that lists the groups of a user.
pub fn groups_url(user_email: &str) -> (url: Option<String>)
    ensures
        opt_view(url) == spec_groups_url(user_email@),
{
    let mut pairs: Vec<(String, String)> = Vec::new();
    pairs.push((String::from_str("userKey"), String::from_str(user_email)));
    assert(pairs_view(pairs@) =~= seq![("userKey"@, user_email@)]);
    with_params(GROUPS_URL, &pairs)
}

/// The key material of the broker's service account.
#[derive(Debug, Clone, PartialEq, Eq)]
pub struct ServiceAccount {
    pub client_email: String,
    pub private_key: String,
}

/// `ServiceAccount` over sequences.
pub struct ServiceAccountView {
    pub client_email: Seq<char>,
    pub private_key: Seq<char>,
}

impl View for ServiceAccount {
    type V = ServiceAccountView;

    open spec fn view(&self) -> ServiceAccountView {
        ServiceAccountView { client_email: self.client_email@, private_key: self.private_key@ }
    }
}

/// The claims of the assertion by which the service account asks for
/// access to the directory.
#[derive(Debug, Clone, PartialEq, Eq)]
pub struct Claims {
    /// The service account.
    pub iss: String,
    /// The administrator whom the service account impersonates.
    pub sub: String,
    pub scope: String,
    pub aud: String,
    /// When the assertion expires, in seconds since the epoch.
    pub exp: i64,
    /// When it was made, in seconds since the epoch.
    pub iat: i64,
}

/// `Claims` over sequences.
pub struct ClaimsView {
    pub iss: Seq<char>,
    pub sub: Seq<char>,
    pub scope: Seq<char>,
    pub aud: Seq<char>,
    pub exp: i64,
    pub iat: i64,
}

impl View for Claims {
    type V = ClaimsView;

    open spec fn view(&self) -> ClaimsView {
        ClaimsView {
            iss: self.iss@,
            sub: self.sub@,
            scope: self.scope@,
            aud: self.aud@,
            exp: self.exp,
            iat: self.iat,
        }
    }
}

/// Where the lookup of a directory access token stands.
#[derive(Debug, Clone, PartialEq, Eq)]
pub enum ServiceTokenFlow {
    /// The cache was asked.
    AwaitCache,
    /// The host was asked for the service account's key and the time.
    AwaitAccount,
    /// The assertion was handed over for signing.
    AwaitSigned,
    /// The token endpoint was asked.
    AwaitGrant,
    /// The granted token is being written to the cache.
    AwaitStored { token: String },
    /// The lookup is over.
    Done,
}

/// `ServiceTokenFlow` over sequences.
pub enum ServiceTokenFlowView {
    AwaitCache,
    AwaitAccount,
    AwaitSigned,
    AwaitGrant,
    AwaitStored { token: Seq<char> },
    Done,
}

impl View for ServiceTokenFlow {
    type V = ServiceTokenFlowView;

    open spec fn view(&self) -> ServiceTokenFlowView {
        match self {
            ServiceTokenFlow::AwaitCache => ServiceTokenFlowView::AwaitCache,
            ServiceTokenFlow::AwaitAccount => ServiceTokenFlowView::AwaitAccount,
            ServiceTokenFlow::AwaitSigned => ServiceTokenFlowView::AwaitSigned,
            ServiceTokenFlow::AwaitGrant => ServiceTokenFlowView::AwaitGrant,
            ServiceTokenFlow::AwaitStored { token } => ServiceTokenFlowView::AwaitStored {
                token: token@,
            },
            ServiceTokenFlow::Done => ServiceTokenFlowView::Done,
        }
    }
}

/// What the host reports to the lookup of a directory access token.
#[derive(Debug)]
pub enum ServiceTokenEvent {
    /// What the cache held.
    Cached(Result<Option<String>, HandlerError>),
    /// The service account's key, and the time now in seconds since the
    /// epoch.
    Account { account: Result<ServiceAccount, HandlerError>, now: i64 },
    /// The signed assertion.
    Signed(Result<String, HandlerError>),
    /// The access token that the token endpoint granted.
    Granted(Result<String, HandlerError>),
    /// The cache was written.
    Stored(Result<(), HandlerError>),
}

/// `ServiceTokenEvent` over sequences.
pub enum ServiceTokenEventView {
    Cached(Result<Option<Seq<char>>, HandlerErrorView>),
    Account { account: Result<ServiceAccountView, HandlerErrorView>, now: i64 },
    Signed(Result<Seq<char>, HandlerErrorView>),
    Granted(Result<Seq<char>, HandlerErrorView>),
    Stored(Result<(), HandlerErrorView>),
}

impl View for ServiceTokenEvent {
    type V = ServiceTokenEventView;

    open spec fn view(&self) -> ServiceTokenEventView {
        match self {
            ServiceTokenEvent::Cached(cached) => ServiceTokenEventView::Cached(found_view(*cached)),
            ServiceTokenEvent::Account { account, now } => ServiceTokenEventView::Account {
                account: result_view(*account),
                now: *now,
            },
            ServiceTokenEvent::Signed(signed) => ServiceTokenEventView::Signed(result_view(*signed)),
            ServiceTokenEvent::Granted(granted) => ServiceTokenEventView::Granted(
                result_view(*granted),
            ),
            ServiceTokenEvent::Stored(stored) => ServiceTokenEventView::Stored(result_view(*stored)),
        }
    }
}

/// What the lookup of a directory access token asks of the host.
#[derive(Debug)]
pub enum ServiceTokenAction {
    /// Read the cache.
    Load(KvGet),
    /// Read the service account's key from the secrets, and the clock.
    ReadAccount,
    /// Sign the claims with the service account's private key.
    Sign { claims: Claims, private_key: String },
    /// Post the form to the token endpoint.
    RequestToken { url: String, form: Vec<(String, String)> },
    /// Write the granted token to the cache.
    Store(KvPut<String>),
    /// Use this token.
    Ready(String),
    /// Give up.
    Fail(HandlerError),
    /// Nothing: the lookup was over, or the report was not the one awaited.
    Ignore,
}

/// `ServiceTokenAction` over sequences.
pub enum ServiceTokenActionView {
    Load(KvGetView),
    ReadAccount,
    Sign { claims: ClaimsView, private_key: Seq<char> },
    RequestToken { url: Seq<char>, form: Seq<(Seq<char>, Seq<char>)> },
    Store(KvPutView<Seq<char>>),
    Ready(Seq<char>),
    Fail(HandlerErrorView),
    Ignore,
}

impl View for ServiceTokenAction {
    type V = ServiceTokenActionView;

    open spec fn view(&self) -> ServiceTokenActionView {
        match self {
            ServiceTokenAction::Load(get) => ServiceTokenActionView::Load(get@),
            ServiceTokenAction::ReadAccount => ServiceTokenActionView::ReadAccount,
            ServiceTokenAction::Sign { claims, private_key } => ServiceTokenActionView::Sign {
                claims: claims@,
                private_key: private_key@,
            },
            ServiceTokenAction::RequestToken { url, form } => ServiceTokenActionView::RequestToken {
                url: url@,
                form: pairs_view(form@),
            },
            ServiceTokenAction::Store(put) => ServiceTokenActionView::Store(put@),
            ServiceTokenAction::Ready(token) => ServiceTokenActionView::Ready(token@),
            ServiceTokenAction::Fail(e) => ServiceTokenActionView::Fail(e@),
            ServiceTokenAction::Ignore => ServiceTokenActionView::Ignore,
        }
    }
}

/// A step of the lookup of a directory access token.
pub type ServiceTokenStep = (ServiceTokenFlow, ServiceTokenAction);

/// `ServiceTokenStep` over sequences.
pub type ServiceTokenStepView = (ServiceTokenFlowView, ServiceTokenActionView);

/// The view of a step.
pub open spec fn step_view(step: ServiceTokenStep) -> ServiceTokenStepView {
    (step.0@, step.1@)
}

/// The step that gives up.
pub open spec fn spec_fail(e: HandlerErrorView) -> ServiceTokenStepView {
    (ServiceTokenFlowView::Done, ServiceTokenActionView::Fail(e))
}

/// The step that hands out a token.
pub open spec fn spec_ready(token: Seq<char>) -> ServiceTokenStepView {
    (ServiceTokenFlowView::Done, ServiceTokenActionView::Ready(token))
}

/// The claims of the assertion made at the time `now`: the service account
/// asks, in the name of the administrator, to read groups, for an hour.
pub open spec fn spec_claims(
    secrets: Seq<Seq<char>>,
    account: ServiceAccountView,
    now: i64,
) -> ClaimsView {
    ClaimsView {
        iss: account.client_email,
        sub: secrets[Secret::GOOGLE_ADMIN_EMAIL.spec_index()],
        scope: DIRECTORY_SCOPE@,
        aud: TOKEN_URL@,
        exp: (now + TOKEN_LIFETIME) as i64,
        iat: now,
    }
}

/// The form that asks the token endpoint for access on the strength of a
/// signed assertion.
pub open spec fn spec_grant_form(assertion: Seq<char>) -> Seq<(Seq<char>, Seq<char>)> {
    seq![("grant_type"@, JWT_BEARER@), ("assertion"@, assertion)]
}

/// The first step of the lookup: the cache is asked.
pub open spec fn spec_start() -> ServiceTokenStepView {
    (
        ServiceTokenFlowView::AwaitCache,
        ServiceTokenActionView::Load(
            KvGetView { kv_name: KV_CACHE@, key: KEY_SERVICEACCOUNT_OAUTH_TOKEN@ },
        ),
    )
}

/// The step that a report of the host leads to. A cached token is used. On
/// a miss an assertion is made and signed, the token endpoint is asked, and
/// what it grants is cached for a minute less than it is good for and then
/// used. Any failure ends the lookup. A report that is not the one awaited
/// changes nothing.
pub open spec fn spec_step(
    secrets: Seq<Seq<char>>,
    state: ServiceTokenFlowView,
    event: ServiceTokenEventView,
) -> ServiceTokenStepView {
    match (state, event) {
        (ServiceTokenFlowView::AwaitCache, ServiceTokenEventView::Cached(Err(e))) => spec_fail(e),
        (ServiceTokenFlowView::AwaitCache, ServiceTokenEventView::Cached(Ok(Some(token)))) => {
            spec_ready(token)
        },
        (ServiceTokenFlowView::AwaitCache, ServiceTokenEventView::Cached(Ok(None))) => (
            ServiceTokenFlowView::AwaitAccount,
            ServiceTokenActionView::ReadAccount,
        ),
        (
            ServiceTokenFlowView::AwaitAccount,
            ServiceTokenEventView::Account { account: Err(e), now },
        ) => spec_fail(e),
        (
            ServiceTokenFlowView::AwaitAccount,
            ServiceTokenEventView::Account { account: Ok(account), now },
        ) => (
            ServiceTokenFlowView::AwaitSigned,
            ServiceTokenActionView::Sign {
                claims: spec_claims(secrets, account, now),
                private_key: account.private_key,
            },
        ),
        (ServiceTokenFlowView::AwaitSigned, ServiceTokenEventView::Signed(Err(e))) => spec_fail(e),
        (ServiceTokenFlowView::AwaitSigned, ServiceTokenEventView::Signed(Ok(assertion))) => (
            ServiceTokenFlowView::AwaitGrant,
            ServiceTokenActionView::RequestToken {
                url: TOKEN_URL@,
                form: spec_grant_form(assertion),
            },
        ),
        (ServiceTokenFlowView::AwaitGrant, ServiceTokenEventView::Granted(Err(e))) => spec_fail(e),
        (ServiceTokenFlowView::AwaitGrant, ServiceTokenEventView::Granted(Ok(token))) => (
            ServiceTokenFlowView::AwaitStored { token },
            ServiceTokenActionView::Store(
                KvPutView {
                    kv_name: KV_CACHE@,
                    key: KEY_SERVICEACCOUNT_OAUTH_TOKEN@,
                    value: token,
                    ttl: TOKEN_CACHE_TTL,
                },
            ),
        ),
        (
            ServiceTokenFlowView::AwaitStored { token },
            ServiceTokenEventView::Stored(Err(e)),
        ) => spec_fail(e),
        (ServiceTokenFlowView::AwaitStored { token }, ServiceTokenEventView::Stored(Ok(_))) => {
            spec_ready(token)
        },
        _ => (state, ServiceTokenActionView::Ignore),
    }
}

/// Whether the time that an event reports leaves room for an assertion's
/// lifetime.
pub open spec fn time_in_range(event: ServiceTokenEventView) -> bool {
    event matches ServiceTokenEventView::Account { now, .. } ==> now + TOKEN_LIFETIME <= i64::MAX
}

/// Starts the lookup of a directory access token: the cache is asked.
pub fn get_access_token() -> (step: ServiceTokenStep)
    ensures
        step_view(step) == spec_start(),
{
    (
        ServiceTokenFlow::AwaitCache,
        ServiceTokenAction::Load(kv_get(KV_CACHE, KEY_SERVICEACCOUNT_OAUTH_TOKEN)),
    )
}

/// Takes the lookup of a directory access token one step on.
pub fn access_token_step(
    secrets: &Secrets,
    state: ServiceTokenFlow,
    event: ServiceTokenEvent,
) -> (step: ServiceTokenStep)
    requires
        time_in_range(event@),
    ensures
        step_view(step) == spec_step(secrets@, state@, event@),
{
    match (state, event) {
        (ServiceTokenFlow::AwaitCache, ServiceTokenEvent::Cached(Err(e))) => (
            ServiceTokenFlow::Done,
            ServiceTokenAction::Fail(e),
        ),
        (ServiceTokenFlow::AwaitCache, ServiceTokenEvent::Cached(Ok(Some(token)))) => (
            ServiceTokenFlow::Done,
            ServiceTokenAction::Ready(token),
        ),
        (ServiceTokenFlow::AwaitCache, ServiceTokenEvent::Cached(Ok(None))) => (
            ServiceTokenFlow::AwaitAccount,
            ServiceTokenAction::ReadAccount,
        ),
        (ServiceTokenFlow::AwaitAccount, ServiceTokenEvent::Account { account: Err(e), now }) => (
            ServiceTokenFlow::Done,
            ServiceTokenAction::Fail(e),
        ),
        (
            ServiceTokenFlow::AwaitAccount,
            ServiceTokenEvent::Account { account: Ok(account), now },
        ) => {
            let claims = Claims {
                iss: account.client_email,
                sub: String::from_str(get_secret(secrets, Secret::GOOGLE_ADMIN_EMAIL)),
                scope: String::from_str(DIRECTORY_SCOPE),
                aud: String::from_str(TOKEN_URL),
                exp: now + TOKEN_LIFETIME,
                iat: now,
            };
            (
                ServiceTokenFlow::AwaitSigned,
                ServiceTokenAction::Sign { claims, private_key: account.private_key },
            )
        },
        (ServiceTokenFlow::AwaitSigned, ServiceTokenEvent::Signed(Err(e))) => (
            ServiceTokenFlow::Done,
            ServiceTokenAction::Fail(e),
        ),
        (ServiceTokenFlow::AwaitSigned, ServiceTokenEvent::Signed(Ok(assertion))) => {
            let mut form: Vec<(String, String)> = Vec::new();
            form.push((String::from_str("grant_type"), String::from_str(JWT_BEARER)));
            form.push((String::from_str("assertion"), assertion));
            assert(pairs_view(form@) =~= spec_grant_form(assertion@));
            (
                ServiceTokenFlow::AwaitGrant,
                ServiceTokenAction::RequestToken { url: String::from_str(TOKEN_URL), form },
            )
        },
        (ServiceTokenFlow::AwaitGrant, ServiceTokenEvent::Granted(Err(e))) => (
            ServiceTokenFlow::Done,
            ServiceTokenAction::Fail(e),
        ),
        (ServiceTokenFlow::AwaitGrant, ServiceTokenEvent::Granted(Ok(token))) => {
            let store = kv_put(
                KV_CACHE,
                KEY_SERVICEACCOUNT_OAUTH_TOKEN,
                token.clone(),
                Ttl::minutes(59),
            );
            (ServiceTokenFlow::AwaitStored { token }, ServiceTokenAction::Store(store))
        },
        (ServiceTokenFlow::AwaitStored { token }, ServiceTokenEvent::Stored(Err(e))) => (
            ServiceTokenFlow::Done,
            ServiceTokenAction::Fail(e),
        ),
        (ServiceTokenFlow::AwaitStored { token }, ServiceTokenEvent::Stored(Ok(_))) => (
            ServiceTokenFlow::Done,
            ServiceTokenAction::Ready(token),
        ),
        (state, _) => (state, ServiceTokenAction::Ignore),
    }
}

} // verus!
