//! The records that tie the steps of a login together, and the requests that
//! the broker makes of the state store that keeps them.
//!
//! The store keeps a value under a name of a store and a key until its time
//! to live has passed. A write replaces what was there and starts the time
//! anew. The broker never performs a request itself: it says which request is
//! due and is told the outcome. What it takes the store to do with a request
//! is written down in `store_put`, `store_get` and `store_delete`.

use vstd::prelude::*;
use vstd::string::StringExecFns;
use crate::consts::KV_REFRESH_TOKEN_STATE;
use crate::uri::RedirectUri;

verus! {

/// What the authorization endpoint remembers of a request while the user is
/// at the upstream provider.
#[derive(Debug, Clone, PartialEq, Eq)]
pub struct GenericAuthorizeState<S, U, N> {
    pub client_id: S,
    pub client_redirect: U,
    pub client_state: S,
    pub client_nonce: S,
    pub google_nonce: N,
    pub groups_scope: bool,
}

/// The pending authorization as it is stored.
pub type AuthorizeState = GenericAuthorizeState<String, RedirectUri, String>;

/// The pending authorization over sequences.
pub type AuthorizeStateView = GenericAuthorizeState<Seq<char>, Seq<char>, Seq<char>>;

impl<S: View, U: View, N: View> View for GenericAuthorizeState<S, U, N> {
    type V = GenericAuthorizeState<S::V, U::V, N::V>;

    open spec fn view(&self) -> GenericAuthorizeState<S::V, U::V, N::V> {
        GenericAuthorizeState {
            client_id: self.client_id@,
            client_redirect: self.client_redirect@,
            client_state: self.client_state@,
            client_nonce: self.client_nonce@,
            google_nonce: self.google_nonce@,
            groups_scope: self.groups_scope,
        }
    }
}

/// What every token exchange needs to know of the login it belongs to.
#[derive(Debug, Clone, PartialEq, Eq)]
pub struct GenericCommonTokenState<S, N> {
    pub client_id: S,
    pub client_nonce: S,
    pub google_nonce: N,
    pub groups_scope: bool,
}

/// The common token state as it is stored.
pub type CommonTokenState = GenericCommonTokenState<String, String>;

/// The common token state over sequences.
pub type CommonTokenStateView = GenericCommonTokenState<Seq<char>, Seq<char>>;

impl<S: View, N: View> View for GenericCommonTokenState<S, N> {
    type V = GenericCommonTokenState<S::V, N::V>;

    open spec fn view(&self) -> GenericCommonTokenState<S::V, N::V> {
        GenericCommonTokenState {
            client_id: self.client_id@,
            client_nonce: self.client_nonce@,
            google_nonce: self.google_nonce@,
            groups_scope: self.groups_scope,
        }
    }
}

/// What the callback endpoint leaves for the token endpoint: the login, the
/// client's redirect URI, and the upstream authorization code.
#[derive(Debug, Clone, PartialEq, Eq)]
pub struct GenericAccessTokenState<C, U, A> {
    pub common: C,
    pub client_redirect: U,
    pub google_code: A,
}

/// The access exchange state as it is stored.
pub type AccessTokenState = GenericAccessTokenState<CommonTokenState, RedirectUri, String>;

/// The access exchange state over sequences.
pub type AccessTokenStateView = GenericAccessTokenState<CommonTokenStateView, Seq<char>, Seq<char>>;

impl<C: View, U: View, A: View> View for GenericAccessTokenState<C, U, A> {
    type V = GenericAccessTokenState<C::V, U::V, A::V>;

    open spec fn view(&self) -> GenericAccessTokenState<C::V, U::V, A::V> {
        GenericAccessTokenState {
            common: self.common@,
            client_redirect: self.client_redirect@,
            google_code: self.google_code@,
        }
    }
}

/// What stands behind a local refresh token: the login and the upstream
/// refresh credential.
#[derive(Debug, Clone, PartialEq, Eq)]
pub struct RefreshTokenState {
    pub common: CommonTokenState,
    pub google_refresh: String,
}

/// `RefreshTokenState` over sequences.
pub struct RefreshTokenStateView {
    pub common: CommonTokenStateView,
    pub google_refresh: Seq<char>,
}

impl View for RefreshTokenState {
    type V = RefreshTokenStateView;

    open spec fn view(&self) -> RefreshTokenStateView {
        RefreshTokenStateView { common: self.common@, google_refresh: self.google_refresh@ }
    }
}

/// The upstream provider's discovery document with its key set beside it:
/// the document's own serialization leaves the keys out.
#[derive(Debug, Clone, PartialEq, Eq)]
pub struct GenericStoredProviderMetadata<CP, CJ> {
    pub metadata: CP,
    pub jwks: CJ,
}

/// For how long the store keeps a value, in seconds.
#[derive(Debug, Clone, Copy, PartialEq, Eq)]
pub struct Ttl {
    pub seconds: u64,
}

impl Ttl {
    /// A time to live of so many minutes.
    pub fn minutes(minutes: u32) -> (ttl: Ttl)
        ensures
            ttl.seconds == minutes * 60,
    {
        Ttl { seconds: minutes as u64 * 60 }
    }

    /// A time to live of so many hours.
    pub fn hours(hours: u32) -> (ttl: Ttl)
        ensures
            ttl.seconds == hours * 3600,
    {
        Ttl { seconds: hours as u64 * 3600 }
    }

    /// A time to live of so many days.
    pub fn days(days: u32) -> (ttl: Ttl)
        ensures
            ttl.seconds == days * 86400,
    {
        Ttl { seconds: days as u64 * 86400 }
    }
}

/// The seconds for which a pending authorization and an access exchange
/// state are kept: ten minutes.
pub const SHORT_TTL: u64 = 600;

/// The seconds for which a refresh state is kept, a little under the year
/// for which the upstream refresh credential lasts: 364 days.
pub const REFRESH_TTL: u64 = 31_449_600;

/// The seconds for which the upstream provider's metadata is cached: one hour.
pub const METADATA_TTL: u64 = 3600;

/// The request to read the value under a key.
#[derive(Debug, Clone, PartialEq, Eq)]
pub struct KvGet {
    pub kv_name: String,
    pub key: String,
}

/// `KvGet` over sequences.
pub struct KvGetView {
    pub kv_name: Seq<char>,
    pub key: Seq<char>,
}

impl View for KvGet {
    type V = KvGetView;

    open spec fn view(&self) -> KvGetView {
        KvGetView { kv_name: self.kv_name@, key: self.key@ }
    }
}

/// The request to write a value under a key, to be kept for `ttl` seconds.
#[derive(Debug, Clone, PartialEq, Eq)]
pub struct KvPut<V> {
    pub kv_name: String,
    pub key: String,
    pub value: V,
    pub ttl: u64,
}

/// `KvPut` over sequences.
pub struct KvPutView<V> {
    pub kv_name: Seq<char>,
    pub key: Seq<char>,
    pub value: V,
    pub ttl: u64,
}

impl<V: View> View for KvPut<V> {
    type V = KvPutView<V::V>;

    open spec fn view(&self) -> KvPutView<V::V> {
        KvPutView { kv_name: self.kv_name@, key: self.key@, value: self.value@, ttl: self.ttl }
    }
}

/// The request to remove the value under a key.
#[derive(Debug, Clone, PartialEq, Eq)]
pub struct KvDelete {
    pub kv_name: String,
    pub key: String,
}

/// `KvDelete` over sequences.
pub struct KvDeleteView {
    pub kv_name: Seq<char>,
    pub key: Seq<char>,
}

impl View for KvDelete {
    type V = KvDeleteView;

    open spec fn view(&self) -> KvDeleteView {
        KvDeleteView { kv_name: self.kv_name@, key: self.key@ }
    }
}

/// Asks for the value under `key` in the store `kv_name`.
pub fn kv_get(kv_name: &str, key: &str) -> (request: KvGet)
    ensures
        request@ == (KvGetView { kv_name: kv_name@, key: key@ }),
{
    KvGet { kv_name: String::from_str(kv_name), key: String::from_str(key) }
}

/// Asks to write `value` under `key` in the store `kv_name`, replacing what
/// is there, and to keep it for `ttl`.
pub fn kv_put<V>(kv_name: &str, key: &str, value: V, ttl: Ttl) -> (request: KvPut<V>)
    ensures
        request.kv_name@ == kv_name@,
        request.key@ == key@,
        request.value == value,
        request.ttl == ttl.seconds,
{
    KvPut {
        kv_name: String::from_str(kv_name),
        key: String::from_str(key),
        value,
        ttl: ttl.seconds,
    }
}

/// Asks to remove the value under `key` in the store `kv_name`.
pub fn kv_delete(kv_name: &str, key: &str) -> (request: KvDelete)
    ensures
        request@ == (KvDeleteView { kv_name: kv_name@, key: key@ }),
{
    KvDelete { kv_name: String::from_str(kv_name), key: String::from_str(key) }
}

/// The request that stores a refresh state under the client's refresh token.
pub open spec fn spec_store_refresh_token_state(
    client_refresh_token: Seq<char>,
    state: RefreshTokenStateView,
) -> KvPutView<RefreshTokenStateView> {
    KvPutView {
        kv_name: KV_REFRESH_TOKEN_STATE@,
        key: client_refresh_token,
        value: state,
        ttl: REFRESH_TTL,
    }
}

/// Asks to store a refresh state under the client's refresh token, for 364
/// days from now.
pub fn store_refresh_token_state(client_refresh_token: &str, state: RefreshTokenState) -> (request:
    KvPut<RefreshTokenState>)
    ensures
        request@ == spec_store_refresh_token_state(client_refresh_token@, state@),
{
    kv_put(KV_REFRESH_TOKEN_STATE, client_refresh_token, state, Ttl::days(364))
}

/// A value in the store with the time at which it expires.
pub struct Entry<V> {
    pub value: V,
    pub expires: int,
}

/// What the store holds: for a store's name and a key, at most one entry.
pub type Store<V> = Map<(Seq<char>, Seq<char>), Entry<V>>;

/// The store after a write at the time `now`.
pub open spec fn store_put<V>(store: Store<V>, put: KvPutView<V>, now: int) -> Store<V> {
    store.insert((put.kv_name, put.key), Entry { value: put.value, expires: now + put.ttl })
}

/// The store after the removal of a key.
pub open spec fn store_delete<V>(store: Store<V>, kv_name: Seq<char>, key: Seq<char>) -> Store<V> {
    store.remove((kv_name, key))
}

/// What a read at the time `now` finds under a key: the value written last,
/// unless it was removed or its time to live has passed.
pub open spec fn store_get<V>(
    store: Store<V>,
    kv_name: Seq<char>,
    key: Seq<char>,
    now: int,
) -> Option<V> {
    if store.dom().contains((kv_name, key)) && now < store[(kv_name, key)].expires {
        Some(store[(kv_name, key)].value)
    } else {
        None
    }
}

/// A value that was written is read back unchanged until its time to live
/// has passed, and is absent from then on; other keys are as they were.
pub proof fn lemma_put_then_get<V>(store: Store<V>, put: KvPutView<V>, now: int, later: int)
    requires
        now <= later,
    ensures
        later < now + put.ttl ==> store_get(store_put(store, put, now), put.kv_name, put.key, later)
            == Some(put.value),
        later >= now + put.ttl ==> store_get(store_put(store, put, now), put.kv_name, put.key, later)
            is None,
        forall|kv_name: Seq<char>, key: Seq<char>|
            (kv_name, key) != (put.kv_name, put.key) ==> #[trigger] store_get(
                store_put(store, put, now),
                kv_name,
                key,
                later,
            ) == store_get(store, kv_name, key, later),
{
}

/// Of two writes under one key the later one counts: what is read is the
/// value of the later write, for as long as that write keeps it.
pub proof fn lemma_last_write_wins<V>(
    store: Store<V>,
    first: KvPutView<V>,
    second: KvPutView<V>,
    earlier: int,
    now: int,
    later: int,
)
    requires
        first.kv_name == second.kv_name,
        first.key == second.key,
        now <= later,
    ensures
        store_get(
            store_put(store_put(store, first, earlier), second, now),
            second.kv_name,
            second.key,
            later,
        ) == if later < now + second.ttl {
            Some(second.value)
        } else {
            None
        },
{
}

/// A key that was removed is absent at every later time; other keys are as
/// they were.
pub proof fn lemma_delete_then_get<V>(
    store: Store<V>,
    kv_name: Seq<char>,
    key: Seq<char>,
    later: int,
)
    ensures
        store_get(store_delete(store, kv_name, key), kv_name, key, later) is None,
        forall|other_kv: Seq<char>, other_key: Seq<char>|
            (other_kv, other_key) != (kv_name, key) ==> #[trigger] store_get(
                store_delete(store, kv_name, key),
                other_kv,
                other_key,
                later,
            ) == store_get(store, other_kv, other_key, later),
{
}

} // verus!
