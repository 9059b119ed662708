use std::sync::Arc;
use vstd::prelude::*;
use vstd::string::StringExecFns;

use crate::configs;
use crate::storage::tables::Tables;
use crate::storage::types::{NewTransaction, Transaction, User, UserNew, UserUpdateInternal};
use crate::storage::{Cacheable, TransactionInterface, UserInterface};

verus! {

/// `moka::sync::Cache`, as a value that only the functions below look into.
#[verifier::external_type_specification]
#[verifier::external_body]
#[verifier::reject_recursive_types(K)]
#[verifier::reject_recursive_types(V)]
#[verifier::reject_recursive_types(S)]
pub struct ExMokaCache<K, V, S>(moka::sync::Cache<K, V, S>);

/// The cache a store has for the rows of `U`.
pub type TableCache<T, U> = moka::sync::Cache<
    <T as Cacheable<U>>::Key,
    Arc<<T as Cacheable<U>>::Value>,
>;

/// What an account cache was given: for each key, the value last inserted
/// under it. The cache may have dropped any of them since.
pub uninterp spec fn user_entries(cache: moka::sync::Cache<String, Arc<User>>) -> Map<
    Seq<char>,
    User,
>;

/// What a transfer cache was given: for each key, the value last inserted
/// under it. The cache may have dropped any of them since.
pub uninterp spec fn transaction_entries(
    cache: moka::sync::Cache<String, Arc<Transaction>>,
) -> Map<Seq<char>, Transaction>;

/// The bounds an account cache was built with: the number of entries it
/// holds at most and, in seconds, the time after which an entry that is not
/// read is dropped, if there is one. They stay as they were built.
pub uninterp spec fn user_cache_bounds(
    cache: moka::sync::Cache<String, Arc<User>>,
) -> configs::CacheConfig;

/// The bounds a transfer cache was built with: the number of entries it
/// holds at most and, in seconds, the time after which an entry that is not
/// read is dropped, if there is one. They stay as they were built.
pub uninterp spec fn transaction_cache_bounds(
    cache: moka::sync::Cache<String, Arc<Transaction>>,
) -> configs::CacheConfig;

/// An account cache without expiry.
///
/// Calls `moka::sync::CacheBuilder::new`, `name` and `build`. The cache is
/// new, so nothing was inserted into it, and it is bounded by the capacity
/// given to `new` and by no idle time.
#[verifier::external_body]
fn build_user_cache(max_capacity: u64, name: &str) -> (cache: moka::sync::Cache<String, Arc<User>>)
    ensures
        forall|key: Seq<char>| !user_entries(cache).contains_key(key),
        user_cache_bounds(cache).max_capacity == max_capacity,
        user_cache_bounds(cache).tti is None,
{
    moka::sync::CacheBuilder::new(max_capacity).name(name).build()
}

/// An account cache whose entries expire when idle for `seconds`.
///
/// Calls `moka::sync::CacheBuilder::new`, `name`, `time_to_idle` and `build`;
/// `build` panics on an idle time of more than a thousand years. The cache is
/// new, so nothing was inserted into it, and it is bounded by the capacity
/// given to `new` and the idle time given to `time_to_idle`.
#[verifier::external_body]
fn build_idle_user_cache(max_capacity: u64, name: &str, seconds: u64) -> (cache: moka::sync::Cache<
    String,
    Arc<User>,
>)
    requires
        seconds <= configs::MAX_TIME_TO_IDLE,
    ensures
        forall|key: Seq<char>| !user_entries(cache).contains_key(key),
        user_cache_bounds(cache).max_capacity == max_capacity,
        user_cache_bounds(cache).tti == Some(seconds),
{
    moka::sync::CacheBuilder::new(max_capacity).name(name).time_to_idle(
        std::time::Duration::from_secs(seconds),
    ).build()
}

/// A transfer cache without expiry.
///
/// Calls `moka::sync::CacheBuilder::new`, `name` and `build`. The cache is
/// new, so nothing was inserted into it, and it is bounded by the capacity
/// given to `new` and by no idle time.
#[verifier::external_body]
fn build_transaction_cache(max_capacity: u64, name: &str) -> (cache: moka::sync::Cache<
    String,
    Arc<Transaction>,
>)
    ensures
        forall|key: Seq<char>| !transaction_entries(cache).contains_key(key),
        transaction_cache_bounds(cache).max_capacity == max_capacity,
        transaction_cache_bounds(cache).tti is None,
{
    moka::sync::CacheBuilder::new(max_capacity).name(name).build()
}

/// A transfer cache whose entries expire when idle for `seconds`.
///
/// Calls `moka::sync::CacheBuilder::new`, `name`, `time_to_idle` and `build`;
/// `build` panics on an idle time of more than a thousand years. The cache is
/// new, so nothing was inserted into it, and it is bounded by the capacity
/// given to `new` and the idle time given to `time_to_idle`.
#[verifier::external_body]
fn build_idle_transaction_cache(max_capacity: u64, name: &str, seconds: u64) -> (cache:
    moka::sync::Cache<String, Arc<Transaction>>)
    requires
        seconds <= configs::MAX_TIME_TO_IDLE,
    ensures
        forall|key: Seq<char>| !transaction_entries(cache).contains_key(key),
        transaction_cache_bounds(cache).max_capacity == max_capacity,
        transaction_cache_bounds(cache).tti == Some(seconds),
{
    moka::sync::CacheBuilder::new(max_capacity).name(name).time_to_idle(
        std::time::Duration::from_secs(seconds),
    ).build()
}

/// Reads an account cache.
///
/// Calls `moka::sync::Cache::get`, which gives the value stored under the
/// key unless the entry was evicted or has expired. So what it gives is what
/// was last inserted under the key; that it gives anything is not claimed.
#[verifier::external_body]
fn get_user(cache: &moka::sync::Cache<String, Arc<User>>, key: &String) -> (found: Option<
    Arc<User>,
>)
    ensures
        found matches Some(value) ==> user_entries(*cache).contains_key(key@) && *value
            == user_entries(*cache)[key@],
{
    cache.get(key)
}

/// Writes to an account cache.
///
/// Calls `moka::sync::Cache::insert`, which stores the value under the key
/// and replaces what was there. The bounds of a cache do not change after
/// it is built.
#[verifier::external_body]
fn insert_user(cache: &mut moka::sync::Cache<String, Arc<User>>, key: String, value: Arc<User>)
    ensures
        user_entries(*final(cache)) == user_entries(*old(cache)).insert(key@, *value),
        user_cache_bounds(*final(cache)) == user_cache_bounds(*old(cache)),
{
    cache.insert(key, value)
}

/// Reads a transfer cache.
///
/// Calls `moka::sync::Cache::get`, which gives the value stored under the
/// key unless the entry was evicted or has expired. So what it gives is what
/// was last inserted under the key; that it gives anything is not claimed.
#[verifier::external_body]
fn get_transaction(cache: &moka::sync::Cache<String, Arc<Transaction>>, key: &String) -> (found:
    Option<Arc<Transaction>>)
    ensures
        found matches Some(value) ==> transaction_entries(*cache).contains_key(key@) && *value
            == transaction_entries(*cache)[key@],
{
    cache.get(key)
}

/// Writes to a transfer cache.
///
/// Calls `moka::sync::Cache::insert`, which stores the value under the key
/// and replaces what was there. The bounds of a cache do not change after
/// it is built.
#[verifier::external_body]
fn insert_transaction(
    cache: &mut moka::sync::Cache<String, Arc<Transaction>>,
    key: String,
    value: Arc<Transaction>,
)
    ensures
        transaction_entries(*final(cache)) == transaction_entries(*old(cache)).insert(
            key@,
            *value,
        ),
        transaction_cache_bounds(*final(cache)) == transaction_cache_bounds(*old(cache)),
{
    cache.insert(key, value)
}

/// A store with a cache in front of each of its tables.
///
/// Reads go to the cache first and to the store on a miss, and what the
/// store answers is written to the cache. Writes go to the store and leave
/// the caches alone, so a cached row may be older than the stored one until
/// it is written again or dropped.
pub struct Caching<T> where
    T: Cacheable<User, Key = String, Value = User> + Cacheable<
        Transaction,
        Key = String,
        Value = Transaction,
    >,
 {
    inner: T,
    user_cache: TableCache<T, User>,
    txn_cache: TableCache<T, Transaction>,
}

/// Whether `found` is what a lookup of `key` may give from a cache that was
/// given `entries`: nothing, or the value last written under the key.
pub open spec fn may_find<V>(entries: Map<Seq<char>, V>, key: Seq<char>, found: Option<V>) -> bool {
    found matches Some(value) ==> entries.contains_key(key) && value == entries[key]
}

/// Lookups of one key, with nothing written to the cache in between, agree:
/// those that find something find the same value.
pub proof fn lemma_lookups_agree<V>(
    entries: Map<Seq<char>, V>,
    key: Seq<char>,
    first: Option<V>,
    second: Option<V>,
)
    requires
        may_find(entries, key, first),
        may_find(entries, key, second),
        first is Some,
        second is Some,
    ensures
        first == second,
{
}

/// After a value was written under a key, a lookup of the key finds that
/// value or nothing, and a lookup of another key finds what it could find
/// before.
pub proof fn lemma_lookup_after_write<V>(
    entries: Map<Seq<char>, V>,
    key: Seq<char>,
    value: V,
    other: Seq<char>,
    found: Option<V>,
)
    requires
        may_find(entries.insert(key, value), other, found),
    ensures
        other == key && found is Some ==> found == Some(value),
        other != key ==> may_find(entries, other, found),
        !entries.contains_key(other) && other != key ==> found is None,
{
}

/// A copy of what a cache gave: the value behind the shared pointer, cloned,
/// or nothing where the cache gave nothing.
pub fn snapshot<V: Clone>(shared: Option<Arc<V>>) -> (copy: Option<V>)
    ensures
        match shared {
            Some(value) => copy matches Some(cloned) && vstd::pervasive::cloned::<V>(
                *value,
                cloned,
            ),
            None => copy is None,
        },
{
    match shared {
        Some(value) => Some((*value).clone()),
        None => None,
    }
}

/// The cache that a [`Caching`] has for the rows of `U`.
pub trait GetCache<T, U> where T: Cacheable<U, Key = String> {
    /// What the cache was given: for each key, the value last written under
    /// it.
    spec fn entries(&self) -> Map<Seq<char>, <T as Cacheable<U>>::Value>;

    /// A copy of the cached value, if the cache still holds one. What is
    /// found is what was last written under the key.
    fn find(&self, key: &String) -> (found: Option<<T as Cacheable<U>>::Value>)
        ensures
            may_find(self.entries(), key@, found),
    ;

    /// Whether `after` differs from this at most in what this cache was
    /// given: the store, what every other cache was given and the bounds of
    /// all caches are the same.
    spec fn same_elsewhere(&self, after: &Self) -> bool;

    /// Writes a value under a key and replaces what was there. Nothing
    /// else changes.
    fn keep(&mut self, key: String, value: <T as Cacheable<U>>::Value)
        ensures
            final(self).entries() == old(self).entries().insert(key@, value),
            old(self).same_elsewhere(final(self)),
    ;
}

impl<T> Caching<T> where
    T: Cacheable<User, Key = String, Value = User> + Cacheable<
        Transaction,
        Key = String,
        Value = Transaction,
    >,
 {
    /// The store behind the caches.
    pub closed spec fn inner(&self) -> T {
        self.inner
    }

    /// What the account cache was given.
    pub closed spec fn users(&self) -> Map<Seq<char>, User> {
        user_entries(self.user_cache)
    }

    /// What the transfer cache was given.
    pub closed spec fn transactions(&self) -> Map<Seq<char>, Transaction> {
        transaction_entries(self.txn_cache)
    }

    /// The bounds the account cache was built with.
    pub closed spec fn user_bounds(&self) -> configs::CacheConfig {
        user_cache_bounds(self.user_cache)
    }

    /// The bounds the transfer cache was built with.
    pub closed spec fn transaction_bounds(&self) -> configs::CacheConfig {
        transaction_cache_bounds(self.txn_cache)
    }

    /// Whether `after` has the store of this and caches built with the
    /// bounds of the caches of this.
    pub open spec fn same_store_and_bounds(&self, after: &Self) -> bool {
        &&& after.inner() == self.inner()
        &&& after.user_bounds() == self.user_bounds()
        &&& after.transaction_bounds() == self.transaction_bounds()
    }

    /// The store behind the caches.
    pub fn store(&self) -> (store: &T)
        ensures
            *store == self.inner(),
    {
        &self.inner
    }
}

impl<T> Caching<T> where
    T: Cacheable<User, Key = String, Value = User> + Cacheable<
        Transaction,
        Key = String,
        Value = Transaction,
    > + View<V = Tables>,
 {
    /// Whether what the account cache was given under `key`, if anything, is
    /// a row that the store holds under that identifier now.
    pub open spec fn user_is_current(&self, key: Seq<char>) -> bool {
        self.users().contains_key(key) ==> exists|i: int|
            #[trigger] self.inner()@.user_at(key, i) && self.users()[key] == self.inner()@.users[i]
    }

    /// Whether the account cache holds no row that the store has replaced.
    pub open spec fn users_are_current(&self) -> bool {
        forall|key: Seq<char>| #[trigger] self.user_is_current(key)
    }

    /// Whether what the transfer cache was given under `key`, if anything,
    /// is a row that the ledger holds under that identifier.
    pub open spec fn transaction_is_current(&self, key: Seq<char>) -> bool {
        self.transactions().contains_key(key) ==> exists|i: int|
            #[trigger] self.inner()@.transaction_at(key, i) && self.transactions()[key]
                == self.inner()@.transactions[i]
    }

    /// Whether the transfer cache holds only rows of the ledger.
    pub open spec fn transactions_are_current(&self) -> bool {
        forall|key: Seq<char>| #[trigger] self.transaction_is_current(key)
    }

    /// Whether `after` keeps what is current under `key` for accounts: the
    /// rows that the store holds under the key are still there, and the
    /// cache's entry for the key is as it was or is such a row.
    pub open spec fn keeps_user(&self, after: &Self, key: Seq<char>) -> bool {
        &&& forall|i: int|
            #[trigger] self.inner()@.user_at(key, i) ==> after.inner()@.user_at(key, i)
                && after.inner()@.users[i] == self.inner()@.users[i]
        &&& after.users().contains_key(key) ==> {
            ||| self.users().contains_key(key) && after.users()[key] == self.users()[key]
            ||| after.user_is_current(key)
        }
    }

    /// Whether `after` keeps what is current under `key` for transfers: the
    /// rows that the ledger holds under the key are still there, and the
    /// cache's entry for the key is as it was or is such a row.
    pub open spec fn keeps_transaction(&self, after: &Self, key: Seq<char>) -> bool {
        &&& forall|i: int|
            #[trigger] self.inner()@.transaction_at(key, i) ==> after.inner()@.transaction_at(
                key,
                i,
            ) && after.inner()@.transactions[i] == self.inner()@.transactions[i]
        &&& after.transactions().contains_key(key) ==> {
            ||| self.transactions().contains_key(key) && after.transactions()[key]
                == self.transactions()[key]
            ||| after.transaction_is_current(key)
        }
    }
}

/// What a cache holds under a key stays current through a change that keeps
/// the rows the store holds under the key and that leaves the entry as it
/// was or writes a row that the store holds under the key.
pub proof fn lemma_stays_current<T>(before: Caching<T>, after: Caching<T>) where
    T: Cacheable<User, Key = String, Value = User> + Cacheable<
        Transaction,
        Key = String,
        Value = Transaction,
    > + View<V = Tables>,

    ensures
        forall|key: Seq<char>|
            before.user_is_current(key) && before.keeps_user(&after, key)
                ==> #[trigger] after.user_is_current(key),
        forall|key: Seq<char>|
            before.transaction_is_current(key) && before.keeps_transaction(&after, key)
                ==> #[trigger] after.transaction_is_current(key),
{
    assert forall|key: Seq<char>|
        before.user_is_current(key) && before.keeps_user(
            &after,
            key,
        ) implies #[trigger] after.user_is_current(key) by {
        if after.users().contains_key(key) && before.users().contains_key(key) && after.users()[key]
            == before.users()[key] {
            let i = choose|i: int|
                #[trigger] before.inner()@.user_at(key, i) && before.users()[key]
                    == before.inner()@.users[i];
            assert(after.inner()@.user_at(key, i));
        }
    }
    assert forall|key: Seq<char>|
        before.transaction_is_current(key) && before.keeps_transaction(
            &after,
            key,
        ) implies #[trigger] after.transaction_is_current(key) by {
        if after.transactions().contains_key(key) && before.transactions().contains_key(key)
            && after.transactions()[key] == before.transactions()[key] {
            let i = choose|i: int|
                #[trigger] before.inner()@.transaction_at(key, i) && before.transactions()[key]
                    == before.inner()@.transactions[i];
            assert(after.inner()@.transaction_at(key, i));
        }
    }
}

impl<T> GetCache<T, User> for Caching<T> where
    T: Cacheable<User, Key = String, Value = User> + Cacheable<
        Transaction,
        Key = String,
        Value = Transaction,
    >,
 {
    open spec fn entries(&self) -> Map<Seq<char>, User> {
        self.users()
    }

    fn find(&self, key: &String) -> (found: Option<User>) {
        snapshot(get_user(&self.user_cache, key))
    }

    open spec fn same_elsewhere(&self, after: &Self) -> bool {
        self.same_store_and_bounds(after) && after.transactions() == self.transactions()
    }

    fn keep(&mut self, key: String, value: User) {
        insert_user(&mut self.user_cache, key, Arc::new(value));
    }
}

impl<T> GetCache<T, Transaction> for Caching<T> where
    T: Cacheable<User, Key = String, Value = User> + Cacheable<
        Transaction,
        Key = String,
        Value = Transaction,
    >,
 {
    open spec fn entries(&self) -> Map<Seq<char>, Transaction> {
        self.transactions()
    }

    fn find(&self, key: &String) -> (found: Option<Transaction>) {
        snapshot(get_transaction(&self.txn_cache, key))
    }

    open spec fn same_elsewhere(&self, after: &Self) -> bool {
        self.same_store_and_bounds(after) && after.users() == self.users()
    }

    fn keep(&mut self, key: String, value: Transaction) {
        insert_transaction(&mut self.txn_cache, key, Arc::new(value));
    }
}

/// A new account cache within the configured bounds.
fn new_user_cache(config: &configs::CacheConfig, name: &str) -> (cache: moka::sync::Cache<
    String,
    Arc<User>,
>)
    requires
        config.is_valid(),
    ensures
        user_entries(cache) =~= Map::empty(),
        user_cache_bounds(cache) == *config,
{
    match config.tti {
        Some(seconds) => build_idle_user_cache(config.max_capacity, name, seconds),
        None => build_user_cache(config.max_capacity, name),
    }
}

/// A new transfer cache within the configured bounds.
fn new_transaction_cache(config: &configs::CacheConfig, name: &str) -> (cache: moka::sync::Cache<
    String,
    Arc<Transaction>,
>)
    requires
        config.is_valid(),
    ensures
        transaction_entries(cache) =~= Map::empty(),
        transaction_cache_bounds(cache) == *config,
{
    match config.tti {
        Some(seconds) => build_idle_transaction_cache(config.max_capacity, name, seconds),
        None => build_transaction_cache(config.max_capacity, name),
    }
}

impl<T> Caching<T> where
    T: Cacheable<User, Key = String, Value = User> + Cacheable<
        Transaction,
        Key = String,
        Value = Transaction,
    >,
 {
    /// Puts an empty cache in front of each table of `inner`, each bounded as
    /// `config` says.
    pub fn implement_cache(config: &configs::CacheConfig, inner: T) -> (caching: Self)
        requires
            config.is_valid(),
        ensures
            caching.inner() == inner,
            caching.users() =~= Map::empty(),
            caching.transactions() =~= Map::empty(),
            caching.user_bounds() == *config,
            caching.transaction_bounds() == *config,
    {
        let user_cache = new_user_cache(config, "user");
        let txn_cache = new_transaction_cache(config, "transaction");
        Self { inner, user_cache, txn_cache }
    }

    /// As [`Caching::implement_cache`], unless a cache cannot be built with
    /// the bounds of `config`: then the store is handed back.
    pub fn try_implement_cache(config: &configs::CacheConfig, inner: T) -> (built: Result<Self, T>)
        ensures
            match built {
                Ok(caching) => {
                    &&& config.is_valid()
                    &&& caching.inner() == inner
                    &&& caching.users() =~= Map::empty()
                    &&& caching.transactions() =~= Map::empty()
                    &&& caching.user_bounds() == *config
                    &&& caching.transaction_bounds() == *config
                },
                Err(store) => !config.is_valid() && store == inner,
            },
    {
        if config.validate() {
            Ok(Self::implement_cache(config, inner))
        } else {
            Err(inner)
        }
    }

    /// Settles a read that missed the cache: what the store answered is
    /// handed on as it is, and an account it found is written to the account
    /// cache under `key`.
    pub fn remember_user<E>(&mut self, key: String, fetched: Result<User, E>) -> (answer: Result<
        User,
        E,
    >)
        ensures
            answer == fetched,
            old(self).same_store_and_bounds(final(self)),
            final(self).transactions() == old(self).transactions(),
            final(self).users() == (match fetched {
                Ok(user) => old(self).users().insert(key@, user),
                Err(_) => old(self).users(),
            }),
    {
        match fetched {
            Ok(user) => {
                GetCache::<T, User>::keep(self, key, user.clone());
                Ok(user)
            },
            Err(error) => Err(error),
        }
    }

    /// Settles a read that missed the cache: what the store answered is
    /// handed on as it is, and a transfer it found is written to the transfer
    /// cache under `key`.
    pub fn remember_transaction<E>(&mut self, key: String, fetched: Result<Transaction, E>) -> (answer:
        Result<Transaction, E>)
        ensures
            answer == fetched,
            old(self).same_store_and_bounds(final(self)),
            final(self).users() == old(self).users(),
            final(self).transactions() == (match fetched {
                Ok(row) => old(self).transactions().insert(key@, row),
                Err(_) => old(self).transactions(),
            }),
    {
        match fetched {
            Ok(row) => {
                GetCache::<T, Transaction>::keep(self, key, row.clone());
                Ok(row)
            },
            Err(error) => Err(error),
        }
    }

    /// A copy of what the cache for the rows of `U` holds under `key`, if it
    /// still holds anything. The store is not asked. What is found is what
    /// was last written under the key with [`Caching::cache_data`], so as
    /// long as nothing is written in between, every lookup that finds
    /// something finds the same.
    pub fn lookup<U>(&self, key: String) -> (found: Option<<T as Cacheable<U>>::Value>) where
        T: Cacheable<U, Key = String>,
        Self: GetCache<T, U>,

        ensures
            may_find(GetCache::<T, U>::entries(self), key@, found),
    {
        GetCache::<T, U>::find(self, &key)
    }

    /// Writes `value` under `key` to the cache for the rows of `U`, in place
    /// of what was there. The store, the cache for the other rows and the
    /// bounds of both caches stay as they are.
    pub fn cache_data<U>(&mut self, key: String, value: <T as Cacheable<U>>::Value) where
        T: Cacheable<U, Key = String>,
        Self: GetCache<T, U>,

        ensures
            GetCache::<T, U>::entries(final(self)) == GetCache::<T, U>::entries(old(self)).insert(
                key@,
                value,
            ),
            GetCache::<T, U>::same_elsewhere(old(self), final(self)),
    {
        GetCache::<T, U>::keep(self, key, value)
    }
}

impl<T> Caching<T> where
    T: Cacheable<User, Key = String, Value = User> + Cacheable<
        Transaction,
        Key = String,
        Value = Transaction,
    > + UserInterface,
 {
    /// The account known by `user_id`, given what the account cache gave
    /// for it: the cached account if there is one, and then nothing changes;
    /// else what the store answers, and an account it finds is cached.
    pub fn user_or_fetch(&mut self, cached: Option<User>, user_id: &str) -> (found: Result<
        User,
        <T as UserInterface>::Error,
    >)
        ensures
            old(self).same_store_and_bounds(final(self)),
            final(self).transactions() == old(self).transactions(),
            match cached {
                Some(user) => found == Ok::<User, <T as UserInterface>::Error>(user) && final(self).users() == old(self).users(),
                None => match found {
                    Ok(user) => {
                        &&& old(self).inner().user_lookup_failure(user_id@) is None
                        &&& exists|i: int|
                            old(self).inner()@.user_at(user_id@, i) && user == old(self).inner()@.users[i]
                        &&& final(self).users() == old(self).users().insert(user_id@, user)
                    },
                    Err(error) => {
                        &&& old(self).inner().user_lookup_failure(user_id@) == Some(error)
                        &&& final(self).users() == old(self).users()
                    },
                },
            },
    {
        match cached {
            Some(user) => Ok(user),
            None => {
                let fetched = self.inner.get_user_by_user_id(user_id);
                self.remember_user(String::from_str(user_id), fetched)
            },
        }
    }

    /// The account known by `user_id`: the cached one if the cache holds
    /// one, else what the store answers, which is then cached. The store is
    /// asked at most once, and only on a miss. So the read succeeds wherever
    /// the store finds the account, and fails only as the store does.
    pub fn get_user_by_user_id(&mut self, user_id: &str) -> (found: Result<
        User,
        <T as UserInterface>::Error,
    >)
        ensures
            old(self).same_store_and_bounds(final(self)),
            final(self).transactions() == old(self).transactions(),
            match found {
                Ok(user) => {
                    ||| {
                        &&& old(self).users().contains_key(user_id@)
                        &&& user == old(self).users()[user_id@]
                        &&& final(self).users() == old(self).users()
                    }
                    ||| {
                        &&& old(self).inner().user_lookup_failure(user_id@) is None
                        &&& exists|i: int|
                            old(self).inner()@.user_at(user_id@, i) && user == old(self).inner()@.users[i]
                        &&& final(self).users() == old(self).users().insert(user_id@, user)
                    }
                },
                Err(error) => {
                    &&& old(self).inner().user_lookup_failure(user_id@) == Some(error)
                    &&& final(self).users() == old(self).users()
                },
            },
            old(self).users_are_current() ==> {
                &&& final(self).users_are_current()
                &&& found matches Ok(user) ==> exists|i: int|
                    #[trigger] old(self).inner()@.user_at(user_id@, i) && user == old(self).inner()@.users[i]
            },
            old(self).transactions_are_current() ==> final(self).transactions_are_current(),
    {
        let key = String::from_str(user_id);
        let cached = GetCache::<T, User>::find(self, &key);
        let answer = self.user_or_fetch(cached, user_id);
        proof {
            lemma_stays_current(*old(self), *self);
            if old(self).users_are_current() {
                assert(old(self).user_is_current(user_id@));
            }
            if answer is Ok && cached is None {
                let i = choose|i: int|
                    old(self).inner()@.user_at(user_id@, i) && answer->Ok_0 == old(self).inner()@.users[i];
                assert(self.inner()@.user_at(user_id@, i));
                assert(self.user_is_current(user_id@));
            }
        }
        answer
    }

    /// The account with this email. The cache is keyed by identifier, so the
    /// store is asked; an account it finds is cached under its identifier.
    pub fn get_user_by_email(&mut self, email: &str) -> (found: Result<
        User,
        <T as UserInterface>::Error,
    >)
        ensures
            old(self).same_store_and_bounds(final(self)),
            final(self).transactions() == old(self).transactions(),
            match found {
                Ok(user) => {
                    &&& old(self).inner().email_lookup_failure(email@) is None
                    &&& exists|i: int|
                        old(self).inner()@.email_at(email@, i) && user == old(self).inner()@.users[i]
                    &&& final(self).users() == old(self).users().insert(user.user_id@, user)
                },
                Err(error) => {
                    &&& old(self).inner().email_lookup_failure(email@) == Some(error)
                    &&& final(self).users() == old(self).users()
                },
            },
            old(self).users_are_current() ==> final(self).users_are_current(),
            old(self).transactions_are_current() ==> final(self).transactions_are_current(),
    {
        let fetched = self.inner.get_user_by_email(email);
        let answer = match fetched {
            Ok(user) => {
                let key = user.user_id.clone();
                self.remember_user(key, Ok(user))
            },
            Err(error) => Err(error),
        };
        proof {
            lemma_stays_current(*old(self), *self);
            if answer is Ok {
                let i = choose|i: int|
                    old(self).inner()@.email_at(email@, i) && answer->Ok_0 == old(self).inner()@.users[i];
                assert(self.inner()@.user_at(answer->Ok_0.user_id@, i));
                assert(self.user_is_current(answer->Ok_0.user_id@));
            }
        }
        answer
    }

    /// Inserts an account into the store. The caches are left alone.
    pub fn create_user(&mut self, user: UserNew) -> (created: Result<
        User,
        <T as UserInterface>::Error,
    >)
        ensures
            final(self).users() == old(self).users(),
            final(self).transactions() == old(self).transactions(),
            final(self).user_bounds() == old(self).user_bounds(),
            final(self).transaction_bounds() == old(self).transaction_bounds(),
            match created {
                Ok(row) => {
                    &&& old(self).inner().create_user_failure(user) is None
                    &&& old(self).inner()@.accepts_user(user)
                    &&& row == old(self).inner()@.user_row(user, row.created_at)
                    &&& final(self).inner()@ == old(self).inner()@.with_user(user, row.created_at)
                },
                Err(error) => {
                    &&& old(self).inner().create_user_failure(user) == Some(error)
                    &&& final(self).inner()@ == old(self).inner()@
                },
            },
            old(self).users_are_current() ==> final(self).users_are_current(),
            old(self).transactions_are_current() ==> final(self).transactions_are_current(),
    {
        let created = self.inner.create_user(user);
        proof {
            lemma_stays_current(*old(self), *self);
        }
        created
    }

    /// Updates an account in the store. The caches are left alone: until the
    /// account is read from the store again, the account cache may hold the
    /// row as it was.
    pub fn update_user(&mut self, user_id: &str, user: UserUpdateInternal) -> (updated: Result<
        User,
        <T as UserInterface>::Error,
    >)
        ensures
            final(self).users() == old(self).users(),
            final(self).transactions() == old(self).transactions(),
            final(self).user_bounds() == old(self).user_bounds(),
            final(self).transaction_bounds() == old(self).transaction_bounds(),
            match updated {
                Ok(row) => {
                    &&& old(self).inner().update_user_failure(user_id@, user) is None
                    &&& old(self).inner()@.update_yields(user_id@, user, row, final(self).inner()@)
                },
                Err(error) => {
                    &&& old(self).inner().update_user_failure(user_id@, user) == Some(error)
                    &&& final(self).inner()@ == old(self).inner()@
                },
            },
            forall|key: Seq<char>|
                key != user_id@ && old(self).user_is_current(key) ==> #[trigger] final(self).user_is_current(key),
            updated is Err && old(self).users_are_current() ==> final(self).users_are_current(),
            old(self).transactions_are_current() ==> final(self).transactions_are_current(),
    {
        let updated = self.inner.update_user(user_id, user);
        proof {
            lemma_stays_current(*old(self), *self);
        }
        updated
    }
}

impl<T> Caching<T> where
    T: Cacheable<User, Key = String, Value = User> + Cacheable<
        Transaction,
        Key = String,
        Value = Transaction,
    > + TransactionInterface,
 {
    /// The transfer known by `transaction_id`, given what the transfer cache
    /// gave for it: the cached transfer if there is one, and then nothing
    /// changes; else what the store answers, and a transfer it finds is
    /// cached.
    pub fn transaction_or_fetch(&mut self, cached: Option<Transaction>, transaction_id: &str) -> (found:
        Result<Transaction, <T as TransactionInterface>::Error>)
        ensures
            old(self).same_store_and_bounds(final(self)),
            final(self).users() == old(self).users(),
            match cached {
                Some(row) => found == Ok::<Transaction, <T as TransactionInterface>::Error>(row)
                    && final(self).transactions() == old(self).transactions(),
                None => match found {
                    Ok(row) => {
                        &&& old(self).inner().transaction_lookup_failure(transaction_id@) is None
                        &&& exists|i: int|
                            old(self).inner()@.transaction_at(transaction_id@, i) && row == old(self).inner()@.transactions[i]
                        &&& final(self).transactions() == old(self).transactions().insert(
                            transaction_id@,
                            row,
                        )
                    },
                    Err(error) => {
                        &&& old(self).inner().transaction_lookup_failure(transaction_id@) == Some(
                            error,
                        )
                        &&& final(self).transactions() == old(self).transactions()
                    },
                },
            },
    {
        match cached {
            Some(row) => Ok(row),
            None => {
                let fetched = self.inner.get_transaction_by_id(transaction_id);
                self.remember_transaction(String::from_str(transaction_id), fetched)
            },
        }
    }

    /// The transfer known by `transaction_id`: the cached one if the cache
    /// holds one, else what the store answers, which is then cached. The
    /// store is asked at most once, and only on a miss. So the read succeeds
    /// wherever the store finds the transfer, and fails only as the store
    /// does.
    pub fn get_transaction_by_id(&mut self, transaction_id: &str) -> (found: Result<
        Transaction,
        <T as TransactionInterface>::Error,
    >)
        ensures
            old(self).same_store_and_bounds(final(self)),
            final(self).users() == old(self).users(),
            match found {
                Ok(row) => {
                    ||| {
                        &&& old(self).transactions().contains_key(transaction_id@)
                        &&& row == old(self).transactions()[transaction_id@]
                        &&& final(self).transactions() == old(self).transactions()
                    }
                    ||| {
                        &&& old(self).inner().transaction_lookup_failure(transaction_id@) is None
                        &&& exists|i: int|
                            old(self).inner()@.transaction_at(transaction_id@, i) && row == old(self).inner()@.transactions[i]
                        &&& final(self).transactions() == old(self).transactions().insert(
                            transaction_id@,
                            row,
                        )
                    }
                },
                Err(error) => {
                    &&& old(self).inner().transaction_lookup_failure(transaction_id@) == Some(error)
                    &&& final(self).transactions() == old(self).transactions()
                },
            },
            old(self).transactions_are_current() ==> {
                &&& final(self).transactions_are_current()
                &&& found matches Ok(row) ==> exists|i: int|
                    #[trigger] old(self).inner()@.transaction_at(transaction_id@, i) && row == old(self).inner()@.transactions[i]
            },
            old(self).users_are_current() ==> final(self).users_are_current(),
    {
        let key = String::from_str(transaction_id);
        let cached = GetCache::<T, Transaction>::find(self, &key);
        let answer = self.transaction_or_fetch(cached, transaction_id);
        proof {
            lemma_stays_current(*old(self), *self);
            if old(self).transactions_are_current() {
                assert(old(self).transaction_is_current(transaction_id@));
            }
            if answer is Ok && cached is None {
                let i = choose|i: int|
                    old(self).inner()@.transaction_at(transaction_id@, i) && answer->Ok_0 == old(self).inner()@.transactions[i];
                assert(self.inner()@.transaction_at(transaction_id@, i));
                assert(self.transaction_is_current(transaction_id@));
            }
        }
        answer
    }

    /// A page of the transfers of the account `user_id`, as the store lists
    /// them. The caches are neither asked nor written.
    pub fn list_transactions(&self, user_id: &str, offset: u64, limit: u64) -> (listed: Result<
        (Vec<Transaction>, u64),
        <T as TransactionInterface>::Error,
    >)
        ensures
            match listed {
                Ok(page) => {
                    &&& self.inner().list_failure(user_id@, offset, limit) is None
                    &&& page.0@ == self.inner()@.page_of(user_id@, offset as int, limit as int)
                    &&& page.1 == self.inner()@.transactions_of(user_id@).len()
                },
                Err(error) => self.inner().list_failure(user_id@, offset, limit) == Some(error),
            },
    {
        self.inner.list_transactions(user_id, offset, limit)
    }

    /// Executes a transfer in the store. The caches are left alone: until
    /// the two accounts are read from the store again, the account cache may
    /// hold their balances as they were.
    pub fn create_transaction(&mut self, transaction: NewTransaction) -> (created: Result<
        Transaction,
        <T as TransactionInterface>::Error,
    >)
        ensures
            final(self).users() == old(self).users(),
            final(self).transactions() == old(self).transactions(),
            final(self).user_bounds() == old(self).user_bounds(),
            final(self).transaction_bounds() == old(self).transaction_bounds(),
            match created {
                Ok(row) => {
                    &&& old(self).inner().transfer_failure(transaction) is None
                    &&& old(self).inner()@.transfer_refusal(transaction) is None
                    &&& row == old(self).inner()@.transfer_row(transaction)
                    &&& final(self).inner()@ == old(self).inner()@.transfer_applied(transaction)
                },
                Err(error) => {
                    &&& old(self).inner().transfer_failure(transaction) == Some(error)
                    &&& final(self).inner()@ == old(self).inner()@
                },
            },
            old(self).transactions_are_current() ==> final(self).transactions_are_current(),
            forall|key: Seq<char>|
                key != transaction.sender_id@ && key != transaction.recipient_id@ && old(self).user_is_current(key) ==> #[trigger] final(self).user_is_current(key),
            created is Err && old(self).users_are_current() ==> final(self).users_are_current(),
    {
        let created = self.inner.create_transaction(transaction);
        proof {
            lemma_stays_current(*old(self), *self);
        }
        created
    }
}

} // verus!
