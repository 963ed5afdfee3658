//! The cache-aside copy of entitlements: what is asked of the key-value
//! store, what its answers mean, and a store that lives in memory.

use crate::entitlement::{Entitlement, EntitlementView};
use crate::error::{ValidatorError, ValidatorErrorView};
use crate::keyed::KeyedList;
use vstd::prelude::*;
use vstd::string::StringExecFns;

verus! {

/// The client of the `redis` crate, carried through as it is.
#[verifier::external_type_specification]
#[verifier::external_body]
pub struct ExStoreClient(redis::Client);

/// What is wrong with the address of a key-value store given as text: the
/// words of the refusal, or `None` where the text is such an address.
pub uninterp spec fn store_fault(redis_url: Seq<char>) -> Option<Seq<char>>;

/// Builds a client for a key-value store with `redis::Client::open`, which
/// checks the address and opens no connection. What it makes of an address
/// depends on the text and on how the `redis` crate is built, here without
/// TLS, and on nothing else. The contract names the refusal and says that a
/// client comes back exactly where there is none.
#[verifier::external_body]
fn open_store(redis_url: &str) -> (outcome: Result<redis::Client, String>)
    ensures
        match outcome {
            Ok(_) => store_fault(redis_url@) is None,
            Err(words) => store_fault(redis_url@) == Some(words@),
        },
{
    match redis::Client::open(redis_url) {
        Ok(client) => Ok(client),
        Err(fault) => Err(fault.to_string()),
    }
}

/// A local copy of an entitlement, with the rate that its holder may be
/// held to where one is known. It lives for a fixed time and never counts
/// for more than the ledger's record.
#[derive(Debug, Clone)]
pub struct CachedEntitlement {
    pub entitlement: Entitlement,
    pub rate_limit_per_second: Option<u32>,
}

/// The mathematical value of a [`CachedEntitlement`].
pub struct CachedEntitlementView {
    pub entitlement: EntitlementView,
    pub rate_limit_per_second: Option<u32>,
}

impl View for CachedEntitlement {
    type V = CachedEntitlementView;

    open spec fn view(&self) -> CachedEntitlementView {
        CachedEntitlementView {
            entitlement: self.entitlement@,
            rate_limit_per_second: self.rate_limit_per_second,
        }
    }
}

impl CachedEntitlementView {
    /// The copy of a record as the ledger gave it.
    pub open spec fn of(entitlement: EntitlementView) -> CachedEntitlementView {
        CachedEntitlementView { entitlement, rate_limit_per_second: None }
    }

    /// The copy after `amount` units were consumed.
    pub open spec fn consumed(self, amount: int) -> CachedEntitlementView {
        CachedEntitlementView { entitlement: self.entitlement.consumed(amount), ..self }
    }
}

impl CachedEntitlement {
    /// The copy of a record as the ledger gave it.
    pub fn from_entitlement(entitlement: Entitlement) -> (copy: CachedEntitlement)
        ensures
            copy@ == CachedEntitlementView::of(entitlement@),
    {
        CachedEntitlement { entitlement, rate_limit_per_second: None }
    }

    /// A copy of the copy.
    pub fn duplicate(&self) -> (copy: CachedEntitlement)
        ensures
            copy@ == self@,
    {
        CachedEntitlement {
            entitlement: self.entitlement.duplicate(),
            rate_limit_per_second: self.rate_limit_per_second,
        }
    }
}

/// What is asked of the key-value store.
#[derive(Debug, Clone)]
pub enum CacheCommand {
    /// Read the value of a key.
    Get { key: String },
    /// Write the value of a key, to live for a number of seconds.
    SetEx { key: String, value: CachedEntitlement, seconds: u64 },
    /// Remove a key.
    Del { key: String },
}

/// The mathematical value of a [`CacheCommand`].
pub enum CacheCommandView {
    Get { key: Seq<char> },
    SetEx { key: Seq<char>, value: CachedEntitlementView, seconds: u64 },
    Del { key: Seq<char> },
}

impl View for CacheCommand {
    type V = CacheCommandView;

    open spec fn view(&self) -> CacheCommandView {
        match *self {
            CacheCommand::Get { key } => CacheCommandView::Get { key: key@ },
            CacheCommand::SetEx { key, value, seconds } => CacheCommandView::SetEx {
                key: key@,
                value: value@,
                seconds,
            },
            CacheCommand::Del { key } => CacheCommandView::Del { key: key@ },
        }
    }
}

/// What the key-value store answered.
#[derive(Debug, Clone)]
pub enum CacheReply {
    /// The key holds this copy.
    Hit(CachedEntitlement),
    /// The key holds nothing.
    Miss,
    /// The key holds something that is no copy of an entitlement.
    Undecodable,
    /// The write or the removal was carried out.
    Done,
    /// The store could not be reached or refused, with its words.
    Failed(String),
}

/// The mathematical value of a [`CacheReply`].
pub enum CacheReplyView {
    Hit(CachedEntitlementView),
    Miss,
    Undecodable,
    Done,
    Failed(Seq<char>),
}

impl View for CacheReply {
    type V = CacheReplyView;

    open spec fn view(&self) -> CacheReplyView {
        match *self {
            CacheReply::Hit(copy) => CacheReplyView::Hit(copy@),
            CacheReply::Miss => CacheReplyView::Miss,
            CacheReply::Undecodable => CacheReplyView::Undecodable,
            CacheReply::Done => CacheReplyView::Done,
            CacheReply::Failed(words) => CacheReplyView::Failed(words@),
        }
    }
}

/// The key under which the copy of an entitlement is kept: its identifier
/// behind a prefix that keeps it apart from whatever else the store holds.
pub open spec fn key_of(entitlement_id: Seq<char>) -> Seq<char> {
    "ent:"@ + entitlement_id
}

/// What an answer to a read holds: the copy on a hit, nothing on a miss,
/// and nothing where the value cannot be read as a copy, since the ledger
/// can still be asked. A store that failed is reported as `CacheError`.
pub open spec fn read_of(reply: CacheReplyView) -> Result<
    Option<CachedEntitlementView>,
    ValidatorErrorView,
> {
    match reply {
        CacheReplyView::Hit(copy) => Ok(Some(copy)),
        CacheReplyView::Failed(words) => Err(ValidatorErrorView::CacheError(words)),
        _ => Ok(None),
    }
}

/// The cache of entitlements in a key-value store: the store's client and
/// the time that every copy lives.
pub struct EntitlementCache {
    client: redis::Client,
    ttl_seconds: u64,
}

impl EntitlementCache {
    /// The seconds that every copy lives.
    pub closed spec fn ttl(&self) -> u64 {
        self.ttl_seconds
    }

    /// The store's client that the cache holds: the one that was built for
    /// the address the cache was made with.
    pub closed spec fn store(&self) -> redis::Client {
        self.client
    }

    /// The read of a copy.
    pub open spec fn get_of(entitlement_id: Seq<char>) -> CacheCommandView {
        CacheCommandView::Get { key: key_of(entitlement_id) }
    }

    /// The write of a copy, to live for `ttl` seconds.
    pub open spec fn set_of(
        entitlement_id: Seq<char>,
        copy: CachedEntitlementView,
        ttl: u64,
    ) -> CacheCommandView {
        CacheCommandView::SetEx { key: key_of(entitlement_id), value: copy, seconds: ttl }
    }

    /// The removal of a copy.
    pub open spec fn invalidate_of(entitlement_id: Seq<char>) -> CacheCommandView {
        CacheCommandView::Del { key: key_of(entitlement_id) }
    }

    /// A cache in the store at `redis_url` whose copies live `ttl_seconds`.
    /// No connection is opened. An address that the store's client refuses
    /// is reported as `RedisError`, with the client's words.
    pub fn new(redis_url: &str, ttl_seconds: u64) -> (cache: Result<EntitlementCache, ValidatorError>)
        ensures
            match cache {
                Ok(cache) => store_fault(redis_url@) is None && cache.ttl() == ttl_seconds,
                Err(error) => store_fault(redis_url@) is Some && error@
                    == ValidatorErrorView::RedisError(store_fault(redis_url@)->0),
            },
    {
        match open_store(redis_url) {
            Ok(client) => Ok(EntitlementCache { client, ttl_seconds }),
            Err(words) => Err(ValidatorError::RedisError(words)),
        }
    }

    /// The client through which the store is reached: the one that the
    /// cache holds, and no other.
    pub fn client(&self) -> (client: &redis::Client)
        ensures
            *client == self.store(),
    {
        &self.client
    }

    /// The seconds that every copy lives.
    pub fn ttl_seconds(&self) -> (seconds: u64)
        ensures
            seconds == self.ttl(),
    {
        self.ttl_seconds
    }

    /// The key under which the copy of an entitlement is kept.
    pub fn key(entitlement_id: &str) -> (key: String)
        ensures
            key@ == key_of(entitlement_id@),
    {
        "ent:".to_owned().concat(entitlement_id)
    }

    /// What to ask of the store to read the copy of an entitlement.
    pub fn get(&self, entitlement_id: &str) -> (command: CacheCommand)
        ensures
            command@ == Self::get_of(entitlement_id@),
    {
        CacheCommand::Get { key: Self::key(entitlement_id) }
    }

    /// What to ask of the store to keep a copy of an entitlement: a write
    /// under the entitlement's key that lives as long as this cache lets
    /// every copy live.
    pub fn set(&self, entitlement_id: &str, entitlement: CachedEntitlement) -> (command: CacheCommand)
        ensures
            command@ == Self::set_of(entitlement_id@, entitlement@, self.ttl()),
    {
        CacheCommand::SetEx {
            key: Self::key(entitlement_id),
            value: entitlement,
            seconds: self.ttl_seconds,
        }
    }

    /// What to ask of the store to drop the copy of an entitlement.
    pub fn invalidate(&self, entitlement_id: &str) -> (command: CacheCommand)
        ensures
            command@ == Self::invalidate_of(entitlement_id@),
    {
        CacheCommand::Del { key: Self::key(entitlement_id) }
    }

    /// What the store's answer to a read holds.
    pub fn read(reply: CacheReply) -> (outcome: Result<Option<CachedEntitlement>, ValidatorError>)
        ensures
            match outcome {
                Ok(Some(copy)) => read_of(reply@) == Ok::<
                    Option<CachedEntitlementView>,
                    ValidatorErrorView,
                >(Some(copy@)),
                Ok(None) => read_of(reply@) == Ok::<
                    Option<CachedEntitlementView>,
                    ValidatorErrorView,
                >(None),
                Err(error) => read_of(reply@) == Err::<
                    Option<CachedEntitlementView>,
                    ValidatorErrorView,
                >(error@),
            },
    {
        match reply {
            CacheReply::Hit(copy) => Ok(Some(copy)),
            CacheReply::Failed(words) => Err(ValidatorError::CacheError(words)),
            _ => Ok(None),
        }
    }
}

/// What a store holds under one key: the copy, and the time from which on
/// it is gone.
pub struct Stored {
    pub value: CachedEntitlementView,
    pub deadline: int,
}

/// What a store holds.
pub type StoreModel = Map<Seq<char>, Stored>;

/// What a store holds after a command carried out at `now`. A read changes
/// nothing; a write replaces what the key held and lives for its seconds; a
/// removal leaves the key empty.
pub open spec fn store_after(store: StoreModel, command: CacheCommandView, now: u64) -> StoreModel {
    match command {
        CacheCommandView::Get { key } => store,
        CacheCommandView::SetEx { key, value, seconds } => store.insert(
            key,
            Stored { value, deadline: now + seconds },
        ),
        CacheCommandView::Del { key } => store.remove(key),
    }
}

/// What a store answers to a command carried out at `now`: to a read the
/// copy under the key while it lives, and a miss otherwise.
pub open spec fn store_reply(store: StoreModel, command: CacheCommandView, now: u64) -> CacheReplyView {
    match command {
        CacheCommandView::Get { key } => if store.dom().contains(key) && now < store[key].deadline {
            CacheReplyView::Hit(store[key].value)
        } else {
            CacheReplyView::Miss
        },
        _ => CacheReplyView::Done,
    }
}

/// What the store in memory holds under one key.
struct Slot {
    value: CachedEntitlement,
    deadline: u128,
}

/// What a slot, if there is one, stands for.
spec fn stored(slot: Option<Slot>) -> Stored {
    Stored { value: slot->0.value@, deadline: slot->0.deadline as int }
}

/// A key-value store that lives in memory and lets its values expire.
pub struct MemoryStore {
    slots: KeyedList<Slot>,
}

impl View for MemoryStore {
    type V = StoreModel;

    closed spec fn view(&self) -> StoreModel {
        Map::new(
            |key: Seq<char>| self.slots.lookup(key) is Some,
            |key: Seq<char>| stored(self.slots.lookup(key)),
        )
    }
}

impl MemoryStore {
    /// A store that holds nothing.
    pub fn new() -> (store: MemoryStore)
        ensures
            store@ == Map::<Seq<char>, Stored>::empty(),
    {
        let store = MemoryStore { slots: KeyedList::new() };
        proof {
            assert(store@ =~= Map::<Seq<char>, Stored>::empty());
        }
        store
    }

    /// Carries out a command at `now` (unix seconds) and answers it.
    pub fn execute(&mut self, command: CacheCommand, now: u64) -> (reply: CacheReply)
        ensures
            final(self)@ == store_after(old(self)@, command@, now),
            reply@ == store_reply(old(self)@, command@, now),
    {
        match command {
            CacheCommand::Get { key } => match self.slots.get(key.as_str()) {
                Some(slot) => if (now as u128) < slot.deadline {
                    CacheReply::Hit(slot.value.duplicate())
                } else {
                    CacheReply::Miss
                },
                None => CacheReply::Miss,
            },
            CacheCommand::SetEx { key, value, seconds } => {
                let deadline: u128 = now as u128 + seconds as u128;
                self.slots.put(key.as_str(), Slot { value, deadline });
                proof {
                    assert(final(self)@ =~= store_after(old(self)@, command@, now));
                }
                CacheReply::Done
            },
            CacheCommand::Del { key } => {
                self.slots.remove(key.as_str());
                proof {
                    assert(final(self)@ =~= store_after(old(self)@, command@, now));
                }
                CacheReply::Done
            },
        }
    }
}

/// Two entitlements are kept under one key only where they are one
/// entitlement.
pub proof fn law_keys_do_not_collide(first: Seq<char>, second: Seq<char>)
    ensures
        key_of(first) == key_of(second) <==> first == second,
{
    if key_of(first) == key_of(second) {
        let prefix = "ent:"@;
        assert(first =~= key_of(first).subrange(prefix.len() as int, key_of(first).len() as int));
        assert(second =~= key_of(second).subrange(
            prefix.len() as int,
            key_of(second).len() as int,
        ));
    }
}

/// The round trip through the cache. A copy that was set is what a read of
/// the same entitlement gives for as long as the copy lives, and a miss
/// from the moment its time is up; after it was invalidated every read is a
/// miss. The copy of another entitlement is not touched by any of this.
pub proof fn law_cache_round_trip(
    store: StoreModel,
    ttl: u64,
    entitlement_id: Seq<char>,
    copy: CachedEntitlementView,
    set_at: u64,
    invalidated_at: u64,
    read_at: u64,
    other_id: Seq<char>,
)
    ensures
        ({
            let written = store_after(
                store,
                EntitlementCache::set_of(entitlement_id, copy, ttl),
                set_at,
            );
            let dropped = store_after(
                written,
                EntitlementCache::invalidate_of(entitlement_id),
                invalidated_at,
            );
            &&& read_of(store_reply(written, EntitlementCache::get_of(entitlement_id), read_at))
                == Ok::<Option<CachedEntitlementView>, ValidatorErrorView>(
                if read_at < set_at + ttl {
                    Some(copy)
                } else {
                    None
                },
            )
            &&& read_of(store_reply(dropped, EntitlementCache::get_of(entitlement_id), read_at))
                == Ok::<Option<CachedEntitlementView>, ValidatorErrorView>(None)
            &&& other_id != entitlement_id ==> store_reply(
                written,
                EntitlementCache::get_of(other_id),
                read_at,
            ) == store_reply(store, EntitlementCache::get_of(other_id), read_at)
            &&& other_id != entitlement_id ==> store_reply(
                dropped,
                EntitlementCache::get_of(other_id),
                read_at,
            ) == store_reply(store, EntitlementCache::get_of(other_id), read_at)
        }),
{
    law_keys_do_not_collide(entitlement_id, other_id);
}

} // verus!
