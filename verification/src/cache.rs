use vstd::prelude::*;

use crate::fingerprint::fingerprint;
use crate::fingerprint::spec_generate_key;

verus! {

#[verifier::external_type_specification]
#[verifier::external_body]
pub struct ExDb(sled::Db);

/// What an on-disk store holds: the entries whose values decode as
/// UTF-8, keyed by the UTF-8 decoding of their key bytes.  An entry
/// whose value does not decode is treated as absent.
pub uninterp spec fn db_contents(db: sled::Db) -> Map<Seq<char>, Seq<char>>;

/// Relies on sled::Tree::get: looks up exactly this key, returning the
/// stored value, and Ok(None) when the key is absent.  A stored value
/// that does not decode as UTF-8 is treated as absent.  The error case
/// covers a storage read failure.
#[verifier::external_body]
fn db_get(db: &sled::Db, key: &str) -> (r: Result<Option<String>, ()>)
    ensures
        match r {
            Result::Ok(Option::Some(v)) => db_contents(*db).contains_pair(key@, v@),
            Result::Ok(Option::None) => !db_contents(*db).contains_key(key@),
            Result::Err(()) => true,
        },
{
    match db.get(key.as_bytes()) {
        Ok(Some(bytes)) => match String::from_utf8(bytes.to_vec()) {
            Ok(s) => Ok(Some(s)),
            Err(_) => Ok(None),
        },
        Ok(None) => Ok(None),
        Err(_) => Err(()),
    }
}

/// Relies on sled::Tree::insert: an upsert of exactly this key to this
/// value; on success any previous value under the key is replaced, and
/// on a storage failure nothing is written.
#[verifier::external_body]
fn db_put(db: &mut sled::Db, key: &str, value: &str) -> (r: bool)
    ensures
        r ==> db_contents(*final(db)) == db_contents(*old(db)).insert(key@, value@),
        !r ==> db_contents(*final(db)) == db_contents(*old(db)),
{
    db.insert(key.as_bytes(), value.as_bytes()).is_ok()
}

/// Relies on sled::open: opens the on-disk store at the given path,
/// creating it if missing.  Nothing is known of the contents it finds.
#[verifier::external_body]
fn db_open(path: &str) -> Option<sled::Db> {
    sled::open(path).ok()
}

/// Relies on sled::Config::temporary: creates an ephemeral store in a
/// fresh directory, so it starts empty and is removed when dropped.
#[verifier::external_body]
fn db_temp() -> (r: Option<sled::Db>)
    ensures
        match r {
            Option::Some(db) => db_contents(db) == Map::<Seq<char>, Seq<char>>::empty(),
            Option::None => true,
        },
{
    sled::Config::new().temporary(true).open().ok()
}

/// Where a cache keeps its entries.  The store handle is constructed
/// explicitly and passed down, so tests can substitute an in-memory or
/// temporary-directory store for the on-disk one.
enum CacheBackend {
    /// The persistent on-disk store.
    Disk(sled::Db),
    /// An in-memory append log; the newest entry for a key wins.
    Memory(Vec<(String, String)>),
    /// A store that could not be opened: every lookup misses and every
    /// write is dropped, so the rest of the pipeline still works.
    Unavailable,
}

/// The entries of an in-memory append log, newest entry winning.
pub open spec fn mem_contents(entries: Seq<(String, String)>) -> Map<Seq<char>, Seq<char>>
    decreases entries.len(),
{
    if entries.len() == 0 {
        Map::empty()
    } else {
        mem_contents(entries.drop_last()).insert(entries.last().0@, entries.last().1@)
    }
}

/// The newest entry matching the key gives the value of the contents at
/// the key.
proof fn lemma_mem_lookup_at(entries: Seq<(String, String)>, key: Seq<char>, i: int)
    requires
        0 <= i < entries.len(),
        entries[i].0@ == key,
        forall|j: int| i < j < entries.len() ==> entries[j].0@ != key,
    ensures
        mem_contents(entries).contains_key(key),
        mem_contents(entries)[key] == entries[i].1@,
    decreases entries.len(),
{
    let last = entries.len() - 1;
    if i < last {
        assert(forall|k: int| 0 <= k < last ==> entries.drop_last()[k] == entries[k]);
        lemma_mem_lookup_at(entries.drop_last(), key, i);
    }
}

/// When no entry matches the key, the contents do not contain it.
proof fn lemma_mem_lookup_none(entries: Seq<(String, String)>, key: Seq<char>)
    requires
        forall|i: int| 0 <= i < entries.len() ==> entries[i].0@ != key,
    ensures
        !mem_contents(entries).contains_key(key),
    decreases entries.len(),
{
    if entries.len() > 0 {
        assert(forall|k: int|
            0 <= k < entries.len() - 1 ==> entries.drop_last()[k] == entries[k]);
        lemma_mem_lookup_none(entries.drop_last(), key);
    }
}

/// The content-addressed response cache: a deterministic fingerprint of
/// the request maps to the previously produced response text.  Entries
/// never expire and are never invalidated once written.
pub struct Cache {
    backend: CacheBackend,
}

impl Cache {
    /// The entries this cache holds, as a map from key text to response
    /// text.
    pub closed spec fn contents(self) -> Map<Seq<char>, Seq<char>> {
        match self.backend {
            CacheBackend::Disk(db) => db_contents(db),
            CacheBackend::Memory(entries) => mem_contents(entries@),
            CacheBackend::Unavailable => Map::empty(),
        }
    }

    /// Whether every read and write is guaranteed to take effect.  True
    /// of the in-memory store; an on-disk store may fail a single call
    /// and degrade to miss (on read) or to no write.
    pub closed spec fn reliable(self) -> bool {
        self.backend matches CacheBackend::Memory(_)
    }

    /// Opens the cache backed by the on-disk store at the given path.
    /// Failure to open never fails the request pipeline: the cache then
    /// behaves as always-miss.
    pub fn load(path: &str) -> (r: Cache)
        ensures
            !r.reliable(),
    {
        match db_open(path) {
            Option::Some(db) => Cache { backend: CacheBackend::Disk(db) },
            Option::None => Cache { backend: CacheBackend::Unavailable },
        }
    }

    /// Opens an in-memory cache, starting empty.  Every operation on it
    /// takes effect.
    pub fn open_memory() -> (r: Cache)
        ensures
            r.reliable(),
            r.contents() == Map::<Seq<char>, Seq<char>>::empty(),
    {
        Cache { backend: CacheBackend::Memory(Vec::new()) }
    }

    /// Opens a cache backed by an ephemeral on-disk store in a fresh
    /// directory, starting empty.
    pub fn open_temporary() -> (r: Cache)
        ensures
            !r.reliable(),
            r.contents() == Map::<Seq<char>, Seq<char>>::empty(),
    {
        match db_temp() {
            Option::Some(db) => Cache { backend: CacheBackend::Disk(db) },
            Option::None => Cache { backend: CacheBackend::Unavailable },
        }
    }

    /// Looks up a key exactly; never a partial match.  A miss, a storage
    /// failure, and a malformed stored value all return nothing, never an
    /// error.
    pub fn get(&self, key: &str) -> (r: Option<String>)
        ensures
            r matches Option::Some(v) ==> self.contents().contains_pair(key@, v@),
            !self.contents().contains_key(key@) ==> r is None,
            self.reliable() ==> (match r {
                Option::Some(v) => self.contents().contains_key(key@) && v@ == self.contents()[key@],
                Option::None => !self.contents().contains_key(key@),
            }),
    {
        match &self.backend {
            CacheBackend::Disk(db) => match db_get(db, key) {
                Result::Ok(Option::Some(v)) => Option::Some(v),
                Result::Ok(Option::None) => Option::None,
                Result::Err(()) => Option::None,
            },
            CacheBackend::Memory(entries) => {
                let owned = key.to_owned();
                let mut i: usize = entries.len();
                while i > 0
                    invariant
                        i <= entries@.len(),
                        owned@ == key@,
                        self.contents() == mem_contents(entries@),
                        self.reliable(),
                        forall|j: int| i <= j < entries@.len() ==> entries@[j].0@ != key@,
                    decreases i,
                {
                    i = i - 1;
                    if entries[i].0 == owned {
                        proof {
                            lemma_mem_lookup_at(entries@, key@, i as int);
                        }
                        return Option::Some(entries[i].1.clone());
                    }
                }
                proof {
                    lemma_mem_lookup_none(entries@, key@);
                }
                Option::None
            },
            CacheBackend::Unavailable => Option::None,
        }
    }

    /// Writes a key unconditionally: an upsert, last writer wins.  A
    /// storage failure drops the write silently; the cache is a
    /// performance optimisation, never a correctness requirement.
    pub fn insert(&mut self, key: String, response: String)
        ensures
            final(self).reliable() == old(self).reliable(),
            final(self).contents() == old(self).contents().insert(key@, response@)
                || final(self).contents() == old(self).contents(),
            final(self).reliable() ==> final(self).contents() == old(self).contents().insert(
                key@,
                response@,
            ),
    {
        let mut taken = CacheBackend::Unavailable;
        core::mem::swap(&mut self.backend, &mut taken);
        match taken {
            CacheBackend::Disk(mut db) => {
                let _written = db_put(&mut db, key.as_str(), response.as_str());
                self.backend = CacheBackend::Disk(db);
            },
            CacheBackend::Memory(mut entries) => {
                let ghost pre = entries@;
                entries.push((key, response));
                proof {
                    assert(entries@.drop_last() =~= pre);
                }
                self.backend = CacheBackend::Memory(entries);
            },
            CacheBackend::Unavailable => {
                self.backend = CacheBackend::Unavailable;
            },
        }
    }

    /// Derives the cache key for a request: a pure function of the query
    /// text, the OS identifier, the shell identifier and the mode
    /// identifier, hashed in that fixed order.  Stable across process
    /// restarts.
    pub fn generate_key(query: &str, os: &str, shell: &str, mode: &str) -> (r: String)
        ensures
            r@ == spec_generate_key(query@, os@, shell@, mode@),
            r@.len() == 16,
    {
        fingerprint(query, os, shell, mode)
    }
}

/// Cache round trip: once a write of (key, value) has taken effect, the
/// contents map the key to exactly that value, so a lookup of the key
/// returns it byte for byte (see the contract of get).
pub proof fn lemma_cache_round_trip(
    pre: Map<Seq<char>, Seq<char>>,
    key: Seq<char>,
    value: Seq<char>,
)
    ensures
        pre.insert(key, value).contains_key(key),
        pre.insert(key, value)[key] == value,
{
}

/// A fresh cache misses on every key: nothing is contained, so a lookup
/// returns nothing, never an error (see the contract of get).
pub proof fn lemma_fresh_cache_misses(key: Seq<char>)
    ensures
        !Map::<Seq<char>, Seq<char>>::empty().contains_key(key),
{
}

} // verus!
