//! Caches of computed data and of resources, with optional time to live.
use vstd::prelude::*;
use crate::clock::unix_now_millis;
use crate::keyed::KeyedList;

verus! {

/// A cached value with the time it was stored and how long it lives.
#[derive(Debug)]
pub struct CacheEntry {
    data: String,
    created_at: u64,
    ttl: Option<u64>,
}

/// Whether an entry stored at `created_at` with time to live `ttl` is still
/// valid at `now` (all in milliseconds); a clock that went back counts as
/// no time passed.
pub open spec fn valid_at(created_at: u64, ttl: Option<u64>, now: u64) -> bool {
    match ttl {
        Some(t) => (if now >= created_at { now - created_at } else { 0 }) < t,
        None => true,
    }
}

impl CacheEntry {
    /// The cached value.
    pub closed spec fn spec_data(&self) -> Seq<char> {
        self.data@
    }

    /// When it was stored.
    pub closed spec fn spec_created_at(&self) -> u64 {
        self.created_at
    }

    /// How long it lives.
    pub closed spec fn spec_ttl(&self) -> Option<u64> {
        self.ttl
    }

    /// An entry stored at `now`.
    pub fn new(data: String, now: u64, ttl: Option<u64>) -> (r: CacheEntry)
        ensures
            r.spec_data() == data@,
            r.spec_created_at() == now,
            r.spec_ttl() == ttl,
    {
        CacheEntry { data, created_at: now, ttl }
    }

    /// Whether the entry is still valid at `now`.
    pub fn is_valid_at(&self, now: u64) -> (r: bool)
        ensures
            r == valid_at(self.spec_created_at(), self.spec_ttl(), now),
    {
        match self.ttl {
            Some(t) => {
                let elapsed = if now >= self.created_at {
                    now - self.created_at
                } else {
                    0
                };
                elapsed < t
            },
            None => true,
        }
    }

    /// Whether the entry is still valid now.
    pub fn is_valid(&self) -> (r: bool)
        ensures
            self.spec_ttl().is_none() ==> r,
    {
        self.is_valid_at(unix_now_millis())
    }

    /// A copy of the cached value.
    pub fn data(&self) -> (r: String)
        ensures
            r@ == self.spec_data(),
    {
        self.data.clone()
    }
}

/// Whether the entry under a key is present and valid at `now`.
pub open spec fn live(m: Map<Seq<char>, CacheEntry>, k: Seq<char>, now: u64) -> bool {
    m.contains_key(k) && valid_at(m[k].spec_created_at(), m[k].spec_ttl(), now)
}

/// A cache of computed values, each with an optional time to live.
pub struct DataCache {
    cache: KeyedList<CacheEntry>,
}

impl View for DataCache {
    type V = Map<Seq<char>, CacheEntry>;

    closed spec fn view(&self) -> Map<Seq<char>, CacheEntry> {
        self.cache@
    }
}

impl DataCache {
    /// An empty cache.
    pub fn new() -> (r: DataCache)
        ensures
            r@ == Map::<Seq<char>, CacheEntry>::empty(),
    {
        DataCache { cache: KeyedList::new() }
    }

    /// The value under a key if it is valid at `now`; an expired entry is
    /// dropped.
    pub fn get_at(&mut self, key: &str, now: u64) -> (r: Option<String>)
        ensures
            r.is_some() == live(old(self)@, key@, now),
            r.is_some() ==> r.unwrap()@ == old(self)@[key@].spec_data(),
            live(old(self)@, key@, now) ==> final(self)@ == old(self)@,
            !live(old(self)@, key@, now) ==> final(self)@ == old(self)@.remove(key@),
    {
        let valid = match self.cache.get(key) {
            Some(e) => {
                if e.is_valid_at(now) {
                    return Some(e.data());
                }
                false
            },
            None => false,
        };
        if !valid {
            self.cache.remove(key);
        }
        proof {
            if !old(self)@.contains_key(key@) {
                assert(old(self)@.remove(key@) =~= old(self)@);
            }
        }
        None
    }

    /// The value under a key if it is still valid now; an expired entry is
    /// dropped.
    pub fn get(&mut self, key: &str) -> (r: Option<String>)
        ensures
            r.is_some() ==> old(self)@.contains_key(key@) && r.unwrap()@ == old(self)@[key@].spec_data(),
            !old(self)@.contains_key(key@) ==> r.is_none(),
    {
        self.get_at(key, unix_now_millis())
    }

    /// Store a value at `now`, replacing an earlier one under the key.
    pub fn set_at(&mut self, key: String, value: String, ttl: Option<u64>, now: u64)
        ensures
            final(self)@.contains_key(key@),
            final(self)@[key@].spec_data() == value@,
            final(self)@[key@].spec_created_at() == now,
            final(self)@[key@].spec_ttl() == ttl,
            forall|k: Seq<char>| k != key@ ==> (#[trigger] final(self)@.contains_key(k)
                == old(self)@.contains_key(k)) && (old(self)@.contains_key(k) ==> final(self)@[k]
                == old(self)@[k]),
    {
        self.cache.insert(key, CacheEntry::new(value, now, ttl));
    }

    /// Store a value now, with an optional time to live in milliseconds.
    pub fn set(&mut self, key: String, value: String, ttl: Option<u64>)
        ensures
            final(self)@.contains_key(key@),
            final(self)@[key@].spec_data() == value@,
            final(self)@[key@].spec_ttl() == ttl,
            forall|k: Seq<char>| k != key@ ==> (#[trigger] final(self)@.contains_key(k)
                == old(self)@.contains_key(k)) && (old(self)@.contains_key(k) ==> final(self)@[k]
                == old(self)@[k]),
    {
        self.set_at(key, value, ttl, unix_now_millis());
    }

    /// Remove every entry.
    pub fn clear(&mut self)
        ensures
            final(self)@ == Map::<Seq<char>, CacheEntry>::empty(),
    {
        self.cache.clear();
    }

    /// The number of entries, expired ones included.
    pub fn size(&self) -> (r: usize)
        ensures
            r == self@.len(),
    {
        self.cache.len()
    }

    /// Drop every entry that is not valid at `now`.
    pub fn cleanup_at(&mut self, now: u64)
        ensures
            forall|k: Seq<char>| #[trigger] final(self)@.contains_key(k) == live(old(self)@, k, now),
            forall|k: Seq<char>| #[trigger] final(self)@.contains_key(k) ==> final(self)@[k] == old(self)@[k],
    {
        let keys = self.cache.keys();
        let mut i: usize = 0;
        while i < keys.len()
            invariant
                i <= keys@.len(),
                forall|j: int| 0 <= j < keys@.len() ==> old(self)@.contains_key(#[trigger] keys@[j]@),
                forall|k: Seq<char>| #[trigger] old(self)@.contains_key(k) ==> exists|j: int|
                    0 <= j < keys@.len() && #[trigger] keys@[j]@ == k,
                forall|k: Seq<char>| #[trigger] self@.contains_key(k) ==> old(self)@.contains_key(k) && self@[k] == old(self)@[k],
                forall|j: int| 0 <= j < i ==> (#[trigger] self@.contains_key(keys@[j]@)) == live(old(self)@, keys@[j]@, now),
                forall|k: Seq<char>| #[trigger] old(self)@.contains_key(k) && !self@.contains_key(k) ==> !live(old(self)@, k, now),
                forall|k: Seq<char>| old(self)@.contains_key(k) && (forall|j: int| 0 <= j < i ==> #[trigger] keys@[j]@ != k) ==> #[trigger] self@.contains_key(k),
            decreases keys@.len() - i,
        {
            let k = keys[i].as_str();
            let drop = match self.cache.get(k) {
                Some(e) => !e.is_valid_at(now),
                None => false,
            };
            if drop {
                self.cache.remove(k);
            }
            i = i + 1;
        }
        assert forall|k: Seq<char>| #[trigger] self@.contains_key(k) == live(old(self)@, k, now) by {
            if old(self)@.contains_key(k) {
                let j = choose|j: int| 0 <= j < keys@.len() && #[trigger] keys@[j]@ == k;
                assert(self@.contains_key(keys@[j]@) == live(old(self)@, keys@[j]@, now));
            }
        }
    }

    /// Drop every entry that is no longer valid now.
    pub fn cleanup(&mut self)
        ensures
            forall|k: Seq<char>| #[trigger] final(self)@.contains_key(k) ==> old(self)@.contains_key(k) && final(self)@[k] == old(self)@[k],
    {
        self.cleanup_at(unix_now_millis());
    }
}

/// A cache of resources, which live until cleared.
pub struct ResourceCache {
    cache: KeyedList<CacheEntry>,
}

impl View for ResourceCache {
    type V = Map<Seq<char>, CacheEntry>;

    closed spec fn view(&self) -> Map<Seq<char>, CacheEntry> {
        self.cache@
    }
}

impl ResourceCache {
    #[verifier::type_invariant]
    closed spec fn inv(self) -> bool {
        forall|k: Seq<char>| #[trigger] self.cache@.contains_key(k) ==> self.cache@[k].spec_ttl().is_none()
    }

    /// An empty cache.
    pub fn new() -> (r: ResourceCache)
        ensures
            r@ == Map::<Seq<char>, CacheEntry>::empty(),
    {
        ResourceCache { cache: KeyedList::new() }
    }

    /// The resource under a key, if any.
    pub fn get(&self, key: &str) -> (r: Option<String>)
        ensures
            r.is_some() == self@.contains_key(key@),
            r.is_some() ==> r.unwrap()@ == self@[key@].spec_data(),
    {
        proof {
            use_type_invariant(self);
        }
        match self.cache.get(key) {
            Some(e) => {
                if e.is_valid() {
                    Some(e.data())
                } else {
                    None
                }
            },
            None => None,
        }
    }

    /// Store a resource, with no time to live, replacing an earlier one
    /// under the key.
    pub fn set(&mut self, key: String, value: String)
        ensures
            final(self)@.contains_key(key@),
            final(self)@[key@].spec_data() == value@,
            final(self)@[key@].spec_ttl().is_none(),
            forall|k: Seq<char>| k != key@ ==> (#[trigger] final(self)@.contains_key(k)
                == old(self)@.contains_key(k)) && (old(self)@.contains_key(k) ==> final(self)@[k]
                == old(self)@[k]),
    {
        proof {
            use_type_invariant(&*self);
        }
        let entry = CacheEntry::new(value, unix_now_millis(), None);
        let mut taken = KeyedList::new();
        std::mem::swap(&mut taken, &mut self.cache);
        taken.insert(key, entry);
        self.cache = taken;
    }

    /// Remove every resource.
    pub fn clear(&mut self)
        ensures
            final(self)@ == Map::<Seq<char>, CacheEntry>::empty(),
    {
        self.cache = KeyedList::new();
    }

    /// The number of resources.
    pub fn count(&self) -> (r: usize)
        ensures
            r == self@.len(),
    {
        self.cache.len()
    }
}

/// The data cache and the resource cache of an app.
pub struct CacheManager {
    data_cache: DataCache,
    resource_cache: ResourceCache,
}

impl CacheManager {
    /// What the data cache holds.
    pub closed spec fn spec_data(&self) -> Map<Seq<char>, CacheEntry> {
        self.data_cache@
    }

    /// What the resource cache holds.
    pub closed spec fn spec_resources(&self) -> Map<Seq<char>, CacheEntry> {
        self.resource_cache@
    }

    /// Two empty caches.
    pub fn new() -> (r: CacheManager)
        ensures
            r.spec_data() == Map::<Seq<char>, CacheEntry>::empty(),
            r.spec_resources() == Map::<Seq<char>, CacheEntry>::empty(),
    {
        CacheManager { data_cache: DataCache::new(), resource_cache: ResourceCache::new() }
    }

    /// The data cache, to use in place.
    pub fn data_cache(&mut self) -> (r: &mut DataCache)
        ensures
            r@ == old(self).spec_data(),
            final(self).spec_data() == final(r)@,
            final(self).spec_resources() == old(self).spec_resources(),
    {
        &mut self.data_cache
    }

    /// The resource cache, to use in place.
    pub fn resource_cache(&mut self) -> (r: &mut ResourceCache)
        ensures
            r@ == old(self).spec_resources(),
            final(self).spec_resources() == final(r)@,
            final(self).spec_data() == old(self).spec_data(),
    {
        &mut self.resource_cache
    }

    /// Empty both caches.
    pub fn clear_all(&mut self)
        ensures
            final(self).spec_data() == Map::<Seq<char>, CacheEntry>::empty(),
            final(self).spec_resources() == Map::<Seq<char>, CacheEntry>::empty(),
    {
        self.data_cache.clear();
        self.resource_cache.clear();
    }

    /// The number of entries in both caches together, at most `usize::MAX`.
    pub fn total_size(&self) -> (r: usize)
        ensures
            r as int == if self.spec_data().len() + self.spec_resources().len() <= usize::MAX {
                self.spec_data().len() + self.spec_resources().len()
            } else {
                usize::MAX as nat
            },
    {
        let a = self.data_cache.size();
        let b = self.resource_cache.count();
        if a > usize::MAX - b {
            usize::MAX
        } else {
            a + b
        }
    }
}

impl Default for DataCache {
    fn default() -> (r: DataCache)
        ensures
            r@ == Map::<Seq<char>, CacheEntry>::empty(),
    {
        DataCache::new()
    }
}

impl Default for ResourceCache {
    fn default() -> (r: ResourceCache)
        ensures
            r@ == Map::<Seq<char>, CacheEntry>::empty(),
    {
        ResourceCache::new()
    }
}

impl Default for CacheManager {
    fn default() -> (r: CacheManager)
        ensures
            r.spec_data() == Map::<Seq<char>, CacheEntry>::empty(),
            r.spec_resources() == Map::<Seq<char>, CacheEntry>::empty(),
    {
        CacheManager::new()
    }
}

} // verus!
