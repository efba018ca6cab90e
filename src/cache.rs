//! Key/value stores for cached artifacts.
//!
//! Engines map string keys to byte strings and know nothing of what the
//! bytes mean; typed artifacts are framed by their stage (see `wire`).

use vstd::prelude::*;
use vstd::string::*;

verus! {

/// Why a cache lookup or write did not give a value.
#[derive(Debug, Clone)]
pub enum CacheError {
    /// Nothing is stored under the key (a miss, not a fault).
    NoCacheEntry,
    /// Bytes are stored under the key but do not decode.
    InvalidCacheEntry,
    /// The store could not be read or written.
    Io(String),
}

/// A key/value store of byte strings shared by the pipeline stages.
///
/// The spec functions describe an engine for the stages' contracts. An engine
/// implemented outside this library (on disk, say) keeps the defaults, which
/// promise nothing: its lookups are not described, and it may lose or fail any write.
pub trait CacheEngine {
    /// The engine's own consistency.
    open spec fn wf(&self) -> bool {
        true
    }

    /// What `get` finds, key by key; left unspecified by an engine that does not say.
    open spec fn entries(&self) -> Map<Seq<char>, Seq<u8>> {
        arbitrary()
    }

    /// Whether `get` answers from `entries` (false for an engine that does not say).
    open spec fn describes_contents(&self) -> bool {
        false
    }

    /// Whether a successful `set` is remembered (false for a store that keeps nothing).
    open spec fn keeps_entries(&self) -> bool {
        false
    }

    /// Whether `set` always succeeds.
    open spec fn infallible(&self) -> bool {
        false
    }

    fn get(&self, name: &str) -> (r: Option<Vec<u8>>)
        requires
            self.wf(),
        ensures
            self.describes_contents() ==> (r matches Some(v) ==> self.entries().contains_key(name@)
                && self.entries()[name@] == v@),
            self.describes_contents() ==> (self.entries().contains_key(name@) ==> r is Some),
    ;

    fn set(&mut self, name: &str, data: &Vec<u8>) -> (r: Result<bool, CacheError>)
        requires
            old(self).wf(),
        ensures
            final(self).wf(),
            final(self).describes_contents() == old(self).describes_contents(),
            final(self).keeps_entries() == old(self).keeps_entries(),
            final(self).infallible() == old(self).infallible(),
            old(self).infallible() ==> r is Ok,
            final(self).entries().remove(name@) == old(self).entries().remove(name@),
            old(self).keeps_entries() && r is Ok ==> final(self).entries() == old(
                self,
            ).entries().insert(name@, data@),
            !old(self).keeps_entries() ==> final(self).entries() == old(self).entries(),
            r is Err ==> final(self).entries() == old(self).entries(),
    ;
}

/// A store that keeps nothing: every lookup misses.
pub struct NoCacheEngine {}

impl CacheEngine for NoCacheEngine {
    open spec fn wf(&self) -> bool {
        true
    }

    open spec fn entries(&self) -> Map<Seq<char>, Seq<u8>> {
        Map::empty()
    }

    open spec fn keeps_entries(&self) -> bool {
        false
    }

    open spec fn infallible(&self) -> bool {
        true
    }

    open spec fn describes_contents(&self) -> bool {
        true
    }

    fn get(&self, name: &str) -> (r: Option<Vec<u8>>) {
        None
    }

    fn set(&mut self, name: &str, data: &Vec<u8>) -> (r: Result<bool, CacheError>) {
        Ok(true)
    }
}

/// An in-memory map from string keys to values, one value per key.
pub struct MemoryCache<T: Clone> {
    objects: Vec<(String, T)>,
    contents: Ghost<Map<Seq<char>, T>>,
}

impl<T: Clone> MemoryCache<T> {
    pub closed spec fn keys(&self) -> Seq<Seq<char>> {
        Seq::new(self.objects@.len(), |i: int| self.objects@[i].0@)
    }

    /// Keys are unique, and `view` holds exactly the stored pairs.
    pub closed spec fn wf(&self) -> bool {
        &&& self.keys().no_duplicates()
        &&& self.contents@.dom() == self.keys().to_set()
        &&& forall|i: int|
            0 <= i < self.objects@.len() ==> #[trigger] self.contents@[self.objects@[i].0@]
                == self.objects@[i].1
    }

    /// The stored values, by key.
    pub closed spec fn view(&self) -> Map<Seq<char>, T> {
        self.contents@
    }

    pub fn new() -> (r: MemoryCache<T>)
        ensures
            r.wf(),
            r@ == Map::<Seq<char>, T>::empty(),
    {
        let r = MemoryCache { objects: Vec::new(), contents: Ghost(Map::empty()) };
        assert(r.keys().to_set() =~= Set::empty());
        r
    }

    fn find(&self, link: &str) -> (r: Option<usize>)
        requires
            self.wf(),
        ensures
            match r {
                Some(i) => i < self.objects@.len() && self.objects@[i as int].0@ == link@,
                None => !self@.contains_key(link@),
            },
    {
        let key = String::from_str(link);
        let mut i: usize = 0;
        while i < self.objects.len()
            invariant
                key@ == link@,
                i <= self.objects@.len(),
                forall|j: int| 0 <= j < i ==> self.keys()[j] != link@,
            decreases self.objects@.len() - i,
        {
            if self.objects[i].0 == key {
                return Some(i);
            }
            i = i + 1;
        }
        assert(!self.keys().contains(link@));
        None
    }

    /// A reference to the value stored under `link`.
    pub fn lookup(&self, link: &str) -> (r: Option<&T>)
        requires
            self.wf(),
        ensures
            r matches Some(v) ==> self@.contains_key(link@) && *v == self@[link@],
            r is None <==> !self@.contains_key(link@),
    {
        match self.find(link) {
            Some(i) => {
                assert(self.keys().contains(link@)) by {
                    assert(self.keys()[i as int] == link@);
                }
                Some(&self.objects[i].1)
            },
            None => None,
        }
    }

    /// A clone of the value stored under `link`, or `NoCacheEntry`.
    pub fn get(&self, link: &String) -> (r: Result<T, CacheError>)
        requires
            self.wf(),
        ensures
            r is Ok <==> self@.contains_key(link@),
            r matches Ok(v) ==> cloned(self@[link@], v),
            r matches Err(e) ==> e is NoCacheEntry,
    {
        match self.lookup(link.as_str()) {
            Some(v) => Ok(v.clone()),
            None => Err(CacheError::NoCacheEntry),
        }
    }

    /// Stores `object` under `link`, replacing what was there.
    pub fn set(&mut self, link: String, object: T) -> (r: Result<bool, CacheError>)
        requires
            old(self).wf(),
        ensures
            final(self).wf(),
            r == Ok::<bool, CacheError>(true),
            final(self)@ == old(self)@.insert(link@, object),
    {
        let ghost old_keys = self.keys();
        let ghost k = link@;
        match self.find(link.as_str()) {
            Some(i) => {
                self.objects.set(i, (link, object));
                self.contents = Ghost(self.contents@.insert(k, object));
                proof {
                    assert(self.keys() =~= old_keys);
                    assert(self.contents@.dom() =~= self.keys().to_set()) by {
                        assert(old_keys[i as int] == k);
                    }
                    assert forall|j: int| 0 <= j < self.objects@.len() implies #[trigger] self.contents@[self.objects@[j].0@]
                        == self.objects@[j].1 by {
                        if j != i {
                            assert(old_keys[j] != old_keys[i as int]);
                        }
                    }
                }
            },
            None => {
                self.objects.push((link, object));
                self.contents = Ghost(self.contents@.insert(k, object));
                proof {
                    assert(self.keys() =~= old_keys.push(k));
                    assert(!old_keys.contains(k));
                    assert(self.keys().no_duplicates()) by {
                        assert forall|a: int, b: int| 0 <= a < b < self.keys().len() implies self.keys()[a]
                            != self.keys()[b] by {
                            if b == old_keys.len() {
                                assert(old_keys[a] == self.keys()[a]);
                            }
                        }
                    }
                    assert(self.contents@.dom() =~= self.keys().to_set()) by {
                        assert forall|x| self.keys().contains(x) <==> old_keys.contains(x) || x == k by {
                            if old_keys.contains(x) {
                                let j = choose|j: int| 0 <= j < old_keys.len() && old_keys[j] == x;
                                assert(self.keys()[j] == x);
                            }
                            if x == k {
                                assert(self.keys()[old_keys.len() as int] == x);
                            }
                        }
                    }
                    assert forall|j: int| 0 <= j < self.objects@.len() implies #[trigger] self.contents@[self.objects@[j].0@]
                        == self.objects@[j].1 by {
                        if j < old_keys.len() {
                            assert(old_keys[j] != k) by {
                                assert(old_keys.contains(old_keys[j]));
                            }
                        }
                    }
                }
            },
        }
        assert(self@ =~= old(self)@.insert(link@, object));
        Ok(true)
    }

    /// Removes what is stored under `link`; true when something was.
    pub fn delete(&mut self, link: &String) -> (r: bool)
        requires
            old(self).wf(),
        ensures
            final(self).wf(),
            r == old(self)@.contains_key(link@),
            final(self)@ == old(self)@.remove(link@),
    {
        let ghost old_keys = self.keys();
        let ghost old_objects = self.objects@;
        let ghost k = link@;
        match self.find(link.as_str()) {
            Some(i) => {
                self.objects.remove(i);
                self.contents = Ghost(self.contents@.remove(k));
                proof {
                    assert(self.keys() =~= old_keys.remove(i as int));
                    assert(old_keys[i as int] == k);
                    assert(old_keys.contains(k));
                    assert forall|j: int| 0 <= j < old_keys.len() && j != i implies old_keys[j] != k by {}
                    assert(self.keys().no_duplicates()) by {
                        assert forall|a: int, b: int| 0 <= a < b < self.keys().len() implies self.keys()[a]
                            != self.keys()[b] by {
                            let a2 = if a < i { a } else { a + 1 };
                            let b2 = if b < i { b } else { b + 1 };
                            assert(self.keys()[a] == old_keys[a2]);
                            assert(self.keys()[b] == old_keys[b2]);
                        }
                    }
                    assert(self.contents@.dom() =~= self.keys().to_set()) by {
                        assert forall|x| self.keys().contains(x) <==> (old_keys.contains(x) && x != k) by {
                            if old_keys.contains(x) && x != k {
                                let j = choose|j: int| 0 <= j < old_keys.len() && old_keys[j] == x;
                                let j2 = if j < i { j } else { j - 1 };
                                assert(self.keys()[j2] == x);
                            }
                            if self.keys().contains(x) {
                                let j = choose|j: int| 0 <= j < self.keys().len() && self.keys()[j] == x;
                                let j2 = if j < i { j } else { j + 1 };
                                assert(old_keys[j2] == x);
                            }
                        }
                    }
                    assert forall|j: int| 0 <= j < self.objects@.len() implies #[trigger] self.contents@[self.objects@[j].0@]
                        == self.objects@[j].1 by {
                        let j2 = if j < i { j } else { j + 1 };
                        assert(self.objects@[j] == old_objects[j2]);
                        assert(old_keys[j2] == self.objects@[j].0@);
                    }
                }
                true
            },
            None => {
                assert(self@ =~= old(self)@.remove(link@));
                false
            },
        }
    }

    /// The number of stored values.
    pub fn count(&self) -> (r: usize)
        requires
            self.wf(),
        ensures
            r == self@.len(),
    {
        proof {
            self.keys().unique_seq_to_set();
        }
        self.objects.len()
    }
}

/// An in-memory engine.
pub struct HashMapCacheEngine {
    hashmap: MemoryCache<Vec<u8>>,
}

impl HashMapCacheEngine {
    pub fn new() -> (r: Self)
        ensures
            r.wf(),
            r.keeps_entries(),
            r.infallible(),
            r.describes_contents(),
            r.entries() == Map::<Seq<char>, Seq<u8>>::empty(),
    {
        let r = HashMapCacheEngine { hashmap: MemoryCache::new() };
        assert(r.entries() =~= Map::<Seq<char>, Seq<u8>>::empty());
        r
    }
}

impl Default for HashMapCacheEngine {
    fn default() -> (r: Self)
        ensures
            r.wf(),
            r.keeps_entries(),
            r.infallible(),
            r.describes_contents(),
            r.entries() == Map::<Seq<char>, Seq<u8>>::empty(),
    {
        HashMapCacheEngine::new()
    }
}

impl CacheEngine for HashMapCacheEngine {
    closed spec fn wf(&self) -> bool {
        self.hashmap.wf()
    }

    closed spec fn entries(&self) -> Map<Seq<char>, Seq<u8>> {
        self.hashmap@.map_values(|v: Vec<u8>| v@)
    }

    open spec fn keeps_entries(&self) -> bool {
        true
    }

    open spec fn infallible(&self) -> bool {
        true
    }

    open spec fn describes_contents(&self) -> bool {
        true
    }

    fn get(&self, name: &str) -> (r: Option<Vec<u8>>) {
        match self.hashmap.lookup(name) {
            Some(v) => Some(vstd::slice::slice_to_vec(v.as_slice())),
            None => None,
        }
    }

    fn set(&mut self, name: &str, data: &Vec<u8>) -> (r: Result<bool, CacheError>) {
        let copy = vstd::slice::slice_to_vec(data.as_slice());
        let r = self.hashmap.set(String::from_str(name), copy);
        assert(self.entries() =~= old(self).entries().insert(name@, data@));
        assert(self.entries().remove(name@) =~= old(self).entries().remove(name@));
        r
    }
}

} // verus!
