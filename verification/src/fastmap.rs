//! The non-cryptographic-hash map backend: hashbrown's hash map held
//! behind the same adapter contract as the standard in-memory backend.

use crate::adapter::{BackendConfig, OpenError, StorageBackend};
use crate::batch::{apply_batch, empty_contents, lookup};
use vstd::prelude::*;

verus! {

/// A hashbrown map of `u64` keys and values. The map type itself cannot
/// be declared to Verus (the bound on its allocator parameter is
/// private to hashbrown), so the collection is held opaquely here and
/// described through `fast_map_contents`.
#[verifier::external_body]
pub struct FastMap {
    inner: hashbrown::HashMap<u64, u64>,
}

/// What the hashbrown map holds, as a map from key to value.
pub uninterp spec fn fast_map_contents(m: FastMap) -> Map<u64, u64>;

impl FastMap {
    /// Relies on `hashbrown::HashMap::new`: the new map is empty.
    #[verifier::external_body]
    fn new() -> (r: FastMap)
        ensures
            fast_map_contents(r) == empty_contents(),
    {
        FastMap { inner: hashbrown::HashMap::new() }
    }

    /// Relies on `hashbrown::HashMap::insert`: the pair is inserted,
    /// and a value already held under the key is replaced.
    #[verifier::external_body]
    fn insert(&mut self, key: u64, value: u64)
        ensures
            fast_map_contents(*final(self)) == fast_map_contents(*old(self)).insert(key, value),
    {
        self.inner.insert(key, value);
    }

    /// Relies on `hashbrown::HashMap::get`: the value held under the
    /// key when the map contains it, absence otherwise.
    #[verifier::external_body]
    fn get(&self, key: u64) -> (r: Option<u64>)
        ensures
            r == lookup(fast_map_contents(*self), key),
    {
        self.inner.get(&key).copied()
    }

    /// Relies on `hashbrown::HashMap::clear`: every pair is removed.
    #[verifier::external_body]
    fn clear(&mut self)
        ensures
            fast_map_contents(*final(self)) == empty_contents(),
    {
        self.inner.clear();
    }
}

/// A handle on a hashbrown-backed store. Same adapter contract as the
/// standard map backend: the handle owns its storage for one run and
/// `close` is safe to call again.
pub struct FastMapBackend {
    map: FastMap,
    opened: bool,
}

impl StorageBackend for FastMapBackend {
    closed spec fn contents(self) -> Map<u64, u64> {
        fast_map_contents(self.map)
    }

    closed spec fn is_open(self) -> bool {
        self.opened
    }

    /// An in-memory store has no backing resources to acquire: opening
    /// succeeds under every configuration, whose knobs have no
    /// in-memory equivalent and are accepted unused.
    open spec fn open_succeeds(config: BackendConfig) -> bool {
        true
    }

    /// An in-memory store has no distinct flush step.
    open spec fn declares_flush() -> bool {
        false
    }

    fn has_flush() -> bool {
        false
    }

    fn open(config: &BackendConfig) -> Result<FastMapBackend, OpenError> {
        let _ = config;
        Ok(FastMapBackend { map: FastMap::new(), opened: true })
    }

    fn write_batch(&mut self, data: &Vec<(u64, u64)>) {
        let ghost m0 = fast_map_contents(self.map);
        let mut i: usize = 0;
        while i < data.len()
            invariant
                i <= data@.len(),
                self.opened == old(self).opened,
                fast_map_contents(self.map) == apply_batch(m0, data@.take(i as int)),
            decreases data@.len() - i,
        {
            let (key, value) = data[i];
            self.map.insert(key, value);
            proof {
                assert(data@.take(i + 1).drop_last() =~= data@.take(i as int));
                assert(data@.take(i + 1).last() == data@[i as int]);
            }
            i = i + 1;
        }
        proof {
            assert(data@.take(data@.len() as int) =~= data@);
        }
    }

    fn read_many(&self, keys: &Vec<u64>) -> Vec<Option<u64>> {
        let mut out: Vec<Option<u64>> = Vec::new();
        let mut i: usize = 0;
        while i < keys.len()
            invariant
                i <= keys@.len(),
                out@.len() == i,
                forall|j: int| 0 <= j < i ==> out@[j] == lookup(self.contents(), keys@[j]),
            decreases keys@.len() - i,
        {
            let key = keys[i];
            out.push(self.map.get(key));
            i = i + 1;
        }
        out
    }

    fn flush(&mut self) {
    }

    fn close(&mut self) {
        self.map.clear();
        self.opened = false;
    }
}

} // verus!
