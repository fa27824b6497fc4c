//! The in-memory map backend: the reference implementation of the
//! adapter contract, a standard hash map behind `open`, `write_batch`,
//! `read_many`, `flush` and `close`.

use crate::adapter::{BackendConfig, OpenError, StorageBackend};
use crate::batch::{apply_batch, lookup};
use std::collections::HashMap;
use vstd::prelude::*;

verus! {

broadcast use vstd::std_specs::hash::group_hash_axioms;

/// A handle on an in-memory store of `u64` keys and values. The handle
/// owns its storage for the lifetime of one benchmark run; `close`
/// releases it and is safe to call again.
pub struct MapBackend {
    map: HashMap<u64, u64>,
    opened: bool,
}

impl StorageBackend for MapBackend {
    closed spec fn contents(self) -> Map<u64, u64> {
        self.map@
    }

    closed spec fn is_open(self) -> bool {
        self.opened
    }

    /// An in-memory store has no backing resources to acquire: opening
    /// succeeds under every configuration, whose knobs have no
    /// in-memory equivalent and are accepted unused.
    open spec fn open_succeeds(config: BackendConfig) -> bool {
        true
    }

    /// An in-memory store has no distinct flush step.
    open spec fn declares_flush() -> bool {
        false
    }

    fn has_flush() -> bool {
        false
    }

    fn open(config: &BackendConfig) -> Result<MapBackend, OpenError> {
        let _ = config;
        Ok(MapBackend { map: HashMap::new(), opened: true })
    }

    fn write_batch(&mut self, data: &Vec<(u64, u64)>) {
        let ghost m0 = self.map@;
        let mut i: usize = 0;
        while i < data.len()
            invariant
                i <= data@.len(),
                self.opened == old(self).opened,
                self.map@ == apply_batch(m0, data@.take(i as int)),
            decreases data@.len() - i,
        {
            let (key, value) = data[i];
            self.map.insert(key, value);
            proof {
                assert(data@.take(i + 1).drop_last() =~= data@.take(i as int));
                assert(data@.take(i + 1).last() == data@[i as int]);
            }
            i = i + 1;
        }
        proof {
            assert(data@.take(data@.len() as int) =~= data@);
        }
    }

    fn read_many(&self, keys: &Vec<u64>) -> Vec<Option<u64>> {
        let mut out: Vec<Option<u64>> = Vec::new();
        let mut i: usize = 0;
        while i < keys.len()
            invariant
                i <= keys@.len(),
                out@.len() == i,
                forall|j: int|
                    0 <= j < i ==> out@[j] == lookup(self.contents(), keys@[j]),
            decreases keys@.len() - i,
        {
            let key = keys[i];
            match self.map.get(&key) {
                Some(v) => out.push(Some(*v)),
                None => out.push(None),
            }
            i = i + 1;
        }
        out
    }

    fn flush(&mut self) {
    }

    fn close(&mut self) {
        self.map.clear();
        self.opened = false;
    }
}

} // verus!
