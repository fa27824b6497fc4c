//! The uniform backend adapter contract: the interface every storage
//! backend implements, the configuration profile a backend is opened
//! with, and the error an open can fail with.

use crate::batch::{apply_batch, empty_contents, lookup};
use vstd::prelude::*;

verus! {

/// The write durability policy a backend is asked to run under, from
/// fully synchronous to eventual/no-sync.
#[derive(Clone, Copy, PartialEq, Eq, Structural, Debug)]
pub enum DurabilityMode {
    Synchronous,
    Eventual,
    NoSync,
}

/// The configuration profile handed to a backend's `open`: a maximum
/// storage size bound, a durability policy, and an in-memory cache
/// budget. Backends map each knob to their nearest equivalent setting;
/// purely in-memory backends ignore them.
#[derive(Clone, Copy, PartialEq, Eq, Structural, Debug)]
pub struct BackendConfig {
    pub max_size_bytes: u64,
    pub durability: DurabilityMode,
    pub cache_bytes: u64,
}

impl BackendConfig {
    pub fn new(max_size_bytes: u64, durability: DurabilityMode, cache_bytes: u64)
        -> (r: BackendConfig)
        ensures
            r.max_size_bytes == max_size_bytes,
            r.durability == durability,
            r.cache_bytes == cache_bytes,
    {
        BackendConfig { max_size_bytes, durability, cache_bytes }
    }
}

/// A backend could not initialize its backing storage.
#[derive(Clone, Copy, PartialEq, Eq, Structural, Debug)]
pub struct OpenError;

/// The interface every storage backend implements: a handle opened
/// under a configuration profile, batch writes, point reads, an
/// optional flush, and an idempotent close.
pub trait StorageBackend: Sized {
    /// What the store holds, as a map from key to value.
    spec fn contents(self) -> Map<u64, u64>;

    /// Whether the handle is open for operations.
    spec fn is_open(self) -> bool;

    /// The configurations under which `open` is owed success.
    spec fn open_succeeds(config: BackendConfig) -> bool;

    /// Whether the backend declares a distinct flush capability.
    spec fn declares_flush() -> bool;

    /// Whether the backend declares a distinct flush capability.
    fn has_flush() -> (r: bool)
        ensures
            r == Self::declares_flush(),
    ;

    /// Opens or creates the backing storage under `config`. A fresh
    /// store holds nothing.
    fn open(config: &BackendConfig) -> (r: Result<Self, OpenError>)
        ensures
            Self::open_succeeds(*config) ==> r is Ok,
            match r {
                Ok(h) => h.is_open() && h.contents() == empty_contents(),
                Err(_) => true,
            },
    ;

    /// Applies every pair of `data` in order, as one logical unit of
    /// work. A later pair for a key already in the batch wins.
    fn write_batch(&mut self, data: &Vec<(u64, u64)>)
        requires
            old(self).is_open(),
        ensures
            final(self).is_open(),
            final(self).contents() == apply_batch(old(self).contents(), data@),
    ;

    /// Looks up each key of `keys` in order. Absence is not an error:
    /// a key the store does not hold yields `None` in its place.
    fn read_many(&self, keys: &Vec<u64>) -> (r: Vec<Option<u64>>)
        requires
            self.is_open(),
        ensures
            r@.len() == keys@.len(),
            forall|i: int|
                0 <= i < keys@.len() ==> r@[i] == lookup(self.contents(), keys@[i]),
    ;

    /// Forces buffered writes to be durably persisted. A backend
    /// without a distinct flush step returns at once; either way the
    /// store's contents are unchanged.
    fn flush(&mut self)
        requires
            old(self).is_open(),
        ensures
            final(self).is_open(),
            final(self).contents() == old(self).contents(),
    ;

    /// Releases all resources. Safe to call on an already closed
    /// handle: closing is idempotent.
    fn close(&mut self)
        ensures
            !final(self).is_open(),
            final(self).contents() == empty_contents(),
    ;
}

} // verus!
