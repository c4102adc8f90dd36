//! Storage for items by key, in a flash memory of its own.

use core::ops::Range;
use vstd::prelude::*;

use crate::storage::{StorageRequest, MIN_KEY_VALUE};

verus! {

/// The room for one serialized item that is read or written.
pub const READ_BUF_SIZE: usize = 128;

/// The room for one serialized item that is put aside.
pub const WRITE_BUF_SIZE: usize = 128;

/// The room that the store works in.
pub const WORK_BUF_SIZE: usize = 256;

/// What a storage module works with: its flash memory, the addresses in it that the store may use,
/// and its buffers.
pub struct StorageInner<F> {
    pub flash: F,
    pub range: Range<u32>,
    pub read_buf: [u8; READ_BUF_SIZE],
    pub write_buf: [u8; WRITE_BUF_SIZE],
    pub work_buf: [u8; WORK_BUF_SIZE],
}

/// Storage for items by key. `S` is a reference to what it works with.
pub struct StorageModule<S> {
    pub inner: S,
}

impl<S> StorageModule<S> {
    /// Prepares a flash memory for storage.
    pub fn build<F>(flash: F, range: Range<u32>) -> (inner: StorageInner<F>)
        ensures
            inner.flash == flash,
            inner.range == range,
            forall|i: int| 0 <= i < READ_BUF_SIZE ==> #[trigger] inner.read_buf@[i] == 0,
            forall|i: int| 0 <= i < WRITE_BUF_SIZE ==> #[trigger] inner.write_buf@[i] == 0,
            forall|i: int| 0 <= i < WORK_BUF_SIZE ==> #[trigger] inner.work_buf@[i] == 0,
    {
        StorageInner {
            flash,
            range,
            read_buf: [0u8; READ_BUF_SIZE],
            write_buf: [0u8; WRITE_BUF_SIZE],
            work_buf: [0u8; WORK_BUF_SIZE],
        }
    }

    pub fn from_static(inner: S) -> (storage: StorageModule<S>)
        ensures
            storage.inner == inner,
    {
        StorageModule { inner }
    }

    /// What is asked of the store to read an item.
    pub fn get(&self, key: StorageKey) -> (request: StorageRequest<'static>)
        ensures
            request == (StorageRequest::Fetch { key: key@ }),
    {
        StorageRequest::Fetch { key: *key.as_ref() }
    }

    /// What is asked of the store to write an item, once it is serialized.
    pub fn set<'v>(&self, key: StorageKey, serialized: &'v [u8]) -> (request: StorageRequest<'v>)
        requires
            serialized@.len() <= READ_BUF_SIZE,
        ensures
            request == (StorageRequest::Store { key: key@, value: serialized }),
    {
        StorageRequest::Store { key: *key.as_ref(), value: serialized }
    }
}

/// The key of an item.
pub struct StorageKey(u32);

impl View for StorageKey {
    type V = u32;

    closed spec fn view(&self) -> u32 {
        self.0
    }
}

impl StorageKey {
    /// A key for an application. The keys below [`MIN_KEY_VALUE`] are reserved for the system.
    pub fn new(key: u32) -> (made: StorageKey)
        requires
            key >= MIN_KEY_VALUE,
        ensures
            made@ == key,
    {
        StorageKey(key)
    }

    /// The key of the access to the network.
    pub fn wifi_key() -> (made: StorageKey)
        ensures
            made@ == 0,
            made@ < MIN_KEY_VALUE,
    {
        StorageKey(0)
    }

    /// A key for an application, where the key is not reserved for the system.
    pub fn checked_new(key: u32) -> (made: Option<StorageKey>)
        ensures
            made is Some <==> key >= MIN_KEY_VALUE,
            made matches Some(made) ==> made@ == key,
    {
        if key >= MIN_KEY_VALUE {
            Some(StorageKey::new(key))
        } else {
            None
        }
    }

    /// The key of what a device knows of itself.
    pub fn metadata_key() -> (made: StorageKey)
        ensures
            made@ == 1,
            made@ < MIN_KEY_VALUE,
    {
        StorageKey(1)
    }
}

impl AsRef<u32> for StorageKey {
    fn as_ref(&self) -> (key: &u32)
        ensures
            *key == self@,
    {
        &self.0
    }
}

} // verus!
