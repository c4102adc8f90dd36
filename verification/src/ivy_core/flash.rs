//! Flash memory, its partitions, and the storage in one of them.

use core::ops::Range;
use vstd::prelude::*;

use crate::storage::{StorageRequest, MIN_KEY_VALUE};

verus! {

/// A flash memory that several partitions share. `F` is a reference to it.
pub struct IvyFlash<F> {
    flash: F,
}

impl<F: Copy> IvyFlash<F> {
    /// The memory.
    pub closed spec fn flash_of(self) -> F {
        self.flash
    }

    pub fn new(flash: F) -> (shared: IvyFlash<F>)
        ensures
            shared.flash_of() == flash,
    {
        IvyFlash { flash }
    }

    /// The partition with these addresses.
    pub fn partition(&self, range: Range<u32>) -> (partition: IvyFlashPartition<F>)
        ensures
            partition.flash_of() == self.flash_of(),
            partition.range_of() == range,
    {
        IvyFlashPartition::new(self.flash, range)
    }
}

/// A part of a flash memory. Its addresses count from the start of the part.
pub struct IvyFlashPartition<F> {
    flash: F,
    range: Range<u32>,
}

impl<F: Copy> IvyFlashPartition<F> {
    /// The memory.
    pub closed spec fn flash_of(self) -> F {
        self.flash
    }

    /// The addresses of the part in the whole memory.
    pub closed spec fn range_of(self) -> Range<u32> {
        self.range
    }

    /// How many addresses the part has.
    pub open spec fn len(self) -> int {
        self.range_of().end - self.range_of().start
    }

    /// The address in the whole memory of an address in the part.
    pub open spec fn at(self, off: int) -> int {
        self.range_of().start + off
    }

    pub fn new(flash: F, range: Range<u32>) -> (partition: IvyFlashPartition<F>)
        ensures
            partition.flash_of() == flash,
            partition.range_of() == range,
    {
        IvyFlashPartition { flash, range }
    }

    /// The memory.
    pub fn flash(&self) -> (flash: F)
        ensures
            flash == self.flash_of(),
    {
        self.flash
    }

    /// Where the part starts.
    pub fn offset(&self) -> (offset: u32)
        ensures
            offset == self.range_of().start,
    {
        self.range.start
    }

    /// How many addresses the part has.
    pub fn size(&self) -> (size: u32)
        requires
            self.len() >= 0,
        ensures
            size == self.len(),
    {
        self.range.end - self.range.start
    }

    /// How many bytes the part holds.
    pub fn capacity(&self) -> (capacity: usize)
        requires
            self.len() >= 0,
        ensures
            capacity == self.len(),
    {
        self.size() as usize
    }

    /// Where in the memory a read at `off` starts.
    pub fn read_address(&self, off: u32) -> (address: u32)
        requires
            self.at(off as int) <= u32::MAX,
        ensures
            address == self.at(off as int),
            address - off == self.range_of().start,
    {
        self.offset() + off
    }

    /// Where in the memory a write at `off` starts.
    pub fn write_address(&self, off: u32) -> (address: u32)
        requires
            self.at(off as int) <= u32::MAX,
        ensures
            address == self.at(off as int),
            address - off == self.range_of().start,
    {
        self.offset() + off
    }

    /// What in the memory is erased when `from` up to `to` is.
    pub fn erase_addresses(&self, from: u32, to: u32) -> (addresses: (u32, u32))
        requires
            self.at(from as int) <= u32::MAX,
            self.at(to as int) <= u32::MAX,
        ensures
            addresses.0 == self.at(from as int),
            addresses.1 == self.at(to as int),
            addresses.0 - from == self.range_of().start,
            addresses.1 - to == self.range_of().start,
    {
        let offset = self.offset();
        (offset + from, offset + to)
    }
}

/// A partition lies in the memory as one piece: its first address is where the partition starts, what
/// are neighbours in the partition are neighbours in the memory, different addresses stay different,
/// and the address behind the last one is where the partition ends.
pub proof fn partition_is_one_piece<F: Copy>(partition: IvyFlashPartition<F>, off: int, other: int)
    ensures
        partition.at(0) == partition.range_of().start,
        partition.at(off + 1) == partition.at(off) + 1,
        partition.at(off) == partition.at(other) <==> off == other,
        partition.at(other) - partition.at(off) == other - off,
        partition.at(partition.len()) == partition.range_of().end,
{
}

/// Whoever stays within the size of a partition stays within the partition, and need not fear for
/// the range of an address.
pub proof fn access_stays_inside<F: Copy>(partition: IvyFlashPartition<F>, off: int, count: int)
    requires
        0 <= off,
        0 <= count,
        off + count <= partition.len(),
    ensures
        partition.range_of().start <= partition.at(off),
        partition.at(off) + count <= partition.range_of().end,
        partition.at(off) <= u32::MAX,
{
}

/// Accesses within two partitions that do not overlap never meet.
pub proof fn partitions_do_not_meet<F: Copy>(
    a: IvyFlashPartition<F>,
    b: IvyFlashPartition<F>,
    off_a: int,
    off_b: int,
)
    requires
        a.range_of().end <= b.range_of().start || b.range_of().end <= a.range_of().start,
        0 <= off_a < a.len(),
        0 <= off_b < b.len(),
    ensures
        a.at(off_a) != b.at(off_b),
{
}

/// The room for one serialized item.
pub const SER_BUF_SIZE: usize = 256;

/// The room that the store works in.
pub const WORK_BUF_SIZE: usize = 256;

/// What a storage module works with: its partition, the addresses in it that the store may use, and
/// its buffers.
pub struct StorageInner<F> {
    pub partition: IvyFlashPartition<F>,
    pub range: Range<u32>,
    pub ser_buf: [u8; SER_BUF_SIZE],
    pub work_buf: [u8; WORK_BUF_SIZE],
}

/// Storage for items by key, in a partition of a flash memory. `S` is a reference to what it works
/// with.
pub struct FlashStorage<S> {
    pub inner: S,
}

impl<S> FlashStorage<S> {
    /// Prepares a partition for storage. The store uses all of it, in addresses that count from its
    /// start.
    pub fn build<F: Copy>(partition: IvyFlashPartition<F>) -> (inner: StorageInner<F>)
        requires
            partition.len() >= 0,
        ensures
            inner.partition == partition,
            inner.range.start == 0,
            inner.range.end == partition.len(),
            forall|i: int| 0 <= i < SER_BUF_SIZE ==> #[trigger] inner.ser_buf@[i] == 0,
            forall|i: int| 0 <= i < WORK_BUF_SIZE ==> #[trigger] inner.work_buf@[i] == 0,
    {
        let range = Range { start: 0, end: partition.size() };
        StorageInner {
            partition,
            range,
            ser_buf: [0u8; SER_BUF_SIZE],
            work_buf: [0u8; WORK_BUF_SIZE],
        }
    }

    pub fn from_static(inner: S) -> (storage: FlashStorage<S>)
        ensures
            storage.inner == inner,
    {
        FlashStorage { inner }
    }

    /// What is asked of the store to read an item.
    pub fn get(&self, key: StorageKey) -> (request: StorageRequest<'static>)
        ensures
            request == (StorageRequest::Fetch { key: key@ }),
    {
        StorageRequest::Fetch { key: *key.as_ref() }
    }

    /// What is asked of the store to write an item, once it is serialized.
    pub fn set<'v>(&self, key: StorageKey, serialized: &'v [u8]) -> (request: StorageRequest<'v>)
        requires
            serialized@.len() <= SER_BUF_SIZE,
        ensures
            request == (StorageRequest::Store { key: key@, value: serialized }),
    {
        StorageRequest::Store { key: *key.as_ref(), value: serialized }
    }
}

/// The key of an item.
pub struct StorageKey(u32);

impl View for StorageKey {
    type V = u32;

    closed spec fn view(&self) -> u32 {
        self.0
    }
}

impl StorageKey {
    /// A key for an application. The keys below [`MIN_KEY_VALUE`] are reserved for the system.
    pub fn new(key: u32) -> (made: StorageKey)
        requires
            key >= MIN_KEY_VALUE,
        ensures
            made@ == key,
    {
        StorageKey(key)
    }

    /// A key for an application, where the key is not reserved for the system.
    pub fn checked_new(key: u32) -> (made: Option<StorageKey>)
        ensures
            made is Some <==> key >= MIN_KEY_VALUE,
            made matches Some(made) ==> made@ == key,
    {
        if key >= MIN_KEY_VALUE {
            Some(StorageKey::new(key))
        } else {
            None
        }
    }

    /// The key of what a device knows of itself.
    pub fn metadata_key() -> (made: StorageKey)
        ensures
            made@ == 1,
            made@ < MIN_KEY_VALUE,
    {
        StorageKey(1)
    }
}

impl AsRef<u32> for StorageKey {
    fn as_ref(&self) -> (key: &u32)
        ensures
            *key == self@,
    {
        &self.0
    }
}

} // verus!
