//! Items in flash storage, by key: what is asked of the store, and what is made of its answer.
//!
//! The store itself belongs to whoever runs a storage module. For what these functions promise, it
//! holds a map from keys to bytes.

use vstd::prelude::*;

verus! {

/// Keys below this one are for the system.
pub const MIN_KEY_VALUE: u32 = 100;

/// What is asked of the store.
#[derive(Clone, Copy)]
pub enum StorageRequest<'v> {
    /// Find the bytes under this key.
    Fetch { key: u32 },
    /// Put these bytes under this key.
    Store { key: u32, value: &'v [u8] },
}

/// The items after a request.
pub open spec fn after(items: Map<u32, Seq<u8>>, request: StorageRequest) -> Map<u32, Seq<u8>> {
    match request {
        StorageRequest::Fetch { .. } => items,
        StorageRequest::Store { key, value } => items.insert(key, value@),
    }
}

/// The bytes under a key.
pub open spec fn lookup(items: Map<u32, Seq<u8>>, key: u32) -> Option<Seq<u8>> {
    if items.dom().contains(key) {
        Some(items[key])
    } else {
        None
    }
}

/// The items after some requests.
pub open spec fn after_all(items: Map<u32, Seq<u8>>, requests: Seq<StorageRequest>) -> Map<
    u32,
    Seq<u8>,
>
    decreases requests.len(),
{
    if requests.len() == 0 {
        items
    } else {
        after(after_all(items, requests.drop_last()), requests.last())
    }
}

/// What is read of what the store has fetched: the bytes that were found are decoded.
pub open spec fn item_read<B, D, E, P, F: FnOnce(B) -> Result<D, P>>(
    fetched: Result<Option<B>, E>,
    decode: F,
    item: Option<D>,
) -> bool {
    match fetched {
        Ok(Some(bytes)) => match item {
            Some(data) => decode.ensures((bytes,), Ok(data)),
            None => exists|e: P| #[trigger] decode.ensures((bytes,), Err(e)),
        },
        _ => item is None,
    }
}

/// Reads an item: the bytes that were found are decoded. Where the store fails, where there are no
/// bytes, and where they cannot be decoded, there is no item.
pub fn read_item<B, D, E, P, F: FnOnce(B) -> Result<D, P>>(
    fetched: Result<Option<B>, E>,
    decode: F,
) -> (item: Option<D>)
    requires
        fetched matches Ok(Some(bytes)) ==> decode.requires((bytes,)),
    ensures
        item_read(fetched, decode, item),
{
    match fetched {
        Ok(Some(bytes)) => match decode(bytes) {
            Ok(data) => Some(data),
            Err(e) => {
                assert(decode.ensures((bytes,), Err(e)));
                None
            },
        },
        _ => None,
    }
}

/// What was stored under a key is found under it, and what is under any other key stays.
pub proof fn stored_item_is_found(items: Map<u32, Seq<u8>>, key: u32, value: &[u8], other: u32)
    requires
        other != key,
    ensures
        lookup(after(items, StorageRequest::Store { key, value }), key) == Some(value@),
        lookup(after(items, StorageRequest::Store { key, value }), other) == lookup(items, other),
{
}

/// None of the requests stores anything under this key.
pub open spec fn spares(requests: Seq<StorageRequest>, key: u32) -> bool {
    forall|i: int|
        0 <= i < requests.len() ==> ((#[trigger] requests[i]) matches StorageRequest::Store {
            key: other,
            ..
        } ==> other != key)
}

/// Requests that store nothing under a key leave what is under it.
pub proof fn spared_item_stays(items: Map<u32, Seq<u8>>, requests: Seq<StorageRequest>, key: u32)
    requires
        spares(requests, key),
    ensures
        lookup(after_all(items, requests), key) == lookup(items, key),
    decreases requests.len(),
{
    if requests.len() > 0 {
        let front = requests.drop_last();
        assert(spares(front, key)) by {
            assert(forall|i: int| 0 <= i < front.len() ==> front[i] == requests[i]);
        }
        spared_item_stays(items, front, key);
        assert(requests[requests.len() - 1] == requests.last());
    }
}

/// What was written is read back: after any requests that store nothing under its key, the store
/// fetches the bytes of the item, and where these bytes decode to the item, the item is what is read.
pub proof fn written_item_is_read_back<'b, D, E, P, F: FnOnce(&'b [u8]) -> Result<D, P>>(
    items: Map<u32, Seq<u8>>,
    key: u32,
    value: &[u8],
    requests: Seq<StorageRequest>,
    fetched: Option<&'b [u8]>,
    decode: F,
    data: D,
    item: Option<D>,
)
    requires
        spares(requests, key),
        (match fetched {
            Some(bytes) => Some(bytes@),
            None => None,
        }) == lookup(after_all(after(items, StorageRequest::Store { key, value }), requests), key),
        forall|bytes: &'b [u8], result: Result<D, P>|
            bytes@ == value@ && #[trigger] decode.ensures((bytes,), result) ==> result == Ok::<
                D,
                P,
            >(data),
        item_read(Ok::<_, E>(fetched), decode, item),
    ensures
        item == Some(data),
{
    spared_item_stays(after(items, StorageRequest::Store { key, value }), requests, key);
}

/// Where the store has failed or has found nothing, no item is read. Where it has found bytes, the item
/// is what they decode to, and there is none where they cannot be decoded.
pub proof fn item_is_what_the_bytes_decode_to<B, D, E, P, F: FnOnce(B) -> Result<D, P>>(
    bytes: B,
    error: E,
    decode: F,
    decoded: Result<D, P>,
    item: Option<D>,
)
    requires
        forall|result: Result<D, P>| #[trigger]
            decode.ensures((bytes,), result) ==> result == decoded,
    ensures
        item_read(Err::<Option<B>, E>(error), decode, item) ==> item is None,
        item_read(Ok::<Option<B>, E>(None), decode, item) ==> item is None,
        item_read(Ok::<Option<B>, E>(Some(bytes)), decode, item) ==> match decoded {
            Ok(data) => item == Some(data),
            Err(_) => item is None,
        },
{
}

/// Reading changes nothing, and nothing is found in an empty store.
pub proof fn reading_changes_nothing(items: Map<u32, Seq<u8>>, key: u32, other: u32)
    ensures
        after(items, StorageRequest::Fetch { key }) == items,
        lookup(Map::empty(), other) is None,
{
}

/// An item that an application stores is under a key of its own: it never replaces one of the
/// system.
pub proof fn application_keeps_system_items(
    items: Map<u32, Seq<u8>>,
    key: u32,
    value: &[u8],
    system: u32,
)
    requires
        key >= MIN_KEY_VALUE,
        system < MIN_KEY_VALUE,
    ensures
        lookup(after(items, StorageRequest::Store { key, value }), system) == lookup(items, system),
{
}

} // verus!
