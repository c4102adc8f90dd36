//! What a device knows of itself.

use vstd::prelude::*;
use vstd::utf8::encode_utf8;

verus! {

/// The longest name of a device, in bytes.
pub const MAX_NAME_BYTES: usize = 16;

/// The name of a device, in a `heapless::String` of sixteen bytes.
#[verifier::external_body]
pub struct DeviceName {
    inner: heapless::String<16>,
}

/// The text that a name holds.
pub uninterp spec fn name_text(name: DeviceName) -> Seq<char>;

impl View for DeviceName {
    type V = Seq<char>;

    open spec fn view(&self) -> Seq<char> {
        name_text(*self)
    }
}

/// Calls `try_from` of `heapless::String`. Believed of it: it gives a string exactly where the
/// text takes no more bytes than the string has room for, and the string then holds the text.
#[verifier::external_body]
fn name_from(text: &str) -> (name: Option<DeviceName>)
    ensures
        name is Some <==> encode_utf8(text@).len() <= MAX_NAME_BYTES,
        name matches Some(name) ==> name_text(name) == text@,
{
    heapless::String::try_from(text).ok().map(|inner| DeviceName { inner })
}

/// Calls `as_str` of `heapless::String`. Believed of it: it gives the text that the string holds,
/// which takes no more bytes than the string has room for.
#[verifier::external_body]
fn name_str(name: &DeviceName) -> (text: &str)
    ensures
        text@ == name_text(*name),
        encode_utf8(text@).len() <= MAX_NAME_BYTES,
{
    name.inner.as_str()
}

impl DeviceName {
    /// The name with this text. A text that takes more than [`MAX_NAME_BYTES`] bytes is no name.
    pub fn new(text: &str) -> (name: Option<DeviceName>)
        ensures
            name is Some <==> encode_utf8(text@).len() <= MAX_NAME_BYTES,
            name matches Some(name) ==> name@ == text@,
    {
        name_from(text)
    }

    /// The text of the name.
    pub fn as_str(&self) -> (text: &str)
        ensures
            text@ == self@,
            encode_utf8(self@).len() <= MAX_NAME_BYTES,
    {
        name_str(self)
    }

    /// The bytes of the name.
    pub fn as_bytes(&self) -> (bytes: &[u8])
        ensures
            bytes@ == encode_utf8(self@),
            bytes@.len() <= MAX_NAME_BYTES,
    {
        self.as_str().as_bytes()
    }
}

/// What a device keeps of itself across restarts. `I` is the type of its id.
pub struct PersistentDeviceMeta<I> {
    pub device_id: I,
    pub name: DeviceName,
}

/// What a device knows of itself. `T` is the type of its kind, and `I` that of its id.
pub struct DeviceMetadata<T, I> {
    pub device_type: T,
    pub persistent: PersistentDeviceMeta<I>,
}

impl<T, I> DeviceMetadata<T, I> {
    /// Puts together the kind of the device and what was read from its storage. A device without
    /// stored metadata cannot run.
    pub fn new(stored: Option<PersistentDeviceMeta<I>>, device_type: T) -> (meta: DeviceMetadata<T, I>)
        requires
            stored is Some,
        ensures
            Some(meta.persistent) == stored,
            meta.device_type == device_type,
    {
        DeviceMetadata { persistent: stored.unwrap(), device_type }
    }
}

impl<T, I> core::ops::Deref for DeviceMetadata<T, I> {
    type Target = PersistentDeviceMeta<I>;

    fn deref(&self) -> (persistent: &PersistentDeviceMeta<I>)
        ensures
            *persistent == self.persistent,
    {
        &self.persistent
    }
}

} // verus!
