//! A device built of modules that run by themselves.

use core::ops::Deref;
use vstd::prelude::*;

use crate::device::DeviceMetadata;

pub mod bluetooth;
pub mod connection;
pub mod storage;
pub mod wifi;

verus! {

/// A device: its modules, what it knows of itself, and its application.
pub struct RapidFramework<'m, B, S, W, M, T, I, A> {
    bluetooth: B,
    wifi: W,
    mqtt: M,
    storage: S,
    metadata: &'m DeviceMetadata<T, I>,
    device_app: A,
}

impl<'m, B, S, W, M, T, I, A> RapidFramework<'m, B, S, W, M, T, I, A> {
    /// The modules: Bluetooth, storage, network, and messaging.
    pub closed spec fn modules_of(self) -> (B, S, W, M) {
        (self.bluetooth, self.storage, self.wifi, self.mqtt)
    }

    /// What the device knows of itself.
    pub closed spec fn meta_of(self) -> DeviceMetadata<T, I> {
        *self.metadata
    }

    /// The application.
    pub closed spec fn app_of(self) -> A {
        self.device_app
    }

    pub fn new(
        bluetooth: B,
        storage: S,
        wifi: W,
        mqtt: M,
        metadata: &'m DeviceMetadata<T, I>,
        device_app: A,
    ) -> (framework: RapidFramework<'m, B, S, W, M, T, I, A>)
        ensures
            framework.modules_of() == (bluetooth, storage, wifi, mqtt),
            framework.meta_of() == *metadata,
            framework.app_of() == device_app,
    {
        RapidFramework { bluetooth, storage, wifi, mqtt, metadata, device_app }
    }
}

impl<'m, B, S, W, M, T, I, A> Deref for RapidFramework<'m, B, S, W, M, T, I, A> {
    type Target = A;

    fn deref(&self) -> (app: &A)
        ensures
            *app == self.app_of(),
    {
        &self.device_app
    }
}

} // verus!
