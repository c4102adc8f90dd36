//! The modules of a device: connections, storage, logging, messaging, and the radio.

pub mod bluetooth;
pub mod connection;
pub mod flash;
pub mod logger;
pub mod mqtt;
pub mod slot;
pub mod wifi;
