//! Building blocks of a small actor framework for connected devices.

pub mod codegen;
pub mod device;
pub mod ivy_core;
pub mod ivy_macros;
pub mod ivy_types;
pub mod messaging;
pub mod methods;
pub mod rapid_core;
pub mod rapid_macros;
pub mod storage;
pub mod syntax;
pub mod text;
