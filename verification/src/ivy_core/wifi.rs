//! The network of a device.

use vstd::prelude::*;

verus! {

/// The network module. It holds nothing.
#[derive(Clone, Copy, PartialEq, Eq, Structural)]
pub struct WifiModule {}

impl WifiModule {
    pub fn new() -> (module: WifiModule)
        ensures
            module == (WifiModule {  }),
    {
        WifiModule {  }
    }
}

} // verus!
