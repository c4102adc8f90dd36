//! The radio of a device.

use vstd::prelude::*;

use crate::ivy_core::bluetooth::{handle_command, BluetoothAction, BluetoothHandleTraitCommand};

verus! {

/// The radio of a device. `C` is its controller.
pub struct BluetoothModule<C> {
    controller: C,
}

impl<C> BluetoothModule<C> {
    /// The controller.
    pub closed spec fn controller_of(self) -> C {
        self.controller
    }

    pub fn new(c: C) -> (module: BluetoothModule<C>)
        ensures
            module.controller_of() == c,
    {
        BluetoothModule { controller: c }
    }

    /// The controller.
    pub fn controller(&self) -> (controller: &C)
        ensures
            *controller == self.controller_of(),
    {
        &self.controller
    }

    /// What the radio does with a command, or where there is none. Every command is acknowledged.
    pub fn run(&self, command: Option<BluetoothHandleTraitCommand>) -> (action: BluetoothAction)
        ensures
            action == match command {
                Some(_) => BluetoothAction::Ack,
                None => BluetoothAction::Continue,
            },
    {
        handle_command(command)
    }
}

} // verus!
