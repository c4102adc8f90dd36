//! What actors and whoever talks to them agree on.

use vstd::prelude::*;

pub mod actor;

verus! {

/// What is behind a handle of an actor.
pub trait ActorHandle {
    /// What the actor can be asked.
    type Command;

    /// How it answers.
    type Signals;
}

} // verus!
