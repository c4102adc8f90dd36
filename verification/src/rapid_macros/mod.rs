//! The macros that turn a trait into a handle, a struct into an actor, and a value into a task.

pub mod actor;
pub mod spawn;

use vstd::prelude::*;

use crate::ivy_macros::actor::expansion_result;
use crate::methods::ExpandError;

verus! {

/// The attribute `#[actor_handle(Name)]` on a trait: the code that takes the trait's place.
pub fn actor_handle(attr: &str, item: &str) -> (out: Result<String, ExpandError>)
    ensures
        expansion_result(out) == actor::handle_expansion(attr@, item@),
{
    actor::expand_handle(attr, item)
}

/// The attribute `#[actor(Handle)]` on a struct: the code that takes the struct's place.
pub fn actor(attrs: &str, input: &str) -> (out: Result<String, ExpandError>)
    ensures
        expansion_result(out) == spawn::actor_expansion(attrs@, input@),
{
    spawn::expand_actor(attrs, input)
}

/// The macro `spawn_actor!(spawner, Type, actor)`: the code that takes the call's place.
pub fn spawn_actor(input: &str) -> (out: Result<String, ExpandError>)
    ensures
        expansion_result(out) == spawn::spawn_expansion(input@),
{
    spawn::expand_spawn_actor(input)
}

} // verus!
