//! The macro that turns a trait into the handle of an actor.

pub mod actor;

use vstd::prelude::*;

use crate::methods::ExpandError;

verus! {

/// The attribute `#[actor_handle(Name)]` on a trait: the code that takes the trait's place.
pub fn actor_handle(attr: &str, item: &str) -> (out: Result<String, ExpandError>)
    ensures
        actor::expansion_result(out) == actor::expansion(attr@, item@),
{
    actor::expand_handle(attr, item)
}

} // verus!
