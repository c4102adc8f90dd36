//! Requests to an actor: from the moment one is made until its reply has arrived.

use vstd::prelude::*;

verus! {

/// Guards a request that must not be dropped before its reply has arrived.
///
/// Whoever drops the request asks the bomb whether it is armed, and fails where it is.
#[must_use]
pub struct DropBomb {
    armed: bool,
}

impl DropBomb {
    /// Whether the bomb goes off when it is dropped.
    pub closed spec fn armed(self) -> bool {
        self.armed
    }

    /// A bomb that goes off when it is dropped.
    pub fn new() -> (bomb: DropBomb)
        ensures
            bomb.armed(),
    {
        DropBomb { armed: true }
    }

    /// Defuses the bomb, so that it can be dropped.
    pub fn defuse(&mut self)
        ensures
            !final(self).armed(),
    {
        self.armed = false;
    }

    /// Whether the bomb goes off when it is dropped.
    pub fn is_armed(&self) -> (armed: bool)
        ensures
            armed == self.armed(),
    {
        self.armed
    }
}

/// How far a request has got.
#[derive(Clone, Copy, PartialEq, Eq, Structural)]
pub enum RequestStage {
    /// The command is on its way to the actor.
    Sending,
    /// The actor has the command, and the reply is awaited.
    Waiting,
    /// The reply has arrived.
    Done,
}

/// A request to an actor.
pub struct Request {
    bomb: DropBomb,
    stage: RequestStage,
}

impl Request {
    /// How far the request has got.
    pub closed spec fn stage_of(self) -> RequestStage {
        self.stage
    }

    /// Whether the request can be dropped.
    pub closed spec fn droppable(self) -> bool {
        !self.bomb.armed()
    }

    /// As long as the actor may still reply, the request must not be dropped.
    pub open spec fn inv(self) -> bool {
        self.droppable() <==> self.stage_of() == RequestStage::Done
    }

    /// Makes a request.
    pub fn new() -> (request: Request)
        ensures
            request.inv(),
            request.stage_of() == RequestStage::Sending,
    {
        Request { bomb: DropBomb::new(), stage: RequestStage::Sending }
    }

    /// The actor has the command.
    pub fn sent(&mut self)
        requires
            old(self).inv(),
            old(self).stage_of() == RequestStage::Sending,
        ensures
            final(self).inv(),
            final(self).stage_of() == RequestStage::Waiting,
    {
        self.stage = RequestStage::Waiting;
    }

    /// The reply has arrived: it is the result of the request.
    pub fn received<T>(&mut self, reply: T) -> (value: T)
        requires
            old(self).inv(),
            old(self).stage_of() == RequestStage::Waiting,
        ensures
            final(self).inv(),
            final(self).stage_of() == RequestStage::Done,
            value == reply,
    {
        self.bomb.defuse();
        self.stage = RequestStage::Done;
        reply
    }

    /// Whether the request can be dropped. Only one whose reply has arrived can.
    pub fn can_drop(&self) -> (can: bool)
        requires
            self.inv(),
        ensures
            can == (self.stage_of() == RequestStage::Done),
    {
        !self.bomb.is_armed()
    }
}

} // verus!
