//! A connection with buffers of a fixed size for each direction.

use vstd::prelude::*;

use crate::messaging;
use crate::messaging::{
    Headers, PollEvent, PollStep, PolledFrame, RequestAction, RequestEvent, RequestPhase, RunAction, RunEvent,
    RunPhase,
};

verus! {

/// A connection that has not been authorised yet.
pub struct Init {}

/// A connection that has been authorised.
pub struct Authorised {}

/// A connection in the state `S`. `A` assembles its frames, `TX` fills its outgoing buffer and `RX`
/// empties its incoming one.
pub struct Connection<S, A, TX, RX, const TX_BUFF_SIZE: usize, const RX_BUFF_SIZE: usize> {
    state: S,
    frame_assembler: A,
    tx: TX,
    rx: RX,
}

impl<S, A, TX, RX, const TX_BUFF_SIZE: usize, const RX_BUFF_SIZE: usize> Connection<
    S,
    A,
    TX,
    RX,
    TX_BUFF_SIZE,
    RX_BUFF_SIZE,
> {
    /// The state.
    pub closed spec fn state_of(self) -> S {
        self.state
    }

    /// The assembler, and the ends of the two buffers.
    pub closed spec fn io_of(self) -> (A, TX, RX) {
        (self.frame_assembler, self.tx, self.rx)
    }

    pub fn new(state: S, frame_assembler: A, tx: TX, rx: RX) -> (connection: Connection<
        S,
        A,
        TX,
        RX,
        TX_BUFF_SIZE,
        RX_BUFF_SIZE,
    >)
        ensures
            connection.state_of() == state,
            connection.io_of() == (frame_assembler, tx, rx),
    {
        Connection { state, frame_assembler, tx, rx }
    }

    /// Takes the connection apart.
    pub fn into_io(self) -> (io: (A, TX, RX))
        ensures
            io == self.io_of(),
    {
        (self.frame_assembler, self.tx, self.rx)
    }

    fn with_state<N>(self, state: N) -> (connection: Connection<
        N,
        A,
        TX,
        RX,
        TX_BUFF_SIZE,
        RX_BUFF_SIZE,
    >)
        ensures
            connection.state_of() == state,
            connection.io_of() == self.io_of(),
    {
        Connection { state, frame_assembler: self.frame_assembler, tx: self.tx, rx: self.rx }
    }

    /// Hands a frame from the rx buffer to the assembler, and says what to release of it.
    ///
    /// # Returns
    /// `message` is
    /// `None` if message was not assembled yet and needs more frames
    /// `Some(message_len)` if message was assembled
    pub fn poll_frame<'f, E, F: FnOnce(&'f [u8]) -> Result<Option<usize>, E>>(
        &self,
        frame: &'f [u8],
        assemble: F,
    ) -> (polled: PolledFrame)
        requires
            assemble.requires((frame,)),
        ensures
            polled.release == messaging::released(frame@),
            exists|assembled: Result<Option<usize>, E>| #[trigger]
                assemble.ensures((frame,), assembled) && polled.message == messaging::frame_message(
                    assembled,
                ),
    {
        messaging::poll_frame(frame, assemble)
    }

    /// Takes the wait for a message one event further.
    pub fn poll_message(&self, event: PollEvent) -> (step: PollStep)
        ensures
            step == messaging::poll_step(event),
    {
        messaging::poll_message(event)
    }

    /// Starts to serve the connection at the time `now_ms`.
    pub fn start<T>(&self, now_ms: u64) -> (next: (RunPhase, RunAction<T>))
        requires
            messaging::in_time(now_ms),
        ensures
            next == messaging::next_message::<T>(now_ms),
    {
        messaging::start(now_ms)
    }

    /// Takes the service of the connection one event further, which happens at the time `now_ms`.
    pub fn run<D, T>(&self, phase: RunPhase, event: RunEvent<D, T>, now_ms: u64) -> (next: (
        RunPhase,
        RunAction<T>,
    ))
        requires
            messaging::run_expects(phase, event),
            messaging::in_time(now_ms),
        ensures
            next == messaging::run_next(phase, event, now_ms),
    {
        messaging::run(phase, event, now_ms)
    }

    /// Starts to handle a request, given the length of its message. A response may take all of the
    /// outgoing buffer.
    pub fn handle_request<T, Q, P, E>(&self, headers: Headers<T>, len: usize) -> (next: (
        RequestPhase<T>,
        RequestAction<T, Q, P, E>,
    ))
        ensures
            next == messaging::request_first::<T, Q, P, E>(headers, len, TX_BUFF_SIZE),
    {
        messaging::handle_request(headers, len, TX_BUFF_SIZE)
    }

    /// Takes the handling of a request one event further.
    pub fn handle_request_event<T, Q, P, E>(
        &self,
        phase: RequestPhase<T>,
        event: RequestEvent<Q, P, E>,
    ) -> (next: (RequestPhase<T>, RequestAction<T, Q, P, E>))
        requires
            messaging::request_expects(phase, event),
        ensures
            next == messaging::request_next(phase, event),
    {
        messaging::handle_request_event(phase, event)
    }
}

impl<A, TX, RX, const TX_BUFF_SIZE: usize, const RX_BUFF_SIZE: usize> Connection<
    Init,
    A,
    TX,
    RX,
    TX_BUFF_SIZE,
    RX_BUFF_SIZE,
> {
    /// Authorises the connection. Every connection passes.
    pub fn authorise(self) -> (connection: Connection<
        Authorised,
        A,
        TX,
        RX,
        TX_BUFF_SIZE,
        RX_BUFF_SIZE,
    >)
        ensures
            connection.io_of() == self.io_of(),
    {
        self.with_state(Authorised {  })
    }
}

/// Serves connections for an application. `H` handles its actions.
pub struct ConnectionModule<H> {
    handler: H,
}

impl<H> ConnectionModule<H> {
    /// What handles the actions.
    pub closed spec fn handler_of(self) -> H {
        self.handler
    }

    pub fn new(handler: H) -> (module: ConnectionModule<H>)
        ensures
            module.handler_of() == handler,
    {
        ConnectionModule { handler }
    }

    /// What handles the actions.
    pub fn handler(&self) -> (handler: &H)
        ensures
            *handler == self.handler_of(),
    {
        &self.handler
    }
}

} // verus!
