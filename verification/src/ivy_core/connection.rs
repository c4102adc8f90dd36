//! Connections, the slots they live in, and the module that admits them.

use vstd::prelude::*;

use super::slot::{SlotGrant, SlotGuard, SlotView};
use crate::messaging;
use crate::messaging::{
    frame_message, in_time, next_message, poll_step, released, request_expects, request_first, request_next, run_expects,
    run_next, Headers, PollEvent, PollStep, PolledFrame, RequestAction, RequestEvent, RequestPhase, RunAction, RunEvent, RunPhase,
};

verus! {

/// How many receivers can watch the end of one connection.
pub const LATCH_COUNT: usize = 1;

/// How many slots a connection module has.
pub const SLOT_COUNT: usize = 2;

/// The two byte streams of a slot.
#[derive(Clone, Copy, PartialEq, Eq, Structural)]
pub enum Buffer {
    /// From the connection to the transport.
    Outgoing,
    /// From the transport to the connection.
    Incoming,
}

/// The right to write into a stream of a slot.
#[derive(Clone, Copy, PartialEq, Eq, Structural)]
pub struct StreamProducer {
    pub buffer: Buffer,
}

/// The right to read from a stream of a slot.
#[derive(Clone, Copy, PartialEq, Eq, Structural)]
pub struct StreamConsumer {
    pub buffer: Buffer,
}

/// Tells a transport when its connection has died. `R` is what the news come through.
pub struct Latch<R> {
    grant: SlotGrant,
    receiver: R,
}

impl<R> Latch<R> {
    /// What the news come through.
    pub closed spec fn watched(self) -> R {
        self.receiver
    }

    /// The slot that the latch has a grant of.
    pub closed spec fn slot_id(self) -> int {
        self.grant.id()
    }

    pub fn new(receiver: R, grant: SlotGrant) -> (latch: Latch<R>)
        ensures
            latch.watched() == receiver,
            latch.slot_id() == grant.id(),
    {
        Latch { grant, receiver }
    }

    /// Takes the latch apart: what to wait on, and the grant to give back after that.
    pub fn into_parts(self) -> (parts: (R, SlotGrant))
        ensures
            parts.0 == self.watched(),
            parts.1.id() == self.slot_id(),
    {
        (self.receiver, self.grant)
    }
}

/// A transport's end of a slot.
pub struct TransportIO<R> {
    pub tx: StreamProducer,
    pub rx: StreamConsumer,
    /// Can be taken out, to be waited on elsewhere.
    pub latch: Option<Latch<R>>,
    pub grant: SlotGrant,
}

/// A connection's end of a slot.
pub struct ConnectionIO {
    pub tx: StreamProducer,
    pub rx: StreamConsumer,
    pub grant: SlotGrant,
}

/// What the connection writes the transport reads, and the other way round.
pub open spec fn wired<R>(connection: ConnectionIO, transport: TransportIO<R>) -> bool {
    &&& connection.tx.buffer == Buffer::Outgoing
    &&& transport.rx.buffer == Buffer::Outgoing
    &&& transport.tx.buffer == Buffer::Incoming
    &&& connection.rx.buffer == Buffer::Incoming
}

/// Holds the resources of exactly one connection.
pub struct ConnectionSlot {
    slot_guard: SlotGuard,
}

impl View for ConnectionSlot {
    type V = SlotView;

    closed spec fn view(&self) -> SlotView {
        self.slot_guard@
    }
}

/// A slot right after it was given out: the connection, the transport and the latch have a grant
/// each.
pub open spec fn given_out() -> SlotView {
    SlotView { acquired: true, grants: 3 }
}

impl ConnectionSlot {
    /// Which slot this is.
    pub closed spec fn id(self) -> int {
        self.slot_guard.id()
    }

    /// Creates a new connection slot.
    pub fn new() -> (slot: ConnectionSlot)
        ensures
            slot@ == SlotView::free(),
            slot@.inv(),
    {
        ConnectionSlot { slot_guard: SlotGuard::new() }
    }

    /// Tries to acquire the slot. Returns `None` if it is already acquired.
    ///
    /// `receiver` is asked for what the latch will wait on once the slot is acquired. Where it has
    /// nothing to give, the slot is released again.
    pub fn try_aquire<R, F: FnOnce() -> Option<R>>(&mut self, receiver: F) -> (io: Option<
        (ConnectionIO, TransportIO<R>),
    >)
        requires
            old(self)@.inv(),
            receiver.requires(()),
        ensures
            final(self)@.inv(),
            final(self).id() == old(self).id(),
            old(self)@.acquired ==> io is None && final(self)@ == old(self)@,
            !old(self)@.acquired ==> match io {
                Some((connection, transport)) => {
                    &&& wired(connection, transport)
                    &&& connection.grant.id() == old(self).id()
                    &&& transport.is_of(old(self).id())
                    &&& transport.latch is Some
                    &&& receiver.ensures((), Some(transport.latch->0.watched()))
                    &&& final(self)@ == given_out()
                },
                None => receiver.ensures((), None) && final(self)@ == SlotView::free(),
            },
    {
        let grant = match self.slot_guard.try_acquire() {
            Some(grant) => grant,
            None => return None,
        };
        let receiver = match receiver() {
            Some(receiver) => receiver,
            None => {
                grant.drop(&mut self.slot_guard);
                return None;
            },
        };
        let connection = ConnectionIO {
            tx: StreamProducer { buffer: Buffer::Outgoing },
            rx: StreamConsumer { buffer: Buffer::Incoming },
            grant: grant.clone(&mut self.slot_guard),
        };
        let transport = TransportIO {
            tx: StreamProducer { buffer: Buffer::Incoming },
            rx: StreamConsumer { buffer: Buffer::Outgoing },
            latch: Some(Latch::new(receiver, grant.clone(&mut self.slot_guard))),
            grant,
        };
        Some((connection, transport))
    }

    /// How many grants of this slot are out.
    pub fn grants(&self) -> (grants: usize)
        ensures
            grants == self@.grants,
    {
        self.slot_guard.grants()
    }

    /// Gives back a grant of this slot.
    pub fn drop_grant(&mut self, grant: SlotGrant)
        requires
            grant.id() == old(self).id(),
            old(self)@.inv(),
            old(self)@.grants > 0,
        ensures
            final(self)@.inv(),
            final(self).id() == old(self).id(),
            final(self)@ == old(self)@.dropped(),
    {
        grant.drop(&mut self.slot_guard)
    }

    /// Gives back the connection's end of this slot.
    pub fn drop_connection(&mut self, io: ConnectionIO)
        requires
            io.grant.id() == old(self).id(),
            old(self)@.inv(),
            old(self)@.grants > 0,
        ensures
            final(self)@.inv(),
            final(self).id() == old(self).id(),
            final(self)@ == old(self)@.dropped(),
    {
        self.drop_grant(io.grant)
    }

    /// Gives back the transport's end of this slot, with the latch where it is still there.
    pub fn drop_transport<R>(&mut self, io: TransportIO<R>)
        requires
            io.is_of(old(self).id()),
            old(self)@.inv(),
            old(self)@.grants >= io.grants(),
        ensures
            final(self)@.inv(),
            final(self).id() == old(self).id(),
            final(self)@ == old(self)@.dropped_times(io.grants()),
    {
        reveal_with_fuel(SlotView::dropped_times, 3);
        self.drop_grant(io.grant);
        match io.latch {
            Some(latch) => {
                let (_receiver, grant) = latch.into_parts();
                self.drop_grant(grant);
            },
            None => {},
        }
    }
}

impl<R> TransportIO<R> {
    /// The grants that a transport's end holds are grants of this slot.
    pub open spec fn is_of(self, slot_id: int) -> bool {
        &&& self.grant.id() == slot_id
        &&& self.latch matches Some(latch) ==> latch.slot_id() == slot_id
    }

    /// How many grants a transport's end holds: its own, and the one of the latch.
    pub open spec fn grants(self) -> nat {
        if self.latch is Some {
            2
        } else {
            1
        }
    }
}

/// Once both ends of a slot and its latch have been dropped, in whatever order, the slot can be
/// acquired again, and not before.
pub proof fn slot_comes_back()
    ensures
        given_out().inv(),
        given_out().dropped().acquired,
        given_out().dropped_times(2).acquired,
        given_out().dropped_times(2).dropped() == SlotView::free(),
        given_out().dropped().dropped_times(2) == SlotView::free(),
        given_out().dropped().dropped().dropped() == SlotView::free(),
{
    reveal_with_fuel(SlotView::dropped_times, 3);
}

/// What one end of a slot writes the other end reads, no end reads what it writes itself, and what the
/// connection writes is what goes out.
pub proof fn ends_talk_to_each_other<R>(connection: ConnectionIO, transport: TransportIO<R>)
    requires
        wired(connection, transport),
    ensures
        connection.tx.buffer == transport.rx.buffer,
        transport.tx.buffer == connection.rx.buffer,
        connection.tx.buffer != connection.rx.buffer,
        connection.tx.buffer == Buffer::Outgoing,
{
}

/// A transport's end that comes back with its latch gives back two grants, and one that comes back
/// without it gives back one. With the connection's grant, and that of a latch that was taken out,
/// these are all that a slot gave out.
pub proof fn ends_give_back_what_was_given_out<R>(transport: TransportIO<R>)
    ensures
        given_out().grants == 3,
        given_out().acquired,
        transport.latch is Some ==> {
            &&& transport.grants() == 2
            &&& given_out().dropped_times(transport.grants()).dropped() == SlotView::free()
        },
        transport.latch is None ==> {
            &&& transport.grants() == 1
            &&& given_out().dropped_times(transport.grants()).dropped().dropped() == SlotView::free()
            &&& given_out().dropped_times(transport.grants()).dropped().acquired
        },
        forall|slot_id: int| #[trigger]
            transport.is_of(slot_id) ==> transport.grant.id() == slot_id && (
            transport.latch matches Some(latch) ==> latch.slot_id() == slot_id),
{
    reveal_with_fuel(SlotView::dropped_times, 3);
}

/// A connection that has not been authorised yet.
pub struct Init {}

/// A connection that has been authorised.
pub struct Authorised {}

/// A connection in the state `S`.
pub struct Connection<S> {
    state: S,
    io: ConnectionIO,
}

impl<S> Connection<S> {
    /// The state.
    pub closed spec fn state_of(self) -> S {
        self.state
    }

    /// The connection's end of its slot.
    pub closed spec fn io_of(self) -> ConnectionIO {
        self.io
    }

    pub fn new(state: S, io: ConnectionIO) -> (connection: Connection<S>)
        ensures
            connection.state_of() == state,
            connection.io_of() == io,
    {
        Connection { state, io }
    }

    /// The stream that the connection writes into, and the one that it reads from.
    pub fn streams(&self) -> (streams: (StreamProducer, StreamConsumer))
        ensures
            streams == (self.io_of().tx, self.io_of().rx),
    {
        (self.io.tx, self.io.rx)
    }

    /// Gives up the connection, and keeps its end of the slot.
    pub fn into_io(self) -> (io: ConnectionIO)
        ensures
            io == self.io_of(),
    {
        self.io
    }

    fn with_state<N>(self, state: N) -> (connection: Connection<N>)
        ensures
            connection.state_of() == state,
            connection.io_of() == self.io_of(),
    {
        Connection { state, io: self.io }
    }

    /// Hands a frame from the rx buffer to the assembler, and says what to release of it.
    ///
    /// # Returns
    /// `message` is
    /// `None` if message was not assembled yet and needs more frames
    /// `Some(message_len)` if message was assembled
    pub fn poll_frame<'f, E, F: FnOnce(&'f [u8]) -> Result<Option<usize>, E>>(
        &self,
        frame: &'f [u8],
        assemble: F,
    ) -> (polled: PolledFrame)
        requires
            assemble.requires((frame,)),
        ensures
            polled.release == released(frame@),
            exists|assembled: Result<Option<usize>, E>| #[trigger]
                assemble.ensures((frame,), assembled) && polled.message == frame_message(
                    assembled,
                ),
    {
        messaging::poll_frame(frame, assemble)
    }

    /// Takes the wait for a message one event further.
    pub fn poll_message(&self, event: PollEvent) -> (step: PollStep)
        ensures
            step == poll_step(event),
    {
        messaging::poll_message(event)
    }

    /// Starts to serve the connection at the time `now_ms`.
    pub fn start<T>(&self, now_ms: u64) -> (next: (RunPhase, RunAction<T>))
        requires
            in_time(now_ms),
        ensures
            next == next_message::<T>(now_ms),
    {
        messaging::start(now_ms)
    }

    /// Takes the service of the connection one event further, which happens at the time `now_ms`.
    pub fn run<D, T>(&self, phase: RunPhase, event: RunEvent<D, T>, now_ms: u64) -> (next: (
        RunPhase,
        RunAction<T>,
    ))
        requires
            run_expects(phase, event),
            in_time(now_ms),
        ensures
            next == run_next(phase, event, now_ms),
    {
        messaging::run(phase, event, now_ms)
    }

    /// Starts to handle a request. `len` is how many bytes its message has, and `size` how many bytes
    /// a payload that goes out may take.
    pub fn handle_request<T, Q, P, E>(&self, headers: Headers<T>, len: usize, size: usize) -> (next: (
        RequestPhase<T>,
        RequestAction<T, Q, P, E>,
    ))
        ensures
            next == request_first::<T, Q, P, E>(headers, len, size),
    {
        messaging::handle_request(headers, len, size)
    }

    /// Takes the handling of a request one event further.
    pub fn handle_request_event<T, Q, P, E>(
        &self,
        phase: RequestPhase<T>,
        event: RequestEvent<Q, P, E>,
    ) -> (next: (RequestPhase<T>, RequestAction<T, Q, P, E>))
        requires
            request_expects(phase, event),
        ensures
            next == request_next(phase, event),
    {
        messaging::handle_request_event(phase, event)
    }
}

impl Connection<Init> {
    /// Whether the connection passes the authorisation. Every connection does.
    pub fn passes(&self) -> (passed: bool)
        ensures
            passed,
    {
        true
    }

    /// Authorises the connection. Every connection passes.
    pub fn authorise(self) -> (connection: Option<Connection<Authorised>>)
        ensures
            connection is Some,
            connection->0.io_of() == self.io_of(),
    {
        if self.passes() {
            Some(self.with_state(Authorised {  }))
        } else {
            None
        }
    }
}

/// A place for work that is going on, or none.
pub enum ConnectionRunner<F> {
    Idle,
    Running(F),
}

impl<F> ConnectionRunner<F> {
    pub fn is_idle(&self) -> (idle: bool)
        ensures
            idle == (self is Idle),
    {
        match self {
            ConnectionRunner::Idle => true,
            ConnectionRunner::Running(_) => false,
        }
    }

    /// Replaces what is running.
    pub fn set(&mut self, fut: F)
        ensures
            *final(self) == ConnectionRunner::Running(fut),
    {
        *self = ConnectionRunner::Running(fut);
    }

    /// What is running, to be taken further. While the place is idle there is nothing to wait for.
    pub fn poll(&mut self) -> (running: Option<&mut F>)
        ensures
            match running {
                Some(fut) => {
                    &&& *old(self) == ConnectionRunner::Running(*fut)
                    &&& *final(self) == ConnectionRunner::Running(*final(fut))
                },
                None => *old(self) is Idle && *final(self) == *old(self),
            },
    {
        match self {
            ConnectionRunner::Idle => None,
            ConnectionRunner::Running(fut) => Some(fut),
        }
    }

    /// Stops what is running.
    pub fn set_idle(&mut self)
        ensures
            *final(self) == ConnectionRunner::<F>::Idle,
    {
        *self = ConnectionRunner::Idle;
    }
}

/// A connection and the slot it lives in.
pub struct SlotConnection<S> {
    pub slot: usize,
    pub connection: Connection<S>,
}

/// A connection that a runner of the module works on.
pub struct TenantView {
    /// The slot that it lives in.
    pub slot: int,
    /// The stream that it writes into.
    pub tx: Buffer,
    /// The stream that it reads from.
    pub rx: Buffer,
    /// The slot that it has a grant of.
    pub grant: int,
}

/// What a runner of the module is doing.
pub enum RunnerView {
    Idle,
    Working(TenantView),
    /// The work has come to its end, and nothing has replaced it yet.
    Finished,
}

/// What a runner of the module is doing.
pub open spec fn runner_view<S>(runner: ConnectionRunner<Option<SlotConnection<S>>>) -> RunnerView {
    match runner {
        ConnectionRunner::Idle => RunnerView::Idle,
        ConnectionRunner::Running(None) => RunnerView::Finished,
        ConnectionRunner::Running(Some(tenant)) => RunnerView::Working(
            TenantView {
                slot: tenant.slot as int,
                tx: tenant.connection.io_of().tx.buffer,
                rx: tenant.connection.io_of().rx.buffer,
                grant: tenant.connection.io_of().grant.id(),
            },
        ),
    }
}

impl RunnerView {
    /// The runner works on the connection in this slot.
    pub open spec fn is_in(self, slot: int) -> bool {
        self matches RunnerView::Working(tenant) && tenant.slot == slot
    }
}

/// The runner works on the connection in this slot, and these are the streams of the connection.
pub open spec fn is_tenant(
    runner: RunnerView,
    slot: usize,
    tx: StreamProducer,
    rx: StreamConsumer,
) -> bool {
    runner matches RunnerView::Working(tenant) && tenant.slot == slot && tenant.tx == tx.buffer
        && tenant.rx == rx.buffer
}

/// What a connection module holds.
pub struct ModuleView {
    pub slots: Seq<SlotView>,
    /// Which slots they are.
    pub ids: Seq<int>,
    pub auth: RunnerView,
    pub conn: RunnerView,
}

impl ModuleView {
    /// How many grants of a slot the two runners hold.
    pub open spec fn held(self, slot: int) -> nat {
        (if self.auth.is_in(slot) {
            1nat
        } else {
            0nat
        }) + (if self.conn.is_in(slot) {
            1nat
        } else {
            0nat
        })
    }

    /// A connection lives in one of the slots: it has a grant of that slot, it writes into the stream
    /// that goes out and reads from the one that comes in.
    pub open spec fn housed(self, runner: RunnerView) -> bool {
        runner matches RunnerView::Working(tenant) ==> {
            &&& 0 <= tenant.slot < SLOT_COUNT
            &&& tenant == self.tenant(tenant.slot)
        }
    }

    /// The connection that lives in a slot.
    pub open spec fn tenant(self, slot: int) -> TenantView {
        TenantView { slot, tx: Buffer::Outgoing, rx: Buffer::Incoming, grant: self.ids[slot] }
    }

    /// The slots are in order, they count what the runners hold, and no two connections share one.
    pub open spec fn inv(self) -> bool {
        &&& self.slots.len() == SLOT_COUNT
        &&& self.ids.len() == SLOT_COUNT
        &&& forall|i: int|
            0 <= i < SLOT_COUNT ==> (#[trigger] self.slots[i]).inv() && self.slots[i].grants
                >= self.held(i)
        &&& self.housed(self.auth)
        &&& self.housed(self.conn)
        &&& self.auth matches RunnerView::Working(tenant) ==> !self.conn.is_in(tenant.slot)
    }

    /// The slots after a grant of one of them was dropped.
    pub open spec fn released(self, slot: int) -> Seq<SlotView> {
        self.slots.update(slot, self.slots[slot].dropped())
    }

    /// The slots after the connection that is running, if there is one, was dropped.
    pub open spec fn evicted(self) -> Seq<SlotView> {
        match self.conn {
            RunnerView::Working(tenant) => self.released(tenant.slot),
            _ => self.slots,
        }
    }
}

/// Admits a connection, authorises it, and runs it.
pub struct ConnectionModule<H> {
    slots: [ConnectionSlot; SLOT_COUNT],
    auth_runner: ConnectionRunner<Option<SlotConnection<Init>>>,
    conn_runner: ConnectionRunner<Option<SlotConnection<Authorised>>>,
    handler: H,
}

/// What can happen to a connection module.
pub enum ModuleEvent {
    /// A transport asks for a connection.
    RequestConnection,
    /// The authorisation has come to its end, and the connection has passed it or not.
    AuthorisationEnded { passed: bool },
    /// The running connection has come to its end.
    ConnectionEnded,
}

/// What a connection module does next.
pub enum ModuleAction<R> {
    /// Refuse the connection.
    Reject,
    /// Hand over the transport's end of this slot, and authorise the connection in it.
    Accept { slot: usize, transport: TransportIO<R> },
    /// Run the connection in this slot, on these streams, in place of the one that is running.
    Run { slot: usize, tx: StreamProducer, rx: StreamConsumer },
    /// Nothing.
    Continue,
}

/// How a module answers a transport that asks for a connection.
///
/// It refuses unless the runner of authorisations is idle: while an authorisation is under way, and
/// after one has come to its end. Otherwise it takes the first slot that is free and that `receiver`
/// has something to wait on for, and refuses where there is none. A refusal changes nothing.
pub open spec fn admission<R, F: Fn(usize) -> Option<R>>(
    receiver: F,
    before: ModuleView,
    after: ModuleView,
    reply: Option<(usize, TransportIO<R>)>,
) -> bool {
    match reply {
        Some((slot, transport)) => {
            &&& before.auth is Idle
            &&& slot < SLOT_COUNT
            &&& !before.slots[slot as int].acquired
            &&& transport.tx.buffer == Buffer::Incoming
            &&& transport.rx.buffer == Buffer::Outgoing
            &&& transport.is_of(before.ids[slot as int])
            &&& transport.latch is Some
            &&& receiver.ensures((slot,), Some(transport.latch->0.watched()))
            &&& after == ModuleView {
                slots: before.slots.update(slot as int, given_out()),
                auth: RunnerView::Working(before.tenant(slot as int)),
                ..before
            }
            &&& forall|j: usize|
                j < slot && !(#[trigger] before.slots[j as int]).acquired ==> receiver.ensures(
                    (j,),
                    None,
                )
        },
        None => {
            &&& after == before
            &&& before.auth is Idle ==> forall|j: usize|
                j < SLOT_COUNT && !(#[trigger] before.slots[j as int]).acquired
                    ==> receiver.ensures((j,), None)
        },
    }
}

/// The module after the authorisation has come to its end. Its runner does not become idle.
pub open spec fn after_authorisation(before: ModuleView, passed: bool) -> ModuleView {
    if passed {
        ModuleView {
            slots: before.evicted(),
            auth: RunnerView::Finished,
            conn: before.auth,
            ..before
        }
    } else {
        ModuleView {
            slots: before.released(before.auth->0.slot),
            auth: RunnerView::Finished,
            ..before
        }
    }
}

/// The module after the running connection has come to its end. Its runner does not become idle.
pub open spec fn after_connection(before: ModuleView) -> ModuleView {
    ModuleView { slots: before.evicted(), conn: RunnerView::Finished, ..before }
}

/// The events that can happen to a module: work ends only where it is going on.
pub open spec fn module_expects(module: ModuleView, event: ModuleEvent) -> bool {
    match event {
        ModuleEvent::RequestConnection => true,
        ModuleEvent::AuthorisationEnded { .. } => module.auth is Working,
        ModuleEvent::ConnectionEnded => module.conn is Working,
    }
}

/// A request can come at any time, and work can end wherever it is going on.
pub proof fn module_hears_requests_and_ends(module: ModuleView, passed: bool)
    ensures
        module_expects(module, ModuleEvent::RequestConnection),
        module.auth is Working ==> module_expects(
            module,
            ModuleEvent::AuthorisationEnded { passed },
        ),
        module.conn is Working ==> module_expects(module, ModuleEvent::ConnectionEnded),
{
}

/// How many grants of a slot are out that no runner holds.
pub open spec fn lent(module: ModuleView, slot: int) -> int {
    module.slots[slot].grants - (if module.auth.is_in(slot) {
        1int
    } else {
        0int
    }) - (if module.conn.is_in(slot) {
        1int
    } else {
        0int
    })
}

/// A grant that comes back is one grant less of its slot, and of no other.
pub proof fn grants_come_back_one_by_one(module: ModuleView, slot: int, other: int)
    requires
        module.inv(),
        0 <= slot < SLOT_COUNT,
        0 <= other < SLOT_COUNT,
        other != slot,
        module.slots[slot].grants > 0,
    ensures
        module.released(slot).len() == SLOT_COUNT,
        module.released(slot)[slot].grants == module.slots[slot].grants - 1,
        module.released(slot)[slot].acquired <==> module.slots[slot].grants > 1,
        module.released(slot)[other] == module.slots[other],
{
    assert(module.slots[slot].inv());
}

/// When work comes to its end, the module gives back exactly what that work held: of no slot are more
/// or fewer grants in other hands than before. A connection that passes is the one that runs, one that
/// does not pass leaves the running one alone, and no slot changes its identity.
pub proof fn ended_work_gives_back_what_it_held(before: ModuleView, slot: int)
    requires
        before.inv(),
        0 <= slot < SLOT_COUNT,
    ensures
        before.auth is Working ==> {
            let passed = after_authorisation(before, true);
            let failed = after_authorisation(before, false);
            &&& lent(passed, slot) == lent(before, slot)
            &&& lent(failed, slot) == lent(before, slot)
            &&& passed.conn == before.auth
            &&& failed.conn == before.conn
            &&& passed.auth is Finished
            &&& failed.auth is Finished
            &&& passed.ids == before.ids
            &&& failed.ids == before.ids
            &&& passed.inv()
            &&& failed.inv()
        },
        before.conn is Working ==> {
            let ended = after_connection(before);
            &&& lent(ended, slot) == lent(before, slot)
            &&& ended.auth == before.auth
            &&& ended.conn is Finished
            &&& ended.ids == before.ids
            &&& ended.inv()
        },
{
    assert(before.slots[slot].inv());
    if before.auth is Working {
        let at = before.auth->0.slot;
        assert(before.slots[at].inv());
        assert(before.slots[at].grants >= before.held(at));
    }
    if before.conn is Working {
        let at = before.conn->0.slot;
        assert(before.slots[at].inv());
        assert(before.slots[at].grants >= before.held(at));
    }
    let other = 1 - slot;
    assert(before.slots[other].inv());
    if before.auth is Working {
        let passed = after_authorisation(before, true);
        let failed = after_authorisation(before, false);
        assert forall|i: int| 0 <= i < SLOT_COUNT implies (#[trigger] passed.slots[i]).inv()
            && passed.slots[i].grants >= passed.held(i) by {
            assert(before.slots[i].inv());
        }
        assert forall|i: int| 0 <= i < SLOT_COUNT implies (#[trigger] failed.slots[i]).inv()
            && failed.slots[i].grants >= failed.held(i) by {
            assert(before.slots[i].inv());
        }
    }
    if before.conn is Working {
        let ended = after_connection(before);
        assert forall|i: int| 0 <= i < SLOT_COUNT implies (#[trigger] ended.slots[i]).inv()
            && ended.slots[i].grants >= ended.held(i) by {
            assert(before.slots[i].inv());
        }
    }
}

/// A transport that is admitted gets two grants of a slot that nobody held a grant of, in which the
/// connection now lives that is being authorised. Nothing else changes: the other slots, what is
/// running, and which slots there are.
pub proof fn admission_lends_one_slot<R, F: Fn(usize) -> Option<R>>(
    receiver: F,
    before: ModuleView,
    after: ModuleView,
    slot: usize,
    transport: TransportIO<R>,
    other: int,
)
    requires
        before.inv(),
        admission(receiver, before, after, Some((slot, transport))),
        0 <= other < SLOT_COUNT,
        other != slot,
    ensures
        before.auth is Idle,
        0 <= slot < SLOT_COUNT,
        before.slots[slot as int].grants == 0,
        lent(after, slot as int) == 2,
        after.auth matches RunnerView::Working(tenant) && tenant.slot == slot && tenant.grant
            == before.ids[slot as int] && tenant.tx == Buffer::Outgoing && tenant.rx
            == Buffer::Incoming,
        transport.tx.buffer == Buffer::Incoming,
        transport.rx.buffer == Buffer::Outgoing,
        transport.latch is Some,
        transport.grant.id() == before.ids[slot as int],
        transport.latch->0.slot_id() == before.ids[slot as int],
        receiver.ensures((slot,), Some(transport.latch->0.watched())),
        after.slots[other] == before.slots[other],
        after.conn == before.conn,
        after.ids == before.ids,
        !before.slots[other].acquired && other < slot ==> receiver.ensures((other as usize,), None),
{
    assert(before.slots[slot as int].inv());
    if other < slot {
        let j = other as usize;
        assert(before.slots[j as int] == before.slots[other]);
    }
}

/// An idle module refuses only where no free slot can be watched, and a refusal changes nothing.
pub proof fn refusal_has_its_reason<R, F: Fn(usize) -> Option<R>>(
    receiver: F,
    before: ModuleView,
    after: ModuleView,
    slot: usize,
)
    requires
        admission(receiver, before, after, None::<(usize, TransportIO<R>)>),
        slot < SLOT_COUNT,
    ensures
        after == before,
        before.auth is Idle ==> before.slots[slot as int].acquired || receiver.ensures(
            (slot,),
            None,
        ),
{
}

/// Who is told to run a connection is told of the one in that slot, with the streams that it writes
/// into and reads from.
pub proof fn tenant_runs_on_its_own_streams(
    module: ModuleView,
    slot: usize,
    tx: StreamProducer,
    rx: StreamConsumer,
)
    requires
        module.inv(),
        is_tenant(module.auth, slot, tx, rx),
    ensures
        module.auth is Working,
        module.auth->0.slot == slot,
        slot < SLOT_COUNT,
        tx.buffer == Buffer::Outgoing,
        rx.buffer == Buffer::Incoming,
{
}

/// A slot that a connection lives in is taken, and no two connections live in the same slot.
pub proof fn connections_do_not_share_a_slot(module: ModuleView)
    requires
        module.inv(),
    ensures
        module.auth matches RunnerView::Working(tenant) ==> module.slots[tenant.slot].acquired,
        module.conn matches RunnerView::Working(tenant) ==> module.slots[tenant.slot].acquired,
        module.auth is Working && module.conn is Working ==> module.auth->0.slot
            != module.conn->0.slot,
{
    if module.auth is Working {
        assert(module.slots[module.auth->0.slot].grants >= module.held(module.auth->0.slot));
    }
    if module.conn is Working {
        assert(module.slots[module.conn->0.slot].grants >= module.held(module.conn->0.slot));
    }
}

/// A transport that is admitted gets a slot that no connection lives in.
pub proof fn admitted_transport_gets_an_empty_slot<R, F: Fn(usize) -> Option<R>>(
    receiver: F,
    before: ModuleView,
    after: ModuleView,
    slot: usize,
    transport: TransportIO<R>,
)
    requires
        before.inv(),
        admission(receiver, before, after, Some((slot, transport))),
    ensures
        before.held(slot as int) == 0,
        after.held(slot as int) == 1,
        after.inv(),
{
    assert(before.slots[slot as int].inv());
    assert forall|i: int| 0 <= i < SLOT_COUNT implies (#[trigger] after.slots[i]).inv()
        && after.slots[i].grants >= after.held(i) by {
        assert(before.slots[i].inv());
    }
}

/// Once a module has admitted a transport, it refuses every other one: while the connection is
/// authorised, and after that.
pub proof fn one_transport_is_admitted<R, F: Fn(usize) -> Option<R>>(
    receiver: F,
    before: ModuleView,
    after: ModuleView,
    reply: Option<(usize, TransportIO<R>)>,
)
    requires
        admission(receiver, before, after, reply),
    ensures
        reply is Some ==> !(after.auth is Idle),
        !(before.auth is Idle) ==> reply is None && after == before,
        forall|passed: bool| !((#[trigger] after_authorisation(before, passed)).auth is Idle),
        after_connection(before).auth == before.auth,
{
}

impl<H> View for ConnectionModule<H> {
    type V = ModuleView;

    closed spec fn view(&self) -> ModuleView {
        ModuleView {
            slots: Seq::new(SLOT_COUNT as nat, |i: int| self.slots@[i]@),
            ids: Seq::new(SLOT_COUNT as nat, |i: int| self.slots@[i].id()),
            auth: runner_view(self.auth_runner),
            conn: runner_view(self.conn_runner),
        }
    }
}

impl<H> ConnectionModule<H> {
    /// The handler of actions.
    pub closed spec fn handler_of(self) -> H {
        self.handler
    }

    pub fn new(handler: H) -> (module: ConnectionModule<H>)
        ensures
            module@.inv(),
            module@.slots == seq![SlotView::free(), SlotView::free()],
            module@.auth is Idle,
            module@.conn is Idle,
            module.handler_of() == handler,
    {
        let module = ConnectionModule {
            slots: [ConnectionSlot::new(), ConnectionSlot::new()],
            auth_runner: ConnectionRunner::Idle,
            conn_runner: ConnectionRunner::Idle,
            handler,
        };
        assert(module@.slots =~= seq![SlotView::free(), SlotView::free()]);
        module
    }

    /// The handler of actions.
    pub fn handler(&self) -> (handler: &H)
        ensures
            *handler == self.handler_of(),
    {
        &self.handler
    }

    /// Acquires the first slot that can be acquired. `receiver` gives what the latch of a slot will
    /// wait on.
    pub fn try_acquire_any<R, F: Fn(usize) -> Option<R>>(&mut self, receiver: F) -> (found: Option<
        (usize, ConnectionIO, TransportIO<R>),
    >)
        requires
            old(self)@.inv(),
            forall|i: usize| i < SLOT_COUNT ==> #[trigger] receiver.requires((i,)),
        ensures
            final(self)@.inv(),
            final(self).handler_of() == old(self).handler_of(),
            match found {
                Some((slot, connection, transport)) => {
                    &&& slot < SLOT_COUNT
                    &&& !old(self)@.slots[slot as int].acquired
                    &&& wired(connection, transport)
                    &&& connection.grant.id() == old(self)@.ids[slot as int]
                    &&& transport.is_of(old(self)@.ids[slot as int])
                    &&& transport.latch is Some
                    &&& receiver.ensures((slot,), Some(transport.latch->0.watched()))
                    &&& final(self)@ == ModuleView {
                        slots: old(self)@.slots.update(slot as int, given_out()),
                        ..old(self)@
                    }
                    &&& forall|j: usize|
                        j < slot && !(#[trigger] old(self)@.slots[j as int]).acquired
                            ==> receiver.ensures((j,), None)
                },
                None => {
                    &&& final(self)@ == old(self)@
                    &&& forall|j: usize|
                        j < SLOT_COUNT && !(#[trigger] old(self)@.slots[j as int]).acquired
                            ==> receiver.ensures((j,), None)
                },
            },
    {
        let mut slot: usize = 0;
        while slot < SLOT_COUNT
            invariant
                slot <= SLOT_COUNT,
                old(self)@.inv(),
                self@.slots =~= old(self)@.slots,
                self@.ids =~= old(self)@.ids,
                self.auth_runner == old(self).auth_runner,
                self.conn_runner == old(self).conn_runner,
                self.handler == old(self).handler,
                forall|i: usize| i < SLOT_COUNT ==> #[trigger] receiver.requires((i,)),
                forall|j: usize|
                    j < slot && !(#[trigger] old(self)@.slots[j as int]).acquired
                        ==> receiver.ensures((j,), None),
            decreases SLOT_COUNT - slot,
        {
            proof {
                assert(self@.slots[slot as int] == self.slots@[slot as int]@);
                assert(self@.ids[slot as int] == self.slots@[slot as int].id());
                assert(old(self)@.slots[slot as int].inv());
            }
            let ask = || -> (r: Option<R>)
                requires
                    receiver.requires((slot,)),
                ensures
                    receiver.ensures((slot,), r),
                { receiver(slot) };
            match self.slots[slot].try_aquire(ask) {
                Some((connection, transport)) => {
                    assert(self@.slots =~= old(self)@.slots.update(slot as int, given_out()));
                    assert(self@.ids =~= old(self)@.ids);
                    return Some((slot, connection, transport));
                },
                None => {},
            }
            slot += 1;
        }
        None
    }

    /// A transport asks for a connection. It gets one unless the runner of authorisations is busy or
    /// no slot can be acquired.
    pub fn request_connection<R, F: Fn(usize) -> Option<R>>(&mut self, receiver: F) -> (reply:
        Option<(usize, TransportIO<R>)>)
        requires
            old(self)@.inv(),
            forall|i: usize| i < SLOT_COUNT ==> #[trigger] receiver.requires((i,)),
        ensures
            final(self)@.inv(),
            final(self).handler_of() == old(self).handler_of(),
            admission(receiver, old(self)@, final(self)@, reply),
    {
        if !self.auth_runner.is_idle() {
            return None;
        }
        match self.try_acquire_any(receiver) {
            Some((slot, io, transport)) => {
                let connection = Connection::new(Init {  }, io);
                self.auth_runner.set(Some(SlotConnection { slot, connection }));
                Some((slot, transport))
            },
            None => None,
        }
    }

    /// Gives back a grant of a slot that one of the runners held.
    fn drop_io(&mut self, slot: usize, io: ConnectionIO)
        requires
            old(self)@.slots.len() == SLOT_COUNT,
            slot < SLOT_COUNT,
            io.grant.id() == old(self)@.ids[slot as int],
            old(self)@.slots[slot as int].inv(),
            old(self)@.slots[slot as int].grants > 0,
        ensures
            final(self)@ == (ModuleView { slots: old(self)@.released(slot as int), ..old(self)@ }),
            final(self).auth_runner == old(self).auth_runner,
            final(self).conn_runner == old(self).conn_runner,
            final(self).handler == old(self).handler,
    {
        assert(self@.slots[slot as int] == self.slots@[slot as int]@);
        assert(self@.ids[slot as int] == self.slots@[slot as int].id());
        self.slots[slot].drop_connection(io);
        assert(self@.slots =~= old(self)@.released(slot as int));
        assert(self@.ids =~= old(self)@.ids);
    }

    /// Whether the connection that is being authorised passes.
    pub fn authorise(&self) -> (passed: bool)
        requires
            self@.auth is Working,
        ensures
            passed,
    {
        match &self.auth_runner {
            ConnectionRunner::Running(Some(tenant)) => tenant.connection.passes(),
            _ => false,
        }
    }

    /// The authorisation has come to its end.
    ///
    /// A connection that has passed takes the place of the one that is running, which is dropped.
    /// One that has not passed is dropped. The runner of authorisations does not become idle.
    pub fn authorisation_ended(&mut self, passed: bool) -> (run: Option<
        (usize, StreamProducer, StreamConsumer),
    >)
        requires
            old(self)@.inv(),
            old(self)@.auth is Working,
        ensures
            final(self)@.inv(),
            final(self).handler_of() == old(self).handler_of(),
            final(self)@ == after_authorisation(old(self)@, passed),
            match run {
                Some((slot, tx, rx)) => passed && is_tenant(old(self)@.auth, slot, tx, rx),
                None => !passed,
            },
    {
        let mut auth = ConnectionRunner::Running(None);
        core::mem::swap(&mut auth, &mut self.auth_runner);
        let tenant = match auth {
            ConnectionRunner::Running(Some(tenant)) => tenant,
            _ => {
                return None;
            },
        };
        let slot = tenant.slot;
        assert(old(self)@.slots[slot as int].inv());
        if !passed {
            self.drop_io(slot, tenant.connection.into_io());
            return None;
        }
        let connection = match tenant.connection.authorise() {
            Some(connection) => connection,
            None => {
                return None;
            },
        };
        let (tx, rx) = connection.streams();
        let mut running = ConnectionRunner::Running(Some(SlotConnection { slot, connection }));
        core::mem::swap(&mut running, &mut self.conn_runner);
        match running {
            ConnectionRunner::Running(Some(evicted)) => {
                assert(old(self)@.slots[evicted.slot as int].inv());
                self.drop_io(evicted.slot, evicted.connection.into_io());
            },
            _ => {},
        }
        Some((slot, tx, rx))
    }

    /// The running connection has come to its end, and is dropped. Its runner does not become idle.
    pub fn connection_ended(&mut self)
        requires
            old(self)@.inv(),
            old(self)@.conn is Working,
        ensures
            final(self)@.inv(),
            final(self).handler_of() == old(self).handler_of(),
            final(self)@ == after_connection(old(self)@),
    {
        let mut running = ConnectionRunner::Running(None);
        core::mem::swap(&mut running, &mut self.conn_runner);
        match running {
            ConnectionRunner::Running(Some(ended)) => {
                assert(old(self)@.slots[ended.slot as int].inv());
                self.drop_io(ended.slot, ended.connection.into_io());
            },
            _ => {},
        }
    }

    /// Takes the module one event further.
    pub fn act<R, F: Fn(usize) -> Option<R>>(&mut self, event: ModuleEvent, receiver: F) -> (action:
        ModuleAction<R>)
        requires
            old(self)@.inv(),
            module_expects(old(self)@, event),
            forall|i: usize| i < SLOT_COUNT ==> #[trigger] receiver.requires((i,)),
        ensures
            final(self)@.inv(),
            final(self).handler_of() == old(self).handler_of(),
            match event {
                ModuleEvent::RequestConnection => match action {
                    ModuleAction::Accept { slot, transport } => admission(
                        receiver,
                        old(self)@,
                        final(self)@,
                        Some((slot, transport)),
                    ),
                    ModuleAction::Reject => admission(receiver, old(self)@, final(self)@, None),
                    _ => false,
                },
                ModuleEvent::AuthorisationEnded { passed } => {
                    &&& final(self)@ == after_authorisation(old(self)@, passed)
                    &&& match action {
                        ModuleAction::Run { slot, tx, rx } => passed && is_tenant(
                            old(self)@.auth,
                            slot,
                            tx,
                            rx,
                        ),
                        ModuleAction::Continue => !passed,
                        _ => false,
                    }
                },
                ModuleEvent::ConnectionEnded => {
                    &&& action is Continue
                    &&& final(self)@ == after_connection(old(self)@)
                },
            },
    {
        match event {
            ModuleEvent::RequestConnection => match self.request_connection(receiver) {
                Some((slot, transport)) => ModuleAction::Accept { slot, transport },
                None => ModuleAction::Reject,
            },
            ModuleEvent::AuthorisationEnded { passed } => match self.authorisation_ended(passed) {
                Some((slot, tx, rx)) => ModuleAction::Run { slot, tx, rx },
                None => ModuleAction::Continue,
            },
            ModuleEvent::ConnectionEnded => {
                self.connection_ended();
                ModuleAction::Continue
            },
        }
    }

    /// How many grants of a slot are out that no runner holds. That many can be given back.
    pub fn grants_lent(&self, slot: usize) -> (lent: usize)
        requires
            self@.inv(),
            slot < SLOT_COUNT,
        ensures
            lent == self@.slots[slot as int].grants - self@.held(slot as int),
            lent == self::lent(self@, slot as int),
    {
        assert(self@.slots[slot as int] == self.slots@[slot as int]@);
        let held_by_auth: usize = match &self.auth_runner {
            ConnectionRunner::Running(Some(tenant)) => if tenant.slot == slot {
                1
            } else {
                0
            },
            _ => 0,
        };
        let held_by_conn: usize = match &self.conn_runner {
            ConnectionRunner::Running(Some(tenant)) => if tenant.slot == slot {
                1
            } else {
                0
            },
            _ => 0,
        };
        self.slots[slot].grants() - (held_by_auth + held_by_conn)
    }

    /// Gives back the transport's end of a slot.
    pub fn drop_transport<R>(&mut self, slot: usize, io: TransportIO<R>)
        requires
            old(self)@.inv(),
            slot < SLOT_COUNT,
            io.is_of(old(self)@.ids[slot as int]),
            old(self)@.slots[slot as int].grants >= old(self)@.held(slot as int) + io.grants(),
        ensures
            final(self)@.inv(),
            final(self).handler_of() == old(self).handler_of(),
            final(self)@ == (ModuleView {
                slots: old(self)@.slots.update(
                    slot as int,
                    old(self)@.slots[slot as int].dropped_times(io.grants()),
                ),
                ..old(self)@
            }),
    {
        reveal_with_fuel(SlotView::dropped_times, 3);
        assert(self@.slots[slot as int] == self.slots@[slot as int]@);
        assert(self@.ids[slot as int] == self.slots@[slot as int].id());
        let ghost dropped = old(self)@.slots[slot as int].dropped_times(io.grants());
        self.slots[slot].drop_transport(io);
        assert(self@.slots =~= old(self)@.slots.update(slot as int, dropped));
        assert(self@.ids =~= old(self)@.ids);
    }

    /// Gives back the grant of a latch that has been waited on.
    pub fn drop_latch(&mut self, slot: usize, grant: SlotGrant)
        requires
            old(self)@.inv(),
            slot < SLOT_COUNT,
            grant.id() == old(self)@.ids[slot as int],
            old(self)@.slots[slot as int].grants > old(self)@.held(slot as int),
        ensures
            final(self)@.inv(),
            final(self).handler_of() == old(self).handler_of(),
            final(self)@ == (ModuleView {
                slots: old(self)@.released(slot as int),
                ..old(self)@
            }),
    {
        assert(self@.slots[slot as int] == self.slots@[slot as int]@);
        assert(self@.ids[slot as int] == self.slots@[slot as int].id());
        self.slots[slot].drop_grant(grant);
        assert(self@.slots =~= old(self)@.released(slot as int));
        assert(self@.ids =~= old(self)@.ids);
    }
}

} // verus!
