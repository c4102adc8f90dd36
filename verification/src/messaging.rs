//! How a connection turns incoming frames into handled requests.
//!
//! The waiting, the frames and the encodings belong to whoever runs the connection. What to do next
//! is decided here: each function takes what has just happened and says what comes next.

use vstd::prelude::*;

verus! {

/// How long a connection waits for a whole message, in milliseconds.
pub const CONNECTION_TTL: u64 = 30000;

/// Which way a message goes.
#[derive(Clone, Copy, PartialEq, Eq, Structural)]
pub enum MessageType {
    Request,
    Response,
}

/// The commands that a connection serves.
#[derive(Clone, Copy, PartialEq, Eq, Structural)]
pub enum CommandID {
    Ping,
    Action,
    /// Any other command of the protocol.
    Other,
}

/// The headers of a message.
pub struct Headers<T> {
    pub id: CommandID,
    pub timestamp: T,
    pub message_type: MessageType,
}

/// What a frame comes to.
#[derive(Clone, Copy, PartialEq, Eq, Structural)]
pub struct PolledFrame {
    /// The length of the message that the frame completes, where it completes one.
    pub message: Option<usize>,
    /// How many bytes of the frame to release from the buffer.
    pub release: usize,
}

/// What can happen while a connection waits for a message.
pub enum PollEvent {
    /// A frame was polled. Holds the length of the message where the frame completed one.
    Frame(Option<usize>),
    /// The time for the message is over.
    TtlExpired,
}

/// How far the wait for a message has got.
pub enum PollStep {
    /// More frames are needed.
    Wait,
    /// A message of this length is assembled, or there will be none.
    Done(Option<usize>),
}

/// The length of the message that a frame completes.
pub open spec fn frame_message<E>(assembled: Result<Option<usize>, E>) -> Option<usize> {
    match assembled {
        Ok(len) => len,
        Err(_) => None,
    }
}

/// How many bytes of a frame are released: all of it, since the assembler has had all of it.
pub open spec fn released(frame: Seq<u8>) -> nat {
    frame.len()
}

/// What an event means for the wait.
pub open spec fn poll_step(event: PollEvent) -> PollStep {
    match event {
        PollEvent::Frame(Some(len)) => PollStep::Done(Some(len)),
        PollEvent::Frame(None) => PollStep::Wait,
        PollEvent::TtlExpired => PollStep::Done(None),
    }
}

/// What the wait has come to after some events.
pub open spec fn poll_outcome(events: Seq<PollEvent>) -> PollStep
    decreases events.len(),
{
    if events.len() == 0 {
        PollStep::Wait
    } else {
        match poll_outcome(events.drop_last()) {
            PollStep::Wait => poll_step(events.last()),
            done => done,
        }
    }
}

/// Hands a frame that was read to the assembler: the length of the message that the frame completes,
/// where it completes one, and how much of the frame to release.
///
/// A frame that cannot be assembled completes no message. It is released like any other.
pub fn poll_frame<'f, E, F: FnOnce(&'f [u8]) -> Result<Option<usize>, E>>(
    frame: &'f [u8],
    assemble: F,
) -> (polled: PolledFrame)
    requires
        assemble.requires((frame,)),
    ensures
        polled.release == released(frame@),
        polled.release == frame@.len(),
        exists|assembled: Result<Option<usize>, E>| #[trigger]
            assemble.ensures((frame,), assembled) && polled.message == frame_message(assembled),
{
    let assembled = assemble(frame);
    assert(assemble.ensures((frame,), assembled));
    let message = match assembled {
        Ok(len) => len,
        Err(_) => None,
    };
    PolledFrame { message, release: frame.len() }
}

/// What the assembler says of a message is what a frame comes to: the message is the one that the
/// assembler has completed, and there is none where the assembler has failed or needs more.
pub proof fn message_is_what_was_assembled<E>(assembled: Result<Option<usize>, E>)
    ensures
        forall|len: usize|
            frame_message(assembled) == Some(len) <==> assembled == Ok::<Option<usize>, E>(
                Some(len),
            ),
        frame_message(assembled) is None <==> (assembled is Err || assembled == Ok::<
            Option<usize>,
            E,
        >(None)),
{
}

/// What happens to the buffer that frames are read from.
pub enum RxOp {
    /// Bytes are written into it.
    Commit(Seq<u8>),
    /// A frame is read from it, and polled.
    Poll(Seq<u8>),
}

/// The bytes that are in the buffer after some operations.
pub open spec fn rx_pending(ops: Seq<RxOp>) -> Seq<u8>
    decreases ops.len(),
{
    if ops.len() == 0 {
        seq![]
    } else {
        let before = rx_pending(ops.drop_last());
        match ops.last() {
            RxOp::Commit(bytes) => before + bytes,
            RxOp::Poll(frame) => before.skip(released(frame) as int),
        }
    }
}

/// The bytes that were written into the buffer, in order.
pub open spec fn rx_committed(ops: Seq<RxOp>) -> Seq<u8>
    decreases ops.len(),
{
    if ops.len() == 0 {
        seq![]
    } else {
        let before = rx_committed(ops.drop_last());
        match ops.last() {
            RxOp::Commit(bytes) => before + bytes,
            RxOp::Poll(_) => before,
        }
    }
}

/// The bytes that the assembler was handed, in order.
pub open spec fn rx_assembled(ops: Seq<RxOp>) -> Seq<u8>
    decreases ops.len(),
{
    if ops.len() == 0 {
        seq![]
    } else {
        let before = rx_assembled(ops.drop_last());
        match ops.last() {
            RxOp::Commit(_) => before,
            RxOp::Poll(frame) => before + frame,
        }
    }
}

/// A frame can be read: it is the first of the bytes that are in the buffer.
pub open spec fn readable(frame: Seq<u8>, pending: Seq<u8>) -> bool {
    frame.len() <= pending.len() && frame == pending.take(frame.len() as int)
}

/// Each frame that is polled can be read at that time.
pub open spec fn rx_trace(ops: Seq<RxOp>) -> bool
    decreases ops.len(),
{
    ops.len() == 0 || (rx_trace(ops.drop_last()) && (ops.last() matches RxOp::Poll(frame)
        ==> readable(frame, rx_pending(ops.drop_last()))))
}

/// Each byte that is written into the buffer reaches the assembler once, and in order: what the
/// assembler was handed, followed by what is still in the buffer, is what was written.
pub proof fn each_byte_is_assembled_once(ops: Seq<RxOp>)
    requires
        rx_trace(ops),
    ensures
        rx_assembled(ops) + rx_pending(ops) == rx_committed(ops),
    decreases ops.len(),
{
    if ops.len() > 0 {
        let front = ops.drop_last();
        each_byte_is_assembled_once(front);
        match ops.last() {
            RxOp::Commit(bytes) => {
                assert(rx_assembled(ops) + rx_pending(ops) =~= (rx_assembled(front) + rx_pending(
                    front,
                )) + bytes);
            },
            RxOp::Poll(frame) => {
                let pending = rx_pending(front);
                assert(pending.take(frame.len() as int) + pending.skip(frame.len() as int)
                    =~= pending);
                assert(rx_assembled(ops) + rx_pending(ops) =~= rx_assembled(front) + (frame
                    + pending.skip(frame.len() as int)));
            },
        }
    }
}

/// Whoever polls again polls the next frame: after all that was in the buffer has been polled, a
/// frame of what is written then holds none of what was polled before.
pub proof fn next_poll_hands_over_the_next_bytes(ops: Seq<RxOp>, next: Seq<u8>, frame: Seq<u8>)
    requires
        rx_trace(ops),
        readable(
            frame,
            rx_pending(ops.push(RxOp::Poll(rx_pending(ops))).push(RxOp::Commit(next))),
        ),
    ensures
        rx_trace(ops.push(RxOp::Poll(rx_pending(ops))).push(RxOp::Commit(next))),
        frame == next.take(frame.len() as int),
        frame.len() == next.len() ==> frame == next,
{
    let all = rx_pending(ops);
    let polled = ops.push(RxOp::Poll(all));
    let written = polled.push(RxOp::Commit(next));
    assert(polled.drop_last() =~= ops);
    assert(written.drop_last() =~= polled);
    assert(all.take(all.len() as int) =~= all);
    assert(rx_trace(polled));
    assert(rx_pending(polled) =~= seq![]);
    assert(rx_pending(written) =~= next);
    assert(next.take(next.len() as int) =~= next);
}

/// Takes the wait for a message one event further.
pub fn poll_message(event: PollEvent) -> (step: PollStep)
    ensures
        step == poll_step(event),
{
    match event {
        PollEvent::Frame(Some(len)) => PollStep::Done(Some(len)),
        PollEvent::Frame(None) => PollStep::Wait,
        PollEvent::TtlExpired => PollStep::Done(None),
    }
}

/// The wait ends with the first event that decides it: with a message where a frame completes one
/// before the time is over, and without one where the time is over first.
pub proof fn first_decisive_event_decides(events: Seq<PollEvent>, n: int)
    requires
        0 <= n < events.len(),
        forall|i: int| 0 <= i < n ==> poll_step(#[trigger] events[i]) is Wait,
        poll_step(events[n]) is Done,
    ensures
        poll_outcome(events) == poll_step(events[n]),
        events[n] is TtlExpired <==> poll_outcome(events) == PollStep::Done(None),
    decreases events.len(),
{
    let front = events.drop_last();
    if n == events.len() - 1 {
        undecided_events_keep_waiting(front);
    } else {
        assert(forall|i: int| 0 <= i < front.len() ==> front[i] == events[i]);
        first_decisive_event_decides(front, n);
    }
}

/// As long as no event decides it, the wait goes on.
pub proof fn undecided_events_keep_waiting(events: Seq<PollEvent>)
    requires
        forall|i: int| 0 <= i < events.len() ==> poll_step(#[trigger] events[i]) is Wait,
    ensures
        poll_outcome(events) is Wait,
    decreases events.len(),
{
    if events.len() > 0 {
        assert(forall|i: int|
            0 <= i < events.len() - 1 ==> events.drop_last()[i] == #[trigger] events[i]);
        undecided_events_keep_waiting(events.drop_last());
    }
}

/// What a connection is doing.
#[derive(Clone, Copy, PartialEq, Eq, Structural)]
pub enum RunPhase {
    /// It waits for a message, which must be complete at this time.
    Polling { deadline_ms: u64 },
    /// The headers of the message of this length are being parsed.
    Parsing { len: usize },
    /// A request is being handled.
    Handling,
    /// It has ended.
    Closed,
}

/// What can happen to a connection.
pub enum RunEvent<D, T> {
    Poll(PollEvent),
    /// The headers of the message, as far as they could be parsed.
    Headers(Result<Headers<T>, D>),
    /// The request has been handled.
    Handled,
}

/// What a connection does next.
pub enum RunAction<T> {
    /// Wait for the next frame, until this time at most.
    PollFrame { deadline_ms: u64 },
    /// Parse the headers of the message of this length.
    ParseHeaders { len: usize },
    /// Handle the request in the message of this length.
    HandleRequest { headers: Headers<T>, len: usize },
    Close,
}

/// The events that can happen in a phase.
pub open spec fn run_expects<D, T>(phase: RunPhase, event: RunEvent<D, T>) -> bool {
    match phase {
        RunPhase::Polling { .. } => event is Poll,
        RunPhase::Parsing { .. } => event is Headers,
        RunPhase::Handling => event is Handled,
        RunPhase::Closed => false,
    }
}

/// A time that a whole message can be waited for from.
pub open spec fn in_time(now_ms: u64) -> bool {
    now_ms + CONNECTION_TTL <= u64::MAX
}

/// When a message that is waited for from now on must be complete.
pub open spec fn deadline(now_ms: u64) -> u64 {
    (now_ms + CONNECTION_TTL) as u64
}

/// What a connection does when it starts, and whenever it is done with a message: it waits for the
/// first frame of a new one.
pub open spec fn next_message<T>(now_ms: u64) -> (RunPhase, RunAction<T>) {
    (
        RunPhase::Polling { deadline_ms: deadline(now_ms) },
        RunAction::PollFrame { deadline_ms: deadline(now_ms) },
    )
}

/// What a connection does after an event that happens at the time `now_ms`. More frames of a message
/// are waited for until the time that the message was to be complete at from the start.
pub open spec fn run_next<D, T>(phase: RunPhase, event: RunEvent<D, T>, now_ms: u64) -> (
    RunPhase,
    RunAction<T>,
) {
    match (phase, event) {
        (RunPhase::Polling { deadline_ms }, RunEvent::Poll(event)) => match poll_step(event) {
            PollStep::Wait => (phase, RunAction::PollFrame { deadline_ms }),
            PollStep::Done(Some(len)) => (
                RunPhase::Parsing { len },
                RunAction::ParseHeaders { len },
            ),
            PollStep::Done(None) => (RunPhase::Closed, RunAction::Close),
        },
        (RunPhase::Parsing { len }, RunEvent::Headers(Ok(headers))) => if headers.message_type
            == MessageType::Request {
            (RunPhase::Handling, RunAction::HandleRequest { headers, len })
        } else {
            next_message(now_ms)
        },
        (_, _) => next_message(now_ms),
    }
}

/// A message may take thirty seconds from the time at which its first frame is waited for: its time
/// ends thirty seconds after that time, whatever that time is, and there is time for a message
/// wherever that end can be told.
pub proof fn message_has_thirty_seconds<T>(now_ms: u64)
    requires
        now_ms + 30000 <= u64::MAX,
    ensures
        in_time(now_ms),
        next_message::<T>(now_ms) matches (
            RunPhase::Polling { deadline_ms },
            RunAction::PollFrame { deadline_ms: polled_ms },
        ) && now_ms < deadline_ms && deadline_ms - now_ms == 30000 && polled_ms == deadline_ms,
{
}

/// Whenever a connection is done with a message, the next one has thirty seconds from then on. While
/// a message is waited for, its time neither gets longer nor shorter.
pub proof fn each_message_has_thirty_seconds<D, T>(
    phase: RunPhase,
    event: RunEvent<D, T>,
    now_ms: u64,
)
    requires
        run_expects(phase, event),
        now_ms + 30000 <= u64::MAX,
    ensures
        run_next(phase, event, now_ms).1 matches RunAction::PollFrame { deadline_ms } ==> {
            &&& run_next(phase, event, now_ms).0 == (RunPhase::Polling { deadline_ms })
            &&& match phase {
                RunPhase::Polling { deadline_ms: before_ms } => deadline_ms == before_ms,
                _ => deadline_ms - now_ms == 30000,
            }
        },
        run_next(phase, event, now_ms).0 is Polling <==> run_next(phase, event, now_ms).1
            is PollFrame,
{
}

/// What becomes of a connection, event by event. A frame that completes nothing leaves it waiting,
/// a message that is complete is parsed, a request is handled with the headers and the length that
/// it came with, everything else that was parsed is passed over, and the end of the time closes the
/// connection.
pub proof fn events_lead_on<D, T>(
    deadline_ms: u64,
    len: usize,
    headers: Headers<T>,
    error: D,
    now_ms: u64,
)
    requires
        now_ms + 30000 <= u64::MAX,
    ensures
        ({
            let polling = RunPhase::Polling { deadline_ms };
            let parsing = RunPhase::Parsing { len };
            let parsed = run_next(parsing, RunEvent::<D, T>::Headers(Ok(headers)), now_ms);
            let next_ms = (now_ms + 30000) as u64;
            let next = (
                RunPhase::Polling { deadline_ms: next_ms },
                RunAction::<T>::PollFrame { deadline_ms: next_ms },
            );
            &&& run_next(polling, RunEvent::<D, T>::Poll(PollEvent::Frame(None)), now_ms) == (
                polling,
                RunAction::<T>::PollFrame { deadline_ms },
            )
            &&& run_next(polling, RunEvent::<D, T>::Poll(PollEvent::Frame(Some(len))), now_ms) == (
                parsing,
                RunAction::<T>::ParseHeaders { len },
            )
            &&& run_next(polling, RunEvent::<D, T>::Poll(PollEvent::TtlExpired), now_ms) == (
                RunPhase::Closed,
                RunAction::<T>::Close,
            )
            &&& headers.message_type == MessageType::Request ==> parsed == (
                RunPhase::Handling,
                RunAction::HandleRequest { headers, len },
            )
            &&& headers.message_type == MessageType::Response ==> parsed == next
            &&& run_next(parsing, RunEvent::<D, T>::Headers(Err(error)), now_ms) == next
            &&& run_next(RunPhase::Handling, RunEvent::<D, T>::Handled, now_ms) == next
        }),
{
}

/// A connection that waits takes a frame or the end of the time, one that parses takes headers, one
/// that handles a request takes the end of that, and one that is closed takes nothing more.
pub proof fn each_phase_waits_for_its_event<D, T>(
    deadline_ms: u64,
    len: usize,
    poll: PollEvent,
    headers: Result<Headers<T>, D>,
)
    ensures
        run_expects(RunPhase::Polling { deadline_ms }, RunEvent::<D, T>::Poll(poll)),
        run_expects(RunPhase::Parsing { len }, RunEvent::<D, T>::Headers(headers)),
        run_expects(RunPhase::Handling, RunEvent::<D, T>::Handled),
        forall|event: RunEvent<D, T>| !run_expects(RunPhase::Closed, event),
{
}

/// The wait for a message goes on after a frame that completes none, ends with the message that a
/// frame completes, and ends without one when the time is over.
pub proof fn wait_ends_with_a_message_or_the_time(len: usize)
    ensures
        poll_step(PollEvent::Frame(None)) == PollStep::Wait,
        poll_step(PollEvent::Frame(Some(len))) == PollStep::Done(Some(len)),
        poll_step(PollEvent::TtlExpired) == PollStep::Done(None),
{
}

/// Starts a connection at the time `now_ms`.
pub fn start<T>(now_ms: u64) -> (next: (RunPhase, RunAction<T>))
    requires
        in_time(now_ms),
    ensures
        next == next_message::<T>(now_ms),
        next.0 == (RunPhase::Polling { deadline_ms: (now_ms + 30000) as u64 }),
        next.1 == (RunAction::<T>::PollFrame { deadline_ms: (now_ms + 30000) as u64 }),
{
    let deadline_ms: u64 = now_ms + CONNECTION_TTL;
    (RunPhase::Polling { deadline_ms }, RunAction::PollFrame { deadline_ms })
}

/// Takes a connection one event further, which happens at the time `now_ms`.
pub fn run<D, T>(phase: RunPhase, event: RunEvent<D, T>, now_ms: u64) -> (next: (
    RunPhase,
    RunAction<T>,
))
    requires
        run_expects(phase, event),
        in_time(now_ms),
    ensures
        next == run_next(phase, event, now_ms),
{
    match (phase, event) {
        (RunPhase::Polling { deadline_ms }, RunEvent::Poll(event)) => match poll_message(event) {
            PollStep::Wait => (phase, RunAction::PollFrame { deadline_ms }),
            PollStep::Done(Some(len)) => (
                RunPhase::Parsing { len },
                RunAction::ParseHeaders { len },
            ),
            PollStep::Done(None) => (RunPhase::Closed, RunAction::Close),
        },
        (RunPhase::Parsing { len }, RunEvent::Headers(Ok(headers))) => match headers.message_type {
            MessageType::Request => (
                RunPhase::Handling,
                RunAction::HandleRequest { headers, len },
            ),
            MessageType::Response => start(now_ms),
        },
        (_, _) => start(now_ms),
    }
}

/// The phase of a connection that started at the time `start_ms`, after some events, each with the
/// time that it happened at.
pub open spec fn run_phase<D, T>(start_ms: u64, events: Seq<(RunEvent<D, T>, u64)>) -> RunPhase
    decreases events.len(),
{
    if events.len() == 0 {
        RunPhase::Polling { deadline_ms: deadline(start_ms) }
    } else {
        run_next(run_phase(start_ms, events.drop_last()), events.last().0, events.last().1).0
    }
}

/// What a connection does after the event with the number `i`.
pub open spec fn run_action<D, T>(
    start_ms: u64,
    events: Seq<(RunEvent<D, T>, u64)>,
    i: int,
) -> RunAction<T> {
    run_next(run_phase(start_ms, events.take(i)), events[i].0, events[i].1).1
}

/// The events happen each in a phase that expects it.
pub open spec fn run_trace<D, T>(start_ms: u64, events: Seq<(RunEvent<D, T>, u64)>) -> bool {
    forall|i: int|
        0 <= i < events.len() ==> run_expects(
            run_phase(start_ms, events.take(i)),
            (#[trigger] events[i]).0,
        )
}

/// Nothing but the end of the time for a message closes a connection, and nothing happens to a
/// connection after that.
pub proof fn only_expiry_closes<D, T>(start_ms: u64, events: Seq<(RunEvent<D, T>, u64)>)
    requires
        run_trace(start_ms, events),
    ensures
        run_phase(start_ms, events) is Closed <==> (events.len() > 0 && events.last().0
            == RunEvent::<D, T>::Poll(PollEvent::TtlExpired)),
        forall|i: int|
            0 <= i < events.len() - 1 ==> (#[trigger] events[i]).0 != RunEvent::<D, T>::Poll(
                PollEvent::TtlExpired,
            ),
{
    let expired = RunEvent::<D, T>::Poll(PollEvent::TtlExpired);
    if events.len() > 0 {
        assert(run_expects(run_phase(start_ms, events.take(events.len() - 1)), events.last().0));
        assert(events.take(events.len() - 1) =~= events.drop_last());
    }
    assert forall|i: int| 0 <= i < events.len() - 1 implies (#[trigger] events[i]).0 != expired by {
        assert(run_expects(run_phase(start_ms, events.take(i)), events[i].0));
        assert(run_expects(run_phase(start_ms, events.take(i + 1)), events[i + 1].0));
        phase_after(start_ms, events, i);
    }
}

/// The phase after the event with the number `i` is what that event leads to.
proof fn phase_after<D, T>(start_ms: u64, events: Seq<(RunEvent<D, T>, u64)>, i: int)
    requires
        0 <= i < events.len(),
    ensures
        run_phase(start_ms, events.take(i + 1)) == run_next(
            run_phase(start_ms, events.take(i)),
            events[i].0,
            events[i].1,
        ).0,
{
    assert(events.take(i + 1).drop_last() =~= events.take(i));
    assert(events.take(i + 1).last() == events[i]);
}

/// The time for a message is for all of it: as long as frames come that complete none, however many
/// and whenever they come, the connection waits until the same time.
pub proof fn frames_share_the_deadline<D, T>(
    start_ms: u64,
    events: Seq<(RunEvent<D, T>, u64)>,
    from: int,
    to: int,
    deadline_ms: u64,
)
    requires
        0 <= from <= to <= events.len(),
        run_phase(start_ms, events.take(from)) == (RunPhase::Polling { deadline_ms }),
        forall|i: int|
            from <= i < to ==> (#[trigger] events[i]).0 == RunEvent::<D, T>::Poll(
                PollEvent::Frame(None),
            ),
    ensures
        run_phase(start_ms, events.take(to)) == (RunPhase::Polling { deadline_ms }),
        from < to ==> run_action(start_ms, events, to - 1) == (RunAction::<T>::PollFrame {
            deadline_ms,
        }),
    decreases to - from,
{
    if from < to {
        frames_share_the_deadline(start_ms, events, from, to - 1, deadline_ms);
        phase_after(start_ms, events, to - 1);
        assert(events[to - 1].0 == RunEvent::<D, T>::Poll(PollEvent::Frame(None)));
    }
}

/// A message is done with before the next frame is polled: once a frame has completed it, its headers
/// come next, and where it is a request its handling comes after them. The message that is handled is
/// the one that was completed. The time for the next message begins when this one is done with.
pub proof fn message_is_done_before_the_next_frame<D, T>(
    start_ms: u64,
    events: Seq<(RunEvent<D, T>, u64)>,
    i: int,
)
    requires
        run_trace(start_ms, events),
        0 <= i < events.len(),
        run_action(start_ms, events, i) is ParseHeaders,
    ensures
        i + 1 < events.len() ==> events[i + 1].0 is Headers,
        i + 1 < events.len() ==> match run_action(start_ms, events, i + 1) {
            RunAction::HandleRequest { len, .. } => run_action(start_ms, events, i) == (RunAction::<
                T,
            >::ParseHeaders { len }),
            action => action == (RunAction::<T>::PollFrame { deadline_ms: deadline(events[i + 1].1) }),
        },
        i + 2 < events.len() ==> if run_action(start_ms, events, i + 1) is HandleRequest {
            &&& events[i + 2].0 is Handled
            &&& run_action(start_ms, events, i + 2) == (RunAction::<T>::PollFrame {
                deadline_ms: deadline(events[i + 2].1),
            })
        } else {
            events[i + 2].0 is Poll
        },
{
    assert(run_expects(run_phase(start_ms, events.take(i)), events[i].0));
    phase_after(start_ms, events, i);
    if i + 1 < events.len() {
        assert(run_expects(run_phase(start_ms, events.take(i + 1)), events[i + 1].0));
        phase_after(start_ms, events, i + 1);
    }
    if i + 2 < events.len() {
        assert(run_expects(run_phase(start_ms, events.take(i + 2)), events[i + 2].0));
    }
}

/// A request is handled exactly when its headers could be parsed and say that it is one. Whatever
/// else the headers turn out to be, the connection goes on with the next message.
pub proof fn only_requests_are_handled<D, T>(
    headers: Result<Headers<T>, D>,
    len: usize,
    now_ms: u64,
)
    ensures
        ({
            let (phase, action) = run_next(
                RunPhase::Parsing { len },
                RunEvent::<D, T>::Headers(headers),
                now_ms,
            );
            if headers is Ok && headers->Ok_0.message_type == MessageType::Request {
                phase is Handling && action == (RunAction::HandleRequest {
                    headers: headers->Ok_0,
                    len,
                })
            } else {
                (phase, action) == next_message::<T>(now_ms)
            }
        }),
{
}

/// How far the handling of a request has got.
pub enum RequestPhase<T> {
    /// Room of `size` bytes for the response is awaited.
    Granting { id: CommandID, timestamp: T, len: usize, size: usize },
    /// The payload of an action is being decoded.
    Decoding { timestamp: T, size: usize },
    /// The action is being carried out.
    Acting { timestamp: T, size: usize },
    /// The response is being encoded into the `size` bytes there are for it.
    Encoding { size: usize },
    Done,
}

/// What can happen while a request is handled.
pub enum RequestEvent<Q, P, E> {
    /// There is room for the response.
    Granted,
    /// The payload, as far as it could be decoded.
    Decoded(Result<Q, E>),
    /// What the device answers to the action.
    Acted(Result<P, E>),
    /// How many bytes of the grant the response takes, where it could be encoded.
    Encoded(Result<usize, E>),
}

/// What to do next with a request.
pub enum RequestAction<T, Q, P, E> {
    /// Wait for a grant of exactly this many bytes of the outgoing buffer.
    WaitGrant { size: usize },
    /// Encode the answer to a ping.
    RespondPing { timestamp: T },
    /// Decode the payload of the action in the message of this length.
    DecodePayload { len: usize },
    /// Have the device carry out an action.
    HandleAction(Q),
    /// Encode what the device answered.
    RespondAction { timestamp: T, result: Result<P, E> },
    /// Send this many bytes of the grant.
    Commit(usize),
    /// Send nothing. Holds the error, where one is the reason.
    Abandon(Option<E>),
}

/// What to do with a request when it arrives. `len` is how many bytes its message has, and `size` how
/// many bytes a response may take.
pub open spec fn request_first<T, Q, P, E>(headers: Headers<T>, len: usize, size: usize) -> (
    RequestPhase<T>,
    RequestAction<T, Q, P, E>,
) {
    (
        RequestPhase::Granting { id: headers.id, timestamp: headers.timestamp, len, size },
        RequestAction::WaitGrant { size },
    )
}

/// What to do with a request once there is room for the response.
pub open spec fn request_granted<T, Q, P, E>(
    id: CommandID,
    timestamp: T,
    len: usize,
    size: usize,
) -> (RequestPhase<T>, RequestAction<T, Q, P, E>) {
    match id {
        CommandID::Ping => (
            RequestPhase::Encoding { size },
            RequestAction::RespondPing { timestamp },
        ),
        CommandID::Action => (
            RequestPhase::Decoding { timestamp, size },
            RequestAction::DecodePayload { len },
        ),
        CommandID::Other => (RequestPhase::Done, RequestAction::Abandon(None)),
    }
}

/// What becomes of the grant once the response is encoded, or cannot be.
pub open spec fn request_result<T, Q, P, E>(encoded: Result<usize, E>) -> RequestAction<
    T,
    Q,
    P,
    E,
> {
    match encoded {
        Ok(bytes) => if bytes > 0 {
            RequestAction::Commit(bytes)
        } else {
            RequestAction::Abandon(None)
        },
        Err(e) => RequestAction::Abandon(Some(e)),
    }
}

/// The events that can happen in a phase. A response takes no more bytes than there are for it.
pub open spec fn request_expects<T, Q, P, E>(
    phase: RequestPhase<T>,
    event: RequestEvent<Q, P, E>,
) -> bool {
    match phase {
        RequestPhase::Granting { .. } => event is Granted,
        RequestPhase::Decoding { .. } => event is Decoded,
        RequestPhase::Acting { .. } => event is Acted,
        RequestPhase::Encoding { size } => event matches RequestEvent::Encoded(encoded) && (
        encoded matches Ok(bytes) ==> bytes <= size),
        RequestPhase::Done => false,
    }
}

/// What to do with a request after an event.
pub open spec fn request_next<T, Q, P, E>(
    phase: RequestPhase<T>,
    event: RequestEvent<Q, P, E>,
) -> (RequestPhase<T>, RequestAction<T, Q, P, E>) {
    match (phase, event) {
        (
            RequestPhase::Granting { id, timestamp, len, size },
            RequestEvent::Granted,
        ) => request_granted(id, timestamp, len, size),
        (RequestPhase::Decoding { timestamp, size }, RequestEvent::Decoded(Ok(action))) => (
            RequestPhase::Acting { timestamp, size },
            RequestAction::HandleAction(action),
        ),
        (RequestPhase::Decoding { .. }, RequestEvent::Decoded(Err(e))) => (
            RequestPhase::Done,
            RequestAction::Abandon(Some(e)),
        ),
        (RequestPhase::Acting { timestamp, size }, RequestEvent::Acted(result)) => (
            RequestPhase::Encoding { size },
            RequestAction::RespondAction { timestamp, result },
        ),
        (_, RequestEvent::Encoded(encoded)) => (RequestPhase::Done, request_result(encoded)),
        (_, _) => (RequestPhase::Done, RequestAction::Abandon(None)),
    }
}

/// Starts to handle a request. `len` is how many bytes its message has, and `size` how many bytes a
/// response may take.
pub fn handle_request<T, Q, P, E>(headers: Headers<T>, len: usize, size: usize) -> (next: (
    RequestPhase<T>,
    RequestAction<T, Q, P, E>,
))
    ensures
        next == request_first::<T, Q, P, E>(headers, len, size),
{
    (
        RequestPhase::Granting { id: headers.id, timestamp: headers.timestamp, len, size },
        RequestAction::WaitGrant { size },
    )
}

/// Takes the handling of a request one event further.
pub fn handle_request_event<T, Q, P, E>(
    phase: RequestPhase<T>,
    event: RequestEvent<Q, P, E>,
) -> (next: (RequestPhase<T>, RequestAction<T, Q, P, E>))
    requires
        request_expects(phase, event),
    ensures
        next == request_next(phase, event),
{
    match (phase, event) {
        (RequestPhase::Granting { id, timestamp, len, size }, RequestEvent::Granted) => match id {
            CommandID::Ping => (
                RequestPhase::Encoding { size },
                RequestAction::RespondPing { timestamp },
            ),
            CommandID::Action => (
                RequestPhase::Decoding { timestamp, size },
                RequestAction::DecodePayload { len },
            ),
            CommandID::Other => (RequestPhase::Done, RequestAction::Abandon(None)),
        },
        (RequestPhase::Decoding { timestamp, size }, RequestEvent::Decoded(Ok(action))) => (
            RequestPhase::Acting { timestamp, size },
            RequestAction::HandleAction(action),
        ),
        (RequestPhase::Decoding { .. }, RequestEvent::Decoded(Err(e))) => (
            RequestPhase::Done,
            RequestAction::Abandon(Some(e)),
        ),
        (RequestPhase::Acting { timestamp, size }, RequestEvent::Acted(result)) => (
            RequestPhase::Encoding { size },
            RequestAction::RespondAction { timestamp, result },
        ),
        (_, RequestEvent::Encoded(Ok(bytes))) => if bytes > 0 {
            (RequestPhase::Done, RequestAction::Commit(bytes))
        } else {
            (RequestPhase::Done, RequestAction::Abandon(None))
        },
        (_, RequestEvent::Encoded(Err(e))) => (
            RequestPhase::Done,
            RequestAction::Abandon(Some(e)),
        ),
        (_, _) => (RequestPhase::Done, RequestAction::Abandon(None)),
    }
}

/// How a request is answered, step by step. Room for the whole response is waited for first. A ping is
/// answered with its own timestamp. An action is decoded out of its message, what was decoded goes to
/// the device, and what the device answers goes back with the timestamp of the action. Anything else
/// is not answered.
pub proof fn requests_are_answered<T, Q, P, E>(
    headers: Headers<T>,
    len: usize,
    size: usize,
    action: Q,
    answer: Result<P, E>,
    error: E,
)
    ensures
        ({
            let timestamp = headers.timestamp;
            let first = request_first::<T, Q, P, E>(headers, len, size);
            let granted = request_next::<T, Q, P, E>(first.0, RequestEvent::Granted);
            let decoding = RequestPhase::Decoding { timestamp, size };
            let acting = RequestPhase::Acting { timestamp, size };
            &&& first.1 == (RequestAction::<T, Q, P, E>::WaitGrant { size })
            &&& headers.id == CommandID::Ping ==> granted == (
                RequestPhase::<T>::Encoding { size },
                RequestAction::<T, Q, P, E>::RespondPing { timestamp },
            )
            &&& headers.id == CommandID::Action ==> granted == (
                decoding,
                RequestAction::<T, Q, P, E>::DecodePayload { len },
            )
            &&& headers.id == CommandID::Other ==> granted == (
                RequestPhase::<T>::Done,
                RequestAction::<T, Q, P, E>::Abandon(None),
            )
            &&& request_next::<T, Q, P, E>(decoding, RequestEvent::Decoded(Ok(action))) == (
                acting,
                RequestAction::<T, Q, P, E>::HandleAction(action),
            )
            &&& request_next::<T, Q, P, E>(decoding, RequestEvent::Decoded(Err(error))) == (
                RequestPhase::<T>::Done,
                RequestAction::<T, Q, P, E>::Abandon(Some(error)),
            )
            &&& request_next::<T, Q, P, E>(acting, RequestEvent::Acted(answer)) == (
                RequestPhase::<T>::Encoding { size },
                RequestAction::<T, Q, P, E>::RespondAction { timestamp, result: answer },
            )
        }),
{
}

/// A response that was encoded is sent with as many bytes as it takes, and one that takes none is not
/// sent. Where it could not be encoded, the reason is reported.
pub proof fn responses_are_sent_whole<T, Q, P, E>(size: usize, bytes: usize, error: E)
    requires
        0 < bytes <= size,
    ensures
        request_next::<T, Q, P, E>(
            RequestPhase::Encoding { size },
            RequestEvent::Encoded(Ok(bytes)),
        ) == (RequestPhase::<T>::Done, RequestAction::<T, Q, P, E>::Commit(bytes)),
        request_next::<T, Q, P, E>(RequestPhase::Encoding { size }, RequestEvent::Encoded(Ok(0)))
            == (RequestPhase::<T>::Done, RequestAction::<T, Q, P, E>::Abandon(None)),
        request_next::<T, Q, P, E>(
            RequestPhase::Encoding { size },
            RequestEvent::Encoded(Err(error)),
        ) == (RequestPhase::<T>::Done, RequestAction::<T, Q, P, E>::Abandon(Some(error))),
{
}

/// Whatever can come of a step of a request is expected after that step: the grant, the payload or
/// the reason why there is none, what the device answers, and a response that fits.
pub proof fn each_step_of_a_request_is_awaited<T, Q, P, E>(
    id: CommandID,
    timestamp: T,
    len: usize,
    size: usize,
    decoded: Result<Q, E>,
    answer: Result<P, E>,
    encoded: Result<usize, E>,
)
    ensures
        request_expects(
            RequestPhase::Granting { id, timestamp, len, size },
            RequestEvent::<Q, P, E>::Granted,
        ),
        request_expects(
            RequestPhase::Decoding { timestamp, size },
            RequestEvent::<Q, P, E>::Decoded(decoded),
        ),
        request_expects(
            RequestPhase::Acting { timestamp, size },
            RequestEvent::<Q, P, E>::Acted(answer),
        ),
        (encoded matches Ok(bytes) ==> bytes <= size) <==> request_expects(
            RequestPhase::<T>::Encoding { size },
            RequestEvent::<Q, P, E>::Encoded(encoded),
        ),
{
}

/// Where the handling of a request stands after some events: the phase, and the last action.
pub open spec fn request_state<T, Q, P, E>(
    headers: Headers<T>,
    len: usize,
    size: usize,
    events: Seq<RequestEvent<Q, P, E>>,
) -> (RequestPhase<T>, RequestAction<T, Q, P, E>)
    decreases events.len(),
{
    if events.len() == 0 {
        request_first(headers, len, size)
    } else {
        request_next(request_state(headers, len, size, events.drop_last()).0, events.last())
    }
}

/// The events happen each in a phase that expects it.
pub open spec fn request_trace<T, Q, P, E>(
    headers: Headers<T>,
    len: usize,
    size: usize,
    events: Seq<RequestEvent<Q, P, E>>,
) -> bool
    decreases events.len(),
{
    events.len() == 0 || (request_trace(headers, len, size, events.drop_last()) && request_expects(
        request_state(headers, len, size, events.drop_last()).0,
        events.last(),
    ))
}

/// A response carries the timestamp of its request.
pub proof fn response_keeps_timestamp<T, Q, P, E>(
    headers: Headers<T>,
    len: usize,
    size: usize,
    events: Seq<RequestEvent<Q, P, E>>,
)
    requires
        request_trace(headers, len, size, events),
    ensures
        match request_state(headers, len, size, events).1 {
            RequestAction::RespondPing { timestamp } => timestamp == headers.timestamp,
            RequestAction::RespondAction { timestamp, .. } => timestamp == headers.timestamp,
            _ => true,
        },
        match request_state(headers, len, size, events).0 {
            RequestPhase::Granting { id, timestamp, .. } => id == headers.id && timestamp
                == headers.timestamp,
            RequestPhase::Decoding { timestamp, .. } => timestamp == headers.timestamp,
            RequestPhase::Acting { timestamp, .. } => timestamp == headers.timestamp,
            _ => true,
        },
    decreases events.len(),
{
    if events.len() > 0 {
        response_keeps_timestamp(headers, len, size, events.drop_last());
    }
}

/// Something is sent exactly when the response to a known command was encoded into at least one
/// byte: then those bytes are sent. A request is over once something has been sent or nothing will
/// be, and not before.
pub proof fn sent_is_what_was_encoded<T, Q, P, E>(
    headers: Headers<T>,
    len: usize,
    size: usize,
    events: Seq<RequestEvent<Q, P, E>>,
)
    requires
        request_trace(headers, len, size, events),
    ensures
        forall|bytes: usize|
            request_state(headers, len, size, events).1 == RequestAction::<T, Q, P, E>::Commit(bytes)
                <==> (headers.id != CommandID::Other && events.len() > 0 && bytes > 0
                && events.last() == RequestEvent::<Q, P, E>::Encoded(Ok(bytes))),
        request_state(headers, len, size, events).0 is Done <==> (request_state(
            headers,
            len,
            size,
            events,
        ).1 is Commit || request_state(headers, len, size, events).1 is Abandon),
{
    if events.len() > 0 {
        unknown_commands_are_ignored(headers, len, size, events);
    }
}

/// No more is sent than there was room for, and the payload that is decoded is that of the message of
/// the request.
pub proof fn sent_fits_the_grant<T, Q, P, E>(
    headers: Headers<T>,
    len: usize,
    size: usize,
    events: Seq<RequestEvent<Q, P, E>>,
)
    requires
        request_trace(headers, len, size, events),
    ensures
        match request_state(headers, len, size, events).1 {
            RequestAction::WaitGrant { size: awaited } => awaited == size,
            RequestAction::Commit(bytes) => bytes <= size,
            RequestAction::DecodePayload { len: decoded } => decoded == len,
            _ => true,
        },
        match request_state(headers, len, size, events).0 {
            RequestPhase::Granting { len: l, size: s, .. } => l == len && s == size,
            RequestPhase::Decoding { size: s, .. } => s == size,
            RequestPhase::Acting { size: s, .. } => s == size,
            RequestPhase::Encoding { size: s } => s == size,
            RequestPhase::Done => true,
        },
    decreases events.len(),
{
    if events.len() > 0 {
        sent_fits_the_grant(headers, len, size, events.drop_last());
    }
}

/// The handling of a command that is neither a ping nor an action is over as soon as there is room
/// for a response: none is sent, and nothing is done for the command.
pub proof fn unknown_commands_are_ignored<T, Q, P, E>(
    headers: Headers<T>,
    len: usize,
    size: usize,
    events: Seq<RequestEvent<Q, P, E>>,
)
    requires
        request_trace(headers, len, size, events),
    ensures
        events.len() > 0 ==> events[0] is Granted,
        events.len() > 0 && headers.id == CommandID::Other ==> events.len() == 1 && request_state(
            headers,
            len,
            size,
            events,
        ) == (RequestPhase::<T>::Done, RequestAction::<T, Q, P, E>::Abandon(None)),
    decreases events.len(),
{
    if events.len() > 0 {
        let front = events.drop_last();
        unknown_commands_are_ignored(headers, len, size, front);
        response_keeps_timestamp(headers, len, size, front);
        assert(front.len() > 0 ==> front[0] == events[0]);
    }
}

/// An action whose payload cannot be decoded never reaches the device, and gets no response.
pub proof fn undecodable_action_is_dropped<T, Q, P, E>(
    headers: Headers<T>,
    len: usize,
    size: usize,
    e: E,
)
    requires
        headers.id == CommandID::Action,
    ensures
        request_state::<T, Q, P, E>(
            headers,
            len,
            size,
            seq![RequestEvent::Granted, RequestEvent::Decoded(Err(e))],
        ) == (RequestPhase::<T>::Done, RequestAction::<T, Q, P, E>::Abandon(Some(e))),
{
    let one = seq![RequestEvent::<Q, P, E>::Granted];
    let two = one.push(RequestEvent::Decoded(Err(e)));
    assert(one.drop_last() =~= Seq::empty());
    assert(two.drop_last() =~= one);
    assert(two =~= seq![RequestEvent::Granted, RequestEvent::Decoded(Err(e))]);
    reveal_with_fuel(request_state, 3);
}

/// A decoded action goes to the device, and what the device answers is what is encoded.
pub proof fn action_is_answered_by_device<T, Q, P, E>(
    headers: Headers<T>,
    len: usize,
    size: usize,
    action: Q,
    answer: Result<P, E>,
)
    requires
        headers.id == CommandID::Action,
    ensures
        request_state::<T, Q, P, E>(
            headers,
            len,
            size,
            seq![RequestEvent::Granted, RequestEvent::Decoded(Ok(action))],
        ).1 == RequestAction::<T, Q, P, E>::HandleAction(action),
        request_state::<T, Q, P, E>(
            headers,
            len,
            size,
            seq![
                RequestEvent::Granted,
                RequestEvent::Decoded(Ok(action)),
                RequestEvent::Acted(answer),
            ],
        ).1 == (RequestAction::<T, Q, P, E>::RespondAction {
            timestamp: headers.timestamp,
            result: answer,
        }),
{
    let one = seq![RequestEvent::<Q, P, E>::Granted];
    let two = one.push(RequestEvent::Decoded(Ok(action)));
    let three = two.push(RequestEvent::Acted(answer));
    assert(one.drop_last() =~= Seq::empty());
    assert(two.drop_last() =~= one);
    assert(three.drop_last() =~= two);
    assert(two =~= seq![RequestEvent::Granted, RequestEvent::Decoded(Ok(action))]);
    assert(three =~= seq![
        RequestEvent::Granted,
        RequestEvent::Decoded(Ok(action)),
        RequestEvent::Acted(answer),
    ]);
    reveal_with_fuel(request_state, 4);
}

} // verus!
