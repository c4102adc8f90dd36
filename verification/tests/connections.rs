use ivy::ivy_core::connection::{
    Authorised, Buffer, Connection, ConnectionModule, ConnectionRunner, ConnectionSlot, Init, ModuleAction, ModuleEvent,
    StreamConsumer, StreamProducer, TransportIO, LATCH_COUNT, SLOT_COUNT,
};
use ivy::ivy_core::slot::{SlotGrant, SlotGuard};
use ivy::messaging::{
    CommandID, Headers, MessageType, PollEvent, PollStep, PolledFrame, RequestAction, RequestEvent, RequestPhase, RunAction, RunEvent,
    RunPhase, CONNECTION_TTL,
};
use ivy::rapid_core;

#[test]
fn guard_admits_one_at_a_time() {
    let mut guard = SlotGuard::new();
    let grant = guard.try_acquire().unwrap();
    assert!(guard.try_acquire().is_none());
    let second: SlotGrant = grant.clone(&mut guard);
    grant.drop(&mut guard);
    assert!(guard.try_acquire().is_none());
    second.drop(&mut guard);
    assert!(guard.try_acquire().is_some());
}

#[test]
fn test_aquire_and_release_slot() {
    let mut slots = [ConnectionSlot::new(), ConnectionSlot::new()];
    // Acquire slot
    let (conn_io, mut transport_io) = slots[0].try_aquire(|| Some("closed")).expect("Should acquire slot");

    // Slot should be locked
    assert!(slots[0].try_aquire(|| Some("closed")).is_none());

    let latch = transport_io.latch.take().expect("Latch should be some");
    // The latch waits for the news of its own slot, and gives back its grant after that
    let (receiver, grant) = latch.into_parts();
    assert_eq!(receiver, "closed", "Latch should wait on what the slot was acquired with");
    slots[0].drop_grant(grant);
    slots[0].drop_transport(transport_io);
    assert!(slots[0].try_aquire(|| Some("closed")).is_none());
    //Drop connection_io that usually goes to it.
    slots[0].drop_connection(conn_io);
    // Slot should now be re-acquirable
    assert!(slots[0].try_aquire(|| Some("closed")).is_some(), "Slot should be freed after grants are dropped");
}

#[test]
fn slot_without_receiver_is_released() {
    let mut slot = ConnectionSlot::new();
    assert!(slot.try_aquire(|| -> Option<u8> { None }).is_none());
    assert!(slot.try_aquire(|| Some(1u8)).is_some());
}

#[test]
fn ends_of_a_slot_are_wired_to_each_other() {
    let mut slot = ConnectionSlot::new();
    let (connection, transport) = slot.try_aquire(|| Some(())).unwrap();
    assert!(connection.tx.buffer == Buffer::Outgoing);
    assert!(transport.rx.buffer == Buffer::Outgoing);
    assert!(transport.tx.buffer == Buffer::Incoming);
    assert!(connection.rx.buffer == Buffer::Incoming);
    assert_eq!(LATCH_COUNT, 1);
}

#[test]
fn transport_with_its_latch_gives_back_two_grants() {
    let mut slot = ConnectionSlot::new();
    let (connection, transport) = slot.try_aquire(|| Some(())).unwrap();
    slot.drop_transport(transport);
    assert!(slot.try_aquire(|| Some(())).is_none());
    slot.drop_connection(connection);
    assert!(slot.try_aquire(|| Some(())).is_some());
}

#[test]
fn runner_is_idle_until_set() {
    let mut runner: ConnectionRunner<u8> = ConnectionRunner::Idle;
    assert!(runner.is_idle());
    runner.set(4);
    assert!(!runner.is_idle());
    assert!(matches!(runner, ConnectionRunner::Running(4)));
    *runner.poll().unwrap() = 6;
    assert!(matches!(runner, ConnectionRunner::Running(6)));
    runner.set(5);
    assert!(matches!(runner, ConnectionRunner::Running(5)));
    runner.set_idle();
    assert!(runner.is_idle());
    assert!(runner.poll().is_none());
}

fn accepted(action: ModuleAction<usize>) -> (usize, TransportIO<usize>) {
    match action {
        ModuleAction::Accept { slot, transport } => (slot, transport),
        _ => panic!("not accepted"),
    }
}

#[test]
fn module_takes_the_first_free_slot() {
    let mut module = ConnectionModule::new("handler");
    assert_eq!(*module.handler(), "handler");
    let (slot, mut transport) = accepted(module.act(ModuleEvent::RequestConnection, |slot: usize| Some(slot + 10)));
    assert_eq!(slot, 0);
    assert_eq!(transport.latch.take().unwrap().into_parts().0, 10);
}

#[test]
fn module_skips_a_slot_that_cannot_be_watched() {
    let mut module = ConnectionModule::new(());
    let receiver = |slot: usize| if slot == 0 { None } else { Some(slot) };
    let (slot, _) = accepted(module.act(ModuleEvent::RequestConnection, receiver));
    assert_eq!(slot, 1);
}

#[test]
fn module_rejects_where_no_slot_can_be_watched() {
    let mut module = ConnectionModule::new(());
    let action = module.act(ModuleEvent::RequestConnection, |_slot: usize| -> Option<u8> { None });
    assert!(matches!(action, ModuleAction::Reject));
    assert!(module.try_acquire_any(|slot: usize| Some(slot)).is_some());
}

#[test]
fn module_rejects_while_an_authorisation_is_under_way() {
    let mut module = ConnectionModule::new(());
    accepted(module.act(ModuleEvent::RequestConnection, Some));
    assert!(matches!(module.act(ModuleEvent::RequestConnection, Some), ModuleAction::Reject));
    let (slot, _, _) = module.try_acquire_any(Some).unwrap();
    assert_eq!(slot, 1);
    assert!(module.try_acquire_any(Some).is_none());
    assert_eq!(SLOT_COUNT, 2);
}

#[test]
fn authorised_connection_is_run_and_ends() {
    let mut module = ConnectionModule::new(());
    let (slot, transport) = accepted(module.act(ModuleEvent::RequestConnection, Some));
    let action = module.act(ModuleEvent::AuthorisationEnded { passed: true }, Some);
    assert!(matches!(
        action,
        ModuleAction::Run {
            slot: 0,
            tx: StreamProducer { buffer: Buffer::Outgoing },
            rx: StreamConsumer { buffer: Buffer::Incoming },
        }
    ));
    module.drop_transport(slot, transport);
    // the connection still holds its slot
    let (other, _, _) = module.try_acquire_any(Some).unwrap();
    assert_eq!(other, 1);
    assert!(matches!(module.act(ModuleEvent::ConnectionEnded, Some), ModuleAction::Continue));
    let (again, _, _) = module.try_acquire_any(Some).unwrap();
    assert_eq!(again, 0);
}

#[test]
fn module_admits_one_transport() {
    let mut module = ConnectionModule::new(());
    let (first, transport) = accepted(module.act(ModuleEvent::RequestConnection, Some));
    assert!(module.authorise());
    assert!(matches!(module.act(ModuleEvent::RequestConnection, Some), ModuleAction::Reject));
    let passed = module.authorise();
    assert!(matches!(module.act(ModuleEvent::AuthorisationEnded { passed }, Some), ModuleAction::Run { slot: 0, .. }));
    // the authorisation is over, but its runner does not become idle
    assert!(matches!(module.act(ModuleEvent::RequestConnection, Some), ModuleAction::Reject));
    assert_eq!((module.grants_lent(0), module.grants_lent(1)), (2, 0));
    assert!(matches!(module.act(ModuleEvent::ConnectionEnded, Some), ModuleAction::Continue));
    module.drop_transport(first, transport);
    assert_eq!(module.grants_lent(0), 0);
    // every slot is free again, and still no transport is admitted
    assert!(matches!(module.act(ModuleEvent::RequestConnection, Some), ModuleAction::Reject));
    let (free, _, _) = module.try_acquire_any(Some).unwrap();
    assert_eq!(free, 0);
}

#[test]
fn refused_authorisation_frees_the_slot() {
    let mut module = ConnectionModule::new(());
    let (slot, mut transport) = accepted(module.act(ModuleEvent::RequestConnection, Some));
    let action = module.act(ModuleEvent::AuthorisationEnded { passed: false }, Some);
    assert!(matches!(action, ModuleAction::Continue));
    let (_, grant) = transport.latch.take().unwrap().into_parts();
    module.drop_latch(slot, grant);
    module.drop_transport(slot, transport);
    assert!(matches!(module.act(ModuleEvent::RequestConnection, Some), ModuleAction::Reject));
    let (free, _, _) = module.try_acquire_any(Some).unwrap();
    assert_eq!(free, 0);
}

#[test]
fn authorise_keeps_the_ends_of_the_slot() {
    let mut slot = ConnectionSlot::new();
    let (io, transport) = slot.try_aquire(|| Some(())).unwrap();
    let connection = Connection::new(Init {}, io);
    assert!(connection.passes());
    assert!(connection.streams().0.buffer == Buffer::Outgoing);
    assert!(connection.streams().1.buffer == Buffer::Incoming);
    let connection: Connection<Authorised> = connection.authorise().unwrap();
    slot.drop_connection(connection.into_io());
    slot.drop_transport(transport);
    assert!(slot.try_aquire(|| Some(())).is_some());
}

#[test]
fn frames_are_polled_until_a_message_is_complete() {
    let mut slot = ConnectionSlot::new();
    let (io, _) = slot.try_aquire(|| Some(())).unwrap();
    let connection = Connection::new(Init {}, io);
    let more = |_frame: &[u8]| -> Result<Option<usize>, ()> { Ok(None) };
    assert!(connection.poll_frame(&[1, 2, 3], more) == PolledFrame { message: None, release: 3 });
    let broken = |_frame: &[u8]| -> Result<Option<usize>, &str> { Err("broken") };
    assert!(connection.poll_frame(&[1, 2], broken) == PolledFrame { message: None, release: 2 });
    let complete = |frame: &[u8]| -> Result<Option<usize>, ()> { Ok(Some(frame.len() + 8)) };
    assert!(connection.poll_frame(&[1, 2, 3, 4], complete) == PolledFrame { message: Some(12), release: 4 });
    assert!(matches!(connection.poll_message(PollEvent::Frame(None)), PollStep::Wait));
    assert!(matches!(connection.poll_message(PollEvent::Frame(Some(12))), PollStep::Done(Some(12))));
    assert!(matches!(connection.poll_message(PollEvent::TtlExpired), PollStep::Done(None)));
    assert_eq!(CONNECTION_TTL, 30000);
}

#[test]
fn each_byte_reaches_the_assembler_once() {
    let connection = served();
    let mut rx: Vec<u8> = Vec::new();
    let mut assembled: Vec<u8> = Vec::new();
    for written in [vec![1, 2, 3], vec![4], vec![5, 6]] {
        rx.extend(written);
        let frame = rx.clone();
        let polled = connection.poll_frame(&frame, |frame: &[u8]| -> Result<Option<usize>, ()> {
            assembled.extend_from_slice(frame);
            Ok(None)
        });
        rx.drain(..polled.release);
    }
    assert_eq!(assembled, vec![1, 2, 3, 4, 5, 6]);
    assert!(rx.is_empty());
}

fn headers(id: CommandID, message_type: MessageType) -> Headers<u64> {
    Headers { id, timestamp: 77, message_type }
}

fn served() -> Connection<Init> {
    let mut slot = ConnectionSlot::new();
    let (io, _) = slot.try_aquire(|| Some(())).unwrap();
    Connection::new(Init {}, io)
}

#[test]
fn connection_serves_requests_until_it_expires() {
    let connection = served();
    let (phase, action) = connection.start::<u64>(100);
    assert!(phase == RunPhase::Polling { deadline_ms: 30100 });
    assert!(matches!(action, RunAction::PollFrame { deadline_ms: 30100 }));

    // a frame that completes no message leaves the deadline where it is
    let event: RunEvent<(), u64> = RunEvent::Poll(PollEvent::Frame(None));
    let (phase, action) = connection.run(phase, event, 20000);
    assert!(phase == RunPhase::Polling { deadline_ms: 30100 });
    assert!(matches!(action, RunAction::PollFrame { deadline_ms: 30100 }));

    let event: RunEvent<(), u64> = RunEvent::Poll(PollEvent::Frame(Some(9)));
    let (phase, action) = connection.run(phase, event, 20001);
    assert!(phase == RunPhase::Parsing { len: 9 });
    assert!(matches!(action, RunAction::ParseHeaders { len: 9 }));

    let event: RunEvent<(), u64> = RunEvent::Headers(Ok(headers(CommandID::Ping, MessageType::Request)));
    let (phase, action) = connection.run(phase, event, 20002);
    assert!(phase == RunPhase::Handling);
    assert!(matches!(action, RunAction::HandleRequest { headers: Headers { id: CommandID::Ping, timestamp: 77, .. }, len: 9 }));

    // the next message has the whole time for itself
    let event: RunEvent<(), u64> = RunEvent::Handled;
    let (phase, action) = connection.run(phase, event, 25000);
    assert!(phase == RunPhase::Polling { deadline_ms: 55000 });
    assert!(matches!(action, RunAction::PollFrame { deadline_ms: 55000 }));

    let event: RunEvent<(), u64> = RunEvent::Poll(PollEvent::TtlExpired);
    let (phase, action) = connection.run(phase, event, 55000);
    assert!(phase == RunPhase::Closed);
    assert!(matches!(action, RunAction::Close));
}

#[test]
fn unsolicited_responses_and_broken_headers_are_skipped() {
    let connection = served();
    let event: RunEvent<(), u64> = RunEvent::Headers(Ok(headers(CommandID::Ping, MessageType::Response)));
    let (phase, action) = connection.run(RunPhase::Parsing { len: 9 }, event, 1);
    assert!(phase == RunPhase::Polling { deadline_ms: 30001 });
    assert!(matches!(action, RunAction::PollFrame { deadline_ms: 30001 }));
    let event: RunEvent<&str, u64> = RunEvent::Headers(Err("no json"));
    let (phase, action) = connection.run(RunPhase::Parsing { len: 9 }, event, 2);
    assert!(phase == RunPhase::Polling { deadline_ms: 30002 });
    assert!(matches!(action, RunAction::PollFrame { deadline_ms: 30002 }));
}

type Step = (RequestPhase<u64>, RequestAction<u64, &'static str, u8, &'static str>);

#[test]
fn ping_is_answered_with_the_timestamp_of_the_request() {
    let connection = served();
    let (phase, action): Step = connection.handle_request(headers(CommandID::Ping, MessageType::Request), 9, 64);
    assert!(matches!(action, RequestAction::WaitGrant { size: 64 }));
    let (phase, action): Step = connection.handle_request_event(phase, RequestEvent::Granted);
    assert!(matches!(action, RequestAction::RespondPing { timestamp: 77 }));
    let (phase, action): Step = connection.handle_request_event(phase, RequestEvent::Encoded(Ok(31)));
    assert!(matches!(phase, RequestPhase::Done));
    assert!(matches!(action, RequestAction::Commit(31)));
}

#[test]
fn action_is_decoded_carried_out_and_answered() {
    let connection = served();
    let (phase, action): Step = connection.handle_request(headers(CommandID::Action, MessageType::Request), 9, 64);
    assert!(matches!(action, RequestAction::WaitGrant { size: 64 }));
    let (phase, action): Step = connection.handle_request_event(phase, RequestEvent::Granted);
    assert!(matches!(action, RequestAction::DecodePayload { len: 9 }));
    let (phase, action): Step = connection.handle_request_event(phase, RequestEvent::Decoded(Ok("open")));
    assert!(matches!(action, RequestAction::HandleAction("open")));
    let (phase, action): Step = connection.handle_request_event(phase, RequestEvent::Acted(Err("stuck")));
    assert!(matches!(action, RequestAction::RespondAction { timestamp: 77, result: Err("stuck") }));
    let (_, action): Step = connection.handle_request_event(phase, RequestEvent::Encoded(Err("too long")));
    assert!(matches!(action, RequestAction::Abandon(Some("too long"))));
}

#[test]
fn nothing_is_sent_for_what_cannot_be_answered() {
    let connection = served();
    let (phase, _): Step = connection.handle_request(headers(CommandID::Other, MessageType::Request), 9, 64);
    let (phase, action): Step = connection.handle_request_event(phase, RequestEvent::Granted);
    assert!(matches!(phase, RequestPhase::Done));
    assert!(matches!(action, RequestAction::Abandon(None)));
    let (phase, _): Step = connection.handle_request(headers(CommandID::Action, MessageType::Request), 9, 64);
    let (phase, _): Step = connection.handle_request_event(phase, RequestEvent::Granted);
    let (phase, action): Step = connection.handle_request_event(phase, RequestEvent::Decoded(Err("no json")));
    assert!(matches!(phase, RequestPhase::Done));
    assert!(matches!(action, RequestAction::Abandon(Some("no json"))));
    let (_, action): Step = connection.handle_request_event(RequestPhase::Encoding { size: 64 }, RequestEvent::Encoded(Ok(0)));
    assert!(matches!(action, RequestAction::Abandon(None)));
}

#[test]
fn sized_connection_keeps_its_ends_and_its_size() {
    let connection: rapid_core::connection::Connection<rapid_core::connection::Init, u8, u16, u32, 128, 64> =
        rapid_core::connection::Connection::new(rapid_core::connection::Init {}, 1, 2, 3);
    let complete = |_frame: &[u8]| -> Result<Option<usize>, ()> { Ok(Some(5)) };
    assert!(connection.poll_frame(&[1], complete) == PolledFrame { message: Some(5), release: 1 });
    assert!(matches!(connection.poll_message(PollEvent::TtlExpired), PollStep::Done(None)));
    let (phase, _) = connection.start::<u64>(0);
    assert!(phase == RunPhase::Polling { deadline_ms: 30000 });
    let (phase, _) = connection.run::<(), u64>(phase, RunEvent::Poll(PollEvent::TtlExpired), 30000);
    assert!(phase == RunPhase::Closed);
    let (phase, action): Step = connection.handle_request(headers(CommandID::Ping, MessageType::Request), 9);
    assert!(matches!(action, RequestAction::WaitGrant { size: 128 }));
    let (phase, _): Step = connection.handle_request_event(phase, RequestEvent::Granted);
    let (_, action): Step = connection.handle_request_event(phase, RequestEvent::Encoded(Ok(2)));
    assert!(matches!(action, RequestAction::Commit(2)));
    assert_eq!(connection.authorise().into_io(), (1, 2, 3));
    assert_eq!(*rapid_core::connection::ConnectionModule::new(4).handler(), 4);
}
