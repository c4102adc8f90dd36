use ivy::device::{DeviceMetadata, DeviceName, PersistentDeviceMeta};
use ivy::ivy_core::bluetooth::{handle_command, BluetoothAction, BluetoothHandleTraitCommand, BluetoothModule};
use ivy::ivy_core::flash::{FlashStorage, IvyFlash, IvyFlashPartition, StorageKey};
use ivy::ivy_core::logger::{init_mqtt_logger, Level, SendLogger};
use ivy::ivy_core::mqtt::{
    drain_reply, log_packet, next_back_off, publish_packet, publish_reply, run_client_task,
    run_stack_task, start_client, start_stack, wait_for_disconnect, ClientAction, ClientEvent, ClientState, MqttError,
    MqttHandle, MqttModule, QoS, StackStep, Subscription, SubscriptionAction, SubscriptionEvent, SubscriptionState, TypedHandle, LOG_BUFFER_SIZE,
    MAX_NET_PAYLOAD_SIZE, TCP_BUFFER_SIZE, TLS_BUFFER_SIZE,
};
use ivy::ivy_core::wifi::WifiModule;
use ivy::ivy_types::actor::{DropBomb, Request};
use ivy::ivy_types::ActorHandle;
use ivy::rapid_core;
use ivy::rapid_core::RapidFramework;
use ivy::storage::{read_item, StorageRequest, MIN_KEY_VALUE};

fn device(name: &str) -> DeviceMetadata<&'static str, u32> {
    let name = DeviceName::new(name).unwrap();
    DeviceMetadata::new(Some(PersistentDeviceMeta { device_id: 7, name }), "chest")
}

#[test]
fn name_has_at_most_sixteen_bytes() {
    let name = DeviceName::new("0123456789abcdef").unwrap();
    assert_eq!(name.as_str(), "0123456789abcdef");
    assert_eq!(name.as_bytes(), b"0123456789abcdef");
    assert!(DeviceName::new("0123456789abcdefg").is_none());
    // nine characters, seventeen bytes
    assert!(DeviceName::new("aéééééééé").is_none());
    assert_eq!(DeviceName::new("éééééééé").unwrap().as_bytes().len(), 16);
    assert_eq!(DeviceName::new("").unwrap().as_str(), "");
}

#[test]
fn metadata_gives_access_to_what_was_stored() {
    let meta = device("lamp");
    assert_eq!(meta.device_type, "chest");
    assert_eq!(meta.device_id, 7);
    assert_eq!(meta.name.as_str(), "lamp");
}

#[test]
fn advertisement_holds_flags_service_name_and_maker() {
    let meta = device("lamp");
    let module = BluetoothModule::new((), &meta);
    let ad = module.advertisement(0x1234, &[9, 8, 7]);
    let expected: [u8; 20] = [
        2, 0x01, 6, 3, 0x02, 0x7e, 0xca, 5, 0x09, b'l', b'a', b'm', b'p', 6, 0xff, 0x34, 0x12, 9, 8, 7,
    ];
    assert_eq!(ad.len, 20);
    assert_eq!(&ad.advertiser_data[..20], &expected[..]);
    assert_eq!(&ad.advertiser_data[20..], &[0u8; 11][..]);
}

#[test]
fn advertisement_must_fit() {
    let meta = device("0123456789abcdef");
    let module = BluetoothModule::new((), &meta);
    let ad = module.checked_advertisement(0xffff, &[1, 2]).unwrap();
    assert_eq!(ad.len, 31);
    assert_eq!(&ad.advertiser_data[25..], &[5, 0xff, 0xff, 0xff, 1, 2]);
    assert!(module.checked_advertisement(0xffff, &[1, 2, 3]).is_none());
}

#[test]
fn advertisement_can_be_read_back() {
    let meta = device("lamp");
    let module = BluetoothModule::new((), &meta);
    let ad = module.advertisement(0x0201, &[5]);
    let mut pieces: Vec<(u8, Vec<u8>)> = Vec::new();
    let mut rest = &ad.advertiser_data[..ad.len];
    while !rest.is_empty() {
        let end = rest[0] as usize + 1;
        pieces.push((rest[1], rest[2..end].to_vec()));
        rest = &rest[end..];
    }
    assert_eq!(pieces, vec![(1, vec![6]), (2, vec![0x7e, 0xca]), (9, b"lamp".to_vec()), (0xff, vec![1, 2, 5])]);
}

#[test]
fn controller_is_taken_once() {
    let meta = device("lamp");
    let mut module = BluetoothModule::new("radio", &meta);
    assert_eq!(module.device_meta().name.as_str(), "lamp");
    assert_eq!(module.take_controller(), "radio");
}

#[test]
fn every_command_is_acknowledged() {
    assert!(handle_command(Some(BluetoothHandleTraitCommand::StartAdvertising)) == BluetoothAction::Ack);
    assert!(handle_command(Some(BluetoothHandleTraitCommand::StopAdvertising)) == BluetoothAction::Ack);
    assert!(handle_command(None) == BluetoothAction::Continue);
    let module = rapid_core::bluetooth::BluetoothModule::new("radio");
    assert_eq!(*module.controller(), "radio");
    assert!(module.run(Some(BluetoothHandleTraitCommand::StopAdvertising)) == BluetoothAction::Ack);
    assert!(module.run(None) == BluetoothAction::Continue);
}

#[test]
fn partition_shifts_addresses() {
    let flash = IvyFlash::new(3u8);
    let partition = flash.partition(0x1000..0x3000);
    assert_eq!(partition.flash(), 3);
    assert_eq!(partition.offset(), 0x1000);
    assert_eq!(partition.size(), 0x2000);
    assert_eq!(partition.capacity(), 0x2000);
    assert_eq!(partition.read_address(0x10), 0x1010);
    assert_eq!(partition.write_address(0), 0x1000);
    assert_eq!(partition.erase_addresses(0x100, 0x2000), (0x1100, 0x3000));
    let last = IvyFlashPartition::new((), 0..u32::MAX);
    assert_eq!(last.read_address(u32::MAX), u32::MAX);
}

#[test]
fn accesses_to_two_partitions_do_not_meet() {
    let flash = IvyFlash::new(());
    let low = flash.partition(0..0x1000);
    let high = flash.partition(0x1000..0x2000);
    assert!(low.write_address(low.size() - 1) < high.write_address(0));
}

#[test]
fn storage_counts_addresses_from_the_partition() {
    let inner = FlashStorage::<()>::build(IvyFlashPartition::new((), 0x4000..0x6000));
    assert_eq!(inner.range, 0..0x2000);
    assert_eq!(inner.partition.offset(), 0x4000);
    assert_eq!(inner.ser_buf, [0u8; 256]);
    assert_eq!(inner.work_buf, [0u8; 256]);
}

#[test]
fn storage_asks_for_the_key_of_an_item() {
    let storage = FlashStorage::from_static(5);
    assert_eq!(storage.inner, 5);
    assert!(matches!(storage.get(StorageKey::new(100)), StorageRequest::Fetch { key: 100 }));
    assert!(matches!(storage.get(StorageKey::metadata_key()), StorageRequest::Fetch { key: 1 }));
    let request = storage.set(StorageKey::new(4711), &[1, 2, 3]);
    assert!(matches!(request, StorageRequest::Store { key: 4711, value: [1, 2, 3] }));
}

#[test]
fn storage_module_asks_for_the_key_of_an_item() {
    let inner = rapid_core::storage::StorageModule::<()>::build("flash", 8..16);
    assert_eq!(inner.flash, "flash");
    assert_eq!(inner.range, 8..16);
    assert_eq!(inner.read_buf, [0u8; 128]);
    assert_eq!(inner.write_buf, [0u8; 128]);
    assert_eq!(inner.work_buf, [0u8; 256]);
    let storage = rapid_core::storage::StorageModule::from_static(inner);
    let key = rapid_core::storage::StorageKey::wifi_key();
    assert!(matches!(storage.get(key), StorageRequest::Fetch { key: 0 }));
    let key = rapid_core::storage::StorageKey::metadata_key();
    assert_eq!(*key.as_ref(), 1);
    let key = rapid_core::storage::StorageKey::new(MIN_KEY_VALUE);
    assert!(matches!(storage.set(key, &[4]), StorageRequest::Store { key: 100, value: [4] }));
}

#[test]
fn keys_of_the_system_are_not_for_applications() {
    assert!(StorageKey::checked_new(0).is_none());
    assert!(StorageKey::checked_new(99).is_none());
    assert_eq!(*StorageKey::checked_new(100).unwrap().as_ref(), 100);
    assert_eq!(*StorageKey::checked_new(u32::MAX).unwrap().as_ref(), u32::MAX);
    assert!(rapid_core::storage::StorageKey::checked_new(99).is_none());
    assert_eq!(*rapid_core::storage::StorageKey::checked_new(100).unwrap().as_ref(), 100);
}

#[test]
fn written_item_is_read_back_after_other_requests() {
    let storage = FlashStorage::from_static(());
    let requests = [
        storage.set(StorageKey::new(100), &[1]),
        storage.set(StorageKey::new(100), &[7, 5]),
        storage.get(StorageKey::new(100)),
        storage.set(StorageKey::new(101), &[8, 8]),
        storage.set(StorageKey::metadata_key(), &[9]),
        storage.get(StorageKey::new(102)),
    ];
    let mut items: Vec<(u32, Vec<u8>)> = Vec::new();
    for request in requests {
        if let StorageRequest::Store { key, value } = request {
            items.retain(|item| item.0 != key);
            items.push((key, value.to_vec()));
        }
    }
    let fetched = match storage.get(StorageKey::new(100)) {
        StorageRequest::Fetch { key } => items.iter().find(|item| item.0 == key).map(|item| item.1.as_slice()),
        _ => None,
    };
    let decode = |bytes: &[u8]| if bytes.len() == 2 { Ok(u16::from_be_bytes([bytes[0], bytes[1]])) } else { Err("short") };
    assert_eq!(read_item(Ok::<_, ()>(fetched), decode), Some(1797));
}

#[test]
fn stored_items_are_found_under_their_keys() {
    let storage = FlashStorage::from_static(());
    let mut items: Vec<(u32, Vec<u8>)> = vec![(1, vec![9])];
    if let StorageRequest::Store { key, value } = storage.set(StorageKey::new(100), &[1, 2]) {
        items.push((key, value.to_vec()));
    }
    let lookup = |request: StorageRequest<'static>| match request {
        StorageRequest::Fetch { key } => items.iter().find(|item| item.0 == key).map(|item| item.1.clone()),
        _ => None,
    };
    assert_eq!(lookup(storage.get(StorageKey::new(100))), Some(vec![1, 2]));
    assert_eq!(lookup(storage.get(StorageKey::metadata_key())), Some(vec![9]));
    assert_eq!(lookup(storage.get(StorageKey::new(101))), None);
}

#[test]
fn failures_of_the_store_look_like_missing_items() {
    let decode = |bytes: Vec<u8>| if bytes.len() == 2 { Ok(bytes[0]) } else { Err("short") };
    assert_eq!(read_item::<_, _, &str, _, _>(Ok(Some(vec![3, 4])), decode), Some(3));
    assert_eq!(read_item::<_, _, &str, _, _>(Ok(Some(vec![3])), decode), None);
    assert_eq!(read_item::<_, _, &str, _, _>(Ok(None), decode), None);
    assert_eq!(read_item(Err("worn out"), decode), None);
}

#[test]
fn logger_sends_everything_but_traces() {
    let logger = init_mqtt_logger();
    assert!(logger.enabled(Level::Error));
    assert!(logger.enabled(Level::Warn));
    assert!(logger.enabled(Level::Info));
    assert!(logger.enabled(Level::Debug));
    assert!(!logger.enabled(Level::Trace));
    let logger = SendLogger::new(Level::Error);
    assert!(logger.enabled(Level::Error));
    assert!(!logger.enabled(Level::Warn));
    let logger = SendLogger::new(Level::Trace);
    assert!(logger.enabled(Level::Trace));
}

#[test]
fn span_ids_count_from_one() {
    let mut logger = SendLogger::new(Level::Info);
    assert_eq!(logger.new_span(), 1);
    assert_eq!(logger.new_span(), 2);
    assert_eq!(logger.new_span(), 3);
}

#[test]
fn publication_carries_what_was_serialized() {
    let mut buffer = [0u8; 8];
    buffer[..3].copy_from_slice(b"abc");
    let handle: MqttHandle<&str, 8> = MqttHandle::create("module");
    assert_eq!(*handle.sender(), "module");
    let command = handle.publish::<()>("lamp/state", buffer, Ok(3)).unwrap();
    let packet = publish_packet(&command);
    assert_eq!(packet.topic, "lamp/state");
    assert_eq!(packet.payload, b"abc");
    assert!(packet.qos == QoS::AtMostOnce);
    assert!(handle.publish("lamp/state", buffer, Err("too long")).is_none());
}

type Reply = Result<(), MqttError<&'static str, &'static str, &'static str>>;

#[test]
fn publication_is_replied_to() {
    let reply: Reply = publish_reply(Ok(12));
    assert!(matches!(reply, Ok(())));
    let reply: Reply = publish_reply::<(), _, _, _>(Err("full"));
    assert!(matches!(reply, Err(MqttError::MqttClient("full"))));
    let reply: Reply = drain_reply();
    assert!(matches!(reply, Err(MqttError::Disconnected)));
}

#[test]
fn log_records_go_to_the_log_topic() {
    let mut buffer = [0u8; LOG_BUFFER_SIZE];
    buffer[0] = b'{';
    buffer[1] = b'}';
    let packet = log_packet::<()>(&buffer, Ok(2)).unwrap();
    assert_eq!(packet.topic, "mushclim/log");
    assert_eq!(packet.payload, b"{}");
    assert!(packet.qos == QoS::AtMostOnce);
    assert!(log_packet(&buffer, Err("too long")).is_none());
}

#[test]
fn decoded_messages_reach_the_subscriber() {
    let handle = TypedHandle::new("signal");
    assert_eq!(*handle.signal(), *Subscription::new("signal").receiver());
    let value: Result<u8, MqttError<&str, (), ()>> = handle.dispatch(Ok((5, 1)));
    assert!(matches!(value, Ok(5)));
    let value: Result<u8, MqttError<&str, (), ()>> = handle.dispatch(Err("no json"));
    assert!(matches!(value, Err(MqttError::Decode("no json"))));
}

#[test]
fn back_off_grows_to_its_limit() {
    let mut pauses: Vec<u64> = Vec::new();
    let module: MqttModule<(), (), u8, 0> = MqttModule::new((), (), []);
    let mut state = SubscriptionState::start();
    for _ in 0..8 {
        let (next, action) = module.handle_subscriptions(state, SubscriptionEvent::SubscribeFailed);
        match action {
            SubscriptionAction::Retry { after_ms } => pauses.push(after_ms),
            _ => panic!("no retry"),
        }
        state = next;
    }
    assert_eq!(pauses, vec![2000, 3000, 4500, 6750, 10125, 15187, 20000, 20000]);
    assert_eq!(next_back_off(0), 0);
    assert_eq!(next_back_off(13333), 19999);
    assert_eq!(next_back_off(13334), 20000);
}

#[test]
fn messages_go_to_the_first_subscriber_to_their_topic() {
    let mut module = MqttModule::new("stack", "random", [("lamp", 1), ("door", 2), ("lamp", 3)]);
    assert_eq!(module.topics(), vec!["lamp", "door", "lamp"]);
    assert_eq!(*module.stack(), "stack");
    assert_eq!(module.take_trng(), "random");
    let (state, action) = module.handle_subscriptions(SubscriptionState::start(), SubscriptionEvent::Subscribed);
    assert!(state == SubscriptionState::Listening);
    assert!(action == SubscriptionAction::Listen);
    let (state, action) = module.handle_subscriptions(state, SubscriptionEvent::Message { topic: "lamp" });
    assert!(action == SubscriptionAction::Dispatch { subscriber: 0 });
    assert_eq!(*module.subscriber(0), 1);
    let (state, action) = module.handle_subscriptions(state, SubscriptionEvent::Message { topic: "door" });
    assert!(action == SubscriptionAction::Dispatch { subscriber: 1 });
    let (state, action) = module.handle_subscriptions(state, SubscriptionEvent::Message { topic: "Lamp" });
    assert!(action == SubscriptionAction::Listen);
    let (state, action) = module.handle_subscriptions(state, SubscriptionEvent::NoMessage);
    assert!(state == SubscriptionState::Listening);
    assert!(action == SubscriptionAction::Listen);
    assert_eq!(module.find_subscriber(""), None);
}

#[test]
fn client_drains_its_inbox_between_two_connections() {
    let (state, action) = start_client();
    assert!(action == ClientAction::WaitConnected);
    let (state, action) = run_client_task(state, ClientEvent::Connected);
    assert!(action == ClientAction::RunWorkers);
    let (state, action) = run_client_task(state, ClientEvent::WorkerEnded);
    assert!(action == ClientAction::DrainInbox);
    let (state, action) = run_client_task(state, ClientEvent::Connected);
    assert!(action == ClientAction::WaitConnected);
    assert!(state == ClientState::Connecting);
    assert!(!wait_for_disconnect(true));
    assert!(wait_for_disconnect(false));
}

#[test]
fn stack_is_reset_between_two_runs() {
    let mut step = start_stack();
    let mut steps: Vec<StackStep> = Vec::new();
    for _ in 0..7 {
        steps.push(step);
        step = run_stack_task(step);
    }
    assert!(steps[0] == StackStep::WaitConfigUp);
    assert!(steps[1] == StackStep::Run);
    assert!(steps[2] == StackStep::Delay { ms: 4000 });
    assert!(steps[3] == StackStep::Disconnect);
    assert!(steps[4] == StackStep::DisconnectTransport);
    assert!(steps[5] == StackStep::Reset);
    assert!(steps[6] == StackStep::WaitConfigUp);
}

#[test]
fn a_payload_fits_a_tls_record() {
    assert_eq!(MAX_NET_PAYLOAD_SIZE, 4096);
    assert_eq!(TCP_BUFFER_SIZE, 4096);
    assert!(MAX_NET_PAYLOAD_SIZE + 500 <= TLS_BUFFER_SIZE);
}

#[test]
fn request_can_be_dropped_once_it_has_its_reply() {
    let mut request = Request::new();
    assert!(!request.can_drop());
    request.sent();
    assert!(!request.can_drop());
    assert_eq!(request.received("reply"), "reply");
    assert!(request.can_drop());
}

#[test]
fn bomb_is_armed_until_it_is_defused() {
    let mut bomb = DropBomb::new();
    assert!(bomb.is_armed());
    bomb.defuse();
    assert!(!bomb.is_armed());
}

struct Handle;

impl ActorHandle for Handle {
    type Command = u8;
    type Signals = u16;
}

#[test]
fn handle_names_its_command_and_its_signals() {
    let command: <Handle as ActorHandle>::Command = 1u8;
    let signals: <Handle as ActorHandle>::Signals = 2u16;
    assert_eq!((command, signals), (1, 2));
}

#[test]
fn ss() {
    let meta = device("lamp");
    let framework = RapidFramework::new((), (), WifiModule::new(), (), &meta, vec![1u8, 2]);
    assert_eq!(framework.len(), 2);
    assert!(rapid_core::wifi::WifiModule::new() == rapid_core::wifi::WifiModule {});
}
