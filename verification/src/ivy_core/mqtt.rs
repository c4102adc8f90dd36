//! The MQTT client of a device: what it publishes, what it subscribes to, and how it reconnects.
//!
//! The network belongs to whoever runs the module. The functions here take what the network has
//! just answered, and say what comes next.

use vstd::prelude::*;

use crate::text::same_text;

verus! {

/// The largest payload that is handed to the network.
pub const MAX_NET_PAYLOAD_SIZE: usize = 4096;

/// The size of each TCP buffer.
pub const TCP_BUFFER_SIZE: usize = 4096;

/// The size of each TLS buffer.
pub const TLS_BUFFER_SIZE: usize = 16640;

/// The size of the buffer that log records are encoded into.
pub const LOG_BUFFER_SIZE: usize = 1024;

/// The pause after the first failed subscription, in milliseconds.
pub const FIRST_BACK_OFF_MS: u64 = 2000;

/// The longest pause between two attempts to subscribe, in milliseconds.
pub const LAST_BACK_OFF_MS: u64 = 20000;

/// The pause before the stack is torn down after a lost connection, in milliseconds.
pub const RECONNECT_DELAY_MS: u64 = 4000;

/// Why something could not be published or dispatched. `D`, `E` and `C` are what the decoder, the
/// encoder and the client report.
pub enum MqttError<D, E, C> {
    Decode(D),
    Encode(E),
    MqttClient(C),
    Disconnected,
}

/// How often a message is delivered.
#[derive(Clone, Copy, PartialEq, Eq, Structural)]
pub enum QoS {
    AtMostOnce,
}

/// A request to publish the first `len` bytes of `payload`.
pub struct PublishCommand<'t, const S: usize> {
    pub topic: &'t str,
    pub payload: [u8; S],
    pub len: usize,
}

/// A message for the broker.
pub struct Packet<'t, 'p> {
    pub topic: &'t str,
    pub payload: &'p [u8],
    pub qos: QoS,
}

/// Talks to the MQTT module. `X` takes commands to it.
pub struct MqttHandle<X, const MAX_MESSAGE_SIZE: usize> {
    cmd_tx: X,
}

impl<X, const MAX_MESSAGE_SIZE: usize> MqttHandle<X, MAX_MESSAGE_SIZE> {
    /// What takes commands to the module.
    pub closed spec fn sender_of(self) -> X {
        self.cmd_tx
    }

    pub fn create(cmd_tx: X) -> (handle: MqttHandle<X, MAX_MESSAGE_SIZE>)
        ensures
            handle.sender_of() == cmd_tx,
    {
        MqttHandle { cmd_tx }
    }

    /// What takes commands to the module.
    pub fn sender(&self) -> (sender: &X)
        ensures
            *sender == self.sender_of(),
    {
        &self.cmd_tx
    }

    /// Prepares a publication: `buffer` holds the data as far as it could be encoded.
    ///
    /// Data that cannot be encoded is not published.
    pub fn publish<'t, E>(
        &self,
        topic: &'t str,
        buffer: [u8; MAX_MESSAGE_SIZE],
        serialized: Result<usize, E>,
    ) -> (command: Option<PublishCommand<'t, MAX_MESSAGE_SIZE>>)
        ensures
            command == match serialized {
                Ok(len) => Some(PublishCommand { topic, payload: buffer, len }),
                Err(_) => None,
            },
    {
        match serialized {
            Ok(len) => Some(PublishCommand { topic, payload: buffer, len }),
            Err(_) => None,
        }
    }
}

/// The bytes of a buffer that an encoder has filled.
pub open spec fn filled(buffer: Seq<u8>, len: int) -> Seq<u8> {
    buffer.take(len)
}

/// A message carries a publication: it has its topic and its bytes, and arrives at most once.
pub open spec fn carries<const S: usize>(packet: Packet, command: PublishCommand<S>) -> bool {
    &&& packet.topic == command.topic
    &&& packet.payload@ == filled(command.payload@, command.len as int)
    &&& packet.qos == QoS::AtMostOnce
}

/// The message for a publication.
pub fn publish_packet<'t, 'p, const S: usize>(command: &'p PublishCommand<'t, S>) -> (packet:
    Packet<'t, 'p>)
    requires
        command.len <= S,
    ensures
        carries(packet, *command),
        packet.topic == command.topic,
        packet.payload@.len() == command.len,
        forall|i: int| 0 <= i < command.len ==> #[trigger] packet.payload@[i] == command.payload@[i],
        packet.qos == QoS::AtMostOnce,
{
    let payload = vstd::slice::slice_subrange(
        vstd::array::array_as_slice(&command.payload),
        0,
        command.len,
    );
    assert(payload@ =~= filled(command.payload@, command.len as int));
    Packet { topic: command.topic, payload, qos: QoS::AtMostOnce }
}

/// The reply to a publication, once the client has taken the message or refused it.
pub fn publish_reply<T, D, E, C>(published: Result<T, C>) -> (reply: Result<
    (),
    MqttError<D, E, C>,
>)
    ensures
        reply == match published {
            Ok(_) => Ok::<(), MqttError<D, E, C>>(()),
            Err(e) => Err::<(), MqttError<D, E, C>>(MqttError::MqttClient(e)),
        },
{
    match published {
        Ok(_) => Ok(()),
        Err(e) => Err(MqttError::MqttClient(e)),
    }
}

/// The reply to a publication while there is no connection.
pub fn drain_reply<D, E, C>() -> (reply: Result<(), MqttError<D, E, C>>)
    ensures
        reply == Err::<(), MqttError<D, E, C>>(MqttError::Disconnected),
{
    Err(MqttError::Disconnected)
}

/// The message for a log record: `buffer` holds the record as far as it could be encoded.
///
/// A record that cannot be encoded is not sent.
pub fn log_packet<'p, E>(buffer: &'p [u8; LOG_BUFFER_SIZE], serialized: Result<usize, E>) -> (packet:
    Option<Packet<'static, 'p>>)
    requires
        serialized matches Ok(len) ==> len <= LOG_BUFFER_SIZE,
    ensures
        match serialized {
            Ok(len) => {
                &&& packet is Some
                &&& packet->0.topic@ == "mushclim/log"@
                &&& packet->0.payload@ == filled(buffer@, len as int)
                &&& packet->0.payload@.len() == len
                &&& forall|i: int| 0 <= i < len ==> #[trigger] packet->0.payload@[i] == buffer@[i]
                &&& packet->0.qos == QoS::AtMostOnce
            },
            Err(_) => packet is None,
        },
{
    match serialized {
        Ok(len) => {
            let payload = vstd::slice::slice_subrange(
                vstd::array::array_as_slice(buffer),
                0,
                len,
            );
            assert(payload@ =~= filled(buffer@, len as int));
            Some(Packet { topic: "mushclim/log", payload, qos: QoS::AtMostOnce })
        },
        Err(_) => None,
    }
}

/// The messages of a topic, for whoever waits for them. `G` is the signal that they come through.
pub struct Subscription<G> {
    receiver: G,
}

impl<G> Subscription<G> {
    /// The signal.
    pub closed spec fn receiver_of(self) -> G {
        self.receiver
    }

    pub fn new(receiver: G) -> (subscription: Subscription<G>)
        ensures
            subscription.receiver_of() == receiver,
    {
        Subscription { receiver }
    }

    /// The signal.
    pub fn receiver(&self) -> (receiver: &G)
        ensures
            *receiver == self.receiver_of(),
    {
        &self.receiver
    }
}

/// Hands the messages of a topic to a subscription. `G` is the signal that they go through.
pub struct TypedHandle<G> {
    signal: G,
}

impl<G> TypedHandle<G> {
    /// The signal.
    pub closed spec fn signal_of(self) -> G {
        self.signal
    }

    pub fn new(signal: G) -> (handle: TypedHandle<G>)
        ensures
            handle.signal_of() == signal,
    {
        TypedHandle { signal }
    }

    /// The signal.
    pub fn signal(&self) -> (signal: &G)
        ensures
            *signal == self.signal_of(),
    {
        &self.signal
    }

    /// What is done with a message that was decoded, or could not be: the value goes through the
    /// signal, and an error goes to whoever dispatches.
    pub fn dispatch<T, D, E, C>(&self, decoded: Result<(T, usize), D>) -> (value: Result<
        T,
        MqttError<D, E, C>,
    >)
        ensures
            value == match decoded {
                Ok((value, _)) => Ok::<T, MqttError<D, E, C>>(value),
                Err(e) => Err::<T, MqttError<D, E, C>>(MqttError::Decode(e)),
            },
    {
        match decoded {
            Ok((value, _)) => Ok(value),
            Err(e) => Err(MqttError::Decode(e)),
        }
    }
}

/// The pause after the next failed attempt to subscribe, given the last one.
pub open spec fn longer_pause(ms: int) -> int {
    if ms * 3 / 2 <= LAST_BACK_OFF_MS {
        ms * 3 / 2
    } else {
        LAST_BACK_OFF_MS as int
    }
}

/// The pause after the attempt to subscribe that fails after `n` others have failed.
pub open spec fn pause(n: nat) -> int
    decreases n,
{
    if n == 0 {
        FIRST_BACK_OFF_MS as int
    } else {
        longer_pause(pause((n - 1) as nat))
    }
}

/// The pause between attempts to subscribe grows by half with every attempt, up to a limit.
pub fn next_back_off(ms: u64) -> (next: u64)
    requires
        ms * 3 <= u64::MAX,
    ensures
        next == longer_pause(ms as int),
{
    let longer = ms * 3 / 2;
    if longer <= LAST_BACK_OFF_MS {
        longer
    } else {
        LAST_BACK_OFF_MS
    }
}

/// A pause is one and a half times the pause before it, rounded down, and twenty seconds where that
/// would be longer. The first one is two seconds.
pub proof fn pause_grows_by_half(ms: int, n: nat)
    requires
        0 <= ms,
    ensures
        longer_pause(ms) <= 20000,
        2 * longer_pause(ms) <= 3 * ms,
        longer_pause(ms) < 20000 ==> 3 * ms < 2 * longer_pause(ms) + 2,
        pause(0) == 2000,
        pause(n + 1) == longer_pause(pause(n)),
{
}

/// The pauses never get shorter, and stay between the first one and the limit.
pub proof fn pauses_grow(m: nat, n: nat)
    requires
        m <= n,
    ensures
        FIRST_BACK_OFF_MS <= pause(m) <= pause(n) <= LAST_BACK_OFF_MS,
    decreases n,
{
    if m < n {
        pauses_grow(m, (n - 1) as nat);
    } else if n > 0 {
        pauses_grow((n - 1) as nat, (n - 1) as nat);
    }
}

/// From the seventh failure on, the pause is the limit.
pub proof fn pauses_reach_limit(n: nat)
    requires
        n >= 6,
    ensures
        pause(n) == LAST_BACK_OFF_MS,
    decreases n,
{
    if n > 6 {
        pauses_reach_limit((n - 1) as nat);
    } else {
        reveal_with_fuel(pause, 7);
        assert(pause(0) == 2000);
        assert(pause(1) == 3000);
        assert(pause(2) == 4500);
        assert(pause(3) == 6750);
        assert(pause(4) == 10125);
        assert(pause(5) == 15187);
    }
}

/// Where the subscription to the topics stands.
#[derive(Clone, Copy, PartialEq, Eq, Structural)]
pub enum SubscriptionState {
    /// Not subscribed. Holds the pause after a failure.
    Subscribing { back_off_ms: u64 },
    /// Subscribed.
    Listening,
}

/// What can happen to the subscription.
pub enum SubscriptionEvent<'a> {
    Subscribed,
    SubscribeFailed,
    /// A message on this topic.
    Message { topic: &'a str },
    /// The subscription had no message to give.
    NoMessage,
}

/// What to do next for the subscription.
#[derive(Clone, Copy, PartialEq, Eq, Structural)]
pub enum SubscriptionAction {
    /// Wait this many milliseconds, and subscribe again.
    Retry { after_ms: u64 },
    /// Have the subscriber with this index dispatch the message, then wait for the next one.
    Dispatch { subscriber: usize },
    /// Wait for the next message.
    Listen,
}

impl SubscriptionState {
    /// Not subscribed, and no attempt has failed.
    pub fn start() -> (state: SubscriptionState)
        ensures
            state == (SubscriptionState::Subscribing { back_off_ms: FIRST_BACK_OFF_MS }),
            state == (SubscriptionState::Subscribing { back_off_ms: 2000 }),
    {
        SubscriptionState::Subscribing { back_off_ms: FIRST_BACK_OFF_MS }
    }

    /// The pause is one that the module takes.
    pub open spec fn inv(self) -> bool {
        match self {
            SubscriptionState::Subscribing { back_off_ms } => FIRST_BACK_OFF_MS <= back_off_ms
                <= LAST_BACK_OFF_MS,
            SubscriptionState::Listening => true,
        }
    }
}

/// The events that can happen in a state.
pub open spec fn subscription_expects(state: SubscriptionState, event: SubscriptionEvent) -> bool {
    match state {
        SubscriptionState::Subscribing { .. } => event is Subscribed || event is SubscribeFailed,
        SubscriptionState::Listening => event is Message || event is NoMessage,
    }
}

/// The state after `n` failed attempts to subscribe.
pub open spec fn after_failures(n: nat) -> SubscriptionState {
    SubscriptionState::Subscribing { back_off_ms: pause(n) as u64 }
}

/// The name is that of the first subscriber with that name.
pub open spec fn first_named<H>(subscribers: Seq<(&'static str, H)>, name: Seq<char>, i: int) -> bool {
    &&& 0 <= i < subscribers.len()
    &&& subscribers[i].0@ == name
    &&& forall|j: int| 0 <= j < i ==> (#[trigger] subscribers[j]).0@ != name
}

/// No subscriber has that name.
pub open spec fn none_named<H>(subscribers: Seq<(&'static str, H)>, name: Seq<char>) -> bool {
    forall|j: int| 0 <= j < subscribers.len() ==> (#[trigger] subscribers[j]).0@ != name
}

/// The MQTT module: its subscribers by topic, the network stack, and the source of randomness.
pub struct MqttModule<K, Rng, H, const N: usize> {
    subscribers: [(&'static str, H); N],
    stack: K,
    trng: Option<Rng>,
}

impl<K, Rng, H, const N: usize> MqttModule<K, Rng, H, N> {
    /// The subscribers, each with its topic.
    pub closed spec fn subscribers_of(self) -> Seq<(&'static str, H)> {
        self.subscribers@
    }

    /// The network stack.
    pub closed spec fn stack_of(self) -> K {
        self.stack
    }

    /// The source of randomness, until it is taken.
    pub closed spec fn trng_of(self) -> Option<Rng> {
        self.trng
    }

    pub fn new(stack: K, trng: Rng, subscribers: [(&'static str, H); N]) -> (module: MqttModule<
        K,
        Rng,
        H,
        N,
    >)
        ensures
            module.subscribers_of() == subscribers@,
            module.stack_of() == stack,
            module.trng_of() == Some(trng),
    {
        MqttModule { subscribers, stack, trng: Some(trng) }
    }

    /// The network stack.
    pub fn stack(&self) -> (stack: &K)
        ensures
            *stack == self.stack_of(),
    {
        &self.stack
    }

    /// Takes the source of randomness, which can be done once.
    pub fn take_trng(&mut self) -> (trng: Rng)
        requires
            old(self).trng_of() is Some,
        ensures
            old(self).trng_of() == Some(trng),
            final(self).trng_of() is None,
            final(self).stack_of() == old(self).stack_of(),
            final(self).subscribers_of() == old(self).subscribers_of(),
    {
        self.trng.take().unwrap()
    }

    /// The topics to subscribe to: those of the subscribers, in order.
    pub fn topics(&self) -> (topics: Vec<&'static str>)
        ensures
            topics@.len() == self.subscribers_of().len(),
            forall|i: int|
                0 <= i < topics@.len() ==> #[trigger] topics@[i] == self.subscribers_of()[i].0,
    {
        let mut topics: Vec<&'static str> = Vec::new();
        let mut i: usize = 0;
        while i < N
            invariant
                i <= N,
                topics@.len() == i,
                forall|j: int| 0 <= j < i ==> #[trigger] topics@[j] == self.subscribers@[j].0,
            decreases N - i,
        {
            topics.push(self.subscribers[i].0);
            i += 1;
        }
        topics
    }

    /// The index of the first subscriber to a topic.
    pub fn find_subscriber(&self, topic: &str) -> (found: Option<usize>)
        ensures
            match found {
                Some(i) => first_named(self.subscribers_of(), topic@, i as int),
                None => none_named(self.subscribers_of(), topic@),
            },
            match found {
                Some(i) => {
                    &&& i < self.subscribers_of().len()
                    &&& self.subscribers_of()[i as int].0@ == topic@
                    &&& forall|j: int|
                        0 <= j < i ==> (#[trigger] self.subscribers_of()[j]).0@ != topic@
                },
                None => forall|j: int|
                    0 <= j < self.subscribers_of().len() ==> (
                    #[trigger] self.subscribers_of()[j]).0@ != topic@,
            },
    {
        let mut i: usize = 0;
        while i < N
            invariant
                i <= N,
                forall|j: int| 0 <= j < i ==> (#[trigger] self.subscribers@[j]).0@ != topic@,
            decreases N - i,
        {
            if same_text(self.subscribers[i].0, topic) {
                return Some(i);
            }
            i += 1;
        }
        None
    }

    /// The subscriber with an index.
    pub fn subscriber(&self, i: usize) -> (handle: &H)
        requires
            i < self.subscribers_of().len(),
        ensures
            *handle == self.subscribers_of()[i as int].1,
    {
        &self.subscribers[i].1
    }

    /// Takes the subscription one event further.
    ///
    /// A failed attempt is repeated after a pause, which grows. A message goes to the first
    /// subscriber to its topic, and is dropped where there is none.
    pub fn handle_subscriptions(
        &self,
        state: SubscriptionState,
        event: SubscriptionEvent,
    ) -> (next: (SubscriptionState, SubscriptionAction))
        requires
            state.inv(),
            subscription_expects(state, event),
        ensures
            next.0.inv(),
            match event {
                SubscriptionEvent::Subscribed => next == (
                    SubscriptionState::Listening,
                    SubscriptionAction::Listen,
                ),
                SubscriptionEvent::SubscribeFailed => next == (
                    SubscriptionState::Subscribing {
                        back_off_ms: longer_pause(state->back_off_ms as int) as u64,
                    },
                    SubscriptionAction::Retry { after_ms: state->back_off_ms },
                ),
                SubscriptionEvent::Message { topic } => {
                    &&& next.0 == SubscriptionState::Listening
                    &&& match next.1 {
                        SubscriptionAction::Dispatch { subscriber } => first_named(
                            self.subscribers_of(),
                            topic@,
                            subscriber as int,
                        ),
                        SubscriptionAction::Listen => none_named(self.subscribers_of(), topic@),
                        _ => false,
                    }
                },
                SubscriptionEvent::NoMessage => next == (
                    SubscriptionState::Listening,
                    SubscriptionAction::Listen,
                ),
            },
    {
        match event {
            SubscriptionEvent::Subscribed => (
                SubscriptionState::Listening,
                SubscriptionAction::Listen,
            ),
            SubscriptionEvent::SubscribeFailed => match state {
                SubscriptionState::Subscribing { back_off_ms } => (
                    SubscriptionState::Subscribing { back_off_ms: next_back_off(back_off_ms) },
                    SubscriptionAction::Retry { after_ms: back_off_ms },
                ),
                SubscriptionState::Listening => (state, SubscriptionAction::Listen),
            },
            SubscriptionEvent::Message { topic } => match self.find_subscriber(topic) {
                Some(subscriber) => (
                    SubscriptionState::Listening,
                    SubscriptionAction::Dispatch { subscriber },
                ),
                None => (SubscriptionState::Listening, SubscriptionAction::Listen),
            },
            SubscriptionEvent::NoMessage => (
                SubscriptionState::Listening,
                SubscriptionAction::Listen,
            ),
        }
    }
}

/// A message with the topic of some subscriber goes to a subscriber with that topic, of which no
/// earlier one has it, and to no other. A message with a topic that nobody has goes to nobody.
pub proof fn message_goes_to_one_subscriber<H>(
    subscribers: Seq<(&'static str, H)>,
    name: Seq<char>,
    i: int,
    k: int,
)
    requires
        0 <= k < subscribers.len(),
    ensures
        subscribers[k].0@ == name ==> !none_named(subscribers, name),
        first_named(subscribers, name, i) ==> {
            &&& 0 <= i < subscribers.len()
            &&& subscribers[i].0@ == name
            &&& k < i ==> subscribers[k].0@ != name
            &&& first_named(subscribers, name, k) ==> k == i
        },
        none_named(subscribers, name) ==> !first_named(subscribers, name, i),
{
}

/// Where the connection of the client stands.
#[derive(Clone, Copy, PartialEq, Eq, Structural)]
pub enum ClientState {
    /// It waits for the connection.
    Connecting,
    /// The workers run: the inbox, the subscriptions, the log and the watch on the connection.
    Working,
    /// The connection is lost. The inbox is drained until it is back.
    Draining,
}

/// What can happen to the client.
#[derive(Clone, Copy, PartialEq, Eq, Structural)]
pub enum ClientEvent {
    Connected,
    /// One of the workers has come to its end.
    WorkerEnded,
}

/// What the client does next.
#[derive(Clone, Copy, PartialEq, Eq, Structural)]
pub enum ClientAction {
    WaitConnected,
    /// Run the four workers until one of them ends, and drop the others.
    RunWorkers,
    /// Refuse what arrives in the inbox until the connection is back.
    DrainInbox,
}

/// The events that can happen in a state.
pub open spec fn client_expects(state: ClientState, event: ClientEvent) -> bool {
    match state {
        ClientState::Working => event == ClientEvent::WorkerEnded,
        _ => event == ClientEvent::Connected,
    }
}

/// What the client does after an event.
pub open spec fn client_next(state: ClientState) -> (ClientState, ClientAction) {
    match state {
        ClientState::Connecting => (ClientState::Working, ClientAction::RunWorkers),
        ClientState::Working => (ClientState::Draining, ClientAction::DrainInbox),
        ClientState::Draining => (ClientState::Connecting, ClientAction::WaitConnected),
    }
}

/// Starts the client.
pub fn start_client() -> (next: (ClientState, ClientAction))
    ensures
        next == (ClientState::Connecting, ClientAction::WaitConnected),
{
    (ClientState::Connecting, ClientAction::WaitConnected)
}

/// Takes the client one event further.
pub fn run_client_task(state: ClientState, event: ClientEvent) -> (next: (
    ClientState,
    ClientAction,
))
    requires
        client_expects(state, event),
    ensures
        next == client_next(state),
{
    match state {
        ClientState::Connecting => (ClientState::Working, ClientAction::RunWorkers),
        ClientState::Working => (ClientState::Draining, ClientAction::DrainInbox),
        ClientState::Draining => (ClientState::Connecting, ClientAction::WaitConnected),
    }
}

/// The workers run only while there is a connection: they start when the client learns that it is
/// connected, and when one of them ends the inbox is drained before they can start again.
pub proof fn workers_follow_connection(state: ClientState, event: ClientEvent)
    requires
        client_expects(state, event),
    ensures
        client_next(state).1 == ClientAction::RunWorkers ==> event == ClientEvent::Connected,
        event == ClientEvent::WorkerEnded ==> client_next(state).1 == ClientAction::DrainInbox,
        client_next(client_next(client_next(state).0).0).0 == state,
{
}

/// The client goes round: it waits for the connection, runs the workers once it is there, drains the
/// inbox once one of them has ended, and waits again once the connection is back.
pub proof fn client_goes_round()
    ensures
        client_next(ClientState::Connecting) == (ClientState::Working, ClientAction::RunWorkers),
        client_next(ClientState::Working) == (ClientState::Draining, ClientAction::DrainInbox),
        client_next(ClientState::Draining) == (
            ClientState::Connecting,
            ClientAction::WaitConnected,
        ),
        client_expects(ClientState::Connecting, ClientEvent::Connected),
        client_expects(ClientState::Working, ClientEvent::WorkerEnded),
        client_expects(ClientState::Draining, ClientEvent::Connected),
{
}

/// Whether the watch on the connection ends: it does when the connection changes to lost.
pub fn wait_for_disconnect(connected: bool) -> (ended: bool)
    ensures
        ended == !connected,
{
    !connected
}

/// The steps of the network side of the client, which it takes one after the other for ever.
#[derive(Clone, Copy, PartialEq, Eq, Structural)]
pub enum StackStep {
    /// Wait until the network is configured.
    WaitConfigUp,
    /// Run the stack until the connection is lost.
    Run,
    /// Wait this many milliseconds.
    Delay { ms: u64 },
    /// Disconnect the stack, just to make sure.
    Disconnect,
    /// Disconnect the transport, in case the connection ended dirty.
    DisconnectTransport,
    /// Reset the stack before it connects again.
    Reset,
}

/// The step after a step.
pub open spec fn stack_next(step: StackStep) -> StackStep {
    match step {
        StackStep::WaitConfigUp => StackStep::Run,
        StackStep::Run => StackStep::Delay { ms: RECONNECT_DELAY_MS },
        StackStep::Delay { .. } => StackStep::Disconnect,
        StackStep::Disconnect => StackStep::DisconnectTransport,
        StackStep::DisconnectTransport => StackStep::Reset,
        StackStep::Reset => StackStep::WaitConfigUp,
    }
}

/// The step after `n` steps.
pub open spec fn stack_step(n: nat) -> StackStep
    decreases n,
{
    if n == 0 {
        StackStep::WaitConfigUp
    } else {
        stack_next(stack_step((n - 1) as nat))
    }
}

/// The first step of the network side.
pub fn start_stack() -> (step: StackStep)
    ensures
        step == stack_step(0),
{
    StackStep::WaitConfigUp
}

/// The step that follows a step.
pub fn run_stack_task(step: StackStep) -> (next: StackStep)
    ensures
        next == stack_next(step),
{
    match step {
        StackStep::WaitConfigUp => StackStep::Run,
        StackStep::Run => StackStep::Delay { ms: RECONNECT_DELAY_MS },
        StackStep::Delay { .. } => StackStep::Disconnect,
        StackStep::Disconnect => StackStep::DisconnectTransport,
        StackStep::DisconnectTransport => StackStep::Reset,
        StackStep::Reset => StackStep::WaitConfigUp,
    }
}

/// The stack runs once in every six steps. Each run follows a wait for the network, and between two
/// runs the stack is disconnected and reset.
pub proof fn stack_resets_between_runs(n: nat)
    ensures
        n % 6 == 0 ==> stack_step(n) == StackStep::WaitConfigUp,
        n % 6 == 1 ==> stack_step(n) == StackStep::Run,
        n % 6 == 2 ==> stack_step(n) == (StackStep::Delay { ms: 4000 }),
        n % 6 == 3 ==> stack_step(n) == StackStep::Disconnect,
        n % 6 == 4 ==> stack_step(n) == StackStep::DisconnectTransport,
        n % 6 == 5 ==> stack_step(n) == StackStep::Reset,
    decreases n,
{
    if n > 0 {
        stack_resets_between_runs((n - 1) as nat);
    }
}

/// Each step leads to the one after it, however long the pause was.
pub proof fn stack_goes_round(n: nat, ms: u64)
    ensures
        stack_step(n + 1) == stack_next(stack_step(n)),
        stack_next(StackStep::Delay { ms }) == StackStep::Disconnect,
{
}

/// What is published is what was encoded: the message that a publication becomes has its topic, and
/// exactly the bytes that the encoder has filled.
pub proof fn encoded_data_is_published<const S: usize>(
    topic: &str,
    buffer: [u8; S],
    len: usize,
    command: PublishCommand<S>,
    packet: Packet,
)
    requires
        len <= S,
        command == (PublishCommand { topic, payload: buffer, len }),
        carries(packet, command),
    ensures
        packet.topic == topic,
        packet.payload@.len() == len,
        forall|i: int| 0 <= i < len ==> #[trigger] packet.payload@[i] == buffer@[i],
{
}

/// Where a module's messages are no larger than what is handed to the network, each of them fits a
/// TLS buffer, with room for what is wrapped around it.
pub proof fn payload_fits_the_network<const S: usize>(command: PublishCommand<S>, packet: Packet)
    requires
        S <= MAX_NET_PAYLOAD_SIZE,
        command.len <= S,
        carries(packet, command),
    ensures
        packet.payload@.len() <= MAX_NET_PAYLOAD_SIZE,
        packet.payload@.len() + 500 <= TLS_BUFFER_SIZE,
{
}

/// A module that is not subscribed hears whether it is subscribed now, and one that is subscribed
/// hears messages. Every pause from two seconds up to twenty is one that it can take.
pub proof fn subscription_hears_what_it_waits_for(back_off_ms: u64, topic: &str)
    requires
        2000 <= back_off_ms <= 20000,
    ensures
        ({
            let subscribing = SubscriptionState::Subscribing { back_off_ms };
            &&& subscribing.inv()
            &&& SubscriptionState::Listening.inv()
            &&& subscription_expects(subscribing, SubscriptionEvent::Subscribed)
            &&& subscription_expects(subscribing, SubscriptionEvent::SubscribeFailed)
            &&& subscription_expects(
                SubscriptionState::Listening,
                SubscriptionEvent::Message { topic },
            )
            &&& subscription_expects(SubscriptionState::Listening, SubscriptionEvent::NoMessage)
        }),
{
}

/// Failure after failure, the module takes the pauses of [`pause`].
pub proof fn failures_take_the_pauses(n: nat)
    ensures
        after_failures(n).inv(),
        after_failures(n)->back_off_ms == pause(n),
        after_failures(n + 1) == (SubscriptionState::Subscribing {
            back_off_ms: longer_pause(after_failures(n)->back_off_ms as int) as u64,
        }),
{
    pauses_grow(0, n);
    pauses_grow(n, n + 1);
}

} // verus!
