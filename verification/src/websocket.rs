//! One connection of the socket transport, step by step.
//!
//! The host owns the socket: it shakes hands, reads and writes. After each of
//! these it hands what came of it to the functions here, which decide what is
//! queued and whether the connection goes on.

use crate::communication::{DeserializeMessage, Error, InEvent, Message, OutEvent, SerializeMessage};
use crate::events::{sent_by, InWryEvent, MessageBus};
use vstd::prelude::*;

verus! {

/// What a read on the socket came to.
#[derive(Clone, Debug, PartialEq, Eq)]
pub enum SocketRead {
    /// A message arrived.
    Message(Message),
    /// Nothing has arrived yet: the read would have blocked.
    WouldBlock,
    /// The read failed.
    Failed,
}

/// What the read loop does with a message that came to `decoded`: whether it
/// stops, and the event that it queues. A control frame without an event is
/// passed over; any other error ends the loop, and nothing is queued.
pub open spec fn delivery<T>(decoded: Result<InEvent<T>, Error>) -> (bool, Option<InEvent<T>>) {
    match decoded {
        Ok(event) => (false, Some(event)),
        Err(Error::BadMessageType) => (false, None),
        Err(_) => (true, None),
    }
}

/// The queue after a delivery that queues `queued`.
pub open spec fn queue_after<T>(queue: Seq<T>, queued: Option<T>) -> Seq<T> {
    match queued {
        Some(event) => queue.push(event),
        None => queue,
    }
}

/// Queues the event of a message that came to `decoded`, if it has one, and
/// says whether the read loop stops.
pub fn deliver<In>(decoded: Result<InEvent<In>, Error>, in_bus: &mut MessageBus<InEvent<In>>) -> (stop:
    bool)
    ensures
        stop == delivery(decoded).0,
        final(in_bus)@ == queue_after(old(in_bus)@, delivery(decoded).1),
{
    match decoded {
        Ok(event) => {
            in_bus.push(event);
            false
        },
        Err(error) => match error {
            // Ping/Pong/Frame cannot be deserialised into Event,
            // but we don't have to handle those messages anyway so we can skip
            Error::BadMessageType => false,
            Error::Deserialize | Error::CloseRequested | Error::EvaluateScript => true,
        },
    }
}

/// A turn of the read loop on `read` may take the queue from `before` to
/// `after` and say `stop`: a message is decoded and delivered; a read that
/// would block stops nothing, a read that failed stops the loop, and neither
/// queues anything.
pub open spec fn read_turn<In: DeserializeMessage<Event = In> + InWryEvent>(
    read: SocketRead,
    before: Seq<InEvent<In>>,
    after: Seq<InEvent<In>>,
    stop: bool,
) -> bool {
    match read {
        SocketRead::Message(message) => exists|decoded: Result<InEvent<In>, Error>|
            {
                &&& InEvent::<In>::decoded_from(message, decoded)
                &&& stop == delivery(decoded).0
                &&& after == queue_after(before, delivery(decoded).1)
            },
        SocketRead::WouldBlock => !stop && after == before,
        SocketRead::Failed => stop && after == before,
    }
}

/// One turn of the read loop, on what the read came to; the answer is
/// whether the loop stops.
pub fn try_read_messages<In: DeserializeMessage<Event = In> + InWryEvent>(
    read: SocketRead,
    in_bus: &mut MessageBus<InEvent<In>>,
) -> (stop: bool)
    ensures
        read_turn::<In>(read, old(in_bus)@, final(in_bus)@, stop),
        read matches SocketRead::Message(message) ==> !(message is Text) && !(message is Binary)
            ==> stop == (message is Close) && final(in_bus)@ == old(in_bus)@,
{
    match read {
        SocketRead::Message(msg) => {
            let decoded_event: Result<InEvent<In>, Error> = InEvent::try_from(msg);
            deliver(decoded_event, in_bus)
        },
        SocketRead::WouldBlock => false,
        SocketRead::Failed => true,
    }
}

/// One turn of the write loop: the messages to send, oldest first. Without
/// the bus, which another thread then holds, there is nothing to send this
/// turn, and what is queued stays queued.
pub fn try_write_messages(out_bus: Option<&mut MessageBus<Message>>) -> (out_events: Vec<Message>)
    ensures
        match out_bus {
            Some(bus) => out_events@ == bus@ && final(bus)@ == Seq::<Message>::empty(),
            None => out_events@ == Seq::<Message>::empty(),
        },
{
    match out_bus {
        Some(bus) => bus.drain(),
        None => Vec::new(),
    }
}

/// Takes the messages that the connections have queued, oldest first.
pub fn consume_incoming_messages<T>(message_bus: &mut MessageBus<T>) -> (messages: Vec<T>)
    ensures
        messages@ == old(message_bus)@,
        final(message_bus)@ == Seq::<T>::empty(),
{
    message_bus.drain()
}

impl<T: SerializeMessage> OutEvent<T> {
    /// `message` carries this: the same text, or a binary encoding that the
    /// event's type gave for the event.
    pub open spec fn carried_by(self, message: Message) -> bool {
        match self {
            OutEvent::Text(text) => message matches Message::Text(sent) && sent@ == text@,
            OutEvent::Event(event) => message matches Message::Binary(bytes) && call_ensures(
                T::to_binary,
                (&event,),
                Ok::<Vec<u8>, T::Error>(bytes),
            ),
        }
    }

    /// The event's type gave no encoding for this.
    pub open spec fn not_encoded(self) -> bool {
        self matches OutEvent::Event(event) && exists|error: T::Error|
            call_ensures(T::to_binary, (&event,), Err::<Vec<u8>, T::Error>(error))
    }

    /// The message that carries this.
    pub fn to_message(&self) -> (message: Result<Message, Error>)
        ensures
            message matches Ok(sent) ==> self.carried_by(sent),
            message matches Err(error) ==> error == Error::Deserialize && self.not_encoded(),
            *self is Text ==> message is Ok,
    {
        match self {
            OutEvent::Text(text) => Ok(Message::Text(text.clone())),
            OutEvent::Event(event) => match event.to_binary() {
                Ok(bytes) => Ok(Message::Binary(bytes)),
                Err(_) => Err(Error::Deserialize),
            },
        }
    }
}

/// Queues the messages of `events`, in order, up to the first event that has
/// no encoding; with such an event the answer is the error `Deserialize`.
pub fn send_outgoing_messages<T: SerializeMessage>(
    message_bus: &mut MessageBus<Message>,
    events: &Vec<OutEvent<T>>,
) -> (sent: Result<(), Error>)
    ensures
        exists|messages: Seq<Message>|
            {
                &&& final(message_bus)@ == old(message_bus)@ + messages
                &&& messages.len() <= events.len()
                &&& forall|i: int|
                    0 <= i < messages.len() ==> (#[trigger] events[i]).carried_by(messages[i])
                &&& sent is Ok ==> messages.len() == events.len()
                &&& sent is Err ==> sent == Err::<(), Error>(Error::Deserialize) && messages.len()
                    < events.len() && events[messages.len() as int].not_encoded()
            },
{
    let mut i: usize = 0;
    let ghost mut messages: Seq<Message> = Seq::empty();
    assert(old(message_bus)@ + messages =~= old(message_bus)@);
    while i < events.len()
        invariant
            i <= events.len(),
            messages.len() == i,
            message_bus@ == old(message_bus)@ + messages,
            forall|j: int| 0 <= j < i ==> (#[trigger] events[j]).carried_by(messages[j]),
        decreases events.len() - i,
    {
        match events[i].to_message() {
            Ok(message) => {
                proof {
                    assert(old(message_bus)@ + messages.push(message) =~= (old(message_bus)@
                        + messages).push(message));
                    messages = messages.push(message);
                }
                message_bus.push(message);
            },
            Err(error) => {
                return Err(error);
            },
        }
        i += 1;
    }
    Ok(())
}

/// Where a connection stands.
#[derive(Clone, Copy, Debug, PartialEq, Eq, Structural)]
pub enum ConnectionState {
    /// The handshake is not done.
    Connecting,
    /// Messages go back and forth.
    Open,
    /// The connection is over.
    Closed,
}

/// What an attempt at the handshake came to.
#[derive(Clone, Copy, Debug, PartialEq, Eq, Structural)]
pub enum Handshake {
    Accepted,
    /// The attempt would have blocked; it can be made again.
    Interrupted,
    Failed,
}

/// What the host did last on a connection, and what came of it.
#[derive(Clone, Debug, PartialEq, Eq)]
pub enum ClientEvent {
    Handshake(Handshake),
    Read(SocketRead),
}

/// What the host does next on a connection.
#[derive(Clone, Copy, Debug, PartialEq, Eq, Structural)]
pub enum ClientAction {
    /// Attempt the handshake.
    Accept,
    /// Read one message.
    Read,
    /// Send what is queued, then read one message.
    WriteThenRead,
    /// Drop the connection.
    Stop,
}

/// Where a connection stands after an attempt at the handshake, and what
/// the host does next. Only a connection that is connecting shakes hands.
pub open spec fn after_handshake(state: ConnectionState, handshake: Handshake) -> (
    ConnectionState,
    ClientAction,
) {
    match state {
        ConnectionState::Connecting => match handshake {
            Handshake::Accepted => (ConnectionState::Open, ClientAction::Read),
            Handshake::Interrupted => (ConnectionState::Connecting, ClientAction::Accept),
            Handshake::Failed => (ConnectionState::Closed, ClientAction::Stop),
        },
        ConnectionState::Open => (ConnectionState::Open, ClientAction::Read),
        ConnectionState::Closed => (ConnectionState::Closed, ClientAction::Stop),
    }
}

/// Where a connection stands after a turn of the read loop that said `stop`,
/// and what the host does next. Only an open connection reads.
pub open spec fn after_read(state: ConnectionState, stop: bool) -> (ConnectionState, ClientAction) {
    match state {
        ConnectionState::Connecting => (ConnectionState::Connecting, ClientAction::Accept),
        ConnectionState::Open => if stop {
            (ConnectionState::Closed, ClientAction::Stop)
        } else {
            (ConnectionState::Open, ClientAction::WriteThenRead)
        },
        ConnectionState::Closed => (ConnectionState::Closed, ClientAction::Stop),
    }
}

/// One step of a connection: from where it stands and what the host did last
/// to where it stands now and what the host does next.
///
/// A read is handed to the read loop only while the connection is open: in
/// any other state it queues nothing.
pub fn handle_client<In: DeserializeMessage<Event = In> + InWryEvent>(
    state: ConnectionState,
    event: ClientEvent,
    in_bus: &mut MessageBus<InEvent<In>>,
) -> (next: (ConnectionState, ClientAction))
    ensures
        event matches ClientEvent::Handshake(handshake) ==> next == after_handshake(
            state,
            handshake,
        ) && final(in_bus)@ == old(in_bus)@,
        event matches ClientEvent::Read(read) ==> (if state == ConnectionState::Open {
            exists|stop: bool|
                read_turn::<In>(read, old(in_bus)@, final(in_bus)@, stop) && next == after_read(
                    state,
                    stop,
                )
        } else {
            next == after_read(state, false) && final(in_bus)@ == old(in_bus)@
        }),
        state == ConnectionState::Closed ==> next == (ConnectionState::Closed, ClientAction::Stop),
{
    match event {
        ClientEvent::Handshake(handshake) => match state {
            ConnectionState::Connecting => match handshake {
                Handshake::Accepted => (ConnectionState::Open, ClientAction::Read),
                Handshake::Interrupted => (ConnectionState::Connecting, ClientAction::Accept),
                Handshake::Failed => (ConnectionState::Closed, ClientAction::Stop),
            },
            ConnectionState::Open => (ConnectionState::Open, ClientAction::Read),
            ConnectionState::Closed => (ConnectionState::Closed, ClientAction::Stop),
        },
        ClientEvent::Read(read) => match state {
            ConnectionState::Connecting => (ConnectionState::Connecting, ClientAction::Accept),
            ConnectionState::Open => {
                let stop = try_read_messages(read, in_bus);
                let next = if stop {
                    (ConnectionState::Closed, ClientAction::Stop)
                } else {
                    (ConnectionState::Open, ClientAction::WriteThenRead)
                };
                assert(read_turn::<In>(read, old(in_bus)@, in_bus@, stop) && next == after_read(
                    state,
                    stop,
                ));
                next
            },
            ConnectionState::Closed => (ConnectionState::Closed, ClientAction::Stop),
        },
    }
}

/// What the read loop of one connection has queued after the reads that came
/// to `reads`, and whether it has stopped. A loop that has stopped reads no
/// more.
pub open spec fn read_loop<T>(reads: Seq<Result<InEvent<T>, Error>>) -> (bool, Seq<InEvent<T>>)
    decreases reads.len(),
{
    if reads.len() == 0 {
        (false, Seq::empty())
    } else {
        let (stopped, queued) = read_loop(reads.drop_last());
        if stopped {
            (true, queued)
        } else {
            (delivery(reads.last()).0, queue_after(queued, delivery(reads.last()).1))
        }
    }
}

/// Several connections that share one bus. An arrival is a connection and
/// what one of its reads came to; `arrivals` are in the order in which the
/// bus saw them. The result is the set of the connections that have stopped,
/// and the bus: each event with the connection that queued it.
pub open spec fn relay<T>(arrivals: Seq<(nat, Result<InEvent<T>, Error>)>) -> (
    Set<nat>,
    Seq<(nat, InEvent<T>)>,
)
    decreases arrivals.len(),
{
    if arrivals.len() == 0 {
        (Set::empty(), Seq::empty())
    } else {
        let (stopped, bus) = relay(arrivals.drop_last());
        let (connection, decoded) = arrivals.last();
        if stopped.contains(connection) {
            (stopped, bus)
        } else {
            (
                if delivery(decoded).0 {
                    stopped.insert(connection)
                } else {
                    stopped
                },
                match delivery(decoded).1 {
                    Some(event) => bus.push((connection, event)),
                    None => bus,
                },
            )
        }
    }
}

/// A control frame that is no close is passed over; a close and a payload
/// that does not decode end the loop. None of them queues anything.
pub proof fn lemma_only_events_are_queued<T>(decoded: Result<InEvent<T>, Error>)
    ensures
        decoded is Err ==> delivery(decoded).1 is None,
        decoded matches Err(error) ==> delivery(decoded).0 == (error != Error::BadMessageType),
        decoded matches Ok(event) ==> delivery(decoded) == (false, Some(event)),
{
}

/// A read loop that has stopped stays stopped, and queues nothing more.
pub proof fn lemma_stopped_loop_stays_stopped<T>(
    reads: Seq<Result<InEvent<T>, Error>>,
    later: Seq<Result<InEvent<T>, Error>>,
)
    requires
        read_loop(reads).0,
    ensures
        read_loop(reads + later) == read_loop(reads),
    decreases later.len(),
{
    if later.len() == 0 {
        assert(reads + later =~= reads);
    } else {
        lemma_stopped_loop_stays_stopped(reads, later.drop_last());
        assert((reads + later).drop_last() =~= reads + later.drop_last());
    }
}

/// A payload that does not decode ends the read loop of its connection:
/// nothing is queued for it, and nothing for what the connection sends after
/// it.
pub proof fn lemma_malformed_payload_ends_the_loop<T>(
    reads: Seq<Result<InEvent<T>, Error>>,
    later: Seq<Result<InEvent<T>, Error>>,
)
    ensures
        read_loop(reads.push(Err(Error::Deserialize)) + later).0,
        read_loop(reads.push(Err(Error::Deserialize)) + later).1 == read_loop(reads).1,
{
    let malformed = reads.push(Err(Error::Deserialize));
    assert(malformed.drop_last() =~= reads);
    lemma_stopped_loop_stays_stopped(malformed, later);
}

/// Connections do not disturb each other: what one connection has queued on
/// the shared bus, and whether it has stopped, is what its own read loop
/// makes of its own reads, whatever the other connections sent in between.
pub proof fn lemma_connections_are_isolated<T>(
    arrivals: Seq<(nat, Result<InEvent<T>, Error>)>,
    connection: nat,
)
    ensures
        relay(arrivals).0.contains(connection) == read_loop(sent_by(arrivals, connection)).0,
        sent_by(relay(arrivals).1, connection) == read_loop(sent_by(arrivals, connection)).1,
    decreases arrivals.len(),
{
    if arrivals.len() > 0 {
        lemma_connections_are_isolated(arrivals.drop_last(), connection);
        let (stopped, bus) = relay(arrivals.drop_last());
        let (source, decoded) = arrivals.last();
        let own = sent_by(arrivals.drop_last(), connection);
        if source == connection {
            assert(sent_by(arrivals, connection).drop_last() =~= own);
        }
        if !stopped.contains(source) {
            if let Some(event) = delivery(decoded).1 {
                assert(bus.push((source, event)).drop_last() =~= bus);
            }
        }
    }
}

/// A malformed payload on one connection leaves the deliveries of every
/// other connection as they are: two runs in which a connection reads the
/// same give it the same events on the bus, in the same order.
pub proof fn lemma_deliveries_depend_on_own_reads<T>(
    arrivals: Seq<(nat, Result<InEvent<T>, Error>)>,
    others: Seq<(nat, Result<InEvent<T>, Error>)>,
    connection: nat,
)
    requires
        sent_by(arrivals, connection) == sent_by(others, connection),
    ensures
        sent_by(relay(arrivals).1, connection) == sent_by(relay(others).1, connection),
        relay(arrivals).0.contains(connection) == relay(others).0.contains(connection),
{
    lemma_connections_are_isolated(arrivals, connection);
    lemma_connections_are_isolated(others, connection);
}

} // verus!
