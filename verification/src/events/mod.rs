//! The message bus between a webview and the host, and the events that
//! travel on it.
//!
//! A bus is a queue. Whoever shares one between threads puts it behind a lock
//! and holds the lock for one `push` or one `drain`; under the lock the calls
//! come one after the other, and that order is the order of the queue.

pub mod error;
pub mod system;

use vstd::prelude::*;

verus! {

/// An event that the host sends to a webview.
pub trait OutWryEvent {
    /// The script that delivers this event when the webview evaluates it.
    fn to_script(&self) -> String;

    /// The name of the webview that the event is for; `None` for all of them.
    /// An event type that does not say otherwise is for all of them.
    fn target_webview(&self) -> (target: Option<String>)
        default_ensures
            target is None,
    {
        None
    }
}

/// An event that a webview sends to the host, as one JSON text.
pub trait InWryEvent: Sized {
    /// The event that `message` holds, or `None` where it holds none.
    fn from_json(message: &String) -> Option<Self>;
}

#[derive(Clone, Copy, Debug, PartialEq, Eq, Structural)]
pub struct EmptyOutEvent;

impl OutWryEvent for EmptyOutEvent {
    fn to_script(&self) -> (script: String)
        ensures
            script@ == Seq::<char>::empty(),
    {
        String::new()
    }
}

#[derive(Clone, Copy, Debug, PartialEq, Eq, Structural)]
pub struct EmptyInEvent;

/// MessageBus gathers all webview events.
pub struct MessageBus<T> {
    messages: Vec<T>,
}

impl<T> View for MessageBus<T> {
    type V = Seq<T>;

    /// The queued messages, oldest first.
    closed spec fn view(&self) -> Seq<T> {
        self.messages@
    }
}

/// What a drain of `queue` returns, and what it leaves behind.
pub open spec fn drained<T>(queue: Seq<T>) -> (Seq<T>, Seq<T>) {
    (queue, Seq::empty())
}

impl<T> MessageBus<T> {
    /// A bus with nothing queued.
    pub fn new() -> (bus: Self)
        ensures
            bus@ == Seq::<T>::empty(),
    {
        MessageBus { messages: Vec::new() }
    }

    /// Queues `message` behind all that is queued.
    pub fn push(&mut self, message: T)
        ensures
            final(self)@ == old(self)@.push(message),
    {
        self.messages.push(message);
    }

    /// Takes everything that is queued, oldest first, and leaves the bus empty.
    pub fn drain(&mut self) -> (messages: Vec<T>)
        ensures
            (messages@, final(self)@) == drained(old(self)@),
            messages@ == old(self)@,
            final(self)@ == Seq::<T>::empty(),
    {
        let mut messages: Vec<T> = Vec::new();
        core::mem::swap(&mut messages, &mut self.messages);
        messages
    }

    /// Drops everything that is queued.
    pub fn clear(&mut self)
        ensures
            final(self)@ == Seq::<T>::empty(),
    {
        self.messages.clear();
    }

    pub fn len(&self) -> (len: usize)
        ensures
            len == self@.len(),
    {
        self.messages.len()
    }

    pub fn is_empty(&self) -> (empty: bool)
        ensures
            empty <==> self@.len() == 0,
    {
        self.messages.len() == 0
    }

    /// The queued messages, oldest first, to look at.
    pub fn read(&self) -> (messages: &Vec<T>)
        ensures
            messages@ == self@,
    {
        &self.messages
    }

    /// The queue itself, to change: what the caller leaves in it is the bus.
    pub fn write(&mut self) -> (messages: &mut Vec<T>)
        ensures
            messages@ == old(self)@,
            final(self)@ == final(messages)@,
    {
        &mut self.messages
    }

    /// The queue itself, held by the one caller that may change it.
    pub fn lock(&mut self) -> (messages: &mut Vec<T>)
        ensures
            messages@ == old(self)@,
            final(self)@ == final(messages)@,
    {
        &mut self.messages
    }
}

impl<T> Default for MessageBus<T> {
    fn default() -> (bus: Self)
        ensures
            bus@ == Seq::<T>::empty(),
    {
        MessageBus::new()
    }
}

/// The messages that a webview has sent and the host has not yet read.
pub struct InMessageBus(pub MessageBus<String>);

/// The scripts that the host has queued for a webview.
pub struct OutMessageBus(pub MessageBus<String>);

impl Default for InMessageBus {
    fn default() -> (bus: Self)
        ensures
            bus.0@ == Seq::<String>::empty(),
    {
        InMessageBus(MessageBus::new())
    }
}

impl Default for OutMessageBus {
    fn default() -> (bus: Self)
        ensures
            bus.0@ == Seq::<String>::empty(),
    {
        OutMessageBus(MessageBus::new())
    }
}

/// The queue after the messages of `arrivals` were pushed one by one, first
/// to last.
pub open spec fn after_pushes<T>(queue: Seq<T>, arrivals: Seq<T>) -> Seq<T>
    decreases arrivals.len(),
{
    if arrivals.len() == 0 {
        queue
    } else {
        after_pushes(queue.push(arrivals.first()), arrivals.drop_first())
    }
}

/// The messages among `arrivals` that `producer` pushed, in the order in
/// which it pushed them. An arrival is a producer and its message.
pub open spec fn sent_by<T>(arrivals: Seq<(nat, T)>, producer: nat) -> Seq<T>
    decreases arrivals.len(),
{
    if arrivals.len() == 0 {
        Seq::empty()
    } else if arrivals.last().0 == producer {
        sent_by(arrivals.drop_last(), producer).push(arrivals.last().1)
    } else {
        sent_by(arrivals.drop_last(), producer)
    }
}

/// The messages of `arrivals` without their producers.
pub open spec fn payloads<T>(arrivals: Seq<(nat, T)>) -> Seq<T> {
    Seq::new(arrivals.len(), |i: int| arrivals[i].1)
}

/// `messages`, each with the producer of the arrival at the same place.
pub open spec fn attributed<T>(arrivals: Seq<(nat, T)>, messages: Seq<T>) -> Seq<(nat, T)> {
    Seq::new(messages.len(), |i: int| (arrivals[i].0, messages[i]))
}

/// How many of `arrivals` the producers `0`, `1`, up to `producers - 1`
/// pushed, all together.
pub open spec fn sent_by_all<T>(arrivals: Seq<(nat, T)>, producers: nat) -> nat
    decreases producers,
{
    if producers == 0 {
        0
    } else {
        sent_by_all(arrivals, (producers - 1) as nat) + sent_by(
            arrivals,
            (producers - 1) as nat,
        ).len()
    }
}

/// An arrival of a producer that is not among the first `producers` does not
/// count for them.
proof fn lemma_later_producer_does_not_count<T>(arrivals: Seq<(nat, T)>, producers: nat)
    requires
        arrivals.len() > 0,
        arrivals.last().0 >= producers,
    ensures
        sent_by_all(arrivals, producers) == sent_by_all(arrivals.drop_last(), producers),
    decreases producers,
{
    if producers > 0 {
        lemma_later_producer_does_not_count(arrivals, (producers - 1) as nat);
    }
}

/// An arrival of one of the first `producers` counts once for them.
proof fn lemma_arrival_counts_once<T>(arrivals: Seq<(nat, T)>, producers: nat)
    requires
        arrivals.len() > 0,
        arrivals.last().0 < producers,
    ensures
        sent_by_all(arrivals, producers) == sent_by_all(arrivals.drop_last(), producers) + 1,
    decreases producers,
{
    let before = (producers - 1) as nat;
    if arrivals.last().0 == before {
        lemma_later_producer_does_not_count(arrivals, before);
    } else {
        lemma_arrival_counts_once(arrivals, before);
    }
}

/// Where `producers` producers push, what they pushed one by one adds up to
/// what arrived: no arrival is counted twice, and none is left out.
pub proof fn lemma_producers_account_for_every_arrival<T>(
    arrivals: Seq<(nat, T)>,
    producers: nat,
)
    requires
        forall|i: int| 0 <= i < arrivals.len() ==> arrivals[i].0 < producers,
    ensures
        sent_by_all(arrivals, producers) == arrivals.len(),
    decreases arrivals.len(),
{
    if arrivals.len() == 0 {
        lemma_nothing_sent_in_nothing::<T>(arrivals, producers);
    } else {
        lemma_producers_account_for_every_arrival(arrivals.drop_last(), producers);
        lemma_arrival_counts_once(arrivals, producers);
    }
}

/// Where nothing arrived, nobody pushed.
proof fn lemma_nothing_sent_in_nothing<T>(arrivals: Seq<(nat, T)>, producers: nat)
    requires
        arrivals.len() == 0,
    ensures
        sent_by_all(arrivals, producers) == 0,
    decreases producers,
{
    if producers > 0 {
        lemma_nothing_sent_in_nothing(arrivals, (producers - 1) as nat);
    }
}

/// Pushing a run of messages appends the run.
pub proof fn lemma_pushes_append<T>(queue: Seq<T>, arrivals: Seq<T>)
    ensures
        after_pushes(queue, arrivals) == queue + arrivals,
    decreases arrivals.len(),
{
    if arrivals.len() > 0 {
        lemma_pushes_append(queue.push(arrivals.first()), arrivals.drop_first());
        assert(queue.push(arrivals.first()) + arrivals.drop_first() =~= queue + arrivals);
    } else {
        assert(queue + arrivals =~= queue);
    }
}

/// However the pushes of `producers` producers interleave, one drain of a
/// bus that was empty returns every pushed message once, in the order of
/// arrival: as many messages as the producers pushed all together, and those
/// of each producer in the order in which that producer pushed them. A drain
/// right after it returns nothing.
pub proof fn lemma_one_drain_returns_every_push<T>(
    arrivals: Seq<(nat, T)>,
    producers: nat,
    producer: nat,
)
    requires
        forall|i: int| 0 <= i < arrivals.len() ==> arrivals[i].0 < producers,
    ensures
        ({
            let queue = after_pushes(Seq::<T>::empty(), payloads(arrivals));
            let (first, left) = drained(queue);
            let (second, _) = drained(left);
            &&& first.len() == sent_by_all(arrivals, producers)
            &&& first == payloads(arrivals)
            &&& sent_by(attributed(arrivals, first), producer) == sent_by(arrivals, producer)
            &&& second == Seq::<T>::empty()
        }),
{
    lemma_pushes_append(Seq::<T>::empty(), payloads(arrivals));
    lemma_producers_account_for_every_arrival(arrivals, producers);
    let queue = after_pushes(Seq::<T>::empty(), payloads(arrivals));
    assert(queue =~= payloads(arrivals));
    assert(attributed(arrivals, queue) =~= arrivals);
}

} // verus!
