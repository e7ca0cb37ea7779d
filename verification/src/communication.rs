//! The messages of the socket transport, and the events that they carry.
//!
//! A text frame carries an event as JSON, a binary frame carries one in a
//! compact binary encoding. How an event is encoded and decoded is for the
//! event's type to say, through the traits of this module and
//! [`InWryEvent`]; what is done with the outcome is decided here.

pub use crate::events::error::Error;

use crate::events::InWryEvent;
use vstd::prelude::*;

verus! {

/// Why a connection is closed: a status code and a text.
#[derive(Clone, Debug, PartialEq, Eq)]
pub struct CloseFrame {
    /// The reason as a code.
    pub code: u16,
    /// The reason as text string.
    pub reason: String,
}

/// One message of a connection, as the transport frames it.
#[derive(Clone, Debug, PartialEq, Eq)]
pub enum Message {
    /// A text message
    Text(String),
    /// A binary message
    Binary(Vec<u8>),
    /// A ping with its payload
    Ping(Vec<u8>),
    /// A pong with its payload
    Pong(Vec<u8>),
    /// A close message with the optional close frame
    Close(Option<CloseFrame>),
    /// A raw frame, as the bytes that go over the wire
    Frame(Vec<u8>),
}

/// An event type that has a binary encoding.
pub trait SerializeMessage {
    type Error;

    fn to_binary(&self) -> Result<Vec<u8>, Self::Error>;
}

/// An event type that can be read from its binary encoding.
pub trait DeserializeMessage {
    type Event;

    type Error;

    fn from_binary(buffer: Vec<u8>) -> Result<Self::Event, Self::Error>;
}

/// What the host sends: a text as it is, or an event.
#[derive(Clone, Debug, PartialEq, Eq)]
pub enum OutEvent<T> {
    Text(String),
    Event(T),
}

/// The message that carries an event whose encoding came out as `encoded`.
pub open spec fn message_of_encoding<E>(encoded: Result<Vec<u8>, E>) -> Result<Message, Error> {
    match encoded {
        Ok(bytes) => Ok(Message::Binary(bytes)),
        Err(_) => Err(Error::Deserialize),
    }
}

/// The message that carries an event whose encoding came out as `encoded`:
/// a binary message with the bytes, or the error `Deserialize`.
pub fn message_from_encoding<E>(encoded: Result<Vec<u8>, E>) -> (message: Result<Message, Error>)
    ensures
        message == message_of_encoding(encoded),
{
    match encoded {
        Ok(bytes) => Ok(Message::Binary(bytes)),
        Err(_) => Err(Error::Deserialize),
    }
}

impl<T: SerializeMessage> OutEvent<T> {
    /// The message that carries this: a text goes out as a text message, an
    /// event as a binary message with the encoding that its type gives it.
    pub fn try_into(self) -> (message: Result<Message, Error>)
        ensures
            self matches OutEvent::Text(text) ==> message == Ok::<Message, Error>(
                Message::Text(text),
            ),
            self matches OutEvent::Event(event) ==> exists|encoded: Result<Vec<u8>, T::Error>|
                call_ensures(T::to_binary, (&event,), encoded) && message == message_of_encoding(
                    encoded,
                ),
    {
        match self {
            OutEvent::Text(text) => Ok(Message::Text(text)),
            OutEvent::Event(event) => message_from_encoding(event.to_binary()),
        }
    }
}

/// What the host receives: a text as it is, or an event.
#[derive(Clone, Debug, PartialEq, Eq)]
pub enum InEvent<T> {
    Text(String),
    Event(T),
}

/// The event of a text message whose decoding came out as `decoded`.
pub open spec fn event_of_text<T>(decoded: Option<T>) -> Result<InEvent<T>, Error> {
    match decoded {
        Some(event) => Ok(InEvent::Event(event)),
        None => Err(Error::Deserialize),
    }
}

/// The event of a binary message whose decoding came out as `decoded`.
pub open spec fn event_of_binary<T, E>(decoded: Result<T, E>) -> Result<InEvent<T>, Error> {
    match decoded {
        Ok(event) => Ok(InEvent::Event(event)),
        Err(_) => Err(Error::Deserialize),
    }
}

/// What a message that is neither text nor binary comes to: a close ends the
/// connection, any other control frame carries no event.
pub open spec fn event_of_control<T>(message: Message) -> Result<InEvent<T>, Error>
    recommends
        !(message is Text),
        !(message is Binary),
{
    if message is Close {
        Err(Error::CloseRequested)
    } else {
        Err(Error::BadMessageType)
    }
}

/// The event of a text message whose decoding came out as `decoded`: the
/// event, or the error `Deserialize`.
pub fn event_from_text<T>(decoded: Option<T>) -> (event: Result<InEvent<T>, Error>)
    ensures
        event == event_of_text(decoded),
{
    match decoded {
        Some(event) => Ok(InEvent::Event(event)),
        None => Err(Error::Deserialize),
    }
}

/// The event of a binary message whose decoding came out as `decoded`: the
/// event, or the error `Deserialize`.
pub fn event_from_binary<T, E>(decoded: Result<T, E>) -> (event: Result<InEvent<T>, Error>)
    ensures
        event == event_of_binary(decoded),
{
    match decoded {
        Ok(event) => Ok(InEvent::Event(event)),
        Err(_) => Err(Error::Deserialize),
    }
}

impl<T: DeserializeMessage<Event = T> + InWryEvent> InEvent<T> {
    /// `event` is what `message` comes to: for a text or a binary message,
    /// what follows from a decoding that the event's type gives for the
    /// payload; for any other message, what follows from its kind.
    pub open spec fn decoded_from(message: Message, event: Result<Self, Error>) -> bool {
        match message {
            Message::Text(text) => exists|decoded: Option<T>|
                call_ensures(T::from_json, (&text,), decoded) && event == event_of_text(decoded),
            Message::Binary(buffer) => exists|
                decoded: Result<T, <T as DeserializeMessage>::Error>,
            |
                call_ensures(T::from_binary, (buffer,), decoded) && event == event_of_binary(
                    decoded,
                ),
            _ => event == event_of_control::<T>(message),
        }
    }

    /// The event that a message carries.
    ///
    /// A text message is decoded as JSON and a binary message from its binary
    /// encoding, each by the event's type; a payload that does not decode is
    /// the error `Deserialize`. A ping, a pong and a raw frame carry no event:
    /// `BadMessageType`. A close is `CloseRequested`.
    pub fn try_from(value: Message) -> (event: Result<Self, Error>)
        ensures
            Self::decoded_from(value, event),
            event is Ok ==> value is Text || value is Binary,
            event matches Err(error) ==> error == (if value is Close {
                Error::CloseRequested
            } else if value is Text || value is Binary {
                Error::Deserialize
            } else {
                Error::BadMessageType
            }),
    {
        match value {
            Message::Text(text) => event_from_text(T::from_json(&text)),
            Message::Binary(buffer) => event_from_binary(T::from_binary(buffer)),
            Message::Ping(_) | Message::Pong(_) | Message::Frame(_) => Err(Error::BadMessageType),
            Message::Close(_) => Err(Error::CloseRequested),
        }
    }
}

} // verus!
