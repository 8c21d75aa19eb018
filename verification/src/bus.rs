//! The transport seen from the protocol: a byte-level link that the
//! firmware supplies, and a layer on top of it that sends and receives
//! messages.

use vstd::prelude::*;
use vstd::string::StringExecFns;
use crate::codec::MAX_FRAME_SIZE;
use crate::frame::{decoding, encoding};
use crate::protocol::{DeviceId, Message, ProtocolError};

verus! {

/// What discovery reports about a device.
#[derive(Clone, Copy, Debug, PartialEq, Eq, Structural)]
pub struct DeviceInfo {
    /// Address of the device.
    pub id: DeviceId,
    /// What kind of device it is.
    pub entity_type: u16,
}

/// A byte-level link, such as a CAN, SPI or UART peripheral.
///
/// The protocol promises nothing about a link and asks nothing of it: a
/// send may fail, and a receive may find nothing.
pub trait EmbeddedTransport {
    /// What the link reports when it fails.
    type Error: core::fmt::Debug;

    /// Sends one frame.
    fn send_blocking(&mut self, data: &[u8]) -> Result<(), Self::Error>;

    /// Hands out the next frame that has arrived, or `None` when there is
    /// none.
    fn receive_blocking(&mut self) -> Result<Option<&[u8]>, Self::Error>;

    /// Whether the link is up.
    fn is_ready(&self) -> bool {
        true
    }
}

/// The host's link to the bus, message by message.
///
/// As with a byte-level link, the protocol promises nothing about an
/// adapter and asks nothing of it.
pub trait CommunicationAdapter {
    /// What the adapter reports when it fails.
    type Error: core::fmt::Debug;

    /// Sends one message.
    fn transmit(&mut self, message: &Message) -> Result<(), Self::Error>;

    /// Hands out the next message that has arrived, or `None` when there
    /// is none.
    fn receive(&mut self) -> Result<Option<Message>, Self::Error>;

    /// Lists the devices on the bus.
    fn discover_devices(&mut self) -> Result<Vec<DeviceInfo>, Self::Error>;

    /// Whether the adapter is connected.
    fn is_connected(&self) -> bool;
}

/// What can go wrong in the transport layer.
#[derive(Debug)]
pub enum TransportError<E> {
    /// The message could not be encoded.
    SerializationFailed,
    /// The frame could not be decoded.
    DeserializationFailed,
    /// The link failed.
    TransportError(E),
}

/// The part of a received frame that the layer looks at: the frame itself,
/// cut to the size of the receive buffer.
pub open spec fn clipped(data: Seq<u8>) -> Seq<u8> {
    if data.len() <= MAX_FRAME_SIZE {
        data
    } else {
        data.take(MAX_FRAME_SIZE as int)
    }
}

/// What the layer makes of a frame: the message that the clipped frame
/// starts with, or nothing when the clipped frame is no message.
pub open spec fn message_in(data: Seq<u8>) -> Option<Message> {
    match decoding(clipped(data)) {
        Ok(message) => Some(message),
        Err(_) => None,
    }
}

/// What `send_message` returns for what the link said.
pub open spec fn sending<E>(outcome: Result<(), E>) -> Result<(), TransportError<E>> {
    match outcome {
        Ok(_) => Ok(()),
        Err(e) => Err(TransportError::TransportError(e)),
    }
}

/// What `receive_message` returns for what the link said.
pub open spec fn reception<E>(outcome: Result<Option<&[u8]>, E>) -> Result<
    Option<Message>,
    TransportError<E>,
> {
    match outcome {
        Ok(Some(data)) => match message_in(data@) {
            Some(message) => Ok(Some(message)),
            None => Err(TransportError::DeserializationFailed),
        },
        Ok(None) => Ok(None),
        Err(e) => Err(TransportError::TransportError(e)),
    }
}

/// A link with the codec on top: messages go in and come out.
pub struct TransportLayer<T: EmbeddedTransport> {
    transport: T,
}

impl<T: EmbeddedTransport> TransportLayer<T> {
    /// The link below the layer.
    pub closed spec fn link(&self) -> T {
        self.transport
    }

    /// A layer on top of `transport`.
    pub fn new(transport: T) -> (layer: Self)
        ensures
            layer.link() == transport,
    {
        TransportLayer { transport }
    }

    /// What `send_message` returns for what the link said: `Ok` for `Ok`,
    /// and the link's error wrapped.
    pub fn sent(outcome: Result<(), T::Error>) -> (r: Result<(), TransportError<T::Error>>)
        ensures
            r == sending(outcome),
    {
        match outcome {
            Ok(_) => Ok(()),
            Err(e) => Err(TransportError::TransportError(e)),
        }
    }

    /// Encodes `message` and sends the bytes over the link.
    ///
    /// The link is handed the encoding of the message, once, and what it
    /// says comes back as [`sending`] gives it: every message has an
    /// encoding, so the only failure is that of the link.
    pub fn send_message(&mut self, message: &Message) -> (r: Result<
        (),
        TransportError<T::Error>,
    >)
        ensures
            exists|link: &mut T, data: &[u8], outcome: Result<(), T::Error>|
                {
                    &&& *link == old(self).link()
                    &&& *final(link) == final(self).link()
                    &&& data@ == encoding(*message)
                    &&& #[trigger] call_ensures(T::send_blocking, (link, data), outcome)
                    &&& r == sending(outcome)
                },
    {
        let data = match message.serialize() {
            Ok(data) => data,
            Err(_) => {
                return Err(TransportError::SerializationFailed);
            },
        };
        Self::sent(self.transport.send_blocking(data.as_slice()))
    }

    /// What `receive_message` returns for what the link said: nothing for
    /// nothing, the link's error wrapped, and for a frame the message that
    /// it starts with once it is cut to the size of the receive buffer, or
    /// `DeserializationFailed` when that is no message.
    pub fn received(outcome: Result<Option<&[u8]>, T::Error>) -> (r: Result<
        Option<Message>,
        TransportError<T::Error>,
    >)
        ensures
            r == reception(outcome),
    {
        match outcome {
            Ok(Some(data)) => {
                let len = if data.len() <= MAX_FRAME_SIZE {
                    data.len()
                } else {
                    MAX_FRAME_SIZE
                };
                let frame = vstd::slice::slice_subrange(data, 0, len);
                assert(frame@ =~= clipped(data@));
                match Message::deserialize(frame) {
                    Ok(message) => Ok(Some(message)),
                    Err(_) => Err(TransportError::DeserializationFailed),
                }
            },
            Ok(None) => Ok(None),
            Err(e) => Err(TransportError::TransportError(e)),
        }
    }

    /// Polls the link, once, and decodes the frame that it hands out, if
    /// any: the result is what [`reception`] makes of what the link said.
    pub fn receive_message(&mut self) -> (r: Result<Option<Message>, TransportError<T::Error>>)
        ensures
            exists|link: &mut T, outcome: Result<Option<&[u8]>, T::Error>|
                {
                    &&& *link == old(self).link()
                    &&& *final(link) == final(self).link()
                    &&& #[trigger] call_ensures(T::receive_blocking, (link,), outcome)
                    &&& r == reception(outcome)
                },
    {
        Self::received(self.transport.receive_blocking())
    }

    /// Whether the link is up: what the link itself says.
    pub fn is_ready(&self) -> (ready: bool)
        ensures
            call_ensures(T::is_ready, (&self.link(),), ready),
    {
        self.transport.is_ready()
    }

    /// The link, to work on.
    pub fn transport_mut(&mut self) -> (link: &mut T)
        ensures
            *link == old(self).link(),
            final(self).link() == *final(link),
    {
        &mut self.transport
    }

    /// The link.
    pub fn transport(&self) -> (link: &T)
        ensures
            *link == self.link(),
    {
        &self.transport
    }
}

/// Whether `error` is the protocol error that stands for `e`: a failed
/// encoding or decoding keeps its kind and says where it happened, and a
/// failure of the link becomes an `IoError` without a message identifier.
pub open spec fn stands_for<E>(error: ProtocolError, e: TransportError<E>) -> bool {
    match e {
        TransportError::SerializationFailed => error matches ProtocolError::SerializationError(
            text,
        ) && text@ == "Transport serialization failed"@,
        TransportError::DeserializationFailed => error matches ProtocolError::DeserializationError(
            text,
        ) && text@ == "Transport deserialization failed"@,
        TransportError::TransportError(_) => error == ProtocolError::IoError(0),
    }
}

impl<E> From<TransportError<E>> for ProtocolError {
    /// The protocol error that stands for `e`.
    fn from(e: TransportError<E>) -> (error: ProtocolError)
        ensures
            stands_for(error, e),
    {
        match e {
            TransportError::SerializationFailed => ProtocolError::SerializationError(
                String::from_str("Transport serialization failed"),
            ),
            TransportError::DeserializationFailed => ProtocolError::DeserializationError(
                String::from_str("Transport deserialization failed"),
            ),
            TransportError::TransportError(_) => ProtocolError::IoError(0),
        }
    }
}

/// `from` is specified by [`stands_for`], which speaks of the characters of
/// the texts; no function of the specification language builds a text, so
/// `from_spec` only names some error that stands for its argument.
impl<E> vstd::std_specs::convert::FromSpecImpl<TransportError<E>> for ProtocolError {
    open spec fn obeys_from_spec() -> bool {
        false
    }

    open spec fn from_spec(e: TransportError<E>) -> Self {
        choose|error: ProtocolError| stands_for(error, e)
    }
}

} // verus!
