//! The CAN-FD transport: what of it is independent of the peripheral.
//!
//! A CAN-FD frame carries at most 64 bytes. The transport turns a message
//! into the data of one frame and the data of one frame into a message, and
//! refuses what does not fit.

use vstd::prelude::*;
use crate::frame::{decoding, encoding};
use crate::protocol::{DeviceId, Message};

verus! {

/// Largest number of data bytes in a CAN-FD frame.
pub const MAX_FDCAN_PAYLOAD: usize = 64;

/// Bit rate of the arbitration phase that a joint uses unless told
/// otherwise, in bits per second.
pub const DEFAULT_NOMINAL_BITRATE: u32 = 1_000_000;

/// Bit rate of the data phase that a joint uses unless told otherwise, in
/// bits per second.
pub const DEFAULT_DATA_BITRATE: u32 = 5_000_000;

/// Settings of a node on the bus.
#[derive(Clone, Copy, Debug, PartialEq, Eq, Structural)]
pub struct CanFdConfig {
    /// Address of the node, used as identifier of its frames.
    pub node_id: DeviceId,
    /// Bit rate of the arbitration phase in bits per second.
    pub nominal_bitrate: u32,
    /// Bit rate of the data phase in bits per second.
    pub data_bitrate: u32,
}

impl CanFdConfig {
    /// The settings of a joint with the default bit rates: 1 Mbit/s for
    /// arbitration and 5 Mbit/s for data.
    pub fn for_joint(node_id: DeviceId) -> (config: Self)
        ensures
            config.node_id == node_id,
            config.nominal_bitrate == DEFAULT_NOMINAL_BITRATE,
            config.data_bitrate == DEFAULT_DATA_BITRATE,
    {
        CanFdConfig {
            node_id,
            nominal_bitrate: DEFAULT_NOMINAL_BITRATE,
            data_bitrate: DEFAULT_DATA_BITRATE,
        }
    }
}

/// The two pins of the peripheral.
pub struct CanFdPins<TX, RX> {
    pub tx: TX,
    pub rx: RX,
}

/// What can go wrong on the CAN-FD transport.
#[derive(Clone, Copy, Debug, PartialEq, Eq, Structural)]
pub enum CanError {
    /// The peripheral is not initialised.
    NotInitialized,
    /// The hardware is not ready.
    NotReady,
    /// The transmit buffer is full.
    TxBufferFull,
    /// The transmission failed.
    TxFailed,
    /// The reception failed, or nothing was there.
    RxFailed,
    /// The message could not be encoded.
    SerializationError,
    /// The frame could not be decoded.
    DeserializationError,
    /// The settings are invalid.
    InvalidConfig,
    /// The data does not fit into one frame.
    FrameTooLarge,
}

/// The data of the frame that carries `message`, or the reason why there is
/// none.
pub open spec fn frame_of(message: Message) -> Result<Seq<u8>, CanError> {
    if encoding(message).len() > MAX_FDCAN_PAYLOAD {
        Err(CanError::FrameTooLarge)
    } else {
        Ok(encoding(message))
    }
}

/// The message that a frame with data `data` carries, or the reason why
/// there is none.
pub open spec fn message_of_frame(data: Seq<u8>) -> Result<Message, CanError> {
    if data.len() > MAX_FDCAN_PAYLOAD {
        Err(CanError::FrameTooLarge)
    } else {
        match decoding(data) {
            Ok(message) => Ok(message),
            Err(_) => Err(CanError::DeserializationError),
        }
    }
}

/// A node's end of the CAN-FD bus.
pub struct CanFdTransport {
    node_id: DeviceId,
}

impl CanFdTransport {
    /// The address of the node.
    pub closed spec fn spec_node_id(&self) -> DeviceId {
        self.node_id
    }

    /// The transport of the node that `config` describes.
    pub fn new(config: CanFdConfig) -> (r: Result<Self, CanError>)
        ensures
            r is Ok,
            r->Ok_0.node_id() == config.node_id,
    {
        Ok(CanFdTransport { node_id: config.node_id })
    }

    /// The data of the frame that carries `message`.
    ///
    /// Fails with `FrameTooLarge` exactly when the encoding of the message
    /// is longer than 64 bytes.
    pub fn outgoing_frame(&self, message: &Message) -> (r: Result<Vec<u8>, CanError>)
        ensures
            match frame_of(*message) {
                Ok(data) => r is Ok && r->Ok_0@ == data,
                Err(e) => r == Err::<Vec<u8>, CanError>(e),
            },
    {
        let data = match message.serialize() {
            Ok(data) => data,
            Err(_) => {
                return Err(CanError::SerializationError);
            },
        };
        if data.len() > MAX_FDCAN_PAYLOAD {
            return Err(CanError::FrameTooLarge);
        }
        Ok(data)
    }

    /// The message that a received frame with data `data` carries.
    ///
    /// Fails with `FrameTooLarge` when the data is longer than 64 bytes and
    /// with `DeserializationError` when it is no message.
    pub fn incoming_message(&self, data: &[u8]) -> (r: Result<Message, CanError>)
        ensures
            r == message_of_frame(data@),
    {
        if data.len() > MAX_FDCAN_PAYLOAD {
            return Err(CanError::FrameTooLarge);
        }
        match Message::deserialize(data) {
            Ok(message) => Ok(message),
            Err(_) => Err(CanError::DeserializationError),
        }
    }

    /// Whether the transport is ready. It always is.
    pub fn is_ready(&self) -> (ready: bool)
        ensures
            ready,
    {
        true
    }

    /// The address of the node.
    #[verifier::when_used_as_spec(spec_node_id)]
    pub fn node_id(&self) -> (id: DeviceId)
        ensures
            id == self.spec_node_id(),
    {
        self.node_id
    }
}

} // verus!
