//! Command and telemetry protocol between a host controller and its
//! motor-control nodes.
//!
//! The library holds the three parts of the protocol engine:
//!
//! * the wire codec ([`wire`], [`frame`], [`codec`]): what a message is on
//!   the wire, and the functions that write and read it;
//! * the lifecycle state machine of a joint ([`joint`]);
//! * the host side ([`arm`]): the correlator that matches replies to
//!   requests, the proxies of the joints, and the orchestrator.
//!
//! [`bus`] and [`transport`] hold what the protocol needs to know of the
//! links below it.

pub mod arm;
pub mod bus;
pub mod codec;
pub mod config;
pub mod frame;
pub mod frame_proofs;
pub mod joint;
pub mod layout;
pub mod protocol;
pub mod transport;
pub mod wire;
pub mod wire_io;
pub mod wire_proofs;

pub use arm::{
    ArmClient, ArmOrchestrator, CommunicationManager, Correlation, JointProxy, Slot, Wait,
    DEFAULT_TIMEOUT,
};
pub use bus::{
    CommunicationAdapter, DeviceInfo, EmbeddedTransport, TransportError, TransportLayer,
};
pub use codec::MAX_FRAME_SIZE;
pub use config::{
    ARM_DEVICE_ID, BROADCAST_ADDRESS, ENTITY_TYPE_JOINT_CLN17, JOINT_ID_OFFSET, MAX_RETRIES,
    REQUEST_TIMEOUT_MS,
};
pub use joint::{Joint, Outcome};
pub use protocol::{
    AdaptiveStatusPayload, CalibrationConfidence, CalibrationPhase, CalibrationRequest,
    CalibrationResult, CalibrationStatus, ConfigureAdaptivePayload, ConfigureTelemetryPayload,
    DeviceId, EncoderTelemetry, Header, Ieee32, LifecycleState, Message, MessageId,
    MotionProfile, MotorParameters, Payload, ProtocolError, SetTargetPayload,
    SetTargetPayloadV2, StallStatus, TelemetryMode, TelemetryStream,
};
