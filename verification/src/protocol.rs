//! The data model of the protocol: identifiers, lifecycle states, payloads
//! and messages.
//!
//! Every quantity that the bus carries as a 32-bit IEEE-754 number is held
//! here by its bit pattern ([`Ieee32`]). The library never computes with such
//! a quantity; it only carries it, and a bit pattern travels without loss.

use vstd::prelude::*;

verus! {

/// Address of a participant on the bus.
pub type DeviceId = u16;

/// Identifier that ties a reply to the request it answers.
pub type MessageId = u32;

/// Bit pattern of a 32-bit IEEE-754 number.
pub type Ieee32 = u32;

/// Operating mode of a joint.
///
/// The legal moves are
/// `Unconfigured -> Inactive` (configure), `Inactive -> Active` (activate),
/// `Active -> Inactive` (deactivate), `Active -> Calibrating` (calibration
/// starts), `Calibrating -> Active` (calibration ends) and, from every mode,
/// `-> Unconfigured` (reset).
#[derive(Clone, Copy, Debug, PartialEq, Eq, Structural)]
pub enum LifecycleState {
    /// Not configured; accepts no motion command.
    Unconfigured,
    /// Configured, not ready for motion.
    Inactive,
    /// Ready; executes motion commands.
    Active,
    /// Running the automatic calibration.
    Calibrating,
    /// Faulted.
    Error,
}

/// Target position and velocity limit of a motion.
#[derive(Clone, Copy, Debug, PartialEq, Eq, Structural)]
pub struct SetTargetPayload {
    /// Target angle in degrees.
    pub target_angle: Ieee32,
    /// Velocity limit in degrees per second.
    pub velocity_limit: Ieee32,
}

/// Shape of the velocity profile of a motion.
#[derive(Clone, Copy, Debug, PartialEq, Eq, Structural)]
pub enum MotionProfile {
    /// Constant acceleration and deceleration.
    Trapezoidal,
    /// Jerk-limited.
    SCurve,
    /// Adjusted to the load.
    Adaptive,
}

/// Target of a profiled motion.
#[derive(Clone, Copy, Debug, PartialEq, Eq, Structural)]
pub struct SetTargetPayloadV2 {
    /// Target angle in degrees.
    pub target_angle: Ieee32,
    /// Maximum velocity in degrees per second.
    pub max_velocity: Ieee32,
    /// Velocity at the end point in degrees per second.
    pub target_velocity: Ieee32,
    /// Maximum acceleration in degrees per second squared.
    pub max_acceleration: Ieee32,
    /// Maximum deceleration in degrees per second squared.
    pub max_deceleration: Ieee32,
    /// Maximum jerk in degrees per second cubed; zero or less disables the limit.
    pub max_jerk: Ieee32,
    /// Profile to follow.
    pub profile: MotionProfile,
    /// Current limit in amperes; zero disables it.
    pub max_current: Ieee32,
    /// Temperature limit in degrees Celsius; zero disables it.
    pub max_temperature: Ieee32,
}

/// Position and velocity read from the encoder.
#[derive(Clone, Copy, Debug, PartialEq, Eq, Structural)]
pub struct EncoderTelemetry {
    /// Position in degrees.
    pub position: Ieee32,
    /// Velocity in degrees per second.
    pub velocity: Ieee32,
}

/// One frame of the full telemetry stream.
#[derive(Clone, Copy, Debug, PartialEq, Eq, Structural)]
pub struct TelemetryStream {
    /// Microseconds since the node started.
    pub timestamp_us: u64,
    /// Position in degrees.
    pub position: Ieee32,
    /// Velocity in degrees per second.
    pub velocity: Ieee32,
    /// Acceleration in degrees per second squared.
    pub acceleration: Ieee32,
    /// D-axis current in amperes.
    pub current_d: Ieee32,
    /// Q-axis current in amperes.
    pub current_q: Ieee32,
    /// D-axis voltage in volts.
    pub voltage_d: Ieee32,
    /// Q-axis voltage in volts.
    pub voltage_q: Ieee32,
    /// Estimated torque in newton metres.
    pub torque_estimate: Ieee32,
    /// Electrical power in watts.
    pub power: Ieee32,
    /// Load in percent.
    pub load_percent: Ieee32,
    /// Duration of one control loop in microseconds.
    pub foc_loop_time_us: u16,
    /// Temperature in degrees Celsius.
    pub temperature_c: Ieee32,
    /// Warning flags.
    pub warnings: u16,
    /// Whether a trajectory is being followed.
    pub trajectory_active: bool,
}

/// When a joint sends telemetry.
#[derive(Clone, Copy, Debug, PartialEq, Eq, Structural)]
pub enum TelemetryMode {
    /// Only when asked.
    OnDemand,
    /// At the configured rate.
    Periodic,
    /// Continuously, at the highest rate.
    Streaming,
    /// When a value changes by more than the threshold.
    OnChange,
    /// At a rate that follows the motion.
    Adaptive,
}

/// Telemetry settings.
#[derive(Clone, Copy, Debug, PartialEq, Eq, Structural)]
pub struct ConfigureTelemetryPayload {
    /// When to send.
    pub mode: TelemetryMode,
    /// Rate in hertz for the periodic mode; zero selects the default.
    pub rate_hz: u16,
    /// Threshold for the on-change mode; zero selects the default.
    pub change_threshold: Ieee32,
}

/// What the stall detection reports.
#[derive(Clone, Copy, Debug, PartialEq, Eq, Structural)]
pub enum StallStatus {
    /// Moving freely.
    Normal,
    /// Heavily loaded.
    Warning,
    /// Unable to move.
    Stalled,
}

/// Settings of the load-adaptive control features.
#[derive(Clone, Copy, Debug, PartialEq, Eq, Structural)]
pub struct ConfigureAdaptivePayload {
    /// Whether the current is reduced under light load.
    pub coolstep_enable: bool,
    /// Lowest current, as a fraction of the nominal one.
    pub coolstep_min_current: Ieee32,
    /// Load in percent below which the current is reduced.
    pub coolstep_threshold: Ieee32,
    /// Whether the velocity is derated under heavy load.
    pub dcstep_enable: bool,
    /// Load in percent above which the velocity is derated.
    pub dcstep_threshold: Ieee32,
    /// Strongest derating, as a fraction of the velocity.
    pub dcstep_max_derating: Ieee32,
    /// Whether stalls are detected.
    pub stallguard_enable: bool,
    /// Current in amperes above which a stall is suspected.
    pub stallguard_current_threshold: Ieee32,
    /// Velocity in degrees per second below which a stall is suspected.
    pub stallguard_velocity_threshold: Ieee32,
}

/// State of the load-adaptive control features.
#[derive(Clone, Copy, Debug, PartialEq, Eq, Structural)]
pub struct AdaptiveStatusPayload {
    /// Estimated load in percent.
    pub load_percent: Ieee32,
    /// Factor applied to the current.
    pub current_scale: Ieee32,
    /// Whether the current reduction is switched on.
    pub coolstep_enabled: bool,
    /// Power saved by the current reduction, in percent.
    pub power_savings_percent: Ieee32,
    /// Energy saved so far, in watt hours.
    pub energy_saved_wh: Ieee32,
    /// Factor applied to the velocity.
    pub velocity_scale: Ieee32,
    /// Whether the velocity derating is switched on.
    pub dcstep_enabled: bool,
    /// Whether the velocity is being derated now.
    pub dcstep_derating: bool,
    /// What the stall detection reports.
    pub stall_status: StallStatus,
    /// Whether the stall detection is switched on.
    pub stallguard_enabled: bool,
    /// Confidence of the stall detection, in percent.
    pub stall_confidence: Ieee32,
}

/// Limits under which a calibration runs.
#[derive(Clone, Copy, Debug, PartialEq, Eq, Structural)]
pub struct CalibrationRequest {
    /// Phases to run, one bit each: inertia, friction, torque constant,
    /// damping, validation.
    pub phases: u8,
    /// Highest test current in amperes.
    pub max_current: Ieee32,
    /// Highest test velocity in radians per second.
    pub max_velocity: Ieee32,
    /// Widest excursion from the start position in radians.
    pub max_position_range: Ieee32,
    /// Time allowed to each phase in seconds.
    pub phase_timeout: Ieee32,
    /// Whether the joint returns to its start position at the end.
    pub return_home: bool,
}

impl CalibrationRequest {
    /// The request that runs every phase under the standard limits.
    pub open spec fn standard() -> CalibrationRequest {
        CalibrationRequest {
            phases: 0b11111,
            max_current: 0x4100_0000,
            max_velocity: 0x40A0_0000,
            max_position_range: 0x4048_F5C3,
            phase_timeout: 0x4270_0000,
            return_home: true,
        }
    }
}

impl Default for CalibrationRequest {
    /// All five phases, 8 A, 5 rad/s, 3.14 rad, 60 s for each phase, and a
    /// return to the start position.
    fn default() -> (request: Self)
        ensures
            request == CalibrationRequest::standard(),
    {
        CalibrationRequest {
            phases: 0b11111,
            max_current: 0x4100_0000,
            max_velocity: 0x40A0_0000,
            max_position_range: 0x4048_F5C3,
            phase_timeout: 0x4270_0000,
            return_home: true,
        }
    }
}

/// Step of a calibration run.
#[derive(Clone, Copy, Debug, PartialEq, Eq, Structural)]
pub enum CalibrationPhase {
    /// Not running.
    Idle,
    /// Measuring the rotor inertia.
    InertiaTest,
    /// Measuring the friction.
    FrictionTest,
    /// Checking the torque constant.
    TorqueConstantVerification,
    /// Measuring the damping.
    DampingTest,
    /// Checking the identified model.
    Validation,
    /// Finished with a result.
    Complete,
    /// Finished without one.
    Failed,
}

/// Progress report of a calibration run.
#[derive(Clone, Copy, Debug, PartialEq, Eq, Structural)]
pub struct CalibrationStatus {
    /// Step that is running.
    pub phase: CalibrationPhase,
    /// Progress within the step, from zero to one.
    pub progress: Ieee32,
    /// Estimated time left in seconds.
    pub time_remaining: Ieee32,
    /// Position in radians.
    pub current_position: Ieee32,
    /// Velocity in radians per second.
    pub current_velocity: Ieee32,
    /// Test current in amperes.
    pub current_iq: Ieee32,
}

/// Motor parameters that a calibration identifies.
#[allow(non_snake_case)]
#[derive(Clone, Copy, Debug, PartialEq, Eq, Structural)]
pub struct MotorParameters {
    /// Rotor inertia.
    pub inertia_J: Ieee32,
    /// Torque constant.
    pub torque_constant_kt: Ieee32,
    /// Viscous damping.
    pub damping_b: Ieee32,
    /// Coulomb friction.
    pub friction_coulomb: Ieee32,
    /// Amplitude of the Stribeck friction.
    pub friction_stribeck: Ieee32,
    /// Stribeck velocity.
    pub friction_vstribeck: Ieee32,
    /// Viscous friction coefficient.
    pub friction_viscous: Ieee32,
}

/// How far the identified parameters can be relied on.
#[derive(Clone, Copy, Debug, PartialEq, Eq, Structural)]
pub struct CalibrationConfidence {
    /// Overall confidence, from zero to one.
    pub overall: Ieee32,
    /// Confidence in the inertia.
    pub inertia: Ieee32,
    /// Fit quality of the friction model.
    pub friction: Ieee32,
    /// Confidence in the torque constant.
    pub torque_constant: Ieee32,
    /// Root mean square of the tracking error during validation, in radians.
    pub validation_rms: Ieee32,
}

/// Outcome of a calibration run.
#[derive(Clone, Copy, Debug, PartialEq, Eq, Structural)]
pub struct CalibrationResult {
    /// Whether the run succeeded.
    pub success: bool,
    /// Identified parameters.
    pub parameters: MotorParameters,
    /// Confidence in them.
    pub confidence: CalibrationConfidence,
    /// Duration of the run in seconds.
    pub total_time: Ieee32,
    /// Zero on success, the fault otherwise.
    pub error_code: u16,
}

/// What a message carries.
///
/// The variants fall into commands from the host to a joint, telemetry and
/// status from a joint to the host, and management messages that travel both
/// ways. Their order is part of the wire format.
#[derive(Clone, Copy, Debug, PartialEq, Eq, Structural)]
pub enum Payload {
    /// Command: move to a target. Accepted in `Active` only.
    SetTarget(SetTargetPayload),
    /// Command: `Unconfigured -> Inactive`.
    Configure,
    /// Command: `Inactive -> Active`.
    Activate,
    /// Command: `Active -> Inactive`.
    Deactivate,
    /// Command: back to `Unconfigured` from any state.
    Reset,
    /// Command: move to a target along a profile.
    SetTargetV2(SetTargetPayloadV2),
    /// Telemetry: encoder reading.
    Encoder(EncoderTelemetry),
    /// Status: lifecycle state and fault code.
    JointStatus { state: LifecycleState, error_code: u16 },
    /// Telemetry: full frame.
    TelemetryStream(TelemetryStream),
    /// Command: telemetry settings.
    ConfigureTelemetry(ConfigureTelemetryPayload),
    /// Command: send one telemetry frame now.
    RequestTelemetry,
    /// Command: settings of the adaptive control.
    ConfigureAdaptive(ConfigureAdaptivePayload),
    /// Command: send the state of the adaptive control now.
    RequestAdaptiveStatus,
    /// Status: state of the adaptive control.
    AdaptiveStatus(AdaptiveStatusPayload),
    /// Command: start a calibration run.
    StartCalibration(CalibrationRequest),
    /// Command: abort the calibration run.
    StopCalibration,
    /// Status: progress of the calibration run.
    CalibrationStatus(CalibrationStatus),
    /// Status: outcome of the calibration run.
    CalibrationResult(CalibrationResult),
    /// The command with this identifier was carried out.
    Ack(MessageId),
    /// The command with this identifier was refused, and why.
    Nack { id: MessageId, error: u16 },
    /// The host is ready.
    ArmReady,
}

/// Routing and correlation data of a message.
///
/// A reply swaps source and target of its request and repeats its `msg_id`.
#[derive(Clone, Copy, Debug, PartialEq, Eq, Structural)]
pub struct Header {
    /// Sender.
    pub source_id: DeviceId,
    /// Recipient; the broadcast address reaches every node.
    pub target_id: DeviceId,
    /// Identifier of the exchange.
    pub msg_id: MessageId,
}

/// The unit of transfer: a header and a payload.
#[derive(Clone, Copy, Debug, PartialEq, Eq, Structural)]
pub struct Message {
    pub header: Header,
    pub payload: Payload,
}

/// What can go wrong in an exchange.
#[derive(Debug)]
pub enum ProtocolError {
    /// The message is malformed or cannot be routed.
    InvalidMessage,
    /// The peer speaks another version of the protocol.
    UnsupportedVersion,
    /// No reply came in time.
    Timeout,
    /// The transport failed while this message was under way.
    IoError(MessageId),
    /// The message could not be encoded.
    SerializationError(String),
    /// The bytes could not be decoded.
    DeserializationError(String),
    /// The joint refused the command in its current state.
    InvalidStateTransition,
    /// The joint reported this fault.
    HardwareError(u16),
}

impl Clone for ProtocolError {
    /// A copy with the same variant and the same number or text.
    fn clone(&self) -> (copy: Self)
        ensures
            match *self {
                ProtocolError::SerializationError(text) => {
                    copy matches ProtocolError::SerializationError(other) && other@ == text@
                },
                ProtocolError::DeserializationError(text) => {
                    copy matches ProtocolError::DeserializationError(other) && other@ == text@
                },
                _ => copy == *self,
            },
    {
        match self {
            ProtocolError::InvalidMessage => ProtocolError::InvalidMessage,
            ProtocolError::UnsupportedVersion => ProtocolError::UnsupportedVersion,
            ProtocolError::Timeout => ProtocolError::Timeout,
            ProtocolError::IoError(id) => ProtocolError::IoError(*id),
            ProtocolError::SerializationError(text) => ProtocolError::SerializationError(
                text.clone(),
            ),
            ProtocolError::DeserializationError(text) => ProtocolError::DeserializationError(
                text.clone(),
            ),
            ProtocolError::InvalidStateTransition => ProtocolError::InvalidStateTransition,
            ProtocolError::HardwareError(code) => ProtocolError::HardwareError(*code),
        }
    }
}

} // verus!
