//! The building blocks of the layout of a message: one field for each
//! kind of value that the types of the protocol hold.
//!
//! The addresses and the identifier of the header take two, two and four
//! bytes, least significant byte first. A fieldless enum, and the variant of
//! a payload, travels as the index of its variant in one byte. IEEE-754
//! quantities take four bytes, least significant byte first, truth values
//! and `u8` one byte. Other numbers of 16, 32 and 64 bits, which stand in
//! payloads only, have variable length.

use vstd::prelude::*;
use crate::protocol::{
    AdaptiveStatusPayload, CalibrationConfidence, CalibrationPhase, CalibrationRequest,
    CalibrationResult, CalibrationStatus, ConfigureAdaptivePayload, ConfigureTelemetryPayload,
    EncoderTelemetry, Header, LifecycleState, Message, MotionProfile, MotorParameters, Payload,
    SetTargetPayload, SetTargetPayloadV2, StallStatus, TelemetryMode, TelemetryStream,
};
use crate::wire::{Field, Kind};

verus! {

/// Number of payload variants.
pub const PAYLOAD_VARIANTS: u32 = 21;

/// Number of lifecycle states.
pub const LIFECYCLE_STATES: u32 = 5;

/// Number of motion profiles.
pub const MOTION_PROFILES: u32 = 3;

/// Number of telemetry modes.
pub const TELEMETRY_MODES: u32 = 5;

/// Number of stall reports.
pub const STALL_STATUSES: u32 = 3;

/// Number of calibration phases.
pub const CALIBRATION_PHASES: u32 = 8;

/// The field of an address: sixteen bits of fixed width.
#[verifier::allow_in_spec]
pub fn bits16(v: u16) -> Field
    returns
        (Field { kind: Kind::Bits16, value: v as u64 }),
{
    Field { kind: Kind::Bits16, value: v as u64 }
}

/// The field of an IEEE-754 bit pattern or of a message identifier:
/// thirty-two bits of fixed width.
#[verifier::allow_in_spec]
pub fn bits(v: u32) -> Field
    returns
        (Field { kind: Kind::Bits32, value: v as u64 }),
{
    Field { kind: Kind::Bits32, value: v as u64 }
}

/// The field of a truth value.
#[verifier::allow_in_spec]
pub fn flag(b: bool) -> Field
    returns
        (Field { kind: Kind::Flag, value: if b { 1u64 } else { 0u64 } }),
{
    Field { kind: Kind::Flag, value: if b { 1u64 } else { 0u64 } }
}

/// The field of a byte.
#[verifier::allow_in_spec]
pub fn byte(v: u8) -> Field
    returns
        (Field { kind: Kind::U8, value: v as u64 }),
{
    Field { kind: Kind::U8, value: v as u64 }
}

/// The field of a 16-bit number of variable length.
#[verifier::allow_in_spec]
pub fn short(v: u16) -> Field
    returns
        (Field { kind: Kind::U16, value: v as u64 }),
{
    Field { kind: Kind::U16, value: v as u64 }
}

/// The field of a 32-bit number of variable length.
#[verifier::allow_in_spec]
pub fn word(v: u32) -> Field
    returns
        (Field { kind: Kind::U32, value: v as u64 }),
{
    Field { kind: Kind::U32, value: v as u64 }
}

/// The field of a 64-bit number of variable length.
#[verifier::allow_in_spec]
pub fn long(v: u64) -> Field
    returns
        (Field { kind: Kind::U64, value: v }),
{
    Field { kind: Kind::U64, value: v }
}

/// The field of the variant with index `index` of an enum of `count`
/// variants.
#[verifier::allow_in_spec]
pub fn variant(index: u32, count: u32) -> Field
    returns
        (Field { kind: Kind::Variant(count), value: index as u64 }),
{
    Field { kind: Kind::Variant(count), value: index as u64 }
}

impl LifecycleState {
    /// The index of the state among the lifecycle states.
    #[verifier::allow_in_spec]
    pub fn index(self) -> u32
        returns
            (match self {
                LifecycleState::Unconfigured => 0u32,
                LifecycleState::Inactive => 1u32,
                LifecycleState::Active => 2u32,
                LifecycleState::Calibrating => 3u32,
                LifecycleState::Error => 4u32,
            }),
    {
        match self {
            LifecycleState::Unconfigured => 0u32,
            LifecycleState::Inactive => 1u32,
            LifecycleState::Active => 2u32,
            LifecycleState::Calibrating => 3u32,
            LifecycleState::Error => 4u32,
        }
    }

    /// The state with the given index; the last one for an index that no
    /// state has.
    #[verifier::allow_in_spec]
    pub fn from_index(index: u64) -> LifecycleState
        returns
            (match index {
                0 => LifecycleState::Unconfigured,
                1 => LifecycleState::Inactive,
                2 => LifecycleState::Active,
                3 => LifecycleState::Calibrating,
                _ => LifecycleState::Error,
            }),
    {
        match index {
            0 => LifecycleState::Unconfigured,
            1 => LifecycleState::Inactive,
            2 => LifecycleState::Active,
            3 => LifecycleState::Calibrating,
            _ => LifecycleState::Error,
        }
    }
}

impl MotionProfile {
    /// The index of the profile among the motion profiles.
    #[verifier::allow_in_spec]
    pub fn index(self) -> u32
        returns
            (match self {
                MotionProfile::Trapezoidal => 0u32,
                MotionProfile::SCurve => 1u32,
                MotionProfile::Adaptive => 2u32,
            }),
    {
        match self {
            MotionProfile::Trapezoidal => 0u32,
            MotionProfile::SCurve => 1u32,
            MotionProfile::Adaptive => 2u32,
        }
    }

    /// The profile with the given index; the last one for an index that no
    /// profile has.
    #[verifier::allow_in_spec]
    pub fn from_index(index: u64) -> MotionProfile
        returns
            (match index {
                0 => MotionProfile::Trapezoidal,
                1 => MotionProfile::SCurve,
                _ => MotionProfile::Adaptive,
            }),
    {
        match index {
            0 => MotionProfile::Trapezoidal,
            1 => MotionProfile::SCurve,
            _ => MotionProfile::Adaptive,
        }
    }
}

impl TelemetryMode {
    /// The index of the mode among the telemetry modes.
    #[verifier::allow_in_spec]
    pub fn index(self) -> u32
        returns
            (match self {
                TelemetryMode::OnDemand => 0u32,
                TelemetryMode::Periodic => 1u32,
                TelemetryMode::Streaming => 2u32,
                TelemetryMode::OnChange => 3u32,
                TelemetryMode::Adaptive => 4u32,
            }),
    {
        match self {
            TelemetryMode::OnDemand => 0u32,
            TelemetryMode::Periodic => 1u32,
            TelemetryMode::Streaming => 2u32,
            TelemetryMode::OnChange => 3u32,
            TelemetryMode::Adaptive => 4u32,
        }
    }

    /// The mode with the given index; the last one for an index that no
    /// mode has.
    #[verifier::allow_in_spec]
    pub fn from_index(index: u64) -> TelemetryMode
        returns
            (match index {
                0 => TelemetryMode::OnDemand,
                1 => TelemetryMode::Periodic,
                2 => TelemetryMode::Streaming,
                3 => TelemetryMode::OnChange,
                _ => TelemetryMode::Adaptive,
            }),
    {
        match index {
            0 => TelemetryMode::OnDemand,
            1 => TelemetryMode::Periodic,
            2 => TelemetryMode::Streaming,
            3 => TelemetryMode::OnChange,
            _ => TelemetryMode::Adaptive,
        }
    }
}

impl StallStatus {
    /// The index of the report among the stall reports.
    #[verifier::allow_in_spec]
    pub fn index(self) -> u32
        returns
            (match self {
                StallStatus::Normal => 0u32,
                StallStatus::Warning => 1u32,
                StallStatus::Stalled => 2u32,
            }),
    {
        match self {
            StallStatus::Normal => 0u32,
            StallStatus::Warning => 1u32,
            StallStatus::Stalled => 2u32,
        }
    }

    /// The report with the given index; the last one for an index that no
    /// report has.
    #[verifier::allow_in_spec]
    pub fn from_index(index: u64) -> StallStatus
        returns
            (match index {
                0 => StallStatus::Normal,
                1 => StallStatus::Warning,
                _ => StallStatus::Stalled,
            }),
    {
        match index {
            0 => StallStatus::Normal,
            1 => StallStatus::Warning,
            _ => StallStatus::Stalled,
        }
    }
}

impl CalibrationPhase {
    /// The index of the phase among the calibration phases.
    #[verifier::allow_in_spec]
    pub fn index(self) -> u32
        returns
            (match self {
                CalibrationPhase::Idle => 0u32,
                CalibrationPhase::InertiaTest => 1u32,
                CalibrationPhase::FrictionTest => 2u32,
                CalibrationPhase::TorqueConstantVerification => 3u32,
                CalibrationPhase::DampingTest => 4u32,
                CalibrationPhase::Validation => 5u32,
                CalibrationPhase::Complete => 6u32,
                CalibrationPhase::Failed => 7u32,
            }),
    {
        match self {
            CalibrationPhase::Idle => 0u32,
            CalibrationPhase::InertiaTest => 1u32,
            CalibrationPhase::FrictionTest => 2u32,
            CalibrationPhase::TorqueConstantVerification => 3u32,
            CalibrationPhase::DampingTest => 4u32,
            CalibrationPhase::Validation => 5u32,
            CalibrationPhase::Complete => 6u32,
            CalibrationPhase::Failed => 7u32,
        }
    }

    /// The phase with the given index; the last one for an index that no
    /// phase has.
    #[verifier::allow_in_spec]
    pub fn from_index(index: u64) -> CalibrationPhase
        returns
            (match index {
                0 => CalibrationPhase::Idle,
                1 => CalibrationPhase::InertiaTest,
                2 => CalibrationPhase::FrictionTest,
                3 => CalibrationPhase::TorqueConstantVerification,
                4 => CalibrationPhase::DampingTest,
                5 => CalibrationPhase::Validation,
                6 => CalibrationPhase::Complete,
                _ => CalibrationPhase::Failed,
            }),
    {
        match index {
            0 => CalibrationPhase::Idle,
            1 => CalibrationPhase::InertiaTest,
            2 => CalibrationPhase::FrictionTest,
            3 => CalibrationPhase::TorqueConstantVerification,
            4 => CalibrationPhase::DampingTest,
            5 => CalibrationPhase::Validation,
            6 => CalibrationPhase::Complete,
            _ => CalibrationPhase::Failed,
        }
    }
}

} // verus!
