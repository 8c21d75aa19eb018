//! What a message is on the wire, and what a run of bytes is as a message.
//!
//! A message is its header in nine bytes, whatever it holds, and behind it
//! the fields of its payload:
//!
//! | bytes | field                                        |
//! |-------|----------------------------------------------|
//! | 0, 1  | `source_id`, least significant byte first    |
//! | 2, 3  | `target_id`, least significant byte first    |
//! | 4..8  | `msg_id`, least significant byte first       |
//! | 8     | index of the payload variant                 |
//! | 9..   | fields of the payload, in declaration order  |
//!
//! [`encoding`] gives the bytes of a message and [`decoding`] the message
//! that a run of bytes starts with.

use vstd::prelude::*;
use crate::layout::{
    bits, bits16, byte, flag, long, short, variant, word, CALIBRATION_PHASES, LIFECYCLE_STATES,
    MOTION_PROFILES, PAYLOAD_VARIANTS, STALL_STATUSES, TELEMETRY_MODES,
};
use crate::protocol::{
    AdaptiveStatusPayload, CalibrationConfidence, CalibrationPhase, CalibrationRequest,
    CalibrationResult, CalibrationStatus, ConfigureAdaptivePayload, ConfigureTelemetryPayload,
    EncoderTelemetry, Header, LifecycleState, Message, MotionProfile, MotorParameters, Payload,
    SetTargetPayload, SetTargetPayloadV2, StallStatus, TelemetryMode, TelemetryStream,
};
use crate::wire::{fields_bytes, parse_fields, Fault, Field, Kind};

verus! {

/// The index of the variant of a payload.
pub open spec fn payload_tag(payload: Payload) -> u32 {
    match payload {
        Payload::SetTarget(_) => 0,
        Payload::Configure => 1,
        Payload::Activate => 2,
        Payload::Deactivate => 3,
        Payload::Reset => 4,
        Payload::SetTargetV2(_) => 5,
        Payload::Encoder(_) => 6,
        Payload::JointStatus { .. } => 7,
        Payload::TelemetryStream(_) => 8,
        Payload::ConfigureTelemetry(_) => 9,
        Payload::RequestTelemetry => 10,
        Payload::ConfigureAdaptive(_) => 11,
        Payload::RequestAdaptiveStatus => 12,
        Payload::AdaptiveStatus(_) => 13,
        Payload::StartCalibration(_) => 14,
        Payload::StopCalibration => 15,
        Payload::CalibrationStatus(_) => 16,
        Payload::CalibrationResult(_) => 17,
        Payload::Ack(_) => 18,
        Payload::Nack { .. } => 19,
        Payload::ArmReady => 20,
    }
}

/// The fields of a payload, behind the index of its variant.
pub open spec fn payload_fields(payload: Payload) -> Seq<Field> {
    match payload {
        Payload::SetTarget(p) => seq![bits(p.target_angle), bits(p.velocity_limit)],
        Payload::SetTargetV2(p) => seq![
            bits(p.target_angle),
            bits(p.max_velocity),
            bits(p.target_velocity),
            bits(p.max_acceleration),
            bits(p.max_deceleration),
            bits(p.max_jerk),
            variant(p.profile.index(), MOTION_PROFILES),
            bits(p.max_current),
            bits(p.max_temperature),
        ],
        Payload::Encoder(p) => seq![bits(p.position), bits(p.velocity)],
        Payload::JointStatus { state, error_code } => seq![
            variant(state.index(), LIFECYCLE_STATES),
            short(error_code),
        ],
        Payload::TelemetryStream(p) => seq![
            long(p.timestamp_us),
            bits(p.position),
            bits(p.velocity),
            bits(p.acceleration),
            bits(p.current_d),
            bits(p.current_q),
            bits(p.voltage_d),
            bits(p.voltage_q),
            bits(p.torque_estimate),
            bits(p.power),
            bits(p.load_percent),
            short(p.foc_loop_time_us),
            bits(p.temperature_c),
            short(p.warnings),
            flag(p.trajectory_active),
        ],
        Payload::ConfigureTelemetry(p) => seq![
            variant(p.mode.index(), TELEMETRY_MODES),
            short(p.rate_hz),
            bits(p.change_threshold),
        ],
        Payload::ConfigureAdaptive(p) => seq![
            flag(p.coolstep_enable),
            bits(p.coolstep_min_current),
            bits(p.coolstep_threshold),
            flag(p.dcstep_enable),
            bits(p.dcstep_threshold),
            bits(p.dcstep_max_derating),
            flag(p.stallguard_enable),
            bits(p.stallguard_current_threshold),
            bits(p.stallguard_velocity_threshold),
        ],
        Payload::AdaptiveStatus(p) => seq![
            bits(p.load_percent),
            bits(p.current_scale),
            flag(p.coolstep_enabled),
            bits(p.power_savings_percent),
            bits(p.energy_saved_wh),
            bits(p.velocity_scale),
            flag(p.dcstep_enabled),
            flag(p.dcstep_derating),
            variant(p.stall_status.index(), STALL_STATUSES),
            flag(p.stallguard_enabled),
            bits(p.stall_confidence),
        ],
        Payload::StartCalibration(p) => seq![
            byte(p.phases),
            bits(p.max_current),
            bits(p.max_velocity),
            bits(p.max_position_range),
            bits(p.phase_timeout),
            flag(p.return_home),
        ],
        Payload::CalibrationStatus(p) => seq![
            variant(p.phase.index(), CALIBRATION_PHASES),
            bits(p.progress),
            bits(p.time_remaining),
            bits(p.current_position),
            bits(p.current_velocity),
            bits(p.current_iq),
        ],
        Payload::CalibrationResult(p) => seq![
            flag(p.success),
            bits(p.parameters.inertia_J),
            bits(p.parameters.torque_constant_kt),
            bits(p.parameters.damping_b),
            bits(p.parameters.friction_coulomb),
            bits(p.parameters.friction_stribeck),
            bits(p.parameters.friction_vstribeck),
            bits(p.parameters.friction_viscous),
            bits(p.confidence.overall),
            bits(p.confidence.inertia),
            bits(p.confidence.friction),
            bits(p.confidence.torque_constant),
            bits(p.confidence.validation_rms),
            bits(p.total_time),
            short(p.error_code),
        ],
        Payload::Ack(id) => seq![word(id)],
        Payload::Nack { id, error } => seq![word(id), short(error)],
        _ => Seq::empty(),
    }
}

/// The kinds of the fields of the payload variant with index `tag`.
pub open spec fn payload_layout(tag: u64) -> Seq<Kind> {
    if tag == 0 || tag == 6 {
        seq![Kind::Bits32, Kind::Bits32]
    } else if tag == 5 {
        seq![
            Kind::Bits32,
            Kind::Bits32,
            Kind::Bits32,
            Kind::Bits32,
            Kind::Bits32,
            Kind::Bits32,
            Kind::Variant(MOTION_PROFILES),
            Kind::Bits32,
            Kind::Bits32,
        ]
    } else if tag == 7 {
        seq![Kind::Variant(LIFECYCLE_STATES), Kind::U16]
    } else if tag == 8 {
        seq![
            Kind::U64,
            Kind::Bits32,
            Kind::Bits32,
            Kind::Bits32,
            Kind::Bits32,
            Kind::Bits32,
            Kind::Bits32,
            Kind::Bits32,
            Kind::Bits32,
            Kind::Bits32,
            Kind::Bits32,
            Kind::U16,
            Kind::Bits32,
            Kind::U16,
            Kind::Flag,
        ]
    } else if tag == 9 {
        seq![Kind::Variant(TELEMETRY_MODES), Kind::U16, Kind::Bits32]
    } else if tag == 11 {
        seq![
            Kind::Flag,
            Kind::Bits32,
            Kind::Bits32,
            Kind::Flag,
            Kind::Bits32,
            Kind::Bits32,
            Kind::Flag,
            Kind::Bits32,
            Kind::Bits32,
        ]
    } else if tag == 13 {
        seq![
            Kind::Bits32,
            Kind::Bits32,
            Kind::Flag,
            Kind::Bits32,
            Kind::Bits32,
            Kind::Bits32,
            Kind::Flag,
            Kind::Flag,
            Kind::Variant(STALL_STATUSES),
            Kind::Flag,
            Kind::Bits32,
        ]
    } else if tag == 14 {
        seq![Kind::U8, Kind::Bits32, Kind::Bits32, Kind::Bits32, Kind::Bits32, Kind::Flag]
    } else if tag == 16 {
        seq![
            Kind::Variant(CALIBRATION_PHASES),
            Kind::Bits32,
            Kind::Bits32,
            Kind::Bits32,
            Kind::Bits32,
            Kind::Bits32,
        ]
    } else if tag == 17 {
        seq![
            Kind::Flag,
            Kind::Bits32,
            Kind::Bits32,
            Kind::Bits32,
            Kind::Bits32,
            Kind::Bits32,
            Kind::Bits32,
            Kind::Bits32,
            Kind::Bits32,
            Kind::Bits32,
            Kind::Bits32,
            Kind::Bits32,
            Kind::Bits32,
            Kind::Bits32,
            Kind::U16,
        ]
    } else if tag == 18 {
        seq![Kind::U32]
    } else if tag == 19 {
        seq![Kind::U32, Kind::U16]
    } else {
        Seq::empty()
    }
}

/// The payload whose variant has index `tag` and whose fields are `f`.
pub open spec fn payload_of(tag: u64, f: Seq<Field>) -> Payload {
    if tag == 0 {
        Payload::SetTarget(
            SetTargetPayload { target_angle: f[0].value as u32, velocity_limit: f[1].value as u32 },
        )
    } else if tag == 1 {
        Payload::Configure
    } else if tag == 2 {
        Payload::Activate
    } else if tag == 3 {
        Payload::Deactivate
    } else if tag == 4 {
        Payload::Reset
    } else if tag == 5 {
        Payload::SetTargetV2(
            SetTargetPayloadV2 {
                target_angle: f[0].value as u32,
                max_velocity: f[1].value as u32,
                target_velocity: f[2].value as u32,
                max_acceleration: f[3].value as u32,
                max_deceleration: f[4].value as u32,
                max_jerk: f[5].value as u32,
                profile: MotionProfile::from_index(f[6].value),
                max_current: f[7].value as u32,
                max_temperature: f[8].value as u32,
            },
        )
    } else if tag == 6 {
        Payload::Encoder(
            EncoderTelemetry { position: f[0].value as u32, velocity: f[1].value as u32 },
        )
    } else if tag == 7 {
        Payload::JointStatus {
            state: LifecycleState::from_index(f[0].value),
            error_code: f[1].value as u16,
        }
    } else if tag == 8 {
        Payload::TelemetryStream(
            TelemetryStream {
                timestamp_us: f[0].value,
                position: f[1].value as u32,
                velocity: f[2].value as u32,
                acceleration: f[3].value as u32,
                current_d: f[4].value as u32,
                current_q: f[5].value as u32,
                voltage_d: f[6].value as u32,
                voltage_q: f[7].value as u32,
                torque_estimate: f[8].value as u32,
                power: f[9].value as u32,
                load_percent: f[10].value as u32,
                foc_loop_time_us: f[11].value as u16,
                temperature_c: f[12].value as u32,
                warnings: f[13].value as u16,
                trajectory_active: f[14].value == 1,
            },
        )
    } else if tag == 9 {
        Payload::ConfigureTelemetry(
            ConfigureTelemetryPayload {
                mode: TelemetryMode::from_index(f[0].value),
                rate_hz: f[1].value as u16,
                change_threshold: f[2].value as u32,
            },
        )
    } else if tag == 10 {
        Payload::RequestTelemetry
    } else if tag == 11 {
        Payload::ConfigureAdaptive(
            ConfigureAdaptivePayload {
                coolstep_enable: f[0].value == 1,
                coolstep_min_current: f[1].value as u32,
                coolstep_threshold: f[2].value as u32,
                dcstep_enable: f[3].value == 1,
                dcstep_threshold: f[4].value as u32,
                dcstep_max_derating: f[5].value as u32,
                stallguard_enable: f[6].value == 1,
                stallguard_current_threshold: f[7].value as u32,
                stallguard_velocity_threshold: f[8].value as u32,
            },
        )
    } else if tag == 12 {
        Payload::RequestAdaptiveStatus
    } else if tag == 13 {
        Payload::AdaptiveStatus(
            AdaptiveStatusPayload {
                load_percent: f[0].value as u32,
                current_scale: f[1].value as u32,
                coolstep_enabled: f[2].value == 1,
                power_savings_percent: f[3].value as u32,
                energy_saved_wh: f[4].value as u32,
                velocity_scale: f[5].value as u32,
                dcstep_enabled: f[6].value == 1,
                dcstep_derating: f[7].value == 1,
                stall_status: StallStatus::from_index(f[8].value),
                stallguard_enabled: f[9].value == 1,
                stall_confidence: f[10].value as u32,
            },
        )
    } else if tag == 14 {
        Payload::StartCalibration(
            CalibrationRequest {
                phases: f[0].value as u8,
                max_current: f[1].value as u32,
                max_velocity: f[2].value as u32,
                max_position_range: f[3].value as u32,
                phase_timeout: f[4].value as u32,
                return_home: f[5].value == 1,
            },
        )
    } else if tag == 15 {
        Payload::StopCalibration
    } else if tag == 16 {
        Payload::CalibrationStatus(
            CalibrationStatus {
                phase: CalibrationPhase::from_index(f[0].value),
                progress: f[1].value as u32,
                time_remaining: f[2].value as u32,
                current_position: f[3].value as u32,
                current_velocity: f[4].value as u32,
                current_iq: f[5].value as u32,
            },
        )
    } else if tag == 17 {
        Payload::CalibrationResult(
            CalibrationResult {
                success: f[0].value == 1,
                parameters: MotorParameters {
                    inertia_J: f[1].value as u32,
                    torque_constant_kt: f[2].value as u32,
                    damping_b: f[3].value as u32,
                    friction_coulomb: f[4].value as u32,
                    friction_stribeck: f[5].value as u32,
                    friction_vstribeck: f[6].value as u32,
                    friction_viscous: f[7].value as u32,
                },
                confidence: CalibrationConfidence {
                    overall: f[8].value as u32,
                    inertia: f[9].value as u32,
                    friction: f[10].value as u32,
                    torque_constant: f[11].value as u32,
                    validation_rms: f[12].value as u32,
                },
                total_time: f[13].value as u32,
                error_code: f[14].value as u16,
            },
        )
    } else if tag == 18 {
        Payload::Ack(f[0].value as u32)
    } else if tag == 19 {
        Payload::Nack { id: f[0].value as u32, error: f[1].value as u16 }
    } else {
        Payload::ArmReady
    }
}

/// The kinds of the fields that open every message: source, target,
/// identifier, and the index of the payload variant, all of fixed width.
pub open spec fn head_layout() -> Seq<Kind> {
    seq![Kind::Bits16, Kind::Bits16, Kind::Bits32, Kind::Variant(PAYLOAD_VARIANTS)]
}

/// The fields that open a message.
pub open spec fn head_fields(message: Message) -> Seq<Field> {
    seq![
        bits16(message.header.source_id),
        bits16(message.header.target_id),
        bits(message.header.msg_id),
        variant(payload_tag(message.payload), PAYLOAD_VARIANTS),
    ]
}

/// The message whose opening fields are `head` and whose payload fields are
/// `body`.
pub open spec fn message_of(head: Seq<Field>, body: Seq<Field>) -> Message {
    Message {
        header: Header {
            source_id: head[0].value as u16,
            target_id: head[1].value as u16,
            msg_id: head[2].value as u32,
        },
        payload: payload_of(head[3].value, body),
    }
}

/// All fields of a message, in wire order.
pub open spec fn message_fields(message: Message) -> Seq<Field> {
    head_fields(message) + payload_fields(message.payload)
}

/// The bytes of a message.
pub open spec fn encoding(message: Message) -> Seq<u8> {
    fields_bytes(message_fields(message))
}

/// The message that `s` starts with, or the fault that a reader meets
/// first. Bytes behind the message are not looked at.
pub open spec fn decoding(s: Seq<u8>) -> Result<Message, Fault> {
    match parse_fields(s, head_layout()) {
        Err(fault) => Err(fault),
        Ok((head, n)) => match parse_fields(s.skip(n as int), payload_layout(head[3].value)) {
            Err(fault) => Err(fault),
            Ok((body, _)) => Ok(message_of(head, body)),
        },
    }
}

/// The number of bytes that the header and the index of the payload
/// variant take in every message.
pub open spec fn head_width() -> nat {
    9
}

/// The largest number of bytes that any message takes.
pub open spec fn longest_encoding() -> nat {
    70
}

} // verus!
