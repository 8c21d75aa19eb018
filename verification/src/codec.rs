//! The codec: messages to bytes and back.

use vstd::prelude::*;
use vstd::string::StringExecFns;
use crate::frame::{
    decoding, encoding, head_fields, head_layout, head_width, longest_encoding, message_fields,
    payload_fields, payload_layout, payload_of, payload_tag,
};
use crate::frame_proofs::{
    lemma_decoding_inverts_encoding, lemma_encoding_fits, lemma_head_is_nine_bytes,
    lemma_head_layout, lemma_payload_layout,
};
use crate::layout::{
    bits, bits16, byte, flag, long, short, variant, word, CALIBRATION_PHASES, LIFECYCLE_STATES,
    MOTION_PROFILES, PAYLOAD_VARIANTS, STALL_STATUSES, TELEMETRY_MODES,
};
use crate::protocol::{
    AdaptiveStatusPayload, CalibrationConfidence, CalibrationPhase, CalibrationRequest,
    CalibrationResult, CalibrationStatus, ConfigureAdaptivePayload, ConfigureTelemetryPayload,
    EncoderTelemetry, Header, LifecycleState, Message, MotionProfile, MotorParameters, Payload,
    ProtocolError, SetTargetPayload, SetTargetPayloadV2, StallStatus, TelemetryMode,
    TelemetryStream,
};
use crate::wire::{conforms, fields_bytes, Fault, Field, Kind};
use crate::wire_io::{read_fields, write_fields};
use crate::wire_proofs::lemma_parse_fields_sound;

verus! {

/// Size of a buffer that holds any message.
pub const MAX_FRAME_SIZE: usize = 128;

/// The index of the variant of a payload.
pub(crate) fn tag_of(payload: &Payload) -> (tag: u32)
    ensures
        tag == payload_tag(*payload),
{
    match *payload {
        Payload::SetTarget(_) => 0,
        Payload::Configure => 1,
        Payload::Activate => 2,
        Payload::Deactivate => 3,
        Payload::Reset => 4,
        Payload::SetTargetV2(_) => 5,
        Payload::Encoder(_) => 6,
        Payload::JointStatus { .. } => 7,
        Payload::TelemetryStream(_) => 8,
        Payload::ConfigureTelemetry(_) => 9,
        Payload::RequestTelemetry => 10,
        Payload::ConfigureAdaptive(_) => 11,
        Payload::RequestAdaptiveStatus => 12,
        Payload::AdaptiveStatus(_) => 13,
        Payload::StartCalibration(_) => 14,
        Payload::StopCalibration => 15,
        Payload::CalibrationStatus(_) => 16,
        Payload::CalibrationResult(_) => 17,
        Payload::Ack(_) => 18,
        Payload::Nack { .. } => 19,
        Payload::ArmReady => 20,
    }
}

/// The fields of a payload, behind the index of its variant.
pub(crate) fn fields_of(payload: &Payload) -> (fields: Vec<Field>)
    ensures
        fields@ == payload_fields(*payload),
{
    let fields: Vec<Field> = match *payload {
        Payload::SetTarget(p) => vec![bits(p.target_angle), bits(p.velocity_limit)],
        Payload::SetTargetV2(p) => vec![
            bits(p.target_angle),
            bits(p.max_velocity),
            bits(p.target_velocity),
            bits(p.max_acceleration),
            bits(p.max_deceleration),
            bits(p.max_jerk),
            variant(p.profile.index(), MOTION_PROFILES),
            bits(p.max_current),
            bits(p.max_temperature),
        ],
        Payload::Encoder(p) => vec![bits(p.position), bits(p.velocity)],
        Payload::JointStatus { state, error_code } => vec![
            variant(state.index(), LIFECYCLE_STATES),
            short(error_code),
        ],
        Payload::TelemetryStream(p) => vec![
            long(p.timestamp_us),
            bits(p.position),
            bits(p.velocity),
            bits(p.acceleration),
            bits(p.current_d),
            bits(p.current_q),
            bits(p.voltage_d),
            bits(p.voltage_q),
            bits(p.torque_estimate),
            bits(p.power),
            bits(p.load_percent),
            short(p.foc_loop_time_us),
            bits(p.temperature_c),
            short(p.warnings),
            flag(p.trajectory_active),
        ],
        Payload::ConfigureTelemetry(p) => vec![
            variant(p.mode.index(), TELEMETRY_MODES),
            short(p.rate_hz),
            bits(p.change_threshold),
        ],
        Payload::ConfigureAdaptive(p) => vec![
            flag(p.coolstep_enable),
            bits(p.coolstep_min_current),
            bits(p.coolstep_threshold),
            flag(p.dcstep_enable),
            bits(p.dcstep_threshold),
            bits(p.dcstep_max_derating),
            flag(p.stallguard_enable),
            bits(p.stallguard_current_threshold),
            bits(p.stallguard_velocity_threshold),
        ],
        Payload::AdaptiveStatus(p) => vec![
            bits(p.load_percent),
            bits(p.current_scale),
            flag(p.coolstep_enabled),
            bits(p.power_savings_percent),
            bits(p.energy_saved_wh),
            bits(p.velocity_scale),
            flag(p.dcstep_enabled),
            flag(p.dcstep_derating),
            variant(p.stall_status.index(), STALL_STATUSES),
            flag(p.stallguard_enabled),
            bits(p.stall_confidence),
        ],
        Payload::StartCalibration(p) => vec![
            byte(p.phases),
            bits(p.max_current),
            bits(p.max_velocity),
            bits(p.max_position_range),
            bits(p.phase_timeout),
            flag(p.return_home),
        ],
        Payload::CalibrationStatus(p) => vec![
            variant(p.phase.index(), CALIBRATION_PHASES),
            bits(p.progress),
            bits(p.time_remaining),
            bits(p.current_position),
            bits(p.current_velocity),
            bits(p.current_iq),
        ],
        Payload::CalibrationResult(p) => vec![
            flag(p.success),
            bits(p.parameters.inertia_J),
            bits(p.parameters.torque_constant_kt),
            bits(p.parameters.damping_b),
            bits(p.parameters.friction_coulomb),
            bits(p.parameters.friction_stribeck),
            bits(p.parameters.friction_vstribeck),
            bits(p.parameters.friction_viscous),
            bits(p.confidence.overall),
            bits(p.confidence.inertia),
            bits(p.confidence.friction),
            bits(p.confidence.torque_constant),
            bits(p.confidence.validation_rms),
            bits(p.total_time),
            short(p.error_code),
        ],
        Payload::Ack(id) => vec![word(id)],
        Payload::Nack { id, error } => vec![word(id), short(error)],
        _ => Vec::new(),
    };
    assert(fields@ =~= payload_fields(*payload));
    fields
}

/// The kinds of the fields of the payload variant with index `tag`.
pub(crate) fn kinds_of_payload(tag: u64) -> (kinds: Vec<Kind>)
    ensures
        kinds@ == payload_layout(tag),
{
    let kinds: Vec<Kind> = if tag == 0 || tag == 6 {
        vec![Kind::Bits32, Kind::Bits32]
    } else if tag == 5 {
        vec![
            Kind::Bits32,
            Kind::Bits32,
            Kind::Bits32,
            Kind::Bits32,
            Kind::Bits32,
            Kind::Bits32,
            Kind::Variant(MOTION_PROFILES),
            Kind::Bits32,
            Kind::Bits32,
        ]
    } else if tag == 7 {
        vec![Kind::Variant(LIFECYCLE_STATES), Kind::U16]
    } else if tag == 8 {
        vec![
            Kind::U64,
            Kind::Bits32,
            Kind::Bits32,
            Kind::Bits32,
            Kind::Bits32,
            Kind::Bits32,
            Kind::Bits32,
            Kind::Bits32,
            Kind::Bits32,
            Kind::Bits32,
            Kind::Bits32,
            Kind::U16,
            Kind::Bits32,
            Kind::U16,
            Kind::Flag,
        ]
    } else if tag == 9 {
        vec![Kind::Variant(TELEMETRY_MODES), Kind::U16, Kind::Bits32]
    } else if tag == 11 {
        vec![
            Kind::Flag,
            Kind::Bits32,
            Kind::Bits32,
            Kind::Flag,
            Kind::Bits32,
            Kind::Bits32,
            Kind::Flag,
            Kind::Bits32,
            Kind::Bits32,
        ]
    } else if tag == 13 {
        vec![
            Kind::Bits32,
            Kind::Bits32,
            Kind::Flag,
            Kind::Bits32,
            Kind::Bits32,
            Kind::Bits32,
            Kind::Flag,
            Kind::Flag,
            Kind::Variant(STALL_STATUSES),
            Kind::Flag,
            Kind::Bits32,
        ]
    } else if tag == 14 {
        vec![Kind::U8, Kind::Bits32, Kind::Bits32, Kind::Bits32, Kind::Bits32, Kind::Flag]
    } else if tag == 16 {
        vec![
            Kind::Variant(CALIBRATION_PHASES),
            Kind::Bits32,
            Kind::Bits32,
            Kind::Bits32,
            Kind::Bits32,
            Kind::Bits32,
        ]
    } else if tag == 17 {
        vec![
            Kind::Flag,
            Kind::Bits32,
            Kind::Bits32,
            Kind::Bits32,
            Kind::Bits32,
            Kind::Bits32,
            Kind::Bits32,
            Kind::Bits32,
            Kind::Bits32,
            Kind::Bits32,
            Kind::Bits32,
            Kind::Bits32,
            Kind::Bits32,
            Kind::Bits32,
            Kind::U16,
        ]
    } else if tag == 18 {
        vec![Kind::U32]
    } else if tag == 19 {
        vec![Kind::U32, Kind::U16]
    } else {
        Vec::new()
    };
    assert(kinds@ =~= payload_layout(tag));
    kinds
}

/// The payload whose variant has index `tag` and whose fields are `f`.
pub(crate) fn payload_from(tag: u64, f: &Vec<Field>) -> (payload: Payload)
    requires
        conforms(f@, payload_layout(tag)),
    ensures
        payload == payload_of(tag, f@),
{
    if tag == 0 {
        Payload::SetTarget(
            SetTargetPayload { target_angle: f[0].value as u32, velocity_limit: f[1].value as u32 },
        )
    } else if tag == 1 {
        Payload::Configure
    } else if tag == 2 {
        Payload::Activate
    } else if tag == 3 {
        Payload::Deactivate
    } else if tag == 4 {
        Payload::Reset
    } else if tag == 5 {
        Payload::SetTargetV2(
            SetTargetPayloadV2 {
                target_angle: f[0].value as u32,
                max_velocity: f[1].value as u32,
                target_velocity: f[2].value as u32,
                max_acceleration: f[3].value as u32,
                max_deceleration: f[4].value as u32,
                max_jerk: f[5].value as u32,
                profile: MotionProfile::from_index(f[6].value),
                max_current: f[7].value as u32,
                max_temperature: f[8].value as u32,
            },
        )
    } else if tag == 6 {
        Payload::Encoder(
            EncoderTelemetry { position: f[0].value as u32, velocity: f[1].value as u32 },
        )
    } else if tag == 7 {
        Payload::JointStatus {
            state: LifecycleState::from_index(f[0].value),
            error_code: f[1].value as u16,
        }
    } else if tag == 8 {
        Payload::TelemetryStream(
            TelemetryStream {
                timestamp_us: f[0].value,
                position: f[1].value as u32,
                velocity: f[2].value as u32,
                acceleration: f[3].value as u32,
                current_d: f[4].value as u32,
                current_q: f[5].value as u32,
                voltage_d: f[6].value as u32,
                voltage_q: f[7].value as u32,
                torque_estimate: f[8].value as u32,
                power: f[9].value as u32,
                load_percent: f[10].value as u32,
                foc_loop_time_us: f[11].value as u16,
                temperature_c: f[12].value as u32,
                warnings: f[13].value as u16,
                trajectory_active: f[14].value == 1,
            },
        )
    } else if tag == 9 {
        Payload::ConfigureTelemetry(
            ConfigureTelemetryPayload {
                mode: TelemetryMode::from_index(f[0].value),
                rate_hz: f[1].value as u16,
                change_threshold: f[2].value as u32,
            },
        )
    } else if tag == 10 {
        Payload::RequestTelemetry
    } else if tag == 11 {
        Payload::ConfigureAdaptive(
            ConfigureAdaptivePayload {
                coolstep_enable: f[0].value == 1,
                coolstep_min_current: f[1].value as u32,
                coolstep_threshold: f[2].value as u32,
                dcstep_enable: f[3].value == 1,
                dcstep_threshold: f[4].value as u32,
                dcstep_max_derating: f[5].value as u32,
                stallguard_enable: f[6].value == 1,
                stallguard_current_threshold: f[7].value as u32,
                stallguard_velocity_threshold: f[8].value as u32,
            },
        )
    } else if tag == 12 {
        Payload::RequestAdaptiveStatus
    } else if tag == 13 {
        Payload::AdaptiveStatus(
            AdaptiveStatusPayload {
                load_percent: f[0].value as u32,
                current_scale: f[1].value as u32,
                coolstep_enabled: f[2].value == 1,
                power_savings_percent: f[3].value as u32,
                energy_saved_wh: f[4].value as u32,
                velocity_scale: f[5].value as u32,
                dcstep_enabled: f[6].value == 1,
                dcstep_derating: f[7].value == 1,
                stall_status: StallStatus::from_index(f[8].value),
                stallguard_enabled: f[9].value == 1,
                stall_confidence: f[10].value as u32,
            },
        )
    } else if tag == 14 {
        Payload::StartCalibration(
            CalibrationRequest {
                phases: f[0].value as u8,
                max_current: f[1].value as u32,
                max_velocity: f[2].value as u32,
                max_position_range: f[3].value as u32,
                phase_timeout: f[4].value as u32,
                return_home: f[5].value == 1,
            },
        )
    } else if tag == 15 {
        Payload::StopCalibration
    } else if tag == 16 {
        Payload::CalibrationStatus(
            CalibrationStatus {
                phase: CalibrationPhase::from_index(f[0].value),
                progress: f[1].value as u32,
                time_remaining: f[2].value as u32,
                current_position: f[3].value as u32,
                current_velocity: f[4].value as u32,
                current_iq: f[5].value as u32,
            },
        )
    } else if tag == 17 {
        Payload::CalibrationResult(
            CalibrationResult {
                success: f[0].value == 1,
                parameters: MotorParameters {
                    inertia_J: f[1].value as u32,
                    torque_constant_kt: f[2].value as u32,
                    damping_b: f[3].value as u32,
                    friction_coulomb: f[4].value as u32,
                    friction_stribeck: f[5].value as u32,
                    friction_vstribeck: f[6].value as u32,
                    friction_viscous: f[7].value as u32,
                },
                confidence: CalibrationConfidence {
                    overall: f[8].value as u32,
                    inertia: f[9].value as u32,
                    friction: f[10].value as u32,
                    torque_constant: f[11].value as u32,
                    validation_rms: f[12].value as u32,
                },
                total_time: f[13].value as u32,
                error_code: f[14].value as u16,
            },
        )
    } else if tag == 18 {
        Payload::Ack(f[0].value as u32)
    } else if tag == 19 {
        Payload::Nack { id: f[0].value as u32, error: f[1].value as u16 }
    } else {
        Payload::ArmReady
    }
}

/// What the error of a failed decoding says about a fault.
pub open spec fn fault_text(fault: Fault) -> Seq<char> {
    match fault {
        Fault::UnexpectedEnd => "unexpected end of input"@,
        Fault::BadVarint => "malformed variable-length integer"@,
        Fault::BadFlag => "truth value is neither 0 nor 1"@,
        Fault::UnknownVariant => "unknown variant index"@,
    }
}

/// The error that reports a fault of decoding.
pub(crate) fn decoding_error(fault: Fault) -> (error: ProtocolError)
    ensures
        error matches ProtocolError::DeserializationError(text) && text@ == fault_text(fault),
{
    let text = match fault {
        Fault::UnexpectedEnd => String::from_str("unexpected end of input"),
        Fault::BadVarint => String::from_str("malformed variable-length integer"),
        Fault::BadFlag => String::from_str("truth value is neither 0 nor 1"),
        Fault::UnknownVariant => String::from_str("unknown variant index"),
    };
    ProtocolError::DeserializationError(text)
}

impl Message {
    /// The bytes of the message.
    ///
    /// Every message has an encoding, so the result is always `Ok`. The
    /// header takes nine bytes whatever it holds, the whole at most 70, and
    /// the bytes decode to the message again.
    pub fn serialize(&self) -> (r: Result<Vec<u8>, ProtocolError>)
        ensures
            r is Ok,
            r->Ok_0@ == encoding(*self),
            head_width() <= r->Ok_0@.len() <= longest_encoding(),
            r->Ok_0@.len() == head_width() + fields_bytes(payload_fields(self.payload)).len(),
            decoding(r->Ok_0@) == Ok::<Message, Fault>(*self),
    {
        let mut fields: Vec<Field> = vec![
            bits16(self.header.source_id),
            bits16(self.header.target_id),
            bits(self.header.msg_id),
            variant(tag_of(&self.payload), PAYLOAD_VARIANTS),
        ];
        let mut body = fields_of(&self.payload);
        let ghost head = fields@;
        assert(head =~= head_fields(*self));
        fields.append(&mut body);
        proof {
            lemma_head_layout(*self);
            lemma_payload_layout(self.payload);
            lemma_encoding_fits(*self);
            lemma_head_is_nine_bytes(*self);
            lemma_decoding_inverts_encoding(*self, Seq::empty());
            assert(fields@ =~= message_fields(*self));
        }
        Ok(write_fields(&fields))
    }

    /// The message that `bytes` starts with.
    ///
    /// The result is `Ok` exactly when [`decoding`] finds a message; bytes
    /// behind the message are ignored. Otherwise the error is
    /// `DeserializationError` with the text of the first fault.
    pub fn deserialize(bytes: &[u8]) -> (r: Result<Message, ProtocolError>)
        ensures
            match decoding(bytes@) {
                Ok(message) => r is Ok && r->Ok_0 == message,
                Err(fault) => r matches Err(ProtocolError::DeserializationError(text)) && text@
                    == fault_text(fault),
            },
    {
        let head_kinds: Vec<Kind> = vec![
            Kind::Bits16,
            Kind::Bits16,
            Kind::Bits32,
            Kind::Variant(PAYLOAD_VARIANTS),
        ];
        assert(head_kinds@ =~= head_layout());
        assert(bytes@.skip(0) =~= bytes@);
        proof {
            lemma_parse_fields_sound(bytes@, head_layout());
        }
        let (head, next) = match read_fields(bytes, 0, &head_kinds) {
            Ok(found) => found,
            Err(fault) => {
                return Err(decoding_error(fault));
            },
        };
        let tag: u64 = head[3].value;
        let body_kinds = kinds_of_payload(tag);
        proof {
            lemma_parse_fields_sound(bytes@.skip(next as int), payload_layout(tag));
        }
        let (body, _) = match read_fields(bytes, next, &body_kinds) {
            Ok(found) => found,
            Err(fault) => {
                return Err(decoding_error(fault));
            },
        };
        Ok(
            Message {
                header: Header {
                    source_id: head[0].value as u16,
                    target_id: head[1].value as u16,
                    msg_id: head[2].value as u32,
                },
                payload: payload_from(tag, &body),
            },
        )
    }

    /// Size of a buffer that holds the encoding of any message.
    pub fn max_size() -> (size: usize)
        ensures
            size == MAX_FRAME_SIZE,
            longest_encoding() < size,
    {
        MAX_FRAME_SIZE
    }
}

} // verus!
