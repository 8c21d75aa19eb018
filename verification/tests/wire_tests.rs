use irpc::{
    AdaptiveStatusPayload, CalibrationConfidence, CalibrationPhase, CalibrationRequest,
    CalibrationResult, CalibrationStatus, ConfigureAdaptivePayload, ConfigureTelemetryPayload,
    EncoderTelemetry, Header, LifecycleState, Message, MotionProfile, MotorParameters, Payload,
    ProtocolError, SetTargetPayload, SetTargetPayloadV2, StallStatus, TelemetryMode,
    TelemetryStream,
};

fn message(payload: Payload) -> Message {
    Message { header: Header { source_id: 0x0001, target_id: 0x0010, msg_id: 42 }, payload }
}

fn wire_of(payload: Payload) -> Vec<u8> {
    message(payload).serialize().unwrap()
}

fn head(tag: u8) -> Vec<u8> {
    vec![0x01, 0x00, 0x10, 0x00, 0x2a, 0x00, 0x00, 0x00, tag]
}

fn head_of(header: Header, tag: u8) -> Vec<u8> {
    let mut bytes = Vec::new();
    bytes.extend(header.source_id.to_le_bytes());
    bytes.extend(header.target_id.to_le_bytes());
    bytes.extend(header.msg_id.to_le_bytes());
    bytes.push(tag);
    bytes
}

fn joined(mut head: Vec<u8>, body: Vec<u8>) -> Vec<u8> {
    head.extend(body);
    head
}

fn telemetry_at(timestamp_us: u64) -> Payload {
    Payload::TelemetryStream(TelemetryStream {
        timestamp_us,
        position: 0,
        velocity: 0,
        acceleration: 0,
        current_d: 0,
        current_q: 0,
        voltage_d: 0,
        voltage_q: 0,
        torque_estimate: 0,
        power: 0,
        load_percent: 0,
        foc_loop_time_us: 0,
        temperature_c: 0,
        warnings: 0,
        trajectory_active: false,
    })
}

fn decoding_text(bytes: &[u8]) -> String {
    match Message::deserialize(bytes) {
        Err(ProtocolError::DeserializationError(text)) => text,
        other => panic!("expected a decoding error, got {:?}", other),
    }
}

fn every_payload() -> Vec<Payload> {
    vec![
        Payload::SetTarget(SetTargetPayload {
            target_angle: 90.0f32.to_bits(),
            velocity_limit: 10.0f32.to_bits(),
        }),
        Payload::Configure,
        Payload::Activate,
        Payload::Deactivate,
        Payload::Reset,
        Payload::SetTargetV2(SetTargetPayloadV2 {
            target_angle: 1.5f32.to_bits(),
            max_velocity: 2.5f32.to_bits(),
            target_velocity: 3.5f32.to_bits(),
            max_acceleration: 4.5f32.to_bits(),
            max_deceleration: 5.5f32.to_bits(),
            max_jerk: (-1.0f32).to_bits(),
            profile: MotionProfile::Adaptive,
            max_current: 6.5f32.to_bits(),
            max_temperature: 7.5f32.to_bits(),
        }),
        Payload::Encoder(EncoderTelemetry {
            position: 45.0f32.to_bits(),
            velocity: 5.0f32.to_bits(),
        }),
        Payload::JointStatus { state: LifecycleState::Error, error_code: 0xffff },
        Payload::TelemetryStream(TelemetryStream {
            timestamp_us: u64::MAX,
            position: 1.0f32.to_bits(),
            velocity: 2.0f32.to_bits(),
            acceleration: 3.0f32.to_bits(),
            current_d: 4.0f32.to_bits(),
            current_q: 5.0f32.to_bits(),
            voltage_d: 6.0f32.to_bits(),
            voltage_q: 7.0f32.to_bits(),
            torque_estimate: 8.0f32.to_bits(),
            power: 9.0f32.to_bits(),
            load_percent: 10.0f32.to_bits(),
            foc_loop_time_us: 0xffff,
            temperature_c: 11.0f32.to_bits(),
            warnings: 0xffff,
            trajectory_active: true,
        }),
        Payload::ConfigureTelemetry(ConfigureTelemetryPayload {
            mode: TelemetryMode::OnChange,
            rate_hz: 1000,
            change_threshold: 0.5f32.to_bits(),
        }),
        Payload::RequestTelemetry,
        Payload::ConfigureAdaptive(ConfigureAdaptivePayload {
            coolstep_enable: true,
            coolstep_min_current: 0.3f32.to_bits(),
            coolstep_threshold: 30.0f32.to_bits(),
            dcstep_enable: false,
            dcstep_threshold: 80.0f32.to_bits(),
            dcstep_max_derating: 0.5f32.to_bits(),
            stallguard_enable: true,
            stallguard_current_threshold: 9.0f32.to_bits(),
            stallguard_velocity_threshold: 1.0f32.to_bits(),
        }),
        Payload::RequestAdaptiveStatus,
        Payload::AdaptiveStatus(AdaptiveStatusPayload {
            load_percent: 55.0f32.to_bits(),
            current_scale: 0.8f32.to_bits(),
            coolstep_enabled: true,
            power_savings_percent: 12.0f32.to_bits(),
            energy_saved_wh: 0.25f32.to_bits(),
            velocity_scale: 0.9f32.to_bits(),
            dcstep_enabled: true,
            dcstep_derating: false,
            stall_status: StallStatus::Stalled,
            stallguard_enabled: true,
            stall_confidence: 99.0f32.to_bits(),
        }),
        Payload::StartCalibration(CalibrationRequest::default()),
        Payload::StopCalibration,
        Payload::CalibrationStatus(CalibrationStatus {
            phase: CalibrationPhase::Failed,
            progress: 0.65f32.to_bits(),
            time_remaining: 12.5f32.to_bits(),
            current_position: 1.2f32.to_bits(),
            current_velocity: 2.5f32.to_bits(),
            current_iq: 3.0f32.to_bits(),
        }),
        Payload::CalibrationResult(CalibrationResult {
            success: true,
            parameters: MotorParameters {
                inertia_J: 0.001f32.to_bits(),
                torque_constant_kt: 0.15f32.to_bits(),
                damping_b: 0.0005f32.to_bits(),
                friction_coulomb: 0.02f32.to_bits(),
                friction_stribeck: 0.01f32.to_bits(),
                friction_vstribeck: 0.1f32.to_bits(),
                friction_viscous: 0.001f32.to_bits(),
            },
            confidence: CalibrationConfidence {
                overall: 0.92f32.to_bits(),
                inertia: 0.95f32.to_bits(),
                friction: 0.88f32.to_bits(),
                torque_constant: 0.94f32.to_bits(),
                validation_rms: 0.015f32.to_bits(),
            },
            total_time: 62.5f32.to_bits(),
            error_code: 300,
        }),
        Payload::Ack(u32::MAX),
        Payload::Nack { id: 456, error: 255 },
        Payload::ArmReady,
    ]
}

#[test]
fn every_payload_survives_the_round_trip() {
    let payloads = every_payload();
    assert_eq!(payloads.len(), 21);
    for payload in payloads {
        for header in [
            Header { source_id: 0, target_id: 0, msg_id: 0 },
            Header { source_id: 0x0001, target_id: 0x0010, msg_id: 42 },
            Header { source_id: 0xffff, target_id: 0xffff, msg_id: u32::MAX },
        ] {
            let original = Message { header, payload };
            let bytes = original.serialize().unwrap();
            assert!(bytes.len() >= 9 && bytes.len() <= 70);
            assert!(bytes.len() < Message::max_size());
            assert_eq!(bytes[..8], head_of(header, 0)[..8]);
            assert_eq!(Message::deserialize(&bytes).unwrap(), original);
        }
    }
}

#[test]
fn longest_message_takes_70_bytes() {
    let payloads = every_payload();
    let longest = Message {
        header: Header { source_id: 0xffff, target_id: 0xffff, msg_id: u32::MAX },
        payload: payloads[8],
    };
    assert_eq!(longest.serialize().unwrap().len(), 70);
    assert_eq!(Message::max_size(), 128);
}

#[test]
fn encoding_is_the_same_every_time() {
    for payload in every_payload() {
        assert_eq!(wire_of(payload), wire_of(payload));
    }
}

#[test]
fn bytes_behind_a_message_are_ignored() {
    for payload in every_payload() {
        let mut bytes = wire_of(payload);
        bytes.extend([0xffu8, 0x00, 0x80]);
        assert_eq!(Message::deserialize(&bytes).unwrap(), message(payload));
    }
}

#[test]
fn every_proper_prefix_ends_unexpectedly() {
    for payload in every_payload() {
        let bytes = wire_of(payload);
        for len in 0..bytes.len() {
            assert_eq!(decoding_text(&bytes[..len]), "unexpected end of input");
        }
    }
}

#[test]
fn exact_bytes_of_a_configure_command() {
    assert_eq!(
        wire_of(Payload::Configure),
        vec![0x01, 0x00, 0x10, 0x00, 0x2a, 0x00, 0x00, 0x00, 0x01]
    );
}

#[test]
fn exact_bytes_of_a_set_target_command() {
    let bytes = wire_of(Payload::SetTarget(SetTargetPayload {
        target_angle: 90.0f32.to_bits(),
        velocity_limit: 10.0f32.to_bits(),
    }));
    assert_eq!(
        bytes,
        vec![
            0x01, 0x00, 0x10, 0x00, 0x2a, 0x00, 0x00, 0x00, 0x00, 0x00, 0x00, 0xb4, 0x42, 0x00,
            0x00, 0x20, 0x41
        ]
    );
}

#[test]
fn exact_bytes_of_a_refusal_with_wide_numbers() {
    let refusal = Message {
        header: Header { source_id: 300, target_id: 0x0001, msg_id: 70000 },
        payload: Payload::Nack { id: 70000, error: 255 },
    };
    assert_eq!(
        refusal.serialize().unwrap(),
        vec![
            0x2c, 0x01, 0x01, 0x00, 0x70, 0x11, 0x01, 0x00, 0x13, 0xf0, 0xa2, 0x04, 0xff, 0x01
        ]
    );
}

#[test]
fn unit_payloads_are_the_head_alone() {
    assert_eq!(wire_of(Payload::Configure), head(1));
    assert_eq!(wire_of(Payload::Activate), head(2));
    assert_eq!(wire_of(Payload::Deactivate), head(3));
    assert_eq!(wire_of(Payload::Reset), head(4));
    assert_eq!(wire_of(Payload::RequestTelemetry), head(10));
    assert_eq!(wire_of(Payload::RequestAdaptiveStatus), head(12));
    assert_eq!(wire_of(Payload::StopCalibration), head(15));
    assert_eq!(wire_of(Payload::ArmReady), head(20));
}

#[test]
fn payload_fields_have_the_bytes_that_postcard_gives_them() {
    let payloads = every_payload();
    let body = postcard::to_stdvec(&(90.0f32, 10.0f32)).unwrap();
    assert_eq!(wire_of(payloads[0]), joined(head(0), body));

    let body = postcard::to_stdvec(&(
        1.5f32, 2.5f32, 3.5f32, 4.5f32, 5.5f32, -1.0f32, 2u32, 6.5f32, 7.5f32,
    ))
    .unwrap();
    assert_eq!(wire_of(payloads[5]), joined(head(5), body));

    let body = postcard::to_stdvec(&(45.0f32, 5.0f32)).unwrap();
    assert_eq!(wire_of(payloads[6]), joined(head(6), body));

    let body = postcard::to_stdvec(&(4u32, 0xffffu16)).unwrap();
    assert_eq!(wire_of(payloads[7]), joined(head(7), body));

    let body = postcard::to_stdvec(&(
        u64::MAX,
        (1.0f32, 2.0f32, 3.0f32, 4.0f32, 5.0f32, 6.0f32, 7.0f32, 8.0f32, 9.0f32, 10.0f32),
        0xffffu16,
        11.0f32,
        0xffffu16,
        true,
    ))
    .unwrap();
    assert_eq!(wire_of(payloads[8]), joined(head(8), body));

    let body = postcard::to_stdvec(&(3u32, 1000u16, 0.5f32)).unwrap();
    assert_eq!(wire_of(payloads[9]), joined(head(9), body));

    let body = postcard::to_stdvec(&(
        true, 0.3f32, 30.0f32, false, 80.0f32, 0.5f32, true, 9.0f32, 1.0f32,
    ))
    .unwrap();
    assert_eq!(wire_of(payloads[11]), joined(head(11), body));

    let body = postcard::to_stdvec(&(
        55.0f32, 0.8f32, true, 12.0f32, 0.25f32, 0.9f32, true, false, 2u32, true, 99.0f32,
    ))
    .unwrap();
    assert_eq!(wire_of(payloads[13]), joined(head(13), body));

    let body =
        postcard::to_stdvec(&(0b11111u8, 8.0f32, 5.0f32, 3.14f32, 60.0f32, true)).unwrap();
    assert_eq!(wire_of(payloads[14]), joined(head(14), body));

    let body = postcard::to_stdvec(&(7u32, 0.65f32, 12.5f32, 1.2f32, 2.5f32, 3.0f32)).unwrap();
    assert_eq!(wire_of(payloads[16]), joined(head(16), body));

    let body = postcard::to_stdvec(&(
        true,
        (0.001f32, 0.15f32, 0.0005f32, 0.02f32, 0.01f32, 0.1f32, 0.001f32),
        (0.92f32, 0.95f32, 0.88f32, 0.94f32, 0.015f32),
        62.5f32,
        300u16,
    ))
    .unwrap();
    assert_eq!(wire_of(payloads[17]), joined(head(17), body));

    let body = postcard::to_stdvec(&u32::MAX).unwrap();
    assert_eq!(wire_of(payloads[18]), joined(head(18), body));

    let body = postcard::to_stdvec(&(456u32, 255u16)).unwrap();
    assert_eq!(wire_of(payloads[19]), joined(head(19), body));
}

#[test]
fn header_has_nine_bytes_whatever_it_holds() {
    let short = Message {
        header: Header { source_id: 0x0001, target_id: 0x0010, msg_id: 1 },
        payload: Payload::Configure,
    };
    let long = Message {
        header: Header { source_id: 0x0001, target_id: 0x0010, msg_id: 200 },
        payload: Payload::Configure,
    };
    assert_eq!(short.serialize().unwrap().len(), 9);
    assert_eq!(long.serialize().unwrap().len(), 9);
    for payload in every_payload() {
        let lengths: Vec<usize> = [
            Header { source_id: 0, target_id: 0, msg_id: 0 },
            Header { source_id: 127, target_id: 128, msg_id: 16384 },
            Header { source_id: 0xffff, target_id: 0xffff, msg_id: u32::MAX },
        ]
        .iter()
        .map(|header| Message { header: *header, payload }.serialize().unwrap().len())
        .collect();
        assert_eq!(lengths[0], lengths[1]);
        assert_eq!(lengths[1], lengths[2]);
    }
    let wide = Message {
        header: Header { source_id: 0x1234, target_id: 0xabcd, msg_id: 0x89ab_cdef },
        payload: Payload::ArmReady,
    };
    assert_eq!(
        wide.serialize().unwrap(),
        vec![0x34, 0x12, 0xcd, 0xab, 0xef, 0xcd, 0xab, 0x89, 20]
    );
}

#[test]
fn postcard_reads_the_payload_fields_that_the_library_writes() {
    let payloads = every_payload();
    let bytes = wire_of(payloads[19]);
    let read: (u32, u16) = postcard::from_bytes(&bytes[9..]).unwrap();
    assert_eq!(read, (456, 255));

    let bytes = wire_of(payloads[14]);
    let read: (u8, f32, f32, f32, f32, bool) = postcard::from_bytes(&bytes[9..]).unwrap();
    assert_eq!(read, (0b11111, 8.0, 5.0, 3.14, 60.0, true));
}

#[test]
fn numbers_of_variable_length_match_postcard() {
    let edges: [u64; 16] = [
        0,
        1,
        127,
        128,
        255,
        300,
        16383,
        16384,
        65535,
        65536,
        2097151,
        2097152,
        u32::MAX as u64,
        u32::MAX as u64 + 1,
        u64::MAX - 1,
        u64::MAX,
    ];
    for value in edges {
        let sent = message(telemetry_at(value));
        let bytes = sent.serialize().unwrap();
        let body = postcard::to_stdvec(&(
            value,
            ([0u8; 20], [0u8; 20]),
            (0u16, 0.0f32, 0u16, false),
        ))
        .unwrap();
        assert_eq!(bytes, joined(head(8), body));
        assert_eq!(Message::deserialize(&bytes).unwrap(), sent);
        if value <= u32::MAX as u64 {
            let sent = message(Payload::Ack(value as u32));
            let bytes = sent.serialize().unwrap();
            let body = postcard::to_stdvec(&(value as u32)).unwrap();
            assert_eq!(bytes, joined(head(18), body));
            assert_eq!(Message::deserialize(&bytes).unwrap(), sent);
        }
        if value <= u16::MAX as u64 {
            let sent = message(Payload::Nack { id: 3, error: value as u16 });
            let bytes = sent.serialize().unwrap();
            let body = postcard::to_stdvec(&(3u32, value as u16)).unwrap();
            assert_eq!(bytes, joined(head(19), body));
            assert_eq!(Message::deserialize(&bytes).unwrap(), sent);
        }
    }
    assert_eq!(wire_of(Payload::Ack(300))[9..], [0xac, 0x02]);
    assert_eq!(wire_of(Payload::Ack(u32::MAX))[9..], [0xff, 0xff, 0xff, 0xff, 0x0f]);
    assert_eq!(wire_of(Payload::Nack { id: 0, error: u16::MAX })[10..], [0xff, 0xff, 0x03]);
    assert_eq!(
        wire_of(telemetry_at(u64::MAX))[9..19],
        [0xff, 0xff, 0xff, 0xff, 0xff, 0xff, 0xff, 0xff, 0xff, 0x01]
    );
}

#[test]
fn malformed_numbers_are_judged_as_postcard_judges_them() {
    let cases: Vec<Vec<u8>> = vec![
        vec![],
        vec![0x80],
        vec![0x80, 0x00],
        vec![0x80, 0x80, 0x00],
        vec![0xff, 0xff, 0x03],
        vec![0xff, 0xff, 0x04],
        vec![0x80, 0x80, 0x80],
        vec![0x80, 0x80, 0x80, 0x00],
        vec![0xff, 0xff, 0xff, 0xff, 0x0f],
        vec![0xff, 0xff, 0xff, 0xff, 0x10],
        vec![0xff, 0xff, 0xff, 0xff, 0xff],
        vec![0x80, 0x80, 0x80, 0x80, 0x80, 0x00],
        vec![0xff, 0xff, 0xff, 0xff, 0xff, 0xff, 0xff, 0xff, 0xff, 0x01],
        vec![0xff, 0xff, 0xff, 0xff, 0xff, 0xff, 0xff, 0xff, 0xff, 0x02],
        vec![0xff, 0xff, 0xff, 0xff, 0xff, 0xff, 0xff, 0xff, 0xff, 0xff],
        vec![0x81, 0x80, 0x80, 0x80, 0x80, 0x80, 0x80, 0x80, 0x80, 0x00],
    ];
    for number in cases {
        let mut body = vec![0x07];
        body.extend(number.clone());
        let ours = Message::deserialize(&joined(head(19), body.clone())).ok().map(|m| m.payload);
        let theirs = postcard::from_bytes::<(u32, u16)>(&body)
            .ok()
            .map(|(id, error)| Payload::Nack { id, error });
        assert_eq!(ours, theirs, "u16 from {:?}", number);

        let ours = Message::deserialize(&joined(head(18), number.clone())).ok().map(|m| m.payload);
        let theirs = postcard::from_bytes::<u32>(&number).ok().map(Payload::Ack);
        assert_eq!(ours, theirs, "u32 from {:?}", number);

        let mut body = number.clone();
        body.extend([0u8; 60]);
        let ours = Message::deserialize(&joined(head(8), body.clone())).ok().map(|m| m.payload);
        let theirs = postcard::from_bytes::<u64>(&body).ok().map(telemetry_at);
        assert_eq!(ours, theirs, "u64 from {:?}", number);
    }
}

#[test]
fn padded_numbers_are_read() {
    assert_eq!(
        Message::deserialize(&joined(head(18), vec![0x81, 0x00])).unwrap(),
        message(Payload::Ack(1))
    );
    assert_eq!(
        Message::deserialize(&joined(head(19), vec![0x80, 0x80, 0x80, 0x80, 0x00, 0x85, 0x80, 0x00]))
            .unwrap(),
        message(Payload::Nack { id: 0, error: 5 })
    );
}

#[test]
fn the_index_of_a_variant_is_one_byte() {
    assert_eq!(decoding_text(&joined(head(0x81), vec![0x00])), "unknown variant index");
    assert_eq!(
        Message::deserialize(&joined(head(1), vec![0x00])).unwrap(),
        message(Payload::Configure)
    );
    assert_eq!(
        wire_of(Payload::JointStatus { state: LifecycleState::Error, error_code: 0 })[9..],
        [0x04, 0x00]
    );
}

#[test]
fn each_fault_has_its_text() {
    assert_eq!(decoding_text(&[]), "unexpected end of input");
    assert_eq!(decoding_text(&[0x01, 0x00, 0x10]), "unexpected end of input");
    assert_eq!(decoding_text(&head(1)[..8]), "unexpected end of input");
    assert_eq!(decoding_text(&head(18)), "unexpected end of input");
    assert_eq!(
        decoding_text(&joined(head(18), vec![0xff, 0xff, 0xff, 0xff, 0x10])),
        "malformed variable-length integer"
    );
    assert_eq!(
        decoding_text(&joined(head(19), vec![0x01, 0xff, 0xff, 0x04])),
        "malformed variable-length integer"
    );
    assert_eq!(decoding_text(&head(21)), "unknown variant index");
    assert_eq!(decoding_text(&head(0xff)), "unknown variant index");
    assert_eq!(decoding_text(&joined(head(7), vec![5, 0])), "unknown variant index");

    let mut bytes = wire_of(Payload::StartCalibration(CalibrationRequest::default()));
    let last = bytes.len() - 1;
    bytes[last] = 2;
    assert_eq!(decoding_text(&bytes), "truth value is neither 0 nor 1");
}

#[test]
fn the_first_fault_decides() {
    let mut body = vec![0u8; 24];
    body.push(3);
    assert_eq!(decoding_text(&joined(head(5), body)), "unknown variant index");
    let mut body = vec![0u8; 8];
    body.extend([7, 9]);
    assert_eq!(decoding_text(&joined(head(13), body)), "truth value is neither 0 nor 1");
}

#[test]
fn bit_patterns_travel_unchanged() {
    for bits in [0u32, 0x8000_0000, 0x7fc0_0000, 0x7f80_0001, 0xffff_ffff, 0x0000_0001] {
        let payload =
            Payload::Encoder(EncoderTelemetry { position: bits, velocity: !bits });
        assert_eq!(Message::deserialize(&wire_of(payload)).unwrap().payload, payload);
    }
}
