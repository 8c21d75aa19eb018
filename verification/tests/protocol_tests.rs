use irpc::codec::MAX_FRAME_SIZE;
use irpc::protocol::{
    CalibrationConfidence, CalibrationPhase, CalibrationRequest, CalibrationResult,
    CalibrationStatus, Header, LifecycleState, Message, MotorParameters, Payload,
};

#[test]
fn test_calibration_request_serialization() {
    let request = CalibrationRequest {
        phases: 0b11111,
        max_current: 8.0f32.to_bits(),
        max_velocity: 5.0f32.to_bits(),
        max_position_range: 3.14f32.to_bits(),
        phase_timeout: 60.0f32.to_bits(),
        return_home: true,
    };

    let msg = Message {
        header: Header { source_id: 0x0000, target_id: 0x0010, msg_id: 42 },
        payload: Payload::StartCalibration(request),
    };

    let bytes = msg.serialize().expect("Serialization failed");
    let decoded = Message::deserialize(&bytes).expect("Deserialization failed");

    match decoded.payload {
        Payload::StartCalibration(req) => {
            assert_eq!(req.phases, 0b11111);
            assert_eq!(f32::from_bits(req.max_current), 8.0);
            assert!(req.return_home);
        }
        _ => panic!("Wrong payload type"),
    }
}

#[test]
fn test_calibration_status_roundtrip() {
    let status = CalibrationStatus {
        phase: CalibrationPhase::FrictionTest,
        progress: 0.65f32.to_bits(),
        time_remaining: 12.5f32.to_bits(),
        current_position: 1.2f32.to_bits(),
        current_velocity: 2.5f32.to_bits(),
        current_iq: 3.0f32.to_bits(),
    };

    let msg = Message {
        header: Header { source_id: 0x0010, target_id: 0x0000, msg_id: 100 },
        payload: Payload::CalibrationStatus(status),
    };

    let bytes = msg.serialize().unwrap();
    let decoded = Message::deserialize(&bytes).unwrap();

    match decoded.payload {
        Payload::CalibrationStatus(s) => {
            assert_eq!(s.phase, CalibrationPhase::FrictionTest);
            assert!((f32::from_bits(s.progress) - 0.65).abs() < 0.01);
        }
        _ => panic!("Wrong payload"),
    }
}

#[test]
fn test_calibration_result_complete() {
    let result = CalibrationResult {
        success: true,
        parameters: MotorParameters {
            inertia_J: 0.001f32.to_bits(),
            torque_constant_kt: 0.15f32.to_bits(),
            damping_b: 0.0005f32.to_bits(),
            friction_coulomb: 0.02f32.to_bits(),
            friction_stribeck: 0.01f32.to_bits(),
            friction_vstribeck: 0.1f32.to_bits(),
            friction_viscous: 0.001f32.to_bits(),
        },
        confidence: CalibrationConfidence {
            overall: 0.92f32.to_bits(),
            inertia: 0.95f32.to_bits(),
            friction: 0.88f32.to_bits(),
            torque_constant: 0.94f32.to_bits(),
            validation_rms: 0.015f32.to_bits(),
        },
        total_time: 62.5f32.to_bits(),
        error_code: 0,
    };

    let msg = Message {
        header: Header { source_id: 0x0010, target_id: 0x0000, msg_id: 200 },
        payload: Payload::CalibrationResult(result),
    };

    let bytes = msg.serialize().unwrap();
    assert!(bytes.len() < Message::max_size());
    assert_eq!(Message::max_size(), MAX_FRAME_SIZE);

    let decoded = Message::deserialize(&bytes).unwrap();
    match decoded.payload {
        Payload::CalibrationResult(r) => {
            assert!(r.success);
            assert!((f32::from_bits(r.parameters.inertia_J) - 0.001).abs() < 1e-6);
            assert!((f32::from_bits(r.confidence.overall) - 0.92).abs() < 0.01);
            assert_eq!(r, result);
        }
        _ => panic!("Wrong payload"),
    }
}

#[test]
fn test_default_calibration_request() {
    let default = CalibrationRequest::default();
    assert_eq!(default.phases, 0b11111);
    assert_eq!(f32::from_bits(default.max_current), 8.0);
    assert_eq!(f32::from_bits(default.max_velocity), 5.0);
    assert_eq!(f32::from_bits(default.max_position_range), 3.14);
    assert_eq!(f32::from_bits(default.phase_timeout), 60.0);
    assert!(default.return_home);
}

#[test]
fn test_calibration_phase_values() {
    assert_eq!(CalibrationPhase::Idle as u8, 0);
    assert_eq!(CalibrationPhase::InertiaTest as u8, 1);
    assert_eq!(CalibrationPhase::Complete as u8, 6);
    assert_eq!(CalibrationPhase::Failed as u8, 7);
    assert_eq!(CalibrationPhase::Idle.index(), 0);
    assert_eq!(CalibrationPhase::Failed.index(), 7);
}

#[test]
fn test_lifecycle_state_calibrating() {
    let state = LifecycleState::Calibrating;
    assert_eq!(state as u8, 3);
    assert_eq!(state.index(), 3);
}

#[test]
fn test_stop_calibration_roundtrip() {
    let msg = Message {
        header: Header { source_id: 0x0000, target_id: 0x0010, msg_id: 50 },
        payload: Payload::StopCalibration,
    };

    let bytes = msg.serialize().unwrap();
    let decoded = Message::deserialize(&bytes).unwrap();

    match decoded.payload {
        Payload::StopCalibration => (),
        _ => panic!("Wrong payload type"),
    }
}
