use std::collections::VecDeque;

use irpc::{
    ArmClient, ArmOrchestrator, CommunicationAdapter, CommunicationManager, DeviceInfo, Header,
    Joint, JointProxy, LifecycleState, Message, Payload, ProtocolError, Wait, ARM_DEVICE_ID,
    DEFAULT_TIMEOUT, ENTITY_TYPE_JOINT_CLN17,
};

/// A bus with joints on it. Every message crosses it as bytes, in both
/// directions. A muted joint handles its messages and keeps its replies.
struct Bus {
    joints: Vec<Joint>,
    muted: Vec<u16>,
    arrived: VecDeque<Vec<u8>>,
    broken: bool,
    deaf: bool,
    transmitted: Vec<Message>,
    polls: u64,
}

impl Bus {
    fn with_joints(ids: &[u16]) -> Bus {
        Bus {
            joints: ids.iter().map(|id| Joint::new(*id)).collect(),
            muted: Vec::new(),
            arrived: VecDeque::new(),
            broken: false,
            deaf: false,
            transmitted: Vec::new(),
            polls: 0,
        }
    }

    fn state_of(&self, id: u16) -> LifecycleState {
        self.joints.iter().find(|joint| joint.id() == id).unwrap().state()
    }

    fn inject(&mut self, message: Message) {
        self.arrived.push_back(message.serialize().unwrap());
    }
}

#[derive(Debug)]
struct BusFault;

impl CommunicationAdapter for Bus {
    type Error = BusFault;

    fn transmit(&mut self, message: &Message) -> Result<(), BusFault> {
        if self.broken {
            return Err(BusFault);
        }
        self.transmitted.push(*message);
        let bytes = message.serialize().unwrap();
        let received = Message::deserialize(&bytes).unwrap();
        for joint in self.joints.iter_mut() {
            if let Some(reply) = joint.handle_message(&received) {
                if !self.muted.contains(&joint.id()) {
                    self.arrived.push_back(reply.serialize().unwrap());
                }
            }
        }
        Ok(())
    }

    fn receive(&mut self) -> Result<Option<Message>, BusFault> {
        self.polls += 1;
        if self.deaf {
            return Err(BusFault);
        }
        match self.arrived.pop_front() {
            Some(bytes) => Ok(Some(Message::deserialize(&bytes).unwrap())),
            None => Ok(None),
        }
    }

    fn discover_devices(&mut self) -> Result<Vec<DeviceInfo>, BusFault> {
        Ok(self
            .joints
            .iter()
            .map(|joint| DeviceInfo { id: joint.id(), entity_type: ENTITY_TYPE_JOINT_CLN17 })
            .collect())
    }

    fn is_connected(&self) -> bool {
        !self.broken
    }
}

fn reply(source_id: u16, msg_id: u32, payload: Payload) -> Message {
    Message { header: Header { source_id, target_id: ARM_DEVICE_ID, msg_id }, payload }
}

fn is_timeout(result: &Result<(), ProtocolError>) -> bool {
    matches!(result, Err(ProtocolError::Timeout))
}

#[test]
fn test_communication_manager() {
    let comm_manager = CommunicationManager::new();
    assert_eq!(comm_manager.now(), 0);
    assert_eq!(comm_manager.registered_count(), 0);
    assert!(!comm_manager.is_pending(1));
}

#[test]
fn test_joint_proxy() {
    let joint_proxy = JointProxy::new(0x0010);

    assert_eq!(joint_proxy.get_state(), LifecycleState::Unconfigured);
    assert_eq!(joint_proxy.id(), 0x0010);
}

#[test]
fn test_arm_orchestrator() {
    let mut orchestrator = ArmOrchestrator::new();

    assert!(!orchestrator.is_ready());
    assert_eq!(orchestrator.get_joint_ids().len(), 0);

    orchestrator.add_joint(0x0010);
    orchestrator.add_joint(0x0020);

    assert_eq!(orchestrator.get_joint_ids().len(), 2);
    assert!(orchestrator.get_joint_ids().contains(&0x0010));
    assert!(orchestrator.get_joint_ids().contains(&0x0020));

    assert!(orchestrator.get_joint(0x0010).is_some());
    assert!(orchestrator.get_joint(0x0030).is_none());

    let status = orchestrator.get_system_status();
    assert_eq!(status.len(), 2);
    assert_eq!(status[&0x0010], LifecycleState::Unconfigured);
    assert_eq!(status[&0x0020], LifecycleState::Unconfigured);
}

#[test]
fn test_arm_client() {
    let mut client = ArmClient::new();

    assert!(!client.is_ready());

    client.add_joint(0x0010);
    client.add_joint(0x0020);

    assert!(client.get_joint(0x0010).is_some());
    assert!(client.get_joint(0x0030).is_none());

    let status = client.get_system_status();
    assert_eq!(status.len(), 2);
}

#[test]
fn test_arm_joint_integration() {
    let mut joint = Joint::new(0x0010);

    let mut arm_client = ArmClient::new();
    arm_client.add_joint(0x0010);

    let configure_msg = Message {
        header: Header { source_id: 0x0001, target_id: 0x0010, msg_id: 1 },
        payload: Payload::Configure,
    };

    let response = joint.handle_message(&configure_msg);
    assert!(response.is_some());

    assert_eq!(joint.state(), LifecycleState::Inactive);

    if let Some(resp) = response {
        assert_eq!(resp.header.target_id, 0x0001);
        assert_eq!(resp.header.source_id, 0x0010);
        match resp.payload {
            Payload::Ack(msg_id) => assert_eq!(msg_id, 1),
            _ => panic!("Expected ACK response"),
        }
    }
}

#[test]
fn test_default_implementations() {
    let client = ArmClient::default();
    let orchestrator = ArmOrchestrator::default();
    let comm_manager = CommunicationManager::default();
    assert!(!client.is_ready());
    assert!(!orchestrator.is_ready());
    assert_eq!(orchestrator.get_joint_ids(), Vec::<u16>::new());
    assert_eq!(comm_manager.registered_count(), 0);
}

#[test]
fn identifiers_start_at_one_and_grow_by_one() {
    let mut manager = CommunicationManager::new();
    assert_eq!(manager.next_message_id(), Some(1));
    assert_eq!(manager.next_message_id(), Some(2));
    let request = manager.begin_request(0x0010, Payload::Configure, 5).unwrap();
    assert_eq!(
        request,
        Message {
            header: Header { source_id: 0x0001, target_id: 0x0010, msg_id: 3 },
            payload: Payload::Configure,
        }
    );
    let notice = manager.begin_notification(0x0000, Payload::ArmReady).unwrap();
    assert_eq!(notice.header.msg_id, 4);
    assert_eq!(notice.header.target_id, 0x0000);
    assert!(manager.is_pending(3));
    assert!(!manager.is_pending(4));
    assert_eq!(manager.registered_count(), 1);
}

#[test]
fn concurrent_requests_get_their_own_replies() {
    let mut manager = CommunicationManager::new();
    let ids: Vec<u32> = (0..8u16)
        .map(|n| manager.begin_request(0x0010 + n, Payload::Configure, 100).unwrap().header.msg_id)
        .collect();
    assert_eq!(ids, vec![1, 2, 3, 4, 5, 6, 7, 8]);
    assert_eq!(manager.registered_count(), 8);

    for id in ids.iter().rev() {
        let answer = reply(0x0010 + (*id as u16 - 1), *id, Payload::Nack { id: *id, error: *id as u16 });
        assert!(manager.process_incoming(answer));
        assert!(!manager.is_pending(*id));
    }
    for id in [3u32, 1, 8, 2, 7, 4, 6, 5] {
        let expected = reply(0x0010 + (id as u16 - 1), id, Payload::Nack { id, error: id as u16 });
        assert_eq!(manager.poll(id), Wait::Reply(expected));
        assert_eq!(manager.poll(id), Wait::Unknown);
    }
    assert_eq!(manager.registered_count(), 0);
    assert_eq!(manager.take_unsolicited(), vec![]);
}

#[test]
fn a_reply_does_not_touch_another_request() {
    let mut manager = CommunicationManager::new();
    let first = manager.begin_request(0x0010, Payload::Configure, 5).unwrap().header.msg_id;
    let second = manager.begin_request(0x0020, Payload::Configure, 5).unwrap().header.msg_id;
    assert!(manager.process_incoming(reply(0x0020, second, Payload::Ack(second))));
    assert_eq!(manager.poll(first), Wait::Waiting);
    assert!(manager.is_pending(first));
    assert_eq!(manager.poll(second), Wait::Reply(reply(0x0020, second, Payload::Ack(second))));
    assert_eq!(manager.poll(first), Wait::Waiting);
}

#[test]
fn request_without_reply_times_out_at_its_deadline() {
    let mut manager = CommunicationManager::new();
    let id = manager.begin_request(0x0010, Payload::Activate, 5).unwrap().header.msg_id;
    for _ in 0..4 {
        assert_eq!(manager.poll(id), Wait::Waiting);
        manager.advance(1);
    }
    assert_eq!(manager.now(), 4);
    assert_eq!(manager.poll(id), Wait::Waiting);
    manager.advance(1);
    assert_eq!(manager.poll(id), Wait::TimedOut);
    assert_eq!(manager.registered_count(), 0);
    assert_eq!(manager.poll(id), Wait::Unknown);

    let next = manager.begin_request(0x0010, Payload::Activate, 5).unwrap().header.msg_id;
    assert_eq!(next, id + 1);
    assert_eq!(manager.poll(next), Wait::Waiting);
    assert!(manager.process_incoming(reply(0x0010, next, Payload::Ack(next))));
    assert_eq!(manager.poll(next), Wait::Reply(reply(0x0010, next, Payload::Ack(next))));
}

#[test]
fn late_and_repeated_replies_go_to_the_inbox() {
    let mut manager = CommunicationManager::new();
    let id = manager.begin_request(0x0010, Payload::Activate, 2).unwrap().header.msg_id;
    manager.advance(2);
    assert_eq!(manager.poll(id), Wait::TimedOut);
    let late = reply(0x0010, id, Payload::Ack(id));
    assert!(!manager.process_incoming(late));

    let id = manager.begin_request(0x0010, Payload::Activate, 2).unwrap().header.msg_id;
    let first = reply(0x0010, id, Payload::Ack(id));
    let second = reply(0x0010, id, Payload::Nack { id, error: 2 });
    assert!(manager.process_incoming(first));
    assert!(!manager.process_incoming(second));
    assert_eq!(manager.poll(id), Wait::Reply(first));

    let telemetry = reply(0x0010, 0, Payload::JointStatus { state: LifecycleState::Active, error_code: 0 });
    assert!(!manager.process_incoming(telemetry));
    assert_eq!(manager.take_unsolicited(), vec![late, second, telemetry]);
    assert_eq!(manager.take_unsolicited(), vec![]);
}

#[test]
fn reply_and_timeout_at_once_give_one_outcome() {
    let mut manager = CommunicationManager::new();
    let id = manager.begin_request(0x0010, Payload::Activate, 3).unwrap().header.msg_id;
    manager.advance(3);
    let answer = reply(0x0010, id, Payload::Ack(id));
    assert!(manager.process_incoming(answer));
    assert_eq!(manager.poll(id), Wait::Reply(answer));
    assert_eq!(manager.poll(id), Wait::Unknown);

    let id = manager.begin_request(0x0010, Payload::Activate, 3).unwrap().header.msg_id;
    manager.advance(3);
    assert_eq!(manager.poll(id), Wait::TimedOut);
    assert!(!manager.process_incoming(reply(0x0010, id, Payload::Ack(id))));
    assert_eq!(manager.poll(id), Wait::Unknown);
}

#[test]
fn failed_send_releases_the_slot() {
    let mut manager = CommunicationManager::new();
    let id = manager.begin_request(0x0010, Payload::Activate, 3).unwrap().header.msg_id;
    assert!(matches!(manager.send_failed(id), ProtocolError::IoError(n) if n == id));
    assert_eq!(manager.registered_count(), 0);
    assert_eq!(manager.poll(id), Wait::Unknown);
    assert!(matches!(CommunicationManager::ended(id, Wait::Unknown), Err(ProtocolError::IoError(n)) if n == id));
    assert!(matches!(CommunicationManager::ended(id, Wait::TimedOut), Err(ProtocolError::Timeout)));
}

#[test]
fn the_clock_stops_at_its_largest_value() {
    let mut manager = CommunicationManager::new();
    manager.advance(u64::MAX - 1);
    let id = manager.begin_request(0x0010, Payload::Activate, 10).unwrap().header.msg_id;
    assert_eq!(manager.poll(id), Wait::Waiting);
    manager.advance(5);
    assert_eq!(manager.now(), u64::MAX);
    assert_eq!(manager.poll(id), Wait::TimedOut);
}

#[test]
fn blocking_request_returns_the_reply() {
    let mut bus = Bus::with_joints(&[0x0010, 0x0020]);
    let mut manager = CommunicationManager::new();
    let answer = manager.send_and_wait(&mut bus, 0x0020, Payload::Configure).unwrap();
    assert_eq!(answer, reply(0x0020, 1, Payload::Ack(1)));
    assert_eq!(bus.state_of(0x0020), LifecycleState::Inactive);
    assert_eq!(bus.state_of(0x0010), LifecycleState::Unconfigured);
    assert_eq!(manager.registered_count(), 0);
    assert_eq!(bus.transmitted.len(), 1);
    assert_eq!(bus.transmitted[0].header, Header { source_id: 0x0001, target_id: 0x0020, msg_id: 1 });
}

#[test]
fn blocking_request_times_out_within_its_bound() {
    let mut bus = Bus::with_joints(&[0x0010]);
    bus.muted.push(0x0010);
    let mut manager = CommunicationManager::new();
    let result = manager.send_and_wait(&mut bus, 0x0010, Payload::Configure);
    assert!(matches!(result, Err(ProtocolError::Timeout)));
    assert_eq!(bus.polls, DEFAULT_TIMEOUT);
    assert_eq!(manager.now(), DEFAULT_TIMEOUT);
    assert_eq!(manager.registered_count(), 0);

    let result = manager.send_and_wait_within(&mut bus, 0x0010, Payload::Reset, 40);
    assert!(matches!(result, Err(ProtocolError::Timeout)));
    assert_eq!(bus.polls, DEFAULT_TIMEOUT + 40);
    assert_eq!(manager.registered_count(), 0);

    bus.muted.clear();
    let answer = manager.send_and_wait(&mut bus, 0x0010, Payload::Configure).unwrap();
    assert_eq!(answer.header.msg_id, 3);
    assert_eq!(answer.payload, Payload::Ack(3));
}

#[test]
fn blocking_request_skips_what_is_not_its_reply() {
    let mut bus = Bus::with_joints(&[0x0010]);
    let status = reply(0x0010, 0, Payload::JointStatus { state: LifecycleState::Active, error_code: 0 });
    let stale = reply(0x0010, 77, Payload::Ack(77));
    bus.inject(status);
    bus.inject(stale);
    let mut manager = CommunicationManager::new();
    let answer = manager.send_and_wait(&mut bus, 0x0010, Payload::Configure).unwrap();
    assert_eq!(answer, reply(0x0010, 1, Payload::Ack(1)));
    assert_eq!(manager.take_unsolicited(), vec![status, stale]);
}

#[test]
fn blocking_request_reports_a_broken_link() {
    let mut bus = Bus::with_joints(&[0x0010]);
    bus.broken = true;
    let mut manager = CommunicationManager::new();
    let result = manager.send_and_wait(&mut bus, 0x0010, Payload::Configure);
    assert!(matches!(result, Err(ProtocolError::IoError(1))));
    assert_eq!(manager.registered_count(), 0);
    let result = manager.send_fire_and_forget(&mut bus, 0x0000, Payload::ArmReady);
    assert!(matches!(result, Err(ProtocolError::IoError(2))));

    bus.broken = false;
    bus.deaf = true;
    let result = manager.send_and_wait(&mut bus, 0x0010, Payload::Configure);
    assert!(matches!(result, Err(ProtocolError::IoError(3))));
    assert_eq!(manager.registered_count(), 0);
    assert!(manager.send_fire_and_forget(&mut bus, 0x0000, Payload::ArmReady).is_ok());
    assert_eq!(bus.transmitted.last().unwrap().header.msg_id, 4);
    assert_eq!(manager.registered_count(), 0);
}

#[test]
fn proxy_follows_acknowledgements_only() {
    let mut bus = Bus::with_joints(&[0x0010]);
    let mut manager = CommunicationManager::new();
    let mut proxy = JointProxy::new(0x0010);

    assert!(matches!(proxy.activate(&mut manager, &mut bus), Err(ProtocolError::IoError(1))));
    assert_eq!(proxy.get_state(), LifecycleState::Unconfigured);
    assert!(proxy.configure(&mut manager, &mut bus).is_ok());
    assert_eq!(proxy.get_state(), LifecycleState::Inactive);
    assert!(matches!(
        proxy.set_target(&mut manager, &mut bus, 90.0f32.to_bits(), 10.0f32.to_bits()),
        Err(ProtocolError::IoError(3))
    ));
    assert!(proxy.activate(&mut manager, &mut bus).is_ok());
    assert_eq!(proxy.get_state(), LifecycleState::Active);
    assert!(proxy.set_target(&mut manager, &mut bus, 90.0f32.to_bits(), 10.0f32.to_bits()).is_ok());
    assert_eq!(proxy.get_state(), LifecycleState::Active);
    assert!(proxy.deactivate(&mut manager, &mut bus).is_ok());
    assert_eq!(proxy.get_state(), LifecycleState::Inactive);
    assert!(proxy.reset(&mut manager, &mut bus).is_ok());
    assert_eq!(proxy.get_state(), LifecycleState::Unconfigured);
    assert_eq!(bus.state_of(0x0010), LifecycleState::Unconfigured);
}

#[test]
fn proxy_settles_each_kind_of_outcome() {
    let mut proxy = JointProxy::new(0x0010);
    let unexpected = reply(0x0010, 9, Payload::ArmReady);
    assert!(matches!(
        proxy.settle(&Payload::Configure, Ok(unexpected)),
        Err(ProtocolError::InvalidMessage)
    ));
    assert!(matches!(
        proxy.settle(&Payload::Configure, Ok(reply(0x0010, 9, Payload::Nack { id: 9, error: 1 }))),
        Err(ProtocolError::IoError(9))
    ));
    assert!(matches!(
        proxy.settle(&Payload::Configure, Err(ProtocolError::Timeout)),
        Err(ProtocolError::Timeout)
    ));
    assert_eq!(proxy.get_state(), LifecycleState::Unconfigured);
    assert!(proxy.settle(&Payload::Activate, Ok(reply(0x0010, 9, Payload::Ack(9)))).is_ok());
    assert_eq!(proxy.get_state(), LifecycleState::Active);
    assert!(proxy.settle(&Payload::ArmReady, Ok(reply(0x0010, 9, Payload::Ack(9)))).is_ok());
    assert_eq!(proxy.get_state(), LifecycleState::Active);
}

#[test]
fn activate_all_stops_at_the_joint_that_does_not_reply() {
    let mut bus = Bus::with_joints(&[0x0010, 0x0020]);
    let mut orchestrator = ArmOrchestrator::new();
    orchestrator.add_joint(0x0010);
    orchestrator.add_joint(0x0020);
    assert!(orchestrator.configure_all(&mut bus).is_ok());
    assert_eq!(orchestrator.failed_joints(), Vec::<u16>::new());

    bus.muted.push(0x0020);
    let result = orchestrator.activate_all(&mut bus);
    assert!(is_timeout(&result));
    assert_eq!(orchestrator.failed_joints(), vec![0x0020]);
    assert!(!orchestrator.is_ready());
    assert_eq!(orchestrator.get_joint(0x0010).unwrap().get_state(), LifecycleState::Active);
    assert_eq!(orchestrator.get_joint(0x0020).unwrap().get_state(), LifecycleState::Inactive);
}

#[test]
fn bulk_operations_follow_their_policies() {
    let mut bus = Bus::with_joints(&[0x0010, 0x0020, 0x0030]);
    let mut orchestrator = ArmOrchestrator::new();
    for id in [0x0010, 0x0020, 0x0030] {
        orchestrator.add_joint(id);
    }
    assert_eq!(orchestrator.get_joint_ids(), vec![0x0010, 0x0020, 0x0030]);

    assert!(matches!(orchestrator.activate_all(&mut bus), Err(ProtocolError::IoError(1))));
    assert_eq!(orchestrator.failed_joints(), vec![0x0010]);
    assert_eq!(bus.transmitted.len(), 1);
    assert!(!orchestrator.is_ready());

    assert!(orchestrator.configure_all(&mut bus).is_ok());
    assert!(orchestrator.activate_all(&mut bus).is_ok());
    assert!(orchestrator.is_ready());
    let status = orchestrator.get_system_status();
    assert_eq!(status.len(), 3);
    assert!(status.values().all(|state| *state == LifecycleState::Active));

    bus.muted.push(0x0020);
    assert!(orchestrator.deactivate_all(&mut bus).is_ok());
    assert!(!orchestrator.is_ready());
    assert_eq!(orchestrator.failed_joints(), vec![0x0020]);
    let status = orchestrator.get_system_status();
    assert_eq!(status[&0x0010], LifecycleState::Inactive);
    assert_eq!(status[&0x0020], LifecycleState::Active);
    assert_eq!(status[&0x0030], LifecycleState::Inactive);

    bus.muted = vec![0x0010, 0x0030];
    assert!(orchestrator.emergency_stop(&mut bus).is_ok());
    assert_eq!(orchestrator.failed_joints(), vec![0x0010, 0x0030]);
    let status = orchestrator.get_system_status();
    assert_eq!(status[&0x0010], LifecycleState::Inactive);
    assert_eq!(status[&0x0020], LifecycleState::Unconfigured);
    assert_eq!(status[&0x0030], LifecycleState::Inactive);
    for id in [0x0010, 0x0020, 0x0030] {
        assert_eq!(bus.state_of(id), LifecycleState::Unconfigured);
    }

    bus.broken = true;
    assert!(orchestrator.emergency_stop(&mut bus).is_ok());
    assert_eq!(orchestrator.failed_joints(), vec![0x0010, 0x0020, 0x0030]);
    assert!(!orchestrator.is_ready());
}

#[test]
fn adding_a_joint_again_renews_its_proxy() {
    let mut bus = Bus::with_joints(&[0x0010, 0x0020]);
    let mut orchestrator = ArmOrchestrator::new();
    orchestrator.add_joint(0x0010);
    orchestrator.add_joint(0x0020);
    assert!(orchestrator.configure_all(&mut bus).is_ok());
    orchestrator.add_joint(0x0010);
    assert_eq!(orchestrator.get_joint_ids(), vec![0x0010, 0x0020]);
    assert_eq!(orchestrator.get_joint(0x0010).unwrap().get_state(), LifecycleState::Unconfigured);
    assert_eq!(orchestrator.get_joint(0x0020).unwrap().get_state(), LifecycleState::Inactive);
}

#[test]
fn orchestrator_routes_incoming_messages() {
    let mut orchestrator = ArmOrchestrator::new();
    orchestrator.add_joint(0x0010);
    assert!(!orchestrator.process_incoming_message(reply(0x0010, 1, Payload::Ack(1))));
}

#[test]
fn client_brings_the_arm_up_and_down() {
    let mut bus = Bus::with_joints(&[0x0010, 0x0020]);
    let mut client = ArmClient::new();
    client.add_joint(0x0010);
    client.add_joint(0x0020);
    assert!(client.initialize(&mut bus).is_ok());
    assert!(client.is_ready());
    assert_eq!(client.get_joint(0x0020).unwrap().get_state(), LifecycleState::Active);
    assert_eq!(bus.state_of(0x0010), LifecycleState::Active);

    assert!(client.shutdown(&mut bus).is_ok());
    assert!(!client.is_ready());
    assert_eq!(client.get_system_status()[&0x0010], LifecycleState::Inactive);

    assert!(matches!(client.initialize(&mut bus), Err(ProtocolError::IoError(_))));
    assert_eq!(client.failed_joints(), vec![0x0010]);
    assert!(client.emergency_stop(&mut bus).is_ok());
    assert_eq!(client.failed_joints(), Vec::<u16>::new());
    assert!(client.initialize(&mut bus).is_ok());
    assert!(client.is_ready());
    assert_eq!(bus.discover_devices().unwrap().len(), 2);
    assert!(bus.is_connected());
}

#[test]
fn proxy_hands_the_link_one_request_per_command() {
    let mut bus = Bus::with_joints(&[0x0010]);
    let mut manager = CommunicationManager::new();
    let mut proxy = JointProxy::new(0x0010);

    assert!(proxy.configure(&mut manager, &mut bus).is_ok());
    assert!(proxy.activate(&mut manager, &mut bus).is_ok());
    assert!(proxy.set_target(&mut manager, &mut bus, 90.0f32.to_bits(), 10.0f32.to_bits()).is_ok());
    assert!(proxy.deactivate(&mut manager, &mut bus).is_ok());
    assert!(proxy.reset(&mut manager, &mut bus).is_ok());
    let expected = [
        Payload::Configure,
        Payload::Activate,
        Payload::SetTarget(irpc::SetTargetPayload {
            target_angle: 90.0f32.to_bits(),
            velocity_limit: 10.0f32.to_bits(),
        }),
        Payload::Deactivate,
        Payload::Reset,
    ];
    assert_eq!(bus.transmitted.len(), expected.len());
    for (n, payload) in expected.iter().enumerate() {
        assert_eq!(
            bus.transmitted[n],
            Message {
                header: Header { source_id: 0x0001, target_id: 0x0010, msg_id: n as u32 + 1 },
                payload: *payload,
            }
        );
    }
    assert_eq!(manager.next_message_id(), Some(6));
}

#[test]
fn proxy_reports_a_refused_request_with_its_identifier() {
    let mut bus = Bus::with_joints(&[0x0010]);
    bus.broken = true;
    let mut manager = CommunicationManager::new();
    let mut proxy = JointProxy::new(0x0010);
    assert!(matches!(proxy.configure(&mut manager, &mut bus), Err(ProtocolError::IoError(1))));
    assert!(matches!(proxy.activate(&mut manager, &mut bus), Err(ProtocolError::IoError(2))));
    assert!(matches!(proxy.deactivate(&mut manager, &mut bus), Err(ProtocolError::IoError(3))));
    assert!(matches!(proxy.reset(&mut manager, &mut bus), Err(ProtocolError::IoError(4))));
    assert!(matches!(
        proxy.set_target(&mut manager, &mut bus, 0, 0),
        Err(ProtocolError::IoError(5))
    ));
    assert_eq!(proxy.get_state(), LifecycleState::Unconfigured);
    assert_eq!(bus.polls, 0);
    assert_eq!(manager.now(), 0);
    assert_eq!(manager.registered_count(), 0);
    assert_eq!(manager.next_message_id(), Some(6));
}

#[test]
fn bulk_operations_hand_the_link_their_first_request() {
    let mut bus = Bus::with_joints(&[0x0010, 0x0020]);
    let mut orchestrator = ArmOrchestrator::new();
    assert!(orchestrator.activate_all(&mut bus).is_ok());
    assert!(orchestrator.is_ready());
    assert!(orchestrator.emergency_stop(&mut bus).is_ok());
    assert!(orchestrator.configure_all(&mut bus).is_ok());
    assert!(orchestrator.deactivate_all(&mut bus).is_ok());
    assert_eq!(bus.transmitted.len(), 0);
    assert_eq!(bus.polls, 0);

    orchestrator.add_joint(0x0020);
    orchestrator.add_joint(0x0010);
    let commands = [Payload::Configure, Payload::Activate, Payload::Deactivate, Payload::Reset];
    for (n, command) in commands.iter().enumerate() {
        let sent_before = bus.transmitted.len();
        let result = match n {
            0 => orchestrator.configure_all(&mut bus),
            1 => orchestrator.activate_all(&mut bus),
            2 => orchestrator.deactivate_all(&mut bus),
            _ => orchestrator.emergency_stop(&mut bus),
        };
        assert!(result.is_ok());
        assert_eq!(bus.transmitted.len(), sent_before + 2);
        assert_eq!(
            bus.transmitted[sent_before],
            Message {
                header: Header { source_id: 0x0001, target_id: 0x0020, msg_id: 2 * n as u32 + 1 },
                payload: *command,
            }
        );
        assert_eq!(bus.transmitted[sent_before + 1].header.target_id, 0x0010);
        assert_eq!(bus.transmitted[sent_before + 1].header.msg_id, 2 * n as u32 + 2);
    }
}

#[test]
fn a_refused_first_request_ends_a_fail_fast_operation_at_once() {
    let mut bus = Bus::with_joints(&[0x0010, 0x0020]);
    bus.broken = true;
    let mut orchestrator = ArmOrchestrator::new();
    orchestrator.add_joint(0x0010);
    orchestrator.add_joint(0x0020);
    assert!(matches!(orchestrator.configure_all(&mut bus), Err(ProtocolError::IoError(1))));
    assert_eq!(orchestrator.failed_joints(), vec![0x0010]);
    assert!(matches!(orchestrator.activate_all(&mut bus), Err(ProtocolError::IoError(2))));
    assert_eq!(orchestrator.failed_joints(), vec![0x0010]);
    assert_eq!(bus.polls, 0);
    let mut client = ArmClient::new();
    client.add_joint(0x0020);
    assert!(matches!(client.initialize(&mut bus), Err(ProtocolError::IoError(1))));
    assert_eq!(client.failed_joints(), vec![0x0020]);
    assert!(!client.is_ready());
}

#[test]
fn client_hands_messages_in_and_out() {
    let mut client = ArmClient::new();
    client.add_joint(0x0010);
    assert!(matches!(client.receive_async(), Ok(None)));
    let status = reply(0x0010, 0, Payload::JointStatus { state: LifecycleState::Active, error_code: 7 });
    let stray = reply(0x0010, 9, Payload::Ack(9));
    assert!(client.send_async(status).is_ok());
    assert!(client.send_async(stray).is_ok());
    assert!(matches!(client.receive_async(), Ok(Some(m)) if m == status));
    assert!(matches!(client.receive_async(), Ok(Some(m)) if m == stray));
    assert!(matches!(client.receive_async(), Ok(None)));

    let mut manager = CommunicationManager::new();
    assert_eq!(manager.next_unsolicited(), None);
    assert!(!manager.process_incoming(status));
    assert!(!manager.process_incoming(stray));
    assert_eq!(manager.next_unsolicited(), Some(status));
    assert_eq!(manager.take_unsolicited(), vec![stray]);
}

#[test]
fn orchestrator_settles_outcomes_that_a_caller_hands_in() {
    let mut orchestrator = ArmOrchestrator::new();
    orchestrator.add_joint(0x0010);
    orchestrator.add_joint(0x0020);
    assert!(ArmOrchestrator::stops_at_failure(&Payload::Configure));
    assert!(ArmOrchestrator::stops_at_failure(&Payload::Activate));
    assert!(!ArmOrchestrator::stops_at_failure(&Payload::Deactivate));
    assert!(!ArmOrchestrator::stops_at_failure(&Payload::Reset));

    orchestrator.begin_operation();
    let ack = |id: u16, msg_id: u32| Ok(reply(id, msg_id, Payload::Ack(msg_id)));
    assert!(orchestrator.settle(0x0010, &Payload::Activate, ack(0x0010, 1)).is_ok());
    assert!(orchestrator.settle(0x0020, &Payload::Activate, ack(0x0020, 2)).is_ok());
    orchestrator.end_operation(&Payload::Activate, true);
    assert!(orchestrator.is_ready());
    assert_eq!(orchestrator.get_joint(0x0020).unwrap().get_state(), LifecycleState::Active);
    assert_eq!(orchestrator.failed_joints(), Vec::<u16>::new());

    orchestrator.begin_operation();
    assert!(matches!(
        orchestrator.settle(0x0010, &Payload::Deactivate, Err(ProtocolError::Timeout)),
        Err(ProtocolError::Timeout)
    ));
    assert!(orchestrator.settle(0x0020, &Payload::Deactivate, ack(0x0020, 4)).is_ok());
    assert!(matches!(
        orchestrator.settle(0x0030, &Payload::Deactivate, ack(0x0030, 5)),
        Err(ProtocolError::InvalidMessage)
    ));
    orchestrator.end_operation(&Payload::Deactivate, false);
    assert!(!orchestrator.is_ready());
    assert_eq!(orchestrator.failed_joints(), vec![0x0010]);
    assert_eq!(orchestrator.get_joint(0x0010).unwrap().get_state(), LifecycleState::Active);
    assert_eq!(orchestrator.get_joint(0x0020).unwrap().get_state(), LifecycleState::Inactive);

    orchestrator.begin_operation();
    assert_eq!(orchestrator.failed_joints(), Vec::<u16>::new());
    orchestrator.end_operation(&Payload::Activate, false);
    assert!(!orchestrator.is_ready());
    orchestrator.end_operation(&Payload::Configure, true);
    assert!(!orchestrator.is_ready());
}
