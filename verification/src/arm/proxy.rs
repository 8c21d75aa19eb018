//! The host's proxy of one joint.
//!
//! A proxy sends the lifecycle commands of its joint and remembers the
//! state in which the last acknowledged command left the joint. The cache
//! follows acknowledgements only: a refused command, a timeout or a failure
//! of the link leaves it as it was.

use vstd::prelude::*;
use crate::arm::correlator::{saturating_sum, CommunicationManager, DEFAULT_TIMEOUT};
use crate::bus::CommunicationAdapter;
use crate::protocol::{
    DeviceId, Ieee32, LifecycleState, Message, Payload, ProtocolError, SetTargetPayload,
};

verus! {

/// What the end of a request means to the caller of a command: an
/// acknowledgement is success, a refusal is `IoError` with the identifier
/// that the refusal names, any other reply is `InvalidMessage`, and a
/// request that ended without a reply keeps its error.
pub open spec fn verdict(outcome: Result<Message, ProtocolError>) -> Result<(), ProtocolError> {
    match outcome {
        Ok(reply) => match reply.payload {
            Payload::Ack(_) => Ok(()),
            Payload::Nack { id, .. } => Err(ProtocolError::IoError(id)),
            _ => Err(ProtocolError::InvalidMessage),
        },
        Err(e) => Err(e),
    }
}

/// The state in which an acknowledged `command` leaves a joint whose cached
/// state is `cached`.
pub open spec fn state_on_ack(command: Payload, cached: LifecycleState) -> LifecycleState {
    match command {
        Payload::Configure => LifecycleState::Inactive,
        Payload::Activate => LifecycleState::Active,
        Payload::Deactivate => LifecycleState::Inactive,
        Payload::Reset => LifecycleState::Unconfigured,
        _ => cached,
    }
}

/// The cached state after `command` ended with `outcome`.
pub open spec fn cached_after(
    command: Payload,
    cached: LifecycleState,
    outcome: Result<Message, ProtocolError>,
) -> LifecycleState {
    if verdict(outcome) is Ok {
        state_on_ack(command, cached)
    } else {
        cached
    }
}

/// Whether the link handed out an acknowledgement under the identifier
/// `id`: some poll of the link returned a message with that identifier
/// whose payload is `Ack`.
pub open spec fn acknowledged<A: CommunicationAdapter>(id: int) -> bool {
    exists|at: &mut A, reply: Message|
        {
            &&& #[trigger] call_ensures(
                A::receive,
                (at,),
                Ok::<Option<Message>, A::Error>(Some(reply)),
            )
            &&& reply.header.msg_id == id
            &&& reply.payload is Ack
        }
}

/// Whether the link handed out an acknowledgement under each of the `n`
/// identifiers from `first` on.
pub open spec fn all_acknowledged<A: CommunicationAdapter>(first: int, n: int) -> bool {
    forall|id: int| first <= id < first + n ==> #[trigger] acknowledged::<A>(id)
}

/// The proxy of one joint: its address and its last known state.
#[derive(Clone, Copy, Debug, PartialEq, Eq, Structural)]
pub struct JointProxy {
    joint_id: DeviceId,
    current_state: LifecycleState,
}

impl JointProxy {
    /// The address of the joint.
    pub closed spec fn spec_id(&self) -> DeviceId {
        self.joint_id
    }

    /// The last known state of the joint.
    pub closed spec fn spec_state(&self) -> LifecycleState {
        self.current_state
    }

    /// The proxy that `new` makes.
    pub closed spec fn new_spec(joint_id: DeviceId) -> JointProxy {
        JointProxy { joint_id, current_state: LifecycleState::Unconfigured }
    }

    /// The proxy of the joint with address `joint_id`, taken to be
    /// `Unconfigured`.
    pub fn new(joint_id: DeviceId) -> (proxy: Self)
        ensures
            proxy == JointProxy::new_spec(joint_id),
            proxy.id() == joint_id,
            proxy.get_state() == LifecycleState::Unconfigured,
    {
        JointProxy { joint_id, current_state: LifecycleState::Unconfigured }
    }

    /// The last known state of the joint.
    #[verifier::when_used_as_spec(spec_state)]
    pub fn get_state(&self) -> (state: LifecycleState)
        ensures
            state == self.spec_state(),
    {
        self.current_state
    }

    /// The address of the joint.
    #[verifier::when_used_as_spec(spec_id)]
    pub fn id(&self) -> (id: DeviceId)
        ensures
            id == self.spec_id(),
    {
        self.joint_id
    }

    /// Takes in how the request that carried `command` ended: says what
    /// that means to the caller, and moves the cached state where the
    /// command was acknowledged.
    pub fn settle(&mut self, command: &Payload, outcome: Result<Message, ProtocolError>) -> (r:
        Result<(), ProtocolError>)
        ensures
            r == verdict(outcome),
            final(self).id() == old(self).id(),
            final(self).get_state() == cached_after(*command, old(self).get_state(), outcome),
    {
        let reply = match outcome {
            Ok(reply) => reply,
            Err(e) => {
                return Err(e);
            },
        };
        match reply.payload {
            Payload::Ack(_) => {
                match command {
                    Payload::Configure => {
                        self.current_state = LifecycleState::Inactive;
                    },
                    Payload::Activate => {
                        self.current_state = LifecycleState::Active;
                    },
                    Payload::Deactivate => {
                        self.current_state = LifecycleState::Inactive;
                    },
                    Payload::Reset => {
                        self.current_state = LifecycleState::Unconfigured;
                    },
                    _ => {},
                }
                Ok(())
            },
            Payload::Nack { id, .. } => Err(ProtocolError::IoError(id)),
            _ => Err(ProtocolError::InvalidMessage),
        }
    }

    /// Sends `command` to the joint, waits for the reply, and settles it.
    ///
    /// The link is first handed the request that the correlator makes of
    /// the command, under the next identifier; where it refuses the
    /// request, the result is `IoError` with that identifier. Success means
    /// that the link handed out an acknowledgement under that identifier;
    /// the cached state is then the one that the acknowledged command leads
    /// to, and on failure it is unchanged. The correlator has used one identifier,
    /// keeps its other requests and has no slot left of this one. Without
    /// an identifier left, nothing is sent and nothing changes.
    pub fn command<A: CommunicationAdapter>(
        &mut self,
        manager: &mut CommunicationManager,
        link: &mut A,
        command: Payload,
    ) -> (r: Result<(), ProtocolError>)
        requires
            old(manager)@.wf(),
        ensures
            final(manager)@.wf(),
            final(manager)@.slots.dom() == old(manager)@.slots.dom(),
            final(self).id() == old(self).id(),
            r is Ok ==> final(self).get_state() == state_on_ack(command, old(self).get_state()),
            r is Err ==> final(self).get_state() == old(self).get_state(),
            r matches Err(e) ==> e is Timeout || e is IoError || e is InvalidMessage,
            r is Ok ==> acknowledged::<A>(old(manager)@.counter as int),
            old(manager)@.clock <= final(manager)@.clock <= saturating_sum(
                old(manager)@.clock,
                DEFAULT_TIMEOUT,
            ),
            !old(manager)@.has_id() ==> {
                &&& r == Err::<(), ProtocolError>(ProtocolError::InvalidMessage)
                &&& final(manager)@ == old(manager)@
                &&& *final(link) == *old(link)
            },
            old(manager)@.has_id() ==> final(manager)@.counter == old(manager)@.counter + 1,
            old(manager)@.has_id() ==> exists|first: &mut A, sent: Result<(), A::Error>|
                {
                    &&& *first == *old(link)
                    &&& #[trigger] call_ensures(
                        A::transmit,
                        (first, &old(manager)@.request(old(self).id(), command)),
                        sent,
                    )
                    &&& sent is Err ==> {
                        &&& r == Err::<(), ProtocolError>(
                            ProtocolError::IoError(old(manager)@.counter),
                        )
                        &&& *final(link) == *final(first)
                        &&& final(manager)@ == old(manager)@.allocate()
                    }
                },
    {
        let outcome = manager.send_and_wait(link, self.joint_id, command);
        self.settle(&command, outcome)
    }

    /// Configures the joint: `Unconfigured -> Inactive`.
    ///
    /// Sends `Configure` as [`Self::command`] does: one request, one identifier,
    /// and the cached state moves on an acknowledgement only.
    pub fn configure<A: CommunicationAdapter>(
        &mut self,
        manager: &mut CommunicationManager,
        link: &mut A,
    ) -> (r: Result<(), ProtocolError>)
        requires
            old(manager)@.wf(),
        ensures
            final(manager)@.wf(),
            final(manager)@.slots.dom() == old(manager)@.slots.dom(),
            final(self).id() == old(self).id(),
            r is Ok ==> final(self).get_state() == LifecycleState::Inactive,
            r is Err ==> final(self).get_state() == old(self).get_state(),
            r matches Err(e) ==> e is Timeout || e is IoError || e is InvalidMessage,
            r is Ok ==> acknowledged::<A>(old(manager)@.counter as int),
            old(manager)@.clock <= final(manager)@.clock <= saturating_sum(
                old(manager)@.clock,
                DEFAULT_TIMEOUT,
            ),
            !old(manager)@.has_id() ==> {
                &&& r == Err::<(), ProtocolError>(ProtocolError::InvalidMessage)
                &&& final(manager)@ == old(manager)@
                &&& *final(link) == *old(link)
            },
            old(manager)@.has_id() ==> final(manager)@.counter == old(manager)@.counter + 1,
            old(manager)@.has_id() ==> exists|first: &mut A, sent: Result<(), A::Error>|
                {
                    &&& *first == *old(link)
                    &&& #[trigger] call_ensures(
                        A::transmit,
                        (first, &old(manager)@.request(old(self).id(), Payload::Configure)),
                        sent,
                    )
                    &&& sent is Err ==> {
                        &&& r == Err::<(), ProtocolError>(
                            ProtocolError::IoError(old(manager)@.counter),
                        )
                        &&& *final(link) == *final(first)
                        &&& final(manager)@ == old(manager)@.allocate()
                    }
                },
    {
        self.command(manager, link, Payload::Configure)
    }

    /// Activates the joint: `Inactive -> Active`.
    ///
    /// Sends `Activate` as [`Self::command`] does: one request, one identifier,
    /// and the cached state moves on an acknowledgement only.
    pub fn activate<A: CommunicationAdapter>(
        &mut self,
        manager: &mut CommunicationManager,
        link: &mut A,
    ) -> (r: Result<(), ProtocolError>)
        requires
            old(manager)@.wf(),
        ensures
            final(manager)@.wf(),
            final(manager)@.slots.dom() == old(manager)@.slots.dom(),
            final(self).id() == old(self).id(),
            r is Ok ==> final(self).get_state() == LifecycleState::Active,
            r is Err ==> final(self).get_state() == old(self).get_state(),
            r matches Err(e) ==> e is Timeout || e is IoError || e is InvalidMessage,
            r is Ok ==> acknowledged::<A>(old(manager)@.counter as int),
            old(manager)@.clock <= final(manager)@.clock <= saturating_sum(
                old(manager)@.clock,
                DEFAULT_TIMEOUT,
            ),
            !old(manager)@.has_id() ==> {
                &&& r == Err::<(), ProtocolError>(ProtocolError::InvalidMessage)
                &&& final(manager)@ == old(manager)@
                &&& *final(link) == *old(link)
            },
            old(manager)@.has_id() ==> final(manager)@.counter == old(manager)@.counter + 1,
            old(manager)@.has_id() ==> exists|first: &mut A, sent: Result<(), A::Error>|
                {
                    &&& *first == *old(link)
                    &&& #[trigger] call_ensures(
                        A::transmit,
                        (first, &old(manager)@.request(old(self).id(), Payload::Activate)),
                        sent,
                    )
                    &&& sent is Err ==> {
                        &&& r == Err::<(), ProtocolError>(
                            ProtocolError::IoError(old(manager)@.counter),
                        )
                        &&& *final(link) == *final(first)
                        &&& final(manager)@ == old(manager)@.allocate()
                    }
                },
    {
        self.command(manager, link, Payload::Activate)
    }

    /// Deactivates the joint: `Active -> Inactive`.
    ///
    /// Sends `Deactivate` as [`Self::command`] does: one request, one identifier,
    /// and the cached state moves on an acknowledgement only.
    pub fn deactivate<A: CommunicationAdapter>(
        &mut self,
        manager: &mut CommunicationManager,
        link: &mut A,
    ) -> (r: Result<(), ProtocolError>)
        requires
            old(manager)@.wf(),
        ensures
            final(manager)@.wf(),
            final(manager)@.slots.dom() == old(manager)@.slots.dom(),
            final(self).id() == old(self).id(),
            r is Ok ==> final(self).get_state() == LifecycleState::Inactive,
            r is Err ==> final(self).get_state() == old(self).get_state(),
            r matches Err(e) ==> e is Timeout || e is IoError || e is InvalidMessage,
            r is Ok ==> acknowledged::<A>(old(manager)@.counter as int),
            old(manager)@.clock <= final(manager)@.clock <= saturating_sum(
                old(manager)@.clock,
                DEFAULT_TIMEOUT,
            ),
            !old(manager)@.has_id() ==> {
                &&& r == Err::<(), ProtocolError>(ProtocolError::InvalidMessage)
                &&& final(manager)@ == old(manager)@
                &&& *final(link) == *old(link)
            },
            old(manager)@.has_id() ==> final(manager)@.counter == old(manager)@.counter + 1,
            old(manager)@.has_id() ==> exists|first: &mut A, sent: Result<(), A::Error>|
                {
                    &&& *first == *old(link)
                    &&& #[trigger] call_ensures(
                        A::transmit,
                        (first, &old(manager)@.request(old(self).id(), Payload::Deactivate)),
                        sent,
                    )
                    &&& sent is Err ==> {
                        &&& r == Err::<(), ProtocolError>(
                            ProtocolError::IoError(old(manager)@.counter),
                        )
                        &&& *final(link) == *final(first)
                        &&& final(manager)@ == old(manager)@.allocate()
                    }
                },
    {
        self.command(manager, link, Payload::Deactivate)
    }

    /// Resets the joint: to `Unconfigured` from any state.
    ///
    /// Sends `Reset` as [`Self::command`] does: one request, one identifier,
    /// and the cached state moves on an acknowledgement only.
    pub fn reset<A: CommunicationAdapter>(
        &mut self,
        manager: &mut CommunicationManager,
        link: &mut A,
    ) -> (r: Result<(), ProtocolError>)
        requires
            old(manager)@.wf(),
        ensures
            final(manager)@.wf(),
            final(manager)@.slots.dom() == old(manager)@.slots.dom(),
            final(self).id() == old(self).id(),
            r is Ok ==> final(self).get_state() == LifecycleState::Unconfigured,
            r is Err ==> final(self).get_state() == old(self).get_state(),
            r matches Err(e) ==> e is Timeout || e is IoError || e is InvalidMessage,
            r is Ok ==> acknowledged::<A>(old(manager)@.counter as int),
            old(manager)@.clock <= final(manager)@.clock <= saturating_sum(
                old(manager)@.clock,
                DEFAULT_TIMEOUT,
            ),
            !old(manager)@.has_id() ==> {
                &&& r == Err::<(), ProtocolError>(ProtocolError::InvalidMessage)
                &&& final(manager)@ == old(manager)@
                &&& *final(link) == *old(link)
            },
            old(manager)@.has_id() ==> final(manager)@.counter == old(manager)@.counter + 1,
            old(manager)@.has_id() ==> exists|first: &mut A, sent: Result<(), A::Error>|
                {
                    &&& *first == *old(link)
                    &&& #[trigger] call_ensures(
                        A::transmit,
                        (first, &old(manager)@.request(old(self).id(), Payload::Reset)),
                        sent,
                    )
                    &&& sent is Err ==> {
                        &&& r == Err::<(), ProtocolError>(
                            ProtocolError::IoError(old(manager)@.counter),
                        )
                        &&& *final(link) == *final(first)
                        &&& final(manager)@ == old(manager)@.allocate()
                    }
                },
    {
        self.command(manager, link, Payload::Reset)
    }

    /// Sends a motion target, which the joint accepts in `Active` only.
    /// The cached state stays as it is.
    ///
    /// Sends `SetTarget` with the two quantities as [`Self::command`] does:
    /// one request, one identifier.
    pub fn set_target<A: CommunicationAdapter>(
        &mut self,
        manager: &mut CommunicationManager,
        link: &mut A,
        target_angle: Ieee32,
        velocity_limit: Ieee32,
    ) -> (r: Result<(), ProtocolError>)
        requires
            old(manager)@.wf(),
        ensures
            final(manager)@.wf(),
            final(manager)@.slots.dom() == old(manager)@.slots.dom(),
            final(self).id() == old(self).id(),
            final(self).get_state() == old(self).get_state(),
            r matches Err(e) ==> e is Timeout || e is IoError || e is InvalidMessage,
            r is Ok ==> acknowledged::<A>(old(manager)@.counter as int),
            old(manager)@.clock <= final(manager)@.clock <= saturating_sum(
                old(manager)@.clock,
                DEFAULT_TIMEOUT,
            ),
            !old(manager)@.has_id() ==> {
                &&& r == Err::<(), ProtocolError>(ProtocolError::InvalidMessage)
                &&& final(manager)@ == old(manager)@
                &&& *final(link) == *old(link)
            },
            old(manager)@.has_id() ==> final(manager)@.counter == old(manager)@.counter + 1,
            old(manager)@.has_id() ==> exists|first: &mut A, sent: Result<(), A::Error>|
                {
                    &&& *first == *old(link)
                    &&& #[trigger] call_ensures(
                        A::transmit,
                        (
                            first,
                            &old(manager)@.request(
                                old(self).id(),
                                Payload::SetTarget(
                                    SetTargetPayload { target_angle, velocity_limit },
                                ),
                            ),
                        ),
                        sent,
                    )
                    &&& sent is Err ==> {
                        &&& r == Err::<(), ProtocolError>(
                            ProtocolError::IoError(old(manager)@.counter),
                        )
                        &&& *final(link) == *final(first)
                        &&& final(manager)@ == old(manager)@.allocate()
                    }
                },
    {
        self.command(
            manager,
            link,
            Payload::SetTarget(SetTargetPayload { target_angle, velocity_limit }),
        )
    }
}

} // verus!
