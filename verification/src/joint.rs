//! The lifecycle state machine of a joint.
//!
//! A joint consumes one message at a time and answers each message that is
//! addressed to it with exactly one reply. The machine is a pure function of
//! its state and the message: [`Joint::handle_message`] is specified by
//! [`outcome`], [`next_state`] and [`reply_to`].

use vstd::prelude::*;
use crate::bus::{reception, EmbeddedTransport, TransportError, TransportLayer};
use crate::frame::encoding;
use crate::protocol::{DeviceId, Header, LifecycleState, Message, Payload};

verus! {

/// Refusal code: `Configure` outside `Unconfigured`.
pub const NACK_INVALID_STATE_FOR_CONFIGURE: u16 = 1;

/// Refusal code: `Activate` outside `Inactive`.
pub const NACK_INVALID_STATE_FOR_ACTIVATE: u16 = 2;

/// Refusal code: `Deactivate` outside `Active`.
pub const NACK_INVALID_STATE_FOR_DEACTIVATE: u16 = 3;

/// Refusal code: a motion target outside `Active`.
pub const NACK_INVALID_STATE_FOR_SET_TARGET: u16 = 4;

/// Refusal code: the payload is no command that a joint carries out in its
/// state. It answers every payload that is no command at all, and a
/// calibration command that comes in the wrong state.
pub const NACK_UNKNOWN_COMMAND: u16 = 255;

/// What a joint decides about a command.
#[derive(Clone, Copy, Debug, PartialEq, Eq, Structural)]
pub enum Outcome {
    /// The command is carried out and acknowledged.
    Accepted,
    /// The command is refused with this code; the state stays.
    Refused(u16),
}

/// The decision of a joint in `state` about `payload`.
pub open spec fn outcome(state: LifecycleState, payload: Payload) -> Outcome {
    match payload {
        Payload::Configure => if state == LifecycleState::Unconfigured {
            Outcome::Accepted
        } else {
            Outcome::Refused(NACK_INVALID_STATE_FOR_CONFIGURE)
        },
        Payload::Activate => if state == LifecycleState::Inactive {
            Outcome::Accepted
        } else {
            Outcome::Refused(NACK_INVALID_STATE_FOR_ACTIVATE)
        },
        Payload::Deactivate => if state == LifecycleState::Active {
            Outcome::Accepted
        } else {
            Outcome::Refused(NACK_INVALID_STATE_FOR_DEACTIVATE)
        },
        Payload::Reset => Outcome::Accepted,
        Payload::SetTarget(_) | Payload::SetTargetV2(_) => if state == LifecycleState::Active {
            Outcome::Accepted
        } else {
            Outcome::Refused(NACK_INVALID_STATE_FOR_SET_TARGET)
        },
        Payload::StartCalibration(_) => if state == LifecycleState::Active {
            Outcome::Accepted
        } else {
            Outcome::Refused(NACK_UNKNOWN_COMMAND)
        },
        Payload::StopCalibration => if state == LifecycleState::Calibrating {
            Outcome::Accepted
        } else {
            Outcome::Refused(NACK_UNKNOWN_COMMAND)
        },
        _ => Outcome::Refused(NACK_UNKNOWN_COMMAND),
    }
}

/// The state in which an accepted command leaves the joint.
pub open spec fn target_state(state: LifecycleState, payload: Payload) -> LifecycleState {
    match payload {
        Payload::Configure => LifecycleState::Inactive,
        Payload::Activate => LifecycleState::Active,
        Payload::Deactivate => LifecycleState::Inactive,
        Payload::Reset => LifecycleState::Unconfigured,
        Payload::StartCalibration(_) => LifecycleState::Calibrating,
        Payload::StopCalibration => LifecycleState::Active,
        _ => state,
    }
}

/// The state of a joint after it has handled `payload` in `state`.
pub open spec fn next_state(state: LifecycleState, payload: Payload) -> LifecycleState {
    if outcome(state, payload) == Outcome::Accepted {
        target_state(state, payload)
    } else {
        state
    }
}

/// The reply of joint `id`, in `state`, to `request`: source and target
/// swapped, the identifier repeated, and the decision as payload.
pub open spec fn reply_to(id: DeviceId, state: LifecycleState, request: Message) -> Message {
    Message {
        header: Header {
            source_id: id,
            target_id: request.header.source_id,
            msg_id: request.header.msg_id,
        },
        payload: match outcome(state, request.payload) {
            Outcome::Accepted => Payload::Ack(request.header.msg_id),
            Outcome::Refused(code) => Payload::Nack { id: request.header.msg_id, error: code },
        },
    }
}

/// The state in which the end of a calibration run leaves a joint: out of
/// `Calibrating` into `Active` on success and into `Error` on failure; any
/// other state stays.
pub open spec fn state_after_calibration(state: LifecycleState, success: bool) -> LifecycleState {
    if state == LifecycleState::Calibrating {
        if success {
            LifecycleState::Active
        } else {
            LifecycleState::Error
        }
    } else {
        state
    }
}

/// A joint: its address and its lifecycle state.
pub struct Joint {
    id: DeviceId,
    state: LifecycleState,
}

impl Joint {
    /// The address of the joint.
    pub closed spec fn spec_id(&self) -> DeviceId {
        self.id
    }

    /// The lifecycle state of the joint.
    pub closed spec fn spec_state(&self) -> LifecycleState {
        self.state
    }

    /// A joint with address `id` in the `Unconfigured` state.
    pub fn new(id: DeviceId) -> (joint: Self)
        ensures
            joint.id() == id,
            joint.state() == LifecycleState::Unconfigured,
    {
        Joint { id, state: LifecycleState::Unconfigured }
    }

    /// The lifecycle state of the joint.
    #[verifier::when_used_as_spec(spec_state)]
    pub fn state(&self) -> (state: LifecycleState)
        ensures
            state == self.spec_state(),
    {
        self.state
    }

    /// The address of the joint.
    #[verifier::when_used_as_spec(spec_id)]
    pub fn id(&self) -> (id: DeviceId)
        ensures
            id == self.spec_id(),
    {
        self.id
    }

    /// Handles one incoming message.
    ///
    /// A message for another address is ignored: no reply, no change. That
    /// holds for the broadcast address too, since no command is carried out
    /// on a broadcast. A message for this joint is decided by [`outcome`];
    /// the joint moves to [`next_state`] and answers with [`reply_to`].
    pub fn handle_message(&mut self, msg: &Message) -> (reply: Option<Message>)
        ensures
            final(self).id() == old(self).id(),
            msg.header.target_id != old(self).id() ==> reply is None && final(self).state() == old(
                self,
            ).state(),
            msg.header.target_id == old(self).id() ==> reply == Some(
                reply_to(old(self).id(), old(self).state(), *msg),
            ) && final(self).state() == next_state(old(self).state(), msg.payload),
    {
        if msg.header.target_id != self.id {
            return None;
        }
        let request_id = msg.header.msg_id;
        let decision = match msg.payload {
            Payload::Configure => match self.state {
                LifecycleState::Unconfigured => {
                    self.state = LifecycleState::Inactive;
                    Outcome::Accepted
                },
                _ => Outcome::Refused(NACK_INVALID_STATE_FOR_CONFIGURE),
            },
            Payload::Activate => match self.state {
                LifecycleState::Inactive => {
                    self.state = LifecycleState::Active;
                    Outcome::Accepted
                },
                _ => Outcome::Refused(NACK_INVALID_STATE_FOR_ACTIVATE),
            },
            Payload::Deactivate => match self.state {
                LifecycleState::Active => {
                    self.state = LifecycleState::Inactive;
                    Outcome::Accepted
                },
                _ => Outcome::Refused(NACK_INVALID_STATE_FOR_DEACTIVATE),
            },
            Payload::Reset => {
                self.state = LifecycleState::Unconfigured;
                Outcome::Accepted
            },
            Payload::SetTarget(_) | Payload::SetTargetV2(_) => match self.state {
                LifecycleState::Active => Outcome::Accepted,
                _ => Outcome::Refused(NACK_INVALID_STATE_FOR_SET_TARGET),
            },
            Payload::StartCalibration(_) => match self.state {
                LifecycleState::Active => {
                    self.state = LifecycleState::Calibrating;
                    Outcome::Accepted
                },
                _ => Outcome::Refused(NACK_UNKNOWN_COMMAND),
            },
            Payload::StopCalibration => match self.state {
                LifecycleState::Calibrating => {
                    self.state = LifecycleState::Active;
                    Outcome::Accepted
                },
                _ => Outcome::Refused(NACK_UNKNOWN_COMMAND),
            },
            _ => Outcome::Refused(NACK_UNKNOWN_COMMAND),
        };
        let payload = match decision {
            Outcome::Accepted => Payload::Ack(request_id),
            Outcome::Refused(code) => Payload::Nack { id: request_id, error: code },
        };
        Some(
            Message {
                header: Header {
                    source_id: self.id,
                    target_id: msg.header.source_id,
                    msg_id: request_id,
                },
                payload,
            },
        )
    }

    /// Records the end of a calibration run, which the calibration routine
    /// reports from outside the state machine. Returns whether the joint was
    /// calibrating.
    pub fn finish_calibration(&mut self, success: bool) -> (was_calibrating: bool)
        ensures
            final(self).id() == old(self).id(),
            was_calibrating == (old(self).state() == LifecycleState::Calibrating),
            final(self).state() == state_after_calibration(old(self).state(), success),
    {
        match self.state {
            LifecycleState::Calibrating => {
                self.state = if success {
                    LifecycleState::Active
                } else {
                    LifecycleState::Error
                };
                true
            },
            _ => false,
        }
    }
}

/// Whether a joint with address `id` may be in state `after` once it has
/// polled its transport in state `before`: either nothing was handled and
/// the state stayed, or one message for this joint was.
pub open spec fn one_poll(id: DeviceId, before: LifecycleState, after: LifecycleState) -> bool {
    after == before || exists|message: Message| #[trigger]
        message.header.target_id == id && after == next_state(before, message.payload)
}

/// The reply of joint `id`, in `state`, to what its transport received:
/// the reply to a message for this joint, and none otherwise.
pub open spec fn reply_for(
    id: DeviceId,
    state: LifecycleState,
    received: Option<Message>,
) -> Option<Message> {
    match received {
        Some(message) => if message.header.target_id == id {
            Some(reply_to(id, state, message))
        } else {
            None
        },
        None => None,
    }
}

/// The state of joint `id`, in `state` before, after what its transport
/// received.
pub open spec fn state_after(
    id: DeviceId,
    state: LifecycleState,
    received: Option<Message>,
) -> LifecycleState {
    match received {
        Some(message) => if message.header.target_id == id {
            next_state(state, message.payload)
        } else {
            state
        },
        None => state,
    }
}

/// What `process_transport` returns once the reply is on its way: `true`
/// where the link took it, and the link's error otherwise.
pub open spec fn answered<E>(outcome: Result<(), E>) -> Result<bool, TransportError<E>> {
    match outcome {
        Ok(_) => Ok(true),
        Err(e) => Err(TransportError::TransportError(e)),
    }
}

impl Joint {
    /// What `process_transport` does with what its transport received: the
    /// message, if there is one, is handled, and the reply, if there is
    /// one, is what the caller has to send.
    pub fn handle_received(&mut self, received: Option<Message>) -> (reply: Option<Message>)
        ensures
            final(self).id() == old(self).id(),
            reply == reply_for(old(self).id(), old(self).state(), received),
            final(self).state() == state_after(old(self).id(), old(self).state(), received),
    {
        match received {
            Some(message) => self.handle_message(&message),
            None => None,
        }
    }

    /// Polls the transport once: receives a message, handles it, and sends
    /// the reply. Returns whether a message for this joint was handled and
    /// answered.
    ///
    /// The link is polled once. Where that fails, or the frame is no
    /// message, the error comes back and the joint stays as it is. A
    /// message is handled as [`state_after`] and [`reply_for`] say. Where
    /// there is a reply, the link is handed its encoding, once, and the
    /// result is what [`answered`] makes of what the link said: when
    /// sending fails, the message has been handled all the same.
    pub fn process_transport<T: EmbeddedTransport>(
        &mut self,
        transport: &mut TransportLayer<T>,
    ) -> (r: Result<bool, TransportError<T::Error>>)
        ensures
            final(self).id() == old(self).id(),
            one_poll(old(self).id(), old(self).state(), final(self).state()),
            exists|link: &mut T, outcome: Result<Option<&[u8]>, T::Error>|
                {
                    &&& *link == old(transport).link()
                    &&& #[trigger] call_ensures(T::receive_blocking, (link,), outcome)
                    &&& match reception(outcome) {
                        Err(e) => {
                            &&& r == Err::<bool, TransportError<T::Error>>(e)
                            &&& final(self).state() == old(self).state()
                            &&& final(transport).link() == *final(link)
                        },
                        Ok(received) => {
                            &&& final(self).state() == state_after(
                                old(self).id(),
                                old(self).state(),
                                received,
                            )
                            &&& match reply_for(old(self).id(), old(self).state(), received) {
                                None => {
                                    &&& r == Ok::<bool, TransportError<T::Error>>(false)
                                    &&& final(transport).link() == *final(link)
                                },
                                Some(reply) => exists|
                                    back: &mut T,
                                    data: &[u8],
                                    sent: Result<(), T::Error>,
                                |
                                    {
                                        &&& *back == *final(link)
                                        &&& *final(back) == final(transport).link()
                                        &&& data@ == encoding(reply)
                                        &&& #[trigger] call_ensures(
                                            T::send_blocking,
                                            (back, data),
                                            sent,
                                        )
                                        &&& r == answered(sent)
                                    },
                            }
                        },
                    }
                },
    {
        let received = match transport.receive_message() {
            Ok(received) => received,
            Err(e) => {
                return Err(e);
            },
        };
        match self.handle_received(received) {
            Some(response) => match transport.send_message(&response) {
                Ok(_) => Ok(true),
                Err(e) => Err(e),
            },
            None => Ok(false),
        }
    }

    /// Polls the transport once: receives a message and handles it. The
    /// reply is returned, not sent.
    ///
    /// The link is polled once. Where that fails, or the frame is no
    /// message, the error comes back and the joint stays as it is;
    /// otherwise the message is handled as [`state_after`] and
    /// [`reply_for`] say.
    pub fn receive_and_handle<T: EmbeddedTransport>(
        &mut self,
        transport: &mut TransportLayer<T>,
    ) -> (r: Result<Option<Message>, TransportError<T::Error>>)
        ensures
            final(self).id() == old(self).id(),
            one_poll(old(self).id(), old(self).state(), final(self).state()),
            exists|link: &mut T, outcome: Result<Option<&[u8]>, T::Error>|
                {
                    &&& *link == old(transport).link()
                    &&& *final(link) == final(transport).link()
                    &&& #[trigger] call_ensures(T::receive_blocking, (link,), outcome)
                    &&& match reception(outcome) {
                        Err(e) => {
                            &&& r == Err::<Option<Message>, TransportError<T::Error>>(e)
                            &&& final(self).state() == old(self).state()
                        },
                        Ok(received) => {
                            &&& r == Ok::<Option<Message>, TransportError<T::Error>>(
                                reply_for(old(self).id(), old(self).state(), received),
                            )
                            &&& final(self).state() == state_after(
                                old(self).id(),
                                old(self).state(),
                                received,
                            )
                        },
                    }
                },
    {
        match transport.receive_message() {
            Ok(received) => Ok(self.handle_received(received)),
            Err(e) => Err(e),
        }
    }
}

/// Every pair of state and payload has an outcome: the command is accepted,
/// or it is refused with one of the five refusal codes. The reply to a
/// message repeats its identifier and goes back to its sender.
pub proof fn lemma_every_pair_is_answered(id: DeviceId, state: LifecycleState, request: Message)
    ensures
        match outcome(state, request.payload) {
            Outcome::Accepted => reply_to(id, state, request).payload == Payload::Ack(
                request.header.msg_id,
            ),
            Outcome::Refused(code) => {
                &&& reply_to(id, state, request).payload == (Payload::Nack {
                    id: request.header.msg_id,
                    error: code,
                })
                &&& next_state(state, request.payload) == state
                &&& (code == NACK_INVALID_STATE_FOR_CONFIGURE || code
                    == NACK_INVALID_STATE_FOR_ACTIVATE || code == NACK_INVALID_STATE_FOR_DEACTIVATE
                    || code == NACK_INVALID_STATE_FOR_SET_TARGET || code == NACK_UNKNOWN_COMMAND)
            },
        },
        reply_to(id, state, request).header.source_id == id,
        reply_to(id, state, request).header.target_id == request.header.source_id,
        reply_to(id, state, request).header.msg_id == request.header.msg_id,
{
}

/// `Configure` is accepted in `Unconfigured` only, `Activate` in `Inactive`
/// only, `Deactivate` in `Active` only, and `Reset` in every state; each
/// accepted command leads to the state it names.
pub proof fn lemma_legal_transitions(state: LifecycleState)
    ensures
        outcome(state, Payload::Configure) == Outcome::Accepted <==> state
            == LifecycleState::Unconfigured,
        outcome(state, Payload::Activate) == Outcome::Accepted <==> state
            == LifecycleState::Inactive,
        outcome(state, Payload::Deactivate) == Outcome::Accepted <==> state
            == LifecycleState::Active,
        outcome(state, Payload::Reset) == Outcome::Accepted,
        next_state(LifecycleState::Unconfigured, Payload::Configure) == LifecycleState::Inactive,
        next_state(LifecycleState::Inactive, Payload::Activate) == LifecycleState::Active,
        next_state(LifecycleState::Active, Payload::Deactivate) == LifecycleState::Inactive,
        next_state(state, Payload::Reset) == LifecycleState::Unconfigured,
{
}

/// A motion target is accepted in `Active` only and never changes the state;
/// a calibration starts in `Active` only and stops in `Calibrating` only.
pub proof fn lemma_motion_and_calibration(state: LifecycleState, payload: Payload)
    ensures
        payload is SetTarget || payload is SetTargetV2 ==> {
            &&& outcome(state, payload) == Outcome::Accepted <==> state == LifecycleState::Active
            &&& next_state(state, payload) == state
        },
        payload is StartCalibration ==> {
            &&& outcome(state, payload) == Outcome::Accepted <==> state == LifecycleState::Active
            &&& next_state(LifecycleState::Active, payload) == LifecycleState::Calibrating
        },
        payload is StopCalibration ==> {
            &&& outcome(state, payload) == Outcome::Accepted <==> state
                == LifecycleState::Calibrating
            &&& next_state(LifecycleState::Calibrating, payload) == LifecycleState::Active
        },
{
}

} // verus!
