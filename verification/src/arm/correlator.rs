//! The request correlator.
//!
//! The correlator hands out message identifiers, keeps one slot for each
//! request that waits for its reply, matches incoming messages to slots, and
//! lets a request time out. At its core it is a state machine without a
//! transport and with a clock that only its caller moves:
//!
//! * `begin_request` registers a request and returns the message to
//!   transmit, `send_failed` ends a request whose message could not be
//!   transmitted;
//! * `process_incoming` takes in a message that has arrived;
//! * `advance` lets time pass;
//! * `poll` tells the waiter of a request how it stands, and releases the
//!   slot of a request that has ended.
//!
//! Each step takes the correlator by `&mut`, so no two steps overlap, and a
//! reply and a timeout that come together are decided by the order of the
//! steps. [`Correlation`] is the state as a mathematical value, with one
//! function for each step.
//!
//! `send_and_wait` and `send_fire_and_forget` put the steps together for a
//! caller that owns its link and waits by polling it.

use std::collections::HashMap;
use vstd::prelude::*;
use crate::bus::CommunicationAdapter;
use crate::config::ARM_DEVICE_ID;
use crate::protocol::{DeviceId, Header, Message, MessageId, Payload, ProtocolError};

verus! {

/// Time that a request waits for its reply unless the caller says
/// otherwise, in units of the correlator's clock.
pub const DEFAULT_TIMEOUT: u64 = 5;

/// The slot of one request.
#[derive(Clone, Copy, Debug, PartialEq, Eq, Structural)]
pub struct Slot {
    /// The device that was asked.
    pub target: DeviceId,
    /// The time from which on the request counts as timed out.
    pub deadline: u64,
    /// The reply, once it has arrived.
    pub reply: Option<Message>,
}

/// How a request stands.
#[derive(Clone, Copy, Debug, PartialEq, Eq, Structural)]
pub enum Wait {
    /// The reply has arrived.
    Reply(Message),
    /// No reply has arrived and the deadline has passed.
    TimedOut,
    /// No reply has arrived yet and the deadline has not passed.
    Waiting,
    /// No request with this identifier is registered.
    Unknown,
}

/// `a + b`, or the largest value where the sum does not fit.
pub open spec fn saturating_sum(a: u64, b: u64) -> u64 {
    if a + b > u64::MAX {
        u64::MAX
    } else {
        (a + b) as u64
    }
}

/// What `send_fire_and_forget` returns for what the link said about the
/// message with identifier `id`.
pub open spec fn forgetting<E>(id: MessageId, outcome: Result<(), E>) -> Result<
    (),
    ProtocolError,
> {
    match outcome {
        Ok(_) => Ok(()),
        Err(_) => Err(ProtocolError::IoError(id)),
    }
}

/// The state of a correlator.
pub struct Correlation {
    /// The identifier that the next request gets.
    pub counter: MessageId,
    /// The time.
    pub clock: u64,
    /// The slots of the registered requests, by identifier.
    pub slots: Map<MessageId, Slot>,
    /// The messages that answered no waiting request, oldest first.
    pub inbox: Seq<Message>,
}

impl Correlation {
    /// The state of a new correlator.
    pub open spec fn initial() -> Correlation {
        Correlation { counter: 1, clock: 0, slots: Map::empty(), inbox: Seq::empty() }
    }

    /// The invariant: identifiers start at 1, every registered identifier
    /// has been handed out, and a reply lies in the slot of the request that
    /// it answers.
    pub open spec fn wf(self) -> bool {
        &&& self.counter >= 1
        &&& self.slots.dom().finite()
        &&& forall|id: MessageId| #[trigger]
            self.slots.dom().contains(id) ==> id < self.counter && self.slot_is_sound(id)
    }

    /// Whether the reply in the slot of `id`, if there is one, answers `id`.
    pub open spec fn slot_is_sound(self, id: MessageId) -> bool {
        self.slots[id].reply matches Some(message) ==> message.header.msg_id == id
    }

    /// Whether another identifier can be handed out.
    pub open spec fn has_id(self) -> bool {
        self.counter < u32::MAX
    }

    /// Whether a request with this identifier is registered.
    pub open spec fn is_registered(self, id: MessageId) -> bool {
        self.slots.dom().contains(id)
    }

    /// Whether a request with this identifier waits for its reply.
    pub open spec fn is_pending(self, id: MessageId) -> bool {
        self.slots.dom().contains(id) && self.slots[id].reply is None
    }

    /// The message that the next request to `target` sends.
    pub open spec fn request(self, target: DeviceId, payload: Payload) -> Message {
        Message {
            header: Header { source_id: ARM_DEVICE_ID, target_id: target, msg_id: self.counter },
            payload,
        }
    }

    /// The state after an identifier was handed out.
    pub open spec fn allocate(self) -> Correlation {
        Correlation { counter: (self.counter + 1) as MessageId, ..self }
    }

    /// The state after a request to `target` was registered under the next
    /// identifier, to wait for `timeout` units of time.
    pub open spec fn register(self, target: DeviceId, timeout: u64) -> Correlation {
        Correlation {
            counter: (self.counter + 1) as MessageId,
            slots: self.slots.insert(
                self.counter,
                Slot { target, deadline: saturating_sum(self.clock, timeout), reply: None },
            ),
            ..self
        }
    }

    /// The state after the slot of `id` was released.
    pub open spec fn release(self, id: MessageId) -> Correlation {
        Correlation { slots: self.slots.remove(id), ..self }
    }

    /// The state after `message` arrived: the reply goes into the slot of
    /// the request that waits for it, and a message that no request waits
    /// for goes to the inbox.
    pub open spec fn deliver(self, message: Message) -> Correlation {
        let id = message.header.msg_id;
        if self.is_pending(id) {
            Correlation {
                slots: self.slots.insert(id, Slot { reply: Some(message), ..self.slots[id] }),
                ..self
            }
        } else {
            Correlation { inbox: self.inbox.push(message), ..self }
        }
    }

    /// The state after `by` units of time have passed.
    pub open spec fn advance(self, by: u64) -> Correlation {
        Correlation { clock: saturating_sum(self.clock, by), ..self }
    }

    /// The oldest message in the inbox.
    pub open spec fn oldest(self) -> Option<Message> {
        if self.inbox.len() == 0 {
            None
        } else {
            Some(self.inbox[0])
        }
    }

    /// The state after the oldest message was taken out of the inbox.
    pub open spec fn without_oldest(self) -> Correlation {
        if self.inbox.len() == 0 {
            self
        } else {
            Correlation { inbox: self.inbox.remove(0), ..self }
        }
    }

    /// How the request with identifier `id` stands.
    pub open spec fn status(self, id: MessageId) -> Wait {
        if !self.slots.dom().contains(id) {
            Wait::Unknown
        } else {
            match self.slots[id].reply {
                Some(message) => Wait::Reply(message),
                None => if self.clock >= self.slots[id].deadline {
                    Wait::TimedOut
                } else {
                    Wait::Waiting
                },
            }
        }
    }

    /// The state after the waiter of `id` has asked how its request stands:
    /// a request that has ended gives up its slot.
    pub open spec fn poll(self, id: MessageId) -> Correlation {
        if self.status(id) is Waiting {
            self
        } else {
            self.release(id)
        }
    }
}

/// The correlator.
pub struct CommunicationManager {
    message_id_counter: MessageId,
    clock: u64,
    pending_responses: HashMap<MessageId, Slot>,
    unsolicited: Vec<Message>,
}

impl View for CommunicationManager {
    type V = Correlation;

    closed spec fn view(&self) -> Correlation {
        Correlation {
            counter: self.message_id_counter,
            clock: self.clock,
            slots: self.pending_responses@,
            inbox: self.unsolicited@,
        }
    }
}

impl CommunicationManager {
    /// A correlator without requests, with its clock at zero; the first
    /// identifier is 1.
    pub fn new() -> (manager: Self)
        ensures
            manager@ == Correlation::initial(),
            manager@.wf(),
    {
        CommunicationManager {
            message_id_counter: 1,
            clock: 0,
            pending_responses: HashMap::new(),
            unsolicited: Vec::new(),
        }
    }

    /// Hands out the next identifier. Identifiers grow by one and are never
    /// handed out twice; `None` says that all of them are used up.
    pub fn next_message_id(&mut self) -> (r: Option<MessageId>)
        requires
            old(self)@.wf(),
        ensures
            final(self)@.wf(),
            match r {
                Some(id) => old(self)@.has_id() && id == old(self)@.counter && final(self)@ == old(
                    self,
                )@.allocate() && !old(self)@.is_registered(id),
                None => !old(self)@.has_id() && final(self)@ == old(self)@,
            },
    {
        if self.message_id_counter == u32::MAX {
            return None;
        }
        let id = self.message_id_counter;
        self.message_id_counter = id + 1;
        Some(id)
    }

    /// The time.
    pub fn now(&self) -> (clock: u64)
        ensures
            clock == self@.clock,
    {
        self.clock
    }

    /// Whether a request with identifier `id` waits for its reply.
    pub fn is_pending(&self, id: MessageId) -> (pending: bool)
        ensures
            pending == self@.is_pending(id),
    {
        match self.pending_responses.get(&id) {
            Some(slot) => slot.reply.is_none(),
            None => false,
        }
    }

    /// Number of registered requests.
    pub fn registered_count(&self) -> (count: usize)
        ensures
            count == self@.slots.dom().len(),
    {
        self.pending_responses.len()
    }

    /// Lets `by` units of time pass.
    pub fn advance(&mut self, by: u64)
        ensures
            final(self)@ == old(self)@.advance(by),
            old(self)@.wf() ==> final(self)@.wf(),
    {
        self.clock = if by > u64::MAX - self.clock {
            u64::MAX
        } else {
            self.clock + by
        };
    }

    /// First step of a request: hands out an identifier, registers a slot
    /// that waits for `timeout` units of time, and returns the message to
    /// transmit.
    ///
    /// Fails with `InvalidMessage`, and changes nothing, exactly when the
    /// identifiers are used up.
    pub fn begin_request(&mut self, target_id: DeviceId, payload: Payload, timeout: u64) -> (r:
        Result<Message, ProtocolError>)
        requires
            old(self)@.wf(),
        ensures
            final(self)@.wf(),
            match r {
                Ok(message) => {
                    &&& old(self)@.has_id()
                    &&& message == old(self)@.request(target_id, payload)
                    &&& final(self)@ == old(self)@.register(target_id, timeout)
                },
                Err(e) => {
                    &&& !old(self)@.has_id()
                    &&& e == ProtocolError::InvalidMessage
                    &&& final(self)@ == old(self)@
                },
            },
    {
        let msg_id = match self.next_message_id() {
            Some(id) => id,
            None => {
                return Err(ProtocolError::InvalidMessage);
            },
        };
        let deadline = if timeout > u64::MAX - self.clock {
            u64::MAX
        } else {
            self.clock + timeout
        };
        self.pending_responses.insert(msg_id, Slot { target: target_id, deadline, reply: None });
        Ok(
            Message {
                header: Header { source_id: ARM_DEVICE_ID, target_id, msg_id },
                payload,
            },
        )
    }

    /// The message of a request that expects no reply: an identifier is
    /// handed out and no slot is registered.
    ///
    /// Fails with `InvalidMessage`, and changes nothing, exactly when the
    /// identifiers are used up.
    pub fn begin_notification(&mut self, target_id: DeviceId, payload: Payload) -> (r: Result<
        Message,
        ProtocolError,
    >)
        requires
            old(self)@.wf(),
        ensures
            final(self)@.wf(),
            match r {
                Ok(message) => {
                    &&& old(self)@.has_id()
                    &&& message == old(self)@.request(target_id, payload)
                    &&& final(self)@ == old(self)@.allocate()
                },
                Err(e) => {
                    &&& !old(self)@.has_id()
                    &&& e == ProtocolError::InvalidMessage
                    &&& final(self)@ == old(self)@
                },
            },
    {
        match self.next_message_id() {
            Some(msg_id) => Ok(
                Message {
                    header: Header { source_id: ARM_DEVICE_ID, target_id, msg_id },
                    payload,
                },
            ),
            None => Err(ProtocolError::InvalidMessage),
        }
    }

    /// Ends the request `id` because its message could not be transmitted:
    /// the slot is released, and the error to report is `IoError(id)`.
    pub fn send_failed(&mut self, id: MessageId) -> (error: ProtocolError)
        requires
            old(self)@.wf(),
        ensures
            final(self)@.wf(),
            final(self)@ == old(self)@.release(id),
            error == ProtocolError::IoError(id),
    {
        self.pending_responses.remove(&id);
        ProtocolError::IoError(id)
    }

    /// Takes in a message that has arrived. Returns whether a request was
    /// waiting for it.
    ///
    /// The reply to a waiting request goes into the slot of that request
    /// and of no other. Any other message, also a second reply and a reply
    /// that comes after the timeout, is no error: it goes to the inbox.
    pub fn process_incoming(&mut self, message: Message) -> (matched: bool)
        requires
            old(self)@.wf(),
        ensures
            final(self)@.wf(),
            final(self)@ == old(self)@.deliver(message),
            matched == old(self)@.is_pending(message.header.msg_id),
    {
        let id = message.header.msg_id;
        let waiting = match self.pending_responses.get(&id) {
            Some(slot) => if slot.reply.is_none() {
                Some(*slot)
            } else {
                None
            },
            None => None,
        };
        match waiting {
            Some(slot) => {
                self.pending_responses.insert(
                    id,
                    Slot { target: slot.target, deadline: slot.deadline, reply: Some(message) },
                );
                true
            },
            None => {
                self.unsolicited.push(message);
                false
            },
        }
    }

    /// Says how the request `id` stands, and releases its slot unless it is
    /// still waiting. A request thus ends exactly once: with its reply, or
    /// with a timeout.
    pub fn poll(&mut self, id: MessageId) -> (status: Wait)
        requires
            old(self)@.wf(),
        ensures
            final(self)@.wf(),
            status == old(self)@.status(id),
            final(self)@ == old(self)@.poll(id),
    {
        let status = match self.pending_responses.get(&id) {
            None => Wait::Unknown,
            Some(slot) => match slot.reply {
                Some(message) => Wait::Reply(message),
                None => if self.clock >= slot.deadline {
                    Wait::TimedOut
                } else {
                    Wait::Waiting
                },
            },
        };
        match status {
            Wait::Waiting => {},
            _ => {
                self.pending_responses.remove(&id);
            },
        }
        status
    }

    /// What a request ends with, once it no longer waits: its reply, a
    /// timeout, or, where its slot is gone, `IoError` with its identifier.
    pub fn ended(id: MessageId, status: Wait) -> (r: Result<Message, ProtocolError>)
        requires
            !(status is Waiting),
        ensures
            match status {
                Wait::Reply(message) => r == Ok::<Message, ProtocolError>(message),
                Wait::TimedOut => r == Err::<Message, ProtocolError>(ProtocolError::Timeout),
                _ => r == Err::<Message, ProtocolError>(ProtocolError::IoError(id)),
            },
    {
        match status {
            Wait::Reply(message) => Ok(message),
            Wait::TimedOut => Err(ProtocolError::Timeout),
            _ => Err(ProtocolError::IoError(id)),
        }
    }

    /// Sends a request over `link` and waits for its reply, for at most
    /// `timeout` polls of the link; every poll counts as one unit of time.
    ///
    /// The link is first handed the request, once. Where it refuses it,
    /// the request ends with `IoError` at once and the link is not asked
    /// again. Otherwise the request ends in exactly one way: with a reply
    /// that the link handed out and that carries its identifier, with
    /// `Timeout`, or with `IoError` when the link fails. The clock moves
    /// only with a poll of the link, so a request does not time out before
    /// the link was asked. Without an identifier left nothing is sent at
    /// all.
    /// Its slot is released in each case. Messages for other requests that
    /// arrive meanwhile go to their slots, and the rest to the inbox; no
    /// other request is registered or dropped.
    pub fn send_and_wait_within<A: CommunicationAdapter>(
        &mut self,
        link: &mut A,
        target_id: DeviceId,
        payload: Payload,
        timeout: u64,
    ) -> (r: Result<Message, ProtocolError>)
        requires
            old(self)@.wf(),
        ensures
            final(self)@.wf(),
            final(self)@.slots.dom() == old(self)@.slots.dom(),
            old(self)@.has_id() ==> final(self)@.counter == old(self)@.counter + 1,
            !old(self)@.has_id() ==> final(self)@ == old(self)@ && r == Err::<
                Message,
                ProtocolError,
            >(ProtocolError::InvalidMessage),
            r matches Ok(reply) ==> reply.header.msg_id == old(self)@.counter,
            r matches Err(e) ==> e == ProtocolError::Timeout || e == ProtocolError::IoError(
                old(self)@.counter,
            ) || (e == ProtocolError::InvalidMessage && !old(self)@.has_id()),
            old(self)@.clock <= final(self)@.clock <= saturating_sum(old(self)@.clock, timeout),
            r matches Err(ProtocolError::Timeout) ==> final(self)@.clock == saturating_sum(
                old(self)@.clock,
                timeout,
            ),
            r matches Ok(reply) ==> exists|at: &mut A| #[trigger]
                call_ensures(A::receive, (at,), Ok::<Option<Message>, A::Error>(Some(reply))),
            final(self)@.clock > old(self)@.clock ==> exists|
                at: &mut A,
                got: Result<Option<Message>, A::Error>,
            | #[trigger] call_ensures(A::receive, (at,), got),
            !old(self)@.has_id() ==> *final(link) == *old(link),
            old(self)@.has_id() ==> exists|first: &mut A, sent: Result<(), A::Error>|
                {
                    &&& *first == *old(link)
                    &&& #[trigger] call_ensures(
                        A::transmit,
                        (first, &old(self)@.request(target_id, payload)),
                        sent,
                    )
                    &&& sent is Err ==> {
                        &&& r == Err::<Message, ProtocolError>(
                            ProtocolError::IoError(old(self)@.counter),
                        )
                        &&& *final(link) == *final(first)
                        &&& final(self)@ == old(self)@.allocate()
                    }
                },
    {
        let request = match self.begin_request(target_id, payload, timeout) {
            Ok(request) => request,
            Err(e) => {
                return Err(e);
            },
        };
        let id = request.header.msg_id;
        let ghost before = old(self)@;
        let ghost deadline = saturating_sum(before.clock, timeout);
        assert(self@.slots.remove(id) =~= before.slots);
        let sent = link.transmit(&request);
        if sent.is_err() {
            return Err(self.send_failed(id));
        }
        loop
            invariant
                exists|first: &mut A, sent: Result<(), A::Error>|
                    {
                        &&& *first == *old(link)
                        &&& #[trigger] call_ensures(A::transmit, (first, &request), sent)
                        &&& sent is Ok
                    },
                request == before.request(target_id, payload),
                self@.clock > before.clock ==> exists|
                    at: &mut A,
                    got: Result<Option<Message>, A::Error>,
                | #[trigger] call_ensures(A::receive, (at,), got),
                self@.slots[id].reply matches Some(reply) ==> exists|at: &mut A| #[trigger]
                    call_ensures(A::receive, (at,), Ok::<Option<Message>, A::Error>(Some(reply))),
                self@.wf(),
                before == old(self)@,
                before.wf(),
                before.has_id(),
                id == before.counter,
                self@.counter == before.counter + 1,
                self@.slots.dom() == before.slots.dom().insert(id),
                self@.slots[id].deadline == deadline,
                deadline == saturating_sum(before.clock, timeout),
                before.clock <= self@.clock <= deadline,
            decreases deadline - self@.clock,
        {
            let status = self.poll(id);
            match status {
                Wait::Waiting => {},
                _ => {
                    assert(self@.slots.dom() =~= before.slots.dom());
                    return Self::ended(id, status);
                },
            }
            match link.receive() {
                Ok(Some(message)) => {
                    let ghost dom = self@.slots.dom();
                    self.process_incoming(message);
                    assert(self@.slots.dom() =~= dom);
                },
                Ok(None) => {},
                Err(_) => {
                    assert(self@.slots.remove(id).dom() =~= before.slots.dom());
                    return Err(self.send_failed(id));
                },
            }
            self.advance(1);
        }
    }

    /// Sends a request over `link` and waits for its reply for the default
    /// time; see [`Self::send_and_wait_within`].
    pub fn send_and_wait<A: CommunicationAdapter>(
        &mut self,
        link: &mut A,
        target_id: DeviceId,
        payload: Payload,
    ) -> (r: Result<Message, ProtocolError>)
        requires
            old(self)@.wf(),
        ensures
            final(self)@.wf(),
            final(self)@.slots.dom() == old(self)@.slots.dom(),
            old(self)@.has_id() ==> final(self)@.counter == old(self)@.counter + 1,
            !old(self)@.has_id() ==> final(self)@ == old(self)@ && r == Err::<
                Message,
                ProtocolError,
            >(ProtocolError::InvalidMessage),
            r matches Ok(reply) ==> reply.header.msg_id == old(self)@.counter,
            r matches Err(e) ==> e == ProtocolError::Timeout || e == ProtocolError::IoError(
                old(self)@.counter,
            ) || (e == ProtocolError::InvalidMessage && !old(self)@.has_id()),
            old(self)@.clock <= final(self)@.clock <= saturating_sum(
                old(self)@.clock,
                DEFAULT_TIMEOUT,
            ),
            r matches Ok(reply) ==> exists|at: &mut A| #[trigger]
                call_ensures(A::receive, (at,), Ok::<Option<Message>, A::Error>(Some(reply))),
            final(self)@.clock > old(self)@.clock ==> exists|
                at: &mut A,
                got: Result<Option<Message>, A::Error>,
            | #[trigger] call_ensures(A::receive, (at,), got),
            !old(self)@.has_id() ==> *final(link) == *old(link),
            old(self)@.has_id() ==> exists|first: &mut A, sent: Result<(), A::Error>|
                {
                    &&& *first == *old(link)
                    &&& #[trigger] call_ensures(
                        A::transmit,
                        (first, &old(self)@.request(target_id, payload)),
                        sent,
                    )
                    &&& sent is Err ==> {
                        &&& r == Err::<Message, ProtocolError>(
                            ProtocolError::IoError(old(self)@.counter),
                        )
                        &&& *final(link) == *final(first)
                        &&& final(self)@ == old(self)@.allocate()
                    }
                },
    {
        self.send_and_wait_within(link, target_id, payload, DEFAULT_TIMEOUT)
    }

    /// What `send_fire_and_forget` returns for what the link said about
    /// the message with identifier `id`.
    pub fn forgotten<E>(id: MessageId, outcome: Result<(), E>) -> (r: Result<(), ProtocolError>)
        ensures
            r == forgetting(id, outcome),
    {
        match outcome {
            Ok(_) => Ok(()),
            Err(_) => Err(ProtocolError::IoError(id)),
        }
    }

    /// Sends a message over `link` that expects no reply: an identifier is
    /// used, no slot is registered, and the link is handed the message,
    /// once. Fails with `IoError` when the link does; see [`forgetting`].
    pub fn send_fire_and_forget<A: CommunicationAdapter>(
        &mut self,
        link: &mut A,
        target_id: DeviceId,
        payload: Payload,
    ) -> (r: Result<(), ProtocolError>)
        requires
            old(self)@.wf(),
        ensures
            final(self)@.wf(),
            old(self)@.has_id() ==> final(self)@ == old(self)@.allocate(),
            !old(self)@.has_id() ==> final(self)@ == old(self)@ && r == Err::<(), ProtocolError>(
                ProtocolError::InvalidMessage,
            ),
            r matches Err(e) ==> e == ProtocolError::IoError(old(self)@.counter) || (e
                == ProtocolError::InvalidMessage && !old(self)@.has_id()),
            !old(self)@.has_id() ==> *final(link) == *old(link),
            old(self)@.has_id() ==> exists|first: &mut A, sent: Result<(), A::Error>|
                {
                    &&& *first == *old(link)
                    &&& *final(first) == *final(link)
                    &&& #[trigger] call_ensures(
                        A::transmit,
                        (first, &old(self)@.request(target_id, payload)),
                        sent,
                    )
                    &&& r == forgetting(old(self)@.counter, sent)
                },
    {
        let message = match self.begin_notification(target_id, payload) {
            Ok(message) => message,
            Err(e) => {
                return Err(e);
            },
        };
        Self::forgotten(message.header.msg_id, link.transmit(&message))
    }

    /// Hands out the oldest message that answered no waiting request and
    /// takes it out of the inbox; `None` when the inbox is empty.
    pub fn next_unsolicited(&mut self) -> (message: Option<Message>)
        ensures
            message == old(self)@.oldest(),
            final(self)@ == old(self)@.without_oldest(),
            old(self)@.wf() ==> final(self)@.wf(),
    {
        if self.unsolicited.len() == 0 {
            None
        } else {
            Some(self.unsolicited.remove(0))
        }
    }

    /// Hands out the messages that answered no waiting request, oldest
    /// first, and empties the inbox.
    pub fn take_unsolicited(&mut self) -> (messages: Vec<Message>)
        ensures
            messages@ == old(self)@.inbox,
            final(self)@ == (Correlation { inbox: Seq::empty(), ..old(self)@ }),
            old(self)@.wf() ==> final(self)@.wf(),
    {
        let mut messages: Vec<Message> = Vec::new();
        std::mem::swap(&mut messages, &mut self.unsolicited);
        messages
    }
}

/// Every step keeps the invariant of the correlator.
pub proof fn lemma_steps_keep_invariant(
    c: Correlation,
    target: DeviceId,
    timeout: u64,
    message: Message,
    id: MessageId,
    by: u64,
)
    requires
        c.wf(),
    ensures
        Correlation::initial().wf(),
        c.has_id() ==> c.allocate().wf() && c.register(target, timeout).wf(),
        c.release(id).wf(),
        c.deliver(message).wf(),
        c.advance(by).wf(),
        c.poll(id).wf(),
{
}

/// An identifier that is handed out was never registered before, and two
/// requests in a row get different identifiers.
pub proof fn lemma_identifiers_are_fresh(c: Correlation, t1: DeviceId, t2: DeviceId, timeout: u64)
    requires
        c.wf(),
        c.has_id(),
    ensures
        !c.is_registered(c.counter),
        c.register(t1, timeout).is_pending(c.counter),
        c.register(t1, timeout).counter != c.counter,
        c.register(t1, timeout).has_id() ==> c.register(t1, timeout).register(
            t2,
            timeout,
        ).is_pending(c.counter),
{
}

/// A reply reaches the request whose identifier it carries, and no other:
/// the slot of every other identifier stays as it was.
pub proof fn lemma_reply_reaches_its_waiter(c: Correlation, reply: Message, other: MessageId)
    requires
        c.wf(),
        other != reply.header.msg_id,
    ensures
        c.is_pending(reply.header.msg_id) ==> c.deliver(reply).status(reply.header.msg_id)
            == Wait::Reply(reply),
        c.deliver(reply).status(other) == c.status(other),
        c.deliver(reply).is_registered(other) == c.is_registered(other),
        c.is_registered(other) ==> c.deliver(reply).slots[other] == c.slots[other],
{
}

/// The state after the messages of `arrivals` have arrived, one after the
/// other.
pub open spec fn deliver_all(c: Correlation, arrivals: Seq<Message>) -> Correlation
    decreases arrivals.len(),
{
    if arrivals.len() == 0 {
        c
    } else {
        deliver_all(c.deliver(arrivals[0]), arrivals.skip(1))
    }
}

/// The first of `arrivals` that carries the identifier `id`.
pub open spec fn first_for(arrivals: Seq<Message>, id: MessageId) -> Option<Message>
    decreases arrivals.len(),
{
    if arrivals.len() == 0 {
        None
    } else if arrivals[0].header.msg_id == id {
        Some(arrivals[0])
    } else {
        first_for(arrivals.skip(1), id)
    }
}

/// However many requests wait and whatever arrives in whatever order, each
/// request ends with the first message that carries its own identifier and
/// with no other; a request for which nothing arrives stands as before.
pub proof fn lemma_each_request_gets_its_own_reply(
    c: Correlation,
    arrivals: Seq<Message>,
    id: MessageId,
)
    requires
        c.wf(),
        c.is_registered(id),
    ensures
        deliver_all(c, arrivals).wf(),
        deliver_all(c, arrivals).clock == c.clock,
        deliver_all(c, arrivals).slots.dom() == c.slots.dom(),
        deliver_all(c, arrivals).status(id) == (if c.is_pending(id) {
            match first_for(arrivals, id) {
                Some(reply) => Wait::Reply(reply),
                None => c.status(id),
            }
        } else {
            c.status(id)
        }),
    decreases arrivals.len(),
{
    if arrivals.len() > 0 {
        let next = c.deliver(arrivals[0]);
        assert(next.slots.dom() =~= c.slots.dom());
        lemma_each_request_gets_its_own_reply(next, arrivals.skip(1), id);
    }
}

/// Two requests that wait at the same time each end with their own reply,
/// in whichever order the replies arrive and the waiters ask.
pub proof fn lemma_concurrent_requests_resolve_apart(c: Correlation, ra: Message, rb: Message)
    requires
        c.wf(),
        c.is_pending(ra.header.msg_id),
        c.is_pending(rb.header.msg_id),
        ra.header.msg_id != rb.header.msg_id,
    ensures
        c.deliver(ra).deliver(rb).status(ra.header.msg_id) == Wait::Reply(ra),
        c.deliver(ra).deliver(rb).status(rb.header.msg_id) == Wait::Reply(rb),
        c.deliver(rb).deliver(ra).status(ra.header.msg_id) == Wait::Reply(ra),
        c.deliver(rb).deliver(ra).status(rb.header.msg_id) == Wait::Reply(rb),
        c.deliver(ra).deliver(rb).poll(ra.header.msg_id).status(rb.header.msg_id) == Wait::Reply(
            rb,
        ),
        c.deliver(ra).deliver(rb).poll(rb.header.msg_id).status(ra.header.msg_id) == Wait::Reply(
            ra,
        ),
{
}

/// A request ends once: after its waiter has learnt how it ended, its slot
/// is gone, and a message that carries its identifier later on goes to the
/// inbox and changes no slot.
pub proof fn lemma_request_ends_once(c: Correlation, id: MessageId, late: Message)
    requires
        c.wf(),
        !(c.status(id) is Waiting),
        late.header.msg_id == id,
    ensures
        !c.poll(id).is_registered(id),
        c.poll(id).status(id) == Wait::Unknown,
        c.poll(id).deliver(late).slots == c.poll(id).slots,
        c.poll(id).deliver(late).inbox == c.poll(id).inbox.push(late),
{
}

/// A second message with the identifier of a request whose reply has
/// arrived changes no slot: the first reply stays.
pub proof fn lemma_first_reply_stays(c: Correlation, first: Message, second: Message)
    requires
        c.wf(),
        c.is_pending(first.header.msg_id),
        second.header.msg_id == first.header.msg_id,
    ensures
        c.deliver(first).deliver(second).status(first.header.msg_id) == Wait::Reply(first),
        c.deliver(first).deliver(second).inbox == c.inbox.push(second),
{
}

/// A request whose reply never arrives times out: once `timeout` units of
/// time have passed since it was registered, whatever else arrived
/// meanwhile, its waiter learns `TimedOut`, its slot is released, and the
/// next request starts from a correlator that knows nothing of it.
pub proof fn lemma_timeout_is_certain(
    c: Correlation,
    target: DeviceId,
    timeout: u64,
    by: u64,
    other: Message,
)
    requires
        c.wf(),
        c.has_id(),
        by >= timeout,
        other.header.msg_id != c.counter,
    ensures
        c.clock + timeout <= u64::MAX && timeout > 0 ==> c.register(target, timeout).status(
            c.counter,
        ) == Wait::Waiting,
        c.register(target, timeout).advance(by).status(c.counter) == Wait::TimedOut,
        c.register(target, timeout).deliver(other).advance(by).status(c.counter)
            == Wait::TimedOut,
        !c.register(target, timeout).advance(by).poll(c.counter).is_registered(c.counter),
        c.register(target, timeout).advance(by).poll(c.counter).slots == c.slots,
{
    let after = c.register(target, timeout).advance(by).poll(c.counter);
    assert(after.slots =~= c.slots);
}

} // verus!
