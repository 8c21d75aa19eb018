//! The client: the orchestrator behind the operations that an application
//! starts and stops an arm with.

use std::collections::HashMap;
use vstd::prelude::*;
use crate::arm::correlator::{CommunicationManager, Correlation};
use crate::arm::orchestrator::{
    all_in, commanded_every_joint, ids_of, knows, next_counter, stopped_at_first_failure,
    ArmOrchestrator,
};
use crate::arm::proxy::{acknowledged, all_acknowledged, JointProxy};
use crate::bus::CommunicationAdapter;
use crate::protocol::{DeviceId, LifecycleState, Message, Payload, ProtocolError};

verus! {

/// The client of one arm.
pub struct ArmClient {
    orchestrator: ArmOrchestrator,
}

impl ArmClient {
    /// The orchestrator behind the client.
    pub closed spec fn arm(&self) -> ArmOrchestrator {
        self.orchestrator
    }

    /// A client without joints.
    pub fn new() -> (client: Self)
        ensures
            client.arm().wf(),
            client.arm().proxies().len() == 0,
            !client.arm().ready(),
    {
        ArmClient { orchestrator: ArmOrchestrator::new() }
    }

    /// Adds a joint; see [`ArmOrchestrator::add_joint`].
    pub fn add_joint(&mut self, joint_id: DeviceId)
        requires
            old(self).arm().wf(),
        ensures
            final(self).arm().wf(),
            final(self).arm().ready() == old(self).arm().ready(),
            knows(final(self).arm().proxies(), joint_id),
            JointProxy::new_spec(joint_id).id() == joint_id,
            JointProxy::new_spec(joint_id).get_state() == LifecycleState::Unconfigured,
            !knows(old(self).arm().proxies(), joint_id) ==> final(self).arm().proxies() == old(
                self,
            ).arm().proxies().push(JointProxy::new_spec(joint_id)),
            knows(old(self).arm().proxies(), joint_id) ==> final(self).arm().proxies().len()
                == old(self).arm().proxies().len(),
    {
        self.orchestrator.add_joint(joint_id);
    }

    /// Brings the arm up: configures every joint and, where that succeeded,
    /// activates every joint. On success every joint is `Active`, the arm
    /// is ready, and the link has handed out two acknowledgements for each
    /// joint. The first failure ends the operation: either the
    /// configuration stopped at a joint, or every joint was configured and
    /// the activation stopped at one. An arm without joints is ready at
    /// once, and nothing is sent.
    pub fn initialize<A: CommunicationAdapter>(&mut self, link: &mut A) -> (r: Result<
        (),
        ProtocolError,
    >)
        requires
            old(self).arm().wf(),
        ensures
            final(self).arm().wf(),
            final(self).arm().manager().slots.dom() == old(self).arm().manager().slots.dom(),
            ids_of(final(self).arm().proxies()) == ids_of(old(self).arm().proxies()),
            final(self).arm().ready() == (r is Ok || old(self).arm().ready()),
            old(self).arm().proxies().len() == 0 ==> r is Ok,
            r is Ok ==> all_in(final(self).arm().proxies(), LifecycleState::Active),
            r is Ok ==> final(self).arm().failures().len() == 0,
            r is Ok ==> all_acknowledged::<A>(
                old(self).arm().manager().counter as int,
                2 * old(self).arm().proxies().len() as int,
            ),
            r is Err ==> stopped_at_first_failure(
                old(self).arm().proxies(),
                final(self).arm().proxies(),
                final(self).arm().failures(),
                Payload::Configure,
                false,
            ) || exists|configured: Seq<JointProxy>|
                {
                    &&& #[trigger] stopped_at_first_failure(
                        old(self).arm().proxies(),
                        configured,
                        Seq::empty(),
                        Payload::Configure,
                        true,
                    )
                    &&& stopped_at_first_failure(
                        configured,
                        final(self).arm().proxies(),
                        final(self).arm().failures(),
                        Payload::Activate,
                        false,
                    )
                },
            r matches Err(e) ==> e is Timeout || e is IoError || e is InvalidMessage,
            old(self).arm().proxies().len() == 0 ==> {
                &&& *final(link) == *old(link)
                &&& final(self).arm().manager() == old(self).arm().manager()
            },
            old(self).arm().proxies().len() > 0 && !old(self).arm().manager().has_id() ==> {
                &&& r == Err::<(), ProtocolError>(ProtocolError::InvalidMessage)
                &&& *final(link) == *old(link)
                &&& final(self).arm().manager() == old(self).arm().manager()
                &&& final(self).arm().proxies() == old(self).arm().proxies()
                &&& final(self).arm().failures() == seq![old(self).arm().proxies()[0].id()]
            },
            old(self).arm().proxies().len() > 0 && old(self).arm().manager().has_id() ==> exists|
                first: &mut A,
                sent: Result<(), A::Error>,
            |
                {
                    &&& *first == *old(link)
                    &&& #[trigger] call_ensures(
                        A::transmit,
                        (
                            first,
                            &old(self).arm().manager().request(
                                old(self).arm().proxies()[0].id(),
                                Payload::Configure,
                            ),
                        ),
                        sent,
                    )
                    &&& sent is Err ==> {
                        &&& r == Err::<(), ProtocolError>(
                            ProtocolError::IoError(old(self).arm().manager().counter),
                        )
                        &&& *final(link) == *final(first)
                        &&& final(self).arm().manager() == old(self).arm().manager().allocate()
                        &&& final(self).arm().proxies() == old(self).arm().proxies()
                        &&& final(self).arm().failures() == seq![old(self).arm().proxies()[0].id()]
                    }
                },
    {
        let ghost before = self.orchestrator.proxies();
        match self.orchestrator.configure_all(link) {
            Ok(_) => {},
            Err(e) => {
                return Err(e);
            },
        }
        let ghost configured = self.orchestrator.proxies();
        let r = self.orchestrator.activate_all(link);
        proof {
            assert(configured.len() == before.len());
            if r is Err {
                assert(stopped_at_first_failure(
                    before,
                    configured,
                    Seq::empty(),
                    Payload::Configure,
                    true,
                ));
            }
        }
        r
    }

    /// Shuts the arm down: deactivates every joint; see
    /// [`ArmOrchestrator::deactivate_all`].
    pub fn shutdown<A: CommunicationAdapter>(&mut self, link: &mut A) -> (r: Result<
        (),
        ProtocolError,
    >)
        requires
            old(self).arm().wf(),
        ensures
            r is Ok,
            final(self).arm().wf(),
            !final(self).arm().ready(),
            final(self).arm().manager().slots.dom() == old(self).arm().manager().slots.dom(),
            ids_of(final(self).arm().proxies()) == ids_of(old(self).arm().proxies()),
            commanded_every_joint(
                old(self).arm().proxies(),
                final(self).arm().proxies(),
                final(self).arm().failures(),
                Payload::Deactivate,
            ),
            old(self).arm().proxies().len() == 0 ==> {
                &&& *final(link) == *old(link)
                &&& final(self).arm().manager() == old(self).arm().manager()
            },
            final(self).arm().manager().counter == next_counter(
                old(self).arm().manager().counter,
                old(self).arm().proxies().len() as int,
            ),
            !old(self).arm().manager().has_id() ==> {
                &&& *final(link) == *old(link)
                &&& final(self).arm().manager() == old(self).arm().manager()
                &&& final(self).arm().proxies() == old(self).arm().proxies()
                &&& final(self).arm().failures() == ids_of(old(self).arm().proxies())
            },
            old(self).arm().proxies().len() > 0 && old(self).arm().manager().has_id() ==> exists|
                first: &mut A,
                sent: Result<(), A::Error>,
            |
                {
                    &&& *first == *old(link)
                    &&& #[trigger] call_ensures(
                        A::transmit,
                        (
                            first,
                            &old(self).arm().manager().request(
                                old(self).arm().proxies()[0].id(),
                                Payload::Deactivate,
                            ),
                        ),
                        sent,
                    )
                    &&& sent is Err ==> final(self).arm().failures().len() > 0
                    &&& sent is Err ==> final(self).arm().failures()[0] == old(
                        self,
                    ).arm().proxies()[0].id()
                },
            forall|j: int|
                0 <= j < old(self).arm().proxies().len() && !final(self).arm().failures().contains(
                    (#[trigger] old(self).arm().proxies()[j]).id(),
                ) ==> acknowledged::<A>(old(self).arm().manager().counter + j),
    {
        self.orchestrator.deactivate_all(link)
    }

    /// The proxy of a joint; see [`ArmOrchestrator::get_joint`].
    pub fn get_joint(&self, joint_id: DeviceId) -> (r: Option<&JointProxy>)
        ensures
            match r {
                Some(proxy) => proxy.id() == joint_id && self.arm().proxies().contains(*proxy),
                None => !knows(self.arm().proxies(), joint_id),
            },
    {
        self.orchestrator.get_joint(joint_id)
    }

    /// Resets every joint; see [`ArmOrchestrator::emergency_stop`].
    pub fn emergency_stop<A: CommunicationAdapter>(&mut self, link: &mut A) -> (r: Result<
        (),
        ProtocolError,
    >)
        requires
            old(self).arm().wf(),
        ensures
            r is Ok,
            final(self).arm().wf(),
            !final(self).arm().ready(),
            final(self).arm().manager().slots.dom() == old(self).arm().manager().slots.dom(),
            ids_of(final(self).arm().proxies()) == ids_of(old(self).arm().proxies()),
            commanded_every_joint(
                old(self).arm().proxies(),
                final(self).arm().proxies(),
                final(self).arm().failures(),
                Payload::Reset,
            ),
            old(self).arm().proxies().len() == 0 ==> {
                &&& *final(link) == *old(link)
                &&& final(self).arm().manager() == old(self).arm().manager()
            },
            final(self).arm().manager().counter == next_counter(
                old(self).arm().manager().counter,
                old(self).arm().proxies().len() as int,
            ),
            !old(self).arm().manager().has_id() ==> {
                &&& *final(link) == *old(link)
                &&& final(self).arm().manager() == old(self).arm().manager()
                &&& final(self).arm().proxies() == old(self).arm().proxies()
                &&& final(self).arm().failures() == ids_of(old(self).arm().proxies())
            },
            old(self).arm().proxies().len() > 0 && old(self).arm().manager().has_id() ==> exists|
                first: &mut A,
                sent: Result<(), A::Error>,
            |
                {
                    &&& *first == *old(link)
                    &&& #[trigger] call_ensures(
                        A::transmit,
                        (
                            first,
                            &old(self).arm().manager().request(
                                old(self).arm().proxies()[0].id(),
                                Payload::Reset,
                            ),
                        ),
                        sent,
                    )
                    &&& sent is Err ==> final(self).arm().failures().len() > 0
                    &&& sent is Err ==> final(self).arm().failures()[0] == old(
                        self,
                    ).arm().proxies()[0].id()
                },
            forall|j: int|
                0 <= j < old(self).arm().proxies().len() && !final(self).arm().failures().contains(
                    (#[trigger] old(self).arm().proxies()[j]).id(),
                ) ==> acknowledged::<A>(old(self).arm().manager().counter + j),
    {
        self.orchestrator.emergency_stop(link)
    }

    /// Hands a message that has arrived to the correlator: the reply to a
    /// waiting request goes into its slot, any other message into the
    /// inbox. This never fails.
    pub fn send_async(&mut self, message: Message) -> (r: Result<(), ProtocolError>)
        requires
            old(self).arm().wf(),
        ensures
            r is Ok,
            final(self).arm().wf(),
            final(self).arm().manager() == old(self).arm().manager().deliver(message),
            final(self).arm().proxies() == old(self).arm().proxies(),
            final(self).arm().ready() == old(self).arm().ready(),
            final(self).arm().failures() == old(self).arm().failures(),
    {
        self.orchestrator.process_incoming_message(message);
        Ok(())
    }

    /// Hands out the oldest message that answered no waiting request, or
    /// `None` when there is none. This never fails.
    pub fn receive_async(&mut self) -> (r: Result<Option<Message>, ProtocolError>)
        requires
            old(self).arm().wf(),
        ensures
            r is Ok,
            r->Ok_0 == old(self).arm().manager().oldest(),
            final(self).arm().wf(),
            final(self).arm().manager() == old(self).arm().manager().without_oldest(),
            final(self).arm().proxies() == old(self).arm().proxies(),
            final(self).arm().ready() == old(self).arm().ready(),
            final(self).arm().failures() == old(self).arm().failures(),
    {
        Ok(self.orchestrator.next_unsolicited())
    }

    /// Whether the arm is ready.
    pub fn is_ready(&self) -> (ready: bool)
        ensures
            ready == self.arm().ready(),
    {
        self.orchestrator.is_ready()
    }

    /// The joints that did not comply in the last operation on all joints.
    pub fn failed_joints(&self) -> (ids: Vec<DeviceId>)
        ensures
            ids@ == self.arm().failures(),
    {
        self.orchestrator.failed_joints()
    }

    /// The last known state of every joint, by address.
    pub fn get_system_status(&self) -> (status: HashMap<DeviceId, LifecycleState>)
        requires
            self.arm().wf(),
        ensures
            forall|j: int|
                0 <= j < self.arm().proxies().len() ==> status@.contains_key(
                    (#[trigger] self.arm().proxies()[j]).id(),
                ) && status@[self.arm().proxies()[j].id()] == self.arm().proxies()[j].get_state(),
            forall|id: DeviceId| status@.contains_key(id) ==> knows(self.arm().proxies(), id),
    {
        self.orchestrator.get_system_status()
    }
}

impl Default for ArmClient {
    fn default() -> (client: Self)
        ensures
            client.arm().wf(),
            client.arm().proxies().len() == 0,
            !client.arm().ready(),
    {
        ArmClient::new()
    }
}

impl Default for ArmOrchestrator {
    fn default() -> (arm: Self)
        ensures
            arm.wf(),
            arm.proxies().len() == 0,
            arm.manager() == Correlation::initial(),
            !arm.ready(),
            arm.failures().len() == 0,
    {
        ArmOrchestrator::new()
    }
}

impl Default for CommunicationManager {
    fn default() -> (manager: Self)
        ensures
            manager@ == Correlation::initial(),
            manager@.wf(),
    {
        CommunicationManager::new()
    }
}

} // verus!
