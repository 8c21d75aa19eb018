//! The orchestrator: one correlator, the proxies of the joints, and the
//! operations that command all joints in turn.
//!
//! `configure_all` and `activate_all` stop at the first joint that does not
//! comply, because a system that is configured in part must not pass for
//! ready. `deactivate_all` and `emergency_stop` go on past a joint that does
//! not comply and record it. In both cases [`ArmOrchestrator::failed_joints`]
//! names the joints that did not comply in the last such operation.

use std::collections::HashMap;
use vstd::prelude::*;
use crate::arm::correlator::{CommunicationManager, Correlation};
use crate::arm::proxy::{
    acknowledged, all_acknowledged, cached_after, state_on_ack, verdict, JointProxy,
};
use crate::bus::CommunicationAdapter;
use crate::protocol::{
    DeviceId, LifecycleState, Message, MessageId, Payload, ProtocolError,
};

verus! {

/// Whether one of `proxies` stands for the joint with address `id`.
pub open spec fn knows(proxies: Seq<JointProxy>, id: DeviceId) -> bool {
    exists|j: int| 0 <= j < proxies.len() && (#[trigger] proxies[j]).id() == id
}

/// Whether no two of `proxies` stand for the same joint.
pub open spec fn distinct(proxies: Seq<JointProxy>) -> bool {
    forall|i: int, j: int|
        0 <= i < j < proxies.len() ==> (#[trigger] proxies[i]).id() != (#[trigger] proxies[j]).id()
}

/// The addresses of `proxies`, in their order.
pub open spec fn ids_of(proxies: Seq<JointProxy>) -> Seq<DeviceId> {
    Seq::new(proxies.len(), |j: int| proxies[j].id())
}

/// Whether a joint complied with `command`: its proxy, `before` the
/// command, holds `after` it the state that the acknowledged command leads
/// to.
pub open spec fn complied(before: JointProxy, after: JointProxy, command: Payload) -> bool {
    after.id() == before.id() && after.get_state() == state_on_ack(command, before.get_state())
}

/// What an operation that stops at the first failure leaves behind: on
/// success every joint complied and none is recorded; on failure the joints
/// before some joint `k` complied, the proxies from `k` on are as they were,
/// and `k` alone is recorded.
pub open spec fn stopped_at_first_failure(
    before: Seq<JointProxy>,
    after: Seq<JointProxy>,
    failures: Seq<DeviceId>,
    command: Payload,
    succeeded: bool,
) -> bool {
    &&& after.len() == before.len()
    &&& succeeded ==> failures.len() == 0 && forall|j: int|
        0 <= j < before.len() ==> complied(before[j], #[trigger] after[j], command)
    &&& !succeeded ==> exists|k: int|
        {
            &&& 0 <= k < before.len()
            &&& failures == seq![#[trigger] before[k].id()]
            &&& forall|j: int| 0 <= j < k ==> complied(before[j], #[trigger] after[j], command)
            &&& forall|j: int| k <= j < before.len() ==> #[trigger] after[j] == before[j]
        }
}

/// What an operation that commands every joint leaves behind: each joint
/// either complied or is recorded with its proxy as it was, and every
/// recorded address is that of a joint.
pub open spec fn commanded_every_joint(
    before: Seq<JointProxy>,
    after: Seq<JointProxy>,
    failures: Seq<DeviceId>,
    command: Payload,
) -> bool {
    &&& after.len() == before.len()
    &&& forall|j: int|
        0 <= j < before.len() ==> if failures.contains(before[j].id()) {
            #[trigger] after[j] == before[j]
        } else {
            complied(before[j], after[j], command)
        }
    &&& forall|i: int| 0 <= i < failures.len() ==> knows(before, #[trigger] failures[i])
}

/// Whether every one of `proxies` holds `state`.
pub open spec fn all_in(proxies: Seq<JointProxy>, state: LifecycleState) -> bool {
    forall|j: int| 0 <= j < proxies.len() ==> (#[trigger] proxies[j]).get_state() == state
}

/// Proxies that keep their addresses keep them apart.
pub proof fn lemma_same_ids_stay_distinct(before: Seq<JointProxy>, after: Seq<JointProxy>)
    requires
        distinct(before),
        after.len() == before.len(),
        forall|j: int| 0 <= j < before.len() ==> (#[trigger] after[j]).id() == before[j].id(),
    ensures
        distinct(after),
        ids_of(after) == ids_of(before),
{
    assert(ids_of(after) =~= ids_of(before));
    assert forall|a: int, b: int| 0 <= a < b < after.len() implies (#[trigger] after[a]).id() != (
    #[trigger] after[b]).id() by {
        assert(after[a].id() == before[a].id());
        assert(after[b].id() == before[b].id());
    }
}

/// A sequence that was extended by `last` holds what it held and `last`.
pub proof fn lemma_contains_after_push(s: Seq<DeviceId>, last: DeviceId, n: DeviceId)
    ensures
        s.push(last).contains(n) == (n == last || s.contains(n)),
{
    let extended = s.push(last);
    if n == last {
        assert(extended[s.len() as int] == n);
    } else if s.contains(n) {
        let x = choose|x: int| 0 <= x < s.len() && s[x] == n;
        assert(extended[x] == n);
    } else if extended.contains(n) {
        let x = choose|x: int| 0 <= x < extended.len() && extended[x] == n;
        assert(s[x] == n);
    }
}

/// Whether the system is ready after an operation that sent `command` to
/// all joints: an activation that every joint complied with makes it ready,
/// a deactivation or a reset makes it not ready, and anything else leaves
/// the readiness as it was.
pub open spec fn ready_after(command: Payload, complete: bool, ready: bool) -> bool {
    match command {
        Payload::Activate => complete || ready,
        Payload::Deactivate | Payload::Reset => false,
        _ => ready,
    }
}

/// The identifier that is next once `n` commands were sent from `first` on:
/// each command takes one identifier, as long as one is left.
pub open spec fn next_counter(first: MessageId, n: int) -> int {
    if first + n <= u32::MAX {
        first + n
    } else {
        u32::MAX as int
    }
}

/// Whether `id` is the address of one of the first `n` of `proxies`.
pub open spec fn recorded_before(proxies: Seq<JointProxy>, n: int, id: DeviceId) -> bool {
    exists|k: int| 0 <= k < n && k < proxies.len() && (#[trigger] proxies[k]).id() == id
}

/// The orchestrator.
pub struct ArmOrchestrator {
    comm_manager: CommunicationManager,
    joints: Vec<JointProxy>,
    is_ready: bool,
    failed: Vec<DeviceId>,
}

impl ArmOrchestrator {
    /// The proxies of the joints, in the order in which they were added.
    pub closed spec fn proxies(&self) -> Seq<JointProxy> {
        self.joints@
    }

    /// The state of the correlator.
    pub closed spec fn manager(&self) -> Correlation {
        self.comm_manager@
    }

    /// Whether the system is ready.
    pub closed spec fn ready(&self) -> bool {
        self.is_ready
    }

    /// The joints that did not comply in the last operation on all joints.
    pub closed spec fn failures(&self) -> Seq<DeviceId> {
        self.failed@
    }

    /// The invariant: the correlator is sound and no joint has two proxies.
    pub open spec fn wf(&self) -> bool {
        self.manager().wf() && distinct(self.proxies())
    }

    /// An orchestrator without joints, not ready.
    pub fn new() -> (arm: Self)
        ensures
            arm.wf(),
            arm.proxies().len() == 0,
            arm.manager() == Correlation::initial(),
            !arm.ready(),
            arm.failures().len() == 0,
    {
        ArmOrchestrator {
            comm_manager: CommunicationManager::new(),
            joints: Vec::new(),
            is_ready: false,
            failed: Vec::new(),
        }
    }

    /// Adds the joint with address `joint_id`, taken to be `Unconfigured`.
    /// A joint that is there already gets a fresh proxy in its old place.
    pub fn add_joint(&mut self, joint_id: DeviceId)
        requires
            old(self).wf(),
        ensures
            final(self).wf(),
            final(self).manager() == old(self).manager(),
            final(self).ready() == old(self).ready(),
            final(self).failures() == old(self).failures(),
            knows(final(self).proxies(), joint_id),
            JointProxy::new_spec(joint_id).id() == joint_id,
            JointProxy::new_spec(joint_id).get_state() == LifecycleState::Unconfigured,
            !knows(old(self).proxies(), joint_id) ==> final(self).proxies() == old(
                self,
            ).proxies().push(JointProxy::new_spec(joint_id)),
            knows(old(self).proxies(), joint_id) ==> final(self).proxies().len() == old(
                self,
            ).proxies().len() && forall|j: int|
                0 <= j < old(self).proxies().len() ==> #[trigger] final(self).proxies()[j] == (
                if old(self).proxies()[j].id() == joint_id {
                    JointProxy::new_spec(joint_id)
                } else {
                    old(self).proxies()[j]
                }),
    {
        let fresh = JointProxy::new(joint_id);
        let mut j: usize = 0;
        while j < self.joints.len()
            invariant
                j <= self.joints@.len(),
                *self == *old(self),
                self.wf(),
                fresh == JointProxy::new_spec(joint_id),
                fresh.id() == joint_id,
                fresh.get_state() == LifecycleState::Unconfigured,
                forall|i: int| 0 <= i < j ==> (#[trigger] self.joints@[i]).id() != joint_id,
            decreases self.joints@.len() - j,
        {
            if self.joints[j].id() == joint_id {
                self.joints.set(j, fresh);
                assert(self.joints@[j as int].id() == joint_id);
                return ;
            }
            j = j + 1;
        }
        self.joints.push(fresh);
        assert(self.joints@[self.joints@.len() - 1].id() == joint_id);
    }

    /// The proxy of the joint with address `joint_id`, if there is one.
    pub fn get_joint(&self, joint_id: DeviceId) -> (r: Option<&JointProxy>)
        ensures
            match r {
                Some(proxy) => proxy.id() == joint_id && self.proxies().contains(*proxy),
                None => !knows(self.proxies(), joint_id),
            },
    {
        let mut j: usize = 0;
        while j < self.joints.len()
            invariant
                j <= self.joints@.len(),
                forall|i: int| 0 <= i < j ==> (#[trigger] self.joints@[i]).id() != joint_id,
            decreases self.joints@.len() - j,
        {
            if self.joints[j].id() == joint_id {
                return Some(&self.joints[j]);
            }
            j = j + 1;
        }
        None
    }

    /// Whether the system is ready: `activate_all` has succeeded, and no
    /// deactivation or emergency stop has happened since.
    pub fn is_ready(&self) -> (ready: bool)
        ensures
            ready == self.ready(),
    {
        self.is_ready
    }

    /// The addresses of the joints, in the order in which they were added.
    pub fn get_joint_ids(&self) -> (ids: Vec<DeviceId>)
        ensures
            ids@ == ids_of(self.proxies()),
    {
        let mut ids: Vec<DeviceId> = Vec::new();
        let mut j: usize = 0;
        while j < self.joints.len()
            invariant
                j <= self.joints@.len(),
                ids@ == ids_of(self.joints@.take(j as int)),
            decreases self.joints@.len() - j,
        {
            ids.push(self.joints[j].id());
            assert(ids@ =~= ids_of(self.joints@.take(j + 1)));
            j = j + 1;
        }
        assert(self.joints@.take(j as int) =~= self.joints@);
        ids
    }

    /// The joints that did not comply in the last operation on all joints,
    /// in the order of the joints.
    pub fn failed_joints(&self) -> (ids: Vec<DeviceId>)
        ensures
            ids@ == self.failures(),
    {
        self.failed.clone()
    }

    /// The last known state of every joint, by address.
    pub fn get_system_status(&self) -> (status: HashMap<DeviceId, LifecycleState>)
        requires
            self.wf(),
        ensures
            forall|j: int|
                0 <= j < self.proxies().len() ==> status@.contains_key(
                    (#[trigger] self.proxies()[j]).id(),
                ) && status@[self.proxies()[j].id()] == self.proxies()[j].get_state(),
            forall|id: DeviceId| status@.contains_key(id) ==> knows(self.proxies(), id),
    {
        let mut status: HashMap<DeviceId, LifecycleState> = HashMap::new();
        let mut j: usize = 0;
        while j < self.joints.len()
            invariant
                j <= self.joints@.len(),
                distinct(self.joints@),
                forall|i: int|
                    0 <= i < j ==> status@.contains_key((#[trigger] self.joints@[i]).id())
                        && status@[self.joints@[i].id()] == self.joints@[i].get_state(),
                forall|id: DeviceId|
                    status@.contains_key(id) ==> exists|i: int|
                        0 <= i < j && (#[trigger] self.joints@[i]).id() == id,
            decreases self.joints@.len() - j,
        {
            status.insert(self.joints[j].id(), self.joints[j].get_state());
            j = j + 1;
        }
        status
    }

    /// Sends `command` to the joints in turn and stops at the first one
    /// that does not comply.
    fn command_until_failure<A: CommunicationAdapter>(
        &mut self,
        link: &mut A,
        command: Payload,
    ) -> (r: Result<(), ProtocolError>)
        requires
            old(self).wf(),
        ensures
            final(self).wf(),
            final(self).ready() == old(self).ready(),
            final(self).manager().slots.dom() == old(self).manager().slots.dom(),
            ids_of(final(self).proxies()) == ids_of(old(self).proxies()),
            stopped_at_first_failure(
                old(self).proxies(),
                final(self).proxies(),
                final(self).failures(),
                command,
                r is Ok,
            ),
            r matches Err(e) ==> e is Timeout || e is IoError || e is InvalidMessage,
            old(self).proxies().len() == 0 ==> {
                &&& *final(link) == *old(link)
                &&& final(self).manager() == old(self).manager()
            },
            old(self).proxies().len() > 0 && !old(self).manager().has_id() ==> {
                &&& r == Err::<(), ProtocolError>(ProtocolError::InvalidMessage)
                &&& *final(link) == *old(link)
                &&& final(self).manager() == old(self).manager()
                &&& final(self).proxies() == old(self).proxies()
                &&& final(self).failures() == seq![old(self).proxies()[0].id()]
            },
            old(self).proxies().len() > 0 && old(self).manager().has_id() ==> exists|
                first: &mut A,
                sent: Result<(), A::Error>,
            |
                {
                    &&& *first == *old(link)
                    &&& #[trigger] call_ensures(
                        A::transmit,
                        (
                            first,
                            &old(self).manager().request(
                                old(self).proxies()[0].id(),
                                command,
                            ),
                        ),
                        sent,
                    )
                    &&& sent is Err ==> {
                        &&& r == Err::<(), ProtocolError>(
                            ProtocolError::IoError(old(self).manager().counter),
                        )
                        &&& *final(link) == *final(first)
                        &&& final(self).manager() == old(self).manager().allocate()
                        &&& final(self).proxies() == old(self).proxies()
                        &&& final(self).failures() == seq![old(self).proxies()[0].id()]
                    }
                },
            r is Ok ==> final(self).manager().counter == old(self).manager().counter + old(
                self,
            ).proxies().len(),
            r is Ok ==> all_acknowledged::<A>(
                old(self).manager().counter as int,
                old(self).proxies().len() as int,
            ),
            r is Err ==> forall|k: int|
                0 <= k < old(self).proxies().len() && final(self).failures()[0] == (
                #[trigger] old(self).proxies()[k]).id() ==> all_acknowledged::<A>(
                    old(self).manager().counter as int,
                    k,
                ),
    {
        self.failed = Vec::new();
        let ghost before = old(self).joints@;
        let ghost c0 = old(self).comm_manager@;
        let mut j: usize = 0;
        while j < self.joints.len()
            invariant
                j <= self.joints@.len(),
                self.joints@.len() == before.len(),
                before == old(self).joints@,
                c0 == old(self).comm_manager@,
                distinct(before),
                self.comm_manager@.wf(),
                self.comm_manager@.slots.dom() == c0.slots.dom(),
                self.comm_manager@.counter == next_counter(c0.counter, j as int),
                self.is_ready == old(self).is_ready,
                self.failed@.len() == 0,
                forall|i: int|
                    0 <= i < j ==> complied(before[i], #[trigger] self.joints@[i], command),
                forall|i: int| j <= i < before.len() ==> #[trigger] self.joints@[i] == before[i],
                j == 0 ==> *link == *old(link) && self.comm_manager@ == c0,
                j > 0 ==> c0.has_id(),
                c0.counter + j <= u32::MAX,
                j > 0 ==> exists|first: &mut A, sent: Result<(), A::Error>|
                    {
                        &&& *first == *old(link)
                        &&& #[trigger] call_ensures(
                            A::transmit,
                            (first, &c0.request(before[0].id(), command)),
                            sent,
                        )
                        &&& sent is Ok
                    },
                all_acknowledged::<A>(c0.counter as int, j as int),
            decreases self.joints@.len() - j,
        {
            let mut proxy = self.joints[j];
            let ghost issued = self.comm_manager@.counter;
            match proxy.command(&mut self.comm_manager, link, command) {
                Ok(_) => {
                    self.joints.set(j, proxy);
                    assert(issued == c0.counter + j);
                },
                Err(e) => {
                    self.failed.push(proxy.id());
                    proof {
                        assert(self.failed@ =~= seq![before[j as int].id()]);
                        lemma_same_ids_stay_distinct(before, self.joints@);
                        if j == 0 {
                            assert(self.joints@ =~= before);
                        }
                        assert forall|k: int|
                            0 <= k < before.len() && self.failed@[0] == (
                            #[trigger] before[k]).id() implies all_acknowledged::<A>(
                            c0.counter as int,
                            k,
                        ) by {
                            assert(k == j);
                        }
                    }
                    return Err(e);
                },
            }
            j = j + 1;
        }
        proof {
            lemma_same_ids_stay_distinct(before, self.joints@);
        }
        Ok(())
    }

    /// Sends `command` to every joint in turn and records those that do
    /// not comply.
    fn command_every<A: CommunicationAdapter>(&mut self, link: &mut A, command: Payload)
        requires
            old(self).wf(),
        ensures
            final(self).wf(),
            final(self).ready() == old(self).ready(),
            final(self).manager().slots.dom() == old(self).manager().slots.dom(),
            ids_of(final(self).proxies()) == ids_of(old(self).proxies()),
            commanded_every_joint(
                old(self).proxies(),
                final(self).proxies(),
                final(self).failures(),
                command,
            ),
            old(self).proxies().len() == 0 ==> {
                &&& *final(link) == *old(link)
                &&& final(self).manager() == old(self).manager()
            },
            final(self).manager().counter == next_counter(
                old(self).manager().counter,
                old(self).proxies().len() as int,
            ),
            !old(self).manager().has_id() ==> {
                &&& *final(link) == *old(link)
                &&& final(self).manager() == old(self).manager()
                &&& final(self).proxies() == old(self).proxies()
                &&& final(self).failures() == ids_of(old(self).proxies())
            },
            old(self).proxies().len() > 0 && old(self).manager().has_id() ==> exists|
                first: &mut A,
                sent: Result<(), A::Error>,
            |
                {
                    &&& *first == *old(link)
                    &&& #[trigger] call_ensures(
                        A::transmit,
                        (
                            first,
                            &old(self).manager().request(
                                old(self).proxies()[0].id(),
                                command,
                            ),
                        ),
                        sent,
                    )
                    &&& sent is Err ==> final(self).failures().len() > 0
                    &&& sent is Err ==> final(self).failures()[0] == old(self).proxies()[0].id()
                },
            forall|j: int|
                0 <= j < old(self).proxies().len() && !final(self).failures().contains(
                    (#[trigger] old(self).proxies()[j]).id(),
                ) ==> acknowledged::<A>(old(self).manager().counter + j),
    {
        self.failed = Vec::new();
        let ghost before = old(self).joints@;
        let ghost c0 = old(self).comm_manager@;
        assert(self.failed@ =~= ids_of(before.take(0)));
        let mut j: usize = 0;
        while j < self.joints.len()
            invariant
                j <= self.joints@.len(),
                self.joints@.len() == before.len(),
                before == old(self).joints@,
                distinct(before),
                c0 == old(self).comm_manager@,
                self.comm_manager@.wf(),
                self.comm_manager@.slots.dom() == c0.slots.dom(),
                self.comm_manager@.counter == next_counter(c0.counter, j as int),
                self.is_ready == old(self).is_ready,
                j == 0 ==> *link == *old(link) && self.comm_manager@ == c0,
                !c0.has_id() ==> {
                    &&& *link == *old(link)
                    &&& self.comm_manager@ == c0
                    &&& self.joints@ == before
                    &&& self.failed@ == ids_of(before.take(j as int))
                },
                j > 0 && c0.has_id() ==> exists|first: &mut A, sent: Result<(), A::Error>|
                    {
                        &&& *first == *old(link)
                        &&& #[trigger] call_ensures(
                            A::transmit,
                            (first, &c0.request(before[0].id(), command)),
                            sent,
                        )
                        &&& sent is Err ==> self.failed@.len() > 0 && self.failed@[0]
                            == before[0].id()
                    },
                forall|i: int|
                    0 <= i < j && !self.failed@.contains((#[trigger] before[i]).id())
                        ==> acknowledged::<A>(c0.counter + i),
                forall|i: int|
                    0 <= i < j ==> if self.failed@.contains(before[i].id()) {
                        #[trigger] self.joints@[i] == before[i]
                    } else {
                        complied(before[i], self.joints@[i], command)
                    },
                forall|i: int| j <= i < before.len() ==> #[trigger] self.joints@[i] == before[i],
                forall|i: int|
                    0 <= i < self.failed@.len() ==> recorded_before(
                        before,
                        j as int,
                        #[trigger] self.failed@[i],
                    ),
            decreases self.joints@.len() - j,
        {
            let mut proxy = self.joints[j];
            let ghost failed_before = self.failed@;
            let ghost issued = self.comm_manager@.counter;
            match proxy.command(&mut self.comm_manager, link, command) {
                Ok(_) => {
                    self.joints.set(j, proxy);
                    assert(issued == c0.counter + j);
                    assert(!failed_before.contains(before[j as int].id())) by {
                        if failed_before.contains(before[j as int].id()) {
                            let id = before[j as int].id();
                            let i = choose|i: int|
                                0 <= i < failed_before.len() && failed_before[i] == id;
                            assert(recorded_before(before, j as int, failed_before[i]));
                            let k = choose|k: int|
                                0 <= k < j && (#[trigger] before[k]).id() == failed_before[i];
                            assert(before[k].id() != before[j as int].id());
                        }
                    }
                },
                Err(_) => {
                    self.failed.push(proxy.id());
                    proof {
                        let id = before[j as int].id();
                        assert(self.failed@ == failed_before.push(id));
                        assert(self.failed@.last() == id);
                        assert forall|n: DeviceId| self.failed@.contains(n) == (n == id
                            || failed_before.contains(n)) by {
                            lemma_contains_after_push(failed_before, id, n);
                        }
                        assert(self.failed@[0] == if failed_before.len() == 0 {
                            id
                        } else {
                            failed_before[0]
                        });
                        if !c0.has_id() {
                            assert(self.failed@ =~= ids_of(before.take(j + 1)));
                        }
                    }
                },
            }
            j = j + 1;
        }
        proof {
            lemma_same_ids_stay_distinct(before, self.joints@);
            assert(before.take(j as int) =~= before);
        }
    }

    /// Configures every joint, in the order in which the joints were added,
    /// and stops at the first one that does not comply.
    ///
    /// Each joint is sent one request, as [`JointProxy::command`] sends
    /// it: the link is first handed the request for the first joint, under
    /// the next identifier, and a joint counts as complying once the link
    /// has handed out an acknowledgement under the identifier of its
    /// request. The error is that of the joint that stopped the operation.
    /// Without joints, or without an identifier left, nothing is sent.
    pub fn configure_all<A: CommunicationAdapter>(&mut self, link: &mut A) -> (r: Result<
        (),
        ProtocolError,
    >)
        requires
            old(self).wf(),
        ensures
            final(self).wf(),
            final(self).ready() == old(self).ready(),
            final(self).manager().slots.dom() == old(self).manager().slots.dom(),
            ids_of(final(self).proxies()) == ids_of(old(self).proxies()),
            stopped_at_first_failure(
                old(self).proxies(),
                final(self).proxies(),
                final(self).failures(),
                Payload::Configure,
                r is Ok,
            ),
            r is Ok ==> all_in(final(self).proxies(), LifecycleState::Inactive),
            r matches Err(e) ==> e is Timeout || e is IoError || e is InvalidMessage,
            old(self).proxies().len() == 0 ==> {
                &&& *final(link) == *old(link)
                &&& final(self).manager() == old(self).manager()
            },
            old(self).proxies().len() > 0 && !old(self).manager().has_id() ==> {
                &&& r == Err::<(), ProtocolError>(ProtocolError::InvalidMessage)
                &&& *final(link) == *old(link)
                &&& final(self).manager() == old(self).manager()
                &&& final(self).proxies() == old(self).proxies()
                &&& final(self).failures() == seq![old(self).proxies()[0].id()]
            },
            old(self).proxies().len() > 0 && old(self).manager().has_id() ==> exists|
                first: &mut A,
                sent: Result<(), A::Error>,
            |
                {
                    &&& *first == *old(link)
                    &&& #[trigger] call_ensures(
                        A::transmit,
                        (
                            first,
                            &old(self).manager().request(
                                old(self).proxies()[0].id(),
                                Payload::Configure,
                            ),
                        ),
                        sent,
                    )
                    &&& sent is Err ==> {
                        &&& r == Err::<(), ProtocolError>(
                            ProtocolError::IoError(old(self).manager().counter),
                        )
                        &&& *final(link) == *final(first)
                        &&& final(self).manager() == old(self).manager().allocate()
                        &&& final(self).proxies() == old(self).proxies()
                        &&& final(self).failures() == seq![old(self).proxies()[0].id()]
                    }
                },
            r is Ok ==> final(self).manager().counter == old(self).manager().counter + old(
                self,
            ).proxies().len(),
            r is Ok ==> all_acknowledged::<A>(
                old(self).manager().counter as int,
                old(self).proxies().len() as int,
            ),
            r is Err ==> forall|k: int|
                0 <= k < old(self).proxies().len() && final(self).failures()[0] == (
                #[trigger] old(self).proxies()[k]).id() ==> all_acknowledged::<A>(
                    old(self).manager().counter as int,
                    k,
                ),
    {
        self.command_until_failure(link, Payload::Configure)
    }

    /// Activates every joint, in the order in which the joints were added,
    /// and stops at the first one that does not comply. The system is ready
    /// once every joint has acknowledged; a failure leaves the readiness as
    /// it was. What is sent and what counts as complying is as in
    /// [`Self::configure_all`].
    pub fn activate_all<A: CommunicationAdapter>(&mut self, link: &mut A) -> (r: Result<
        (),
        ProtocolError,
    >)
        requires
            old(self).wf(),
        ensures
            final(self).wf(),
            final(self).ready() == (r is Ok || old(self).ready()),
            final(self).manager().slots.dom() == old(self).manager().slots.dom(),
            ids_of(final(self).proxies()) == ids_of(old(self).proxies()),
            stopped_at_first_failure(
                old(self).proxies(),
                final(self).proxies(),
                final(self).failures(),
                Payload::Activate,
                r is Ok,
            ),
            r is Ok ==> all_in(final(self).proxies(), LifecycleState::Active),
            r matches Err(e) ==> e is Timeout || e is IoError || e is InvalidMessage,
            old(self).proxies().len() == 0 ==> {
                &&& *final(link) == *old(link)
                &&& final(self).manager() == old(self).manager()
            },
            old(self).proxies().len() > 0 && !old(self).manager().has_id() ==> {
                &&& r == Err::<(), ProtocolError>(ProtocolError::InvalidMessage)
                &&& *final(link) == *old(link)
                &&& final(self).manager() == old(self).manager()
                &&& final(self).proxies() == old(self).proxies()
                &&& final(self).failures() == seq![old(self).proxies()[0].id()]
            },
            old(self).proxies().len() > 0 && old(self).manager().has_id() ==> exists|
                first: &mut A,
                sent: Result<(), A::Error>,
            |
                {
                    &&& *first == *old(link)
                    &&& #[trigger] call_ensures(
                        A::transmit,
                        (
                            first,
                            &old(self).manager().request(
                                old(self).proxies()[0].id(),
                                Payload::Activate,
                            ),
                        ),
                        sent,
                    )
                    &&& sent is Err ==> {
                        &&& r == Err::<(), ProtocolError>(
                            ProtocolError::IoError(old(self).manager().counter),
                        )
                        &&& *final(link) == *final(first)
                        &&& final(self).manager() == old(self).manager().allocate()
                        &&& final(self).proxies() == old(self).proxies()
                        &&& final(self).failures() == seq![old(self).proxies()[0].id()]
                    }
                },
            r is Ok ==> final(self).manager().counter == old(self).manager().counter + old(
                self,
            ).proxies().len(),
            r is Ok ==> all_acknowledged::<A>(
                old(self).manager().counter as int,
                old(self).proxies().len() as int,
            ),
            r is Err ==> forall|k: int|
                0 <= k < old(self).proxies().len() && final(self).failures()[0] == (
                #[trigger] old(self).proxies()[k]).id() ==> all_acknowledged::<A>(
                    old(self).manager().counter as int,
                    k,
                ),
    {
        match self.command_until_failure(link, Payload::Activate) {
            Ok(_) => {
                self.is_ready = true;
                Ok(())
            },
            Err(e) => Err(e),
        }
    }

    /// Deactivates every joint and records those that do not comply. The
    /// operation itself never fails, and the system is not ready
    /// afterwards.
    ///
    /// Each joint is sent one request, the first joint first; a joint that
    /// is not recorded was acknowledged by the link under the identifier of
    /// its request. Without an identifier left nothing is sent and every
    /// joint is recorded.
    pub fn deactivate_all<A: CommunicationAdapter>(&mut self, link: &mut A) -> (r: Result<
        (),
        ProtocolError,
    >)
        requires
            old(self).wf(),
        ensures
            r is Ok,
            final(self).wf(),
            !final(self).ready(),
            final(self).manager().slots.dom() == old(self).manager().slots.dom(),
            ids_of(final(self).proxies()) == ids_of(old(self).proxies()),
            commanded_every_joint(
                old(self).proxies(),
                final(self).proxies(),
                final(self).failures(),
                Payload::Deactivate,
            ),
            old(self).proxies().len() == 0 ==> {
                &&& *final(link) == *old(link)
                &&& final(self).manager() == old(self).manager()
            },
            final(self).manager().counter == next_counter(
                old(self).manager().counter,
                old(self).proxies().len() as int,
            ),
            !old(self).manager().has_id() ==> {
                &&& *final(link) == *old(link)
                &&& final(self).manager() == old(self).manager()
                &&& final(self).proxies() == old(self).proxies()
                &&& final(self).failures() == ids_of(old(self).proxies())
            },
            old(self).proxies().len() > 0 && old(self).manager().has_id() ==> exists|
                first: &mut A,
                sent: Result<(), A::Error>,
            |
                {
                    &&& *first == *old(link)
                    &&& #[trigger] call_ensures(
                        A::transmit,
                        (
                            first,
                            &old(self).manager().request(
                                old(self).proxies()[0].id(),
                                Payload::Deactivate,
                            ),
                        ),
                        sent,
                    )
                    &&& sent is Err ==> final(self).failures().len() > 0
                    &&& sent is Err ==> final(self).failures()[0] == old(self).proxies()[0].id()
                },
            forall|j: int|
                0 <= j < old(self).proxies().len() && !final(self).failures().contains(
                    (#[trigger] old(self).proxies()[j]).id(),
                ) ==> acknowledged::<A>(old(self).manager().counter + j),
    {
        self.command_every(link, Payload::Deactivate);
        self.is_ready = false;
        Ok(())
    }

    /// Resets every joint, whatever its cached state, and records those
    /// that do not comply. The operation itself never fails, and the system
    /// is not ready afterwards. What is sent and what counts as complying
    /// is as in [`Self::deactivate_all`].
    pub fn emergency_stop<A: CommunicationAdapter>(&mut self, link: &mut A) -> (r: Result<
        (),
        ProtocolError,
    >)
        requires
            old(self).wf(),
        ensures
            r is Ok,
            final(self).wf(),
            !final(self).ready(),
            final(self).manager().slots.dom() == old(self).manager().slots.dom(),
            ids_of(final(self).proxies()) == ids_of(old(self).proxies()),
            commanded_every_joint(
                old(self).proxies(),
                final(self).proxies(),
                final(self).failures(),
                Payload::Reset,
            ),
            old(self).proxies().len() == 0 ==> {
                &&& *final(link) == *old(link)
                &&& final(self).manager() == old(self).manager()
            },
            final(self).manager().counter == next_counter(
                old(self).manager().counter,
                old(self).proxies().len() as int,
            ),
            !old(self).manager().has_id() ==> {
                &&& *final(link) == *old(link)
                &&& final(self).manager() == old(self).manager()
                &&& final(self).proxies() == old(self).proxies()
                &&& final(self).failures() == ids_of(old(self).proxies())
            },
            old(self).proxies().len() > 0 && old(self).manager().has_id() ==> exists|
                first: &mut A,
                sent: Result<(), A::Error>,
            |
                {
                    &&& *first == *old(link)
                    &&& #[trigger] call_ensures(
                        A::transmit,
                        (
                            first,
                            &old(self).manager().request(
                                old(self).proxies()[0].id(),
                                Payload::Reset,
                            ),
                        ),
                        sent,
                    )
                    &&& sent is Err ==> final(self).failures().len() > 0
                    &&& sent is Err ==> final(self).failures()[0] == old(self).proxies()[0].id()
                },
            forall|j: int|
                0 <= j < old(self).proxies().len() && !final(self).failures().contains(
                    (#[trigger] old(self).proxies()[j]).id(),
                ) ==> acknowledged::<A>(old(self).manager().counter + j),
    {
        self.command_every(link, Payload::Reset);
        self.is_ready = false;
        Ok(())
    }

    /// Whether an operation that sends `command` to all joints stops at the
    /// first joint that does not comply: configuring and activating do, a
    /// system that is set up in part must not pass for ready; every other
    /// command goes to every joint.
    #[verifier::allow_in_spec]
    pub fn stops_at_failure(command: &Payload) -> bool
        returns
            (*command is Configure || *command is Activate),
    {
        match command {
            Payload::Configure | Payload::Activate => true,
            _ => false,
        }
    }

    /// Starts an operation on all joints for a caller that sends the
    /// commands itself: the record of failures is emptied.
    pub fn begin_operation(&mut self)
        ensures
            final(self).failures().len() == 0,
            final(self).proxies() == old(self).proxies(),
            final(self).manager() == old(self).manager(),
            final(self).ready() == old(self).ready(),
    {
        self.failed = Vec::new();
    }

    /// Takes in how the request that carried `command` to the joint
    /// `joint_id` ended, for a caller that sends the commands itself.
    ///
    /// The proxy of the joint settles the outcome as
    /// [`JointProxy::settle`] does, and a joint that did not comply is
    /// added to the record of failures. For an address that is no joint's
    /// the result is `InvalidMessage` and nothing changes.
    pub fn settle(
        &mut self,
        joint_id: DeviceId,
        command: &Payload,
        outcome: Result<Message, ProtocolError>,
    ) -> (r: Result<(), ProtocolError>)
        requires
            old(self).wf(),
        ensures
            final(self).wf(),
            final(self).manager() == old(self).manager(),
            final(self).ready() == old(self).ready(),
            ids_of(final(self).proxies()) == ids_of(old(self).proxies()),
            !knows(old(self).proxies(), joint_id) ==> {
                &&& r == Err::<(), ProtocolError>(ProtocolError::InvalidMessage)
                &&& final(self).proxies() == old(self).proxies()
                &&& final(self).failures() == old(self).failures()
            },
            knows(old(self).proxies(), joint_id) ==> {
                &&& r == verdict(outcome)
                &&& final(self).failures() == if r is Ok {
                    old(self).failures()
                } else {
                    old(self).failures().push(joint_id)
                }
                &&& forall|j: int|
                    0 <= j < old(self).proxies().len() ==> if old(self).proxies()[j].id()
                        == joint_id {
                        (#[trigger] final(self).proxies()[j]).get_state() == cached_after(
                            *command,
                            old(self).proxies()[j].get_state(),
                            outcome,
                        )
                    } else {
                        final(self).proxies()[j] == old(self).proxies()[j]
                    }
            },
    {
        let ghost before = self.joints@;
        let mut j: usize = 0;
        while j < self.joints.len()
            invariant
                j <= self.joints@.len(),
                *self == *old(self),
                self.wf(),
                before == self.joints@,
                forall|i: int| 0 <= i < j ==> (#[trigger] self.joints@[i]).id() != joint_id,
            decreases self.joints@.len() - j,
        {
            if self.joints[j].id() == joint_id {
                let mut proxy = self.joints[j];
                let r = proxy.settle(command, outcome);
                self.joints.set(j, proxy);
                if r.is_err() {
                    self.failed.push(joint_id);
                }
                proof {
                    lemma_same_ids_stay_distinct(before, self.joints@);
                }
                return r;
            }
            j = j + 1;
        }
        Err(ProtocolError::InvalidMessage)
    }

    /// Ends an operation that sent `command` to all joints, for a caller
    /// that sends the commands itself; `complete` says whether every joint
    /// complied. The system is ready once an activation is complete, and
    /// not ready after a deactivation or a reset, complete or not.
    pub fn end_operation(&mut self, command: &Payload, complete: bool)
        ensures
            final(self).ready() == ready_after(*command, complete, old(self).ready()),
            final(self).proxies() == old(self).proxies(),
            final(self).manager() == old(self).manager(),
            final(self).failures() == old(self).failures(),
    {
        match command {
            Payload::Activate => {
                if complete {
                    self.is_ready = true;
                }
            },
            Payload::Deactivate | Payload::Reset => {
                self.is_ready = false;
            },
            _ => {},
        }
    }

    /// Hands out the oldest message that answered no waiting request; see
    /// [`CommunicationManager::next_unsolicited`].
    pub fn next_unsolicited(&mut self) -> (message: Option<Message>)
        requires
            old(self).wf(),
        ensures
            final(self).wf(),
            message == old(self).manager().oldest(),
            final(self).manager() == old(self).manager().without_oldest(),
            final(self).proxies() == old(self).proxies(),
            final(self).ready() == old(self).ready(),
            final(self).failures() == old(self).failures(),
    {
        self.comm_manager.next_unsolicited()
    }

    /// Takes in a message that has arrived; see
    /// [`CommunicationManager::process_incoming`].
    pub fn process_incoming_message(&mut self, message: Message) -> (matched: bool)
        requires
            old(self).wf(),
        ensures
            final(self).wf(),
            final(self).manager() == old(self).manager().deliver(message),
            matched == old(self).manager().is_pending(message.header.msg_id),
            final(self).proxies() == old(self).proxies(),
            final(self).ready() == old(self).ready(),
            final(self).failures() == old(self).failures(),
    {
        self.comm_manager.process_incoming(message)
    }
}

} // verus!
