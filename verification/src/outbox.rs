//! The priority outbox of state-change messages sent to the sidecar.
//!
//! Each slot holds the most recent pending message of its kind; slots are
//! drained in priority order before fire-and-forget messages. Queuing a
//! message also cancels pending ones that it makes obsolete.
use vstd::prelude::*;
use crate::ids::{InstanceId, QueueId};

verus! {

/// A state-change message. `P` is the rest of the message, which coalescing
/// never reads.
pub enum OutboxRequest<P> {
    SetSessionConfig(P),
    SetSessionProcessTags(P),
    SetUniversalServiceTags { instance_id: InstanceId, queue_id: QueueId, payload: P },
    SetRequestConfig { instance_id: InstanceId, queue_id: QueueId, payload: P },
    ClearQueueId { instance_id: InstanceId, queue_id: QueueId },
    ShutdownRuntime { instance_id: InstanceId },
    ShutdownSession,
}

/// Number of outbox slots.
pub const OUTBOX_SLOTS: usize = 7;

/// The slot, in drain order, that holds messages of this kind.
pub open spec fn slot_of<P>(r: OutboxRequest<P>) -> int {
    match r {
        OutboxRequest::SetSessionConfig(_) => 0,
        OutboxRequest::SetSessionProcessTags(_) => 1,
        OutboxRequest::SetUniversalServiceTags { .. } => 2,
        OutboxRequest::SetRequestConfig { .. } => 3,
        OutboxRequest::ClearQueueId { .. } => 4,
        OutboxRequest::ShutdownRuntime { .. } => 5,
        OutboxRequest::ShutdownSession => 6,
    }
}

/// A per-instance configuration message for `iid`.
pub open spec fn targets_instance<P>(r: OutboxRequest<P>, iid: (Seq<char>, Seq<char>)) -> bool {
    match r {
        OutboxRequest::SetUniversalServiceTags { instance_id, .. } => instance_id@ == iid,
        OutboxRequest::SetRequestConfig { instance_id, .. } => instance_id@ == iid,
        _ => false,
    }
}

/// A per-queue configuration message for queue `q` of `iid`.
pub open spec fn targets_queue<P>(r: OutboxRequest<P>, iid: (Seq<char>, Seq<char>), q: QueueId) -> bool {
    match r {
        OutboxRequest::SetUniversalServiceTags { instance_id, queue_id, .. } => instance_id@ == iid
            && queue_id == q,
        OutboxRequest::SetRequestConfig { instance_id, queue_id, .. } => instance_id@ == iid
            && queue_id == q,
        _ => false,
    }
}

/// `slot`, emptied when `cancel` holds of its message.
pub open spec fn cancelled<P>(slot: Option<OutboxRequest<P>>, cancel: spec_fn(OutboxRequest<P>) -> bool) -> Option<OutboxRequest<P>> {
    match slot {
        Some(r) => if cancel(r) { None } else { slot },
        None => None,
    }
}

/// The outbox slots after queuing `incoming`: a runtime shutdown cancels the
/// runtime's pending service tags and request config, a session shutdown
/// cancels the pending session config, clearing a queue cancels that queue's
/// pending service tags and request config; then `incoming` replaces the
/// message of its kind.
pub open spec fn coalesced<P>(slots: Seq<Option<OutboxRequest<P>>>, incoming: OutboxRequest<P>) -> Seq<Option<OutboxRequest<P>>> {
    let after_cancel = match incoming {
        OutboxRequest::ShutdownRuntime { instance_id } => slots.update(
            3,
            cancelled(slots[3], |r: OutboxRequest<P>| targets_instance(r, instance_id@)),
        ).update(2, cancelled(slots[2], |r: OutboxRequest<P>| targets_instance(r, instance_id@))),
        OutboxRequest::ShutdownSession => slots.update(0, None),
        OutboxRequest::ClearQueueId { instance_id, queue_id } => slots.update(
            3,
            cancelled(slots[3], |r: OutboxRequest<P>| targets_queue(r, instance_id@, queue_id)),
        ).update(2, cancelled(slots[2], |r: OutboxRequest<P>| targets_queue(r, instance_id@, queue_id))),
        _ => slots,
    };
    after_cancel.update(slot_of(incoming), Some(incoming))
}

/// Every slot holds only messages of its own kind.
pub open spec fn slots_well_kinded<P>(slots: Seq<Option<OutboxRequest<P>>>) -> bool {
    slots.len() == 7 && forall|i: int| 0 <= i < 7 ==> (#[trigger] slots[i] matches Some(r) ==> slot_of(r) == i)
}

/// Pending state-change messages, at most one per kind.
pub struct SidecarOutbox<P> {
    set_session_config: Option<OutboxRequest<P>>,
    set_session_process_tags: Option<OutboxRequest<P>>,
    set_universal_service_tags: Option<OutboxRequest<P>>,
    set_request_config: Option<OutboxRequest<P>>,
    clear_queue_id: Option<OutboxRequest<P>>,
    shutdown_runtime: Option<OutboxRequest<P>>,
    shutdown_session: Option<OutboxRequest<P>>,
}

/// Whether `slot` holds a per-instance message of `instance_id`.
fn cancels_instance<P>(slot: &Option<OutboxRequest<P>>, instance_id: &InstanceId) -> (res: bool)
    ensures
        res == (*slot matches Some(r) && targets_instance(r, instance_id@)),
{
    match slot {
        Some(OutboxRequest::SetUniversalServiceTags { instance_id: id, .. }) => id.same_as(instance_id),
        Some(OutboxRequest::SetRequestConfig { instance_id: id, .. }) => id.same_as(instance_id),
        _ => false,
    }
}

/// Whether `slot` holds a per-queue message of `queue_id` of `instance_id`.
fn cancels_queue<P>(slot: &Option<OutboxRequest<P>>, instance_id: &InstanceId, queue_id: &QueueId) -> (res: bool)
    ensures
        res == (*slot matches Some(r) && targets_queue(r, instance_id@, *queue_id)),
{
    match slot {
        Some(OutboxRequest::SetUniversalServiceTags { instance_id: id, queue_id: q, .. }) => id.same_as(
            instance_id,
        ) && q.inner == queue_id.inner,
        Some(OutboxRequest::SetRequestConfig { instance_id: id, queue_id: q, .. }) => id.same_as(
            instance_id,
        ) && q.inner == queue_id.inner,
        _ => false,
    }
}

impl<P> SidecarOutbox<P> {
    /// The outbox's invariant: each slot holds only messages of its own kind.
    #[verifier::type_invariant]
    closed spec fn well_kinded(self) -> bool {
        slots_well_kinded(self.slots())
    }

    /// The slots in drain (priority) order.
    pub closed spec fn slots(&self) -> Seq<Option<OutboxRequest<P>>> {
        seq![
            self.set_session_config,
            self.set_session_process_tags,
            self.set_universal_service_tags,
            self.set_request_config,
            self.clear_queue_id,
            self.shutdown_runtime,
            self.shutdown_session,
        ]
    }

    /// An outbox has one slot per kind.
    pub proof fn lemma_slot_count(&self)
        ensures
            self.slots().len() == OUTBOX_SLOTS,
    {
    }

    /// An empty outbox.
    pub fn new() -> (res: Self)
        ensures
            res.slots() == Seq::new(7, |i: int| None::<OutboxRequest<P>>),
            slots_well_kinded(res.slots()),
    {
        let o = SidecarOutbox {
            set_session_config: None,
            set_session_process_tags: None,
            set_universal_service_tags: None,
            set_request_config: None,
            clear_queue_id: None,
            shutdown_runtime: None,
            shutdown_session: None,
        };
        assert(o.slots() =~= Seq::new(7, |i: int| None::<OutboxRequest<P>>));
        o
    }

    /// Queues `incoming`, cancelling the pending messages it makes obsolete
    /// (see [`coalesced`]).
    pub fn coalesce(&mut self, incoming: OutboxRequest<P>)
        ensures
            final(self).slots() == coalesced(old(self).slots(), incoming),
            slots_well_kinded(old(self).slots()),
            slots_well_kinded(final(self).slots()),
    {
        proof {
            use_type_invariant(&*self);
        }
        let ghost s0 = self.slots();
        let ghost inc = incoming;
        match &incoming {
            OutboxRequest::ShutdownRuntime { instance_id } => {
                if cancels_instance(&self.set_request_config, instance_id) {
                    self.set_request_config = None;
                }
                if cancels_instance(&self.set_universal_service_tags, instance_id) {
                    self.set_universal_service_tags = None;
                }
            },
            OutboxRequest::ShutdownSession => {
                self.set_session_config = None;
            },
            OutboxRequest::ClearQueueId { instance_id, queue_id } => {
                if cancels_queue(&self.set_request_config, instance_id, queue_id) {
                    self.set_request_config = None;
                }
                if cancels_queue(&self.set_universal_service_tags, instance_id, queue_id) {
                    self.set_universal_service_tags = None;
                }
            },
            _ => {},
        }
        let ghost s1 = self.slots();
        match incoming {
            OutboxRequest::SetSessionConfig(_) => {
                self.set_session_config = Some(incoming);
            },
            OutboxRequest::SetSessionProcessTags(_) => {
                self.set_session_process_tags = Some(incoming);
            },
            OutboxRequest::SetUniversalServiceTags { .. } => {
                self.set_universal_service_tags = Some(incoming);
            },
            OutboxRequest::SetRequestConfig { .. } => {
                self.set_request_config = Some(incoming);
            },
            OutboxRequest::ClearQueueId { .. } => {
                self.clear_queue_id = Some(incoming);
            },
            OutboxRequest::ShutdownRuntime { .. } => {
                self.shutdown_runtime = Some(incoming);
            },
            OutboxRequest::ShutdownSession => {
                self.shutdown_session = Some(incoming);
            },
        }
        assert(self.slots() =~= coalesced(s0, inc));
    }

    /// The pending message in slot `i` (drain order).
    pub fn slot(&self, i: usize) -> (res: &Option<OutboxRequest<P>>)
        requires
            i < OUTBOX_SLOTS,
        ensures
            *res == self.slots()[i as int],
            slots_well_kinded(self.slots()),
    {
        proof {
            use_type_invariant(self);
        }
        match i {
            0 => &self.set_session_config,
            1 => &self.set_session_process_tags,
            2 => &self.set_universal_service_tags,
            3 => &self.set_request_config,
            4 => &self.clear_queue_id,
            5 => &self.shutdown_runtime,
            _ => &self.shutdown_session,
        }
    }

    /// Removes and returns the pending message in slot `i`.
    pub fn take_slot(&mut self, i: usize) -> (res: Option<OutboxRequest<P>>)
        requires
            i < OUTBOX_SLOTS,
        ensures
            res == old(self).slots()[i as int],
            final(self).slots() == old(self).slots().update(i as int, None),
            slots_well_kinded(old(self).slots()),
            slots_well_kinded(final(self).slots()),
    {
        proof {
            use_type_invariant(&*self);
        }
        let ghost s0 = self.slots();
        let mut r: Option<OutboxRequest<P>> = None;
        match i {
            0 => std::mem::swap(&mut r, &mut self.set_session_config),
            1 => std::mem::swap(&mut r, &mut self.set_session_process_tags),
            2 => std::mem::swap(&mut r, &mut self.set_universal_service_tags),
            3 => std::mem::swap(&mut r, &mut self.set_request_config),
            4 => std::mem::swap(&mut r, &mut self.clear_queue_id),
            5 => std::mem::swap(&mut r, &mut self.shutdown_runtime),
            _ => std::mem::swap(&mut r, &mut self.shutdown_session),
        }
        assert(self.slots() =~= s0.update(i as int, None));
        r
    }

    /// The first slot (in drain order) that holds a message, if any.
    pub fn next_queued(&self) -> (res: Option<usize>)
        ensures
            match res {
                Some(i) => i < OUTBOX_SLOTS && self.slots()[i as int] is Some && forall|j: int|
                    0 <= j < i ==> #[trigger] self.slots()[j] is None,
                None => forall|j: int| 0 <= j < OUTBOX_SLOTS ==> #[trigger] self.slots()[j] is None,
            },
    {
        let mut i: usize = 0;
        while i < OUTBOX_SLOTS
            invariant
                i <= OUTBOX_SLOTS,
                forall|j: int| 0 <= j < i ==> #[trigger] self.slots()[j] is None,
            decreases OUTBOX_SLOTS - i,
        {
            if self.slot(i).is_some() {
                return Some(i);
            }
            i = i + 1;
        }
        None
    }

    /// Whether no message is pending.
    pub fn is_empty(&self) -> (res: bool)
        ensures
            res == (forall|i: int| 0 <= i < 7 ==> #[trigger] self.slots()[i] is None),
    {
        let r = self.set_session_config.is_none() && self.set_session_process_tags.is_none()
            && self.set_universal_service_tags.is_none() && self.set_request_config.is_none()
            && self.clear_queue_id.is_none() && self.shutdown_runtime.is_none()
            && self.shutdown_session.is_none();
        if !r {
            if self.set_session_config.is_some() { assert(self.slots()[0] is Some); }
            if self.set_session_process_tags.is_some() { assert(self.slots()[1] is Some); }
            if self.set_universal_service_tags.is_some() { assert(self.slots()[2] is Some); }
            if self.set_request_config.is_some() { assert(self.slots()[3] is Some); }
            if self.clear_queue_id.is_some() { assert(self.slots()[4] is Some); }
            if self.shutdown_runtime.is_some() { assert(self.slots()[5] is Some); }
            if self.shutdown_session.is_some() { assert(self.slots()[6] is Some); }
        }
        r
    }
}

/// Coalescing keeps every slot to its own kind, places the incoming message
/// in its slot, and leaves the slots it has no business with untouched.
pub proof fn lemma_coalesce_keeps_one_message_per_kind<P>(
    slots: Seq<Option<OutboxRequest<P>>>,
    incoming: OutboxRequest<P>,
)
    requires
        slots_well_kinded(slots),
    ensures
        slots_well_kinded(coalesced(slots, incoming)),
        coalesced(slots, incoming)[slot_of(incoming)] == Some(incoming),
        forall|i: int|
            0 <= i < 7 && i != slot_of(incoming) && i != 0 && i != 2 && i != 3 ==> #[trigger] coalesced(
                slots,
                incoming,
            )[i] == slots[i],
{
}

/// A runtime shutdown leaves no pending service tags or request config of
/// that runtime; a session shutdown leaves no pending session config.
pub proof fn lemma_shutdown_cancels_pending_configuration<P>(
    slots: Seq<Option<OutboxRequest<P>>>,
    incoming: OutboxRequest<P>,
)
    requires
        slots_well_kinded(slots),
    ensures
        incoming matches OutboxRequest::ShutdownRuntime { instance_id } ==> (!(coalesced(slots, incoming)[2] matches Some(r)
            && targets_instance(r, instance_id@)) && !(coalesced(slots, incoming)[3] matches Some(r)
            && targets_instance(r, instance_id@))),
        incoming is ShutdownSession ==> coalesced(slots, incoming)[0] is None,
        incoming matches OutboxRequest::ClearQueueId { instance_id, queue_id } ==> (!(coalesced(slots, incoming)[2] matches Some(r)
            && targets_queue(r, instance_id@, queue_id)) && !(coalesced(slots, incoming)[3] matches Some(r)
            && targets_queue(r, instance_id@, queue_id))),
{
}

/// Draining slot by slot in order empties the outbox.
pub proof fn lemma_drained_outbox_is_empty<P>(slots: Seq<Option<OutboxRequest<P>>>)
    requires
        slots.len() == 7,
    ensures
        ({
            let d = slots.update(0, None).update(1, None).update(2, None).update(3, None).update(4, None)
                .update(5, None).update(6, None);
            forall|i: int| 0 <= i < 7 ==> #[trigger] d[i] is None
        }),
{
}

/// A runtime shutdown cancels only that runtime's pending per-instance
/// messages, and clearing a queue only that queue's: a pending service-tags
/// or request-config message of any other runtime (or queue) stays in its
/// slot.
pub proof fn lemma_cancellation_spares_other_instances<P>(
    slots: Seq<Option<OutboxRequest<P>>>,
    instance_id: InstanceId,
    queue_id: QueueId,
)
    requires
        slots_well_kinded(slots),
    ensures
        forall|j: int|
            (j == 2 || j == 3) && !(slots[j] matches Some(r) && targets_instance(r, instance_id@))
                ==> #[trigger] coalesced(slots, OutboxRequest::ShutdownRuntime { instance_id })[j]
                == slots[j],
        forall|j: int|
            (j == 2 || j == 3) && !(slots[j] matches Some(r) && targets_queue(
                r,
                instance_id@,
                queue_id,
            )) ==> #[trigger] coalesced(
                slots,
                OutboxRequest::ClearQueueId { instance_id, queue_id },
            )[j] == slots[j],
        coalesced(slots, OutboxRequest::ShutdownRuntime { instance_id })[0] == slots[0],
        coalesced(slots, OutboxRequest::ShutdownRuntime { instance_id })[1] == slots[1],
        coalesced(slots, OutboxRequest::ShutdownRuntime { instance_id })[4] == slots[4],
        coalesced(slots, OutboxRequest::ShutdownRuntime { instance_id })[6] == slots[6],
{
}

} // verus!
