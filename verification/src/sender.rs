//! The client side of the sidecar connection: when queued messages may be
//! drained, and how telemetry is shed when the connection backs up.
use vstd::prelude::*;
use crate::outbox::{OutboxRequest, SidecarOutbox, OUTBOX_SLOTS};

verus! {

/// Outstanding (unacknowledged) messages beyond which nothing more is sent
/// without blocking.
pub const DEFAULT_MAX_OUTSTANDING: u64 = 100;

/// Of the telemetry batches offered while the connection is backed up, one
/// in this many is sent.
pub const SHED_CYCLE: u8 = 10;

/// What draining the outbox does next.
#[derive(Debug, Clone, Copy, PartialEq, Eq, Structural)]
pub enum DrainStep {
    /// Nothing is queued: the outbox is drained.
    Done,
    /// Too many messages are outstanding: stop, and report the drain failed.
    Blocked,
    /// Send the message in this slot, then clear it.
    Send(usize),
}

/// `after` is `before` drained up to slot `k`: the slots before `k` are
/// empty, and `k` and the slots after it are as they were.
pub open spec fn drained_before<P>(
    before: Seq<Option<OutboxRequest<P>>>,
    after: Seq<Option<OutboxRequest<P>>>,
    k: int,
) -> bool {
    &&& 0 <= k <= OUTBOX_SLOTS
    &&& after.len() == OUTBOX_SLOTS
    &&& forall|j: int| 0 <= j < k ==> #[trigger] after[j] is None
    &&& forall|j: int| k <= j < OUTBOX_SLOTS ==> #[trigger] after[j] == before[j]
}

/// The limit on outstanding messages and the position in the shedding cycle.
pub struct LoadShedder {
    max_outstanding: u64,
    enqueue_actions_counter: u8,
}

impl LoadShedder {
    /// The limit on outstanding messages.
    pub closed spec fn limit(&self) -> u64 {
        self.max_outstanding
    }

    /// The position in the shedding cycle.
    pub closed spec fn counter(&self) -> u8 {
        self.enqueue_actions_counter
    }

    /// The invariant: the position stays within the cycle.
    pub open spec fn wf(&self) -> bool {
        self.counter() < SHED_CYCLE
    }

    /// The default limit, at the start of the cycle.
    pub fn new() -> (res: Self)
        ensures
            res.wf(),
            res.limit() == DEFAULT_MAX_OUTSTANDING,
            res.counter() == 0,
    {
        LoadShedder { max_outstanding: DEFAULT_MAX_OUTSTANDING, enqueue_actions_counter: 0 }
    }

    /// The limit on outstanding messages.
    pub fn max_outstanding(&self) -> (res: u64)
        ensures
            res == self.limit(),
    {
        self.max_outstanding
    }

    /// Sets the limit on outstanding messages.
    pub fn set_max_outstanding(&mut self, limit: u64)
        requires
            old(self).wf(),
        ensures
            final(self).wf(),
            final(self).limit() == limit,
            final(self).counter() == old(self).counter(),
    {
        self.max_outstanding = limit;
    }

    /// The next step of draining `outbox` while `outstanding` messages await
    /// acknowledgement: queued messages go in slot order, each only while
    /// fewer than the limit are outstanding.
    pub fn drain_step<P>(&self, outbox: &SidecarOutbox<P>, outstanding: u64) -> (res: DrainStep)
        ensures
            (forall|j: int| 0 <= j < OUTBOX_SLOTS ==> #[trigger] outbox.slots()[j] is None) ==> res
                == DrainStep::Done,
            (exists|j: int| 0 <= j < OUTBOX_SLOTS && #[trigger] outbox.slots()[j] is Some) ==> {
                if outstanding >= self.limit() {
                    res == DrainStep::Blocked
                } else {
                    res matches DrainStep::Send(i) && i < OUTBOX_SLOTS && outbox.slots()[i as int] is Some
                        && forall|j: int| 0 <= j < i ==> #[trigger] outbox.slots()[j] is None
                }
            },
    {
        match outbox.next_queued() {
            None => DrainStep::Done,
            Some(i) => {
                if outstanding >= self.max_outstanding {
                    DrainStep::Blocked
                } else {
                    DrainStep::Send(i)
                }
            },
        }
    }

    /// Drains `outbox` without blocking. Queued messages are offered to
    /// `try_send` in slot order, each once, while fewer than the limit are
    /// outstanding (as `outstanding` reads before each one); a message that
    /// went is removed. The drain stops at the first message that is blocked
    /// or that `try_send` refuses, leaving it and those after it in place.
    /// Returns whether everything went.
    pub fn try_drain_outbox<P, O: Fn() -> u64, S: Fn(&OutboxRequest<P>) -> bool>(
        &self,
        outbox: &mut SidecarOutbox<P>,
        outstanding: O,
        try_send: S,
    ) -> (res: bool)
        requires
            call_requires(outstanding, ()),
            forall|m: &OutboxRequest<P>| call_requires(try_send, (m,)),
        ensures
            res <==> forall|j: int| 0 <= j < OUTBOX_SLOTS ==> #[trigger] final(outbox).slots()[j] is None,
            exists|k: int|
                #![trigger drained_before(old(outbox).slots(), final(outbox).slots(), k)]
                drained_before(old(outbox).slots(), final(outbox).slots(), k) && (forall|j: int|
                    0 <= j < k && (#[trigger] old(outbox).slots()[j]) is Some ==> call_ensures(
                    try_send,
                    (&old(outbox).slots()[j]->0,),
                    true,
                )) && (!res ==> (k
                    < OUTBOX_SLOTS && old(outbox).slots()[k] is Some && ((exists|o: u64|
                    call_ensures(outstanding, (), o) && o >= self.limit()) || call_ensures(
                    try_send,
                    (&old(outbox).slots()[k]->0,),
                    false,
                )))),
    {
        let ghost s0 = outbox.slots();
        let ghost mut k: int = 0;
        proof {
            outbox.lemma_slot_count();
            assert(drained_before(s0, outbox.slots(), 0));
        }
        loop
            invariant
                call_requires(outstanding, ()),
                forall|m: &OutboxRequest<P>| call_requires(try_send, (m,)),
                s0 == old(outbox).slots(),
                drained_before(s0, outbox.slots(), k),
                forall|j: int|
                    0 <= j < k && (#[trigger] s0[j]) is Some ==> call_ensures(
                        try_send,
                        (&s0[j]->0,),
                        true,
                    ),
            decreases OUTBOX_SLOTS - k,
        {
            match outbox.next_queued() {
                None => {
                    assert(drained_before(s0, outbox.slots(), k));
                    return true;
                },
                Some(i) => {
                    let ghost cur = outbox.slots();
                    assert(drained_before(s0, cur, i as int)) by {
                        assert forall|j: int| i <= j < OUTBOX_SLOTS implies #[trigger] cur[j] == s0[j] by {
                            if j < k {
                                assert(cur[j] is None);
                                assert(cur[i as int] is Some);
                            }
                        }
                        assert(i >= k) by {
                            if (i as int) < k {
                                assert(cur[i as int] is None);
                            }
                        }
                    }
                    assert forall|j: int|
                        0 <= j < i && (#[trigger] s0[j]) is Some implies call_ensures(
                        try_send,
                        (&s0[j]->0,),
                        true,
                    ) by {
                        if j >= k {
                            assert(cur[j] is None);
                            assert(cur[j] == s0[j]);
                        }
                    }
                    let o = outstanding();
                    if o >= self.max_outstanding {
                        return false;
                    }
                    let sent = match outbox.slot(i) {
                        Some(msg) => try_send(msg),
                        None => true,
                    };
                    if !sent {
                        return false;
                    }
                    outbox.take_slot(i);
                    proof {
                        outbox.lemma_slot_count();
                        assert forall|j: int|
                            0 <= j < i + 1 && (#[trigger] s0[j]) is Some implies call_ensures(
                            try_send,
                            (&s0[j]->0,),
                            true,
                        ) by {
                            if j < k {
                            } else if j < i {
                                assert(cur[j] is None);
                                assert(cur[j] == s0[j]);
                            }
                        }
                        k = i + 1;
                        assert(drained_before(s0, outbox.slots(), k));
                    }
                },
            }
        }
    }

    /// The decision for a telemetry batch offered to the sender: it is
    /// dropped when the outbox could not be drained (`drained` is false),
    /// and otherwise admitted as [`LoadShedder::admit_actions`] says.
    pub fn enqueue_actions(&mut self, drained: bool, outstanding: u64) -> (send: bool)
        requires
            old(self).wf(),
        ensures
            final(self).wf(),
            final(self).limit() == old(self).limit(),
            !drained ==> !send && final(self).counter() == old(self).counter(),
            drained && outstanding <= old(self).limit() / 2 ==> send && final(self).counter() == old(
                self,
            ).counter(),
            drained && outstanding > old(self).limit() / 2 ==> final(self).counter() == (old(
                self,
            ).counter() + 1) % (SHED_CYCLE as int) && send == (final(self).counter() == 0),
    {
        if !drained {
            return false;
        }
        self.admit_actions(outstanding)
    }

    /// Whether a telemetry batch offered while `outstanding` messages await
    /// acknowledgement goes out: always while at most half the limit is
    /// outstanding; beyond that, one in [`SHED_CYCLE`].
    pub fn admit_actions(&mut self, outstanding: u64) -> (admitted: bool)
        requires
            old(self).wf(),
        ensures
            final(self).wf(),
            final(self).limit() == old(self).limit(),
            outstanding <= old(self).limit() / 2 ==> admitted && final(self).counter() == old(
                self,
            ).counter(),
            outstanding > old(self).limit() / 2 ==> final(self).counter() == (old(
                self,
            ).counter() + 1) % (SHED_CYCLE as int) && admitted == (final(self).counter() == 0),
    {
        if outstanding > self.max_outstanding / 2 {
            self.enqueue_actions_counter = (self.enqueue_actions_counter + 1) % SHED_CYCLE;
            self.enqueue_actions_counter == 0
        } else {
            true
        }
    }
}

/// The position in the shedding cycle after `k` batches offered under
/// pressure, from position `c`.
pub open spec fn cycle_after(c: int, k: nat) -> int
    decreases k,
{
    if k == 0 {
        c
    } else {
        (cycle_after(c, (k - 1) as nat) + 1) % (SHED_CYCLE as int)
    }
}

/// Under pressure, of any [`SHED_CYCLE`] batches offered one after another,
/// exactly one goes out: from position `c`, the `k`-th offer (counting
/// from 1) is admitted exactly when `k` is `SHED_CYCLE - c`.
pub proof fn lemma_one_in_cycle_admitted(c: int, k: nat)
    requires
        0 <= c < SHED_CYCLE,
        1 <= k <= SHED_CYCLE,
    ensures
        cycle_after(c, k) == (c + k) % (SHED_CYCLE as int),
        (cycle_after(c, k) == 0) <==> k == SHED_CYCLE - c,
    decreases k,
{
    if k > 1 {
        lemma_one_in_cycle_admitted(c, (k - 1) as nat);
    }
    assert(cycle_after(c, k) == (cycle_after(c, (k - 1) as nat) + 1) % 10);
    if k == 1 {
        assert(cycle_after(c, 0) == c);
    }
}

} // verus!
