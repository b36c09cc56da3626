//! What one client connection keeps track of: the instances it has used,
//! which are stopped when it closes, and how the actions it enqueues are
//! handled.
use vstd::prelude::*;
use crate::ids::InstanceId;
use crate::evp::endpoint::Endpoint;
use crate::evp::config::opt_endpoint_view;
use crate::app_telemetry::{
    route_enqueued_actions, exposure_destination, kind_indices, ActionRouting, EnqueuedKind,
};

verus! {

/// The instances a connection has sent messages for, each once.
pub struct ConnectionInstances {
    ids: Vec<InstanceId>,
}

impl View for ConnectionInstances {
    type V = Set<(Seq<char>, Seq<char>)>;

    closed spec fn view(&self) -> Set<(Seq<char>, Seq<char>)> {
        Set::new(|x: (Seq<char>, Seq<char>)| exists|i: int| 0 <= i < self.ids@.len() && self.ids@[i]@ == x)
    }
}

impl ConnectionInstances {
    /// The invariant: no instance is kept twice.
    pub closed spec fn wf(&self) -> bool {
        forall|i: int, j: int|
            0 <= i < j < self.ids@.len() ==> (#[trigger] self.ids@[i])@ != (#[trigger] self.ids@[j])@
    }

    /// No instance yet.
    pub fn new() -> (res: Self)
        ensures
            res.wf(),
            res@ == Set::<(Seq<char>, Seq<char>)>::empty(),
    {
        let res = ConnectionInstances { ids: Vec::new() };
        assert(res@ =~= Set::<(Seq<char>, Seq<char>)>::empty());
        res
    }

    /// Records that the connection used `id`, so that it is stopped when
    /// the connection closes.
    pub fn track(&mut self, id: &InstanceId)
        requires
            old(self).wf(),
        ensures
            final(self).wf(),
            final(self)@ == old(self)@.insert(id@),
    {
        let mut i: usize = 0;
        while i < self.ids.len()
            invariant
                i <= self.ids@.len(),
                self.ids@ == old(self).ids@,
                old(self).wf(),
                forall|j: int| 0 <= j < i ==> (#[trigger] self.ids@[j])@ != id@,
            decreases self.ids@.len() - i,
        {
            if self.ids[i].same_as(id) {
                assert(self@ =~= self@.insert(id@));
                return;
            }
            i = i + 1;
        }
        let ghost before = self.ids@;
        assert(!old(self)@.contains(id@)) by {
            if old(self)@.contains(id@) {
                let k = choose|k: int| 0 <= k < before.len() && before[k]@ == id@;
                assert(self.ids@[k]@ != id@);
            }
        }
        self.ids.push(InstanceId::new(id.session_id.as_str(), id.runtime_id.as_str()));
        assert forall|x: (Seq<char>, Seq<char>)| self@.contains(x) <==> old(self)@.insert(id@).contains(x) by {
            if self@.contains(x) {
                let k = choose|k: int| 0 <= k < self.ids@.len() && self.ids@[k]@ == x;
                if k < before.len() {
                    assert(self.ids@[k] == before[k]);
                }
            }
            if old(self)@.contains(x) {
                let k = choose|k: int| 0 <= k < before.len() && before[k]@ == x;
                assert(self.ids@[k] == before[k]);
            }
            if x == id@ {
                assert(self.ids@[before.len() as int]@ == id@);
            }
        }
        assert(self@ =~= old(self)@.insert(id@));
        assert forall|a: int, b: int| 0 <= a < b < self.ids@.len() implies (#[trigger] self.ids@[a])@
            != (#[trigger] self.ids@[b])@ by {
            if b == before.len() {
                assert(self.ids@[a] == before[a]);
            } else {
                assert(self.ids@[a] == before[a]);
                assert(self.ids@[b] == before[b]);
            }
        }
    }

    /// The instances to stop when the connection closes, each once.
    pub fn instances(&self) -> (res: Vec<InstanceId>)
        requires
            self.wf(),
        ensures
            forall|x: (Seq<char>, Seq<char>)|
                self@.contains(x) <==> exists|i: int| 0 <= i < res@.len() && (#[trigger] res@[i])@ == x,
            forall|i: int, j: int| 0 <= i < j < res@.len() ==> (#[trigger] res@[i])@ != (#[trigger] res@[j])@,
    {
        let mut out: Vec<InstanceId> = Vec::new();
        let mut i: usize = 0;
        while i < self.ids.len()
            invariant
                self.wf(),
                i <= self.ids@.len(),
                out@.len() == i,
                forall|j: int| 0 <= j < i ==> (#[trigger] out@[j])@ == self.ids@[j]@,
            decreases self.ids@.len() - i,
        {
            let id = &self.ids[i];
            out.push(InstanceId::new(id.session_id.as_str(), id.runtime_id.as_str()));
            i = i + 1;
        }
        assert forall|x: (Seq<char>, Seq<char>)|
            self@.contains(x) <==> exists|k: int| 0 <= k < out@.len() && (#[trigger] out@[k])@ == x by {
            if self@.contains(x) {
                let k = choose|k: int| 0 <= k < self.ids@.len() && self.ids@[k]@ == x;
                assert(out@[k]@ == x);
            }
            if exists|k: int| 0 <= k < out@.len() && (#[trigger] out@[k])@ == x {
                let k = choose|k: int| 0 <= k < out@.len() && (#[trigger] out@[k])@ == x;
                assert(self.ids@[k]@ == x);
            }
        }
        assert forall|a: int, b: int| 0 <= a < b < out@.len() implies (#[trigger] out@[a])@ != (#[trigger] out@[b])@ by {
            assert(out@[a]@ == self.ids@[a]@);
            assert(out@[b]@ == self.ids@[b]@);
        }
        out
    }
}

/// How a batch of actions a connection enqueued is handled.
#[derive(Debug)]
pub struct EnqueuePlan {
    /// Where each action goes.
    pub routing: ActionRouting,
    /// Whether the telemetry actions are handed to the application's client:
    /// there are some, and the runtime has an application for the queue.
    pub schedule: bool,
}

/// The first step of handling actions that a connection enqueued for
/// `instance_id`: the instance is recorded for cleanup when the connection
/// closes; feature-flag exposures and evaluation metrics are split out (see
/// [`route_enqueued_actions`]), whether or not an application is
/// registered; the rest goes to the application's telemetry client when
/// the runtime has an application for the queue.
pub fn plan_enqueued_actions(
    instances: &mut ConnectionInstances,
    instance_id: &InstanceId,
    kinds: &Vec<EnqueuedKind>,
    session_endpoint: &Option<Endpoint>,
    has_otlp_endpoint: bool,
    has_application: bool,
) -> (res: EnqueuePlan)
    requires
        old(instances).wf(),
    ensures
        final(instances).wf(),
        final(instances)@ == old(instances)@.insert(instance_id@),
        opt_endpoint_view(res.routing.exposure_endpoint) == exposure_destination(
            opt_endpoint_view(*session_endpoint),
        ),
        res.routing.exposures@ == (if res.routing.exposure_endpoint is Some {
            kind_indices(kinds@, EnqueuedKind::FfeExposures, kinds@.len())
        } else {
            Seq::empty()
        }),
        res.routing.evaluation_metrics@ == (if has_otlp_endpoint {
            kind_indices(kinds@, EnqueuedKind::FfeEvaluationMetrics, kinds@.len())
        } else {
            Seq::empty()
        }),
        res.routing.scheduled@ == kind_indices(kinds@, EnqueuedKind::Telemetry, kinds@.len()),
        res.schedule == (has_application && res.routing.scheduled@.len() > 0),
{
    instances.track(instance_id);
    let routing = route_enqueued_actions(kinds, session_endpoint, has_otlp_endpoint);
    let schedule = has_application && routing.scheduled.len() > 0;
    EnqueuePlan { routing, schedule }
}

} // verus!
