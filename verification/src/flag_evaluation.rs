//! Names under which flag-evaluation delivery reports itself to telemetry.
use vstd::prelude::*;

verus! {

/// Metric: evaluations dropped before they could be sent.
pub const FLAG_EVALUATION_DROPPED_EVALUATIONS_METRIC: &'static str =
    "flagevaluation.evaluations.dropped";

/// Metric: evaluations sent in degraded form.
pub const FLAG_EVALUATION_DEGRADED_EVALUATIONS_METRIC: &'static str =
    "flagevaluation.evaluations.degraded";

/// Metric: payloads split to fit the size limit.
pub const FLAG_EVALUATION_PAYLOAD_SPLITS_METRIC: &'static str = "flagevaluation.payload.splits";

/// Reason tag: the degraded-evaluation cap was reached.
pub const FLAG_EVALUATION_REASON_DEGRADED_CAP: &'static str = "degraded_cap";

/// Reason tag: the cardinality cap was reached.
pub const FLAG_EVALUATION_REASON_CARDINALITY_CAP: &'static str = "cardinality_cap";

/// Reason tag: the payload size limit was reached.
pub const FLAG_EVALUATION_REASON_PAYLOAD_LIMIT: &'static str = "payload_limit";

/// How long batches are coalesced before they are sent, in milliseconds.
pub const COALESCE_DELAY_MS: u64 = 250;

} // verus!
