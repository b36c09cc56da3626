use dd_sidecar::flag_evaluation::{
    FLAG_EVALUATION_DEGRADED_EVALUATIONS_METRIC, FLAG_EVALUATION_DROPPED_EVALUATIONS_METRIC,
    FLAG_EVALUATION_PAYLOAD_SPLITS_METRIC,
};

#[test]
fn self_telemetry_metric_names_describe_evaluation_count_units() {
    assert_eq!(
        FLAG_EVALUATION_DROPPED_EVALUATIONS_METRIC,
        "flagevaluation.evaluations.dropped"
    );
    assert_eq!(
        FLAG_EVALUATION_DEGRADED_EVALUATIONS_METRIC,
        "flagevaluation.evaluations.degraded"
    );
    assert_eq!(
        FLAG_EVALUATION_PAYLOAD_SPLITS_METRIC,
        "flagevaluation.payload.splits"
    );
}
