use dd_sidecar::normalizer::{
    is_valid_status_code, normalize_chunk, normalize_trace, ChunkSpan, NormalizeError,
    SamplerPriority, TraceChunk, TraceSpan,
    TAG_ORIGIN, TAG_SAMPLING_PRIORITY,
};

/// A span with neither a sampling priority nor an origin left on it.
fn new_test_span() -> ChunkSpan {
    ChunkSpan { sampling_priority: None, origin: None }
}

fn new_test_chunk_with_span(span: ChunkSpan) -> TraceChunk {
    TraceChunk { priority: 1, origin: "".to_string(), spans: vec![span] }
}

#[test]
fn test_is_valid_status_code() {
    assert!(is_valid_status_code("100"));
    assert!(is_valid_status_code("599"));
    assert!(!is_valid_status_code("99"));
    assert!(!is_valid_status_code("600"));
    assert!(!is_valid_status_code("Invalid status code"));
}

#[test]
fn status_code_edges() {
    assert!(is_valid_status_code("200"));
    assert!(!is_valid_status_code(""));
    assert!(!is_valid_status_code("-200"));
    assert!(is_valid_status_code("+200"));
    assert!(!is_valid_status_code("1000"));
}

#[test]
fn sampler_priorities_have_their_wire_values() {
    assert_eq!(SamplerPriority::AutoDrop.value(), 0);
    assert_eq!(SamplerPriority::AutoKeep.value(), 1);
    assert_eq!(SamplerPriority::UserKeep.value(), 2);
    assert_eq!(SamplerPriority::Unset.value(), -128);
    assert_eq!(TAG_SAMPLING_PRIORITY, "_sampling_priority_v1");
    assert_eq!(TAG_ORIGIN, "_dd.origin");
}

#[test]
fn test_normalize_chunk_populating_origin() {
    let mut root = new_test_span();
    root.origin = Some("rum".to_string());

    let mut chunk = new_test_chunk_with_span(root);
    chunk.origin = "".to_string();
    assert!(normalize_chunk(&mut chunk, 0).is_ok());
    assert_eq!("rum".to_string(), chunk.origin);
}

#[test]
fn test_normalize_chunk_not_populating_origin() {
    let mut root = new_test_span();
    root.origin = Some("rum".to_string());

    let mut chunk = new_test_chunk_with_span(root);
    chunk.origin = "lambda".to_string();
    assert!(normalize_chunk(&mut chunk, 0).is_ok());
    assert_eq!("lambda".to_string(), chunk.origin);
}

#[test]
fn test_normalize_chunk_populating_sampling_priority() {
    let mut root = new_test_span();
    root.sampling_priority = Some(SamplerPriority::UserKeep.value());

    let mut chunk = new_test_chunk_with_span(root);
    chunk.priority = SamplerPriority::Unset.value();
    assert!(normalize_chunk(&mut chunk, 0).is_ok());
    assert_eq!(SamplerPriority::UserKeep.value(), chunk.priority);
}

#[test]
fn test_normalize_chunk_not_populating_sampling_priority() {
    let mut root = new_test_span();
    root.sampling_priority = Some(SamplerPriority::UserKeep.value());

    let mut chunk = new_test_chunk_with_span(root);
    chunk.priority = SamplerPriority::AutoDrop.value();
    assert!(normalize_chunk(&mut chunk, 0).is_ok());
    assert_eq!(SamplerPriority::AutoDrop.value(), chunk.priority);
}

#[test]
fn test_normalize_chunk_invalid_root_span() {
    let mut chunk = new_test_chunk_with_span(new_test_span());

    let result = normalize_chunk(&mut chunk, 1);
    assert!(result.is_err());
    assert_eq!(
        result.unwrap_err().message(),
        "Normalize Chunk Error: root_span_index > length of trace chunk spans"
    );
}

#[test]
fn test_normalize_populate_priority_from_any_span() {
    let mut chunk = new_test_chunk_with_span(new_test_span());
    chunk.priority = SamplerPriority::Unset.value();
    chunk.spans = vec![new_test_span(), new_test_span(), new_test_span()];
    chunk.spans[1].sampling_priority = Some(SamplerPriority::UserKeep.value());
    assert!(normalize_chunk(&mut chunk, 0).is_ok());
    assert_eq!(SamplerPriority::UserKeep.value(), chunk.priority);
}

#[test]
fn chunk_normalization_prefers_the_root_span_and_keeps_what_is_set() {
    let mut chunk = TraceChunk {
        priority: SamplerPriority::Unset.value(),
        origin: "".to_string(),
        spans: vec![
            ChunkSpan { sampling_priority: Some(1), origin: Some("synthetics".to_string()) },
            ChunkSpan { sampling_priority: Some(2), origin: Some("rum".to_string()) },
        ],
    };
    assert_eq!(normalize_chunk(&mut chunk, 1), Ok(()));
    assert_eq!(chunk.priority, 2);
    assert_eq!(chunk.origin, "rum");

    let mut untouched = TraceChunk {
        priority: SamplerPriority::Unset.value(),
        origin: "".to_string(),
        spans: vec![new_test_span(), new_test_span()],
    };
    assert_eq!(normalize_chunk(&mut untouched, 1), Ok(()));
    assert_eq!(untouched.priority, -128);
    assert_eq!(untouched.origin, "");

    let mut empty = TraceChunk { priority: 1, origin: "".to_string(), spans: vec![] };
    assert_eq!(normalize_chunk(&mut empty, 0), Err(NormalizeError::RootSpanOutOfRange));
}

#[test]
fn normalizing_a_chunk_twice_changes_nothing_more() {
    let mut chunk = TraceChunk {
        priority: SamplerPriority::Unset.value(),
        origin: "".to_string(),
        spans: vec![
            ChunkSpan { sampling_priority: None, origin: Some("".to_string()) },
            ChunkSpan { sampling_priority: Some(SamplerPriority::Unset.value()), origin: None },
        ],
    };
    assert_eq!(normalize_chunk(&mut chunk, 0), Ok(()));
    assert_eq!((chunk.priority, chunk.origin.clone()), (-128, String::new()));
    assert_eq!(normalize_chunk(&mut chunk, 0), Ok(()));
    assert_eq!((chunk.priority, chunk.origin.clone()), (-128, String::new()));
}

fn trace_span(span_id: u64) -> TraceSpan {
    TraceSpan { trace_id: 424242, span_id, http_status_code: None }
}

#[test]
fn test_normalize_trace_empty() {
    let mut trace = vec![];
    let result = normalize_trace(&mut trace);
    assert!(result.is_err());
    assert!(result.unwrap_err().message().contains("Normalize Trace Error: Trace is empty"));
}

#[test]
fn test_normalize_trace_trace_id_mismatch() {
    let mut span_1 = trace_span(1);
    let mut span_2 = trace_span(2);
    span_1.trace_id = 1;
    span_2.trace_id = 2;

    let mut trace = vec![span_1, span_2];
    let result = normalize_trace(&mut trace);
    assert!(result.is_err());
    assert!(result.unwrap_err().message().contains("Normalize Trace Error: Trace has foreign span"));
}

#[test]
fn test_normalize_trace() {
    let span_1 = trace_span(7);
    let mut span_2 = trace_span(7);
    span_2.span_id += 1;

    let mut trace = vec![span_1, span_2];
    assert!(normalize_trace(&mut trace).is_ok());
}

#[test]
fn trace_normalization_drops_invalid_status_codes_up_to_the_first_bad_span() {
    let mut trace = vec![
        TraceSpan { trace_id: 5, span_id: 1, http_status_code: Some("200".to_owned()) },
        TraceSpan { trace_id: 5, span_id: 2, http_status_code: Some("999".to_owned()) },
        TraceSpan { trace_id: 5, span_id: 0, http_status_code: Some("abc".to_owned()) },
    ];
    assert_eq!(normalize_trace(&mut trace), Err(NormalizeError::SpanIdZero));
    assert_eq!(trace[0].http_status_code.as_deref(), Some("200"));
    assert_eq!(trace[1].http_status_code, None);
    assert_eq!(trace[2].http_status_code.as_deref(), Some("abc"));

    let mut zero = vec![TraceSpan { trace_id: 0, span_id: 1, http_status_code: None }];
    let e = normalize_trace(&mut zero).unwrap_err();
    assert_eq!(e.message(), "TraceID is zero (reason:trace_id_zero)");
}
