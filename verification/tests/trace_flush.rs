use dd_sidecar::evp::endpoint::Endpoint;
use dd_sidecar::trace_flush::{
    EnqueueAction, FlushLimits, SendDataResult, TraceBuffers, TraceFlusherMetrics,
    DEFAULT_MIN_FORCE_FLUSH_SIZE_BYTES,
};

fn endpoint(url: &str) -> Endpoint {
    Endpoint { url: url.to_owned(), api_key: None, timeout_ms: 3_000, test_token: None }
}

fn limits() -> FlushLimits {
    FlushLimits { min_force_flush_size_bytes: DEFAULT_MIN_FORCE_FLUSH_SIZE_BYTES, min_force_drop_size_bytes: 5_000_000 }
}

#[test]
fn test_min_flush_size() {
    let mut buffers: TraceBuffers<&str> = TraceBuffers::new();
    let agent = endpoint("http://localhost:8126/");
    let size = DEFAULT_MIN_FORCE_FLUSH_SIZE_BYTES as usize / 2;
    assert_eq!(buffers.enqueue(&agent, "one", size, limits()), EnqueueAction::Buffered { start_flusher: true, force_flush: false });
    assert_eq!(buffers.enqueue(&agent, "two", size, limits()), EnqueueAction::Buffered { start_flusher: false, force_flush: false });
    assert_eq!(buffers.enqueue(&agent, "three", size, limits()), EnqueueAction::Buffered { start_flusher: false, force_flush: true });
    assert_eq!(buffers.buffered_size(&agent), 3 * size);
}

#[test]
fn test_drop_size_no_flush() {
    let mut buffers: TraceBuffers<&str> = TraceBuffers::new();
    let agent = endpoint("http://localhost:8126/");
    let l = FlushLimits { min_force_flush_size_bytes: 100, min_force_drop_size_bytes: 100 };
    assert_eq!(buffers.enqueue(&agent, "big", 101, l), EnqueueAction::Dropped);
    assert_eq!(buffers.buffered_size(&agent), 0);
    assert!(buffers.take_payloads(&agent).is_empty());
}

#[test]
fn endpoints_buffer_independently_and_drain() {
    let mut buffers: TraceBuffers<u8> = TraceBuffers::new();
    let a = endpoint("http://a:8126/");
    let b = endpoint("http://b:8126/");
    buffers.enqueue(&a, 1, 10, limits());
    buffers.enqueue(&b, 2, 20, limits());
    buffers.enqueue(&a, 3, 30, limits());
    assert_eq!(buffers.take_payloads(&a), vec![1, 3]);
    assert_eq!(buffers.buffered_size(&a), 0);
    assert_eq!(buffers.buffered_size(&b), 20);
    // The flusher of `a` ends once its buffer stayed empty; `b` still has data.
    assert!(buffers.finish_flush(&a));
    assert!(!buffers.finish_flush(&b));
    // A later payload for `a` needs a new flusher.
    assert_eq!(buffers.enqueue(&a, 4, 1, limits()), EnqueueAction::Buffered { start_flusher: true, force_flush: false });
}

#[test]
fn metrics_accumulate_per_counter_and_status_code() {
    let mut metrics = TraceFlusherMetrics::default();
    let result = SendDataResult {
        requests_count: 2,
        responses_count_per_code: vec![(200, 1), (503, 1)],
        errors_timeout: 1,
        errors_network: 0,
        errors_status_code: 1,
        bytes_sent: 512,
        chunks_sent: 3,
        chunks_dropped: 1,
    };
    metrics.update(&result);
    metrics.update(&SendDataResult { responses_count_per_code: vec![(200, 4)], ..result });
    assert_eq!(metrics.api_requests, 4);
    assert_eq!(metrics.api_errors_timeout, 2);
    assert_eq!(metrics.api_errors_status_code, 2);
    assert_eq!(metrics.bytes_sent, 1024);
    assert_eq!(metrics.chunks_sent, 6);
    assert_eq!(metrics.chunks_dropped, 2);
    assert_eq!(metrics.api_responses_count_per_code.get(&200), Some(&5));
    assert_eq!(metrics.api_responses_count_per_code.get(&503), Some(&1));
    assert_eq!(metrics.api_responses_count_per_code.len(), 2);
}
