use rustrans::metrics::AppState;
use rustrans::metrics::LATENCY_WINDOW;

#[test]
fn test_balanced_pairs_small() {
    let n: u64 = 5;
    let mut state = AppState::new();
    for _ in 0..n {
        state.record_request();
        state.record_success(12);
    }
    let snap = state.snapshot();
    assert_eq!(snap.requests_total, n);
    assert_eq!(snap.requests_success, n);
    assert_eq!(snap.requests_error, 0);
    assert_eq!(snap.concurrent_requests, 0);
    assert_eq!(snap.response_times_ms.len(), n as usize);
}

#[test]
fn test_balanced_pairs_overflowing_window() {
    let n = LATENCY_WINDOW + 5;
    let mut state = AppState::new();
    for i in 0..n {
        state.record_request();
        state.record_success(i as u64);
    }
    let snap = state.snapshot();
    assert_eq!(snap.requests_total, n as u64);
    assert_eq!(snap.concurrent_requests, 0);
    assert_eq!(snap.response_times_ms.len(), LATENCY_WINDOW);
    // the oldest samples were evicted first
    assert_eq!(snap.response_times_ms[0], 5);
    assert_eq!(snap.response_times_ms[LATENCY_WINDOW - 1], (n - 1) as u64);
}

#[test]
fn test_error_decrements_in_flight() {
    let mut state = AppState::new();
    state.record_request();
    state.record_request();
    assert_eq!(state.concurrent_requests, 2);
    state.record_error();
    let snap = state.snapshot();
    assert_eq!(snap.requests_total, 2);
    assert_eq!(snap.requests_error, 1);
    assert_eq!(snap.requests_success, 0);
    assert_eq!(snap.concurrent_requests, 1);
    assert!(snap.response_times_ms.is_empty());
}

#[test]
fn test_total_latency() {
    let mut state = AppState::new();
    for d in [10u64, 20, 30] {
        state.record_request();
        state.record_success(d);
    }
    assert_eq!(state.total_latency_ms(), 60);
    assert_eq!(AppState::new().total_latency_ms(), 0);
}
