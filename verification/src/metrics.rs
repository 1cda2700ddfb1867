//! Request metrics: counters and a bounded window of recent latencies.
//!
//! Every request records a start, and exactly one success or error
//! afterwards; successes also record their wall-clock duration in a
//! fixed-capacity window that evicts its oldest entry on overflow. The
//! unverified shell shares one registry between concurrent requests behind
//! atomic counters and a short-lived lock; this module holds the registry's
//! value and the exact effect of each recording.

use vstd::prelude::*;

verus! {

/// How many recent response times are kept.
pub const LATENCY_WINDOW: usize = 1000;

/// The abstract state of the metrics registry.
#[verifier::ext_equal]
pub struct MetricsView {
    pub requests_total: u64,
    pub requests_success: u64,
    pub requests_error: u64,
    pub concurrent_requests: u64,
    pub response_times_ms: Seq<u64>,
}

/// The metrics registry before any request was recorded.
pub open spec fn initial_metrics() -> MetricsView {
    MetricsView {
        requests_total: 0,
        requests_success: 0,
        requests_error: 0,
        concurrent_requests: 0,
        response_times_ms: Seq::<u64>::empty(),
    }
}

/// A latency window with one more sample: the oldest entry leaves first
/// when the window is full.
pub open spec fn push_evict(w: Seq<u64>, d: u64) -> Seq<u64> {
    let p = w.push(d);
    if p.len() > LATENCY_WINDOW {
        p.drop_first()
    } else {
        p
    }
}

/// The effect of recording the start of a request.
pub open spec fn spec_record_request(m: MetricsView) -> MetricsView {
    MetricsView {
        requests_total: (m.requests_total + 1) as u64,
        concurrent_requests: (m.concurrent_requests + 1) as u64,
        ..m
    }
}

/// The effect of recording a successful request of the given duration.
pub open spec fn spec_record_success(m: MetricsView, duration_ms: u64) -> MetricsView {
    MetricsView {
        requests_success: (m.requests_success + 1) as u64,
        concurrent_requests: (m.concurrent_requests - 1) as u64,
        response_times_ms: push_evict(m.response_times_ms, duration_ms),
        ..m
    }
}

/// The effect of recording a failed request.
pub open spec fn spec_record_error(m: MetricsView) -> MetricsView {
    MetricsView {
        requests_error: (m.requests_error + 1) as u64,
        concurrent_requests: (m.concurrent_requests - 1) as u64,
        ..m
    }
}

/// The sum of the samples in a latency window.
pub open spec fn sum_latencies(w: Seq<u64>) -> int
    decreases w.len(),
{
    if w.len() == 0 {
        0
    } else {
        w[0] + sum_latencies(w.drop_first())
    }
}

/// Collected service metrics: counters and the recent response times in
/// milliseconds, oldest first.
#[derive(Clone, Debug)]
pub struct AppState {
    pub requests_total: u64,
    pub requests_success: u64,
    pub requests_error: u64,
    pub concurrent_requests: u64,
    pub response_times_ms: Vec<u64>,
}

impl View for AppState {
    type V = MetricsView;

    open spec fn view(&self) -> MetricsView {
        MetricsView {
            requests_total: self.requests_total,
            requests_success: self.requests_success,
            requests_error: self.requests_error,
            concurrent_requests: self.concurrent_requests,
            response_times_ms: self.response_times_ms@,
        }
    }
}

/// A point-in-time copy of the registry, safe to read without further
/// synchronization.
#[derive(Clone, Debug)]
pub struct MetricsSnapshot {
    pub requests_total: u64,
    pub requests_success: u64,
    pub requests_error: u64,
    pub concurrent_requests: u64,
    pub response_times_ms: Vec<u64>,
}

impl AppState {
    /// The registry's window never outgrows its capacity.
    pub open spec fn inv(self) -> bool {
        self@.response_times_ms.len() <= LATENCY_WINDOW
    }

    /// A fresh registry with nothing recorded.
    pub fn new() -> (r: Self)
        ensures
            r@ == initial_metrics(),
            r.inv(),
    {
        let r = AppState {
            requests_total: 0,
            requests_success: 0,
            requests_error: 0,
            concurrent_requests: 0,
            response_times_ms: Vec::new(),
        };
        proof {
            assert(r@ =~= initial_metrics());
        }
        r
    }

    /// Records the start of a request: one more request in total, one more
    /// in flight.
    pub fn record_request(&mut self)
        requires
            old(self)@.requests_total < u64::MAX,
            old(self)@.concurrent_requests < u64::MAX,
        ensures
            final(self)@ == spec_record_request(old(self)@),
            old(self).inv() ==> final(self).inv(),
    {
        self.requests_total = self.requests_total + 1;
        self.concurrent_requests = self.concurrent_requests + 1;
        proof {
            assert(self@ =~= spec_record_request(old(self)@));
        }
    }

    /// Records a success and its duration: one more success, one less in
    /// flight, and the duration appended to the window, evicting the oldest
    /// sample when the window is full.
    pub fn record_success(&mut self, duration_ms: u64)
        requires
            old(self).inv(),
            old(self)@.requests_success < u64::MAX,
            old(self)@.concurrent_requests > 0,
        ensures
            final(self)@ == spec_record_success(old(self)@, duration_ms),
            final(self).inv(),
    {
        self.requests_success = self.requests_success + 1;
        self.concurrent_requests = self.concurrent_requests - 1;
        self.response_times_ms.push(duration_ms);
        if self.response_times_ms.len() > LATENCY_WINDOW {
            self.response_times_ms.remove(0);
            proof {
                assert(self.response_times_ms@ =~= old(
                    self,
                )@.response_times_ms.push(duration_ms).drop_first());
            }
        }
        proof {
            assert(self@ =~= spec_record_success(old(self)@, duration_ms));
        }
    }

    /// Records a failure: one more error, one less in flight.
    pub fn record_error(&mut self)
        requires
            old(self)@.requests_error < u64::MAX,
            old(self)@.concurrent_requests > 0,
        ensures
            final(self)@ == spec_record_error(old(self)@),
            old(self).inv() ==> final(self).inv(),
    {
        self.requests_error = self.requests_error + 1;
        self.concurrent_requests = self.concurrent_requests - 1;
        proof {
            assert(self@ =~= spec_record_error(old(self)@));
        }
    }

    /// Takes a point-in-time copy of the registry.
    pub fn snapshot(&self) -> (r: MetricsSnapshot)
        ensures
            r.requests_total == self@.requests_total,
            r.requests_success == self@.requests_success,
            r.requests_error == self@.requests_error,
            r.concurrent_requests == self@.concurrent_requests,
            r.response_times_ms@ == self@.response_times_ms,
    {
        let n = self.response_times_ms.len();
        let mut times: Vec<u64> = Vec::new();
        let mut i: usize = 0;
        while i < n
            invariant
                n == self.response_times_ms@.len(),
                i <= n,
                times@ == self.response_times_ms@.take(i as int),
            decreases n - i,
        {
            times.push(self.response_times_ms[i]);
            proof {
                assert(times@ =~= self.response_times_ms@.take(i as int + 1));
            }
            i = i + 1;
        }
        proof {
            assert(self.response_times_ms@.take(n as int) =~= self.response_times_ms@);
        }
        MetricsSnapshot {
            requests_total: self.requests_total,
            requests_success: self.requests_success,
            requests_error: self.requests_error,
            concurrent_requests: self.concurrent_requests,
            response_times_ms: times,
        }
    }

    /// The sum of the response times currently in the window, for average
    /// latency computed on demand.
    pub fn total_latency_ms(&self) -> (r: u128)
        requires
            self.inv(),
        ensures
            r == sum_latencies(self@.response_times_ms),
    {
        let w = &self.response_times_ms;
        let n = w.len();
        let mut r: u128 = 0;
        proof {
            assert(w@.skip(0) =~= w@);
        }
        let mut i: usize = 0;
        while i < n
            invariant
                n == w@.len(),
                n <= LATENCY_WINDOW,
                i <= n,
                r + sum_latencies(w@.skip(i as int)) == sum_latencies(w@),
                r <= i * (u64::MAX as int),
            decreases n - i,
        {
            proof {
                assert(w@.skip(i as int)[0] == w@[i as int]);
                assert(w@.skip(i as int).drop_first() =~= w@.skip(i as int + 1));
            }
            r = r + w[i] as u128;
            i = i + 1;
        }
        proof {
            assert(w@.skip(n as int) =~= Seq::<u64>::empty());
        }
        r
    }
}

/// The registry after a number of balanced rounds, each recording one start
/// and then one success of the given duration, starting from a fresh
/// registry.
pub open spec fn after_balanced_rounds(n: nat, duration_ms: u64) -> MetricsView
    decreases n,
{
    if n == 0 {
        initial_metrics()
    } else {
        spec_record_success(spec_record_request(after_balanced_rounds((n - 1) as nat, duration_ms)), duration_ms)
    }
}

/// After any number of balanced start/success rounds the registry counts
/// exactly that many requests and successes, no errors, nobody in flight,
/// and keeps as many samples as fit the window.
pub proof fn lemma_balanced_rounds(n: nat, duration_ms: u64)
    requires
        n <= u64::MAX,
    ensures
        after_balanced_rounds(n, duration_ms).requests_total == n,
        after_balanced_rounds(n, duration_ms).requests_success == n,
        after_balanced_rounds(n, duration_ms).requests_error == 0,
        after_balanced_rounds(n, duration_ms).concurrent_requests == 0,
        after_balanced_rounds(n, duration_ms).response_times_ms.len() == (if n <= LATENCY_WINDOW {
            n as int
        } else {
            LATENCY_WINDOW as int
        }),
    decreases n,
{
    if n > 0 {
        lemma_balanced_rounds((n - 1) as nat, duration_ms);
    }
}

/// Recording the start of one request and the success of another commute:
/// the registry ends in the same state whichever is recorded first.
pub proof fn lemma_request_success_commute(m: MetricsView, duration_ms: u64)
    requires
        m.requests_total < u64::MAX,
        m.requests_success < u64::MAX,
        m.concurrent_requests > 0,
        m.concurrent_requests < u64::MAX,
    ensures
        spec_record_success(spec_record_request(m), duration_ms) == spec_record_request(
            spec_record_success(m, duration_ms),
        ),
{
    assert(spec_record_success(spec_record_request(m), duration_ms) =~= spec_record_request(
        spec_record_success(m, duration_ms),
    ));
}

} // verus!
