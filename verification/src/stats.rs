//! Reduction of a run's latency samples to its summary.

use crate::store::{effective, lemma_no_slots_no_samples, SampleStore};
use vstd::prelude::*;
use vstd::relations::*;
use vstd::seq_lib::*;
use vstd::slice::*;

verus! {

/// Hundredths of a request per second in one request per nanosecond.
pub const CENTI_PER_NANO: u128 = 100000000000u128;

/// The order of latencies: by their number of nanoseconds.
pub open spec fn nanos_leq() -> spec_fn(u64, u64) -> bool {
    |a: u64, b: u64| a <= b
}

/// The samples in ascending order.
pub open spec fn ascending(samples: Seq<u64>) -> Seq<u64> {
    samples.sort_by(nanos_leq())
}

/// Position of the `p`-th percentile among `len` sorted samples:
/// `floor(len * p / 100)`, held within the last position.
pub open spec fn percentile_index(len: nat, p: nat) -> int
    recommends
        len > 0,
{
    let raw = (len * p) / 100;
    if raw >= len {
        len - 1
    } else {
        raw as int
    }
}

/// The `p`-th percentile of sorted samples; zero where there is no sample.
pub open spec fn percentile_of(sorted: Seq<u64>, p: nat) -> u64 {
    if sorted.len() == 0 {
        0
    } else {
        sorted[percentile_index(sorted.len(), p)]
    }
}

/// Wall time per request, rounded down; zero for a run without requests.
pub open spec fn average_latency(total_requests: nat, total_nanos: nat) -> nat {
    if total_requests == 0 {
        0
    } else {
        total_nanos / total_requests
    }
}

/// Requests per second in hundredths, rounded down. A run without requests
/// has throughput zero; requests in no measurable time saturate the scale.
pub open spec fn throughput_centi(total_requests: nat, total_nanos: nat) -> nat {
    if total_requests == 0 {
        0
    } else if total_nanos == 0 {
        u128::MAX as nat
    } else {
        (total_requests * CENTI_PER_NANO as nat) / total_nanos
    }
}

/// Summary of one run.
#[derive(Clone, Copy, Debug, PartialEq, Eq, Structural)]
pub struct BenchResult {
    /// Requests that the run was configured to issue.
    pub total_requests: usize,
    /// Wall time of the run in nanoseconds.
    pub total_nanos: u128,
    /// Requests per second, in hundredths.
    pub throughput_centi: u128,
    /// Wall time divided by the number of requests, in nanoseconds.
    pub avg_latency_nanos: u128,
    pub p50_latency_nanos: u64,
    pub p95_latency_nanos: u64,
    pub p99_latency_nanos: u64,
    /// Requests that failed.
    pub errors: usize,
}

/// The summary that a run's figures determine.
pub open spec fn summary_of(
    total_requests: usize,
    total_nanos: u128,
    latencies: Seq<u64>,
    errors: usize,
) -> BenchResult {
    let sorted = ascending(latencies);
    BenchResult {
        total_requests,
        total_nanos,
        throughput_centi: throughput_centi(total_requests as nat, total_nanos as nat) as u128,
        avg_latency_nanos: average_latency(total_requests as nat, total_nanos as nat) as u128,
        p50_latency_nanos: percentile_of(sorted, 50),
        p95_latency_nanos: percentile_of(sorted, 95),
        p99_latency_nanos: percentile_of(sorted, 99),
        errors,
    }
}

/// The order of latencies is a total order.
pub proof fn lemma_nanos_leq_total()
    ensures
        total_ordering(nanos_leq()),
{
    let leq = nanos_leq();
    assert(reflexive(leq));
    assert(antisymmetric(leq));
    assert(transitive(leq));
    assert(strongly_connected(leq));
}

/// Sorts with `slice::sort` of std, which by its documentation leaves the
/// slice in ascending order and only rearranges what it holds.
#[verifier::external_body]
fn sort_ascending(v: &mut Vec<u64>)
    ensures
        sorted_by(final(v)@, nanos_leq()),
        final(v)@.to_multiset() == old(v)@.to_multiset(),
{
    v.sort();
}

/// The samples in ascending order, as a new vector.
pub fn sorted_samples(latencies: &[u64]) -> (sorted: Vec<u64>)
    ensures
        sorted@ == ascending(latencies@),
        sorted@.len() == latencies@.len(),
        sorted_by(sorted@, nanos_leq()),
        sorted@.to_multiset() == latencies@.to_multiset(),
{
    let mut v = slice_to_vec(latencies);
    sort_ascending(&mut v);
    proof {
        lemma_nanos_leq_total();
        latencies@.lemma_sort_by_ensures(nanos_leq());
        lemma_sorted_unique(v@, ascending(latencies@), nanos_leq());
        v@.to_multiset_ensures();
        latencies@.to_multiset_ensures();
    }
    v
}

/// The `p`-th percentile of sorted samples by nearest rank.
pub fn percentile(sorted: &[u64], p: u64) -> (v: u64)
    ensures
        v == percentile_of(sorted@, p as nat),
{
    let len: usize = sorted.len();
    if len == 0 {
        return 0;
    }
    assert(len as u128 * p as u128 <= u128::MAX) by (nonlinear_arith)
        requires
            len <= 0xffff_ffff_ffff_ffff,
            p <= 0xffff_ffff_ffff_ffff,
    ;
    let raw: u128 = (len as u128 * p as u128) / 100;
    let index: usize = if raw >= len as u128 {
        len - 1
    } else {
        raw as usize
    };
    sorted[index]
}

/// Wall time per request in nanoseconds.
pub fn average_latency_nanos(total_requests: usize, total_nanos: u128) -> (avg: u128)
    ensures
        avg == average_latency(total_requests as nat, total_nanos as nat),
{
    if total_requests == 0 {
        0
    } else {
        total_nanos / total_requests as u128
    }
}

/// Requests per second in hundredths.
pub fn throughput(total_requests: usize, total_nanos: u128) -> (t: u128)
    ensures
        t == throughput_centi(total_requests as nat, total_nanos as nat),
{
    if total_requests == 0 {
        0
    } else if total_nanos == 0 {
        u128::MAX
    } else {
        assert(total_requests as u128 * CENTI_PER_NANO <= u128::MAX) by (nonlinear_arith)
            requires
                total_requests <= 0xffff_ffff_ffff_ffff,
                CENTI_PER_NANO == 100000000000u128,
        ;
        (total_requests as u128 * CENTI_PER_NANO) / total_nanos
    }
}

impl BenchResult {
    /// Computes the summary of a run from the number of requests it was to
    /// issue, its wall time, the latencies of its successful requests in any
    /// order, and its number of failures.
    pub fn new(total_requests: usize, total_nanos: u128, latencies: &[u64], errors: usize) -> (r:
        BenchResult)
        ensures
            r == summary_of(total_requests, total_nanos, latencies@, errors),
            latencies@.len() == 0 ==> r.p50_latency_nanos == 0 && r.p95_latency_nanos == 0
                && r.p99_latency_nanos == 0,
            total_requests == 0 ==> r.throughput_centi == 0 && r.avg_latency_nanos == 0,
    {
        let sorted = sorted_samples(latencies);
        let throughput_centi = throughput(total_requests, total_nanos);
        let avg_latency_nanos = average_latency_nanos(total_requests, total_nanos);
        let p50 = percentile(sorted.as_slice(), 50);
        let p95 = percentile(sorted.as_slice(), 95);
        let p99 = percentile(sorted.as_slice(), 99);
        BenchResult {
            total_requests,
            total_nanos,
            throughput_centi,
            avg_latency_nanos,
            p50_latency_nanos: p50,
            p95_latency_nanos: p95,
            p99_latency_nanos: p99,
            errors,
        }
    }
}

/// Aggregates a finished run: the summary of as many requests as the store
/// has slots, over the store's effective samples and its error counter.
pub fn aggregate(store: &SampleStore, total_nanos: u128) -> (r: BenchResult)
    requires
        store.wf(),
    ensures
        r == summary_of(
            store.spec_capacity() as usize,
            total_nanos,
            effective(store.slots()),
            store.spec_errors() as usize,
        ),
{
    let samples = store.effective_samples();
    BenchResult::new(store.capacity(), total_nanos, samples.as_slice(), store.errors())
}

/// A percentile index lies within the samples.
pub proof fn lemma_percentile_index_in_range(len: nat, p: nat)
    requires
        len > 0,
    ensures
        0 <= percentile_index(len, p) < len,
{
}

/// Percentiles grow with their rank: over sorted samples, a lower rank
/// never gives a larger latency.
pub proof fn lemma_percentile_monotone(sorted: Seq<u64>, low: nat, high: nat)
    requires
        sorted.len() > 0,
        sorted_by(sorted, nanos_leq()),
        low <= high,
    ensures
        percentile_of(sorted, low) <= percentile_of(sorted, high),
{
    let len = sorted.len();
    assert(len * low <= len * high) by (nonlinear_arith)
        requires
            low <= high,
    ;
    let i = percentile_index(len, low);
    let j = percentile_index(len, high);
    assert(i <= j);
    if i < j {
        assert(nanos_leq()(sorted[i], sorted[j]));
    }
}

/// A run without requests has throughput zero, average latency zero and,
/// having no sample, every percentile zero.
pub proof fn lemma_empty_run(total_nanos: u128, errors: usize)
    ensures
        summary_of(0, total_nanos, Seq::empty(), errors) == (BenchResult {
            total_requests: 0,
            total_nanos,
            throughput_centi: 0,
            avg_latency_nanos: 0,
            p50_latency_nanos: 0,
            p95_latency_nanos: 0,
            p99_latency_nanos: 0,
            errors,
        }),
{
    lemma_nanos_leq_total();
    Seq::<u64>::empty().lemma_sort_by_ensures(nanos_leq());
    assert(ascending(Seq::<u64>::empty()).len() == 0) by {
        Seq::<u64>::empty().to_multiset_ensures();
        ascending(Seq::<u64>::empty()).to_multiset_ensures();
    }
}

/// A store without slots aggregates to the summary of an empty run,
/// whatever the wall time: no slot is read and nothing is divided by zero.
pub proof fn lemma_empty_store_summary(store: SampleStore, total_nanos: u128)
    requires
        store.wf(),
        store.spec_capacity() == 0,
    ensures
        summary_of(
            0,
            total_nanos,
            effective(store.slots()),
            store.spec_errors() as usize,
        ) == (BenchResult {
            total_requests: 0,
            total_nanos,
            throughput_centi: 0,
            avg_latency_nanos: 0,
            p50_latency_nanos: 0,
            p95_latency_nanos: 0,
            p99_latency_nanos: 0,
            errors: store.spec_errors() as usize,
        }),
{
    lemma_no_slots_no_samples(store.log());
    lemma_empty_run(total_nanos, store.spec_errors() as usize);
}

} // verus!
