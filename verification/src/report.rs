//! The report generator: post-run numeric summary.
//!
//! After the join barrier the recorder's final state is turned into a
//! report: a sorted copy of the latencies yields nearest-rank percentiles,
//! and the counters yield throughput and success rate. All figures are
//! integers — durations in nanoseconds, throughput in thousandths of a
//! request per second, the success rate in hundredths of a percent — so
//! every formula is stated and proved exactly.

use vstd::prelude::*;
use vstd::relations::sorted_by;
use vstd::relations::total_ordering;
use vstd::seq_lib::lemma_sorted_unique;
use vstd::arithmetic::mul::lemma_mul_inequality;
use vstd::arithmetic::mul::lemma_mul_is_commutative;
use vstd::arithmetic::mul::lemma_mul_is_distributive_add;
use vstd::arithmetic::mul::lemma_mul_nonnegative;
use vstd::arithmetic::div_mod::lemma_div_is_ordered;
use vstd::arithmetic::div_mod::lemma_div_multiples_vanish;
use vstd::arithmetic::div_mod::lemma_fundamental_div_mod;
use vstd::arithmetic::div_mod::lemma_mod_bound;
use crate::outcome::TimedOutcome;
use crate::recorder::RunStats;
use crate::recorder::failure_count_of;
use crate::recorder::latencies_of;
use crate::recorder::lemma_counts_order_independent;
use crate::recorder::success_count_of;

verus! {

/// Nanoseconds per second, times one thousand: scales a request count to
/// thousandths of a request per second when divided by elapsed nanoseconds.
pub const THROUGHPUT_SCALE: u128 = 1_000_000_000_000;

/// The ascending order on latencies.
pub open spec fn latency_leq() -> spec_fn(u64, u64) -> bool {
    |x: u64, y: u64| x <= y
}

/// The ascending order on latencies is a total order.
pub proof fn lemma_latency_leq_total()
    ensures
        total_ordering(latency_leq()),
{
}

/// A latency sequence rearranged into ascending order.
pub open spec fn sorted_latencies(s: Seq<u64>) -> Seq<u64> {
    s.sort_by(latency_leq())
}

/// Ascending order, stated directly over indices.
pub open spec fn sorted_asc(s: Seq<u64>) -> bool {
    forall|p: int, q: int| 0 <= p < q < s.len() ==> #[trigger] s[p] <= #[trigger] s[q]
}

/// The nearest-rank index of percentile `k` in a sorted sequence of length
/// `len`: the element at `floor(k * len / 100)`, clamped to the last index.
pub open spec fn percentile_index(k: int, len: int) -> int {
    let i = k * len / 100;
    if i > len - 1 {
        len - 1
    } else {
        i
    }
}

/// The nearest-rank percentile `k` of a latency sequence.
pub open spec fn spec_percentile(s: Seq<u64>, k: int) -> u64
    recommends
        s.len() > 0,
{
    sorted_latencies(s)[percentile_index(k, s.len() as int)]
}

/// The nearest-rank index is a valid index.
pub proof fn lemma_percentile_index_in_range(k: int, len: int)
    requires
        0 <= k,
        0 < len,
    ensures
        0 <= percentile_index(k, len) < len,
{
    lemma_mul_nonnegative(k, len);
    lemma_div_is_ordered(0, k * len, 100);
}

/// A higher percentile never has a lower nearest-rank index.
pub proof fn lemma_percentile_index_monotone(k1: int, k2: int, len: int)
    requires
        0 <= k1 <= k2,
        0 < len,
    ensures
        percentile_index(k1, len) <= percentile_index(k2, len),
{
    lemma_mul_inequality(k1, k2, len);
    lemma_div_is_ordered(k1 * len, k2 * len, 100);
}

/// Nearest-rank monotonicity: over any non-empty latency set the 50th
/// percentile is at most the 95th, which is at most the 99th.
pub proof fn lemma_percentiles_monotone(s: Seq<u64>)
    requires
        s.len() > 0,
    ensures
        spec_percentile(s, 50) <= spec_percentile(s, 95),
        spec_percentile(s, 95) <= spec_percentile(s, 99),
{
    broadcast use vstd::seq_lib::group_to_multiset_ensures;

    lemma_latency_leq_total();
    s.lemma_sort_by_ensures(latency_leq());
    let t = sorted_latencies(s);
    assert(s.to_multiset().len() == s.len());
    assert(t.to_multiset().len() == t.len());
    assert(t.len() == s.len());
    let len = s.len() as int;
    lemma_percentile_index_in_range(50, len);
    lemma_percentile_index_in_range(95, len);
    lemma_percentile_index_in_range(99, len);
    lemma_percentile_index_monotone(50, 95, len);
    lemma_percentile_index_monotone(95, 99, len);
    let i1 = percentile_index(50, len);
    let i2 = percentile_index(95, len);
    let i3 = percentile_index(99, len);
    if i1 < i2 {
        assert(latency_leq()(t[i1], t[i2]));
    }
    if i2 < i3 {
        assert(latency_leq()(t[i2], t[i3]));
    }
}

/// Sorts a latency vector into ascending order.
///
/// The result is exactly the specification-level sorted rearrangement of
/// the input.
pub fn sort_ascending(input: &Vec<u64>) -> (out: Vec<u64>)
    ensures
        out@ == sorted_latencies(input@),
        out@.len() == input@.len(),
        sorted_asc(out@),
{
    broadcast use vstd::seq_lib::group_to_multiset_ensures;

    let mut out: Vec<u64> = Vec::new();
    let ghost empty_prefix = input@.subrange(0, 0);
    proof {
        assert(empty_prefix =~= Seq::<u64>::empty());
        assert(out@.to_multiset() =~= empty_prefix.to_multiset());
    }
    let mut i: usize = 0;
    while i < input.len()
        invariant
            i <= input.len(),
            sorted_asc(out@),
            out@.to_multiset() == input@.subrange(0, i as int).to_multiset(),
            out@.len() == i,
        decreases input.len() - i,
    {
        let x = input[i];
        let mut j: usize = 0;
        while j < out.len() && out[j] <= x
            invariant
                j <= out.len(),
                sorted_asc(out@),
                forall|p: int| 0 <= p < j ==> #[trigger] out@[p] <= x,
            decreases out.len() - j,
        {
            j = j + 1;
        }
        let ghost prev = out@;
        out.insert(j, x);
        proof {
            assert(out@ =~= prev.insert(j as int, x));
            prev.insert_ensures(j as int, x);
            assert forall|p: int, q: int| 0 <= p < q < out@.len() implies #[trigger] out@[p]
                <= #[trigger] out@[q] by {
                if q < j {
                    assert(out@[p] == prev[p] && out@[q] == prev[q]);
                } else if p > j {
                    assert(out@[p] == prev[p - 1] && out@[q] == prev[q - 1]);
                } else if p < j && q == j {
                    assert(out@[p] == prev[p] && out@[q] == x);
                } else if p == j {
                    assert(out@[p] == x && out@[q] == prev[q - 1]);
                    if j < prev.len() {
                        assert(!(prev[j as int] <= x));
                        if j < q - 1 {
                            assert(prev[j as int] <= prev[q - 1]);
                        }
                    }
                } else {
                    assert(p < j < q);
                    assert(out@[p] == prev[p] && out@[q] == prev[q - 1]);
                    if j < q - 1 {
                        assert(prev[j as int] <= prev[q - 1]);
                        assert(!(prev[j as int] <= x));
                    }
                }
            }
            vstd::seq_lib::to_multiset_insert(prev, j as int, x);
            assert(out@.to_multiset() == prev.to_multiset().insert(x));
            vstd::seq_lib::to_multiset_build(input@.subrange(0, i as int), input@[i as int]);
            assert(input@.subrange(0, i + 1) =~= input@.subrange(0, i as int).push(input@[i as int]));
            assert(input@.subrange(0, i + 1).to_multiset()
                == input@.subrange(0, i as int).to_multiset().insert(x));
        }
        i = i + 1;
    }
    proof {
        assert(input@.subrange(0, input@.len() as int) =~= input@);
        lemma_latency_leq_total();
        input@.lemma_sort_by_ensures(latency_leq());
        assert(sorted_by(out@, latency_leq())) by {
            assert forall|p: int, q: int| 0 <= p < q < out@.len() implies latency_leq()(
                out@[p],
                out@[q],
            ) by {
                assert(out@[p] <= out@[q]);
            }
        }
        lemma_sorted_unique(out@, input@.sort_by(latency_leq()), latency_leq());
        assert(out@ =~= sorted_latencies(input@));
    }
    out
}

/// Reads the nearest-rank percentile `k` out of an already sorted vector.
fn percentile_of_sorted(sorted: &Vec<u64>, k: usize) -> (r: u64)
    requires
        sorted@.len() > 0,
        k <= 100,
    ensures
        r == sorted@[percentile_index(k as int, sorted@.len() as int)],
{
    let len = sorted.len();
    let last: usize = len - 1;
    proof {
        lemma_mul_inequality(k as int, 100, len as int);
        lemma_mul_inequality(len as int, usize::MAX as int, 100);
        lemma_mul_is_commutative(100, len as int);
        lemma_percentile_index_in_range(k as int, len as int);
    }
    let prod: u128 = (k as u128) * (len as u128);
    let idx128: u128 = prod / 100;
    let idx: usize = if idx128 >= (last as u128) {
        last
    } else {
        idx128 as usize
    };
    sorted[idx]
}

/// The derived, read-only summary of one completed run.
#[derive(Clone, Copy, Debug, PartialEq, Eq, Structural)]
pub struct Report {
    /// Number of operations that succeeded.
    pub success_count: u64,
    /// Number of operations that failed (status or transport).
    pub failure_count: u64,
    /// Completed operations per second, in thousandths of a request.
    pub throughput_milli_per_sec: u128,
    /// Share of successes among all completed operations, in hundredths
    /// of a percent (so `10000` means every operation succeeded).
    pub success_rate_centi_pct: u64,
    /// Nearest-rank 50th percentile latency, in nanoseconds.
    pub p50_nanos: u64,
    /// Nearest-rank 95th percentile latency, in nanoseconds.
    pub p95_nanos: u64,
    /// Nearest-rank 99th percentile latency, in nanoseconds.
    pub p99_nanos: u64,
}

/// What the report generator produced: a full report, or the statement
/// that nothing was measured.
#[derive(Clone, Copy, Debug, PartialEq, Eq, Structural)]
pub enum ReportOutcome {
    /// The run recorded no operation at all, so no figure is defined.
    EmptyReport,
    /// The run recorded at least one operation.
    Ready(Report),
}

/// Derives the numeric summary of a completed run.
///
/// Returns [`ReportOutcome::EmptyReport`] exactly when no operation was
/// recorded — nothing was measured, and no division happens. Otherwise
/// every figure of the report is pinned: the percentiles are nearest-rank
/// reads of the sorted latencies, the throughput is the completed count
/// scaled by [`THROUGHPUT_SCALE`] and divided by the elapsed nanoseconds,
/// and the success rate is the success share in hundredths of a percent.
pub fn generate(stats: &RunStats, elapsed_nanos: u64) -> (r: ReportOutcome)
    requires
        stats.inv(),
        elapsed_nanos > 0,
    ensures
        r is EmptyReport <==> stats@.latencies.len() == 0,
        r matches ReportOutcome::Ready(rep) ==> {
            &&& rep.success_count == stats@.success
            &&& rep.failure_count == stats@.failed
            &&& rep.throughput_milli_per_sec == (stats@.success + stats@.failed)
                * THROUGHPUT_SCALE / (elapsed_nanos as int)
            &&& rep.success_rate_centi_pct == 10000 * stats@.success / (stats@.success
                + stats@.failed)
            &&& rep.p50_nanos == spec_percentile(stats@.latencies, 50)
            &&& rep.p95_nanos == spec_percentile(stats@.latencies, 95)
            &&& rep.p99_nanos == spec_percentile(stats@.latencies, 99)
            &&& rep.p50_nanos <= rep.p95_nanos <= rep.p99_nanos
        },
{
    let lats = stats.latencies();
    if lats.len() == 0 {
        return ReportOutcome::EmptyReport;
    }
    let sorted = sort_ascending(lats);
    let p50 = percentile_of_sorted(&sorted, 50);
    let p95 = percentile_of_sorted(&sorted, 95);
    let p99 = percentile_of_sorted(&sorted, 99);
    let success = stats.success_count();
    let failed = stats.failure_count();
    proof {
        assert(stats@.success + stats@.failed == stats@.history.len());
        assert(latencies_of(stats@.history).len() == stats@.history.len());
    }
    let total: u64 = success + failed;
    proof {
        lemma_mul_inequality(total as int, u64::MAX as int, THROUGHPUT_SCALE as int);
        lemma_mul_is_commutative(u64::MAX as int, THROUGHPUT_SCALE as int);
        lemma_mul_is_commutative(total as int, THROUGHPUT_SCALE as int);
    }
    let throughput: u128 = (total as u128) * THROUGHPUT_SCALE / (elapsed_nanos as u128);
    proof {
        lemma_mul_inequality(success as int, total as int, 10000);
        lemma_mul_is_commutative(success as int, 10000);
        lemma_mul_is_commutative(total as int, 10000);
        lemma_div_is_ordered(10000 * (success as int), 10000 * (total as int), total as int);
        lemma_div_multiples_vanish(10000, total as int);
        lemma_mul_is_commutative(10000, total as int);
    }
    let rate128: u128 = 10000u128 * (success as u128) / (total as u128);
    let rate: u64 = rate128 as u64;
    proof {
        lemma_percentiles_monotone(stats@.latencies);
    }
    ReportOutcome::Ready(
        Report {
            success_count: success,
            failure_count: failed,
            throughput_milli_per_sec: throughput,
            success_rate_centi_pct: rate,
            p50_nanos: p50,
            p95_nanos: p95,
            p99_nanos: p99,
        },
    )
}

/// Throughput, multiplied back by the elapsed time, recovers the total
/// request count to within one rounding step: the product of the scaled
/// throughput and the elapsed nanoseconds lies within `elapsed_nanos` of
/// `total * THROUGHPUT_SCALE`.
pub proof fn lemma_throughput_recovers_total(total: int, elapsed_nanos: int)
    requires
        0 <= total,
        0 < elapsed_nanos,
    ensures
        (total * THROUGHPUT_SCALE / elapsed_nanos) * elapsed_nanos <= total * THROUGHPUT_SCALE,
        total * THROUGHPUT_SCALE < (total * THROUGHPUT_SCALE / elapsed_nanos + 1) * elapsed_nanos,
{
    let x = total * THROUGHPUT_SCALE;
    let e = elapsed_nanos;
    lemma_fundamental_div_mod(x, e);
    lemma_mod_bound(x, e);
    lemma_mul_is_commutative(e, x / e);
    lemma_mul_is_distributive_add(e, x / e, 1);
    lemma_mul_is_commutative(e, x / e + 1);
}

/// Sorting discards completion order: two latency sequences that are
/// permutations of one another sort to the same sequence, so every
/// percentile agrees.
pub proof fn lemma_sorted_latencies_order_independent(l1: Seq<u64>, l2: Seq<u64>)
    requires
        l1.to_multiset() == l2.to_multiset(),
    ensures
        sorted_latencies(l1) == sorted_latencies(l2),
{
    lemma_latency_leq_total();
    l1.lemma_sort_by_ensures(latency_leq());
    l2.lemma_sort_by_ensures(latency_leq());
    lemma_sorted_unique(l1.sort_by(latency_leq()), l2.sort_by(latency_leq()), latency_leq());
    assert(sorted_latencies(l1) =~= sorted_latencies(l2));
}

/// Order-independence of the whole summary: permuting the completion
/// order of a run's outcomes changes neither the success count, nor the
/// failure count, nor the sorted latencies — and therefore no percentile.
pub proof fn lemma_report_order_independent(h1: Seq<TimedOutcome>, h2: Seq<TimedOutcome>)
    requires
        h1.to_multiset() == h2.to_multiset(),
    ensures
        success_count_of(h1) == success_count_of(h2),
        failure_count_of(h1) == failure_count_of(h2),
        sorted_latencies(latencies_of(h1)) == sorted_latencies(latencies_of(h2)),
{
    lemma_counts_order_independent(h1, h2);
    lemma_sorted_latencies_order_independent(latencies_of(h1), latencies_of(h2));
}

} // verus!
