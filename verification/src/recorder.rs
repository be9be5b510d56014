//! The outcome recorder: the aggregate state of one run.
//!
//! Every dispatched operation submits exactly one [`TimedOutcome`] to the
//! recorder, which appends its latency and advances exactly one of the two
//! counters. The recorder's invariant ties the counters to the recorded
//! history, so no outcome can be dropped or counted twice: at any point
//! `success + failed` equals the number of outcomes recorded so far.
//!
//! The counters are defined over the *multiset* of recorded outcomes, which
//! makes order-independence a matter of definition: two histories that are
//! permutations of one another have the same counts.

use vstd::prelude::*;
use vstd::multiset::Multiset;
use crate::outcome::Outcome;
use crate::outcome::TimedOutcome;
use crate::outcome::is_success;

verus! {

/// The predicate over timed outcomes that feeds the success counter.
pub open spec fn success_pred() -> spec_fn(TimedOutcome) -> bool {
    |t: TimedOutcome| is_success(t.outcome)
}

/// The predicate over timed outcomes that feeds the failure counter.
pub open spec fn failure_pred() -> spec_fn(TimedOutcome) -> bool {
    |t: TimedOutcome| !is_success(t.outcome)
}

/// How many outcomes of a history count as successes. Defined over the
/// multiset of the history, so any permutation of a history has the same
/// count.
pub open spec fn success_count_of(h: Seq<TimedOutcome>) -> nat {
    h.to_multiset().filter(success_pred()).len()
}

/// How many outcomes of a history count as failures (status failures and
/// transport failures alike).
pub open spec fn failure_count_of(h: Seq<TimedOutcome>) -> nat {
    h.to_multiset().filter(failure_pred()).len()
}

/// The latencies of a history, in recording order.
pub open spec fn latencies_of(h: Seq<TimedOutcome>) -> Seq<u64> {
    h.map_values(|t: TimedOutcome| t.elapsed_nanos)
}

/// The mathematical state of a [`RunStats`].
pub ghost struct StatsModel {
    /// Number of recorded successes.
    pub success: nat,
    /// Number of recorded failures.
    pub failed: nat,
    /// Recorded latencies, in completion order.
    pub latencies: Seq<u64>,
    /// The recorded outcomes themselves, in completion order.
    pub history: Seq<TimedOutcome>,
}

/// The aggregate state of one run: success and failure counters plus the
/// latency of every completed operation, in completion order.
///
/// A value is created fresh per run and mutated only through
/// [`RunStats::record`]; reading it for reporting happens only after the
/// dispatcher has joined all operations.
pub struct RunStats {
    success: u64,
    failed: u64,
    latencies: Vec<u64>,
    history: Ghost<Seq<TimedOutcome>>,
}

impl View for RunStats {
    type V = StatsModel;

    closed spec fn view(&self) -> StatsModel {
        StatsModel {
            success: self.success as nat,
            failed: self.failed as nat,
            latencies: self.latencies@,
            history: self.history@,
        }
    }
}

/// Filtering a multiset after an insertion is the same as filtering first
/// and then inserting the element exactly when it satisfies the predicate.
proof fn lemma_multiset_filter_insert<V>(m: Multiset<V>, f: spec_fn(V) -> bool, x: V)
    ensures
        f(x) ==> m.insert(x).filter(f) =~= m.filter(f).insert(x),
        !f(x) ==> m.insert(x).filter(f) =~= m.filter(f),
{
    broadcast use vstd::multiset::group_multiset_axioms;

}

/// An empty history has no successes, no failures and no latencies.
pub proof fn lemma_counts_empty()
    ensures
        success_count_of(Seq::<TimedOutcome>::empty()) == 0,
        failure_count_of(Seq::<TimedOutcome>::empty()) == 0,
        latencies_of(Seq::<TimedOutcome>::empty()) == Seq::<u64>::empty(),
{
    broadcast use vstd::seq_lib::group_to_multiset_ensures;
    broadcast use vstd::multiset::group_multiset_axioms;

    let h = Seq::<TimedOutcome>::empty();
    assert(h.to_multiset().len() == 0);
    assert(h.to_multiset().filter(success_pred()) =~= Multiset::<TimedOutcome>::empty());
    assert(h.to_multiset().filter(failure_pred()) =~= Multiset::<TimedOutcome>::empty());
    assert(latencies_of(h) =~= Seq::<u64>::empty());
}

/// Appending one outcome advances exactly one of the two counts and appends
/// exactly one latency.
pub proof fn lemma_counts_push(h: Seq<TimedOutcome>, t: TimedOutcome)
    ensures
        is_success(t.outcome) ==> success_count_of(h.push(t)) == success_count_of(h) + 1
            && failure_count_of(h.push(t)) == failure_count_of(h),
        !is_success(t.outcome) ==> success_count_of(h.push(t)) == success_count_of(h)
            && failure_count_of(h.push(t)) == failure_count_of(h) + 1,
        latencies_of(h.push(t)) == latencies_of(h).push(t.elapsed_nanos),
{
    broadcast use vstd::seq_lib::group_to_multiset_ensures;
    broadcast use vstd::multiset::group_multiset_axioms;
    broadcast use vstd::multiset::lemma_insert_len;

    lemma_multiset_filter_insert(h.to_multiset(), success_pred(), t);
    lemma_multiset_filter_insert(h.to_multiset(), failure_pred(), t);
    h.lemma_push_map_commute(|t2: TimedOutcome| t2.elapsed_nanos, t);
    assert(latencies_of(h.push(t)) =~= latencies_of(h).push(t.elapsed_nanos));
}

/// The recorder's invariant: the counters agree with the recorded history,
/// the latencies are exactly the history's latencies, and every recorded
/// outcome is counted exactly once.
pub open spec fn stats_model_inv(m: StatsModel) -> bool {
    &&& m.success == success_count_of(m.history)
    &&& m.failed == failure_count_of(m.history)
    &&& m.latencies == latencies_of(m.history)
    &&& m.success + m.failed == m.history.len()
}

impl RunStats {
    /// The recorder's invariant, over its mathematical state.
    pub open spec fn inv(&self) -> bool {
        stats_model_inv(self@)
    }

    /// A fresh, empty recorder.
    pub fn new() -> (s: RunStats)
        ensures
            s.inv(),
            s@.success == 0,
            s@.failed == 0,
            s@.latencies == Seq::<u64>::empty(),
            s@.history == Seq::<TimedOutcome>::empty(),
    {
        let s = RunStats {
            success: 0,
            failed: 0,
            latencies: Vec::new(),
            history: Ghost(Seq::empty()),
        };
        proof {
            lemma_counts_empty();
            assert(s@.latencies =~= Seq::<u64>::empty());
        }
        s
    }

    /// Records one timed outcome: appends its latency and advances exactly
    /// one of the two counters. Recording never fails.
    pub fn record(&mut self, t: TimedOutcome)
        requires
            old(self).inv(),
            old(self)@.history.len() < u64::MAX,
        ensures
            final(self).inv(),
            final(self)@.history == old(self)@.history.push(t),
            final(self)@.latencies == old(self)@.latencies.push(t.elapsed_nanos),
            is_success(t.outcome) ==> final(self)@.success == old(self)@.success + 1
                && final(self)@.failed == old(self)@.failed,
            !is_success(t.outcome) ==> final(self)@.failed == old(self)@.failed + 1
                && final(self)@.success == old(self)@.success,
    {
        proof {
            lemma_counts_push(self.history@, t);
        }
        self.latencies.push(t.elapsed_nanos);
        match t.outcome {
            Outcome::Success(_) => {
                self.success = self.success + 1;
            },
            _ => {
                self.failed = self.failed + 1;
            },
        }
        self.history = Ghost(self.history@.push(t));
    }

    /// Number of recorded successes.
    pub fn success_count(&self) -> (n: u64)
        ensures
            n == self@.success,
    {
        self.success
    }

    /// Number of recorded failures.
    pub fn failure_count(&self) -> (n: u64)
        ensures
            n == self@.failed,
    {
        self.failed
    }

    /// The recorded latencies, in completion order.
    pub fn latencies(&self) -> (l: &Vec<u64>)
        ensures
            l@ == self@.latencies,
    {
        &self.latencies
    }

    /// How many outcomes have been recorded so far.
    pub fn recorded_count(&self) -> (n: usize)
        ensures
            n == self@.latencies.len(),
    {
        self.latencies.len()
    }
}

/// Two histories with the same outcomes — however their completions
/// interleaved — have the same success count, the same failure count and
/// latency sets that are permutations of one another.
pub proof fn lemma_counts_order_independent(h1: Seq<TimedOutcome>, h2: Seq<TimedOutcome>)
    requires
        h1.to_multiset() == h2.to_multiset(),
    ensures
        success_count_of(h1) == success_count_of(h2),
        failure_count_of(h1) == failure_count_of(h2),
        latencies_of(h1).to_multiset() == latencies_of(h2).to_multiset(),
    decreases h1.len(),
{
    broadcast use vstd::seq_lib::group_to_multiset_ensures;
    broadcast use vstd::multiset::group_multiset_axioms;

    if h1.len() == 0 {
        assert(h1.to_multiset().len() == 0);
        assert(h2.len() == 0);
        assert(latencies_of(h1) =~= latencies_of(h2));
    } else {
        let f = |t: TimedOutcome| t.elapsed_nanos;
        let x = h1[0];
        assert(h1.contains(x));
        assert(h1.to_multiset().contains(x));
        assert(h2.to_multiset().contains(x));
        assert(h2.contains(x));
        let i = choose|i: int| 0 <= i < h2.len() && h2[i] == x;
        let r1 = h1.remove(0);
        let r2 = h2.remove(i);
        assert(r1.to_multiset() == h1.to_multiset().remove(x));
        assert(r2.to_multiset() == h2.to_multiset().remove(x));
        lemma_counts_order_independent(r1, r2);

        // The latency sequence commutes with removing one element.
        assert(latencies_of(r1) =~= latencies_of(h1).remove(0)) by {
            h1.remove_ensures(0);
            latencies_of(h1).remove_ensures(0);
        }
        assert(latencies_of(r2) =~= latencies_of(h2).remove(i)) by {
            h2.remove_ensures(i);
            latencies_of(h2).remove_ensures(i);
        }
        assert(latencies_of(h1).remove(0).to_multiset()
            == latencies_of(h1).to_multiset().remove(f(x)));
        assert(latencies_of(h2).remove(i).to_multiset()
            == latencies_of(h2).to_multiset().remove(f(x)));

        // Both full latency multisets contain f(x), so re-inserting it into
        // the equal remainders makes them equal.
        assert(latencies_of(h1)[0] == f(x));
        assert(latencies_of(h1).contains(f(x)));
        assert(latencies_of(h2)[i] == f(x));
        assert(latencies_of(h2).contains(f(x)));
        let m1 = latencies_of(h1).to_multiset();
        let m2 = latencies_of(h2).to_multiset();
        let v = f(x);
        assert(m1.count(v) > 0);
        assert(m2.count(v) > 0);
        assert forall|w: u64| m1.count(w) == m2.count(w) by {
            if w == v {
                assert(m1.remove(v).count(v) + 1 == m1.count(v));
                assert(m2.remove(v).count(v) + 1 == m2.count(v));
            } else {
                assert(m1.remove(v).count(w) == m1.count(w));
                assert(m2.remove(v).count(w) == m2.count(w));
            }
        }
        assert(m1 =~= m2);
    }
}

} // verus!
