//! The dispatcher: issues operations under the concurrency gate and owns
//! the run-to-completion barrier.
//!
//! A run issues exactly `total` operations. Each one takes a permit from
//! the permit pool before it starts and returns the permit upon recording its
//! timed outcome, so the number of started-but-not-completed operations never
//! exceeds the configured limit. Statistics are read only once every
//! issued operation has completed — the join barrier — at which point
//! exactly `total` outcomes have been counted: none dropped, none twice.

use vstd::prelude::*;
use crate::config::RunConfig;
use crate::gate::Gate;
use crate::outcome::TimedOutcome;
use crate::outcome::TransportError;
use crate::outcome::classify;
use crate::outcome::is_success;
use crate::outcome::spec_classify;
use crate::recorder::RunStats;
use crate::recorder::StatsModel;
use crate::recorder::failure_count_of;
use crate::recorder::stats_model_inv;
use crate::recorder::success_count_of;

verus! {

/// The mathematical state of a [`Dispatcher`].
pub ghost struct DispatchModel {
    /// How many operations the run issues in total.
    pub total: nat,
    /// The size of the concurrency gate's permit pool.
    pub limit: nat,
    /// How many operations have been issued so far.
    pub issued: nat,
    /// How many operations are started but not yet completed.
    pub in_flight: nat,
    /// The recorder's state.
    pub stats: StatsModel,
}

/// The dispatcher's invariant: in-flight operations never outnumber the
/// permits, the run never issues more operations than configured, every
/// issued operation is either in flight or already in the statistics, and
/// the recorder's own invariant holds.
pub open spec fn dispatch_model_inv(m: DispatchModel) -> bool {
    &&& m.in_flight <= m.limit
    &&& 0 < m.limit
    &&& m.issued <= m.total
    &&& m.stats.history.len() + m.in_flight == m.issued
    &&& stats_model_inv(m.stats)
}

/// Issues the operations of one run, bounded by the concurrency gate, and
/// records every outcome.
pub struct Dispatcher {
    total: usize,
    gate: Gate,
    issued: usize,
    stats: RunStats,
}

impl View for Dispatcher {
    type V = DispatchModel;

    closed spec fn view(&self) -> DispatchModel {
        DispatchModel {
            total: self.total as nat,
            limit: self.gate@.limit,
            issued: self.issued as nat,
            in_flight: self.gate@.taken,
            stats: self.stats@,
        }
    }
}

impl Dispatcher {
    /// The dispatcher's invariant, over its mathematical state.
    pub open spec fn inv(&self) -> bool {
        dispatch_model_inv(self@)
    }

    /// A fresh dispatcher for one run: nothing issued, nothing in flight,
    /// an empty recorder.
    pub fn new(total: usize, limit: usize) -> (d: Dispatcher)
        requires
            limit > 0,
        ensures
            d.inv(),
            d@.total == total,
            d@.limit == limit,
            d@.issued == 0,
            d@.in_flight == 0,
            d@.stats.history == Seq::<TimedOutcome>::empty(),
    {
        let d = Dispatcher { total, gate: Gate::new(limit), issued: 0, stats: RunStats::new() };
        proof {
            crate::recorder::lemma_counts_empty();
        }
        d
    }

    /// Tries to issue the next operation: takes a permit and counts the
    /// operation as issued.
    ///
    /// Succeeds exactly when the run still has operations to issue and a
    /// permit is free; otherwise the state is unchanged.
    pub fn try_start(&mut self) -> (started: bool)
        requires
            old(self).inv(),
        ensures
            final(self).inv(),
            final(self)@.total == old(self)@.total,
            final(self)@.limit == old(self)@.limit,
            final(self)@.stats == old(self)@.stats,
            started <==> old(self)@.issued < old(self)@.total && old(self)@.in_flight < old(
                self,
            )@.limit,
            started ==> final(self)@.issued == old(self)@.issued + 1 && final(self)@.in_flight
                == old(self)@.in_flight + 1,
            !started ==> final(self)@ == old(self)@,
    {
        if self.issued < self.total {
            let got = self.gate.try_acquire();
            if got {
                self.issued = self.issued + 1;
                true
            } else {
                false
            }
        } else {
            false
        }
    }

    /// Completes one in-flight operation: records its timed outcome and
    /// returns its permit.
    pub fn complete(&mut self, t: TimedOutcome)
        requires
            old(self).inv(),
            old(self)@.in_flight > 0,
        ensures
            final(self).inv(),
            final(self)@.total == old(self)@.total,
            final(self)@.limit == old(self)@.limit,
            final(self)@.issued == old(self)@.issued,
            final(self)@.in_flight == old(self)@.in_flight - 1,
            final(self)@.stats.history == old(self)@.stats.history.push(t),
            final(self)@.stats.latencies == old(self)@.stats.latencies.push(t.elapsed_nanos),
            is_success(t.outcome) ==> final(self)@.stats.success == old(self)@.stats.success + 1
                && final(self)@.stats.failed == old(self)@.stats.failed,
            !is_success(t.outcome) ==> final(self)@.stats.failed == old(self)@.stats.failed + 1
                && final(self)@.stats.success == old(self)@.stats.success,
    {
        self.stats.record(t);
        self.gate.release();
    }

    /// Whether the run has reached the join barrier: everything issued,
    /// nothing still in flight.
    pub fn is_done(&self) -> (done: bool)
        ensures
            done <==> self@.issued == self@.total && self@.in_flight == 0,
    {
        self.issued == self.total && self.gate.taken() == 0
    }

    /// How many operations have completed so far.
    pub fn completed_count(&self) -> (n: usize)
        requires
            self.inv(),
        ensures
            n == self@.stats.history.len(),
    {
        self.stats.recorded_count()
    }

    /// Hands out the final statistics at the join barrier.
    ///
    /// Exactly `total` outcomes have been recorded, and each of them is
    /// counted exactly once: `success + failed == total`.
    pub fn into_stats(self) -> (stats: RunStats)
        requires
            self.inv(),
            self@.issued == self@.total,
            self@.in_flight == 0,
        ensures
            stats.inv(),
            stats@ == self@.stats,
            stats@.history.len() == self@.total,
            stats@.success + stats@.failed == self@.total,
    {
        self.stats
    }
}

/// At no reachable instant are more operations started-but-not-completed
/// than the configured concurrency limit: the bound is part of the
/// dispatcher's invariant, which holds of a fresh dispatcher and is
/// preserved by every step.
pub proof fn lemma_in_flight_bounded(m: DispatchModel)
    requires
        dispatch_model_inv(m),
    ensures
        m.in_flight <= m.limit,
{
}

/// No operation is lost or double-counted: at the join barrier the two
/// counters add up to exactly the configured total, whatever the mix of
/// outcomes was.
pub proof fn lemma_no_operation_lost(m: DispatchModel)
    requires
        dispatch_model_inv(m),
        m.issued == m.total,
        m.in_flight == 0,
    ensures
        m.stats.success + m.stats.failed == m.total,
{
}

/// What one operation of a recorded phase resolved to, and how long it
/// took.
#[derive(Clone, Copy, Debug)]
pub struct TimedReply {
    /// The status code the operation returned, or the transport failure
    /// that kept it from returning one.
    pub reply: Result<u16, TransportError>,
    /// Wall-clock time the operation took, in nanoseconds.
    pub elapsed_nanos: u64,
}

/// The timed outcome that classification assigns to one reply.
pub open spec fn outcome_of_reply(r: TimedReply) -> TimedOutcome {
    TimedOutcome { outcome: spec_classify(r.reply), elapsed_nanos: r.elapsed_nanos }
}

/// The outcomes of a whole phase of replies, in order.
pub open spec fn outcomes_of(rs: Seq<TimedReply>) -> Seq<TimedOutcome> {
    rs.map_values(|r: TimedReply| outcome_of_reply(r))
}

/// Replays one recorded phase to completion.
///
/// Drives the dispatcher through exactly `total_requests` operations whose
/// results are given in completion order, and returns the final
/// statistics: the recorded history is exactly the classification of the
/// replies, and the counters add up to the configured total.
pub fn replay_run(config: &RunConfig, replies: &Vec<TimedReply>) -> (stats: RunStats)
    requires
        config.inv(),
        replies@.len() == config.total_requests,
    ensures
        stats.inv(),
        stats@.history == outcomes_of(replies@),
        stats@.success == success_count_of(outcomes_of(replies@)),
        stats@.failed == failure_count_of(outcomes_of(replies@)),
        stats@.success + stats@.failed == config.total_requests,
{
    let mut d = Dispatcher::new(config.total_requests, config.concurrency_limit);
    let mut i: usize = 0;
    while i < replies.len()
        invariant
            d.inv(),
            i <= replies@.len(),
            replies@.len() == d@.total,
            d@.issued == i,
            d@.in_flight == 0,
            d@.stats.history == outcomes_of(replies@.subrange(0, i as int)),
        decreases replies@.len() - i,
    {
        let r = replies[i];
        let started = d.try_start();
        assert(started);
        let o = classify(r.reply);
        d.complete(TimedOutcome { outcome: o, elapsed_nanos: r.elapsed_nanos });
        proof {
            assert(outcomes_of(replies@.subrange(0, i + 1)) =~= outcomes_of(
                replies@.subrange(0, i as int),
            ).push(outcome_of_reply(replies@[i as int])));
        }
        i = i + 1;
    }
    proof {
        assert(replies@.subrange(0, replies@.len() as int) =~= replies@);
    }
    d.into_stats()
}

} // verus!
