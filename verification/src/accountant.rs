//! The outcome accountant: translates one cache lookup outcome (plus, on a
//! hit, the avoided cost) into counter and distribution mutations, as a
//! single logical event — either the whole event is recorded before the call
//! returns, or (on invalid input) nothing is.
//!
//! Time quantities are carried in integer microseconds and latencies in
//! integer milliseconds; memory and I/O quantities in bytes. An exporter
//! that publishes seconds converts at its own boundary. Counters only grow;
//! distributions are summarised by observation count and observation sum.

use vstd::prelude::*;

use crate::errors::AccountingError;
use crate::index::CacheLookupOutcome;

verus! {

/// Avoided cost attached to a hit: runtime, CPU time, memory, I/O read and
/// I/O write. Quantities are signed so that nonsensical (negative) input can
/// be rejected rather than excluded by type; zero is a valid, degenerate
/// value.
pub struct SavingsAmount {
    pub runtime_us: i64,
    pub cputime_us: i64,
    pub memory_bytes: i64,
    pub io_read_bytes: i64,
    pub io_write_bytes: i64,
}

impl SavingsAmount {
    /// Logically valid savings: every quantity is non-negative.
    pub open spec fn valid(&self) -> bool {
        &&& self.runtime_us >= 0
        &&& self.cputime_us >= 0
        &&& self.memory_bytes >= 0
        &&& self.io_read_bytes >= 0
        &&& self.io_write_bytes >= 0
    }

    pub fn is_valid(&self) -> (r: bool)
        ensures
            r == self.valid(),
    {
        self.runtime_us >= 0 && self.cputime_us >= 0 && self.memory_bytes >= 0
            && self.io_read_bytes >= 0 && self.io_write_bytes >= 0
    }
}

/// Summary of a recorded distribution: how many values were observed and
/// their sum.
pub struct DistSummary {
    pub count: u64,
    pub sum: u64,
}

impl DistSummary {
    /// One more observation still fits the machine-width counters.
    pub open spec fn can_observe(&self, v: u64) -> bool {
        self.count < u64::MAX && self.sum + v <= u64::MAX
    }

    pub fn new() -> (d: DistSummary)
        ensures
            d.count == 0,
            d.sum == 0,
    {
        DistSummary { count: 0, sum: 0 }
    }

    /// Record one observation.
    pub fn observe(&mut self, v: u64)
        requires
            old(self).can_observe(v),
        ensures
            final(self).count == old(self).count + 1,
            final(self).sum == old(self).sum + v,
    {
        self.count = self.count + 1;
        self.sum = self.sum + v;
    }
}

/// Mathematical model of the accountant's state: every counter and
/// distribution summary, over unbounded integers.
pub ghost struct MetricsModel {
    pub hits: int,
    pub misses: int,
    pub runtime_savings_us: int,
    pub cputime_savings_us: int,
    pub memory_savings_bytes: int,
    pub io_read_savings_bytes: int,
    pub io_write_savings_bytes: int,
    pub hit_latency_count: int,
    pub hit_latency_sum: int,
    pub miss_latency_count: int,
    pub miss_latency_sum: int,
    pub hit_runtime_count: int,
    pub hit_runtime_sum: int,
    pub hit_cputime_count: int,
    pub hit_cputime_sum: int,
}

/// One recorded event, as the accountant classified it.
pub ghost enum RecordedEvent {
    Hit { latency_ms: u64, savings: Option<SavingsAmount> },
    Miss { latency_ms: u64 },
}

/// The event that a lookup outcome and an optional savings bundle describe.
pub open spec fn event_of(
    outcome: CacheLookupOutcome,
    savings: Option<SavingsAmount>,
) -> RecordedEvent {
    match outcome {
        CacheLookupOutcome::Hit { latency_ms, .. } => RecordedEvent::Hit { latency_ms, savings },
        CacheLookupOutcome::Miss { latency_ms } => RecordedEvent::Miss { latency_ms },
    }
}

/// An event the accountant accepts: savings only on a hit, and only valid
/// (non-negative) savings.
pub open spec fn event_acceptable(
    outcome: CacheLookupOutcome,
    savings: Option<SavingsAmount>,
) -> bool {
    &&& (outcome is Miss ==> savings is None)
    &&& (savings matches Some(s) ==> s.valid())
}

/// The exact effect of recording one event on the metrics model.
pub open spec fn apply_event(m: MetricsModel, e: RecordedEvent) -> MetricsModel {
    match e {
        RecordedEvent::Hit { latency_ms, savings } => {
            let m1 = MetricsModel {
                hits: m.hits + 1,
                hit_latency_count: m.hit_latency_count + 1,
                hit_latency_sum: m.hit_latency_sum + latency_ms,
                ..m
            };
            match savings {
                Some(s) => MetricsModel {
                    runtime_savings_us: m1.runtime_savings_us + s.runtime_us,
                    cputime_savings_us: m1.cputime_savings_us + s.cputime_us,
                    memory_savings_bytes: m1.memory_savings_bytes + s.memory_bytes,
                    io_read_savings_bytes: m1.io_read_savings_bytes + s.io_read_bytes,
                    io_write_savings_bytes: m1.io_write_savings_bytes + s.io_write_bytes,
                    hit_runtime_count: m1.hit_runtime_count + 1,
                    hit_runtime_sum: m1.hit_runtime_sum + s.runtime_us,
                    hit_cputime_count: m1.hit_cputime_count + 1,
                    hit_cputime_sum: m1.hit_cputime_sum + s.cputime_us,
                    ..m1
                },
                None => m1,
            }
        },
        RecordedEvent::Miss { latency_ms } => MetricsModel {
            misses: m.misses + 1,
            miss_latency_count: m.miss_latency_count + 1,
            miss_latency_sum: m.miss_latency_sum + latency_ms,
            ..m
        },
    }
}

/// Process-wide metrics state: monotonically increasing counters for hits,
/// misses and the five savings totals, latency distributions for hits and
/// misses, and magnitude distributions for hit runtime and CPU time.
/// Constructed explicitly and injected: callers pass a handle, so a test can
/// account against a fresh instance.
pub struct Accountant {
    pub hits: u64,
    pub misses: u64,
    pub runtime_savings_us: u64,
    pub cputime_savings_us: u64,
    pub memory_savings_bytes: u64,
    pub io_read_savings_bytes: u64,
    pub io_write_savings_bytes: u64,
    pub hit_latency_ms: DistSummary,
    pub miss_latency_ms: DistSummary,
    pub hit_runtime_us: DistSummary,
    pub hit_cputime_us: DistSummary,
}

impl View for Accountant {
    type V = MetricsModel;

    open spec fn view(&self) -> MetricsModel {
        MetricsModel {
            hits: self.hits as int,
            misses: self.misses as int,
            runtime_savings_us: self.runtime_savings_us as int,
            cputime_savings_us: self.cputime_savings_us as int,
            memory_savings_bytes: self.memory_savings_bytes as int,
            io_read_savings_bytes: self.io_read_savings_bytes as int,
            io_write_savings_bytes: self.io_write_savings_bytes as int,
            hit_latency_count: self.hit_latency_ms.count as int,
            hit_latency_sum: self.hit_latency_ms.sum as int,
            miss_latency_count: self.miss_latency_ms.count as int,
            miss_latency_sum: self.miss_latency_ms.sum as int,
            hit_runtime_count: self.hit_runtime_us.count as int,
            hit_runtime_sum: self.hit_runtime_us.sum as int,
            hit_cputime_count: self.hit_cputime_us.count as int,
            hit_cputime_sum: self.hit_cputime_us.sum as int,
        }
    }
}

impl Accountant {
    /// The accepted event still fits every machine-width counter it touches.
    pub open spec fn can_record(
        &self,
        outcome: CacheLookupOutcome,
        savings: Option<SavingsAmount>,
    ) -> bool {
        &&& (outcome matches CacheLookupOutcome::Hit { latency_ms, .. } ==> self.hits < u64::MAX
            && self.hit_latency_ms.can_observe(latency_ms))
        &&& (match savings {
            Some(s) => outcome is Hit && s.valid() ==> {
                &&& self.runtime_savings_us + s.runtime_us <= u64::MAX
                &&& self.cputime_savings_us + s.cputime_us <= u64::MAX
                &&& self.memory_savings_bytes + s.memory_bytes <= u64::MAX
                &&& self.io_read_savings_bytes + s.io_read_bytes <= u64::MAX
                &&& self.io_write_savings_bytes + s.io_write_bytes <= u64::MAX
                &&& self.hit_runtime_us.can_observe(s.runtime_us as u64)
                &&& self.hit_cputime_us.can_observe(s.cputime_us as u64)
            },
            None => true,
        })
        &&& (outcome matches CacheLookupOutcome::Miss { latency_ms } ==> self.misses < u64::MAX
            && self.miss_latency_ms.can_observe(latency_ms))
    }

    /// A fresh accountant: every counter and distribution at zero.
    pub fn new() -> (a: Accountant)
        ensures
            a@ == (MetricsModel {
                hits: 0,
                misses: 0,
                runtime_savings_us: 0,
                cputime_savings_us: 0,
                memory_savings_bytes: 0,
                io_read_savings_bytes: 0,
                io_write_savings_bytes: 0,
                hit_latency_count: 0,
                hit_latency_sum: 0,
                miss_latency_count: 0,
                miss_latency_sum: 0,
                hit_runtime_count: 0,
                hit_runtime_sum: 0,
                hit_cputime_count: 0,
                hit_cputime_sum: 0,
            }),
    {
        Accountant {
            hits: 0,
            misses: 0,
            runtime_savings_us: 0,
            cputime_savings_us: 0,
            memory_savings_bytes: 0,
            io_read_savings_bytes: 0,
            io_write_savings_bytes: 0,
            hit_latency_ms: DistSummary::new(),
            miss_latency_ms: DistSummary::new(),
            hit_runtime_us: DistSummary::new(),
            hit_cputime_us: DistSummary::new(),
        }
    }

    /// Record one lookup outcome, with the avoided cost on a hit. The whole
    /// event is recorded exactly as `apply_event` says, or — when savings
    /// accompany a miss, or any savings quantity is negative — the event is
    /// rejected with `InvalidSavings` and nothing at all is recorded.
    pub fn record(
        &mut self,
        outcome: &CacheLookupOutcome,
        savings: Option<&SavingsAmount>,
    ) -> (r: Result<(), AccountingError>)
        requires
            old(self).can_record(*outcome, deref_savings(savings)),
        ensures
            match r {
                Ok(()) => event_acceptable(*outcome, deref_savings(savings)) && final(self)@
                    == apply_event(old(self)@, event_of(*outcome, deref_savings(savings))),
                Err(e) => e == AccountingError::InvalidSavings && !event_acceptable(
                    *outcome,
                    deref_savings(savings),
                ) && *final(self) == *old(self),
            },
    {
        if let Some(s) = savings {
            if !s.is_valid() {
                return Err(AccountingError::InvalidSavings);
            }
            if let CacheLookupOutcome::Miss { .. } = outcome {
                return Err(AccountingError::InvalidSavings);
            }
        }
        match outcome {
            CacheLookupOutcome::Hit { latency_ms, .. } => {
                self.hits = self.hits + 1;
                self.hit_latency_ms.observe(*latency_ms);
                if let Some(s) = savings {
                    self.runtime_savings_us = self.runtime_savings_us + (s.runtime_us as u64);
                    self.cputime_savings_us = self.cputime_savings_us + (s.cputime_us as u64);
                    self.memory_savings_bytes = self.memory_savings_bytes + (s.memory_bytes
                        as u64);
                    self.io_read_savings_bytes = self.io_read_savings_bytes + (s.io_read_bytes
                        as u64);
                    self.io_write_savings_bytes = self.io_write_savings_bytes + (s.io_write_bytes
                        as u64);
                    self.hit_runtime_us.observe(s.runtime_us as u64);
                    self.hit_cputime_us.observe(s.cputime_us as u64);
                }
            },
            CacheLookupOutcome::Miss { latency_ms } => {
                self.misses = self.misses + 1;
                self.miss_latency_ms.observe(*latency_ms);
            },
        }
        Ok(())
    }
}

/// The savings bundle behind an optional borrow.
pub open spec fn deref_savings(savings: Option<&SavingsAmount>) -> Option<SavingsAmount> {
    match savings {
        Some(s) => Some(*s),
        None => None,
    }
}

/// The metrics model after a whole sequence of events, first to last.
pub open spec fn apply_events(m: MetricsModel, es: Seq<RecordedEvent>) -> MetricsModel
    decreases es.len(),
{
    if es.len() == 0 {
        m
    } else {
        apply_event(apply_events(m, es.drop_last()), es.last())
    }
}

/// How many of the events are hits.
pub open spec fn count_hits(es: Seq<RecordedEvent>) -> int
    decreases es.len(),
{
    if es.len() == 0 {
        0
    } else {
        count_hits(es.drop_last()) + if es.last() is Hit {
            1int
        } else {
            0int
        }
    }
}

/// How many of the events are misses.
pub open spec fn count_misses(es: Seq<RecordedEvent>) -> int
    decreases es.len(),
{
    if es.len() == 0 {
        0
    } else {
        count_misses(es.drop_last()) + if es.last() is Miss {
            1int
        } else {
            0int
        }
    }
}

/// The runtime component an event contributes to the savings totals.
pub open spec fn ev_runtime_us(e: RecordedEvent) -> int {
    match e {
        RecordedEvent::Hit { savings: Some(s), .. } => s.runtime_us as int,
        _ => 0,
    }
}

/// The CPU-time component an event contributes to the savings totals.
pub open spec fn ev_cputime_us(e: RecordedEvent) -> int {
    match e {
        RecordedEvent::Hit { savings: Some(s), .. } => s.cputime_us as int,
        _ => 0,
    }
}

/// The memory component an event contributes to the savings totals.
pub open spec fn ev_memory_bytes(e: RecordedEvent) -> int {
    match e {
        RecordedEvent::Hit { savings: Some(s), .. } => s.memory_bytes as int,
        _ => 0,
    }
}

/// The I/O-read component an event contributes to the savings totals.
pub open spec fn ev_io_read_bytes(e: RecordedEvent) -> int {
    match e {
        RecordedEvent::Hit { savings: Some(s), .. } => s.io_read_bytes as int,
        _ => 0,
    }
}

/// The I/O-write component an event contributes to the savings totals.
pub open spec fn ev_io_write_bytes(e: RecordedEvent) -> int {
    match e {
        RecordedEvent::Hit { savings: Some(s), .. } => s.io_write_bytes as int,
        _ => 0,
    }
}

/// Sum of the runtime components over a sequence of events.
pub open spec fn sum_runtime_us(es: Seq<RecordedEvent>) -> int
    decreases es.len(),
{
    if es.len() == 0 {
        0
    } else {
        sum_runtime_us(es.drop_last()) + ev_runtime_us(es.last())
    }
}

/// Sum of the CPU-time components over a sequence of events.
pub open spec fn sum_cputime_us(es: Seq<RecordedEvent>) -> int
    decreases es.len(),
{
    if es.len() == 0 {
        0
    } else {
        sum_cputime_us(es.drop_last()) + ev_cputime_us(es.last())
    }
}

/// Sum of the memory components over a sequence of events.
pub open spec fn sum_memory_bytes(es: Seq<RecordedEvent>) -> int
    decreases es.len(),
{
    if es.len() == 0 {
        0
    } else {
        sum_memory_bytes(es.drop_last()) + ev_memory_bytes(es.last())
    }
}

/// Sum of the I/O-read components over a sequence of events.
pub open spec fn sum_io_read_bytes(es: Seq<RecordedEvent>) -> int
    decreases es.len(),
{
    if es.len() == 0 {
        0
    } else {
        sum_io_read_bytes(es.drop_last()) + ev_io_read_bytes(es.last())
    }
}

/// Sum of the I/O-write components over a sequence of events.
pub open spec fn sum_io_write_bytes(es: Seq<RecordedEvent>) -> int
    decreases es.len(),
{
    if es.len() == 0 {
        0
    } else {
        sum_io_write_bytes(es.drop_last()) + ev_io_write_bytes(es.last())
    }
}

/// Law (monotonicity): recording an accepted event never decreases any
/// counter, total or distribution summary — the metrics state only grows
/// over the process's life.
pub proof fn lemma_metrics_monotonic(
    m: MetricsModel,
    outcome: CacheLookupOutcome,
    savings: Option<SavingsAmount>,
)
    requires
        event_acceptable(outcome, savings),
    ensures
        ({
            let m2 = apply_event(m, event_of(outcome, savings));
            &&& m2.hits >= m.hits
            &&& m2.misses >= m.misses
            &&& m2.runtime_savings_us >= m.runtime_savings_us
            &&& m2.cputime_savings_us >= m.cputime_savings_us
            &&& m2.memory_savings_bytes >= m.memory_savings_bytes
            &&& m2.io_read_savings_bytes >= m.io_read_savings_bytes
            &&& m2.io_write_savings_bytes >= m.io_write_savings_bytes
            &&& m2.hit_latency_count >= m.hit_latency_count
            &&& m2.hit_latency_sum >= m.hit_latency_sum
            &&& m2.miss_latency_count >= m.miss_latency_count
            &&& m2.miss_latency_sum >= m.miss_latency_sum
            &&& m2.hit_runtime_count >= m.hit_runtime_count
            &&& m2.hit_runtime_sum >= m.hit_runtime_sum
            &&& m2.hit_cputime_count >= m.hit_cputime_count
            &&& m2.hit_cputime_sum >= m.hit_cputime_sum
        }),
{
}

/// Law (accounting conservation): after any sequence of recorded events —
/// hits with their savings bundles and misses, in any order — the hit
/// counter has grown by exactly the number of hits, the miss counter by
/// exactly the number of misses, and each cumulative savings total by
/// exactly the sum of the corresponding component over the hits' savings.
pub proof fn lemma_accounting_conservation(m0: MetricsModel, es: Seq<RecordedEvent>)
    ensures
        apply_events(m0, es).hits == m0.hits + count_hits(es),
        apply_events(m0, es).misses == m0.misses + count_misses(es),
        apply_events(m0, es).runtime_savings_us == m0.runtime_savings_us + sum_runtime_us(es),
        apply_events(m0, es).cputime_savings_us == m0.cputime_savings_us + sum_cputime_us(es),
        apply_events(m0, es).memory_savings_bytes == m0.memory_savings_bytes + sum_memory_bytes(
            es,
        ),
        apply_events(m0, es).io_read_savings_bytes == m0.io_read_savings_bytes + sum_io_read_bytes(
            es,
        ),
        apply_events(m0, es).io_write_savings_bytes == m0.io_write_savings_bytes
            + sum_io_write_bytes(es),
    decreases es.len(),
{
    if es.len() > 0 {
        lemma_accounting_conservation(m0, es.drop_last());
    }
}

} // verus!
