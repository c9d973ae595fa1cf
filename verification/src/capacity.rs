//! Accounting of a capacity probe: what became of every arrival of the workload,
//! how long it took, and what had ended by the deadline that was declared.
use crate::clock::Duration;
use crate::histogram;
use crate::histogram::Histogram;
use crate::measurement::IngestionDeliveryTerminal;
use crate::workload::{latest_due_index, OWNERS};
use std::collections::BTreeMap;
use vstd::multiset::Multiset;
use vstd::prelude::*;

verus! {

/// Not offered yet.
pub const NOT_OFFERED: u8 = 0;

/// Offered, and observed.
pub const PENDING: u8 = 1;

/// Committed as a new event.
pub const INSERTED: u8 = 2;

/// Committed as a replay.
pub const REPLAYED: u8 = 3;

/// Rejected.
pub const REJECTED: u8 = 4;

/// Ended with an unknown outcome.
pub const UNKNOWN: u8 = 5;

/// Missed by a generator that was late.
pub const MISSED: u8 = 6;

/// Offered, but not observed.
pub const UNOBSERVED: u8 = 7;

/// A terminal report of a delivery, its times counted from the start of the run.
#[derive(Debug, Clone, Copy)]
pub struct DeliveryOutcome {
    pub key: u64,
    pub terminal: IngestionDeliveryTerminal,
    pub terminal_at: Duration,
    pub accepted_at: Option<Duration>,
    pub attempt_count: u64,
    pub limiter_wait: Duration,
    pub pool_wait: Duration,
    pub transaction_time: Duration,
    pub commit_was_uncertain: bool,
}

impl DeliveryOutcome {
    /// The delivery was committed.
    pub open spec fn committed(self) -> bool {
        self.terminal is CommittedInserted || self.terminal is CommittedReplayed
    }

    /// The times are spans, and a commit comes after acceptance.
    pub open spec fn wf(self) -> bool {
        &&& self.terminal_at.wf()
        &&& self.accepted_at matches Some(at) ==> at.wf()
        &&& self.committed() ==> self.accepted_at is Some
    }

    /// The status that the outcome gives to an arrival.
    pub open spec fn status(self) -> u8 {
        match self.terminal {
            IngestionDeliveryTerminal::CommittedInserted => INSERTED,
            IngestionDeliveryTerminal::CommittedReplayed => REPLAYED,
            IngestionDeliveryTerminal::Rejected(_) => REJECTED,
            IngestionDeliveryTerminal::Unknown(_) => UNKNOWN,
        }
    }
}

/// How much later one time is than another; nothing if it is earlier.
pub open spec fn since(later: nat, earlier: nat) -> nat {
    if later >= earlier {
        (later - earlier) as nat
    } else {
        0
    }
}

/// What was measured of some deliveries.
#[derive(Debug)]
pub struct Measurements {
    pub inserted: u64,
    pub replayed: u64,
    pub rejected_before: u64,
    pub rejected_after: u64,
    pub unknown_before: u64,
    pub unknown_after: u64,
    pub uncertain_commit: u64,
    pub schedule_to_terminal: Histogram,
    pub accepted_to_commit: Histogram,
    pub pool_wait: Histogram,
    pub limiter_wait: Histogram,
    pub transaction_time: Histogram,
    pub owner_committed: Vec<u64>,
}

/// The samples with one more where it counts.
pub open spec fn sampled(samples: Multiset<u64>, counts: bool, span: nat) -> Multiset<u64> {
    if counts {
        samples.insert(histogram::bound_of(span))
    } else {
        samples
    }
}

/// One where it counts.
pub open spec fn one_if(counts: bool) -> int {
    if counts {
        1
    } else {
        0
    }
}

/// The sum of some counts.
pub open spec fn total(counts: Seq<u64>) -> nat
    decreases counts.len(),
{
    if counts.len() == 0 {
        0
    } else {
        total(counts.drop_last()) + counts.last() as nat
    }
}

/// One more in one count is one more in the sum.
proof fn total_grows(counts: Seq<u64>, at: int)
    requires
        0 <= at < counts.len(),
        counts[at] < u64::MAX,
    ensures
        total(counts.update(at, (counts[at] + 1) as u64)) == total(counts) + 1,
    decreases counts.len(),
{
    let next = counts.update(at, (counts[at] + 1) as u64);
    if at == counts.len() - 1 {
        assert(next.drop_last() =~= counts.drop_last());
    } else {
        total_grows(counts.drop_last(), at);
        assert(next.drop_last() =~= counts.drop_last().update(at, (counts[at] + 1) as u64));
    }
}

/// No count is above the sum.
proof fn total_bounds(counts: Seq<u64>, at: int)
    requires
        0 <= at < counts.len(),
    ensures
        counts[at] <= total(counts),
    decreases counts.len(),
{
    if at < counts.len() - 1 {
        total_bounds(counts.drop_last(), at);
        assert(counts.drop_last()[at] == counts[at]);
    }
}

proof fn total_of_zeros(counts: Seq<u64>)
    requires
        forall|i: int| 0 <= i < counts.len() ==> counts[i] == 0,
    ensures
        total(counts) == 0,
    decreases counts.len(),
{
    if counts.len() > 0 {
        total_of_zeros(counts.drop_last());
    }
}

impl Measurements {
    /// The deliveries that were measured.
    pub open spec fn deliveries(self) -> nat {
        self.schedule_to_terminal@.len()
    }

    /// Nothing is lost and nothing counts twice: every delivery has one outcome,
    /// every commit has an owner and a time, and the waits are those of deliveries.
    pub open spec fn wf(self) -> bool {
        &&& self.schedule_to_terminal.wf()
        &&& self.accepted_to_commit.wf()
        &&& self.pool_wait.wf()
        &&& self.limiter_wait.wf()
        &&& self.transaction_time.wf()
        &&& self.owner_committed@.len() == OWNERS
        &&& self.inserted + self.replayed + self.rejected_before + self.rejected_after
            + self.unknown_before + self.unknown_after == self.deliveries()
        &&& self.inserted + self.replayed == self.accepted_to_commit@.len()
        &&& self.inserted + self.replayed == total(self.owner_committed@)
        &&& self.uncertain_commit <= self.deliveries()
        &&& self.pool_wait@.len() <= self.deliveries()
        &&& self.limiter_wait@.len() == self.pool_wait@.len()
        &&& self.transaction_time@.len() == self.pool_wait@.len()
    }

    /// Nothing was measured.
    pub open spec fn is_empty(self) -> bool {
        &&& self.wf()
        &&& self.deliveries() == 0
    }

    /// `next` is what is measured once a delivery has ended that was scheduled at
    /// `scheduled`, in nanoseconds from the start, for `owner`.
    pub open spec fn recorded(
        self,
        outcome: DeliveryOutcome,
        scheduled: nat,
        owner: int,
        next: Measurements,
    ) -> bool {
        let accepted = outcome.accepted_at is Some;
        let tried = outcome.attempt_count > 0;
        let rejected = outcome.terminal is Rejected;
        let unknown = outcome.terminal is Unknown;
        &&& next.inserted == self.inserted + one_if(outcome.terminal is CommittedInserted)
        &&& next.replayed == self.replayed + one_if(outcome.terminal is CommittedReplayed)
        &&& next.rejected_before == self.rejected_before + one_if(rejected && !accepted)
        &&& next.rejected_after == self.rejected_after + one_if(rejected && accepted)
        &&& next.unknown_before == self.unknown_before + one_if(unknown && !accepted)
        &&& next.unknown_after == self.unknown_after + one_if(unknown && accepted)
        &&& next.uncertain_commit == self.uncertain_commit + one_if(outcome.commit_was_uncertain)
        &&& next.schedule_to_terminal@ == sampled(
            self.schedule_to_terminal@,
            true,
            since(outcome.terminal_at@, scheduled),
        )
        &&& next.accepted_to_commit@ == sampled(
            self.accepted_to_commit@,
            outcome.committed(),
            since(outcome.terminal_at@, outcome.accepted_at->0@),
        )
        &&& next.pool_wait@ == sampled(self.pool_wait@, tried, outcome.pool_wait@)
        &&& next.limiter_wait@ == sampled(self.limiter_wait@, tried, outcome.limiter_wait@)
        &&& next.transaction_time@ == sampled(
            self.transaction_time@,
            tried,
            outcome.transaction_time@,
        )
        &&& next.owner_committed@ == if outcome.committed() {
            self.owner_committed@.update(owner, (self.owner_committed@[owner] + 1) as u64)
        } else {
            self.owner_committed@
        }
    }

    /// Record how a delivery ended that was scheduled for `owner`, and say the
    /// status of its arrival.
    pub fn record(&mut self, outcome: &DeliveryOutcome, scheduled: Duration, owner: usize) -> (status:
        u8)
        requires
            old(self).wf(),
            old(self).deliveries() < u64::MAX,
            outcome.wf(),
            owner < OWNERS,
        ensures
            final(self).wf(),
            old(self).recorded(*outcome, scheduled@, owner as int, *final(self)),
            status == outcome.status(),
    {
        let accepted = outcome.accepted_at.is_some();
        let status = match outcome.terminal {
            IngestionDeliveryTerminal::CommittedInserted => {
                self.inserted = self.inserted + 1;
                INSERTED
            },
            IngestionDeliveryTerminal::CommittedReplayed => {
                self.replayed = self.replayed + 1;
                REPLAYED
            },
            IngestionDeliveryTerminal::Rejected(_) => {
                if accepted {
                    self.rejected_after = self.rejected_after + 1;
                } else {
                    self.rejected_before = self.rejected_before + 1;
                }
                REJECTED
            },
            IngestionDeliveryTerminal::Unknown(_) => {
                if accepted {
                    self.unknown_after = self.unknown_after + 1;
                } else {
                    self.unknown_before = self.unknown_before + 1;
                }
                UNKNOWN
            },
        };
        if status == INSERTED || status == REPLAYED {
            proof {
                total_bounds(self.owner_committed@, owner as int);
                total_grows(self.owner_committed@, owner as int);
            }
            let committed = self.owner_committed[owner];
            self.owner_committed.set(owner, committed + 1);
            if let Some(at) = outcome.accepted_at {
                self.accepted_to_commit.record(outcome.terminal_at.saturating_sub(at));
            }
        }
        if outcome.commit_was_uncertain {
            self.uncertain_commit = self.uncertain_commit + 1;
        }
        self.schedule_to_terminal.record(outcome.terminal_at.saturating_sub(scheduled));
        if outcome.attempt_count > 0 {
            self.pool_wait.record(outcome.pool_wait);
            self.limiter_wait.record(outcome.limiter_wait);
            self.transaction_time.record(outcome.transaction_time);
        }
        status
    }
}

impl Default for Measurements {
    fn default() -> (measurements: Self)
        ensures
            measurements.is_empty(),
    {
        let mut owner_committed: Vec<u64> = Vec::new();
        let mut owner: usize = 0;
        while owner < OWNERS
            invariant
                owner <= OWNERS,
                owner_committed@.len() == owner,
                forall|i: int| 0 <= i < owner ==> owner_committed@[i] == 0,
            decreases OWNERS - owner,
        {
            owner_committed.push(0);
            owner = owner + 1;
        }
        proof {
            total_of_zeros(owner_committed@);
        }
        Measurements {
            inserted: 0,
            replayed: 0,
            rejected_before: 0,
            rejected_after: 0,
            unknown_before: 0,
            unknown_after: 0,
            uncertain_commit: 0,
            schedule_to_terminal: Histogram::new(),
            accepted_to_commit: Histogram::new(),
            pool_wait: Histogram::new(),
            limiter_wait: Histogram::new(),
            transaction_time: Histogram::new(),
            owner_committed,
        }
    }
}

/// A delivery that is observed and has not ended: when it was scheduled, counted
/// from the start of the run, and for which owner.
#[derive(Debug, Clone, Copy)]
pub struct PendingDelivery {
    pub scheduled: Duration,
    pub owner: usize,
}

/// Deliveries of owners that exist.
pub open spec fn owned(pending: Map<u64, PendingDelivery>) -> bool {
    forall|key: u64| #[trigger] pending.contains_key(key) ==> pending[key].owner < OWNERS
}

/// The pending deliveries and early reports once the metadata of a delivery has
/// arrived, and the report that can be accounted for now.
pub open spec fn metadata_accepted(
    pending: Map<u64, PendingDelivery>,
    early: Map<u64, DeliveryOutcome>,
    key: u64,
    delivery: PendingDelivery,
) -> (Map<u64, PendingDelivery>, Map<u64, DeliveryOutcome>, Option<DeliveryOutcome>) {
    (
        pending.insert(key, delivery),
        early.remove(key),
        if early.contains_key(key) {
            Some(early[key])
        } else {
            None
        },
    )
}

/// The early reports once a report has arrived, and the report that can be
/// accounted for now: one whose delivery is not known yet has to wait.
pub open spec fn report_accepted(
    pending: Map<u64, PendingDelivery>,
    early: Map<u64, DeliveryOutcome>,
    report: DeliveryOutcome,
) -> (Map<u64, DeliveryOutcome>, Option<DeliveryOutcome>) {
    if pending.contains_key(report.key) {
        (early, Some(report))
    } else {
        (early.insert(report.key, report), None)
    }
}

/// Take the metadata of a new delivery, and hand out its report if that came first.
pub fn accept_metadata(
    key: u64,
    delivery: PendingDelivery,
    pending: &mut BTreeMap<u64, PendingDelivery>,
    early: &mut BTreeMap<u64, DeliveryOutcome>,
) -> (report: Option<DeliveryOutcome>)
    requires
        !old(pending)@.contains_key(key),
    ensures
        (final(pending)@, final(early)@, report) == metadata_accepted(
            old(pending)@,
            old(early)@,
            key,
            delivery,
        ),
{
    pending.insert(key, delivery);
    let report = early.remove(&key);
    assert(report is None ==> early@ =~= old(early)@.remove(key));
    report
}

/// Take a report, and hand it out if the metadata of its delivery came first.
pub fn accept_report(
    report: DeliveryOutcome,
    pending: &BTreeMap<u64, PendingDelivery>,
    early: &mut BTreeMap<u64, DeliveryOutcome>,
) -> (ready: Option<DeliveryOutcome>)
    requires
        !old(early)@.contains_key(report.key),
    ensures
        (final(early)@, ready) == report_accepted(pending@, old(early)@, report),
{
    if pending.contains_key(&report.key) {
        Some(report)
    } else {
        early.insert(report.key, report);
        None
    }
}

/// What had ended by the deadline that was declared for draining.
#[derive(Debug)]
pub struct DrainCutoff {
    pub deadline: Duration,
    pub terminal: Measurements,
    pub late: u64,
}

impl DrainCutoff {
    /// The cutoff once a delivery has ended: it counts before the deadline and is
    /// late after it, however long shutting down may take.
    pub open spec fn recorded(
        self,
        outcome: DeliveryOutcome,
        delivery: PendingDelivery,
        next: DrainCutoff,
    ) -> bool {
        let in_time = outcome.terminal_at@ <= self.deadline@;
        &&& next.deadline == self.deadline
        &&& next.late == self.late + one_if(!in_time)
        &&& if in_time {
            self.terminal.recorded(
                outcome,
                delivery.scheduled@,
                delivery.owner as int,
                next.terminal,
            )
        } else {
            next.terminal == self.terminal
        }
    }
}

/// Whether an arrival counts after a warm-up of some arrivals.
pub open spec fn is_measured(key: u64, warmup_count: u64) -> bool {
    key >= warmup_count
}

/// Account for a report whose delivery is pending: in all measurements, in those
/// after the warm-up if it arrived after it, and in those by the deadline if it
/// ended by then.
pub fn consume_report(
    report: DeliveryOutcome,
    pending: &mut BTreeMap<u64, PendingDelivery>,
    statuses: &mut Vec<u8>,
    all: &mut Measurements,
    measured: &mut Measurements,
    warmup_count: u64,
    cutoff: &mut DrainCutoff,
)
    requires
        report.wf(),
        old(pending)@.contains_key(report.key),
        owned(old(pending)@),
        report.key < old(statuses)@.len(),
        old(all).wf(),
        old(measured).wf(),
        old(cutoff).terminal.wf(),
        old(all).deliveries() < u64::MAX,
        old(measured).deliveries() < u64::MAX,
        old(cutoff).terminal.deliveries() < u64::MAX,
        old(cutoff).late < u64::MAX,
    ensures
        final(pending)@ == old(pending)@.remove(report.key),
        owned(final(pending)@),
        final(statuses)@ == old(statuses)@.update(report.key as int, report.status()),
        final(all).wf(),
        old(all).recorded(
            report,
            old(pending)@[report.key].scheduled@,
            old(pending)@[report.key].owner as int,
            *final(all),
        ),
        final(measured).wf(),
        if is_measured(report.key, warmup_count) {
            old(measured).recorded(
                report,
                old(pending)@[report.key].scheduled@,
                old(pending)@[report.key].owner as int,
                *final(measured),
            )
        } else {
            *final(measured) == *old(measured)
        },
        final(cutoff).terminal.wf(),
        old(cutoff).recorded(report, old(pending)@[report.key], *final(cutoff)),
{
    assert(statuses@.len() == statuses.len());
    if let Some(delivery) = pending.remove(&report.key) {
        let status = all.record(&report, delivery.scheduled, delivery.owner);
        statuses.set(report.key as usize, status);
        if report.key >= warmup_count {
            measured.record(&report, delivery.scheduled, delivery.owner);
        }
        if report.terminal_at.as_nanos() <= cutoff.deadline.as_nanos() {
            cutoff.terminal.record(&report, delivery.scheduled, delivery.owner);
        } else {
            cutoff.late = cutoff.late + 1;
        }
    }
}

/// The arrivals that a generator has gone through.
#[derive(Debug)]
pub struct Generator {
    statuses: Vec<u8>,
    index: u64,
    missed: u64,
    observer_unavailable: u64,
}

/// How many statuses are `status`.
pub open spec fn occurrences(statuses: Seq<u8>, status: u8) -> nat
    decreases statuses.len(),
{
    if statuses.len() == 0 {
        0
    } else {
        occurrences(statuses.drop_last(), status) + (if statuses.last() == status {
            1nat
        } else {
            0nat
        })
    }
}

/// What a generator has gone through.
pub struct GeneratorView {
    /// The statuses of the arrivals that were gone through.
    pub decided: Seq<u8>,
    /// The number of all arrivals.
    pub total: nat,
}

impl GeneratorView {
    /// The generator once it has missed some arrivals.
    pub open spec fn missing(self, arrivals: nat) -> GeneratorView {
        GeneratorView {
            decided: self.decided + Seq::new(arrivals, |i: int| MISSED),
            ..self
        }
    }

    /// The generator once it has offered an arrival.
    pub open spec fn offering(self, observed: bool) -> GeneratorView {
        GeneratorView {
            decided: self.decided.push(
                if observed {
                    PENDING
                } else {
                    UNOBSERVED
                },
            ),
            ..self
        }
    }

    /// The arrival that is due last, given the last one by the clock.
    pub open spec fn due(self, by_clock: nat) -> nat {
        if by_clock < self.total {
            by_clock
        } else {
            (self.total - 1) as nat
        }
    }

    /// The generator at an arrival, and the arrival that it offers. Once the time
    /// of the offer is over, all that is left is missed; an arrival that is late
    /// makes the ones before it missed.
    pub open spec fn arrived(self, over: bool, by_clock: nat) -> (GeneratorView, Option<nat>) {
        let at = self.decided.len();
        if over {
            (self.missing((self.total - at) as nat), None)
        } else if self.due(by_clock) > at {
            (self.missing((self.due(by_clock) - at) as nat), Some(self.due(by_clock)))
        } else {
            (self, Some(at))
        }
    }
}

impl View for Generator {
    type V = GeneratorView;

    closed spec fn view(&self) -> GeneratorView {
        GeneratorView {
            decided: self.statuses@.take(self.index as int),
            total: self.statuses@.len(),
        }
    }
}

impl Generator {
    /// Every arrival that was gone through was observed, missed or unobserved, and
    /// the last two are counted.
    pub closed spec fn wf(self) -> bool {
        &&& self.index <= self.statuses@.len() <= u64::MAX
        &&& forall|i: int|
            0 <= i < self.index ==> self.statuses@[i] == PENDING || self.statuses@[i] == MISSED
                || self.statuses@[i] == UNOBSERVED
        &&& forall|i: int|
            self.index <= i < self.statuses@.len() ==> self.statuses@[i] == NOT_OFFERED
        &&& self.missed == occurrences(self@.decided, MISSED)
        &&& self.observer_unavailable == occurrences(self@.decided, UNOBSERVED)
        &&& self.missed + self.observer_unavailable <= self.index
    }

    /// A generator of some arrivals.
    pub fn new(total: usize) -> (generator: Self)
        ensures
            generator.wf(),
            generator@ == (GeneratorView { decided: Seq::empty(), total: total as nat }),
    {
        let mut statuses: Vec<u8> = Vec::new();
        let mut i: usize = 0;
        while i < total
            invariant
                i <= total,
                statuses@.len() == i,
                forall|j: int| 0 <= j < i ==> statuses@[j] == NOT_OFFERED,
            decreases total - i,
        {
            statuses.push(NOT_OFFERED);
            i = i + 1;
        }
        let generator = Generator { statuses, index: 0, missed: 0, observer_unavailable: 0 };
        assert(generator@.decided =~= Seq::empty());
        generator
    }

    /// The arrival that is next.
    pub fn index(&self) -> (index: u64)
        requires
            self.wf(),
        ensures
            index == self@.decided.len(),
    {
        self.index
    }

    /// The statuses of all arrivals: what was decided, and the rest not offered.
    pub fn statuses(&self) -> (statuses: &Vec<u8>)
        requires
            self.wf(),
        ensures
            statuses@ == self@.decided + Seq::new(
                (self@.total - self@.decided.len()) as nat,
                |i: int| NOT_OFFERED,
            ),
    {
        assert(self.statuses@ =~= self@.decided + Seq::new(
            (self@.total - self@.decided.len()) as nat,
            |i: int| NOT_OFFERED,
        ));
        &self.statuses
    }

    /// How many arrivals were missed.
    pub fn missed(&self) -> (missed: u64)
        requires
            self.wf(),
        ensures
            missed == occurrences(self@.decided, MISSED),
    {
        self.missed
    }

    /// How many arrivals were offered without being observed.
    pub fn observer_unavailable(&self) -> (unavailable: u64)
        requires
            self.wf(),
        ensures
            unavailable == occurrences(self@.decided, UNOBSERVED),
    {
        self.observer_unavailable
    }

    fn miss_until(&mut self, end: u64)
        requires
            old(self).wf(),
            old(self)@.decided.len() <= end <= old(self)@.total,
        ensures
            final(self).wf(),
            final(self)@ == old(self)@.missing((end - old(self)@.decided.len()) as nat),
    {
        let ghost before = self@.decided;
        while self.index < end
            invariant
                self.wf(),
                before.len() <= self.index <= end <= self.statuses@.len(),
                self@.total == old(self)@.total,
                before == old(self)@.decided,
                self@.decided == before + Seq::new(
                    (self.index - before.len()) as nat,
                    |i: int| MISSED,
                ),
            decreases end - self.index,
        {
            self.decide(MISSED);
            assert(self@.decided =~= before + Seq::new(
                (self.index - before.len()) as nat,
                |i: int| MISSED,
            ));
        }
        assert(self@.decided =~= old(self)@.missing((end - before.len()) as nat).decided);
    }

    fn decide(&mut self, status: u8)
        requires
            old(self).wf(),
            old(self)@.decided.len() < old(self)@.total,
            status == PENDING || status == MISSED || status == UNOBSERVED,
        ensures
            final(self).wf(),
            final(self)@ == (GeneratorView {
                decided: old(self)@.decided.push(status),
                ..old(self)@
            }),
    {
        let ghost before = self@.decided;
        assert(self.statuses@.len() == self.statuses.len());
        self.statuses.set(self.index as usize, status);
        self.index = self.index + 1;
        if status == MISSED {
            self.missed = self.missed + 1;
        }
        if status == UNOBSERVED {
            self.observer_unavailable = self.observer_unavailable + 1;
        }
        assert(self@.decided =~= before.push(status));
        assert(self@.decided.drop_last() =~= before);
    }

    /// Go to the arrival that is due. `over` says that the time of the offer has
    /// passed, `elapsed` is the time since the start.
    pub fn arrive(&mut self, over: bool, elapsed: Duration, rate: u64) -> (offered: Option<u64>)
        requires
            old(self).wf(),
            old(self)@.decided.len() < old(self)@.total,
            rate > 0,
        ensures
            final(self).wf(),
            ({
                let by_clock = crate::workload::last_due(elapsed@, rate as nat);
                let (next, offer) = old(self)@.arrived(over, by_clock);
                &&& final(self)@ == next
                &&& match offered {
                    Some(index) => offer == Some(index as nat),
                    None => offer is None,
                }
            }),
    {
        let total = self.statuses.len() as u64;
        if over {
            self.miss_until(total);
            return None;
        }
        let by_clock = latest_due_index(elapsed, rate);
        let due = if by_clock < total {
            by_clock
        } else {
            total - 1
        };
        if due > self.index {
            self.miss_until(due);
        }
        Some(self.index)
    }

    /// Offer the arrival that is due: observed, or not if measuring it was not
    /// possible.
    pub fn offer(&mut self, observed: bool)
        requires
            old(self).wf(),
            old(self)@.decided.len() < old(self)@.total,
        ensures
            final(self).wf(),
            final(self)@ == old(self)@.offering(observed),
    {
        if observed {
            self.decide(PENDING);
        } else {
            self.decide(UNOBSERVED);
        }
    }
}

/// The statuses that reports decided, and what was offered where they did not.
pub open spec fn merged(statuses: Seq<u8>, offered: Seq<u8>) -> Seq<u8> {
    Seq::new(
        offered.len(),
        |i: int|
            if statuses[i] == NOT_OFFERED {
                offered[i]
            } else {
                statuses[i]
            },
    )
}

/// Fill in the statuses that reports have not decided with what was offered.
pub fn merge_statuses(statuses: &mut Vec<u8>, offered: &Vec<u8>)
    requires
        old(statuses)@.len() == offered@.len(),
    ensures
        final(statuses)@ == merged(old(statuses)@, offered@),
{
    let ghost before = statuses@;
    let mut i: usize = 0;
    while i < statuses.len()
        invariant
            i <= statuses@.len() == offered@.len() == before.len(),
            forall|j: int| i <= j < before.len() ==> statuses@[j] == before[j],
            forall|j: int|
                0 <= j < i ==> statuses@[j] == (if before[j] == NOT_OFFERED {
                    offered@[j]
                } else {
                    before[j]
                }),
        decreases statuses@.len() - i,
    {
        if statuses[i] == NOT_OFFERED {
            statuses.set(i, offered[i]);
        }
        i = i + 1;
    }
    assert(statuses@ =~= merged(before, offered@));
}

/// Metadata and report of a delivery can arrive in either order: the delivery ends
/// up pending, no report stays behind, and the report is handed out once, with the
/// second arrival.
pub proof fn arrival_order_does_not_matter(
    pending: Map<u64, PendingDelivery>,
    early: Map<u64, DeliveryOutcome>,
    delivery: PendingDelivery,
    report: DeliveryOutcome,
)
    requires
        !pending.contains_key(report.key),
        !early.contains_key(report.key),
    ensures
        ({
            let (p, e, first) = metadata_accepted(pending, early, report.key, delivery);
            let (last, second) = report_accepted(p, e, report);
            &&& first is None
            &&& second == Some(report)
            &&& p == pending.insert(report.key, delivery)
            &&& last == early
        }),
        ({
            let (e, first) = report_accepted(pending, early, report);
            let (p, last, second) = metadata_accepted(pending, e, report.key, delivery);
            &&& first is None
            &&& second == Some(report)
            &&& p == pending.insert(report.key, delivery)
            &&& last == early
        }),
{
    assert(early.remove(report.key) =~= early);
    assert(early.insert(report.key, report).remove(report.key) =~= early);
}

/// What ends after the deadline cannot change what had ended by then.
pub proof fn late_outcomes_leave_the_cutoff(
    cutoff: DrainCutoff,
    outcome: DeliveryOutcome,
    delivery: PendingDelivery,
    next: DrainCutoff,
)
    requires
        cutoff.recorded(outcome, delivery, next),
        outcome.terminal_at@ > cutoff.deadline@,
    ensures
        next.terminal == cutoff.terminal,
        next.late == cutoff.late + 1,
{
}

/// A status among three is counted as one of them.
proof fn three_statuses(statuses: Seq<u8>)
    requires
        forall|i: int|
            0 <= i < statuses.len() ==> statuses[i] == PENDING || statuses[i] == MISSED
                || statuses[i] == UNOBSERVED,
    ensures
        occurrences(statuses, PENDING) + occurrences(statuses, MISSED) + occurrences(
            statuses,
            UNOBSERVED,
        ) == statuses.len(),
    decreases statuses.len(),
{
    if statuses.len() > 0 {
        three_statuses(statuses.drop_last());
    }
}

impl Generator {
    /// No arrival goes unaccounted: each one that the generator went through was
    /// observed, missed or unobserved.
    pub proof fn arrivals_are_accounted_for(self)
        requires
            self.wf(),
        ensures
            self@.decided.len() <= self@.total,
            !self@.decided.contains(NOT_OFFERED),
            occurrences(self@.decided, PENDING) + occurrences(self@.decided, MISSED) + occurrences(
                self@.decided,
                UNOBSERVED,
            ) == self@.decided.len(),
    {
        three_statuses(self@.decided);
    }
}

/// Latencies are spans between two times: a delivery that ended some span after it was
/// scheduled adds the bound of that span, one that ended when it was scheduled, or
/// before, adds the bound of nothing, and a commit adds the bound of the span since it
/// was accepted.
pub proof fn latencies_are_spans(
    measurements: Measurements,
    outcome: DeliveryOutcome,
    scheduled: nat,
    owner: int,
    next: Measurements,
    span: nat,
)
    requires
        measurements.recorded(outcome, scheduled, owner, next),
    ensures
        outcome.terminal_at@ == scheduled + span ==> next.schedule_to_terminal@
            == measurements.schedule_to_terminal@.insert(histogram::bound_of(span)),
        outcome.terminal_at@ <= scheduled ==> next.schedule_to_terminal@
            == measurements.schedule_to_terminal@.insert(0),
        outcome.committed() && outcome.terminal_at@ == outcome.accepted_at->0@ + span
            ==> next.accepted_to_commit@ == measurements.accepted_to_commit@.insert(
            histogram::bound_of(span),
        ),
        outcome.committed() && outcome.terminal_at@ <= outcome.accepted_at->0@
            ==> next.accepted_to_commit@ == measurements.accepted_to_commit@.insert(0),
        !outcome.committed() ==> next.accepted_to_commit@ == measurements.accepted_to_commit@,
{
    histogram::spans_are_recorded_by_microseconds(0);
}

/// Only the distances between the times of a delivery count: shifting all of them by
/// the same span leaves everything that is measured of it unchanged.
pub proof fn shifted_deliveries_measure_the_same(
    measurements: Measurements,
    outcome: DeliveryOutcome,
    scheduled: nat,
    next: Measurements,
    shifted: DeliveryOutcome,
    span: nat,
    other: Measurements,
    owner: int,
)
    requires
        measurements.recorded(outcome, scheduled, owner, next),
        measurements.recorded(shifted, scheduled + span, owner, other),
        shifted.terminal_at@ == outcome.terminal_at@ + span,
        shifted.accepted_at is Some <==> outcome.accepted_at is Some,
        outcome.accepted_at is Some ==> shifted.accepted_at->0@ == outcome.accepted_at->0@ + span,
        outcome.committed() ==> outcome.accepted_at is Some,
        shifted.terminal == outcome.terminal,
        shifted.attempt_count == outcome.attempt_count,
        shifted.limiter_wait == outcome.limiter_wait,
        shifted.pool_wait == outcome.pool_wait,
        shifted.transaction_time == outcome.transaction_time,
        shifted.commit_was_uncertain == outcome.commit_was_uncertain,
    ensures
        other.schedule_to_terminal@ == next.schedule_to_terminal@,
        other.accepted_to_commit@ == next.accepted_to_commit@,
        other.pool_wait@ == next.pool_wait@,
        other.limiter_wait@ == next.limiter_wait@,
        other.transaction_time@ == next.transaction_time@,
        other.owner_committed@ == next.owner_committed@,
        other.inserted == next.inserted,
        other.replayed == next.replayed,
        other.rejected_before == next.rejected_before,
        other.rejected_after == next.rejected_after,
        other.unknown_before == next.unknown_before,
        other.unknown_after == next.unknown_after,
        other.uncertain_commit == next.uncertain_commit,
{
}

/// A delivery that was tried adds each of its waits to the samples of that wait, and
/// one that was never tried adds none.
pub proof fn waits_are_those_of_attempts(
    measurements: Measurements,
    outcome: DeliveryOutcome,
    scheduled: nat,
    owner: int,
    next: Measurements,
)
    requires
        measurements.recorded(outcome, scheduled, owner, next),
    ensures
        outcome.attempt_count == 0 ==> next.pool_wait@ == measurements.pool_wait@
            && next.limiter_wait@ == measurements.limiter_wait@ && next.transaction_time@
            == measurements.transaction_time@,
        outcome.attempt_count > 0 ==> next.pool_wait@ == measurements.pool_wait@.insert(
            histogram::bound_of(outcome.pool_wait@),
        ) && next.limiter_wait@ == measurements.limiter_wait@.insert(
            histogram::bound_of(outcome.limiter_wait@),
        ) && next.transaction_time@ == measurements.transaction_time@.insert(
            histogram::bound_of(outcome.transaction_time@),
        ),
{
}

/// An outcome is counted as what it was: one more insert, replay, rejection or unknown
/// end, apart by whether the delivery had been accepted, and nothing else changes. A
/// commit counts for its owner and for no other.
pub proof fn outcomes_are_counted_once(
    measurements: Measurements,
    outcome: DeliveryOutcome,
    scheduled: nat,
    owner: int,
    next: Measurements,
    other: int,
)
    requires
        measurements.wf(),
        measurements.deliveries() < u64::MAX,
        measurements.recorded(outcome, scheduled, owner, next),
        0 <= owner < OWNERS,
        0 <= other < OWNERS,
        other != owner,
    ensures
        next.deliveries() == measurements.deliveries() + 1,
        next.inserted > measurements.inserted <==> outcome.terminal is CommittedInserted,
        next.replayed > measurements.replayed <==> outcome.terminal is CommittedReplayed,
        next.rejected_before > measurements.rejected_before <==> outcome.terminal is Rejected
            && outcome.accepted_at is None,
        next.rejected_after > measurements.rejected_after <==> outcome.terminal is Rejected
            && outcome.accepted_at is Some,
        next.unknown_before > measurements.unknown_before <==> outcome.terminal is Unknown
            && outcome.accepted_at is None,
        next.unknown_after > measurements.unknown_after <==> outcome.terminal is Unknown
            && outcome.accepted_at is Some,
        next.uncertain_commit > measurements.uncertain_commit <==> outcome.commit_was_uncertain,
        next.inserted + next.replayed + next.rejected_before + next.rejected_after
            + next.unknown_before + next.unknown_after == measurements.deliveries() + 1,
        next.uncertain_commit <= measurements.uncertain_commit + 1,
        next.owner_committed@.len() == measurements.owner_committed@.len(),
        next.owner_committed@[other] == measurements.owner_committed@[other],
        next.owner_committed@[owner] == measurements.owner_committed@[owner] + (if outcome.terminal
            is CommittedInserted || outcome.terminal is CommittedReplayed {
            1int
        } else {
            0
        }),
{
    total_bounds(measurements.owner_committed@, owner);
}

/// The statuses of outcomes tell them apart, and apart from what is no outcome.
pub proof fn statuses_tell_outcomes_apart(outcome: DeliveryOutcome)
    ensures
        outcome.status() == 2 <==> outcome.terminal is CommittedInserted,
        outcome.status() == 3 <==> outcome.terminal is CommittedReplayed,
        outcome.status() == 4 <==> outcome.terminal is Rejected,
        outcome.status() == 5 <==> outcome.terminal is Unknown,
        outcome.committed() <==> outcome.status() == 2 || outcome.status() == 3,
{
}

/// What ends by the deadline, at the deadline too, counts as if there were none, and
/// is not late. The deadline stays.
pub proof fn outcomes_in_time_count(
    cutoff: DrainCutoff,
    outcome: DeliveryOutcome,
    delivery: PendingDelivery,
    next: DrainCutoff,
)
    requires
        cutoff.recorded(outcome, delivery, next),
    ensures
        outcome.terminal_at@ <= cutoff.deadline@ ==> next.late == cutoff.late
            && cutoff.terminal.recorded(
            outcome,
            delivery.scheduled@,
            delivery.owner as int,
            next.terminal,
        ),
        next.deadline == cutoff.deadline,
        next.terminal.deliveries() + next.late == cutoff.terminal.deliveries() + cutoff.late + 1,
{
}

/// The warm-up is exactly the first arrivals, as many as it says.
pub proof fn the_warm_up_comes_first(key: u64, warmup_count: u64)
    ensures
        is_measured(warmup_count, warmup_count),
        is_measured(key, 0),
        key < warmup_count ==> !is_measured(key, warmup_count),
        key < u64::MAX && is_measured(key, warmup_count) ==> is_measured(
            (key + 1) as u64,
            warmup_count,
        ),
{
}

/// A generator never goes back and never bunches: it offers the arrival that is due by
/// the clock, or its next one where that is later, and never beyond the last. What it
/// skips is missed, and once the offer is over all that is left is missed.
pub proof fn late_arrivals_are_missed(generator: GeneratorView, over: bool, by_clock: nat, i: int)
    requires
        generator.decided.len() < generator.total,
    ensures
        ({
            let at = generator.decided.len();
            let (next, offer) = generator.arrived(over, by_clock);
            &&& next.total == generator.total
            &&& 0 <= i < at ==> next.decided[i] == generator.decided[i]
            &&& at <= i < next.decided.len() ==> next.decided[i] == 6
            &&& over ==> offer is None && next.decided.len() == generator.total
            &&& !over ==> offer == Some(next.decided.len()) && at <= next.decided.len()
                < generator.total
            &&& !over && by_clock <= at ==> next.decided.len() == at
            &&& !over && at <= by_clock < generator.total ==> next.decided.len() == by_clock
            &&& !over && by_clock >= generator.total ==> next.decided.len() == generator.total - 1
        }),
{
}

/// An arrival that is offered is the next one, and it is pending where it is observed.
pub proof fn offers_are_marked(generator: GeneratorView, observed: bool)
    ensures
        generator.offering(observed).total == generator.total,
        generator.offering(observed).decided.len() == generator.decided.len() + 1,
        generator.offering(observed).decided.drop_last() == generator.decided,
        generator.offering(observed).decided.last() == if observed {
            1u8
        } else {
            7u8
        },
{
}

/// Reports outrank what was offered: a status that is decided stays, one that is not
/// becomes what was offered, and merging again changes nothing.
pub proof fn reports_outrank_offers(statuses: Seq<u8>, offered: Seq<u8>, i: int)
    requires
        statuses.len() == offered.len(),
        0 <= i < statuses.len(),
    ensures
        merged(statuses, offered).len() == statuses.len(),
        statuses[i] != 0 ==> merged(statuses, offered)[i] == statuses[i],
        statuses[i] == 0 ==> merged(statuses, offered)[i] == offered[i],
        merged(merged(statuses, offered), offered) == merged(statuses, offered),
{
    let once = merged(statuses, offered);
    assert(merged(once, offered) =~= once);
}

/// A call that records a delivery adds the bound of the span between the time it was
/// scheduled and the time it ended, gives the status of its outcome, and counts one more
/// delivery.
pub proof fn recording_measures_the_span(
    measurements: &mut Measurements,
    outcome: DeliveryOutcome,
    scheduled: Duration,
    owner: usize,
    status: u8,
    span: nat,
)
    requires
        call_ensures(Measurements::record, (measurements, &outcome, scheduled, owner), status),
        outcome.terminal_at@ == scheduled@ + span,
    ensures
        final(measurements).schedule_to_terminal@ == old(measurements).schedule_to_terminal@.insert(
            histogram::bound_of(span),
        ),
        span == 0 ==> final(measurements).schedule_to_terminal@
            == old(measurements).schedule_to_terminal@.insert(0),
        status == 2 <==> outcome.terminal is CommittedInserted,
        status == 3 <==> outcome.terminal is CommittedReplayed,
        status == 4 <==> outcome.terminal is Rejected,
        status == 5 <==> outcome.terminal is Unknown,
        final(measurements).deliveries() == old(measurements).deliveries() + 1,
{
    latencies_are_spans(
        *old(measurements),
        outcome,
        scheduled@,
        owner as int,
        *final(measurements),
        span,
    );
}

/// A call that takes metadata has its delivery pending, keeps the others, and hands out a
/// report exactly where one of that delivery came first, which then waits no longer.
pub proof fn metadata_releases_its_report(
    key: u64,
    delivery: PendingDelivery,
    pending: &mut BTreeMap<u64, PendingDelivery>,
    early: &mut BTreeMap<u64, DeliveryOutcome>,
    report: Option<DeliveryOutcome>,
    other: u64,
)
    requires
        call_ensures(accept_metadata, (key, delivery, pending, early), report),
        other != key,
    ensures
        final(pending)@.contains_key(key) && final(pending)@[key] == delivery,
        final(pending)@.contains_key(other) <==> old(pending)@.contains_key(other),
        old(pending)@.contains_key(other) ==> final(pending)@[other] == old(pending)@[other],
        report is Some <==> old(early)@.contains_key(key),
        report matches Some(report) ==> report == old(early)@[key],
        !final(early)@.contains_key(key),
        final(early)@.contains_key(other) <==> old(early)@.contains_key(other),
        old(early)@.contains_key(other) ==> final(early)@[other] == old(early)@[other],
{
}

/// A call that takes a report hands it out exactly where its delivery is known, and else
/// keeps it for then.
pub proof fn reports_wait_for_their_metadata(
    report: DeliveryOutcome,
    pending: BTreeMap<u64, PendingDelivery>,
    early: &mut BTreeMap<u64, DeliveryOutcome>,
    ready: Option<DeliveryOutcome>,
)
    requires
        call_ensures(accept_report, (report, &pending, early), ready),
    ensures
        pending@.contains_key(report.key) ==> ready == Some(report) && final(early)@ == old(early)@,
        !pending@.contains_key(report.key) ==> ready is None && final(early)@.contains_key(
            report.key,
        ) && final(early)@[report.key] == report,
{
}

/// A call that accounts for a report takes its delivery off the pending ones and counts it
/// once in all measurements, once in those after the warm-up if it is none of the first
/// arrivals, and once by the deadline, in time or late.
pub proof fn reports_are_accounted_for_once(
    report: DeliveryOutcome,
    pending: &mut BTreeMap<u64, PendingDelivery>,
    statuses: &mut Vec<u8>,
    all: &mut Measurements,
    measured: &mut Measurements,
    warmup_count: u64,
    cutoff: &mut DrainCutoff,
)
    requires
        call_ensures(
            consume_report,
            (report, pending, statuses, all, measured, warmup_count, cutoff),
            (),
        ),
        report.key < old(statuses)@.len(),
    ensures
        !final(pending)@.contains_key(report.key),
        final(statuses)@[report.key as int] == report.status(),
        final(statuses)@.len() == old(statuses)@.len(),
        forall|i: int|
            0 <= i < old(statuses)@.len() && i != report.key ==> final(statuses)@[i]
                == old(statuses)@[i],
        final(all).deliveries() == old(all).deliveries() + 1,
        report.key >= warmup_count ==> final(measured).deliveries() == old(measured).deliveries()
            + 1,
        report.key < warmup_count ==> *final(measured) == *old(measured),
        final(cutoff).terminal.deliveries() + final(cutoff).late
            == old(cutoff).terminal.deliveries() + old(cutoff).late + 1,
        report.terminal_at@ <= old(cutoff).deadline@ ==> final(cutoff).late == old(cutoff).late,
        report.terminal_at@ > old(cutoff).deadline@ ==> final(cutoff).terminal
            == old(cutoff).terminal,
        final(cutoff).deadline == old(cutoff).deadline,
{
}

/// New measurements have counted nothing, for no owner.
pub proof fn new_measurements_are_zero(measurements: Measurements, owner: int)
    requires
        call_ensures(Measurements::default, (), measurements),
        0 <= owner < OWNERS,
    ensures
        measurements.deliveries() == 0,
        measurements.inserted == 0,
        measurements.replayed == 0,
        measurements.rejected_before == 0,
        measurements.rejected_after == 0,
        measurements.unknown_before == 0,
        measurements.unknown_after == 0,
        measurements.uncertain_commit == 0,
        measurements.pool_wait@.len() == 0,
        measurements.accepted_to_commit@.len() == 0,
        measurements.owner_committed@[owner] == 0,
{
    total_bounds(measurements.owner_committed@, owner);
}

/// A new generator has gone through nothing; what it reports of itself is what it has gone
/// through.
pub proof fn generators_report_themselves(
    total: usize,
    fresh: Generator,
    generator: Generator,
    index: u64,
    missed: u64,
    unavailable: u64,
)
    requires
        call_ensures(Generator::new, (total,), fresh),
        call_ensures(Generator::index, (&generator,), index),
        call_ensures(Generator::missed, (&generator,), missed),
        call_ensures(Generator::observer_unavailable, (&generator,), unavailable),
    ensures
        fresh@.decided.len() == 0,
        fresh@.total == total,
        index == generator@.decided.len(),
        missed == occurrences(generator@.decided, 6),
        unavailable == occurrences(generator@.decided, 7),
{
}

/// A count of statuses is the number of places at which the status stands: it starts at
/// nothing, grows by one with each such status, and is not changed by any other.
pub proof fn occurrences_are_counted(statuses: Seq<u8>, status: u8, other: u8)
    requires
        other != status,
    ensures
        occurrences(Seq::empty(), status) == 0,
        occurrences(statuses.push(status), status) == occurrences(statuses, status) + 1,
        occurrences(statuses.push(other), status) == occurrences(statuses, status),
{
    assert(statuses.push(status).drop_last() =~= statuses);
    assert(statuses.push(other).drop_last() =~= statuses);
}

/// The calls of a generator move it forward: an arrival that is due is offered, what it skips
/// is missed, and an offer marks exactly one.
pub proof fn generators_move_forward(
    arriving: &mut Generator,
    offering: &mut Generator,
    over: bool,
    elapsed: Duration,
    rate: u64,
    offered: Option<u64>,
    observed: bool,
)
    requires
        call_ensures(Generator::arrive, (arriving, over, elapsed, rate), offered),
        call_ensures(Generator::offer, (offering, observed), ()),
        old(arriving)@.decided.len() < old(arriving)@.total,
    ensures
        final(arriving)@.total == old(arriving)@.total,
        old(arriving)@.decided.len() <= final(arriving)@.decided.len() <= old(arriving)@.total,
        over ==> offered is None && final(arriving)@.decided.len() == old(arriving)@.total,
        !over ==> offered is Some && offered->0 == final(arriving)@.decided.len(),
        !over ==> final(arriving)@.decided.len() < old(arriving)@.total,
        forall|i: int|
            old(arriving)@.decided.len() <= i < final(arriving)@.decided.len()
                ==> final(arriving)@.decided[i] == 6,
        final(offering)@.decided == old(offering)@.decided.push(
            if observed {
                1
            } else {
                7
            },
        ),
{
}

/// The statuses that a generator shows are those of all arrivals: what was decided, then as
/// many as are left, not offered.
pub proof fn shown_statuses_are_complete(generator: Generator, statuses: &Vec<u8>, i: int)
    requires
        call_ensures(Generator::statuses, (&generator,), statuses),
        generator.wf(),
        0 <= i < statuses@.len(),
    ensures
        statuses@.len() == generator@.total,
        i < generator@.decided.len() ==> statuses@[i] == generator@.decided[i],
        i >= generator@.decided.len() ==> statuses@[i] == 0,
{
    generator.arrivals_are_accounted_for();
}

/// The call that merges statuses fills in only what reports left open.
pub proof fn merging_fills_in_only(statuses: &mut Vec<u8>, offered: Vec<u8>, i: int)
    requires
        call_ensures(merge_statuses, (statuses, &offered), ()),
        old(statuses)@.len() == offered@.len(),
        0 <= i < offered@.len(),
    ensures
        final(statuses)@.len() == old(statuses)@.len(),
        old(statuses)@[i] != 0 ==> final(statuses)@[i] == old(statuses)@[i],
        old(statuses)@[i] == 0 ==> final(statuses)@[i] == offered@[i],
{
    reports_outrank_offers(old(statuses)@, offered@, i);
}

} // verus!
