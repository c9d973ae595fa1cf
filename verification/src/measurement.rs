//! Opt-in, bounded measurements for individual ingestion deliveries.
//!
//! A delivery reserves report-channel capacity before observation starts. The
//! reservation remains held until the delivery reaches a terminal state, so
//! active observations and unread reports share one strict bound.
use crate::clock::{now, Duration};
use vstd::prelude::*;

verus! {

/// Opaque caller-provided key correlating a delivery with its terminal report.
#[derive(Debug, Clone, Copy, PartialEq, Eq, Hash, Structural)]
pub struct IngestionDeliveryKey(pub u64);

/// Why an ingestion delivery was rejected before durable commit.
#[derive(Debug, Clone, Copy, PartialEq, Eq, Structural)]
pub enum IngestionRejectionReason {
    TelemetryHeadroom,
    Serialization,
    ResidentLimit,
    DeferredLimit,
    ChannelClosed,
    NoRuntime,
    IdentityCollision,
    SessionAdmission,
}

/// Why the durable outcome of an ingestion delivery is unknown.
#[derive(Debug, Clone, Copy, PartialEq, Eq, Structural)]
pub enum IngestionUnknownReason {
    AdmissionAfterUncertainCommit,
    DeliveryDropped,
    ShutdownUnresolved,
}

/// The terminal outcome observed for one ingestion delivery.
#[derive(Debug, Clone, Copy, PartialEq, Eq, Structural)]
pub enum IngestionDeliveryTerminal {
    CommittedInserted,
    CommittedReplayed,
    Rejected(IngestionRejectionReason),
    Unknown(IngestionUnknownReason),
}

/// A process-local phase in the ingestion delivery path.
#[derive(Debug, Clone, Copy, PartialEq, Eq, Structural)]
pub enum IngestionMeasurementPhase {
    Submitted,
    ResidentAdmitted,
    Deferred,
    ChannelAccepted,
    WorkerReceived,
    Dispatched,
}

/// Timing and retry progress captured for one ingestion delivery.
#[derive(Debug, Clone, Copy, PartialEq, Eq)]
pub struct IngestionDeliveryProgress {
    pub submitted_at: Option<std::time::Instant>,
    pub resident_admitted_at: Option<std::time::Instant>,
    pub deferred_at: Option<std::time::Instant>,
    pub channel_accepted_at: Option<std::time::Instant>,
    pub worker_received_at: Option<std::time::Instant>,
    pub first_dispatched_at: Option<std::time::Instant>,
    pub attempt_count: u64,
    pub limiter_wait: Duration,
    pub pool_wait: Duration,
    pub transaction_time: Duration,
    pub commit_was_uncertain: bool,
}

/// The terminal report for one observed ingestion delivery.
#[derive(Debug, Clone, Copy, PartialEq, Eq)]
pub struct IngestionDeliveryReport {
    pub key: IngestionDeliveryKey,
    pub terminal: IngestionDeliveryTerminal,
    pub terminal_at: std::time::Instant,
    pub progress: IngestionDeliveryProgress,
}

/// Failure to reserve bounded measurement capacity.
#[derive(Debug, Clone, Copy, PartialEq, Eq, Structural)]
pub enum MeasurementUnavailable {
    Full,
    Closed,
}

impl IngestionDeliveryProgress {
    /// The waits are spans that can be added to.
    pub open spec fn wf(self) -> bool {
        self.limiter_wait.wf() && self.pool_wait.wf() && self.transaction_time.wf()
    }

    /// Nothing has happened yet.
    pub open spec fn is_initial(self) -> bool {
        &&& self.submitted_at is None
        &&& self.resident_admitted_at is None
        &&& self.deferred_at is None
        &&& self.channel_accepted_at is None
        &&& self.worker_received_at is None
        &&& self.first_dispatched_at is None
        &&& self.attempt_count == 0
        &&& self.limiter_wait@ == 0
        &&& self.pool_wait@ == 0
        &&& self.transaction_time@ == 0
        &&& !self.commit_was_uncertain
    }

    /// When a phase was first reached.
    pub open spec fn reached(self, phase: IngestionMeasurementPhase) -> Option<std::time::Instant> {
        match phase {
            IngestionMeasurementPhase::Submitted => self.submitted_at,
            IngestionMeasurementPhase::ResidentAdmitted => self.resident_admitted_at,
            IngestionMeasurementPhase::Deferred => self.deferred_at,
            IngestionMeasurementPhase::ChannelAccepted => self.channel_accepted_at,
            IngestionMeasurementPhase::WorkerReceived => self.worker_received_at,
            IngestionMeasurementPhase::Dispatched => self.first_dispatched_at,
        }
    }

    /// The same progress but for when one phase was reached.
    pub open spec fn with_phase(
        self,
        phase: IngestionMeasurementPhase,
        at: Option<std::time::Instant>,
    ) -> Self {
        match phase {
            IngestionMeasurementPhase::Submitted => IngestionDeliveryProgress {
                submitted_at: at,
                ..self
            },
            IngestionMeasurementPhase::ResidentAdmitted => IngestionDeliveryProgress {
                resident_admitted_at: at,
                ..self
            },
            IngestionMeasurementPhase::Deferred => IngestionDeliveryProgress {
                deferred_at: at,
                ..self
            },
            IngestionMeasurementPhase::ChannelAccepted => IngestionDeliveryProgress {
                channel_accepted_at: at,
                ..self
            },
            IngestionMeasurementPhase::WorkerReceived => IngestionDeliveryProgress {
                worker_received_at: at,
                ..self
            },
            IngestionMeasurementPhase::Dispatched => IngestionDeliveryProgress {
                first_dispatched_at: at,
                ..self
            },
        }
    }
}

impl Default for IngestionDeliveryProgress {
    fn default() -> (progress: Self)
        ensures
            progress.is_initial(),
            progress.wf(),
    {
        IngestionDeliveryProgress {
            submitted_at: None,
            resident_admitted_at: None,
            deferred_at: None,
            channel_accepted_at: None,
            worker_received_at: None,
            first_dispatched_at: None,
            attempt_count: 0,
            limiter_wait: Duration::default(),
            pool_wait: Duration::default(),
            transaction_time: Duration::default(),
            commit_was_uncertain: false,
        }
    }
}

/// The live state of one observed delivery.
#[derive(Debug, Clone, Copy)]
pub struct DeliveryState {
    pub progress: IngestionDeliveryProgress,
    pub commit_in_progress: bool,
    pub finished: bool,
}

/// One thing that is observed of a delivery before it ends.
pub enum Observation {
    Reached(IngestionMeasurementPhase, std::time::Instant),
    AttemptStarted,
    LimiterWaited(Duration),
    PoolWaited(Duration),
    TransactionTook(Duration),
    CommitStarted,
    CommitAcknowledged,
    CommitFailed,
}

impl Observation {
    /// The span that is observed is one that can be added.
    pub open spec fn wf(self) -> bool {
        match self {
            Observation::LimiterWaited(span) => span.wf(),
            Observation::PoolWaited(span) => span.wf(),
            Observation::TransactionTook(span) => span.wf(),
            _ => true,
        }
    }
}

impl DeliveryState {
    /// The waits are spans that can be added to.
    pub open spec fn wf(self) -> bool {
        self.progress.wf()
    }

    /// Observation has just started.
    pub open spec fn is_fresh(self) -> bool {
        self.progress.is_initial() && !self.commit_in_progress && !self.finished
    }

    /// The progress once an open commit counts as uncertain.
    pub open spec fn settled_progress(self) -> IngestionDeliveryProgress {
        IngestionDeliveryProgress {
            commit_was_uncertain: self.progress.commit_was_uncertain || self.commit_in_progress,
            ..self.progress
        }
    }

    /// `next` is the state after an observation: the observation shows unless
    /// the delivery has ended, and nothing else changes.
    pub open spec fn observed(self, observation: Observation, next: DeliveryState) -> bool {
        let was = self.progress;
        if self.finished {
            next == self
        } else {
            match observation {
                Observation::Reached(phase, at) => next == (DeliveryState {
                    progress: if was.reached(phase) is Some {
                        was
                    } else {
                        was.with_phase(phase, Some(at))
                    },
                    ..self
                }),
                Observation::AttemptStarted => next == (DeliveryState {
                    progress: IngestionDeliveryProgress {
                        attempt_count: if was.attempt_count < u64::MAX {
                            (was.attempt_count + 1) as u64
                        } else {
                            was.attempt_count
                        },
                        ..was
                    },
                    ..self
                }),
                Observation::LimiterWaited(span) => {
                    &&& next == (DeliveryState {
                        progress: IngestionDeliveryProgress {
                            limiter_wait: next.progress.limiter_wait,
                            ..was
                        },
                        ..self
                    })
                    &&& next.progress.limiter_wait@ == Duration::saturated_sum(
                        was.limiter_wait@,
                        span@,
                    )
                },
                Observation::PoolWaited(span) => {
                    &&& next == (DeliveryState {
                        progress: IngestionDeliveryProgress {
                            pool_wait: next.progress.pool_wait,
                            ..was
                        },
                        ..self
                    })
                    &&& next.progress.pool_wait@ == Duration::saturated_sum(was.pool_wait@, span@)
                },
                Observation::TransactionTook(span) => {
                    &&& next == (DeliveryState {
                        progress: IngestionDeliveryProgress {
                            transaction_time: next.progress.transaction_time,
                            ..was
                        },
                        ..self
                    })
                    &&& next.progress.transaction_time@ == Duration::saturated_sum(
                        was.transaction_time@,
                        span@,
                    )
                },
                Observation::CommitStarted => next == (DeliveryState {
                    commit_in_progress: true,
                    ..self
                }),
                Observation::CommitAcknowledged => next == (DeliveryState {
                    commit_in_progress: false,
                    ..self
                }),
                Observation::CommitFailed => next == (DeliveryState {
                    progress: self.settled_progress(),
                    commit_in_progress: false,
                    ..self
                }),
            }
        }
    }

    /// The state once the delivery has ended.
    pub open spec fn ended(self) -> DeliveryState {
        if self.finished {
            self
        } else {
            DeliveryState {
                progress: self.settled_progress(),
                commit_in_progress: false,
                finished: true,
            }
        }
    }

    /// A delivery that nothing has been observed of.
    pub fn new() -> (state: Self)
        ensures
            state.is_fresh(),
            state.wf(),
    {
        DeliveryState {
            progress: IngestionDeliveryProgress::default(),
            commit_in_progress: false,
            finished: false,
        }
    }

    /// The progress so far.
    pub fn snapshot(&self) -> (progress: IngestionDeliveryProgress)
        ensures
            progress == self.progress,
    {
        self.progress
    }

    /// A phase is reached now.
    pub fn mark(&mut self, phase: IngestionMeasurementPhase)
        requires
            old(self).wf(),
        ensures
            final(self).wf(),
            exists|at: std::time::Instant| #[trigger]
                old(self).observed(Observation::Reached(phase, at), *final(self)),
    {
        let at = now();
        self.mark_at(phase, at);
        assert(old(self).observed(Observation::Reached(phase, at), *self));
    }

    /// A phase is reached; the first time counts.
    pub fn mark_at(&mut self, phase: IngestionMeasurementPhase, at: std::time::Instant)
        requires
            old(self).wf(),
        ensures
            final(self).wf(),
            old(self).observed(Observation::Reached(phase, at), *final(self)),
    {
        if self.finished {
            return;
        }
        match phase {
            IngestionMeasurementPhase::Submitted => {
                if self.progress.submitted_at.is_none() {
                    self.progress.submitted_at = Some(at);
                }
            },
            IngestionMeasurementPhase::ResidentAdmitted => {
                if self.progress.resident_admitted_at.is_none() {
                    self.progress.resident_admitted_at = Some(at);
                }
            },
            IngestionMeasurementPhase::Deferred => {
                if self.progress.deferred_at.is_none() {
                    self.progress.deferred_at = Some(at);
                }
            },
            IngestionMeasurementPhase::ChannelAccepted => {
                if self.progress.channel_accepted_at.is_none() {
                    self.progress.channel_accepted_at = Some(at);
                }
            },
            IngestionMeasurementPhase::WorkerReceived => {
                if self.progress.worker_received_at.is_none() {
                    self.progress.worker_received_at = Some(at);
                }
            },
            IngestionMeasurementPhase::Dispatched => {
                if self.progress.first_dispatched_at.is_none() {
                    self.progress.first_dispatched_at = Some(at);
                }
            },
        }
    }

    /// A database attempt starts.
    pub fn start_attempt(&mut self)
        requires
            old(self).wf(),
        ensures
            final(self).wf(),
            old(self).observed(Observation::AttemptStarted, *final(self)),
    {
        if !self.finished {
            self.progress.attempt_count = self.progress.attempt_count.saturating_add(1);
        }
    }

    /// Time was spent waiting for the limiter.
    pub fn add_limiter_wait(&mut self, duration: Duration)
        requires
            old(self).wf(),
            duration.wf(),
        ensures
            final(self).wf(),
            old(self).observed(Observation::LimiterWaited(duration), *final(self)),
    {
        if !self.finished {
            self.progress.limiter_wait = self.progress.limiter_wait.saturating_add(duration);
        }
    }

    /// Time was spent waiting for a pooled connection.
    pub fn add_pool_wait(&mut self, duration: Duration)
        requires
            old(self).wf(),
            duration.wf(),
        ensures
            final(self).wf(),
            old(self).observed(Observation::PoolWaited(duration), *final(self)),
    {
        if !self.finished {
            self.progress.pool_wait = self.progress.pool_wait.saturating_add(duration);
        }
    }

    /// Time was spent in a transaction.
    pub fn add_transaction_time(&mut self, duration: Duration)
        requires
            old(self).wf(),
            duration.wf(),
        ensures
            final(self).wf(),
            old(self).observed(Observation::TransactionTook(duration), *final(self)),
    {
        if !self.finished {
            self.progress.transaction_time = self.progress.transaction_time.saturating_add(
                duration,
            );
        }
    }

    /// A commit is under way.
    pub fn commit_started(&mut self)
        requires
            old(self).wf(),
        ensures
            final(self).wf(),
            old(self).observed(Observation::CommitStarted, *final(self)),
    {
        if !self.finished {
            self.commit_in_progress = true;
        }
    }

    /// The commit under way was acknowledged.
    pub fn commit_acknowledged(&mut self)
        requires
            old(self).wf(),
        ensures
            final(self).wf(),
            old(self).observed(Observation::CommitAcknowledged, *final(self)),
    {
        if !self.finished {
            self.commit_in_progress = false;
        }
    }

    /// The commit under way, if any, ended without an acknowledgement.
    pub fn commit_failed(&mut self)
        requires
            old(self).wf(),
        ensures
            final(self).wf(),
            old(self).observed(Observation::CommitFailed, *final(self)),
    {
        if !self.finished && self.commit_in_progress {
            self.commit_in_progress = false;
            self.progress.commit_was_uncertain = true;
        }
    }

    /// The delivery ends now, unless it has ended before.
    pub fn finish(&mut self) -> (ending: Option<(std::time::Instant, IngestionDeliveryProgress)>)
        requires
            old(self).wf(),
        ensures
            final(self).wf(),
            *final(self) == old(self).ended(),
            ending is Some <==> !old(self).finished,
            ending matches Some(ending) ==> ending.1 == final(self).progress,
    {
        self.finish_at(now())
    }

    /// The delivery ends, unless it has ended before; a commit still under way
    /// is uncertain.
    pub fn finish_at(&mut self, at: std::time::Instant) -> (ending: Option<
        (std::time::Instant, IngestionDeliveryProgress),
    >)
        requires
            old(self).wf(),
        ensures
            final(self).wf(),
            *final(self) == old(self).ended(),
            ending == (if old(self).finished {
                None
            } else {
                Some((at, final(self).progress))
            }),
    {
        if self.finished {
            return None;
        }
        self.finished = true;
        if self.commit_in_progress {
            self.commit_in_progress = false;
            self.progress.commit_was_uncertain = true;
        }
        Some((at, self.progress))
    }
}

/// Read-only access to live delivery progress.
#[derive(Debug)]
pub struct IngestionDeliveryProbe<'a> {
    state: &'a DeliveryState,
}

impl<'a> IngestionDeliveryProbe<'a> {
    /// The progress that the probe reads.
    pub closed spec fn progress(self) -> IngestionDeliveryProgress {
        self.state.progress
    }

    /// A probe of a delivery.
    pub fn new(state: &'a DeliveryState) -> (probe: Self)
        ensures
            probe.progress() == state.progress,
    {
        IngestionDeliveryProbe { state }
    }

    /// The progress so far.
    pub fn snapshot(&self) -> (progress: IngestionDeliveryProgress)
        ensures
            progress == self.progress(),
    {
        self.state.snapshot()
    }
}

/// `tokio::sync::mpsc::Sender`, opaque.
#[verifier::external_type_specification]
#[verifier::external_body]
#[verifier::reject_recursive_types(T)]
pub struct ExSender<T>(tokio::sync::mpsc::Sender<T>);

/// `tokio::sync::mpsc::Receiver`, opaque.
#[verifier::external_type_specification]
#[verifier::external_body]
#[verifier::reject_recursive_types(T)]
pub struct ExReceiver<T>(tokio::sync::mpsc::Receiver<T>);

/// `tokio::sync::mpsc::OwnedPermit`, opaque: the right to send one report.
#[verifier::external_type_specification]
#[verifier::external_body]
#[verifier::reject_recursive_types(T)]
pub struct ExOwnedPermit<T>(tokio::sync::mpsc::OwnedPermit<T>);

/// Receives terminal reports from an [`IngestionMeasurementSink`].
pub type IngestionMeasurementReceiver = tokio::sync::mpsc::Receiver<IngestionDeliveryReport>;

/// The right to send one terminal report.
pub type ReportPermit = tokio::sync::mpsc::OwnedPermit<IngestionDeliveryReport>;

/// The most reports that a channel can be made for.
pub open spec fn max_report_capacity() -> nat {
    (usize::MAX / 8) as nat
}

/// How many slots the channel behind a sender was made with.
pub uninterp spec fn report_slots(
    sender: tokio::sync::mpsc::Sender<IngestionDeliveryReport>,
) -> nat;

/// How many slots the channel was made with of which a permit holds one.
pub uninterp spec fn permit_slots(
    permit: tokio::sync::mpsc::OwnedPermit<IngestionDeliveryReport>,
) -> nat;

/// Which channel a sender sends to.
pub uninterp spec fn sender_channel(
    sender: tokio::sync::mpsc::Sender<IngestionDeliveryReport>,
) -> int;

/// Which channel a receiver receives from.
pub uninterp spec fn receiver_channel(
    receiver: tokio::sync::mpsc::Receiver<IngestionDeliveryReport>,
) -> int;

/// Which channel a permit holds a slot of.
pub uninterp spec fn permit_channel(
    permit: tokio::sync::mpsc::OwnedPermit<IngestionDeliveryReport>,
) -> int;

/// Whether a reservation at a sender was answered so at a moment: when its channel
/// was closed or not, and so many of its slots were taken.
pub uninterp spec fn was_answered(
    sender: tokio::sync::mpsc::Sender<IngestionDeliveryReport>,
    reservation: Result<ReportPermit, MeasurementUnavailable>,
    moment: (bool, nat),
) -> bool;

/// Why a channel refuses a reservation, by whether it is closed and how many of its
/// slots are taken; `None` where it grants one.
pub open spec fn channel_refusal(closed: bool, taken: nat, slots: nat) -> Option<
    MeasurementUnavailable,
> {
    if closed {
        Some(MeasurementUnavailable::Closed)
    } else if taken >= slots {
        Some(MeasurementUnavailable::Full)
    } else {
        None
    }
}

/// Why a reservation was refused; `None` where it was granted.
pub open spec fn refusal_of(reservation: Result<ReportPermit, MeasurementUnavailable>) -> Option<
    MeasurementUnavailable,
> {
    match reservation {
        Ok(_) => None,
        Err(why) => Some(why),
    }
}

/// Whether a reservation is what a channel of so many slots answers at a moment.
pub open spec fn is_answer(
    reservation: Result<ReportPermit, MeasurementUnavailable>,
    moment: (bool, nat),
    slots: nat,
) -> bool {
    &&& moment.1 <= slots
    &&& refusal_of(reservation) == channel_refusal(moment.0, moment.1, slots)
}

/// Whether a reservation is the answer that a sender's channel gave, at a moment
/// when what it held asked for that answer.
pub open spec fn answered(
    sender: tokio::sync::mpsc::Sender<IngestionDeliveryReport>,
    reservation: Result<ReportPermit, MeasurementUnavailable>,
) -> bool {
    exists|moment: (bool, nat)| #[trigger]
        was_answered(sender, reservation, moment) && is_answer(
            reservation,
            moment,
            report_slots(sender),
        )
}

/// Whether a report went out under a permit, which gave this sender back.
pub uninterp spec fn went_out(
    permit: tokio::sync::mpsc::OwnedPermit<IngestionDeliveryReport>,
    report: IngestionDeliveryReport,
    sender: tokio::sync::mpsc::Sender<IngestionDeliveryReport>,
) -> bool;

/// Whether a report was sent under a permit.
pub open spec fn was_sent(permit: ReportPermit, report: IngestionDeliveryReport) -> bool {
    exists|sender: tokio::sync::mpsc::Sender<IngestionDeliveryReport>| #[trigger]
        went_out(permit, report, sender)
}

/// `tokio::sync::mpsc::channel`: the two ends of one channel with `capacity`
/// slots. It panics for no slot at all, and for more than an eighth of what a
/// `usize` counts: those are left out.
#[verifier::external_body]
fn report_channel(capacity: usize) -> (ends: (
    tokio::sync::mpsc::Sender<IngestionDeliveryReport>,
    IngestionMeasurementReceiver,
))
    requires
        0 < capacity <= max_report_capacity(),
    ensures
        report_slots(ends.0) == capacity,
        sender_channel(ends.0) == receiver_channel(ends.1),
{
    tokio::sync::mpsc::channel(capacity)
}

/// `tokio::sync::mpsc::Sender`'s `Clone`: another sender of the same channel.
#[verifier::external_body]
fn share(sender: &tokio::sync::mpsc::Sender<IngestionDeliveryReport>) -> (other:
    tokio::sync::mpsc::Sender<IngestionDeliveryReport>)
    ensures
        report_slots(other) == report_slots(*sender),
        sender_channel(other) == sender_channel(*sender),
{
    sender.clone()
}

/// `tokio::sync::mpsc::Sender::try_reserve_owned`: a permit that holds one slot
/// of the sender's channel, or why there is none: `Closed` for a closed channel,
/// `Full` for an open one whose slots are all taken. How many are taken, and
/// whether it is closed, rests on what the other ends of the channel have done by
/// then, so nothing is claimed of that.
#[verifier::external_body]
fn reserve(sender: tokio::sync::mpsc::Sender<IngestionDeliveryReport>) -> (reservation: Result<
    ReportPermit,
    MeasurementUnavailable,
>)
    ensures
        exists|moment: (bool, nat)| #[trigger]
            was_answered(sender, reservation, moment) && is_answer(
                reservation,
                moment,
                report_slots(sender),
            ),
        reservation matches Ok(permit) ==> {
            &&& permit_slots(permit) == report_slots(sender)
            &&& permit_channel(permit) == sender_channel(sender)
        },
{
    match sender.try_reserve_owned() {
        Ok(permit) => Ok(permit),
        Err(tokio::sync::mpsc::error::TrySendError::Full(_)) => Err(MeasurementUnavailable::Full),
        Err(tokio::sync::mpsc::error::TrySendError::Closed(_)) => Err(
            MeasurementUnavailable::Closed,
        ),
    }
}

/// `tokio::sync::mpsc::OwnedPermit::send`: the report goes out, into the slot that
/// the permit holds, and a sender of the same channel comes back. This is so also
/// where the receiver is gone; whether the report is ever read is up to it, so
/// nothing is claimed of that.
#[verifier::external_body]
fn send(permit: ReportPermit, report: IngestionDeliveryReport) -> (sender:
    tokio::sync::mpsc::Sender<IngestionDeliveryReport>)
    ensures
        went_out(permit, report, sender),
        sender_channel(sender) == permit_channel(permit),
        report_slots(sender) == permit_slots(permit),
{
    permit.send(report)
}

/// A non-blocking producer for opt-in ingestion delivery measurements.
#[derive(Debug)]
pub struct IngestionMeasurementSink {
    tx: tokio::sync::mpsc::Sender<IngestionDeliveryReport>,
}

impl Clone for IngestionMeasurementSink {
    fn clone(&self) -> (other: Self)
        ensures
            other.capacity() == self.capacity(),
            other.channel() == self.channel(),
    {
        IngestionMeasurementSink { tx: share(&self.tx) }
    }
}

impl IngestionMeasurementSink {
    /// How many observations and unread reports there can be together.
    pub closed spec fn capacity(self) -> nat {
        report_slots(self.tx)
    }

    /// Which channel the reports go to.
    pub closed spec fn channel(self) -> int {
        sender_channel(self.tx)
    }

    /// Create a sink and receiver sharing a bounded terminal-report channel.
    pub fn bounded(capacity: usize) -> (ends: (Self, IngestionMeasurementReceiver))
        requires
            0 < capacity <= max_report_capacity(),
        ensures
            ends.0.capacity() == capacity,
            ends.0.channel() == receiver_channel(ends.1),
    {
        let (tx, rx) = report_channel(capacity);
        (IngestionMeasurementSink { tx }, rx)
    }

    /// Whether a start is what this sink's channel answered to the reservation for
    /// it: refused as closed where it was closed, as full where all its slots were
    /// taken, and granted otherwise.
    pub open spec fn start_answered(
        self,
        key: IngestionDeliveryKey,
        started: Result<IngestionDeliveryToken, MeasurementUnavailable>,
    ) -> bool {
        exists|
            sender: tokio::sync::mpsc::Sender<IngestionDeliveryReport>,
            reservation: Result<ReportPermit, MeasurementUnavailable>,
        | #[trigger]
            answered(sender, reservation) && sender_channel(sender) == self.channel()
                && report_slots(sender) == self.capacity()
                && IngestionDeliveryToken::started_from(reservation, key, started)
    }

    /// Start observing one delivery without waiting for report capacity. What is
    /// started holds a slot of this sink's channel; whether one was free is up to
    /// the channel.
    pub fn try_start(&self, key: IngestionDeliveryKey) -> (started: Result<
        IngestionDeliveryToken,
        MeasurementUnavailable,
    >)
        ensures
            self.start_answered(key, started),
            started matches Ok(token) ==> {
                &&& token.observation().wf()
                &&& token.observation().key() == key
                &&& token.observation().state().is_fresh()
                &&& token.observation().permit() matches Some(permit)
                &&& permit_slots(permit) == self.capacity()
                &&& permit_channel(permit) == self.channel()
            },
    {
        let sender = share(&self.tx);
        let ghost asked = sender;
        let reservation = reserve(sender);
        let ghost answer = reservation;
        let started = IngestionDeliveryToken::start(reservation, key);
        assert(answered(asked, answer));
        started
    }
}

/// Non-clone handoff proving that one delivery owns a measurement reservation.
pub struct IngestionDeliveryToken {
    observation: DeliveryGuard,
}

impl IngestionDeliveryToken {
    /// The observation that is handed over.
    pub closed spec fn observation(self) -> DeliveryGuard {
        self.observation
    }

    /// What a start gives for a reservation: a fresh observation that holds it, or
    /// why there is none.
    pub open spec fn started_from(
        reservation: Result<ReportPermit, MeasurementUnavailable>,
        key: IngestionDeliveryKey,
        started: Result<Self, MeasurementUnavailable>,
    ) -> bool {
        match (reservation, started) {
            (Ok(permit), Ok(token)) => {
                &&& token.observation().wf()
                &&& token.observation().key() == key
                &&& token.observation().state().is_fresh()
                &&& token.observation().permit() == Some(permit)
            },
            (Err(why), Err(unavailable)) => unavailable == why,
            _ => false,
        }
    }

    /// An observation starts exactly where a slot was reserved for its report.
    pub fn start(
        reservation: Result<ReportPermit, MeasurementUnavailable>,
        key: IngestionDeliveryKey,
    ) -> (started: Result<Self, MeasurementUnavailable>)
        ensures
            Self::started_from(reservation, key, started),
    {
        match reservation {
            Ok(permit) => Ok(
                IngestionDeliveryToken {
                    observation: DeliveryGuard {
                        key,
                        state: DeliveryState::new(),
                        permit: Some(permit),
                    },
                },
            ),
            Err(why) => Err(why),
        }
    }

    /// Hand the observation over.
    pub fn into_observation(self) -> (observation: DeliveryGuard)
        ensures
            observation == self.observation(),
    {
        self.observation
    }
}

/// The terminal outcome to report. A session fence can prevent a retry from
/// checking a prior lost-acknowledgement commit: such a rejection does not
/// assert that nothing was persisted.
pub open spec fn reported_terminal(
    terminal: IngestionDeliveryTerminal,
    commit_was_uncertain: bool,
) -> IngestionDeliveryTerminal {
    if commit_was_uncertain && terminal == IngestionDeliveryTerminal::Rejected(
        IngestionRejectionReason::SessionAdmission,
    ) {
        IngestionDeliveryTerminal::Unknown(IngestionUnknownReason::AdmissionAfterUncertainCommit)
    } else {
        terminal
    }
}

/// One observed delivery, with the reservation for its terminal report.
pub struct DeliveryGuard {
    key: IngestionDeliveryKey,
    state: DeliveryState,
    permit: Option<ReportPermit>,
}

impl DeliveryGuard {
    /// The key that the report will carry.
    pub closed spec fn key(self) -> IngestionDeliveryKey {
        self.key
    }

    /// The live state of the delivery.
    pub closed spec fn state(self) -> DeliveryState {
        self.state
    }

    /// The reservation, while it is held.
    pub closed spec fn permit(self) -> Option<ReportPermit> {
        self.permit
    }

    /// The reservation is held exactly until the delivery ends.
    pub open spec fn wf(self) -> bool {
        self.state().wf() && (self.permit() is Some <==> !self.state().finished)
    }

    /// `next` is the same delivery after an observation.
    pub open spec fn observed(self, observation: Observation, next: DeliveryGuard) -> bool {
        &&& next.key() == self.key()
        &&& next.permit() == self.permit()
        &&& self.state().observed(observation, next.state())
    }

    /// Whether two deliveries are told apart by nothing.
    pub proof fn equal_parts(self, other: Self)
        requires
            self.key() == other.key(),
            self.state() == other.state(),
            self.permit() == other.permit(),
        ensures
            self == other,
    {
    }

    /// The report with which the delivery ends.
    pub open spec fn report(
        self,
        terminal: IngestionDeliveryTerminal,
        at: std::time::Instant,
    ) -> IngestionDeliveryReport {
        let progress = self.state().settled_progress();
        IngestionDeliveryReport {
            key: self.key(),
            terminal: reported_terminal(terminal, progress.commit_was_uncertain),
            terminal_at: at,
            progress,
        }
    }

    /// What an ending sends: the report, under the reservation, if that is still
    /// held.
    pub open spec fn ending(self, terminal: IngestionDeliveryTerminal, at: std::time::Instant) -> Option<
        (ReportPermit, IngestionDeliveryReport),
    > {
        match self.permit() {
            Some(permit) => Some((permit, self.report(terminal, at))),
            None => None,
        }
    }

    /// Whether an ending sent what it has to, at some time.
    pub open spec fn reported(self, terminal: IngestionDeliveryTerminal) -> bool {
        self.permit() matches Some(permit) ==> exists|at: std::time::Instant|
            was_sent(permit, #[trigger] self.report(terminal, at))
    }

    /// `next` is the same delivery once it has ended.
    pub open spec fn ended(self, next: DeliveryGuard) -> bool {
        &&& next.key() == self.key()
        &&& next.permit() is None
        &&& next.state() == self.state().ended()
    }

    /// Read-only access to the progress.
    pub fn probe(&self) -> (probe: IngestionDeliveryProbe<'_>)
        ensures
            probe.progress() == self.state().progress,
    {
        IngestionDeliveryProbe::new(&self.state)
    }

    /// A phase is reached now.
    pub fn mark(&mut self, phase: IngestionMeasurementPhase)
        requires
            old(self).wf(),
        ensures
            final(self).wf(),
            exists|at: std::time::Instant| #[trigger]
                old(self).observed(Observation::Reached(phase, at), *final(self)),
    {
        self.state.mark(phase);
        proof {
            let at = choose|at: std::time::Instant| #[trigger]
                old(self).state().observed(Observation::Reached(phase, at), self.state());
            assert(old(self).observed(Observation::Reached(phase, at), *self));
        }
    }

    /// A database attempt starts.
    pub fn start_attempt(&mut self)
        requires
            old(self).wf(),
        ensures
            final(self).wf(),
            old(self).observed(Observation::AttemptStarted, *final(self)),
    {
        self.state.start_attempt();
    }

    /// Time was spent waiting for the limiter.
    pub fn add_limiter_wait(&mut self, duration: Duration)
        requires
            old(self).wf(),
            duration.wf(),
        ensures
            final(self).wf(),
            old(self).observed(Observation::LimiterWaited(duration), *final(self)),
    {
        self.state.add_limiter_wait(duration);
    }

    /// Time was spent waiting for a pooled connection.
    pub fn add_pool_wait(&mut self, duration: Duration)
        requires
            old(self).wf(),
            duration.wf(),
        ensures
            final(self).wf(),
            old(self).observed(Observation::PoolWaited(duration), *final(self)),
    {
        self.state.add_pool_wait(duration);
    }

    /// Time was spent in a transaction.
    pub fn add_transaction_time(&mut self, duration: Duration)
        requires
            old(self).wf(),
            duration.wf(),
        ensures
            final(self).wf(),
            old(self).observed(Observation::TransactionTook(duration), *final(self)),
    {
        self.state.add_transaction_time(duration);
    }

    /// A commit is under way.
    pub fn commit_started(&mut self)
        requires
            old(self).wf(),
        ensures
            final(self).wf(),
            old(self).observed(Observation::CommitStarted, *final(self)),
    {
        self.state.commit_started();
    }

    /// The commit under way was acknowledged.
    pub fn commit_acknowledged(&mut self)
        requires
            old(self).wf(),
        ensures
            final(self).wf(),
            old(self).observed(Observation::CommitAcknowledged, *final(self)),
    {
        self.state.commit_acknowledged();
    }

    /// The commit under way, if any, ended without an acknowledgement.
    pub fn commit_failed(&mut self)
        requires
            old(self).wf(),
        ensures
            final(self).wf(),
            old(self).observed(Observation::CommitFailed, *final(self)),
    {
        self.state.commit_failed();
    }

    /// The delivery ends now, unless it has ended before: its report, the one that
    /// `finish_at` hands out, goes into the slot that was reserved for it.
    pub fn finish(&mut self, terminal: IngestionDeliveryTerminal)
        requires
            old(self).wf(),
        ensures
            final(self).wf(),
            old(self).ended(*final(self)),
            old(self).reported(terminal),
    {
        let at = now();
        if let Some((permit, report)) = self.finish_at(terminal, at) {
            let _sender = send(permit, report);
            proof {
                assert(was_sent(permit, old(self).report(terminal, at)));
            }
        }
    }

    /// The delivery ends, unless it has ended before: what is returned is its
    /// report, and the reservation under which to send it.
    pub fn finish_at(&mut self, terminal: IngestionDeliveryTerminal, at: std::time::Instant) -> (ending:
        Option<(ReportPermit, IngestionDeliveryReport)>)
        requires
            old(self).wf(),
        ensures
            final(self).wf(),
            old(self).ended(*final(self)),
            ending == old(self).ending(terminal, at),
    {
        let (terminal_at, progress) = match self.state.finish_at(at) {
            Some(ending) => ending,
            None => {
                return None;
            },
        };
        let terminal = if progress.commit_was_uncertain && matches!(
            terminal,
            IngestionDeliveryTerminal::Rejected(IngestionRejectionReason::SessionAdmission)
        ) {
            IngestionDeliveryTerminal::Unknown(
                IngestionUnknownReason::AdmissionAfterUncertainCommit,
            )
        } else {
            terminal
        };
        match self.permit.take() {
            Some(permit) => Some(
                (permit, IngestionDeliveryReport { key: self.key, terminal, terminal_at, progress }),
            ),
            None => None,
        }
    }

    /// The last holder lets go of the delivery: unless it has ended before, its
    /// outcome is unknown.
    pub fn abandon(&mut self)
        requires
            old(self).wf(),
        ensures
            final(self).wf(),
            old(self).ended(*final(self)),
            old(self).reported(
                IngestionDeliveryTerminal::Unknown(IngestionUnknownReason::DeliveryDropped),
            ),
    {
        self.finish(IngestionDeliveryTerminal::Unknown(IngestionUnknownReason::DeliveryDropped));
    }
}

/// The states that a run of observations passes through, one after the other.
pub open spec fn is_run(states: Seq<DeliveryState>, observations: Seq<Observation>) -> bool {
    &&& states.len() == observations.len() + 1
    &&& forall|i: int|
        0 <= i < observations.len() ==> states[i].observed(
            #[trigger] observations[i],
            states[i + 1],
        )
}

/// An ended delivery is frozen: no observation changes it, and ending it again
/// does not either.
pub proof fn ended_deliveries_are_frozen(
    state: DeliveryState,
    observation: Observation,
    next: DeliveryState,
)
    requires
        state.ended().observed(observation, next),
    ensures
        next == state.ended(),
        state.ended().ended() == state.ended(),
{
}

/// One observation forgets nothing: uncertainty stays, phases keep the time at
/// which they were first reached, attempts and waits only grow.
pub proof fn observation_is_monotone(
    state: DeliveryState,
    observation: Observation,
    next: DeliveryState,
    phase: IngestionMeasurementPhase,
)
    requires
        state.observed(observation, next),
        state.wf(),
    ensures
        state.progress.commit_was_uncertain ==> next.progress.commit_was_uncertain,
        state.progress.reached(phase) is Some ==> next.progress.reached(phase)
            == state.progress.reached(phase),
        state.progress.attempt_count <= next.progress.attempt_count,
        state.progress.limiter_wait@ <= next.progress.limiter_wait@,
        state.progress.pool_wait@ <= next.progress.pool_wait@,
        state.progress.transaction_time@ <= next.progress.transaction_time@,
{
}

/// Uncertainty, once there, stays through any run of observations and shows in
/// the progress with which the delivery ends.
pub proof fn uncertainty_is_retained(states: Seq<DeliveryState>, observations: Seq<Observation>)
    requires
        is_run(states, observations),
        states[0].progress.commit_was_uncertain,
    ensures
        states.last().progress.commit_was_uncertain,
        states.last().ended().progress.commit_was_uncertain,
    decreases observations.len(),
{
    if observations.len() > 0 {
        assert(states[0].observed(observations[0], states[1]));
        let later = states.skip(1);
        let rest = observations.skip(1);
        assert forall|i: int| 0 <= i < rest.len() implies later[i].observed(
            #[trigger] rest[i],
            later[i + 1],
        ) by {
            assert(states[i + 1].observed(observations[i + 1], states[i + 2]));
        }
        uncertainty_is_retained(later, rest);
        assert(later.last() == states.last());
    } else {
        assert(states.last() == states[0]);
    }
}

/// A delivery is certain unless a commit was started: without one, no run of
/// observations from a fresh state and no ending makes it uncertain.
pub proof fn uncertainty_needs_a_commit(states: Seq<DeliveryState>, observations: Seq<Observation>)
    requires
        is_run(states, observations),
        states[0].is_fresh(),
        forall|i: int| 0 <= i < observations.len() ==> !(#[trigger] observations[i] is CommitStarted),
    ensures
        !states.last().commit_in_progress,
        !states.last().progress.commit_was_uncertain,
        !states.last().ended().progress.commit_was_uncertain,
{
    uncommitted_run_is_certain(states, observations);
}

/// A run without the start of a commit keeps a certain delivery certain.
proof fn uncommitted_run_is_certain(states: Seq<DeliveryState>, observations: Seq<Observation>)
    requires
        is_run(states, observations),
        !states[0].commit_in_progress,
        !states[0].progress.commit_was_uncertain,
        forall|i: int| 0 <= i < observations.len() ==> !(#[trigger] observations[i] is CommitStarted),
    ensures
        !states.last().commit_in_progress,
        !states.last().progress.commit_was_uncertain,
    decreases observations.len(),
{
    if observations.len() > 0 {
        assert(states[0].observed(observations[0], states[1]));
        assert(!(observations[0] is CommitStarted));
        let later = states.skip(1);
        let rest = observations.skip(1);
        assert forall|i: int| 0 <= i < rest.len() implies later[i].observed(
            #[trigger] rest[i],
            later[i + 1],
        ) by {
            assert(states[i + 1].observed(observations[i + 1], states[i + 2]));
        }
        uncommitted_run_is_certain(later, rest);
        assert(later.last() == states.last());
    } else {
        assert(states.last() == states[0]);
    }
}

/// A session fence after an uncertain commit is never reported as a rejection,
/// and no other outcome is changed.
pub proof fn admission_cannot_resolve_uncertainty(
    terminal: IngestionDeliveryTerminal,
    commit_was_uncertain: bool,
)
    ensures
        commit_was_uncertain ==> reported_terminal(terminal, commit_was_uncertain)
            != IngestionDeliveryTerminal::Rejected(IngestionRejectionReason::SessionAdmission),
        reported_terminal(terminal, commit_was_uncertain) != terminal ==> commit_was_uncertain
            && terminal == IngestionDeliveryTerminal::Rejected(
            IngestionRejectionReason::SessionAdmission,
        ),
{
}

/// The progress that a probe reads after the end is the progress of the report.
pub proof fn probe_agrees_with_report(
    guard: DeliveryGuard,
    ended: DeliveryGuard,
    terminal: IngestionDeliveryTerminal,
    at: std::time::Instant,
)
    requires
        guard.wf(),
        guard.permit() is Some,
        guard.ended(ended),
    ensures
        ended.state().progress == guard.report(terminal, at).progress,
        guard.report(terminal, at).progress.commit_was_uncertain
            <==> guard.state().progress.commit_was_uncertain || guard.state().commit_in_progress,
{
}

/// What happens to one delivery.
pub enum DeliveryStep {
    /// Something was observed.
    Observed(Observation),
    /// The delivery was ended, for the first time or again.
    Ended(IngestionDeliveryTerminal, std::time::Instant),
}

impl DeliveryGuard {
    /// `next` is the same delivery after a step.
    pub open spec fn stepped(self, step: DeliveryStep, next: DeliveryGuard) -> bool {
        match step {
            DeliveryStep::Observed(observation) => self.observed(observation, next),
            DeliveryStep::Ended(_, _) => self.ended(next),
        }
    }

    /// What a step sends.
    pub open spec fn sent_by(self, step: DeliveryStep) -> Seq<
        (ReportPermit, IngestionDeliveryReport),
    > {
        match step {
            DeliveryStep::Observed(_) => Seq::empty(),
            DeliveryStep::Ended(terminal, at) => match self.ending(terminal, at) {
                Some(sent) => seq![sent],
                None => Seq::empty(),
            },
        }
    }
}

/// The deliveries that a run of steps passes through, one after the other.
pub open spec fn is_course(guards: Seq<DeliveryGuard>, steps: Seq<DeliveryStep>) -> bool {
    &&& guards.len() == steps.len() + 1
    &&& forall|i: int|
        0 <= i < steps.len() ==> guards[i].stepped(#[trigger] steps[i], guards[i + 1])
}

/// What the steps of a course send, in order.
pub open spec fn all_sent(guards: Seq<DeliveryGuard>, steps: Seq<DeliveryStep>) -> Seq<
    (ReportPermit, IngestionDeliveryReport),
>
    decreases steps.len(),
{
    if steps.len() == 0 {
        Seq::empty()
    } else {
        all_sent(guards.drop_last(), steps.drop_last()) + guards[steps.len() - 1].sent_by(
            steps.last(),
        )
    }
}

/// A course without its last step is a course.
proof fn shorter_course(guards: Seq<DeliveryGuard>, steps: Seq<DeliveryStep>)
    requires
        is_course(guards, steps),
        steps.len() > 0,
    ensures
        is_course(guards.drop_last(), steps.drop_last()),
{
    let fewer = steps.drop_last();
    assert forall|i: int| 0 <= i < fewer.len() implies guards.drop_last()[i].stepped(
        #[trigger] fewer[i],
        guards.drop_last()[i + 1],
    ) by {
        assert(guards[i].stepped(steps[i], guards[i + 1]));
    }
}

/// A delivery that is observed only sends nothing, and keeps its key and its
/// reservation.
proof fn observing_sends_nothing(guards: Seq<DeliveryGuard>, steps: Seq<DeliveryStep>)
    requires
        is_course(guards, steps),
        forall|i: int| 0 <= i < steps.len() ==> #[trigger] steps[i] is Observed,
    ensures
        all_sent(guards, steps).len() == 0,
        guards.last().permit() == guards[0].permit(),
        guards.last().key() == guards[0].key(),
    decreases steps.len(),
{
    if steps.len() > 0 {
        shorter_course(guards, steps);
        observing_sends_nothing(guards.drop_last(), steps.drop_last());
        let last = steps.len() - 1;
        assert(steps[last] is Observed);
        assert(guards[last].stepped(steps[last], guards[last + 1]));
        assert(guards.drop_last().last() == guards[last]);
    } else {
        assert(guards.last() == guards[0]);
    }
}

/// A delivery sends exactly one report, under its own reservation and with its own
/// key: that of the first ending, with the outcome that this one has. What is
/// observed before sends nothing, and neither does anything after: no later ending
/// and no letting go.
pub proof fn a_delivery_reports_once(
    guards: Seq<DeliveryGuard>,
    steps: Seq<DeliveryStep>,
    first: int,
    terminal: IngestionDeliveryTerminal,
    at: std::time::Instant,
)
    requires
        is_course(guards, steps),
        guards[0].permit() is Some,
        0 <= first < steps.len(),
        steps[first] == DeliveryStep::Ended(terminal, at),
        forall|i: int| 0 <= i < first ==> #[trigger] steps[i] is Observed,
    ensures
        ({
            let report = guards[first].report(terminal, at);
            &&& all_sent(guards, steps) == seq![(guards[0].permit()->0, report)]
            &&& report.key == guards[0].key()
            &&& report.terminal == if terminal == IngestionDeliveryTerminal::Rejected(
                IngestionRejectionReason::SessionAdmission,
            ) && report.progress.commit_was_uncertain {
                IngestionDeliveryTerminal::Unknown(
                    IngestionUnknownReason::AdmissionAfterUncertainCommit,
                )
            } else {
                terminal
            }
        }),
        guards.last().permit() is None,
    decreases steps.len(),
{
    let last = steps.len() - 1;
    shorter_course(guards, steps);
    assert(guards[last].stepped(steps[last], guards[last + 1]));
    let fewer = steps.drop_last();
    let before = guards.drop_last();
    assert(before.last() == guards[last]);
    if first == last {
        assert forall|i: int| 0 <= i < fewer.len() implies #[trigger] fewer[i] is Observed by {
            assert(steps[i] is Observed);
        }
        observing_sends_nothing(before, fewer);
        assert(all_sent(guards, steps) =~= seq![
            (guards[0].permit()->0, guards[first].report(terminal, at)),
        ]);
    } else {
        assert forall|i: int| 0 <= i < first implies #[trigger] fewer[i] is Observed by {
            assert(steps[i] is Observed);
        }
        a_delivery_reports_once(before, fewer, first, terminal, at);
        assert(all_sent(guards, steps) =~= all_sent(before, fewer));
    }
}

/// The slots that a number of deliveries hold: one for each that is active.
pub open spec fn held_slots(guards: Seq<DeliveryGuard>) -> nat
    decreases guards.len(),
{
    if guards.len() == 0 {
        0
    } else {
        held_slots(guards.drop_last()) + if guards.last().permit() is Some {
            1nat
        } else {
            0nat
        }
    }
}

/// Replacing one delivery counts its own slot anew and no other.
proof fn held_slots_update(guards: Seq<DeliveryGuard>, i: int, guard: DeliveryGuard)
    requires
        0 <= i < guards.len(),
    ensures
        held_slots(guards.update(i, guard)) + (if guards[i].permit() is Some {
            1nat
        } else {
            0nat
        }) == held_slots(guards) + (if guard.permit() is Some {
            1nat
        } else {
            0nat
        }),
    decreases guards.len(),
{
    if i == guards.len() - 1 {
        assert(guards.update(i, guard).drop_last() =~= guards.drop_last());
    } else {
        assert(guards.update(i, guard).drop_last() =~= guards.drop_last().update(i, guard));
        held_slots_update(guards.drop_last(), i, guard);
    }
}

/// What is in use of a report channel: the deliveries that were started on it,
/// and the reports that nobody has read yet.
pub struct ChannelUse {
    pub capacity: nat,
    /// The receiver is gone, or takes no more.
    pub closed: bool,
    pub guards: Seq<DeliveryGuard>,
    pub unread: nat,
}

/// What happens to a report channel.
pub enum ChannelEvent {
    /// A slot was granted to a new observation.
    Started(DeliveryGuard),
    /// No slot was granted, for this reason.
    Refused(MeasurementUnavailable),
    /// The receiver went away, or takes no more.
    Closed,
    /// Something was observed of a delivery, which is now as given.
    Observed(int, Observation, DeliveryGuard),
    /// A delivery was ended, for the first time or again, and is now as given.
    Ended(int, DeliveryGuard),
    /// A report was read.
    Read,
}

impl ChannelUse {
    /// The slots in use: one for each active observation and unread report.
    pub open spec fn in_use(self) -> nat {
        held_slots(self.guards) + self.unread
    }

    /// No more slots are in use than there are.
    pub open spec fn bounded(self) -> bool {
        self.in_use() <= self.capacity
    }

    /// Why the next start is refused; `None` where it is granted.
    pub open spec fn refusal(self) -> Option<MeasurementUnavailable> {
        channel_refusal(self.closed, self.in_use(), self.capacity)
    }

    /// `next` is the use after an event. A slot is granted only while one is
    /// free, and a delivery that ends sends a report exactly if it still holds
    /// its reservation.
    pub open spec fn advanced(self, event: ChannelEvent, next: ChannelUse) -> bool {
        &&& next.capacity == self.capacity
        &&& next.closed == (self.closed || event is Closed)
        &&& match event {
            ChannelEvent::Started(guard) => {
                &&& self.refusal() is None
                &&& guard.permit() is Some
                &&& next.guards == self.guards.push(guard)
                &&& next.unread == self.unread
            },
            ChannelEvent::Refused(why) => {
                &&& self.refusal() == Some(why)
                &&& next.guards == self.guards
                &&& next.unread == self.unread
            },
            ChannelEvent::Closed => {
                &&& next.guards == self.guards
                &&& next.unread == self.unread
            },
            ChannelEvent::Observed(i, observation, guard) => {
                &&& 0 <= i < self.guards.len()
                &&& self.guards[i].observed(observation, guard)
                &&& next.guards == self.guards.update(i, guard)
                &&& next.unread == self.unread
            },
            ChannelEvent::Ended(i, guard) => {
                &&& 0 <= i < self.guards.len()
                &&& self.guards[i].ended(guard)
                &&& next.guards == self.guards.update(i, guard)
                &&& next.unread == self.unread + if self.guards[i].permit() is Some {
                    1nat
                } else {
                    0nat
                }
            },
            ChannelEvent::Read => {
                &&& self.unread > 0
                &&& next.guards == self.guards
                &&& next.unread == self.unread - 1
            },
        }
    }
}

/// Active observations and unread reports share one strict bound: no event
/// takes more slots than there are. Only a start takes one and only a read
/// frees one: the end of a delivery leaves its slot to the unread report, and
/// ending it again adds no report.
pub proof fn slots_are_bounded(before: ChannelUse, event: ChannelEvent, next: ChannelUse)
    requires
        before.bounded(),
        before.advanced(event, next),
    ensures
        next.bounded(),
        next.in_use() == match event {
            ChannelEvent::Started(_) => before.in_use() + 1int,
            ChannelEvent::Read => before.in_use() - 1int,
            _ => before.in_use() as int,
        },
{
    match event {
        ChannelEvent::Started(guard) => {
            assert(before.guards.push(guard).drop_last() =~= before.guards);
        },
        ChannelEvent::Observed(i, _, guard) => {
            held_slots_update(before.guards, i, guard);
        },
        ChannelEvent::Ended(i, guard) => {
            held_slots_update(before.guards, i, guard);
        },
        ChannelEvent::Read | ChannelEvent::Refused(_) | ChannelEvent::Closed => {},
    }
}

/// Under that bound, an open channel refuses a start exactly where active
/// observations and unread reports together are as many as its slots, and a closed
/// one refuses every start. A refusal takes no slot and sends no report.
pub proof fn refusals_are_exact(channel: ChannelUse, next: ChannelUse, why: MeasurementUnavailable)
    requires
        channel.bounded(),
    ensures
        channel.refusal() == Some(MeasurementUnavailable::Closed) <==> channel.closed,
        channel.refusal() == Some(MeasurementUnavailable::Full) <==> !channel.closed
            && channel.in_use() == channel.capacity,
        channel.refusal() is None <==> !channel.closed && channel.in_use() < channel.capacity,
        channel.advanced(ChannelEvent::Refused(why), next) ==> next == channel,
{
}

/// A start answers the use of its channel. Where the slots that were taken when the
/// reservation was answered are those of the active observations and the unread
/// reports, a start fails as closed exactly on a closed channel, fails as full
/// exactly on an open one with no slot left, and succeeds otherwise; a success takes
/// one slot for its observation, and a failure takes none.
pub proof fn starts_answer_the_use(
    reservation: Result<ReportPermit, MeasurementUnavailable>,
    moment: (bool, nat),
    key: IngestionDeliveryKey,
    started: Result<IngestionDeliveryToken, MeasurementUnavailable>,
    channel: ChannelUse,
)
    requires
        is_answer(reservation, moment, channel.capacity),
        IngestionDeliveryToken::started_from(reservation, key, started),
        channel.closed == moment.0,
        channel.in_use() == moment.1,
    ensures
        channel.bounded(),
        (started matches Err(MeasurementUnavailable::Closed)) <==> channel.closed,
        (started matches Err(MeasurementUnavailable::Full)) <==> !channel.closed && channel.in_use()
            == channel.capacity,
        started is Ok <==> !channel.closed && channel.in_use() < channel.capacity,
        match started {
            Ok(token) => channel.advanced(
                ChannelEvent::Started(token.observation()),
                ChannelUse { guards: channel.guards.push(token.observation()), ..channel },
            ),
            Err(why) => channel.advanced(ChannelEvent::Refused(why), channel),
        },
{
}

/// What is observed shows in its own field and nowhere else: an attempt counts one
/// more, a wait adds up in its own sum, and neither touches the commit.
pub proof fn observations_count_where_they_belong(
    state: DeliveryState,
    span: Duration,
    next: DeliveryState,
)
    requires
        !state.finished,
        state.wf(),
        span.wf(),
        state.progress.attempt_count < u64::MAX,
    ensures
        state.observed(Observation::AttemptStarted, next) ==> {
            &&& next.progress.attempt_count == state.progress.attempt_count + 1
            &&& next.progress.limiter_wait == state.progress.limiter_wait
            &&& next.progress.pool_wait == state.progress.pool_wait
            &&& next.progress.transaction_time == state.progress.transaction_time
        },
        state.observed(Observation::LimiterWaited(span), next) ==> {
            &&& next.progress.attempt_count == state.progress.attempt_count
            &&& next.progress.pool_wait == state.progress.pool_wait
            &&& next.progress.transaction_time == state.progress.transaction_time
            &&& state.progress.limiter_wait@ + span@ <= crate::clock::MAX_NANOS
                ==> next.progress.limiter_wait@ == state.progress.limiter_wait@ + span@
            &&& state.progress.limiter_wait@ + span@ > crate::clock::MAX_NANOS
                ==> next.progress.limiter_wait@ == crate::clock::MAX_NANOS
        },
        state.observed(Observation::PoolWaited(span), next) ==> {
            &&& next.progress.attempt_count == state.progress.attempt_count
            &&& next.progress.limiter_wait == state.progress.limiter_wait
            &&& next.progress.transaction_time == state.progress.transaction_time
            &&& state.progress.pool_wait@ + span@ <= crate::clock::MAX_NANOS
                ==> next.progress.pool_wait@ == state.progress.pool_wait@ + span@
            &&& state.progress.pool_wait@ + span@ > crate::clock::MAX_NANOS
                ==> next.progress.pool_wait@ == crate::clock::MAX_NANOS
        },
        state.observed(Observation::TransactionTook(span), next) ==> {
            &&& next.progress.attempt_count == state.progress.attempt_count
            &&& next.progress.limiter_wait == state.progress.limiter_wait
            &&& next.progress.pool_wait == state.progress.pool_wait
            &&& state.progress.transaction_time@ + span@ <= crate::clock::MAX_NANOS
                ==> next.progress.transaction_time@ == state.progress.transaction_time@ + span@
            &&& state.progress.transaction_time@ + span@ > crate::clock::MAX_NANOS
                ==> next.progress.transaction_time@ == crate::clock::MAX_NANOS
        },
        state.observed(Observation::AttemptStarted, next) || state.observed(
            Observation::LimiterWaited(span),
            next,
        ) || state.observed(Observation::PoolWaited(span), next) || state.observed(
            Observation::TransactionTook(span),
            next,
        ) ==> {
            &&& next.commit_in_progress == state.commit_in_progress
            &&& next.progress.commit_was_uncertain == state.progress.commit_was_uncertain
            &&& !next.finished
            &&& next.progress.submitted_at == state.progress.submitted_at
            &&& next.progress.resident_admitted_at == state.progress.resident_admitted_at
            &&& next.progress.deferred_at == state.progress.deferred_at
            &&& next.progress.channel_accepted_at == state.progress.channel_accepted_at
            &&& next.progress.worker_received_at == state.progress.worker_received_at
            &&& next.progress.first_dispatched_at == state.progress.first_dispatched_at
        },
{
}

/// The number of attempts does not go back, also where no more can be counted.
pub proof fn attempts_saturate(state: DeliveryState, next: DeliveryState)
    requires
        state.observed(Observation::AttemptStarted, next),
        state.progress.attempt_count == u64::MAX,
    ensures
        next == state,
{
}

/// The time that a field keeps, once something was seen at `at`: the first one.
pub open spec fn first_time(
    before: Option<std::time::Instant>,
    at: std::time::Instant,
) -> Option<std::time::Instant> {
    if before is Some {
        before
    } else {
        Some(at)
    }
}

/// Each phase keeps its own time, the first at which it was reached, and reaching
/// one changes no other and nothing else.
pub proof fn phases_keep_their_own_times(
    state: DeliveryState,
    phase: IngestionMeasurementPhase,
    at: std::time::Instant,
    next: DeliveryState,
)
    requires
        !state.finished,
        state.observed(Observation::Reached(phase, at), next),
    ensures
        next.progress.submitted_at == if phase is Submitted {
            first_time(state.progress.submitted_at, at)
        } else {
            state.progress.submitted_at
        },
        next.progress.resident_admitted_at == if phase is ResidentAdmitted {
            first_time(state.progress.resident_admitted_at, at)
        } else {
            state.progress.resident_admitted_at
        },
        next.progress.deferred_at == if phase is Deferred {
            first_time(state.progress.deferred_at, at)
        } else {
            state.progress.deferred_at
        },
        next.progress.channel_accepted_at == if phase is ChannelAccepted {
            first_time(state.progress.channel_accepted_at, at)
        } else {
            state.progress.channel_accepted_at
        },
        next.progress.worker_received_at == if phase is WorkerReceived {
            first_time(state.progress.worker_received_at, at)
        } else {
            state.progress.worker_received_at
        },
        next.progress.first_dispatched_at == if phase is Dispatched {
            first_time(state.progress.first_dispatched_at, at)
        } else {
            state.progress.first_dispatched_at
        },
        next.progress.attempt_count == state.progress.attempt_count,
        next.progress.limiter_wait == state.progress.limiter_wait,
        next.progress.pool_wait == state.progress.pool_wait,
        next.progress.transaction_time == state.progress.transaction_time,
        next.progress.commit_was_uncertain == state.progress.commit_was_uncertain,
        next.commit_in_progress == state.commit_in_progress,
        !next.finished,
{
}

/// A commit is under way from its start to its acknowledgement or failure. An
/// acknowledged commit leaves the delivery as certain as it was; one that failed, or
/// was still under way when the delivery ended, leaves it uncertain. An
/// acknowledgement or failure without a commit changes nothing.
pub proof fn commits_are_resolved(
    state: DeliveryState,
    begun: DeliveryState,
    acknowledged: DeliveryState,
    failed: DeliveryState,
)
    requires
        !state.finished,
        !state.commit_in_progress,
        state.observed(Observation::CommitStarted, begun),
        begun.observed(Observation::CommitAcknowledged, acknowledged),
        begun.observed(Observation::CommitFailed, failed),
    ensures
        begun.commit_in_progress,
        begun.progress == state.progress,
        acknowledged == state,
        acknowledged.ended().progress == state.progress,
        !failed.commit_in_progress,
        failed.progress.commit_was_uncertain,
        begun.ended().progress.commit_was_uncertain,
        !begun.ended().commit_in_progress,
        begun.ended().finished,
        failed.progress == (IngestionDeliveryProgress {
            commit_was_uncertain: true,
            ..state.progress
        }),
        begun.ended().progress == failed.progress,
        state.observed(Observation::CommitAcknowledged, state),
        state.observed(Observation::CommitFailed, state),
        state.ended().progress == state.progress,
{
}

/// Every commit that is started is acknowledged before anything else about commits
/// is observed.
pub open spec fn acknowledged_at_once(observations: Seq<Observation>) -> bool {
    &&& forall|i: int|
        0 <= i < observations.len() ==> !(#[trigger] observations[i] is CommitFailed)
    &&& forall|i: int|
        0 <= i < observations.len() && #[trigger] observations[i] is CommitStarted ==> exists|j: int|
            acknowledges(observations, i, j)
}

/// The commit that starts at `i` is acknowledged at `j`, with nothing about commits
/// between.
pub open spec fn acknowledges(observations: Seq<Observation>, i: int, j: int) -> bool {
    &&& i < j < observations.len()
    &&& observations[j] is CommitAcknowledged
    &&& forall|k: int|
        i < k < j ==> !(#[trigger] observations[k] is CommitStarted)
            && !(observations[k] is CommitAcknowledged)
}

/// A delivery whose commits are all acknowledged is certain: from a fresh state, a
/// run in which every started commit is acknowledged before anything else about
/// commits ends without a commit under way, and without uncertainty.
pub proof fn acknowledged_commits_are_certain(
    states: Seq<DeliveryState>,
    observations: Seq<Observation>,
)
    requires
        is_run(states, observations),
        states[0].is_fresh(),
        acknowledged_at_once(observations),
    ensures
        !states.last().commit_in_progress,
        !states.last().progress.commit_was_uncertain,
        !states.last().ended().progress.commit_was_uncertain,
{
    certain_so_far(states, observations, observations.len() as int);
    if states.last().commit_in_progress {
        let n = observations.len() as int;
        let i = choose|i: int| open_since(observations, i, n);
        let j = choose|j: int| acknowledges(observations, i, j);
        assert(observations[j] is CommitAcknowledged);
    }
}

/// A commit started at `i` is still under way before step `n`.
spec fn open_since(observations: Seq<Observation>, i: int, n: int) -> bool {
    &&& 0 <= i < n
    &&& observations[i] is CommitStarted
    &&& forall|k: int| i < k < n ==> !(#[trigger] observations[k] is CommitAcknowledged)
}

/// Without a failed commit, a delivery stays certain, and a commit is under way only
/// since a start that was not acknowledged.
proof fn certain_so_far(states: Seq<DeliveryState>, observations: Seq<Observation>, n: int)
    requires
        is_run(states, observations),
        states[0].is_fresh(),
        acknowledged_at_once(observations),
        0 <= n <= observations.len(),
    ensures
        !states[n].finished,
        !states[n].progress.commit_was_uncertain,
        states[n].commit_in_progress ==> exists|i: int| open_since(observations, i, n),
    decreases n,
{
    if n > 0 {
        certain_so_far(states, observations, n - 1);
        assert(states[n - 1].observed(observations[n - 1], states[n]));
        assert(!(observations[n - 1] is CommitFailed));
        if states[n].commit_in_progress {
            if observations[n - 1] is CommitStarted {
                assert(open_since(observations, n - 1, n));
            } else {
                let before = n - 1;
                let i = choose|i: int| open_since(observations, i, before);
                assert(open_since(observations, i, n));
            }
        }
    }
}

/// The report of a delivery carries its key, its time and everything that was
/// observed of it; only an open commit turns it uncertain.
pub proof fn reports_carry_what_was_observed(
    guard: DeliveryGuard,
    terminal: IngestionDeliveryTerminal,
    at: std::time::Instant,
)
    ensures
        ({
            let report = guard.report(terminal, at);
            let seen = guard.state().progress;
            &&& report.key == guard.key()
            &&& report.terminal_at == at
            &&& report.progress.submitted_at == seen.submitted_at
            &&& report.progress.resident_admitted_at == seen.resident_admitted_at
            &&& report.progress.deferred_at == seen.deferred_at
            &&& report.progress.channel_accepted_at == seen.channel_accepted_at
            &&& report.progress.worker_received_at == seen.worker_received_at
            &&& report.progress.first_dispatched_at == seen.first_dispatched_at
            &&& report.progress.attempt_count == seen.attempt_count
            &&& report.progress.limiter_wait == seen.limiter_wait
            &&& report.progress.pool_wait == seen.pool_wait
            &&& report.progress.transaction_time == seen.transaction_time
            &&& report.progress.commit_was_uncertain == (seen.commit_was_uncertain
                || guard.state().commit_in_progress)
            &&& report.terminal == if terminal == IngestionDeliveryTerminal::Rejected(
                IngestionRejectionReason::SessionAdmission,
            ) && report.progress.commit_was_uncertain {
                IngestionDeliveryTerminal::Unknown(
                    IngestionUnknownReason::AdmissionAfterUncertainCommit,
                )
            } else {
                terminal
            }
        }),
{
}

/// A fresh delivery has reached no phase, made no attempt, waited for nothing and is
/// certain; it can still be observed, and is active until it is ended.
pub proof fn fresh_deliveries_are_blank(state: DeliveryState)
    requires
        state.is_fresh(),
    ensures
        state.progress.submitted_at is None,
        state.progress.resident_admitted_at is None,
        state.progress.deferred_at is None,
        state.progress.channel_accepted_at is None,
        state.progress.worker_received_at is None,
        state.progress.first_dispatched_at is None,
        state.progress.attempt_count == 0,
        state.progress.limiter_wait@ == 0,
        state.progress.pool_wait@ == 0,
        state.progress.transaction_time@ == 0,
        !state.progress.commit_was_uncertain,
        !state.commit_in_progress,
        !state.finished,
        state.ended().finished,
        state.ended().progress == state.progress,
{
}

/// A call that acknowledges a commit ends it, and leaves everything else as it was: the
/// progress, and with it whether the delivery is uncertain.
pub proof fn acknowledging_ends_the_commit(state: &mut DeliveryState, guard: &mut DeliveryGuard)
    requires
        call_ensures(DeliveryState::commit_acknowledged, (state,), ()),
        call_ensures(DeliveryGuard::commit_acknowledged, (guard,), ()),
        !old(state).finished,
        !old(guard).state().finished,
    ensures
        !final(state).commit_in_progress,
        !final(state).finished,
        final(state).progress == old(state).progress,
        !final(guard).state().commit_in_progress,
        !final(guard).state().finished,
        final(guard).state().progress == old(guard).state().progress,
        final(guard).key() == old(guard).key(),
        final(guard).permit() == old(guard).permit(),
{
}

/// A call that starts a commit has one under way, and changes nothing else.
pub proof fn starting_opens_a_commit(state: &mut DeliveryState, guard: &mut DeliveryGuard)
    requires
        call_ensures(DeliveryState::commit_started, (state,), ()),
        call_ensures(DeliveryGuard::commit_started, (guard,), ()),
        !old(state).finished,
        !old(guard).state().finished,
    ensures
        final(state).commit_in_progress,
        !final(state).finished,
        final(state).progress == old(state).progress,
        final(guard).state().commit_in_progress,
        !final(guard).state().finished,
        final(guard).state().progress == old(guard).state().progress,
        final(guard).key() == old(guard).key(),
        final(guard).permit() == old(guard).permit(),
{
}

/// A call that fails a commit ends it and makes the delivery uncertain exactly where one
/// was under way, or it was uncertain before; nothing else of the progress changes.
pub proof fn failing_leaves_uncertainty(state: &mut DeliveryState, guard: &mut DeliveryGuard)
    requires
        call_ensures(DeliveryState::commit_failed, (state,), ()),
        call_ensures(DeliveryGuard::commit_failed, (guard,), ()),
        !old(state).finished,
        !old(guard).state().finished,
    ensures
        !final(state).commit_in_progress,
        final(state).progress == (IngestionDeliveryProgress {
            commit_was_uncertain: old(state).commit_in_progress
                || old(state).progress.commit_was_uncertain,
            ..old(state).progress
        }),
        !final(guard).state().commit_in_progress,
        final(guard).state().progress == (IngestionDeliveryProgress {
            commit_was_uncertain: old(guard).state().commit_in_progress
                || old(guard).state().progress.commit_was_uncertain,
            ..old(guard).state().progress
        }),
        final(guard).key() == old(guard).key(),
        final(guard).permit() == old(guard).permit(),
{
}

/// A call that starts an attempt counts one more, and no time.
pub proof fn attempts_are_counted(state: &mut DeliveryState, guard: &mut DeliveryGuard)
    requires
        call_ensures(DeliveryState::start_attempt, (state,), ()),
        call_ensures(DeliveryGuard::start_attempt, (guard,), ()),
        !old(state).finished,
        !old(guard).state().finished,
        old(state).progress.attempt_count < u64::MAX,
        old(guard).state().progress.attempt_count < u64::MAX,
    ensures
        final(state).progress == (IngestionDeliveryProgress {
            attempt_count: (old(state).progress.attempt_count + 1) as u64,
            ..old(state).progress
        }),
        final(state).commit_in_progress == old(state).commit_in_progress,
        final(guard).state().progress == (IngestionDeliveryProgress {
            attempt_count: (old(guard).state().progress.attempt_count + 1) as u64,
            ..old(guard).state().progress
        }),
        final(guard).state().commit_in_progress == old(guard).state().commit_in_progress,
        final(guard).key() == old(guard).key(),
        final(guard).permit() == old(guard).permit(),
{
}

/// The calls that add waits each add to their own sum, exactly, and to no other.
pub proof fn waits_add_to_their_own_sums(
    limited: &mut DeliveryState,
    pooled: &mut DeliveryState,
    busy: &mut DeliveryState,
    span: Duration,
)
    requires
        call_ensures(DeliveryState::add_limiter_wait, (limited, span), ()),
        call_ensures(DeliveryState::add_pool_wait, (pooled, span), ()),
        call_ensures(DeliveryState::add_transaction_time, (busy, span), ()),
        !old(limited).finished,
        !old(pooled).finished,
        !old(busy).finished,
        old(limited).progress.limiter_wait@ + span@ <= crate::clock::MAX_NANOS,
        old(pooled).progress.pool_wait@ + span@ <= crate::clock::MAX_NANOS,
        old(busy).progress.transaction_time@ + span@ <= crate::clock::MAX_NANOS,
    ensures
        final(limited).progress.limiter_wait@ == old(limited).progress.limiter_wait@ + span@,
        final(limited).progress.pool_wait == old(limited).progress.pool_wait,
        final(limited).progress.transaction_time == old(limited).progress.transaction_time,
        final(pooled).progress.pool_wait@ == old(pooled).progress.pool_wait@ + span@,
        final(pooled).progress.limiter_wait == old(pooled).progress.limiter_wait,
        final(pooled).progress.transaction_time == old(pooled).progress.transaction_time,
        final(busy).progress.transaction_time@ == old(busy).progress.transaction_time@ + span@,
        final(busy).progress.limiter_wait == old(busy).progress.limiter_wait,
        final(busy).progress.pool_wait == old(busy).progress.pool_wait,
{
}

/// So do the calls on an observed delivery, which keeps its key and its reservation.
pub proof fn observed_waits_add_to_their_own_sums(
    limited: &mut DeliveryGuard,
    pooled: &mut DeliveryGuard,
    busy: &mut DeliveryGuard,
    span: Duration,
)
    requires
        call_ensures(DeliveryGuard::add_limiter_wait, (limited, span), ()),
        call_ensures(DeliveryGuard::add_pool_wait, (pooled, span), ()),
        call_ensures(DeliveryGuard::add_transaction_time, (busy, span), ()),
        !old(limited).state().finished,
        !old(pooled).state().finished,
        !old(busy).state().finished,
        old(limited).state().progress.limiter_wait@ + span@ <= crate::clock::MAX_NANOS,
        old(pooled).state().progress.pool_wait@ + span@ <= crate::clock::MAX_NANOS,
        old(busy).state().progress.transaction_time@ + span@ <= crate::clock::MAX_NANOS,
    ensures
        final(limited).state().progress.limiter_wait@
            == old(limited).state().progress.limiter_wait@ + span@,
        final(limited).state().progress.pool_wait == old(limited).state().progress.pool_wait,
        final(limited).state().progress.transaction_time
            == old(limited).state().progress.transaction_time,
        final(limited).key() == old(limited).key(),
        final(limited).permit() == old(limited).permit(),
        final(pooled).state().progress.pool_wait@
            == old(pooled).state().progress.pool_wait@ + span@,
        final(pooled).state().progress.limiter_wait == old(pooled).state().progress.limiter_wait,
        final(pooled).state().progress.transaction_time
            == old(pooled).state().progress.transaction_time,
        final(pooled).key() == old(pooled).key(),
        final(pooled).permit() == old(pooled).permit(),
        final(busy).state().progress.transaction_time@
            == old(busy).state().progress.transaction_time@ + span@,
        final(busy).state().progress.limiter_wait == old(busy).state().progress.limiter_wait,
        final(busy).state().progress.pool_wait == old(busy).state().progress.pool_wait,
        final(busy).key() == old(busy).key(),
        final(busy).permit() == old(busy).permit(),
{
}

/// A call that marks a phase has it reached, keeps a time that was there, and touches no
/// other phase.
pub proof fn marks_reach_their_phase(
    state: &mut DeliveryState,
    guard: &mut DeliveryGuard,
    phase: IngestionMeasurementPhase,
    other: IngestionMeasurementPhase,
)
    requires
        call_ensures(DeliveryState::mark, (state, phase), ()),
        call_ensures(DeliveryGuard::mark, (guard, phase), ()),
        !old(state).finished,
        !old(guard).state().finished,
        other != phase,
    ensures
        final(state).progress.reached(phase) is Some,
        old(state).progress.reached(phase) is Some ==> final(state).progress.reached(phase)
            == old(state).progress.reached(phase),
        final(state).progress.reached(other) == old(state).progress.reached(other),
        final(state).progress.attempt_count == old(state).progress.attempt_count,
        final(state).commit_in_progress == old(state).commit_in_progress,
        final(guard).state().progress.reached(phase) is Some,
        old(guard).state().progress.reached(phase) is Some
            ==> final(guard).state().progress.reached(phase)
            == old(guard).state().progress.reached(phase),
        final(guard).state().progress.reached(other) == old(guard).state().progress.reached(other),
        final(guard).state().commit_in_progress == old(guard).state().commit_in_progress,
        final(guard).key() == old(guard).key(),
        final(guard).permit() == old(guard).permit(),
{
}

/// A call that marks a phase at a time gives the phase that time where it had none.
pub proof fn marks_keep_the_first_time(
    state: &mut DeliveryState,
    phase: IngestionMeasurementPhase,
    at: std::time::Instant,
)
    requires
        call_ensures(DeliveryState::mark_at, (state, phase, at), ()),
        !old(state).finished,
    ensures
        phase is Submitted && old(state).progress.submitted_at is None
            ==> final(state).progress.submitted_at == Some(at),
        phase is ResidentAdmitted && old(state).progress.resident_admitted_at is None
            ==> final(state).progress.resident_admitted_at == Some(at),
        phase is Deferred && old(state).progress.deferred_at is None
            ==> final(state).progress.deferred_at == Some(at),
        phase is ChannelAccepted && old(state).progress.channel_accepted_at is None
            ==> final(state).progress.channel_accepted_at == Some(at),
        phase is WorkerReceived && old(state).progress.worker_received_at is None
            ==> final(state).progress.worker_received_at == Some(at),
        phase is Dispatched && old(state).progress.first_dispatched_at is None
            ==> final(state).progress.first_dispatched_at == Some(at),
        old(state).progress.reached(phase) is Some ==> *final(state) == *old(state),
{
}

/// A delivery ends once: the first call ends it and hands out its time and progress, with
/// an open commit as uncertain; a later call hands out nothing and changes nothing.
pub proof fn states_end_once(
    state: &mut DeliveryState,
    at: std::time::Instant,
    ending: Option<(std::time::Instant, IngestionDeliveryProgress)>,
)
    requires
        call_ensures(DeliveryState::finish_at, (state, at), ending),
    ensures
        final(state).finished,
        old(state).finished ==> ending is None && *final(state) == *old(state),
        !old(state).finished ==> ending == Some((at, final(state).progress)),
        !old(state).finished ==> !final(state).commit_in_progress,
        !old(state).finished ==> final(state).progress == (IngestionDeliveryProgress {
            commit_was_uncertain: old(state).progress.commit_was_uncertain
                || old(state).commit_in_progress,
            ..old(state).progress
        }),
{
}

/// The call that ends an observed delivery hands out its report under its reservation, and
/// gives the reservation up. The report has the key, the time and the outcome of the call,
/// but for a session fence after an uncertain commit.
pub proof fn deliveries_end_with_their_report(
    guard: &mut DeliveryGuard,
    terminal: IngestionDeliveryTerminal,
    at: std::time::Instant,
    ending: Option<(ReportPermit, IngestionDeliveryReport)>,
)
    requires
        call_ensures(DeliveryGuard::finish_at, (guard, terminal, at), ending),
        old(guard).wf(),
    ensures
        final(guard).permit() is None,
        final(guard).key() == old(guard).key(),
        final(guard).state().finished,
        ending is Some <==> !old(guard).state().finished,
        ending matches Some((permit, report)) ==> {
            &&& old(guard).permit() == Some(permit)
            &&& report.key == old(guard).key()
            &&& report.terminal_at == at
            &&& report.progress == final(guard).state().progress
            &&& report.progress.commit_was_uncertain
                == (old(guard).state().progress.commit_was_uncertain
                || old(guard).state().commit_in_progress)
            &&& report.terminal == if terminal == IngestionDeliveryTerminal::Rejected(
                IngestionRejectionReason::SessionAdmission,
            ) && report.progress.commit_was_uncertain {
                IngestionDeliveryTerminal::Unknown(
                    IngestionUnknownReason::AdmissionAfterUncertainCommit,
                )
            } else {
                terminal
            }
        },
{
}

/// The calls that end a delivery for good send one report under its reservation: the first
/// with the outcome that it was given, the other, which lets go of the delivery, with one
/// that says that it was dropped.
pub proof fn endings_send_a_report(
    finished: &mut DeliveryGuard,
    dropped: &mut DeliveryGuard,
    terminal: IngestionDeliveryTerminal,
)
    requires
        call_ensures(DeliveryGuard::finish, (finished, terminal), ()),
        call_ensures(DeliveryGuard::abandon, (dropped,), ()),
        old(finished).permit() is Some,
        old(dropped).permit() is Some,
        terminal != IngestionDeliveryTerminal::Rejected(IngestionRejectionReason::SessionAdmission),
    ensures
        final(finished).permit() is None,
        final(dropped).permit() is None,
        exists|report: IngestionDeliveryReport| #[trigger]
            was_sent(old(finished).permit()->0, report) && report.terminal == terminal && report.key
                == old(finished).key(),
        exists|report: IngestionDeliveryReport| #[trigger]
            was_sent(old(dropped).permit()->0, report) && report.terminal
                == IngestionDeliveryTerminal::Unknown(IngestionUnknownReason::DeliveryDropped)
                && report.key == old(dropped).key(),
{
    let lost = IngestionDeliveryTerminal::Unknown(IngestionUnknownReason::DeliveryDropped);
    let permit = old(finished).permit()->0;
    let at = choose|at: std::time::Instant|
        was_sent(permit, #[trigger] old(finished).report(terminal, at));
    assert(was_sent(permit, old(finished).report(terminal, at)));
    let other = old(dropped).permit()->0;
    let then = choose|at: std::time::Instant|
        was_sent(other, #[trigger] old(dropped).report(lost, at));
    assert(was_sent(other, old(dropped).report(lost, then)));
}

/// What is started is observed from nothing: the call that starts an observation gives it
/// the key, a fresh state and a slot of the sink's channel, and hands it over as it is.
pub proof fn starts_are_fresh(
    sink: IngestionMeasurementSink,
    key: IngestionDeliveryKey,
    token: IngestionDeliveryToken,
    observation: DeliveryGuard,
)
    requires
        call_ensures(
            IngestionMeasurementSink::try_start,
            (&sink, key),
            Ok::<_, MeasurementUnavailable>(token),
        ),
        call_ensures(IngestionDeliveryToken::into_observation, (token,), observation),
    ensures
        observation.key() == key,
        observation.permit() is Some,
        permit_channel(observation.permit()->0) == sink.channel(),
        permit_slots(observation.permit()->0) == sink.capacity(),
        !observation.state().finished,
        !observation.state().commit_in_progress,
        observation.state().progress.attempt_count == 0,
        observation.state().progress.submitted_at is None,
        !observation.state().progress.commit_was_uncertain,
{
}

/// A sink has the slots that it was made with, and reports to the receiver that was made
/// with it; a clone shares both.
pub proof fn sinks_report_to_their_receiver(
    capacity: usize,
    sink: IngestionMeasurementSink,
    receiver: IngestionMeasurementReceiver,
    other: IngestionMeasurementSink,
)
    requires
        call_ensures(IngestionMeasurementSink::bounded, (capacity,), (sink, receiver)),
        call_ensures(IngestionMeasurementSink::clone, (&sink,), other),
    ensures
        sink.capacity() == capacity,
        sink.channel() == receiver_channel(receiver),
        other.capacity() == capacity,
        other.channel() == receiver_channel(receiver),
{
}

/// A probe reads the progress of the delivery as it is, and so does a snapshot; a new state
/// has none.
pub proof fn probes_read_the_progress(
    guard: DeliveryGuard,
    probe: IngestionDeliveryProbe<'_>,
    read: IngestionDeliveryProgress,
    state: DeliveryState,
    snapshot: IngestionDeliveryProgress,
    fresh: DeliveryState,
)
    requires
        call_ensures(DeliveryGuard::probe, (&guard,), probe),
        call_ensures(IngestionDeliveryProbe::snapshot, (&probe,), read),
        call_ensures(DeliveryState::snapshot, (&state,), snapshot),
        call_ensures(DeliveryState::new, (), fresh),
    ensures
        read == guard.state().progress,
        snapshot == state.progress,
        fresh.is_fresh(),
{
}

/// The call that ends a state now hands out its progress once, and a start without a slot
/// says why there was none.
pub proof fn endings_and_refusals_are_handed_out(
    state: &mut DeliveryState,
    ending: Option<(std::time::Instant, IngestionDeliveryProgress)>,
    why: MeasurementUnavailable,
    key: IngestionDeliveryKey,
    started: Result<IngestionDeliveryToken, MeasurementUnavailable>,
)
    requires
        call_ensures(DeliveryState::finish, (state,), ending),
        call_ensures(
            IngestionDeliveryToken::start,
            (Err::<ReportPermit, MeasurementUnavailable>(why), key),
            started,
        ),
    ensures
        final(state).finished,
        ending is Some <==> !old(state).finished,
        ending matches Some(ending) ==> ending.1 == final(state).progress,
        old(state).finished ==> *final(state) == *old(state),
        started == Err::<IngestionDeliveryToken, _>(why),
{
}

} // verus!
