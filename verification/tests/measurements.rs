use astra::clock::Duration;
use astra::measurement::{
    DeliveryGuard, DeliveryState, IngestionDeliveryKey, IngestionDeliveryProbe,
    IngestionDeliveryReport, IngestionDeliveryTerminal, IngestionMeasurementPhase,
    IngestionMeasurementReceiver, IngestionMeasurementSink, IngestionRejectionReason,
    IngestionUnknownReason, MeasurementUnavailable,
};
use std::time::Instant;

fn committed() -> IngestionDeliveryTerminal {
    IngestionDeliveryTerminal::CommittedInserted
}

fn started(sink: &IngestionMeasurementSink, key: u64) -> DeliveryGuard {
    match sink.try_start(IngestionDeliveryKey(key)) {
        Ok(token) => token.into_observation(),
        Err(why) => panic!("{why:?}"),
    }
}

fn refused(sink: &IngestionMeasurementSink, key: u64) -> MeasurementUnavailable {
    sink.try_start(IngestionDeliveryKey(key)).err().unwrap()
}

fn received(receiver: &mut IngestionMeasurementReceiver) -> IngestionDeliveryReport {
    receiver.try_recv().unwrap()
}

#[test]
fn session_admission_cannot_resolve_a_prior_uncertain_commit() {
    let (sink, mut receiver) = IngestionMeasurementSink::bounded(2);
    for (key, terminal, expected) in [
        (
            1,
            IngestionDeliveryTerminal::Rejected(IngestionRejectionReason::SessionAdmission),
            IngestionDeliveryTerminal::Unknown(
                IngestionUnknownReason::AdmissionAfterUncertainCommit,
            ),
        ),
        (
            2,
            IngestionDeliveryTerminal::CommittedReplayed,
            IngestionDeliveryTerminal::CommittedReplayed,
        ),
    ] {
        let mut observation = started(&sink, key);
        observation.commit_started();
        observation.commit_failed();
        observation.start_attempt();
        observation.finish(terminal);
        let report = received(&mut receiver);
        assert!(report.progress.commit_was_uncertain);
        assert_eq!(report.terminal, expected);
    }
}

#[test]
fn a_certain_admission_failure_stays_a_rejection() {
    let (sink, mut receiver) = IngestionMeasurementSink::bounded(1);
    let rejected = IngestionDeliveryTerminal::Rejected(IngestionRejectionReason::SessionAdmission);
    let mut observation = started(&sink, 1);
    observation.finish(rejected);
    assert_eq!(received(&mut receiver).terminal, rejected);
}

#[test]
fn reserved_capacity_covers_active_and_queued_reports() {
    let (sink, mut receiver) = IngestionMeasurementSink::bounded(2);
    let mut first = started(&sink, 1);
    let mut second = started(&sink, 2);
    assert_eq!(refused(&sink, 3), MeasurementUnavailable::Full);

    first.finish(committed());
    assert_eq!(
        refused(&sink, 3),
        MeasurementUnavailable::Full,
        "an unread report must retain its channel slot"
    );

    let report = received(&mut receiver);
    assert_eq!(report.key, IngestionDeliveryKey(1));
    assert!(sink.try_start(IngestionDeliveryKey(3)).is_ok());

    second.abandon();
}

#[test]
fn an_abandoned_delivery_is_reported_once() {
    let (sink, mut receiver) = IngestionMeasurementSink::bounded(1);
    let mut observation = started(&sink, 7);
    observation.abandon();
    observation.abandon();

    let report = received(&mut receiver);
    assert_eq!(report.key, IngestionDeliveryKey(7));
    assert_eq!(
        report.terminal,
        IngestionDeliveryTerminal::Unknown(IngestionUnknownReason::DeliveryDropped)
    );
    assert!(receiver.try_recv().is_err());
}

#[test]
fn probe_does_not_retain_the_reserved_permit() {
    let (sink, mut receiver) = IngestionMeasurementSink::bounded(1);
    let mut observation = started(&sink, 10);

    observation.abandon();
    let report = received(&mut receiver);
    assert_eq!(report.key, IngestionDeliveryKey(10));
    assert_eq!(observation.probe().snapshot(), report.progress);

    assert!(sink.try_start(IngestionDeliveryKey(11)).is_ok());
}

#[test]
fn explicit_finish_beats_final_drop() {
    let (sink, mut receiver) = IngestionMeasurementSink::bounded(1);
    let mut observation = started(&sink, 20);

    observation.finish(IngestionDeliveryTerminal::CommittedReplayed);
    observation.abandon();

    let report = received(&mut receiver);
    assert_eq!(
        report.terminal,
        IngestionDeliveryTerminal::CommittedReplayed
    );
    assert!(receiver.try_recv().is_err());
}

#[test]
fn receiver_closure_is_harmless_to_active_delivery() {
    let (sink, receiver) = IngestionMeasurementSink::bounded(1);
    let mut observation = started(&sink, 30);

    drop(receiver);
    observation.mark(IngestionMeasurementPhase::Submitted);
    observation.finish(committed());
    drop(observation);

    assert_eq!(refused(&sink, 31), MeasurementUnavailable::Closed);
}

#[test]
fn commit_retry_retains_uncertainty() {
    let (sink, mut receiver) = IngestionMeasurementSink::bounded(1);
    let mut observation = started(&sink, 40);

    observation.commit_failed();
    assert!(!observation.probe().snapshot().commit_was_uncertain);

    observation.start_attempt();
    observation.commit_started();
    observation.commit_failed();
    observation.start_attempt();
    observation.commit_started();
    observation.commit_acknowledged();
    observation.finish(committed());

    let report = received(&mut receiver);
    assert_eq!(report.progress.attempt_count, 2);
    assert!(report.progress.commit_was_uncertain);
}

#[test]
fn drop_during_commit_marks_the_report_uncertain() {
    let (sink, mut receiver) = IngestionMeasurementSink::bounded(1);
    let mut observation = started(&sink, 50);
    observation.commit_started();

    observation.abandon();

    let report = received(&mut receiver);
    assert_eq!(
        report.terminal,
        IngestionDeliveryTerminal::Unknown(IngestionUnknownReason::DeliveryDropped)
    );
    assert!(report.progress.commit_was_uncertain);
}

#[test]
fn sinks_share_their_channel() {
    let (sink, mut receiver) = IngestionMeasurementSink::bounded(1);
    let other = sink.clone();
    let mut observation = started(&other, 60);
    assert_eq!(refused(&sink, 61), MeasurementUnavailable::Full);
    observation.finish(committed());
    assert_eq!(received(&mut receiver).key, IngestionDeliveryKey(60));
}

#[test]
fn phases_keep_their_first_time_and_waits_add_up() {
    let mut state = DeliveryState::new();
    let early = Instant::now();
    let late = early + std::time::Duration::from_secs(1);
    for phase in [
        IngestionMeasurementPhase::Submitted,
        IngestionMeasurementPhase::ResidentAdmitted,
        IngestionMeasurementPhase::Deferred,
        IngestionMeasurementPhase::ChannelAccepted,
        IngestionMeasurementPhase::WorkerReceived,
        IngestionMeasurementPhase::Dispatched,
    ] {
        state.mark_at(phase, early);
        state.mark_at(phase, late);
    }
    state.add_limiter_wait(Duration::from_millis(1));
    state.add_limiter_wait(Duration::from_millis(2));
    state.add_pool_wait(Duration::from_secs(u64::MAX));
    state.add_pool_wait(Duration::from_secs(u64::MAX));
    state.add_transaction_time(Duration::from_micros(7));
    let progress = IngestionDeliveryProbe::new(&state).snapshot();
    for reached in [
        progress.submitted_at,
        progress.resident_admitted_at,
        progress.deferred_at,
        progress.channel_accepted_at,
        progress.worker_received_at,
        progress.first_dispatched_at,
    ] {
        assert_eq!(reached, Some(early));
    }
    assert_eq!(progress.limiter_wait, Duration::from_millis(3));
    assert_eq!(progress.pool_wait, Duration::new(u64::MAX, 999_999_999));
    assert_eq!(progress.transaction_time.as_micros(), 7);
}

#[test]
fn an_ended_delivery_observes_nothing_more() {
    let mut state = DeliveryState::new();
    let at = Instant::now();
    let (ended_at, progress) = state.finish_at(at).unwrap();
    assert_eq!(ended_at, at);
    state.start_attempt();
    state.commit_started();
    state.commit_failed();
    state.add_pool_wait(Duration::from_secs(1));
    state.mark(IngestionMeasurementPhase::Submitted);
    assert_eq!(state.snapshot(), progress);
    assert!(state.finish().is_none());
}

#[test]
fn attempts_do_not_wrap() {
    let mut state = DeliveryState::new();
    state.progress.attempt_count = u64::MAX;
    state.start_attempt();
    assert_eq!(state.snapshot().attempt_count, u64::MAX);
}

#[test]
fn endings_hand_out_the_report_and_its_slot() {
    let (sink, mut receiver) = IngestionMeasurementSink::bounded(1);
    let mut observation = started(&sink, 70);
    let at = Instant::now();
    let (permit, report) = observation.finish_at(committed(), at).unwrap();
    assert_eq!((report.key, report.terminal_at), (IngestionDeliveryKey(70), at));
    assert!(observation.finish_at(committed(), at).is_none());
    drop(permit.send(report));
    assert_eq!(received(&mut receiver), report);
}

#[test]
fn spans_are_exact_and_saturate() {
    assert_eq!(Duration::new(1, 5).as_nanos(), 1_000_000_005);
    assert_eq!(Duration::from_nanos(1_999).as_micros(), 1);
    assert_eq!(
        Duration::from_millis(1).saturating_sub(Duration::from_millis(2)),
        Duration::default()
    );
    assert_eq!(
        Duration::from_millis(1).saturating_add(Duration::from_micros(1)).as_nanos(),
        1_001_000
    );
}
