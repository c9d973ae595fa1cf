use astra::capacity::{
    accept_metadata, accept_report, consume_report, merge_statuses, DeliveryOutcome, DrainCutoff,
    Generator, Measurements, PendingDelivery, MISSED, NOT_OFFERED, PENDING, UNOBSERVED,
};
use astra::clock::Duration;
use astra::histogram::Histogram;
use astra::measurement::{
    IngestionDeliveryTerminal, IngestionRejectionReason, IngestionUnknownReason,
};
use astra::reconciliation::{projection_matches, EdgeIdentities, EdgeIdentity, SessionCounts};
use astra::workload::{
    arrival_offset, envelope_bytes, fixture_identity, latest_due_index, owner_session,
    parent_index, target_envelope_bytes, OwnerDistribution, OWNERS, SESSIONS_PER_OWNER,
};
use std::collections::BTreeMap;

#[test]
fn uniform_workload_visits_every_owner_session_once_per_cycle() {
    let mut counts = [[0; SESSIONS_PER_OWNER]; OWNERS];
    for index in 0..(OWNERS * SESSIONS_PER_OWNER) as u64 {
        let (owner, session) = owner_session(index, OwnerDistribution::Uniform);
        counts[owner][session] += 1;
    }
    assert!(counts.iter().flatten().all(|count| *count == 1));
}

fn edge(parent: &str) -> EdgeIdentity {
    EdgeIdentity {
        owner: "owner".into(),
        session: "a".into(),
        child: "child".into(),
        parent: parent.into(),
    }
}

#[test]
fn reconciliation_rejects_offsetting_counters_and_substituted_parents() {
    let mut expected_sessions = SessionCounts::new();
    expected_sessions.insert("owner", "a", 1);
    expected_sessions.insert("owner", "b", 1);
    let mut expected_edges = EdgeIdentities::new();
    expected_edges.insert(edge("parent"));
    assert!(projection_matches(
        &expected_sessions,
        &expected_sessions,
        &expected_edges,
        &expected_edges
    ));
    let mut wrong_sessions = SessionCounts::new();
    wrong_sessions.insert("owner", "a", 1);
    wrong_sessions.insert("owner", "b", 1);
    wrong_sessions.insert("owner", "a", 2);
    wrong_sessions.insert("owner", "b", 0);
    assert!(!projection_matches(
        &expected_sessions,
        &wrong_sessions,
        &expected_edges,
        &expected_edges
    ));
    let mut wrong_edges = EdgeIdentities::new();
    wrong_edges.insert(edge("wrong-parent"));
    assert!(!projection_matches(
        &expected_sessions,
        &expected_sessions,
        &expected_edges,
        &wrong_edges
    ));
}

#[test]
fn reconciled_collections_hold_each_key_once() {
    let mut counts = SessionCounts::new();
    assert_eq!(counts.get("owner", "a"), None);
    counts.insert("owner", "a", 1);
    counts.insert("owner", "a", 5);
    assert_eq!(counts.get("owner", "a"), Some(5));
    assert_eq!(counts.get("own", "era"), None);
    let mut more = SessionCounts::new();
    more.insert("owner", "a", 5);
    assert!(counts.same(&more));
    more.insert("owner", "b", 0);
    assert!(!counts.same(&more));
    assert!(!more.same(&counts));
    let mut edges = EdgeIdentities::new();
    edges.insert(edge("parent"));
    edges.insert(edge("parent"));
    assert_eq!(edges.len(), 1);
    assert!(edges.contains(&edge("parent")));
    assert!(!edges.contains(&edge("other")));
}

#[test]
fn hot_owner_does_not_starve_the_generated_cold_owner_workload() {
    let mut counts = [[0; SESSIONS_PER_OWNER]; OWNERS];
    for index in 0..(2 * (OWNERS - 1) * SESSIONS_PER_OWNER) as u64 {
        let (owner, session) = owner_session(index, OwnerDistribution::HalfHotOwner);
        counts[owner][session] += 1;
    }
    assert!(counts[0].iter().all(|count| *count == OWNERS - 1));
    assert!(counts[1..].iter().flatten().all(|count| *count == 1));
}

#[test]
fn open_loop_deadlines_do_not_drift_or_create_catch_up_bursts() {
    let rate = 3;
    assert_eq!(arrival_offset(3, rate), Duration::from_secs(1));
    for index in 1..1_000 {
        let deadline = arrival_offset(index, rate);
        assert_eq!(latest_due_index(deadline, rate), index);
        assert_eq!(
            latest_due_index(deadline.saturating_sub(Duration::from_nanos(1)), rate),
            index - 1
        );
    }
    // If submission stalls for two seconds, the generator must report six
    // missed arrivals rather than send them in a completion-driven burst.
    assert_eq!(latest_due_index(Duration::from_secs(2), rate), 6);
}

#[test]
fn schedules_round_up_and_saturate() {
    assert_eq!(arrival_offset(1, 3).as_nanos(), 333_333_334);
    assert_eq!(arrival_offset(0, 7).as_nanos(), 0);
    assert_eq!(arrival_offset(u64::MAX, 1).as_nanos(), u64::MAX as u128 * 1_000_000_000);
    assert_eq!(latest_due_index(Duration::from_secs(u64::MAX), u64::MAX), u64::MAX);
    // Above a billion events a second, several share one nanosecond.
    assert_eq!(latest_due_index(arrival_offset(1, 2_000_000_000), 2_000_000_000), 2);
}

#[test]
fn mixed_sizes_are_reproducible_and_include_large_envelopes() {
    let sample = (0..10_000)
        .map(|index| target_envelope_bytes(index, 42))
        .collect::<Vec<_>>();
    assert_eq!(
        sample,
        (0..10_000)
            .map(|index| target_envelope_bytes(index, 42))
            .collect::<Vec<_>>()
    );
    for (size, low, high) in [
        (1_024, 7_700, 8_300),
        (16 * 1_024, 1_200, 1_800),
        (128 * 1_024, 300, 700),
    ] {
        let count = sample.iter().filter(|value| **value == size).count();
        assert!((low..=high).contains(&count), "size={size}, count={count}");
    }
}

#[test]
fn sizes_follow_the_draw() {
    assert_eq!(envelope_bytes(0), 1_024);
    assert_eq!(envelope_bytes(79), 1_024);
    assert_eq!(envelope_bytes(80), 16_384);
    assert_eq!(envelope_bytes(94), 16_384);
    assert_eq!(envelope_bytes(95), 131_072);
    assert_eq!(target_envelope_bytes(1, u64::MAX), target_envelope_bytes(0, 0));
}

#[test]
fn parents_stay_within_their_session() {
    for distribution in [OwnerDistribution::Uniform, OwnerDistribution::HalfHotOwner] {
        for index in 0..5_000 {
            if let Some(parent) = parent_index(index, distribution) {
                assert_eq!(owner_session(parent, distribution), owner_session(index, distribution));
            }
        }
    }
    assert_eq!(parent_index(1_000, OwnerDistribution::Uniform), Some(0));
    assert_eq!(parent_index(1_001, OwnerDistribution::Uniform), None);
    assert_eq!(parent_index(990, OwnerDistribution::Uniform), None);
    assert_eq!(parent_index(20, OwnerDistribution::HalfHotOwner), Some(0));
    assert_eq!(parent_index(10, OwnerDistribution::HalfHotOwner), None);
}

#[test]
fn identities_are_padded_and_distinct() {
    assert_eq!(
        fixture_identity("run", 7, 3),
        ("ingestion-probe-run-007".to_string(), "run-007-03".to_string())
    );
    assert_eq!(fixture_identity("run", 1234, 100).1, "run-1234-100");
    assert_ne!(fixture_identity("run", 1, 10).1, fixture_identity("run", 11, 0).1);
}

fn outcome(key: u64, terminal: IngestionDeliveryTerminal, at: Duration) -> DeliveryOutcome {
    DeliveryOutcome {
        key,
        terminal,
        terminal_at: at,
        accepted_at: Some(Duration::default()),
        attempt_count: 0,
        limiter_wait: Duration::default(),
        pool_wait: Duration::default(),
        transaction_time: Duration::default(),
        commit_was_uncertain: false,
    }
}

#[test]
fn shutdown_grace_cannot_rewrite_drain_deadline_accounting() {
    let started = Duration::default();
    let deadline = Duration::from_millis(10);
    let mut pending = BTreeMap::new();
    let mut statuses = vec![1, 1];
    let mut all = Measurements::default();
    let mut measured = Measurements::default();
    let mut cutoff = DrainCutoff {
        deadline,
        terminal: Measurements::default(),
        late: 0,
    };
    for index in 0..2 {
        pending.insert(index, PendingDelivery { scheduled: started, owner: 0 });
        let terminal_at = if index == 0 {
            Duration::from_millis(9)
        } else {
            Duration::from_millis(11)
        };
        consume_report(
            outcome(index, IngestionDeliveryTerminal::CommittedInserted, terminal_at),
            &mut pending,
            &mut statuses,
            &mut all,
            &mut measured,
            0,
            &mut cutoff,
        );
    }
    assert_eq!(all.inserted, 2);
    assert_eq!(cutoff.terminal.inserted, 1);
    assert_eq!(cutoff.late, 1);
    assert_eq!(statuses, [2, 2]);
    assert!(pending.is_empty());
}

#[test]
fn latency_histogram_bounds_and_sample_count_are_explicit() {
    let mut histogram = Histogram::new();
    assert_eq!(histogram.percentile(95), None);
    let mut bounds = std::collections::BTreeSet::new();
    for micros in [0, 1, 10, 31, 32, 33, 1_001, 1_000_000] {
        histogram.record(Duration::from_micros(micros));
        let upper = histogram.percentile(100).unwrap();
        assert!(upper >= micros);
        assert!(upper <= micros.saturating_add(micros.div_ceil(16)));
        bounds.insert(upper);
    }
    assert_eq!(histogram.count(), 8);
    assert_eq!(bounds.iter().map(|bound| histogram.samples(*bound)).sum::<u64>(), 8);
}

#[test]
fn percentiles_are_bucket_bounds_by_rank() {
    let mut histogram = Histogram::new();
    for micros in 1..=100 {
        histogram.record(Duration::from_micros(micros));
    }
    assert_eq!(histogram.percentile(0), Some(1));
    assert_eq!(histogram.percentile(1), Some(1));
    assert_eq!(histogram.percentile(31), Some(31));
    // Buckets are two wide from 32 on, and four wide from 64 on.
    assert_eq!(histogram.percentile(33), Some(34));
    assert_eq!(histogram.percentile(65), Some(68));
    assert_eq!(histogram.percentile(100), Some(100));
    assert_eq!(histogram.percentile(101), None);
    let summary = histogram.summary();
    assert_eq!((summary.samples, summary.p50, summary.p95, summary.p99), (100, Some(50), Some(96), Some(100)));
    let mut huge = Histogram::new();
    huge.record(Duration::from_secs(u64::MAX));
    assert_eq!(huge.percentile(50), Some(1 << 63));
    assert_eq!(huge.samples(0), 0);
}

#[test]
fn every_outcome_is_counted_once() {
    let mut measurements = Measurements::default();
    let at = Duration::from_millis(5);
    let zero = Duration::default();
    let inserted = outcome(0, IngestionDeliveryTerminal::CommittedInserted, at);
    assert_eq!(measurements.record(&inserted, zero, 3), 2);
    let replayed = outcome(1, IngestionDeliveryTerminal::CommittedReplayed, at);
    assert_eq!(measurements.record(&replayed, zero, 3), 3);
    let rejected = IngestionDeliveryTerminal::Rejected(IngestionRejectionReason::ChannelClosed);
    let unknown = IngestionDeliveryTerminal::Unknown(IngestionUnknownReason::DeliveryDropped);
    for accepted_at in [None, Some(zero)] {
        let refused = DeliveryOutcome { accepted_at, ..outcome(2, rejected, at) };
        assert_eq!(measurements.record(&refused, zero, 4), 4);
        let lost = DeliveryOutcome {
            accepted_at,
            commit_was_uncertain: true,
            attempt_count: 1,
            ..outcome(3, unknown, at)
        };
        assert_eq!(measurements.record(&lost, zero, 4), 5);
    }
    assert_eq!((measurements.inserted, measurements.replayed), (1, 1));
    assert_eq!((measurements.rejected_before, measurements.rejected_after), (1, 1));
    assert_eq!((measurements.unknown_before, measurements.unknown_after), (1, 1));
    assert_eq!(measurements.uncertain_commit, 2);
    assert_eq!(measurements.schedule_to_terminal.count(), 6);
    assert_eq!(measurements.accepted_to_commit.count(), 2);
    assert_eq!(measurements.pool_wait.count(), 2);
    assert_eq!(measurements.owner_committed[3], 2);
    assert_eq!(measurements.owner_committed[4], 0);
    assert_eq!(measurements.schedule_to_terminal.percentile(50), Some(5_120));
}

#[test]
fn warm_up_reports_are_not_measured() {
    let mut pending = BTreeMap::new();
    pending.insert(0, PendingDelivery { scheduled: Duration::default(), owner: 0 });
    let mut statuses = vec![1];
    let mut all = Measurements::default();
    let mut measured = Measurements::default();
    let mut cutoff = DrainCutoff {
        deadline: Duration::from_secs(1),
        terminal: Measurements::default(),
        late: 0,
    };
    consume_report(
        outcome(0, IngestionDeliveryTerminal::CommittedReplayed, Duration::from_secs(1)),
        &mut pending,
        &mut statuses,
        &mut all,
        &mut measured,
        1,
        &mut cutoff,
    );
    assert_eq!((all.replayed, measured.replayed, cutoff.terminal.replayed), (1, 0, 1));
    assert_eq!(cutoff.late, 0);
}

#[test]
fn metadata_and_reports_meet_in_either_order() {
    let delivery = PendingDelivery { scheduled: Duration::default(), owner: 1 };
    let report = outcome(9, IngestionDeliveryTerminal::CommittedInserted, Duration::default());
    let mut pending = BTreeMap::new();
    let mut early = BTreeMap::new();
    assert!(accept_metadata(9, delivery, &mut pending, &mut early).is_none());
    assert_eq!(accept_report(report, &pending, &mut early).unwrap().key, 9);
    assert!(early.is_empty());
    let mut pending = BTreeMap::new();
    assert!(accept_report(report, &pending, &mut early).is_none());
    assert_eq!(early.len(), 1);
    assert_eq!(accept_metadata(9, delivery, &mut pending, &mut early).unwrap().key, 9);
    assert!(early.is_empty());
    assert!(pending.contains_key(&9));
}

#[test]
fn a_late_generator_reports_what_it_missed() {
    let mut generator = Generator::new(10);
    assert_eq!(generator.arrive(false, Duration::default(), 1), Some(0));
    generator.offer(true);
    assert_eq!(generator.arrive(false, Duration::from_secs(4), 1), Some(4));
    generator.offer(false);
    assert_eq!(generator.arrive(false, Duration::from_secs(4), 1), Some(5));
    generator.offer(true);
    assert_eq!(generator.index(), 6);
    assert_eq!(
        generator.statuses(),
        &vec![
            PENDING,
            MISSED,
            MISSED,
            MISSED,
            UNOBSERVED,
            PENDING,
            NOT_OFFERED,
            NOT_OFFERED,
            NOT_OFFERED,
            NOT_OFFERED
        ]
    );
    assert_eq!(generator.arrive(true, Duration::from_secs(9), 1), None);
    assert_eq!(generator.missed(), 7);
    assert_eq!(generator.observer_unavailable(), 1);
    let mut clamped = Generator::new(3);
    assert_eq!(clamped.arrive(false, Duration::from_secs(100), 1), Some(2));
    assert_eq!(clamped.missed(), 2);
}

#[test]
fn reports_outrank_what_was_offered() {
    let mut statuses = vec![0, 2, 0, 5];
    merge_statuses(&mut statuses, &vec![1, 1, 6, 1]);
    assert_eq!(statuses, [1, 2, 6, 5]);
}
