//! A latency histogram of bounded size: it keeps the bounds of the buckets that
//! samples fell into, and reports percentiles as bucket bounds.
use crate::clock::Duration;
use std::collections::BTreeMap;
use vstd::multiset::Multiset;
use vstd::prelude::*;

verus! {

/// The width of the buckets around a number of microseconds: a sixteenth of the
/// power of two below it, and one below thirty-two.
pub open spec fn quantum(micros: nat) -> nat
    decreases micros,
{
    if micros < 32 {
        1
    } else {
        2 * quantum(micros / 2)
    }
}

/// The bound of the bucket that a number of microseconds falls into: the next
/// multiple of the bucket width.
pub open spec fn bucket_bound(micros: nat) -> nat {
    (micros + quantum(micros) - 1) as nat / quantum(micros) * quantum(micros)
}

/// The microseconds of a span, as far as they are told apart.
pub open spec fn counted_micros(span: nat) -> nat {
    if span / 1_000 <= u64::MAX / 2 {
        span / 1_000
    } else {
        (u64::MAX / 2) as nat
    }
}

/// The bucket bound of a span.
pub open spec fn bound_of(span: nat) -> u64 {
    bucket_bound(counted_micros(span)) as u64
}

/// The number of buckets for each power of two is bounded, so the width is at most
/// a sixteenth of what falls into a bucket.
proof fn quantum_is_small(micros: nat)
    ensures
        quantum(micros) >= 1,
        micros >= 16 ==> 16 * quantum(micros) <= micros,
        micros < 32 ==> quantum(micros) == 1,
    decreases micros,
{
    if micros >= 32 {
        quantum_is_small(micros / 2);
    }
}

/// A bucket bound is never below its sample, and at most a sixteenth above it.
pub proof fn bounds_are_tight(micros: nat)
    ensures
        micros <= bucket_bound(micros) <= micros + (micros + 15) / 16,
{
    quantum_is_small(micros);
    let q = quantum(micros) as int;
    let m = micros as int;
    assert(m <= (m + q - 1) / q * q <= m + q - 1) by (nonlinear_arith)
        requires
            q >= 1,
            m >= 0,
    ;
}

/// A histogram of spans of time.
#[derive(Debug)]
pub struct Histogram {
    buckets: BTreeMap<u64, u64>,
    count: u64,
}

/// How often each bound was recorded.
spec fn recorded(buckets: Map<u64, u64>) -> Multiset<u64> {
    Multiset::from_map(buckets.map_values(|samples: u64| samples as nat))
}

proof fn recorded_counts(buckets: Map<u64, u64>)
    requires
        buckets.dom().finite(),
    ensures
        forall|bound: u64| #[trigger]
            recorded(buckets).count(bound) == (if buckets.contains_key(bound) {
                buckets[bound] as nat
            } else {
                0
            }),
{
    let samples = buckets.map_values(|samples: u64| samples as nat);
    assert(samples.dom() =~= buckets.dom());
}

impl View for Histogram {
    type V = Multiset<u64>;

    /// The bucket bounds of the samples.
    closed spec fn view(&self) -> Multiset<u64> {
        recorded(self.buckets@)
    }
}

/// The samples of a histogram up to a bound.
pub open spec fn up_to(samples: Multiset<u64>, bound: int) -> Multiset<u64> {
    samples.filter(|sample: u64| sample <= bound)
}

/// The rank of a percentile among some samples: at least the first.
pub open spec fn rank(samples: nat, percentile: nat) -> nat {
    let rank = (samples * percentile + 99) / 100;
    if rank == 0 {
        1
    } else {
        rank
    }
}

/// Whether a bound is a percentile of the samples: one of them, with as many
/// samples up to it as the rank asks for, and fewer before it.
pub open spec fn is_percentile(samples: Multiset<u64>, percentile: nat, bound: u64) -> bool {
    &&& samples.contains(bound)
    &&& up_to(samples, bound as int).len() >= rank(samples.len(), percentile)
    &&& up_to(samples, bound - 1).len() < rank(samples.len(), percentile)
}

/// Some copies of a bound beside some samples.
spec fn with_copies(samples: Multiset<u64>, bound: u64, copies: nat) -> Multiset<u64>
    decreases copies,
{
    if copies == 0 {
        samples
    } else {
        with_copies(samples, bound, (copies - 1) as nat).insert(bound)
    }
}

proof fn copies_count(samples: Multiset<u64>, bound: u64, copies: nat)
    ensures
        with_copies(samples, bound, copies).len() == samples.len() + copies,
        forall|other: u64| #[trigger]
            with_copies(samples, bound, copies).count(other) == samples.count(other) + (if other
                == bound {
                copies
            } else {
                0
            }),
    decreases copies,
{
    if copies > 0 {
        copies_count(samples, bound, (copies - 1) as nat);
    }
}

/// An increasing sequence of bounds is increasing as numbers are.
proof fn keys_increase(keys: Seq<u64>)
    requires
        vstd::std_specs::btree::increasing_seq(keys),
    ensures
        forall|i: int, j: int| 0 <= i < j < keys.len() ==> keys[i] < keys[j],
{
    assert forall|i: int, j: int| 0 <= i < j < keys.len() implies keys[i] < keys[j] by {
        assert(vstd::std_specs::cmp::OrdSpec::cmp_spec(&keys[i], &keys[j]) is Less);
    }
}

/// A walk over the buckets visits each of them, by increasing bounds.
spec fn walked(buckets: Map<u64, u64>, pairs: Seq<(&u64, &u64)>) -> bool {
    &&& buckets.dom().finite()
    &&& forall|i: int, j: int| 0 <= i < j < pairs.len() ==> *pairs[i].0 < *pairs[j].0
    &&& forall|i: int|
        0 <= i < pairs.len() ==> buckets.contains_key(*(#[trigger] pairs[i]).0)
            && buckets[*pairs[i].0] == *pairs[i].1
    &&& forall|bound: u64| #[trigger]
        buckets.contains_key(bound) ==> exists|i: int|
            0 <= i < pairs.len() && *(#[trigger] pairs[i]).0 == bound
}

/// The samples of the buckets that a walk has visited.
spec fn passed(samples: Multiset<u64>, pairs: Seq<(&u64, &u64)>, visited: int) -> Multiset<u64> {
    if visited <= 0 {
        Multiset::empty()
    } else {
        up_to(samples, *pairs[visited - 1].0 as int)
    }
}

/// A walk passes the samples of one more bucket with each step.
proof fn passes(buckets: Map<u64, u64>, pairs: Seq<(&u64, &u64)>, visited: int)
    requires
        walked(buckets, pairs),
        0 <= visited < pairs.len(),
    ensures
        recorded(buckets).count(*pairs[visited].0) == *pairs[visited].1,
        passed(recorded(buckets), pairs, visited) == up_to(
            recorded(buckets),
            *pairs[visited].0 - 1,
        ),
        passed(recorded(buckets), pairs, visited + 1).len() == passed(
            recorded(buckets),
            pairs,
            visited,
        ).len() + *pairs[visited].1,
        passed(recorded(buckets), pairs, visited + 1).len() <= recorded(buckets).len(),
{
    recorded_counts(buckets);
    let all = recorded(buckets);
    let bound = *pairs[visited].0;
    let samples = *pairs[visited].1 as nat;
    assert(buckets.contains_key(*pairs[visited].0));
    let before = passed(all, pairs, visited);
    assert forall|other: u64| #[trigger] before.count(other) == up_to(all, bound - 1).count(
        other,
    ) by {
        if buckets.contains_key(other) {
            let i = choose|i: int| 0 <= i < pairs.len() && *(#[trigger] pairs[i]).0 == other;
            if visited > 0 {
                assert(*pairs[visited - 1].0 < bound);
                assert(i < visited <==> other < bound);
                assert(i < visited <==> other <= *pairs[visited - 1].0);
            } else {
                assert(other >= bound);
            }
        }
    }
    assert(before =~= up_to(all, bound - 1));
    copies_count(before, bound, samples);
    assert(passed(all, pairs, visited + 1) =~= with_copies(before, bound, samples));
    let after = up_to(all, bound as int);
    assert(after.subset_of(all));
    vstd::multiset::axiom_len_sub(all, after);
}

/// A whole walk passes all samples.
proof fn passes_all(buckets: Map<u64, u64>, pairs: Seq<(&u64, &u64)>)
    requires
        walked(buckets, pairs),
    ensures
        passed(recorded(buckets), pairs, pairs.len() as int) == recorded(buckets),
{
    recorded_counts(buckets);
    let all = recorded(buckets);
    let end = passed(all, pairs, pairs.len() as int);
    assert forall|other: u64| #[trigger] end.count(other) == all.count(other) by {
        if buckets.contains_key(other) {
            let i = choose|i: int| 0 <= i < pairs.len() && *(#[trigger] pairs[i]).0 == other;
            assert(i == pairs.len() - 1 || *pairs[i].0 < *pairs[pairs.len() - 1].0);
        }
    }
    assert(end =~= all);
}

impl Histogram {
    /// The samples are counted.
    pub closed spec fn wf(self) -> bool {
        &&& self.count == self@.len()
        &&& forall|bound: u64| #[trigger] self.buckets@.contains_key(bound) ==> self.buckets@[bound] > 0
    }

    /// A histogram without samples.
    pub fn new() -> (histogram: Self)
        ensures
            histogram.wf(),
            histogram@ == Multiset::<u64>::empty(),
    {
        let histogram = Histogram { buckets: BTreeMap::new(), count: 0 };
        proof {
            recorded_counts(histogram.buckets@);
        }
        assert(histogram@ =~= Multiset::<u64>::empty());
        histogram
    }

    /// The number of samples.
    pub fn count(&self) -> (count: u64)
        requires
            self.wf(),
        ensures
            count == self@.len(),
    {
        self.count
    }

    /// How many samples a bucket holds.
    pub fn samples(&self, bound: u64) -> (samples: u64)
        requires
            self.wf(),
        ensures
            samples == self@.count(bound),
    {
        proof {
            recorded_counts(self.buckets@);
        }
        match self.buckets.get(&bound) {
            Some(samples) => *samples,
            None => 0,
        }
    }

    /// Record a span of time.
    pub fn record(&mut self, duration: Duration)
        requires
            old(self).wf(),
            old(self)@.len() < u64::MAX,
        ensures
            final(self).wf(),
            final(self)@ == old(self)@.insert(bound_of(duration@)),
    {
        let all = duration.as_micros();
        let limit: u64 = u64::MAX / 2;
        let micros: u64 = if all <= limit as u128 {
            all as u64
        } else {
            limit
        };
        let mut quantum: u64 = 1;
        let mut rest: u64 = micros;
        while rest >= 32
            invariant
                micros <= u64::MAX / 2,
                quantum >= 1,
                quantum * rest <= micros,
                self::quantum(micros as nat) == quantum * self::quantum(rest as nat),
            decreases rest,
        {
            assert(2 * quantum * (rest / 2) <= quantum * rest) by (nonlinear_arith);
            assert(32 * quantum <= quantum * rest) by (nonlinear_arith)
                requires
                    rest >= 32,
            ;
            let ghost inner = self::quantum((rest / 2) as nat);
            assert(quantum * (2 * inner) == 2 * quantum * inner) by (nonlinear_arith);
            rest = rest / 2;
            quantum = 2 * quantum;
        }
        proof {
            quantum_is_small(rest as nat);
            quantum_is_small(micros as nat);
            bounds_are_tight(micros as nat);
            let q = quantum as int;
            let m = micros as int;
            assert(q == self::quantum(micros as nat)) by (nonlinear_arith)
                requires
                    self::quantum(micros as nat) == q * self::quantum(rest as nat),
                    self::quantum(rest as nat) == 1,
            ;
            assert(0 <= (m + (q - 1)) / q <= m + (q - 1)) by (nonlinear_arith)
                requires
                    q >= 1,
                    m >= 0,
            ;
            recorded_counts(self.buckets@);
        }
        let upper = (micros + (quantum - 1)) / quantum * quantum;
        assert(upper == bound_of(duration@));
        proof {
            vstd::multiset::axiom_count_le_len(self@, upper);
        }
        let samples = match self.buckets.get(&upper) {
            Some(samples) => *samples + 1,
            None => 1,
        };
        self.buckets.insert(upper, samples);
        proof {
            recorded_counts(self.buckets@);
        }
        self.count = self.count + 1;
        assert(self@ =~= old(self)@.insert(upper));
    }

    /// A percentile of the samples, as a bucket bound; none where the rank asks for
    /// more samples than there are.
    pub fn percentile(&self, percentile: u64) -> (bound: Option<u64>)
        requires
            self.wf(),
            self@.len() * percentile <= u64::MAX,
        ensures
            summarized(self@, percentile as nat, bound),
    {
        let scaled = self.count * percentile;
        let mut rank: u64 = scaled / 100;
        if scaled % 100 != 0 || rank == 0 {
            rank = rank + 1;
        }
        let mut counted: u64 = 0;
        proof {
            recorded_counts(self.buckets@);
        }
        let walk = self.buckets.iter();
        let ghost pairs = vstd::std_specs::iter::IteratorSpec::remaining(&walk);
        let ghost keys = pairs.map_values(|kv: (&u64, &u64)| *kv.0);
        assert(vstd::std_specs::btree::increasing_seq(keys));
        proof {
            keys_increase(keys);
        }
        assert forall|i: int, j: int| 0 <= i < j < pairs.len() implies *pairs[i].0 < *pairs[j].0 by {
            assert(keys[i] < keys[j]);
        }
        for (upper, samples) in iter: walk
            invariant
                self.wf(),
                iter.seq() == pairs,
                walked(self.buckets@, pairs),
                counted == passed(self@, pairs, iter.index() as int).len(),
                counted < rank,
                rank == self::rank(self@.len(), percentile as nat),
        {
            proof {
                passes(self.buckets@, pairs, iter.index() as int);
            }
            counted = counted + *samples;
            if counted >= rank {
                return Some(*upper);
            }
        }
        proof {
            passes_all(self.buckets@, pairs);
        }
        None
    }

    /// The number of samples and the percentiles that are reported of them.
    pub fn summary(&self) -> (summary: HistogramSummary)
        requires
            self.wf(),
            self@.len() * 99 <= u64::MAX,
        ensures
            summary.samples == self@.len(),
            summarized(self@, 50, summary.p50),
            summarized(self@, 95, summary.p95),
            summarized(self@, 99, summary.p99),
    {
        HistogramSummary {
            samples: self.count,
            p50: self.percentile(50),
            p95: self.percentile(95),
            p99: self.percentile(99),
        }
    }
}

/// What is reported of a histogram: percentiles in microseconds, as upper bounds of
/// buckets.
#[derive(Debug, Clone, Copy, PartialEq, Eq, Structural)]
pub struct HistogramSummary {
    pub samples: u64,
    pub p50: Option<u64>,
    pub p95: Option<u64>,
    pub p99: Option<u64>,
}

/// Whether a percentile is reported as it is: none where its rank asks for more
/// samples than there are.
pub open spec fn summarized(samples: Multiset<u64>, percentile: nat, bound: Option<u64>) -> bool {
    match bound {
        Some(bound) => is_percentile(samples, percentile, bound),
        None => samples.len() < rank(samples.len(), percentile),
    }
}

/// A lower bound has no more samples up to it.
proof fn up_to_grows(samples: Multiset<u64>, low: int, high: int)
    requires
        low <= high,
    ensures
        up_to(samples, low).len() <= up_to(samples, high).len(),
{
    assert(up_to(samples, low).subset_of(up_to(samples, high)));
    vstd::multiset::axiom_len_sub(up_to(samples, high), up_to(samples, low));
}

/// A higher percentile is no lower a bound, so a percentile is one bound only.
pub proof fn percentiles_are_ordered(
    samples: Multiset<u64>,
    low: nat,
    low_bound: u64,
    high: nat,
    high_bound: u64,
)
    requires
        low <= high,
        is_percentile(samples, low, low_bound),
        is_percentile(samples, high, high_bound),
    ensures
        low_bound <= high_bound,
        low == high ==> low_bound == high_bound,
{
    let n = samples.len();
    assert(n * low <= n * high) by (nonlinear_arith)
        requires
            low <= high,
    ;
    if high_bound < low_bound {
        up_to_grows(samples, high_bound as int, low_bound - 1);
    }
    if low_bound < high_bound {
        up_to_grows(samples, low_bound as int, high_bound - 1);
    }
}

/// A histogram with samples has every percentile up to the hundredth, and one
/// without samples has none.
pub proof fn percentiles_exist_with_samples(samples: Multiset<u64>, percentile: nat)
    requires
        percentile <= 100,
    ensures
        rank(samples.len(), percentile) <= samples.len() <==> samples.len() > 0,
{
    let n = samples.len();
    assert(n * percentile <= n * 100) by (nonlinear_arith)
        requires
            percentile <= 100,
    ;
}

/// Buckets are sixteen to a power of two: below thirty-two microseconds every number
/// has its own, and from there on the bound is a multiple of a width between a
/// thirty-second and a sixteenth of the number.
pub proof fn buckets_are_sixteenths(micros: nat)
    ensures
        micros < 32 ==> bucket_bound(micros) == micros,
        micros >= 16 ==> 16 * quantum(micros) <= micros < 32 * quantum(micros),
        bucket_bound(micros) % quantum(micros) == 0,
        bucket_bound(micros) < micros + quantum(micros),
    decreases micros,
{
    quantum_is_small(micros);
    if micros >= 32 {
        buckets_are_sixteenths(micros / 2);
    }
    let q = quantum(micros) as int;
    let m = micros as int;
    assert((m + q - 1) / q * q <= m + q - 1) by (nonlinear_arith)
        requires
            q >= 1,
            m >= 0,
    ;
    vstd::arithmetic::div_mod::lemma_mod_multiples_basic((m + q - 1) / q, q);
}

/// The width is the same over a whole power of two: what lies between sixteen and
/// thirty-two widths of a number has that width too.
pub proof fn widths_are_shared(micros: nat, other: nat)
    requires
        micros >= 16,
        16 * quantum(micros) <= other < 32 * quantum(micros),
    ensures
        quantum(other) == quantum(micros),
    decreases micros,
{
    quantum_is_small(micros);
    if micros >= 32 {
        quantum_is_small(micros / 2);
        widths_are_shared(micros / 2, other / 2);
    }
}

/// A span is recorded by its whole microseconds: the bound is no less, at most a
/// sixteenth more, and below thirty-two microseconds exact. What is too long to tell
/// apart is recorded as the longest that is told apart.
pub proof fn spans_are_recorded_by_microseconds(span: nat)
    ensures
        span / 1_000 <= u64::MAX / 2 ==> span / 1_000 <= bound_of(span) <= span / 1_000 + (span
            / 1_000 + 15) / 16,
        span < 32_000 ==> bound_of(span) == span / 1_000,
        span / 1_000 > u64::MAX / 2 ==> bound_of(span) == bound_of(
            1_000 * (u64::MAX / 2) as nat,
        ),
        bound_of(0) == 0,
{
    bounds_are_tight(counted_micros(span));
    buckets_are_sixteenths(counted_micros(span));
    buckets_are_sixteenths(0);
    assert(1_000 * (u64::MAX / 2) as nat / 1_000 == u64::MAX / 2);
}

/// The rank of a percentile is the least that covers that share of the samples, and
/// at least the first.
pub proof fn ranks_cover_their_share(samples: nat, percentile: nat)
    ensures
        rank(samples, percentile) >= 1,
        100 * rank(samples, percentile) >= samples * percentile,
        rank(samples, percentile) > 1 ==> 100 * (rank(samples, percentile) - 1) < samples
            * percentile,
{
}

/// The hundredth percentile is the greatest of the samples, and the one of rank one
/// the least.
pub proof fn extreme_percentiles(samples: Multiset<u64>, highest: u64, lowest: u64, sample: u64)
    requires
        samples.contains(sample),
        is_percentile(samples, 100, highest),
        is_percentile(samples, 0, lowest),
    ensures
        lowest <= sample <= highest,
{
    let covered = up_to(samples, highest as int);
    assert(covered.subset_of(samples));
    vstd::multiset::axiom_len_sub(samples, covered);
    assert(covered.len() >= samples.len()) by {
        assert((samples.len() * 100 + 99) / 100 == samples.len());
    }
    let rest = samples.sub(covered);
    if sample > highest {
        vstd::multiset::axiom_count_le_len(rest, sample);
    }
    if sample < lowest {
        vstd::multiset::axiom_count_le_len(up_to(samples, lowest - 1), sample);
    }
}

/// A call that records a span adds one sample, the bound of the span, and keeps the others.
pub proof fn recording_adds_one_sample(histogram: &mut Histogram, duration: Duration, other: u64)
    requires
        call_ensures(Histogram::record, (histogram, duration), ()),
        other != bound_of(duration@),
    ensures
        final(histogram)@.len() == old(histogram)@.len() + 1,
        final(histogram)@.count(bound_of(duration@)) == old(histogram)@.count(bound_of(duration@))
            + 1,
        final(histogram)@.count(other) == old(histogram)@.count(other),
{
}

/// A call for a percentile gives one of the samples with that share of them up to it, or
/// nothing where there are too few samples.
pub proof fn percentiles_are_samples(histogram: Histogram, percentile: u64, bound: Option<u64>)
    requires
        call_ensures(Histogram::percentile, (&histogram, percentile), bound),
        percentile <= 100,
    ensures
        bound is Some <==> histogram@.len() > 0,
        bound matches Some(bound) ==> {
            &&& histogram@.contains(bound)
            &&& 100 * up_to(histogram@, bound as int).len() >= histogram@.len() * percentile
        },
{
    percentiles_exist_with_samples(histogram@, percentile as nat);
    ranks_cover_their_share(histogram@.len(), percentile as nat);
    if let Some(bound) = bound {
        vstd::multiset::axiom_count_le_len(histogram@, bound);
        assert(rank(histogram@.len(), percentile as nat) <= up_to(histogram@, bound as int).len());
    }
}

/// A histogram tells its samples as they are, and a new one has none; its summary counts them
/// and gives the three percentiles.
pub proof fn histograms_report_themselves(
    fresh: Histogram,
    histogram: Histogram,
    count: u64,
    bound: u64,
    samples: u64,
    summary: HistogramSummary,
)
    requires
        call_ensures(Histogram::new, (), fresh),
        call_ensures(Histogram::count, (&histogram,), count),
        call_ensures(Histogram::samples, (&histogram, bound), samples),
        call_ensures(Histogram::summary, (&histogram,), summary),
    ensures
        fresh@.len() == 0,
        count == histogram@.len(),
        samples == histogram@.count(bound),
        summary.samples == histogram@.len(),
        summary.p50 matches Some(median) ==> is_percentile(histogram@, 50, median),
        summary.p95 matches Some(high) ==> is_percentile(histogram@, 95, high),
        summary.p99 matches Some(highest) ==> is_percentile(histogram@, 99, highest),
        histogram@.len() > 0 ==> summary.p50 is Some && summary.p95 is Some && summary.p99 is Some,
{
    percentiles_exist_with_samples(histogram@, 50);
    percentiles_exist_with_samples(histogram@, 95);
    percentiles_exist_with_samples(histogram@, 99);
}

} // verus!
