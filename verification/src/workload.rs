//! A deterministic open-loop workload: who sends which event, when it is due, how
//! large it is, and which event it descends from. Nothing here depends on how fast
//! deliveries complete.
use crate::clock::{Duration, NANOS_PER_SEC};
use crate::text;
use vstd::prelude::*;

verus! {

/// The owners of the workload.
pub const OWNERS: usize = 100;

/// The sessions of each owner.
pub const SESSIONS_PER_OWNER: usize = 10;

/// How the events are spread over the owners.
#[derive(Debug, Clone, Copy, PartialEq, Eq, Structural)]
pub enum OwnerDistribution {
    /// Every owner sends as much.
    Uniform,
    /// One owner sends every other event.
    HalfHotOwner,
}

impl OwnerDistribution {
    /// The owner and the session of an event.
    pub open spec fn assigned(self, index: nat) -> (nat, nat) {
        let ordinal = index / 2;
        match self {
            OwnerDistribution::Uniform => ((index / 10) % 100, index % 10),
            OwnerDistribution::HalfHotOwner => if index % 2 == 0 {
                (0, ordinal % 10)
            } else {
                (1 + (ordinal / 10) % 99, ordinal % 10)
            },
        }
    }

    /// How far back the previous event of the same session stands.
    pub open spec fn stride(self, index: nat) -> nat {
        match self {
            OwnerDistribution::Uniform => 1000,
            OwnerDistribution::HalfHotOwner => if index % 2 == 0 {
                20
            } else {
                1980
            },
        }
    }

    /// The event that an event descends from: every tenth event descends from the
    /// previous one of its session, if there is one.
    pub open spec fn parent(self, index: nat) -> Option<nat> {
        if index % 10 == 0 && index >= self.stride(index) {
            Some((index - self.stride(index)) as nat)
        } else {
            None
        }
    }
}

/// The owner and the session of an event.
pub fn owner_session(index: u64, distribution: OwnerDistribution) -> (assigned: (usize, usize))
    ensures
        (assigned.0 as nat, assigned.1 as nat) == distribution.assigned(index as nat),
        assigned.0 < OWNERS,
        assigned.1 < SESSIONS_PER_OWNER,
{
    match distribution {
        OwnerDistribution::Uniform => {
            let owner = (index / SESSIONS_PER_OWNER as u64) % OWNERS as u64;
            let session = index % SESSIONS_PER_OWNER as u64;
            (owner as usize, session as usize)
        },
        OwnerDistribution::HalfHotOwner => {
            let ordinal = index / 2;
            let owner = if index % 2 == 0 {
                0
            } else {
                1 + (ordinal / SESSIONS_PER_OWNER as u64) % (OWNERS as u64 - 1)
            };
            let session = ordinal % SESSIONS_PER_OWNER as u64;
            (owner as usize, session as usize)
        },
    }
}

/// The event that an event descends from.
pub fn parent_index(index: u64, distribution: OwnerDistribution) -> (parent: Option<u64>)
    ensures
        match parent {
            Some(parent) => distribution.parent(index as nat) == Some(parent as nat),
            None => distribution.parent(index as nat) is None,
        },
{
    let distance: u64 = match distribution {
        OwnerDistribution::Uniform => (OWNERS * SESSIONS_PER_OWNER) as u64,
        OwnerDistribution::HalfHotOwner => if index % 2 == 0 {
            2 * SESSIONS_PER_OWNER as u64
        } else {
            2 * (OWNERS as u64 - 1) * SESSIONS_PER_OWNER as u64
        },
    };
    if index % 10 == 0 && index >= distance {
        Some(index - distance)
    } else {
        None
    }
}

/// When an event is due, in nanoseconds from the start: as many whole periods of
/// the rate as there are events before it, rounded up.
pub open spec fn due(index: nat, rate: nat) -> nat {
    (index * NANOS_PER_SEC as nat + rate - 1) as nat / rate
}

/// The last event that is due after some nanoseconds.
pub open spec fn last_due(elapsed: nat, rate: nat) -> nat {
    elapsed * rate / NANOS_PER_SEC as nat
}

/// When an event is due, from the start. Absolute deadlines avoid load that is
/// paced by completions, and timer drift that adds up.
pub fn arrival_offset(index: u64, rate: u64) -> (offset: Duration)
    requires
        rate > 0,
    ensures
        offset@ == due(index as nat, rate as nat),
        offset.wf(),
{
    let product = index as u128 * NANOS_PER_SEC;
    let nanos = (product + (rate as u128 - 1)) / rate as u128;
    proof {
        let p = product as int;
        let r = rate as int;
        assert((p + (r - 1)) / r <= p) by (nonlinear_arith)
            requires
                r >= 1,
                p >= 0,
        ;
        assert(nanos == due(index as nat, rate as nat));
    }
    Duration::new((nanos / NANOS_PER_SEC) as u64, (nanos % NANOS_PER_SEC) as u32)
}

/// The last event that is due after some time, as far as events are counted. A
/// generator that is late skips the older ones and reports them, instead of
/// sending them in a burst.
pub fn latest_due_index(elapsed: Duration, rate: u64) -> (index: u64)
    requires
        rate > 0,
    ensures
        index == (if last_due(elapsed@, rate as nat) <= u64::MAX {
            last_due(elapsed@, rate as nat)
        } else {
            u64::MAX as nat
        }),
{
    match elapsed.as_nanos().checked_mul(rate as u128) {
        Some(product) => {
            let index = product / NANOS_PER_SEC;
            if index <= u64::MAX as u128 {
                index as u64
            } else {
                u64::MAX
            }
        },
        None => {
            assert(elapsed@ * rate as nat > u128::MAX);
            u64::MAX
        },
    }
}

/// The first draw below `bound` of the generator that starts from `seed`.
pub uninterp spec fn first_draw(seed: u64, bound: u8) -> u8;

/// `fastrand::Rng::with_seed` and its first `u8` of the range below `bound`: a
/// number below `bound` that the seed decides.
#[verifier::external_body]
fn draw(seed: u64, bound: u8) -> (drawn: u8)
    requires
        bound > 0,
    ensures
        drawn == first_draw(seed, bound),
        drawn < bound,
{
    fastrand::Rng::with_seed(seed).u8(0..bound)
}

/// The size of an event by a draw out of a hundred: most are small, and some are
/// large.
pub open spec fn size_class(percent: int) -> nat {
    if percent < 80 {
        1_024
    } else if percent < 95 {
        16 * 1_024
    } else {
        128 * 1_024
    }
}

/// The size of an event by a draw out of a hundred.
pub fn envelope_bytes(percent: u8) -> (bytes: usize)
    ensures
        bytes == size_class(percent as int),
{
    if percent < 80 {
        1_024
    } else if percent < 95 {
        16 * 1_024
    } else {
        128 * 1_024
    }
}

/// The size of a whole serialized event, not only of its content. The seed and
/// the index of the event decide it.
pub fn target_envelope_bytes(index: u64, seed: u64) -> (bytes: usize)
    ensures
        bytes == size_class(first_draw(seed.wrapping_add(index), 100) as int),
        bytes == 1_024 || bytes == 16 * 1_024 || bytes == 128 * 1_024,
{
    envelope_bytes(draw(seed.wrapping_add(index), 100))
}

/// A number in decimal, with zeros before it up to a width.
pub open spec fn padded(n: nat, width: nat) -> Seq<char> {
    let digits = text::decimal_digits(n);
    if digits.len() < width {
        Seq::new((width - digits.len()) as nat, |i: int| '0') + digits
    } else {
        digits
    }
}

/// The names of an owner and of a session in a run.
pub open spec fn identity(run: Seq<char>, owner: nat, session: nat) -> (Seq<char>, Seq<char>) {
    (
        "ingestion-probe-"@ + run + "-"@ + padded(owner, 3),
        run + "-"@ + padded(owner, 3) + "-"@ + padded(session, 2),
    )
}

fn pad(n: u64, width: usize) -> (text: String)
    ensures
        text@ == padded(n as nat, width as nat),
{
    let digits = text::decimal(n);
    let chars = text::chars(&digits);
    let mut padding = String::new();
    let mut length: usize = chars.len();
    while length < width
        invariant
            chars@ == text::decimal_digits(n as nat),
            chars@.len() <= length,
            length <= width || length == chars@.len(),
            padding@ == Seq::new((length - chars@.len()) as nat, |i: int| '0'),
        decreases width - length,
    {
        padding.push('0');
        length = length + 1;
        assert(padding@ =~= Seq::new((length - chars@.len()) as nat, |i: int| '0'));
    }
    let padded = text::concat(&padding, &digits);
    assert(padded@ =~= self::padded(n as nat, width as nat));
    padded
}

/// The names of an owner and of a session in a run.
pub fn fixture_identity(run: &str, owner: usize, session: usize) -> (names: (String, String))
    ensures
        (names.0@, names.1@) == identity(run@, owner as nat, session as nat),
{
    let number = pad(owner as u64, 3);
    let user = text::concat(&text::concat(&text::concat("ingestion-probe-", run), "-"), &number);
    let prefix = text::concat(&text::concat(&text::concat(run, "-"), &number), "-");
    let session = text::concat(&prefix, &pad(session as u64, 2));
    (user, session)
}

/// Over a cycle of all owners and sessions, the uniform workload visits each
/// session of each owner exactly once.
pub proof fn uniform_workload_is_even(cycle: nat, owner: nat, session: nat, index: nat)
    requires
        owner < OWNERS,
        session < SESSIONS_PER_OWNER,
        1000 * cycle <= index < 1000 * (cycle + 1),
    ensures
        OwnerDistribution::Uniform.assigned(index) == (owner, session) <==> index == 1000 * cycle
            + 10 * owner + session,
{
    let within = (index - 1000 * cycle) as nat;
    assert(index / 10 == 100 * cycle + within / 10);
    assert((index / 10) % 100 == within / 10);
}

/// The hot owner sends every other event, over its sessions in turn.
pub proof fn hot_owner_sends_half(index: nat)
    ensures
        OwnerDistribution::HalfHotOwner.assigned(index).0 == 0 <==> index % 2 == 0,
        index % 2 == 0 ==> OwnerDistribution::HalfHotOwner.assigned(index).1 == index / 2 % 10,
{
}

/// The hot owner does not starve the others: over a cycle, each session of each
/// other owner is visited exactly once.
pub proof fn cold_owners_are_not_starved(cycle: nat, owner: nat, session: nat, index: nat)
    requires
        0 < owner < OWNERS,
        session < SESSIONS_PER_OWNER,
        1980 * cycle <= index < 1980 * (cycle + 1),
    ensures
        OwnerDistribution::HalfHotOwner.assigned(index) == (owner, session) <==> index == 1980
            * cycle + 2 * (10 * (owner - 1) + session) + 1,
{
    let within = (index - 1980 * cycle) as nat;
    assert(index / 2 == 990 * cycle + within / 2);
    assert(index / 2 / 10 == 99 * cycle + within / 20);
    assert((index / 2 / 10) % 99 == within / 20);
}

/// Descent stays within a session, and skips no event of it: a parent is the last
/// event before its child with the same owner and session.
pub proof fn parents_precede_in_their_session(
    distribution: OwnerDistribution,
    index: nat,
    between: nat,
)
    requires
        distribution.parent(index) is Some,
        distribution.parent(index)->0 < between < index,
    ensures
        distribution.assigned(distribution.parent(index)->0) == distribution.assigned(index),
        distribution.assigned(between) != distribution.assigned(index),
{
    match distribution {
        OwnerDistribution::Uniform => uniform_turns(index, between),
        OwnerDistribution::HalfHotOwner => hot_turns(index, between),
    }
}

/// The last thousand events hold one of the same session: the first of them.
proof fn uniform_turns(index: nat, between: nat)
    requires
        index >= 1000,
        index - 1000 < between < index,
    ensures
        OwnerDistribution::Uniform.assigned((index - 1000) as nat)
            == OwnerDistribution::Uniform.assigned(index),
        OwnerDistribution::Uniform.assigned(between) != OwnerDistribution::Uniform.assigned(index),
{
    let turn = index / 10;
    assert((index - 1000) / 10 == turn - 100);
    assert((turn - 100) % 100 == turn % 100);
    if between % 10 == index % 10 {
        let passed = turn - between / 10;
        assert(10 * passed == index - between);
        assert(0 < passed < 100);
        assert(turn % 100 != (turn - passed) % 100);
    }
}

/// The last twenty events hold one of the same session of the hot owner: the first
/// of them.
proof fn hot_turns(index: nat, between: nat)
    requires
        index % 2 == 0,
        index >= 20,
        index - 20 < between < index,
    ensures
        OwnerDistribution::HalfHotOwner.assigned((index - 20) as nat)
            == OwnerDistribution::HalfHotOwner.assigned(index),
        OwnerDistribution::HalfHotOwner.assigned(between)
            != OwnerDistribution::HalfHotOwner.assigned(index),
{
    let turn = index / 2;
    assert((index - 20) / 2 == turn - 10);
    if between % 2 == 0 {
        let passed = turn - between / 2;
        assert(0 < passed < 10);
    }
}

/// A number below a thousand in three digits.
proof fn three_digits(n: nat)
    requires
        n < 1000,
    ensures
        padded(n, 3) == seq![
            text::digit(n / 100),
            text::digit(n / 10 % 10),
            text::digit(n % 10),
        ],
{
    reveal_with_fuel(text::decimal_digits, 4);
    assert(n / 10 / 10 == n / 100);
    assert(padded(n, 3) =~= seq![
        text::digit(n / 100),
        text::digit(n / 10 % 10),
        text::digit(n % 10),
    ]);
}

/// A number below a hundred in two digits.
proof fn two_digits(n: nat)
    requires
        n < 100,
    ensures
        padded(n, 2) == seq![text::digit(n / 10), text::digit(n % 10)],
{
    reveal_with_fuel(text::decimal_digits, 3);
    assert(padded(n, 2) =~= seq![text::digit(n / 10), text::digit(n % 10)]);
}

/// Within a run, different owners have different names, and different sessions
/// have different names whoever owns them.
pub proof fn identities_are_distinct(
    run: Seq<char>,
    a_owner: nat,
    a_session: nat,
    b_owner: nat,
    b_session: nat,
)
    requires
        a_owner < OWNERS,
        b_owner < OWNERS,
        a_session < SESSIONS_PER_OWNER,
        b_session < SESSIONS_PER_OWNER,
    ensures
        identity(run, a_owner, a_session).0 == identity(run, b_owner, b_session).0 <==> a_owner
            == b_owner,
        identity(run, a_owner, a_session).1 == identity(run, b_owner, b_session).1 <==> a_owner
            == b_owner && a_session == b_session,
{
    three_digits(a_owner);
    three_digits(b_owner);
    two_digits(a_session);
    two_digits(b_session);
    reveal_strlit("-");
    let a = identity(run, a_owner, a_session);
    let b = identity(run, b_owner, b_session);
    let at = ("ingestion-probe-"@.len() + run.len() + 1) as int;
    if a.0 == b.0 {
        assert(a.0[at] == padded(a_owner, 3)[0] && b.0[at] == padded(b_owner, 3)[0]);
        assert(a.0[at + 1] == padded(a_owner, 3)[1] && b.0[at + 1] == padded(b_owner, 3)[1]);
        assert(a.0[at + 2] == padded(a_owner, 3)[2] && b.0[at + 2] == padded(b_owner, 3)[2]);
    }
    let from = run.len() as int + 1;
    if a.1 == b.1 {
        assert(a.1[from] == padded(a_owner, 3)[0] && b.1[from] == padded(b_owner, 3)[0]);
        assert(a.1[from + 1] == padded(a_owner, 3)[1] && b.1[from + 1] == padded(b_owner, 3)[1]);
        assert(a.1[from + 2] == padded(a_owner, 3)[2] && b.1[from + 2] == padded(b_owner, 3)[2]);
        assert(a.1[from + 4] == padded(a_session, 2)[0] && b.1[from + 4] == padded(b_session, 2)[0]);
        assert(a.1[from + 5] == padded(a_session, 2)[1] && b.1[from + 5] == padded(b_session, 2)[1]);
    }
}

/// Deadlines do not drift and do not bunch: up to a billion events a second, the
/// event that is due is the last one due at its deadline, and a nanosecond before
/// it is the one before.
pub proof fn deadlines_are_exact(index: nat, rate: nat)
    requires
        0 < rate <= NANOS_PER_SEC,
    ensures
        last_due(due(index, rate), rate) == index,
        index > 0 ==> due(index, rate) > 0 && last_due((due(index, rate) - 1) as nat, rate) == index
            - 1,
{
    let n = NANOS_PER_SEC as int;
    let target = index * n;
    let deadline = due(index, rate) as int;
    let r = rate as int;
    assert(deadline == (target + r - 1) / r);
    assert(target <= deadline * r && deadline * r < target + r) by (nonlinear_arith)
        requires
            deadline == (target + r - 1) / r,
            r > 0,
    ;
    assert(deadline * r / n == index) by (nonlinear_arith)
        requires
            n > 0,
            target == index * n,
            target <= deadline * r,
            deadline * r < target + r,
            r <= n,
    ;
    if index > 0 {
        assert(target >= n) by (nonlinear_arith)
            requires
                target == index * n,
                index > 0,
                n > 0,
        ;
        assert(deadline > 0) by (nonlinear_arith)
            requires
                target >= n,
                n > 0,
                target <= deadline * r,
                r > 0,
        ;
        assert((deadline - 1) * r == deadline * r - r) by (nonlinear_arith);
        assert((deadline - 1) * r / n == index - 1) by (nonlinear_arith)
            requires
                n > 0,
                target == index * n,
                target - r <= (deadline - 1) * r,
                (deadline - 1) * r < target,
                r <= n,
        ;
    }
}

/// Later events are due no earlier, and more time never makes fewer events due.
pub proof fn schedule_is_monotone(a: nat, b: nat, rate: nat)
    requires
        a <= b,
        rate > 0,
    ensures
        due(a, rate) <= due(b, rate),
        last_due(a, rate) <= last_due(b, rate),
{
    let n = NANOS_PER_SEC as nat;
    assert(a * n <= b * n) by (nonlinear_arith)
        requires
            a <= b,
    ;
    assert(a * rate <= b * rate) by (nonlinear_arith)
        requires
            a <= b,
    ;
    vstd::arithmetic::div_mod::lemma_div_is_ordered(
        a * n + rate - 1,
        b * n + rate - 1,
        rate as int,
    );
    vstd::arithmetic::div_mod::lemma_div_is_ordered((a * rate) as int, (b * rate) as int, n as int);
}

/// A deadline is the first nanosecond at which as many periods of the rate have
/// passed as there are events before, and the last event that is due is the last
/// whose periods have passed, whatever the rate.
pub proof fn deadlines_are_least(index: nat, elapsed: nat, rate: nat)
    requires
        rate > 0,
    ensures
        due(index, rate) * rate >= index * 1_000_000_000,
        due(index, rate) > 0 ==> (due(index, rate) - 1) * rate < index * 1_000_000_000,
        last_due(elapsed, rate) * 1_000_000_000 <= elapsed * rate,
        elapsed * rate < (last_due(elapsed, rate) + 1) * 1_000_000_000,
{
    let target = (index * 1_000_000_000) as int;
    let deadline = due(index, rate) as int;
    let r = rate as int;
    assert(target <= deadline * r && (deadline - 1) * r < target) by (nonlinear_arith)
        requires
            deadline == (target + r - 1) / r,
            r > 0,
    ;
}

/// Of the events with an earlier one in their session exactly every tenth descends from
/// another: from the last of the earlier ones.
pub proof fn every_tenth_event_descends(
    distribution: OwnerDistribution,
    index: nat,
    earlier: nat,
)
    requires
        earlier < index,
        distribution.assigned(earlier) == distribution.assigned(index),
    ensures
        distribution.parent(index) is Some <==> index % 10 == 0,
        distribution.parent(index) is Some ==> earlier <= distribution.parent(index)->0 < index,
{
    if index % 10 == 0 {
        match distribution {
            OwnerDistribution::Uniform => {
                if index < 1000 {
                    let (owner, session) = distribution.assigned(index);
                    uniform_workload_is_even(0, owner, session, index);
                    uniform_workload_is_even(0, owner, session, earlier);
                }
            },
            OwnerDistribution::HalfHotOwner => {
                assert(index % 2 == 0);
                assert(earlier % 2 == 0);
            },
        }
        if distribution.parent(index)->0 < earlier {
            parents_precede_in_their_session(distribution, index, earlier);
        }
    }
}

/// An event without an earlier one in its session has no parent: a parent is an earlier
/// event of the same session.
pub proof fn first_events_have_no_parent(distribution: OwnerDistribution, index: nat)
    requires
        distribution.parent(index) is Some,
    ensures
        distribution.parent(index)->0 < index,
        distribution.assigned(distribution.parent(index)->0) == distribution.assigned(index),
{
    parents_precede_in_their_session(distribution, index, (index - 1) as nat);
}

/// Of a hundred draws, the first eighty give small events, the last five large ones,
/// and the rest those between; a higher draw never gives a smaller event.
pub proof fn sizes_grow_with_the_draw(percent: int, higher: int)
    requires
        percent <= higher,
    ensures
        size_class(percent) <= size_class(higher),
        size_class(percent) == 1_024 <==> percent < 80,
        size_class(percent) == 131_072 <==> percent >= 95,
        size_class(percent) == 16_384 <==> 80 <= percent < 95,
{
}

/// The names of a run begin with it, and end with the numbers in digits: three of the
/// owner, two of the session.
pub proof fn identities_are_readable(run: Seq<char>, owner: nat, session: nat)
    requires
        owner < 1000,
        session < 100,
    ensures
        identity(run, owner, session).0 == "ingestion-probe-"@ + run + seq![
            '-',
            ('0' as u32 + owner / 100) as char,
            ('0' as u32 + owner / 10 % 10) as char,
            ('0' as u32 + owner % 10) as char,
        ],
        identity(run, owner, session).1 == run + seq![
            '-',
            ('0' as u32 + owner / 100) as char,
            ('0' as u32 + owner / 10 % 10) as char,
            ('0' as u32 + owner % 10) as char,
            '-',
            ('0' as u32 + session / 10) as char,
            ('0' as u32 + session % 10) as char,
        ],
{
    three_digits(owner);
    two_digits(session);
    reveal_strlit("-");
    let names = identity(run, owner, session);
    assert(names.0 =~= "ingestion-probe-"@ + run + seq![
        '-',
        ('0' as u32 + owner / 100) as char,
        ('0' as u32 + owner / 10 % 10) as char,
        ('0' as u32 + owner % 10) as char,
    ]);
    assert(names.1 =~= run + seq![
        '-',
        ('0' as u32 + owner / 100) as char,
        ('0' as u32 + owner / 10 % 10) as char,
        ('0' as u32 + owner % 10) as char,
        '-',
        ('0' as u32 + session / 10) as char,
        ('0' as u32 + session % 10) as char,
    ]);
}

/// The size of an event depends on the sum of seed and index alone.
pub proof fn sizes_depend_on_the_sum(
    index: u64,
    seed: u64,
    bytes: usize,
    other_index: u64,
    other_seed: u64,
    other_bytes: usize,
)
    requires
        call_ensures(target_envelope_bytes, (index, seed), bytes),
        call_ensures(target_envelope_bytes, (other_index, other_seed), other_bytes),
        seed.wrapping_add(index) == other_seed.wrapping_add(other_index),
    ensures
        bytes == other_bytes,
        bytes == size_class(first_draw(seed.wrapping_add(index), 100) as int),
{
}

/// The call for the last event that is due counts every period of the rate that has passed,
/// as far as it can count.
pub proof fn due_events_are_counted(elapsed: Duration, rate: u64, index: u64)
    requires
        call_ensures(latest_due_index, (elapsed, rate), index),
        rate > 0,
    ensures
        index * 1_000_000_000 <= elapsed@ * rate,
        index < u64::MAX ==> elapsed@ * rate < (index + 1) * 1_000_000_000,
{
    deadlines_are_least(0, elapsed@, rate as nat);
}

/// The calls about the workload agree: a parent has the owner and session of its child, an
/// event is due at its offset, and sizes follow the draw.
pub proof fn workload_calls_agree(
    index: u64,
    distribution: OwnerDistribution,
    assigned: (usize, usize),
    parent: u64,
    parent_assigned: (usize, usize),
    percent: u8,
    bytes: usize,
)
    requires
        call_ensures(owner_session, (index, distribution), assigned),
        call_ensures(parent_index, (index, distribution), Some(parent)),
        call_ensures(owner_session, (parent, distribution), parent_assigned),
        call_ensures(envelope_bytes, (percent,), bytes),
    ensures
        assigned.0 < 100 && assigned.1 < 10,
        parent_assigned == assigned,
        parent < index,
        index % 10 == 0,
        percent < 80 ==> bytes == 1_024,
        80 <= percent < 95 ==> bytes == 16_384,
        percent >= 95 ==> bytes == 131_072,
{
    first_events_have_no_parent(distribution, index as nat);
    every_tenth_event_descends(distribution, index as nat, parent as nat);
}

/// An event is due at its offset and, up to a billion a second, not a nanosecond before.
pub proof fn events_are_due_at_their_offset(index: u64, rate: u64, offset: Duration, due_then: u64)
    requires
        call_ensures(arrival_offset, (index, rate), offset),
        call_ensures(latest_due_index, (offset, rate), due_then),
        0 < rate <= 1_000_000_000,
    ensures
        due_then == index,
        offset@ * rate >= index * 1_000_000_000,
        offset@ > 0 ==> (offset@ - 1) * rate < index * 1_000_000_000,
{
    deadlines_are_exact(index as nat, rate as nat);
    deadlines_are_least(index as nat, offset@, rate as nat);
}

/// The call that names owner and session starts both names as the run says.
pub proof fn names_are_those_of_the_run(
    run: &str,
    owner: usize,
    session: usize,
    names: (String, String),
)
    requires
        call_ensures(fixture_identity, (run, owner, session), names),
    ensures
        ("ingestion-probe-"@ + run@).is_prefix_of(names.0@),
        run@.is_prefix_of(names.1@),
        (names.0@, names.1@) == identity(run@, owner as nat, session as nat),
{
    let first = "ingestion-probe-"@ + run@;
    assert(first =~= names.0@.subrange(0, first.len() as int));
    assert(run@ =~= names.1@.subrange(0, run@.len() as int));
}

} // verus!
