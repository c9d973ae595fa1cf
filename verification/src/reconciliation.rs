//! Reconciling what a store holds with what it should hold: counters by session,
//! and the identities of descent edges.
use crate::text;
use vstd::prelude::*;

verus! {

/// The counter of a session of an owner.
#[derive(Debug)]
pub struct SessionCount {
    pub owner: String,
    pub session: String,
    pub count: i64,
}

impl SessionCount {
    /// The session that is counted.
    pub open spec fn key(self) -> (Seq<char>, Seq<char>) {
        (self.owner@, self.session@)
    }
}

/// Counters by session, one for each.
#[derive(Debug)]
pub struct SessionCounts {
    entries: Vec<SessionCount>,
}

/// The counters of some entries.
spec fn counters(entries: Seq<SessionCount>) -> Map<(Seq<char>, Seq<char>), i64> {
    Map::new(
        |key: (Seq<char>, Seq<char>)| exists|i: int| 0 <= i < entries.len() && entries[i].key() == key,
        |key: (Seq<char>, Seq<char>)|
            entries[choose|i: int| 0 <= i < entries.len() && entries[i].key() == key].count,
    )
}

/// No session has two entries.
spec fn distinct_sessions(entries: Seq<SessionCount>) -> bool {
    forall|i: int, j: int| 0 <= i < j < entries.len() ==> entries[i].key() != entries[j].key()
}

proof fn counter_of(entries: Seq<SessionCount>, i: int)
    requires
        distinct_sessions(entries),
        0 <= i < entries.len(),
    ensures
        counters(entries).contains_key(entries[i].key()),
        counters(entries)[entries[i].key()] == entries[i].count,
{
    let j = choose|j: int| 0 <= j < entries.len() && entries[j].key() == entries[i].key();
    assert(j == i);
}

impl View for SessionCounts {
    type V = Map<(Seq<char>, Seq<char>), i64>;

    closed spec fn view(&self) -> Map<(Seq<char>, Seq<char>), i64> {
        counters(self.entries@)
    }
}

impl SessionCounts {
    /// Each session has one counter.
    pub closed spec fn wf(self) -> bool {
        distinct_sessions(self.entries@)
    }

    /// No counters.
    pub fn new() -> (counts: Self)
        ensures
            counts.wf(),
            counts@ == Map::<(Seq<char>, Seq<char>), i64>::empty(),
    {
        let counts = SessionCounts { entries: Vec::new() };
        assert(counts@ =~= Map::<(Seq<char>, Seq<char>), i64>::empty());
        counts
    }

    fn find(&self, owner: &str, session: &str) -> (found: Option<usize>)
        requires
            self.wf(),
        ensures
            match found {
                Some(i) => i < self.entries@.len() && self.entries@[i as int].key() == (
                    owner@,
                    session@,
                ),
                None => !self@.contains_key((owner@, session@)),
            },
    {
        let mut i: usize = 0;
        while i < self.entries.len()
            invariant
                i <= self.entries@.len(),
                forall|j: int| 0 <= j < i ==> self.entries@[j].key() != (owner@, session@),
            decreases self.entries@.len() - i,
        {
            let entry = &self.entries[i];
            if text::same(&entry.owner, owner) && text::same(&entry.session, session) {
                return Some(i);
            }
            i = i + 1;
        }
        None
    }

    /// The counter of a session.
    pub fn get(&self, owner: &str, session: &str) -> (count: Option<i64>)
        requires
            self.wf(),
        ensures
            match count {
                Some(count) => self@.contains_key((owner@, session@)) && self@[(owner@, session@)]
                    == count,
                None => !self@.contains_key((owner@, session@)),
            },
    {
        match self.find(owner, session) {
            Some(i) => {
                proof {
                    counter_of(self.entries@, i as int);
                }
                Some(self.entries[i].count)
            },
            None => None,
        }
    }

    /// Set the counter of a session.
    pub fn insert(&mut self, owner: &str, session: &str, count: i64)
        requires
            old(self).wf(),
        ensures
            final(self).wf(),
            final(self)@ == old(self)@.insert((owner@, session@), count),
    {
        let ghost key = (owner@, session@);
        let ghost before = self.entries@;
        let found = self.find(owner, session);
        let entry = SessionCount { owner: owner.to_owned(), session: session.to_owned(), count };
        match found {
            Some(i) => {
                self.entries.set(i, entry);
            },
            None => {
                assert forall|i: int| 0 <= i < before.len() implies before[i].key() != key by {
                    counter_of(before, i);
                }
                self.entries.push(entry);
            },
        }
        let ghost after = self.entries@;
        proof {
            assert(distinct_sessions(after));
            assert forall|other: (Seq<char>, Seq<char>)|
                #![trigger counters(after).contains_key(other)]
                counters(after).contains_key(other) <==> counters(before).insert(
                    key,
                    count,
                ).contains_key(other) by {
                if counters(before).contains_key(other) {
                    let i = choose|i: int| 0 <= i < before.len() && before[i].key() == other;
                    assert(after[i].key() == other);
                }
                if other == key {
                    let at = match found {
                        Some(i) => i as int,
                        None => before.len() as int,
                    };
                    assert(after[at].key() == other);
                }
                if counters(after).contains_key(other) && other != key {
                    let i = choose|i: int| 0 <= i < after.len() && after[i].key() == other;
                    assert(before[i].key() == other);
                }
            }
            assert forall|other: (Seq<char>, Seq<char>)| #[trigger]
                counters(after).contains_key(other) implies counters(after)[other] == counters(
                before,
            ).insert(key, count)[other] by {
                let i = choose|i: int| 0 <= i < after.len() && after[i].key() == other;
                counter_of(after, i);
                if other != key {
                    counter_of(before, i);
                }
            }
            assert(counters(after) =~= counters(before).insert(key, count));
        }
    }

    /// Whether every counter of this stands in `other` with the same count.
    fn within(&self, other: &SessionCounts) -> (within: bool)
        requires
            self.wf(),
            other.wf(),
        ensures
            within == forall|key: (Seq<char>, Seq<char>)| #[trigger]
                self@.contains_key(key) ==> other@.contains_key(key) && other@[key] == self@[key],
    {
        let mut i: usize = 0;
        while i < self.entries.len()
            invariant
                self.wf(),
                other.wf(),
                i <= self.entries@.len(),
                forall|j: int|
                    0 <= j < i ==> other@.contains_key((#[trigger] self.entries@[j]).key())
                        && other@[self.entries@[j].key()] == self.entries@[j].count,
            decreases self.entries@.len() - i,
        {
            let entry = &self.entries[i];
            proof {
                counter_of(self.entries@, i as int);
                assert(self@.contains_key((entry.owner@, entry.session@)));
            }
            match other.get(&entry.owner, &entry.session) {
                Some(count) => {
                    if count != entry.count {
                        return false;
                    }
                },
                None => {
                    return false;
                },
            }
            i = i + 1;
        }
        assert forall|key: (Seq<char>, Seq<char>)| #[trigger] self@.contains_key(key) implies other@
            .contains_key(key) && other@[key] == self@[key] by {
            let j = choose|j: int| 0 <= j < self.entries@.len() && self.entries@[j].key() == key;
            counter_of(self.entries@, j);
        }
        true
    }

    /// Whether two collections hold the same counters.
    pub fn same(&self, other: &SessionCounts) -> (same: bool)
        requires
            self.wf(),
            other.wf(),
        ensures
            same == (self@ == other@),
    {
        let same = self.within(other) && other.within(self);
        proof {
            if same {
                assert(self@ =~= other@);
            }
        }
        same
    }
}

/// The identity of a descent edge: its owner, session, child and parent.
#[derive(Debug)]
pub struct EdgeIdentity {
    pub owner: String,
    pub session: String,
    pub child: String,
    pub parent: String,
}

/// What an edge says.
pub type EdgeView = (Seq<char>, Seq<char>, Seq<char>, Seq<char>);

impl View for EdgeIdentity {
    type V = EdgeView;

    open spec fn view(&self) -> EdgeView {
        (self.owner@, self.session@, self.child@, self.parent@)
    }
}

impl EdgeIdentity {
    /// Whether two edges are the same.
    pub fn same(&self, other: &EdgeIdentity) -> (same: bool)
        ensures
            same == (self@ == other@),
    {
        text::same(&self.owner, &other.owner) && text::same(&self.session, &other.session)
            && text::same(&self.child, &other.child) && text::same(&self.parent, &other.parent)
    }
}

/// A set of edges.
#[derive(Debug)]
pub struct EdgeIdentities {
    entries: Vec<EdgeIdentity>,
}

impl View for EdgeIdentities {
    type V = Set<EdgeView>;

    closed spec fn view(&self) -> Set<EdgeView> {
        Set::new(
            |edge: EdgeView| exists|i: int| 0 <= i < self.entries@.len() && self.entries@[i]@ == edge,
        )
    }
}

impl EdgeIdentities {
    /// No edge is held twice.
    pub closed spec fn wf(self) -> bool {
        forall|i: int, j: int| 0 <= i < j < self.entries@.len() ==> self.entries@[i]@ != self.entries@[j]@
    }

    /// No edges.
    pub fn new() -> (edges: Self)
        ensures
            edges.wf(),
            edges@ == Set::<EdgeView>::empty(),
    {
        let edges = EdgeIdentities { entries: Vec::new() };
        assert(edges@ =~= Set::<EdgeView>::empty());
        edges
    }

    /// Whether an edge is in the set.
    pub fn contains(&self, edge: &EdgeIdentity) -> (found: bool)
        ensures
            found == self@.contains(edge@),
    {
        let mut i: usize = 0;
        while i < self.entries.len()
            invariant
                i <= self.entries@.len(),
                forall|j: int| 0 <= j < i ==> self.entries@[j]@ != edge@,
            decreases self.entries@.len() - i,
        {
            if self.entries[i].same(edge) {
                return true;
            }
            i = i + 1;
        }
        false
    }

    /// Put an edge into the set.
    pub fn insert(&mut self, edge: EdgeIdentity)
        requires
            old(self).wf(),
        ensures
            final(self).wf(),
            final(self)@ == old(self)@.insert(edge@),
    {
        let ghost before = self.entries@;
        let ghost added = edge@;
        if !self.contains(&edge) {
            self.entries.push(edge);
            proof {
                let after = self.entries@;
                assert forall|other: EdgeView| #[trigger] self@.contains(other) <==> old(
                    self,
                )@.insert(added).contains(other) by {
                    if old(self)@.contains(other) {
                        let i = choose|i: int| 0 <= i < before.len() && before[i]@ == other;
                        assert(after[i]@ == other);
                    }
                    if other == added {
                        assert(after[before.len() as int]@ == other);
                    }
                    if self@.contains(other) && other != added {
                        let i = choose|i: int| 0 <= i < after.len() && after[i]@ == other;
                        assert(before[i]@ == other);
                    }
                }
            }
        }
        assert(self@ =~= old(self)@.insert(added));
    }

    /// The number of edges.
    pub fn len(&self) -> (len: usize)
        requires
            self.wf(),
        ensures
            len == self@.len(),
    {
        proof {
            let edges = self.entries@.map_values(|edge: EdgeIdentity| edge@);
            assert(edges.no_duplicates());
            assert forall|edge: EdgeView| #[trigger] self@.contains(edge) <==> edges.to_set().contains(
                edge,
            ) by {
                if self@.contains(edge) {
                    let i = choose|i: int| 0 <= i < self.entries@.len() && self.entries@[i]@ == edge;
                    assert(edges[i] == edge);
                }
                if edges.to_set().contains(edge) {
                    let i = choose|i: int| 0 <= i < edges.len() && edges[i] == edge;
                    assert(self.entries@[i]@ == edge);
                }
            }
            assert(self@ =~= edges.to_set());
            edges.unique_seq_to_set();
        }
        self.entries.len()
    }

    /// Whether every edge of this is in `other`.
    fn within(&self, other: &EdgeIdentities) -> (within: bool)
        ensures
            within == self@.subset_of(other@),
    {
        let mut i: usize = 0;
        while i < self.entries.len()
            invariant
                i <= self.entries@.len(),
                forall|j: int| 0 <= j < i ==> other@.contains((#[trigger] self.entries@[j])@),
            decreases self.entries@.len() - i,
        {
            if !other.contains(&self.entries[i]) {
                assert(self@.contains(self.entries@[i as int]@));
                return false;
            }
            i = i + 1;
        }
        true
    }

    /// Whether two sets hold the same edges.
    pub fn same(&self, other: &EdgeIdentities) -> (same: bool)
        ensures
            same == (self@ == other@),
    {
        let same = self.within(other) && other.within(self);
        proof {
            if same {
                assert(self@ =~= other@);
            }
        }
        same
    }
}

/// Whether the same counters and the same edges are held.
pub open spec fn reconciled(
    expected_sessions: Map<(Seq<char>, Seq<char>), i64>,
    actual_sessions: Map<(Seq<char>, Seq<char>), i64>,
    expected_edges: Set<EdgeView>,
    actual_edges: Set<EdgeView>,
) -> bool {
    expected_sessions == actual_sessions && expected_edges == actual_edges
}

/// Whether the store holds what it should: the same counter for every session, and
/// the same edges. Totals that agree are not enough.
pub fn projection_matches(
    expected_sessions: &SessionCounts,
    actual_sessions: &SessionCounts,
    expected_edges: &EdgeIdentities,
    actual_edges: &EdgeIdentities,
) -> (matches: bool)
    requires
        expected_sessions.wf(),
        actual_sessions.wf(),
    ensures
        matches == reconciled(
            expected_sessions@,
            actual_sessions@,
            expected_edges@,
            actual_edges@,
        ),
{
    expected_sessions.same(actual_sessions) && expected_edges.same(actual_edges)
}

/// A store is not reconciled where one session has another counter, or has one on one side
/// only, or where one edge stands on one side only; it is where none of that is so.
pub proof fn every_difference_shows(
    expected_sessions: Map<(Seq<char>, Seq<char>), i64>,
    actual_sessions: Map<(Seq<char>, Seq<char>), i64>,
    expected_edges: Set<EdgeView>,
    actual_edges: Set<EdgeView>,
    session: (Seq<char>, Seq<char>),
    edge: EdgeView,
)
    ensures
        expected_sessions.contains_key(session) != actual_sessions.contains_key(session)
            ==> !reconciled(expected_sessions, actual_sessions, expected_edges, actual_edges),
        expected_sessions.contains_key(session) && actual_sessions.contains_key(session)
            && expected_sessions[session] != actual_sessions[session] ==> !reconciled(
            expected_sessions,
            actual_sessions,
            expected_edges,
            actual_edges,
        ),
        expected_edges.contains(edge) != actual_edges.contains(edge) ==> !reconciled(
            expected_sessions,
            actual_sessions,
            expected_edges,
            actual_edges,
        ),
        reconciled(expected_sessions, expected_sessions, expected_edges, expected_edges),
{
}

/// Sessions are told apart by owner and name, and edges by each of their four parts.
pub proof fn identities_are_told_apart(
    a: SessionCount,
    b: SessionCount,
    c: EdgeIdentity,
    d: EdgeIdentity,
)
    ensures
        a.key() == b.key() <==> a.owner@ == b.owner@ && a.session@ == b.session@,
        c@ == d@ <==> c.owner@ == d.owner@ && c.session@ == d.session@ && c.child@ == d.child@
            && c.parent@ == d.parent@,
{
}

/// What is set is what is found: a call that sets a counter has it found by owner and
/// session, and leaves every other counter as it was.
pub proof fn counters_are_found_as_set(
    counts: &mut SessionCounts,
    owner: &str,
    session: &str,
    count: i64,
    found: Option<i64>,
    other: (Seq<char>, Seq<char>),
)
    requires
        call_ensures(SessionCounts::insert, (counts, owner, session, count), ()),
        call_ensures(SessionCounts::get, (&*final(counts), owner, session), found),
        other != (owner@, session@),
    ensures
        found == Some(count),
        final(counts)@.contains_key(other) <==> old(counts)@.contains_key(other),
        old(counts)@.contains_key(other) ==> final(counts)@[other] == old(counts)@[other],
{
}

/// An edge that is put in is found, and no other comes with it.
pub proof fn edges_are_found_as_put(
    edges: &mut EdgeIdentities,
    edge: EdgeIdentity,
    other: EdgeIdentity,
    found: bool,
    before: bool,
    after: bool,
)
    requires
        call_ensures(EdgeIdentities::insert, (edges, edge), ()),
        call_ensures(EdgeIdentities::contains, (&*final(edges), &edge), found),
        call_ensures(EdgeIdentities::contains, (&*old(edges), &other), before),
        call_ensures(EdgeIdentities::contains, (&*final(edges), &other), after),
        other@ != edge@,
    ensures
        found,
        after == before,
{
}

/// The call that reconciles a store finds every difference, and finds none where there is
/// none.
pub proof fn reconciling_finds_differences(
    expected_sessions: SessionCounts,
    actual_sessions: SessionCounts,
    expected_edges: EdgeIdentities,
    actual_edges: EdgeIdentities,
    agrees: bool,
    session: (Seq<char>, Seq<char>),
    edge: EdgeView,
)
    requires
        call_ensures(
            projection_matches,
            (&expected_sessions, &actual_sessions, &expected_edges, &actual_edges),
            agrees,
        ),
    ensures
        agrees && expected_sessions@.contains_key(session) ==> actual_sessions@.contains_key(
            session,
        ) && actual_sessions@[session] == expected_sessions@[session],
        agrees && actual_sessions@.contains_key(session) ==> expected_sessions@.contains_key(
            session,
        ),
        agrees ==> (expected_edges@.contains(edge) <==> actual_edges@.contains(edge)),
        expected_sessions@ == actual_sessions@ && expected_edges@ == actual_edges@ ==> agrees,
{
}

} // verus!
