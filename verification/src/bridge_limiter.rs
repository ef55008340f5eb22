//! How many requests to one host may be on their way at once.
use vstd::prelude::*;
use crate::remote_source::RemoteHostKey;

verus! {

/// How many requests to one session of a host may be on their way at once.
pub const REMOTE_AGENT_BRIDGE_PER_HOST_LIMIT: usize = 4;

/// How many connections to one session of a host may be in use or parked. It
/// equals the limit on requests: a request that holds a permit finds a slot.
pub const REMOTE_AGENT_BRIDGE_POOL_MAX_PER_HOST: usize = 4;

/// The requests on their way to one session of a host.
#[derive(Debug, PartialEq, Eq)]
struct InFlight {
    key: RemoteHostKey,
    count: usize,
}

spec fn distinct_entries(entries: Seq<InFlight>) -> bool {
    &&& forall|i: int, j: int|
        0 <= i < j < entries.len() ==> (#[trigger] entries[i]).key@ != (#[trigger] entries[j]).key@
    &&& forall|i: int| 0 <= i < entries.len() ==> (#[trigger] entries[i]).count > 0
}

spec fn entry_for(entries: Seq<InFlight>, key: (Seq<char>, Seq<char>), i: int) -> bool {
    0 <= i < entries.len() && entries[i].key@ == key
}

spec fn in_flight_counts(entries: Seq<InFlight>) -> Map<(Seq<char>, Seq<char>), nat> {
    Map::new(
        |key: (Seq<char>, Seq<char>)| exists|i: int| entry_for(entries, key, i),
        |key: (Seq<char>, Seq<char>)|
            entries[choose|i: int| entry_for(entries, key, i)].count as nat,
    )
}

proof fn lemma_count_at(entries: Seq<InFlight>, i: int)
    requires
        distinct_entries(entries),
        0 <= i < entries.len(),
    ensures
        in_flight_counts(entries).contains_key(entries[i].key@),
        in_flight_counts(entries)[entries[i].key@] == entries[i].count,
{
    let key = entries[i].key@;
    assert(entry_for(entries, key, i));
    let k = choose|k: int| entry_for(entries, key, k);
    assert(entry_for(entries, key, k));
    if k < i {
        assert(entries[k].key@ != entries[i].key@);
    } else if i < k {
        assert(entries[i].key@ != entries[k].key@);
    }
}

proof fn lemma_count_missing(entries: Seq<InFlight>, key: (Seq<char>, Seq<char>))
    requires
        forall|i: int| 0 <= i < entries.len() ==> (#[trigger] entries[i]).key@ != key,
    ensures
        !in_flight_counts(entries).contains_key(key),
{
    assert forall|i: int| !entry_for(entries, key, i) by {
        if 0 <= i < entries.len() {
            assert(entries[i].key@ != key);
        }
    }
}

/// Two lists of entries that agree on every key hold the same counts.
proof fn lemma_counts_by_key(
    entries: Seq<InFlight>,
    counts: Map<(Seq<char>, Seq<char>), nat>,
)
    requires
        distinct_entries(entries),
        forall|i: int|
            0 <= i < entries.len() ==> counts.contains_key((#[trigger] entries[i]).key@)
                && counts[entries[i].key@] == entries[i].count,
        forall|key: (Seq<char>, Seq<char>)| #[trigger]
            counts.contains_key(key) ==> exists|i: int| entry_for(entries, key, i),
    ensures
        in_flight_counts(entries) == counts,
{
    let own = in_flight_counts(entries);
    assert forall|key: (Seq<char>, Seq<char>)| #[trigger] own.contains_key(key) implies counts.contains_key(
        key,
    ) && own[key] == counts[key] by {
        let i = choose|i: int| entry_for(entries, key, i);
        assert(entry_for(entries, key, i));
        lemma_count_at(entries, i);
        assert(counts.contains_key(entries[i].key@));
    }
    assert(own =~= counts);
}

/// A permit for one request to a session of a host. It is given back to the
/// limiter that handed it out.
#[derive(Debug, PartialEq, Eq)]
pub struct RemoteAgentBridgePermit {
    pub key: RemoteHostKey,
}

/// Bounds the requests on their way to each session of a host. Sessions do not
/// affect each other.
#[derive(Debug, PartialEq, Eq)]
pub struct RemoteAgentBridgeLimiter {
    limit: usize,
    in_flight: Vec<InFlight>,
}

/// How many requests to `key` are on their way.
pub open spec fn in_flight_of(
    counts: Map<(Seq<char>, Seq<char>), nat>,
    key: (Seq<char>, Seq<char>),
) -> nat {
    if counts.contains_key(key) {
        counts[key]
    } else {
        0
    }
}

/// The counts after a permit for `key` was handed out.
pub open spec fn after_acquire(
    counts: Map<(Seq<char>, Seq<char>), nat>,
    key: (Seq<char>, Seq<char>),
) -> Map<(Seq<char>, Seq<char>), nat> {
    counts.insert(key, in_flight_of(counts, key) + 1)
}

/// The counts after a permit for `key` came back. A session with no request on
/// its way is not listed.
pub open spec fn after_release(
    counts: Map<(Seq<char>, Seq<char>), nat>,
    key: (Seq<char>, Seq<char>),
) -> Map<(Seq<char>, Seq<char>), nat> {
    if in_flight_of(counts, key) <= 1 {
        counts.remove(key)
    } else {
        counts.insert(key, (in_flight_of(counts, key) - 1) as nat)
    }
}

impl RemoteAgentBridgeLimiter {
    #[verifier::type_invariant]
    spec fn sound(self) -> bool {
        distinct_entries(self.in_flight@)
    }

    /// How many requests to each session are on their way. Sessions with none
    /// are left out.
    pub closed spec fn counts(self) -> Map<(Seq<char>, Seq<char>), nat> {
        in_flight_counts(self.in_flight@)
    }

    pub closed spec fn spec_limit(self) -> usize {
        self.limit
    }

    pub fn new(limit: usize) -> (limiter: Self)
        ensures
            limiter.spec_limit() == limit,
            limiter.counts() == Map::<(Seq<char>, Seq<char>), nat>::empty(),
    {
        let in_flight: Vec<InFlight> = Vec::new();
        proof {
            lemma_counts_by_key(in_flight@, Map::empty());
        }
        RemoteAgentBridgeLimiter { limit, in_flight }
    }

    /// The bound for each session.
    pub fn limit(&self) -> (limit: usize)
        ensures
            limit == self.spec_limit(),
    {
        self.limit
    }

    fn index_of(&self, key: &RemoteHostKey) -> (found: Option<usize>)
        ensures
            match found {
                Some(i) => i < self.in_flight@.len() && self.in_flight@[i as int].key@ == key@,
                None => forall|i: int|
                    0 <= i < self.in_flight@.len() ==> (#[trigger] self.in_flight@[i]).key@ != key@,
            },
    {
        let mut i: usize = 0;
        while i < self.in_flight.len()
            invariant
                i <= self.in_flight@.len(),
                forall|j: int| 0 <= j < i ==> (#[trigger] self.in_flight@[j]).key@ != key@,
            decreases self.in_flight@.len() - i,
        {
            if self.in_flight[i].key.same(key) {
                return Some(i);
            }
            i = i + 1;
        }
        None
    }

    /// How many requests to `key` are on their way.
    pub fn in_flight(&self, key: &RemoteHostKey) -> (count: usize)
        ensures
            count == in_flight_of(self.counts(), key@),
    {
        proof {
            use_type_invariant(&*self);
        }
        match self.index_of(key) {
            Some(i) => {
                proof {
                    lemma_count_at(self.in_flight@, i as int);
                }
                self.in_flight[i].count
            },
            None => {
                proof {
                    lemma_count_missing(self.in_flight@, key@);
                }
                0
            },
        }
    }

    /// Hands out a permit for `key`, unless as many as allowed are out.
    pub fn try_acquire(&mut self, key: &RemoteHostKey) -> (permit: Option<RemoteAgentBridgePermit>)
        ensures
            final(self).spec_limit() == old(self).spec_limit(),
            in_flight_of(old(self).counts(), key@) < old(self).spec_limit() ==> permit == Some(
                RemoteAgentBridgePermit { key: *key },
            ) && final(self).counts() == after_acquire(old(self).counts(), key@),
            in_flight_of(old(self).counts(), key@) >= old(self).spec_limit() ==> permit is None
                && final(self).counts() == old(self).counts(),
    {
        proof {
            use_type_invariant(&*self);
        }
        let ghost before = self.in_flight@;
        let ghost counts = self.counts();
        let count: usize = self.in_flight(key);
        if count >= self.limit {
            return None;
        }
        match self.index_of(key) {
            Some(i) => {
                proof {
                    lemma_count_at(before, i as int);
                }
                let entry = InFlight { key: key.clone(), count: count + 1 };
                let ghost after = before.update(i as int, entry);
                assert(distinct_entries(after)) by {
                    assert forall|a: int, b: int| 0 <= a < b < after.len() implies (
                    #[trigger] after[a]).key@ != (#[trigger] after[b]).key@ by {
                        assert(after[a].key@ == before[a].key@);
                        assert(after[b].key@ == before[b].key@);
                    }
                }
                let mut entries: Vec<InFlight> = Vec::new();
                std::mem::swap(&mut self.in_flight, &mut entries);
                entries.set(i, entry);
                self.in_flight = entries;
                proof {
                    lemma_changed_count(before, i as int, entry);
                }
            },
            None => {
                proof {
                    lemma_count_missing(before, key@);
                }
                let entry = InFlight { key: key.clone(), count: 1 };
                let ghost after = before.push(entry);
                assert(distinct_entries(after)) by {
                    assert forall|a: int, b: int| 0 <= a < b < after.len() implies (
                    #[trigger] after[a]).key@ != (#[trigger] after[b]).key@ by {
                        assert(after[a] == before[a]);
                        if b < before.len() {
                            assert(after[b] == before[b]);
                        }
                    }
                }
                let mut entries: Vec<InFlight> = Vec::new();
                std::mem::swap(&mut self.in_flight, &mut entries);
                entries.push(entry);
                self.in_flight = entries;
                proof {
                    lemma_added_count(before, entry);
                }
            },
        }
        Some(RemoteAgentBridgePermit { key: key.clone() })
    }

    /// Takes a permit back.
    pub fn release(&mut self, permit: RemoteAgentBridgePermit)
        ensures
            final(self).spec_limit() == old(self).spec_limit(),
            final(self).counts() == after_release(old(self).counts(), permit.key@),
    {
        proof {
            use_type_invariant(&*self);
        }
        let ghost before = self.in_flight@;
        match self.index_of(&permit.key) {
            Some(i) => {
                proof {
                    lemma_count_at(before, i as int);
                }
                let count: usize = self.in_flight[i].count;
                if count > 1 {
                    let entry = InFlight { key: permit.key.clone(), count: count - 1 };
                    let ghost after = before.update(i as int, entry);
                    assert(distinct_entries(after)) by {
                        assert forall|a: int, b: int| 0 <= a < b < after.len() implies (
                        #[trigger] after[a]).key@ != (#[trigger] after[b]).key@ by {
                            assert(after[a].key@ == before[a].key@);
                            assert(after[b].key@ == before[b].key@);
                        }
                    }
                    let mut entries: Vec<InFlight> = Vec::new();
                    std::mem::swap(&mut self.in_flight, &mut entries);
                    entries.set(i, entry);
                    self.in_flight = entries;
                    proof {
                        lemma_changed_count(before, i as int, entry);
                    }
                } else {
                    let ghost after = before.remove(i as int);
                    assert(distinct_entries(after)) by {
                        assert forall|a: int, b: int| 0 <= a < b < after.len() implies (
                        #[trigger] after[a]).key@ != (#[trigger] after[b]).key@ by {
                            let a0 = if a < i {
                                a
                            } else {
                                a + 1
                            };
                            let b0 = if b < i {
                                b
                            } else {
                                b + 1
                            };
                            assert(after[a] == before[a0] && after[b] == before[b0]);
                        }
                    }
                    let mut entries: Vec<InFlight> = Vec::new();
                    std::mem::swap(&mut self.in_flight, &mut entries);
                    entries.remove(i);
                    self.in_flight = entries;
                    proof {
                        lemma_dropped_count(before, i as int);
                    }
                }
            },
            None => {
                proof {
                    lemma_count_missing(before, permit.key@);
                    assert(self.counts().remove(permit.key@) =~= self.counts());
                }
            },
        }
    }
}

proof fn lemma_changed_count(entries: Seq<InFlight>, i: int, entry: InFlight)
    requires
        distinct_entries(entries),
        0 <= i < entries.len(),
        entry.key@ == entries[i].key@,
        distinct_entries(entries.update(i, entry)),
    ensures
        in_flight_counts(entries.update(i, entry)) == in_flight_counts(entries).insert(
            entry.key@,
            entry.count as nat,
        ),
{
    let after = entries.update(i, entry);
    let wanted = in_flight_counts(entries).insert(entry.key@, entry.count as nat);
    assert forall|j: int| 0 <= j < after.len() implies wanted.contains_key(
        (#[trigger] after[j]).key@,
    ) && wanted[after[j].key@] == after[j].count by {
        if j != i {
            assert(after[j] == entries[j]);
            lemma_count_at(entries, j);
            if j < i {
                assert(entries[j].key@ != entries[i].key@);
            } else {
                assert(entries[i].key@ != entries[j].key@);
            }
        }
    }
    assert forall|key: (Seq<char>, Seq<char>)| #[trigger] wanted.contains_key(key) implies exists|
        j: int,
    | entry_for(after, key, j) by {
        if key == entry.key@ {
            assert(entry_for(after, key, i));
        } else {
            let j = choose|j: int| entry_for(entries, key, j);
            assert(entry_for(entries, key, j));
            assert(entry_for(after, key, j));
        }
    }
    lemma_counts_by_key(after, wanted);
}

proof fn lemma_added_count(entries: Seq<InFlight>, entry: InFlight)
    requires
        distinct_entries(entries),
        distinct_entries(entries.push(entry)),
    ensures
        in_flight_counts(entries.push(entry)) == in_flight_counts(entries).insert(
            entry.key@,
            entry.count as nat,
        ),
{
    let after = entries.push(entry);
    let wanted = in_flight_counts(entries).insert(entry.key@, entry.count as nat);
    assert forall|j: int| 0 <= j < after.len() implies wanted.contains_key(
        (#[trigger] after[j]).key@,
    ) && wanted[after[j].key@] == after[j].count by {
        if j < entries.len() {
            assert(after[j] == entries[j]);
            lemma_count_at(entries, j);
            assert(after[j].key@ != after[entries.len() as int].key@);
        }
    }
    assert forall|key: (Seq<char>, Seq<char>)| #[trigger] wanted.contains_key(key) implies exists|
        j: int,
    | entry_for(after, key, j) by {
        if key == entry.key@ {
            assert(entry_for(after, key, entries.len() as int));
        } else {
            let j = choose|j: int| entry_for(entries, key, j);
            assert(entry_for(entries, key, j));
            assert(entry_for(after, key, j));
        }
    }
    lemma_counts_by_key(after, wanted);
}

proof fn lemma_dropped_count(entries: Seq<InFlight>, i: int)
    requires
        distinct_entries(entries),
        0 <= i < entries.len(),
        distinct_entries(entries.remove(i)),
    ensures
        in_flight_counts(entries.remove(i)) == in_flight_counts(entries).remove(entries[i].key@),
{
    let after = entries.remove(i);
    let wanted = in_flight_counts(entries).remove(entries[i].key@);
    assert forall|j: int| 0 <= j < after.len() implies wanted.contains_key(
        (#[trigger] after[j]).key@,
    ) && wanted[after[j].key@] == after[j].count by {
        let j0 = if j < i {
            j
        } else {
            j + 1
        };
        assert(after[j] == entries[j0]);
        lemma_count_at(entries, j0);
        if j0 < i {
            assert(entries[j0].key@ != entries[i].key@);
        } else {
            assert(entries[i].key@ != entries[j0].key@);
        }
    }
    assert forall|key: (Seq<char>, Seq<char>)| #[trigger] wanted.contains_key(key) implies exists|
        j: int,
    | entry_for(after, key, j) by {
        let j = choose|j: int| entry_for(entries, key, j);
        assert(entry_for(entries, key, j));
        assert(j != i);
        if j < i {
            assert(entry_for(after, key, j));
        } else {
            assert(after[j - 1] == entries[j]);
            assert(entry_for(after, key, j - 1));
        }
    }
    lemma_counts_by_key(after, wanted);
}

/// A permit that comes back leaves the counts as they were before it went out.
pub proof fn releasing_undoes_acquiring(
    counts: Map<(Seq<char>, Seq<char>), nat>,
    key: (Seq<char>, Seq<char>),
)
    requires
        forall|k: (Seq<char>, Seq<char>)| #[trigger] counts.contains_key(k) ==> counts[k] > 0,
    ensures
        after_release(after_acquire(counts, key), key) == counts,
{
    if counts.contains_key(key) {
        assert(counts[key] > 0);
    }
    assert(after_release(after_acquire(counts, key), key) =~= counts);
}

/// Handing out a permit keeps every session within the bound, and one session's
/// permits do not count against another.
pub proof fn permits_stay_within_the_limit(
    counts: Map<(Seq<char>, Seq<char>), nat>,
    key: (Seq<char>, Seq<char>),
    other: (Seq<char>, Seq<char>),
    limit: nat,
)
    requires
        in_flight_of(counts, key) < limit,
    ensures
        in_flight_of(after_acquire(counts, key), key) <= limit,
        in_flight_of(counts, other) <= limit ==> in_flight_of(after_acquire(counts, key), other)
            <= limit,
        other != key ==> in_flight_of(after_acquire(counts, key), other) == in_flight_of(
            counts,
            other,
        ),
        other != key ==> in_flight_of(after_release(counts, key), other) == in_flight_of(
            counts,
            other,
        ),
{
}

// Any order of calls ------------------------------------------------------

/// A call of the limiter: a permit is asked for, or one comes back.
pub enum LimiterCall {
    Acquire(Seq<char>, Seq<char>),
    Release(Seq<char>, Seq<char>),
}

/// The counts after these calls of a limiter that began with nothing on its way.
pub open spec fn after_calls(calls: Seq<LimiterCall>, limit: nat) -> Map<
    (Seq<char>, Seq<char>),
    nat,
>
    decreases calls.len(),
{
    if calls.len() == 0 {
        Map::empty()
    } else {
        let before = after_calls(calls.drop_last(), limit);
        match calls.last() {
            LimiterCall::Acquire(host, session) => if in_flight_of(before, (host, session)) < limit {
                after_acquire(before, (host, session))
            } else {
                before
            },
            LimiterCall::Release(host, session) => after_release(before, (host, session)),
        }
    }
}

/// How many permits for `key` these calls handed out, less those that came back.
pub open spec fn permits_out(
    calls: Seq<LimiterCall>,
    limit: nat,
    key: (Seq<char>, Seq<char>),
) -> int
    decreases calls.len(),
{
    if calls.len() == 0 {
        0
    } else {
        let before = permits_out(calls.drop_last(), limit, key);
        match calls.last() {
            LimiterCall::Acquire(host, session) => if (host, session) == key && in_flight_of(
                after_calls(calls.drop_last(), limit),
                key,
            ) < limit {
                before + 1
            } else {
                before
            },
            LimiterCall::Release(host, session) => if (host, session) == key {
                before - 1
            } else {
                before
            },
        }
    }
}

/// Only permits that are out come back.
pub open spec fn gives_back_permits(calls: Seq<LimiterCall>, limit: nat) -> bool {
    forall|i: int|
        0 <= i < calls.len() ==> (#[trigger] calls[i] matches LimiterCall::Release(host, session)
            ==> permits_out(calls.take(i), limit, (host, session)) > 0)
}

/// In whatever order permits are asked for and come back, the count of a session is the
/// number of its permits that are out, and never above the limit.
pub proof fn counts_are_the_permits_out(
    calls: Seq<LimiterCall>,
    limit: nat,
    key: (Seq<char>, Seq<char>),
)
    requires
        gives_back_permits(calls, limit),
    ensures
        in_flight_of(after_calls(calls, limit), key) == permits_out(calls, limit, key),
        in_flight_of(after_calls(calls, limit), key) <= limit,
    decreases calls.len(),
{
    if calls.len() > 0 {
        let before = calls.drop_last();
        assert forall|i: int| 0 <= i < before.len() implies (
        #[trigger] before[i] matches LimiterCall::Release(host, session) ==> permits_out(
            before.take(i),
            limit,
            (host, session),
        ) > 0) by {
            assert(before[i] == calls[i]);
            assert(before.take(i) =~= calls.take(i));
        }
        counts_are_the_permits_out(before, limit, key);
        if let LimiterCall::Release(host, session) = calls.last() {
            assert(calls[calls.len() - 1] == calls.last());
            assert(calls.take(calls.len() - 1) =~= before);
            assert(permits_out(before, limit, (host, session)) > 0);
            counts_are_the_permits_out(before, limit, (host, session));
        }
    }
}

} // verus!
