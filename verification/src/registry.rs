//! The record of completed asynchronous jobs.
//!
//! The completion handler, which runs on a thread of the transport's choosing,
//! marks a job done here; the task that waits for the job takes the mark away
//! when it polls. Taking is consuming: one completion is delivered once. The
//! registry is a plain value. Whoever shares it between the handler and the
//! poller guards it with one lock, held for the length of one call.
use crate::bindings::{ViJobId, ViSession};
use std::collections::HashSet;
use vstd::prelude::*;

verus! {

broadcast use vstd::std_specs::hash::group_hash_axioms;

/// Which (session, job) pairs have completed and have not been consumed yet.
pub struct AsyncTaskRegistry {
    done: HashSet<u64>,
}

/// The number under which a pair is kept: the session in the high half, the
/// job in the low half.
pub open spec fn pair_key(session: ViSession, job: ViJobId) -> u64 {
    (session as u64 * 0x1_0000_0000 + job as u64) as u64
}

/// No two pairs are kept under one number.
pub proof fn lemma_pair_key_distinct(s1: ViSession, j1: ViJobId, s2: ViSession, j2: ViJobId)
    requires
        pair_key(s1, j1) == pair_key(s2, j2),
    ensures
        s1 == s2,
        j1 == j2,
{
}

impl View for AsyncTaskRegistry {
    type V = Set<(ViSession, ViJobId)>;

    closed spec fn view(&self) -> Set<(ViSession, ViJobId)> {
        Set::new(|pair: (ViSession, ViJobId)| self.done@.contains(pair_key(pair.0, pair.1)))
    }
}

impl AsyncTaskRegistry {
    /// A registry in which no job is done.
    pub fn new() -> (registry: Self)
        ensures
            registry@ == Set::<(ViSession, ViJobId)>::empty(),
    {
        let registry = AsyncTaskRegistry { done: HashSet::new() };
        assert(registry@ =~= Set::<(ViSession, ViJobId)>::empty());
        registry
    }

    fn key(session: ViSession, job: ViJobId) -> (key: u64)
        ensures
            key == pair_key(session, job),
    {
        session as u64 * 0x1_0000_0000 + job as u64
    }

    /// Records that the job has completed. Marking a job that is already
    /// marked changes nothing: one completion is pending either way.
    pub fn mark_done(&mut self, session: ViSession, job: ViJobId)
        ensures
            final(self)@ == old(self)@.insert((session, job)),
    {
        let key = Self::key(session, job);
        self.done.insert(key);
        proof {
            assert forall|pair: (ViSession, ViJobId)| #[trigger]
                final(self)@.contains(pair) == old(self)@.insert((session, job)).contains(
                    pair,
                ) by {
                if pair_key(pair.0, pair.1) == key {
                    lemma_pair_key_distinct(pair.0, pair.1, session, job);
                }
            }
            assert(final(self)@ =~= old(self)@.insert((session, job)));
        }
    }

    /// Checks whether the job has completed and, if so, consumes the mark.
    pub fn take_done(&mut self, session: ViSession, job: ViJobId) -> (done: bool)
        ensures
            done == old(self)@.contains((session, job)),
            final(self)@ == old(self)@.remove((session, job)),
    {
        let key = Self::key(session, job);
        let done = self.done.remove(&key);
        proof {
            assert forall|pair: (ViSession, ViJobId)| #[trigger]
                final(self)@.contains(pair) == old(self)@.remove((session, job)).contains(
                    pair,
                ) by {
                if pair_key(pair.0, pair.1) == key {
                    lemma_pair_key_distinct(pair.0, pair.1, session, job);
                }
            }
            assert(final(self)@ =~= old(self)@.remove((session, job)));
        }
        done
    }

    /// Whether the job has completed and its mark is still there.
    pub fn is_done(&self, session: ViSession, job: ViJobId) -> (done: bool)
        ensures
            done == self@.contains((session, job)),
    {
        let key = Self::key(session, job);
        self.done.contains(&key)
    }
}

/// One completion is delivered once: after a job is marked, however often,
/// the first take finds it and leaves a registry in which the next take finds
/// nothing; the marks of every other job stay as they were.
pub proof fn lemma_completion_taken_once(
    before: Set<(ViSession, ViJobId)>,
    session: ViSession,
    job: ViJobId,
)
    ensures
        before.insert((session, job)).contains((session, job)),
        before.insert((session, job)).insert((session, job)) == before.insert((session, job)),
        !before.insert((session, job)).remove((session, job)).contains((session, job)),
        forall|other: (ViSession, ViJobId)|
            other != (session, job) ==> (before.insert((session, job)).remove(
                (session, job),
            ).contains(other) <==> before.contains(other)),
{
    assert(before.insert((session, job)).insert((session, job)) =~= before.insert(
        (session, job),
    ));
}

/// One call on a registry: a mark or a take.
pub enum RegistryCall {
    /// The pair was marked done.
    Mark(ViSession, ViJobId),
    /// The pair was asked for, and its mark taken if it was there.
    Take(ViSession, ViJobId),
}

/// The pairs that are marked after a history of calls on a registry that
/// started empty: each mark inserts its pair and each take removes its pair,
/// as `mark_done` and `take_done` do.
pub open spec fn marked_after(history: Seq<RegistryCall>) -> Set<(ViSession, ViJobId)>
    decreases history.len(),
{
    if history.len() == 0 {
        Set::empty()
    } else {
        match history.last() {
            RegistryCall::Mark(session, job) => marked_after(history.drop_last()).insert(
                (session, job),
            ),
            RegistryCall::Take(session, job) => marked_after(history.drop_last()).remove(
                (session, job),
            ),
        }
    }
}

/// What the take of `pair` finds when it is made after the first `place`
/// calls of a history: whether the pair is marked then.
pub open spec fn finds(history: Seq<RegistryCall>, place: int, pair: (ViSession, ViJobId)) -> bool {
    marked_after(history.take(place)).contains(pair)
}

/// Whether, among the first `place` calls of a history, the pair was marked
/// and not asked for since.
pub open spec fn marked_since(
    history: Seq<RegistryCall>,
    place: int,
    pair: (ViSession, ViJobId),
) -> bool {
    exists|k: int|
        0 <= k < place && #[trigger] history[k] == RegistryCall::Mark(pair.0, pair.1) && forall|
            m: int,
        |
            k < m < place ==> #[trigger] history[m] != RegistryCall::Take(pair.0, pair.1)
}

/// Over any history of marks and takes on a registry that started empty, a
/// take finds its pair exactly when the pair was marked and not asked for
/// since. The first take after a mark always finds it, so "not asked for
/// since" is the same as "not found since": a completion is delivered once
/// for each run of marks, and never without one.
pub proof fn lemma_take_finds_the_mark(
    history: Seq<RegistryCall>,
    place: int,
    pair: (ViSession, ViJobId),
)
    requires
        0 <= place <= history.len(),
    ensures
        finds(history, place, pair) <==> marked_since(history, place, pair),
    decreases place,
{
    let prefix = history.take(place);
    let mark = RegistryCall::Mark(pair.0, pair.1);
    let take = RegistryCall::Take(pair.0, pair.1);
    if place > 0 {
        let last = history[place - 1];
        assert(prefix.last() == last);
        assert(prefix.drop_last() =~= history.take(place - 1));
        lemma_take_finds_the_mark(history, place - 1, pair);
        let before = marked_since(history, place - 1, pair);
        if last == take {
            if marked_since(history, place, pair) {
                let k = choose|k: int|
                    0 <= k < place && #[trigger] history[k] == mark && forall|m: int|
                        k < m < place ==> #[trigger] history[m] != take;
                assert(history[place - 1] != take);
            }
        } else if last == mark {
            assert(history[place - 1] == mark);
            assert(marked_since(history, place, pair));
        } else {
            if before {
                let k = choose|k: int|
                    0 <= k < place - 1 && #[trigger] history[k] == mark && forall|m: int|
                        k < m < place - 1 ==> #[trigger] history[m] != take;
                assert forall|m: int| k < m < place implies #[trigger] history[m] != take by {}
                assert(history[k] == mark);
                assert(marked_since(history, place, pair));
            }
            if marked_since(history, place, pair) {
                let k = choose|k: int|
                    0 <= k < place && #[trigger] history[k] == mark && forall|m: int|
                        k < m < place ==> #[trigger] history[m] != take;
                assert(k < place - 1);
                assert(history[k] == mark);
                assert(before);
            }
        }
    }
}

} // verus!
