//! The poll loop's decisions: which entries of a snapshot are new, and when to stop.

use vstd::prelude::*;
use crate::entry::Entry;
use crate::fetch::FetchError;

verus! {

/// The identities of a sequence of entries, in order.
pub open spec fn ids(entries: Seq<Entry>) -> Seq<Seq<char>> {
    entries.map_values(|e: Entry| e.identity@)
}

/// The entries of a snapshot that are reported when `seen` holds the identities
/// reported before: in snapshot order, each entry whose identity is neither in
/// `seen` nor carried by an earlier entry of the snapshot.
pub open spec fn fresh(seen: Seq<Seq<char>>, entries: Seq<Entry>) -> Seq<Entry>
    decreases entries.len(),
{
    if entries.len() == 0 {
        Seq::empty()
    } else {
        let prev = fresh(seen, entries.drop_last());
        if (seen + ids(prev)).contains(entries.last().identity@) {
            prev
        } else {
            prev.push(entries.last())
        }
    }
}

/// An identity seen before a tick is never reported by it, and stays seen after
/// it; every identity of the tick's snapshot is seen after it; and no identity is
/// reported twice within one tick. Since each tick adds to the seen identities,
/// an identity reported in one tick is reported in no later tick.
pub proof fn lemma_seen_never_reported_again(seen: Seq<Seq<char>>, entries: Seq<Entry>)
    ensures
        forall|k: int|
            0 <= k < fresh(seen, entries).len() ==> !seen.contains(
                #[trigger] fresh(seen, entries)[k].identity@,
            ),
        forall|id: Seq<char>| seen.contains(id) ==> (seen + ids(fresh(seen, entries))).contains(id),
        forall|k: int|
            0 <= k < entries.len() ==> (seen + ids(fresh(seen, entries))).contains(
                #[trigger] entries[k].identity@,
            ),
        ids(fresh(seen, entries)).no_duplicates(),
    decreases entries.len(),
{
    let out = fresh(seen, entries);
    let after = seen + ids(out);
    assert forall|id: Seq<char>| seen.contains(id) implies after.contains(id) by {
        let j = choose|j: int| 0 <= j < seen.len() && seen[j] == id;
        assert(after[j] == id);
    }
    if entries.len() > 0 {
        let init = entries.drop_last();
        let prev = fresh(seen, init);
        let e = entries.last();
        lemma_seen_never_reported_again(seen, init);
        let prev_after = seen + ids(prev);
        if !prev_after.contains(e.identity@) {
            assert(ids(out) =~= ids(prev).push(e.identity@));
            assert(after =~= prev_after.push(e.identity@));
            assert forall|k: int| 0 <= k < out.len() implies !seen.contains(
                #[trigger] out[k].identity@,
            ) by {
                if k == prev.len() {
                    if seen.contains(e.identity@) {
                        assert(prev_after.contains(e.identity@));
                    }
                } else {
                    assert(out[k] == prev[k]);
                }
            }
            assert(ids(out).no_duplicates()) by {
                assert forall|a: int, b: int|
                    0 <= a < b < ids(out).len() implies ids(out)[a] != ids(out)[b] by {
                    if b == prev.len() {
                        assert(ids(prev)[a] == prev_after[seen.len() + a]);
                    } else {
                        assert(ids(out)[a] == ids(prev)[a]);
                        assert(ids(out)[b] == ids(prev)[b]);
                    }
                }
            }
            assert forall|k: int| 0 <= k < entries.len() implies after.contains(
                #[trigger] entries[k].identity@,
            ) by {
                if k == entries.len() - 1 {
                    assert(after[after.len() - 1] == e.identity@);
                } else {
                    assert(entries[k] == init[k]);
                    let j = choose|j: int| 0 <= j < prev_after.len() && prev_after[j] == init[k].identity@;
                    assert(after[j] == prev_after[j]);
                }
            }
        } else {
            assert(out == prev);
            assert forall|k: int| 0 <= k < entries.len() implies after.contains(
                #[trigger] entries[k].identity@,
            ) by {
                if k < entries.len() - 1 {
                    assert(entries[k] == init[k]);
                }
            }
        }
    }
}

/// Why the loop stopped.
#[derive(Debug)]
pub enum Termination {
    /// The fetch failed.
    Fetch(FetchError),
    /// The fetch succeeded with no entries: the feed is invalid or exhausted.
    EmptyFeed,
}

#[derive(Debug)]
pub enum PollState {
    Running,
    Terminated(Termination),
}

/// What the loop does after a tick.
#[derive(Debug)]
pub enum TickAction {
    /// Report these entries, in order, then sleep and fetch again.
    Report(Vec<Entry>),
    /// Stop: the poller holds the reason.
    Stop,
}

/// The state of the poll loop: the identities reported so far, and whether it runs.
#[derive(Debug)]
pub struct Poller {
    seen: Vec<String>,
    state: PollState,
}

impl Poller {
    /// The identities reported so far, in the order they were first reported.
    pub closed spec fn seen_ids(&self) -> Seq<Seq<char>> {
        self.seen@.map_values(|s: String| s@)
    }

    /// Whether the loop runs, or why it stopped.
    pub closed spec fn state_view(&self) -> PollState {
        self.state
    }

    pub open spec fn wf(&self) -> bool {
        self.seen_ids().no_duplicates()
    }

    pub open spec fn running(&self) -> bool {
        self.state_view() is Running
    }

    /// A running poller that has seen nothing.
    pub fn new() -> (r: Poller)
        ensures
            r.wf(),
            r.running(),
            r.seen_ids() == Seq::<Seq<char>>::empty(),
    {
        let r = Poller { seen: Vec::new(), state: PollState::Running };
        assert(r.seen_ids() =~= Seq::<Seq<char>>::empty());
        r
    }

    pub fn is_running(&self) -> (r: bool)
        ensures
            r == self.running(),
    {
        match self.state {
            PollState::Running => true,
            PollState::Terminated(_) => false,
        }
    }

    /// Why the loop stopped, once it has.
    pub fn termination(&self) -> (r: Option<&Termination>)
        ensures
            match self.state_view() {
                PollState::Running => r is None,
                PollState::Terminated(t) => r == Some(&t),
            },
    {
        match &self.state {
            PollState::Running => None,
            PollState::Terminated(t) => Some(t),
        }
    }

    /// How many identities have been reported so far.
    pub fn seen_count(&self) -> (r: usize)
        ensures
            r == self.seen_ids().len(),
    {
        self.seen.len()
    }

    /// Whether an entry with this identity has been reported.
    pub fn has_seen(&self, identity: &String) -> (r: bool)
        ensures
            r == self.seen_ids().contains(identity@),
    {
        let mut j: usize = 0;
        while j < self.seen.len()
            invariant
                j <= self.seen@.len(),
                forall|k: int| 0 <= k < j ==> self.seen_ids()[k] != identity@,
            decreases self.seen@.len() - j,
        {
            if self.seen[j] == *identity {
                assert(self.seen_ids()[j as int] == identity@);
                return true;
            }
            j += 1;
        }
        false
    }

    /// One tick of the loop, given what the fetch returned: a failed fetch or an
    /// empty snapshot stops the loop; otherwise the entries not reported before
    /// are reported, in snapshot order, and their identities become seen.
    pub fn tick(&mut self, fetched: Result<Vec<Entry>, FetchError>) -> (action: TickAction)
        requires
            old(self).wf(),
            old(self).running(),
        ensures
            final(self).wf(),
            match fetched {
                Err(e) => action is Stop && final(self).state_view() == PollState::Terminated(
                    Termination::Fetch(e),
                ) && final(self).seen_ids() == old(self).seen_ids(),
                Ok(entries) => if entries@.len() == 0 {
                    action is Stop && final(self).state_view() == PollState::Terminated(
                        Termination::EmptyFeed,
                    ) && final(self).seen_ids() == old(self).seen_ids()
                } else {
                    action is Report && final(self).running() && action->Report_0@ == fresh(
                        old(self).seen_ids(),
                        entries@,
                    ) && final(self).seen_ids() == old(self).seen_ids() + ids(action->Report_0@)
                },
            },
    {
        let entries = match fetched {
            Err(e) => {
                self.state = PollState::Terminated(Termination::Fetch(e));
                return TickAction::Stop;
            },
            Ok(entries) => entries,
        };
        let n = entries.len();
        if n == 0 {
            self.state = PollState::Terminated(Termination::EmptyFeed);
            return TickAction::Stop;
        }
        let ghost seen0 = self.seen_ids();
        let ghost all = entries@;
        let mut rest = entries;
        let mut reported: Vec<Entry> = Vec::new();
        let mut i: usize = 0;
        assert(all.subrange(0, 0) =~= Seq::<Entry>::empty());
        assert(ids(reported@) =~= Seq::<Seq<char>>::empty());
        assert(seen0 + ids(reported@) =~= seen0);
        while rest.len() > 0
            invariant
                i <= all.len(),
                all.len() == n,
                rest@ == all.subrange(i as int, all.len() as int),
                reported@ == fresh(seen0, all.subrange(0, i as int)),
                self.seen_ids() == seen0 + ids(reported@),
                self.wf(),
                self.running(),
            decreases rest@.len(),
        {
            let e = rest.remove(0);
            assert(all.subrange(0, i + 1).drop_last() =~= all.subrange(0, i as int));
            assert(all.subrange(0, i + 1).last() == e);
            let known = self.has_seen(&e.identity);
            if !known {
                let ghost before = self.seen_ids();
                self.seen.push(e.identity.clone());
                assert(self.seen_ids() =~= before.push(e.identity@));
                assert(ids(reported@.push(e)) =~= ids(reported@).push(e.identity@));
                assert(self.seen_ids().no_duplicates()) by {
                    assert forall|a: int, b: int|
                        0 <= a < b < self.seen_ids().len() implies self.seen_ids()[a]
                            != self.seen_ids()[b] by {
                        if b == before.len() {
                            assert(before.contains(before[a]));
                        }
                    }
                }
                reported.push(e);
            }
            i += 1;
            assert(rest@ =~= all.subrange(i as int, all.len() as int));
        }
        assert(all.subrange(0, i as int) =~= all);
        TickAction::Report(reported)
    }
}

} // verus!
