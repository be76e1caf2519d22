//! Turns raw filesystem notifications into one "rebuild ready" signal per
//! genuine rebuild: a removal of the artifact followed by its re-creation.

use vstd::prelude::*;

verus! {

/// The kind of a raw change notification for the watched artifact.
#[derive(Clone, Copy, Debug, PartialEq, Eq, Structural)]
pub enum ChangeKind {
    Removed,
    Created,
    Other,
}

/// Whether a removal is waiting for its matching creation after the
/// notifications `events`, starting from a watcher with nothing pending.
pub open spec fn pending_after(events: Seq<ChangeKind>) -> bool
    decreases events.len(),
{
    if events.len() == 0 {
        false
    } else {
        match events.last() {
            ChangeKind::Removed => true,
            ChangeKind::Created => false,
            ChangeKind::Other => pending_after(events.drop_last()),
        }
    }
}

/// Whether the notification at `j` raises the reload signal.
pub open spec fn raises_at(events: Seq<ChangeKind>, j: int) -> bool {
    events[j] == ChangeKind::Created && pending_after(events.take(j))
}

/// A removal at `i` followed by a creation at `j`, with no creation between.
pub open spec fn removal_then_creation(events: Seq<ChangeKind>, i: int, j: int) -> bool {
    &&& 0 <= i < j < events.len()
    &&& events[i] == ChangeKind::Removed
    &&& events[j] == ChangeKind::Created
    &&& forall|k: int| i < k < j ==> events[k] != ChangeKind::Created
}

/// A removal at `i` with no creation after it in `events`.
pub open spec fn open_removal(events: Seq<ChangeKind>, i: int) -> bool {
    &&& 0 <= i < events.len()
    &&& events[i] == ChangeKind::Removed
    &&& forall|k: int| i < k < events.len() ==> events[k] != ChangeKind::Created
}

/// A removal is pending exactly when some removal has not been followed by
/// a creation yet.
pub proof fn lemma_pending_iff_open_removal(events: Seq<ChangeKind>)
    ensures
        pending_after(events) <==> exists|i: int| open_removal(events, i),
    decreases events.len(),
{
    if events.len() > 0 {
        let prefix = events.drop_last();
        let n = events.len() - 1;
        lemma_pending_iff_open_removal(prefix);
        match events.last() {
            ChangeKind::Removed => {
                assert(open_removal(events, n));
            },
            ChangeKind::Created => {
                assert forall|i: int| !open_removal(events, i) by {
                    if 0 <= i < n {
                        assert(events[n] == ChangeKind::Created);
                    }
                }
            },
            ChangeKind::Other => {
                if pending_after(prefix) {
                    let i = choose|i: int| open_removal(prefix, i);
                    assert forall|k: int| i < k < events.len() implies events[k]
                        != ChangeKind::Created by {
                        if k < n {
                            assert(events[k] == prefix[k]);
                        }
                    }
                    assert(open_removal(events, i));
                }
                if exists|i: int| open_removal(events, i) {
                    let i = choose|i: int| open_removal(events, i);
                    assert(open_removal(prefix, i));
                }
            },
        }
    }
}

/// The notification at `j` raises the signal exactly when it is a creation
/// that follows a removal with no creation in between.
pub proof fn lemma_raises_iff_removal_then_creation(events: Seq<ChangeKind>, j: int)
    requires
        0 <= j < events.len(),
    ensures
        raises_at(events, j) <==> exists|i: int| removal_then_creation(events, i, j),
{
    let prefix = events.take(j);
    lemma_pending_iff_open_removal(prefix);
    if raises_at(events, j) {
        let i = choose|i: int| open_removal(prefix, i);
        assert forall|k: int| i < k < j implies events[k] != ChangeKind::Created by {
            assert(events[k] == prefix[k]);
        }
        assert(removal_then_creation(events, i, j));
    }
    if exists|i: int| removal_then_creation(events, i, j) {
        let i = choose|i: int| removal_then_creation(events, i, j);
        assert(open_removal(prefix, i));
    }
}

/// The count of signals is the number of positions that raise one.
proof fn lemma_count_positive_iff_some_raise(events: Seq<ChangeKind>)
    ensures
        signal_count(events) > 0 <==> exists|j: int| 0 <= j < events.len() && raises_at(events, j),
    decreases events.len(),
{
    if events.len() > 0 {
        let prefix = events.drop_last();
        let n = events.len() - 1;
        lemma_count_positive_iff_some_raise(prefix);
        assert(events.take(n) == prefix);
        assert forall|j: int| 0 <= j < n implies raises_at(events, j) == raises_at(prefix, j) by {
            assert(events.take(j) == prefix.take(j));
        }
        if signal_count(events) > 0 && signal_count(prefix) == 0 {
            assert(raises_at(events, n));
        }
        if exists|j: int| 0 <= j < events.len() && raises_at(events, j) {
            let j = choose|j: int| 0 <= j < events.len() && raises_at(events, j);
            if j < n {
                assert(raises_at(prefix, j));
            }
        }
    }
}

/// Over any sequence of notifications the reload signal is raised at least
/// once exactly when the sequence holds a removal followed by a creation
/// with no creation in between.
pub proof fn lemma_signal_iff_removal_then_creation(events: Seq<ChangeKind>)
    ensures
        signal_count(events) > 0 <==> exists|i: int, j: int| removal_then_creation(events, i, j),
{
    lemma_count_positive_iff_some_raise(events);
    if signal_count(events) > 0 {
        let j = choose|j: int| 0 <= j < events.len() && raises_at(events, j);
        lemma_raises_iff_removal_then_creation(events, j);
        let i = choose|i: int| removal_then_creation(events, i, j);
        assert(removal_then_creation(events, i, j));
    }
    if exists|i: int, j: int| removal_then_creation(events, i, j) {
        let (i, j) = choose|i: int, j: int| removal_then_creation(events, i, j);
        lemma_raises_iff_removal_then_creation(events, j);
        assert(raises_at(events, j));
    }
}

/// How many times the signal is raised over `events`.
pub open spec fn signal_count(events: Seq<ChangeKind>) -> nat
    decreases events.len(),
{
    if events.len() == 0 {
        0
    } else {
        let prefix = events.drop_last();
        signal_count(prefix) + if events.last() == ChangeKind::Created && pending_after(prefix) {
            1nat
        } else {
            0nat
        }
    }
}

/// The debouncing half of the artifact watcher: it remembers whether a
/// removal of the artifact is waiting for its re-creation.
#[derive(Clone, Copy, Debug)]
pub struct ArtifactWatcher {
    pub pending_removal: bool,
}

impl ArtifactWatcher {
    /// A watcher that has seen nothing yet.
    pub fn new() -> (r: ArtifactWatcher)
        ensures
            r.pending_removal == pending_after(Seq::empty()),
            !r.pending_removal,
    {
        ArtifactWatcher { pending_removal: false }
    }

    /// Takes one notification; returns whether it raises the reload signal.
    pub fn observe(&mut self, kind: ChangeKind) -> (raised: bool)
        ensures
            raised == (kind == ChangeKind::Created && old(self).pending_removal),
            final(self).pending_removal == match kind {
                ChangeKind::Removed => true,
                ChangeKind::Created => false,
                ChangeKind::Other => old(self).pending_removal,
            },
    {
        match kind {
            ChangeKind::Removed => {
                self.pending_removal = true;
                false
            },
            ChangeKind::Created => {
                let raised = self.pending_removal;
                self.pending_removal = false;
                raised
            },
            ChangeKind::Other => false,
        }
    }
}

/// Feeds `events` to a fresh watcher and returns, for each notification,
/// whether it raised the reload signal.
pub fn signals_for(events: &Vec<ChangeKind>) -> (r: Vec<bool>)
    ensures
        r@.len() == events@.len(),
        forall|j: int| 0 <= j < events@.len() ==> r@[j] == raises_at(events@, j),
{
    let mut watcher = ArtifactWatcher::new();
    let mut r: Vec<bool> = Vec::new();
    let mut i: usize = 0;
    while i < events.len()
        invariant
            i <= events@.len(),
            r@.len() == i,
            watcher.pending_removal == pending_after(events@.take(i as int)),
            forall|j: int| 0 <= j < i ==> r@[j] == raises_at(events@, j),
        decreases events@.len() - i,
    {
        let kind = events[i];
        let raised = watcher.observe(kind);
        assert(events@.take(i + 1).drop_last() == events@.take(i as int));
        r.push(raised);
        i = i + 1;
    }
    r
}

/// Feeds `events` to a fresh watcher and counts the signals raised.
pub fn count_signals(events: &Vec<ChangeKind>) -> (n: usize)
    ensures
        n == signal_count(events@),
{
    let mut watcher = ArtifactWatcher::new();
    let mut n: usize = 0;
    let mut i: usize = 0;
    while i < events.len()
        invariant
            i <= events@.len(),
            n <= i,
            n == signal_count(events@.take(i as int)),
            watcher.pending_removal == pending_after(events@.take(i as int)),
        decreases events@.len() - i,
    {
        let raised = watcher.observe(events[i]);
        assert(events@.take(i + 1).drop_last() == events@.take(i as int));
        if raised {
            n = n + 1;
        }
        i = i + 1;
    }
    assert(events@.take(events@.len() as int) == events@);
    n
}

} // verus!
