use vstd::prelude::*;
use crate::error::CoreError;

verus! {

/// Progress of deleting the entries of a directory, then the directory.
#[derive(Clone, Copy, Debug, PartialEq, Eq, Structural)]
pub struct Removal {
    pub total: u64,
    pub removed: u64,
}

/// What the deletion of one thing came to.
#[derive(Clone, Debug, PartialEq, Eq)]
pub enum RemovalEvent {
    EntryRemoved,
    EntryFailed(String),
    DirectoryRemoved,
    DirectoryFailed(String),
}

/// What the observer of a deletion is told.
#[derive(Clone, Debug, PartialEq, Eq)]
pub enum RemovalAction {
    /// This many entries are gone.
    Progress(u64),
    /// The directory itself is gone.
    Finish,
    /// The deletion stops here.
    Abort(CoreError),
}

impl Removal {
    pub open spec fn wf(self) -> bool {
        self.removed <= self.total
    }

    /// The next state and the observer's notice for one event.
    pub open spec fn step(self, event: RemovalEvent) -> (Removal, RemovalAction) {
        match event {
            RemovalEvent::EntryRemoved => {
                let removed = if self.removed < self.total {
                    (self.removed + 1) as u64
                } else {
                    self.removed
                };
                (Removal { total: self.total, removed }, RemovalAction::Progress(removed))
            },
            RemovalEvent::EntryFailed(p) => (self, RemovalAction::Abort(CoreError::FilesystemOperationFailed(p))),
            RemovalEvent::DirectoryRemoved => (self, RemovalAction::Finish),
            RemovalEvent::DirectoryFailed(p) => (
                self,
                RemovalAction::Abort(CoreError::FilesystemOperationFailed(p)),
            ),
        }
    }

    /// The notices for a run of events, in order.
    pub open spec fn run(self, events: Seq<RemovalEvent>) -> Seq<RemovalAction>
        decreases events.len(),
    {
        if events.len() == 0 {
            Seq::empty()
        } else {
            let (next, action) = self.step(events[0]);
            seq![action] + next.run(events.drop_first())
        }
    }

    /// The start of deleting a directory of `total` entries.
    pub fn new(total: u64) -> (r: Removal)
        ensures
            r == fresh_removal(total),
            r.wf(),
    {
        Removal { total, removed: 0 }
    }

    /// Takes in one event and says what the observer is told.
    pub fn advance(&mut self, event: RemovalEvent) -> (r: RemovalAction)
        requires
            old(self).wf(),
        ensures
            final(self).wf(),
            (*final(self), r) == old(self).step(event),
    {
        match event {
            RemovalEvent::EntryRemoved => {
                if self.removed < self.total {
                    self.removed = self.removed + 1;
                }
                RemovalAction::Progress(self.removed)
            },
            RemovalEvent::EntryFailed(p) => RemovalAction::Abort(CoreError::FilesystemOperationFailed(p)),
            RemovalEvent::DirectoryRemoved => RemovalAction::Finish,
            RemovalEvent::DirectoryFailed(p) => RemovalAction::Abort(CoreError::FilesystemOperationFailed(p)),
        }
    }
}

/// The state before anything of a directory of `total` entries is removed.
pub open spec fn fresh_removal(total: u64) -> Removal {
    Removal { total, removed: 0 }
}

/// `n` entries removed, then the directory.
pub open spec fn clean_removal(n: nat) -> Seq<RemovalEvent> {
    Seq::new(n, |i: int| RemovalEvent::EntryRemoved).push(RemovalEvent::DirectoryRemoved)
}

proof fn lemma_run_from(s: Removal, m: nat)
    requires
        s.removed + m <= s.total,
    ensures
        s.run(clean_removal(m)).len() == m + 1,
        forall|i: int| 0 <= i < m ==> s.run(clean_removal(m))[i] == RemovalAction::Progress((s.removed + i + 1) as u64),
        s.run(clean_removal(m))[m as int] == RemovalAction::Finish,
    decreases m,
{
    let ev = clean_removal(m);
    if m == 0 {
        assert(ev.drop_first() =~= Seq::<RemovalEvent>::empty());
        assert(s.run(ev.drop_first()) =~= Seq::<RemovalAction>::empty());
    } else {
        let next = Removal { total: s.total, removed: (s.removed + 1) as u64 };
        assert(ev[0] == RemovalEvent::EntryRemoved);
        assert(ev.drop_first() =~= clean_removal((m - 1) as nat));
        lemma_run_from(next, (m - 1) as nat);
        let rest = next.run(clean_removal((m - 1) as nat));
        assert(s.run(ev) == seq![RemovalAction::Progress(next.removed)] + rest);
        assert forall|i: int| 0 <= i < m implies s.run(ev)[i] == RemovalAction::Progress((s.removed + i + 1) as u64) by {
            if i > 0 {
                assert(s.run(ev)[i] == rest[i - 1]);
            }
        }
    }
}

/// Deleting a directory of `n` entries, where each removal succeeds, tells
/// the observer exactly `n` progress counts, one per entry and in order
/// `1..=n`, and then that the deletion is finished.
pub proof fn lemma_one_update_per_entry(n: u64)
    ensures
        fresh_removal(n).run(clean_removal(n as nat)).len() == n + 1,
        forall|i: int| 0 <= i < n ==> fresh_removal(n).run(clean_removal(n as nat))[i]
            == RemovalAction::Progress((i + 1) as u64),
        fresh_removal(n).run(clean_removal(n as nat))[n as int] == RemovalAction::Finish,
{
    lemma_run_from(fresh_removal(n), n as nat);
}

} // verus!
