//! The progress aggregator: a state machine over four counters, driven by
//! the event stream that discovery and the clone workers share, which tracks
//! outstanding work and decides when the run is finished.

use crate::project::ProjectAction;
use vstd::prelude::*;

verus! {

/// Whether an event resolves one previously announced unit of work.
pub open spec fn is_terminal(a: ProjectAction) -> bool {
    match a {
        ProjectAction::ToClone => false,
        ProjectAction::Cloned { .. } => true,
        ProjectAction::Failed { .. } => true,
    }
}

/// How many `ToClone` announcements a stream holds.
pub open spec fn toclone_count(s: Seq<ProjectAction>) -> nat
    decreases s.len(),
{
    if s.len() == 0 {
        0
    } else {
        toclone_count(s.drop_last()) + (match s.last() {
            ProjectAction::ToClone => 1nat,
            _ => 0nat,
        })
    }
}

/// How many `Cloned` resolutions a stream holds.
pub open spec fn cloned_count_of(s: Seq<ProjectAction>) -> nat
    decreases s.len(),
{
    if s.len() == 0 {
        0
    } else {
        cloned_count_of(s.drop_last()) + (match s.last() {
            ProjectAction::Cloned { .. } => 1nat,
            _ => 0nat,
        })
    }
}

/// How many `Failed` resolutions a stream holds.
pub open spec fn failed_count_of(s: Seq<ProjectAction>) -> nat
    decreases s.len(),
{
    if s.len() == 0 {
        0
    } else {
        failed_count_of(s.drop_last()) + (match s.last() {
            ProjectAction::Failed { .. } => 1nat,
            _ => 0nat,
        })
    }
}

/// How many resolutions, of either kind, a stream holds.
pub open spec fn terminal_count(s: Seq<ProjectAction>) -> nat {
    cloned_count_of(s) + failed_count_of(s)
}

/// The bytes reported by all `Cloned` events of a stream together.
pub open spec fn bytes_count_of(s: Seq<ProjectAction>) -> nat
    decreases s.len(),
{
    if s.len() == 0 {
        0
    } else {
        bytes_count_of(s.drop_last()) + (match s.last() {
            ProjectAction::Cloned { received_bytes, .. } => received_bytes as nat,
            _ => 0nat,
        })
    }
}

/// The ordering guarantee of the pipeline, seen from an aggregator that
/// already has `pending` unresolved units: a project's `ToClone` always
/// precedes its own resolution, so at every terminal event strictly more
/// units have been announced than resolved.
pub open spec fn well_formed_from(s: Seq<ProjectAction>, pending: nat) -> bool {
    forall|i: int|
        0 <= i < s.len() && is_terminal(#[trigger] s[i]) ==> terminal_count(s.take(i)) < pending
            + toclone_count(s.take(i))
}

/// The aggregator's counters. `todo_count` is the number of announced but
/// unresolved units, undefined until the first announcement; `total_count`,
/// `cloned_count` and `failed_count` tally the stream; `total_bytes` sums
/// the reported transfer sizes.
pub struct Progress {
    pub todo_count: Option<usize>,
    pub total_count: usize,
    pub cloned_count: usize,
    pub failed_count: usize,
    pub total_bytes: usize,
}

impl Progress {
    /// The outstanding units of work: zero while `todo_count` is still
    /// undefined.
    pub open spec fn pending(self) -> nat {
        match self.todo_count {
            Some(n) => n as nat,
            None => 0,
        }
    }

    /// Counter consistency: every announced unit is resolved or still
    /// outstanding.
    pub open spec fn consistent(self) -> bool {
        self.total_count == self.cloned_count + self.failed_count + self.pending()
    }

    /// The completion rule: work was announced and none of it is
    /// outstanding. A run that never saw an event is not complete.
    pub open spec fn complete(self) -> bool {
        self.todo_count matches Some(n) && n == 0
    }

    /// A fresh run: no counter has moved, nothing is outstanding.
    pub fn new() -> (p: Progress)
        ensures
            p.todo_count is None,
            p.total_count == 0,
            p.cloned_count == 0,
            p.failed_count == 0,
            p.total_bytes == 0,
            p.consistent(),
            !p.complete(),
    {
        Progress {
            todo_count: None,
            total_count: 0,
            cloned_count: 0,
            failed_count: 0,
            total_bytes: 0,
        }
    }

    /// Whether the completion rule has fired.
    pub fn is_complete(&self) -> (r: bool)
        ensures
            r == self.complete(),
    {
        match self.todo_count {
            Some(n) => n == 0,
            None => false,
        }
    }

    /// Processes one event: an announcement raises `todo_count` and
    /// `total_count`; a resolution lowers `todo_count` and tallies its kind,
    /// a `Cloned` also adding its bytes. The ordering guarantee of the
    /// pipeline (`well_formed_from`) is what entitles a caller to the
    /// precondition that a resolution never arrives with nothing
    /// outstanding.
    pub fn apply(&mut self, action: &ProjectAction)
        requires
            match *action {
                ProjectAction::ToClone => old(self).total_count < usize::MAX && old(self).pending()
                    < usize::MAX,
                ProjectAction::Cloned { received_bytes, .. } => (old(self).todo_count matches Some(
                    n,
                ) && n > 0) && old(self).cloned_count < usize::MAX && old(self).total_bytes
                    + received_bytes <= usize::MAX,
                ProjectAction::Failed { .. } => (old(self).todo_count matches Some(n) && n > 0)
                    && old(self).failed_count < usize::MAX,
            },
        ensures
            match *action {
                ProjectAction::ToClone => {
                    &&& final(self).todo_count == Some((old(self).pending() + 1) as usize)
                    &&& final(self).total_count == old(self).total_count + 1
                    &&& final(self).cloned_count == old(self).cloned_count
                    &&& final(self).failed_count == old(self).failed_count
                    &&& final(self).total_bytes == old(self).total_bytes
                },
                ProjectAction::Cloned { received_bytes, .. } => {
                    &&& final(self).todo_count == Some((old(self).pending() - 1) as usize)
                    &&& final(self).total_count == old(self).total_count
                    &&& final(self).cloned_count == old(self).cloned_count + 1
                    &&& final(self).failed_count == old(self).failed_count
                    &&& final(self).total_bytes == old(self).total_bytes + received_bytes
                },
                ProjectAction::Failed { .. } => {
                    &&& final(self).todo_count == Some((old(self).pending() - 1) as usize)
                    &&& final(self).total_count == old(self).total_count
                    &&& final(self).cloned_count == old(self).cloned_count
                    &&& final(self).failed_count == old(self).failed_count + 1
                    &&& final(self).total_bytes == old(self).total_bytes
                },
            },
            old(self).consistent() ==> final(self).consistent(),
    {
        match action {
            ProjectAction::ToClone => {
                self.todo_count = Some(
                    match self.todo_count {
                        Some(n) => n + 1,
                        None => 1,
                    },
                );
                self.total_count = self.total_count + 1;
            },
            ProjectAction::Cloned { received_bytes, .. } => {
                self.cloned_count = self.cloned_count + 1;
                self.total_bytes = self.total_bytes + *received_bytes;
                self.todo_count = match self.todo_count {
                    Some(n) => Some(n - 1),
                    None => None,
                };
            },
            ProjectAction::Failed { .. } => {
                self.failed_count = self.failed_count + 1;
                self.todo_count = match self.todo_count {
                    Some(n) => Some(n - 1),
                    None => None,
                };
            },
        }
    }

    /// Drains a whole event stream in order.
    ///
    /// Conservation law: afterwards `total_count` has grown by the stream's
    /// announcements and `cloned_count` and `failed_count` by its
    /// resolutions, so at completion `total_count == cloned_count +
    /// failed_count`.
    ///
    /// Isolation law: a stream that resolves every announced unit — however
    /// many of those resolutions are failures — always reaches the declared
    /// completion, and every `Cloned` event is counted regardless of the
    /// failures around it.
    pub fn apply_all(&mut self, actions: &Vec<ProjectAction>)
        requires
            well_formed_from(actions@, old(self).pending()),
            old(self).total_count + toclone_count(actions@) <= usize::MAX,
            old(self).pending() + toclone_count(actions@) <= usize::MAX,
            old(self).cloned_count + cloned_count_of(actions@) <= usize::MAX,
            old(self).failed_count + failed_count_of(actions@) <= usize::MAX,
            old(self).total_bytes + bytes_count_of(actions@) <= usize::MAX,
        ensures
            final(self).total_count == old(self).total_count + toclone_count(actions@),
            final(self).cloned_count == old(self).cloned_count + cloned_count_of(actions@),
            final(self).failed_count == old(self).failed_count + failed_count_of(actions@),
            final(self).total_bytes == old(self).total_bytes + bytes_count_of(actions@),
            final(self).pending() == old(self).pending() + toclone_count(actions@)
                - terminal_count(actions@),
            final(self).todo_count is Some <==> (old(self).todo_count is Some || toclone_count(
                actions@,
            ) > 0),
            old(self).consistent() ==> final(self).consistent(),
            (old(self).pending() + toclone_count(actions@) == terminal_count(actions@) && (old(
                self,
            ).todo_count is Some || toclone_count(actions@) > 0)) ==> final(self).complete(),
    {
        let ghost t = actions@;
        let ghost p0 = *self;
        let mut i: usize = 0;
        while i < actions.len()
            invariant
                i <= actions.len(),
                t == actions@,
                well_formed_from(t, p0.pending()),
                p0.total_count + toclone_count(t) <= usize::MAX,
                p0.pending() + toclone_count(t) <= usize::MAX,
                p0.cloned_count + cloned_count_of(t) <= usize::MAX,
                p0.failed_count + failed_count_of(t) <= usize::MAX,
                p0.total_bytes + bytes_count_of(t) <= usize::MAX,
                self.total_count == p0.total_count + toclone_count(t.take(i as int)),
                self.cloned_count == p0.cloned_count + cloned_count_of(t.take(i as int)),
                self.failed_count == p0.failed_count + failed_count_of(t.take(i as int)),
                self.total_bytes == p0.total_bytes + bytes_count_of(t.take(i as int)),
                self.pending() == p0.pending() + toclone_count(t.take(i as int)) - terminal_count(
                    t.take(i as int),
                ),
                self.todo_count is Some <==> (p0.todo_count is Some || toclone_count(
                    t.take(i as int),
                ) > 0),
            decreases actions.len() - i,
        {
            proof {
                lemma_counts_take_step(t, i as int);
                lemma_counts_take_le(t, i as int + 1);
                if is_terminal(t[i as int]) {
                    assert(terminal_count(t.take(i as int)) < p0.pending() + toclone_count(
                        t.take(i as int),
                    ));
                }
            }
            self.apply(&actions[i]);
            i = i + 1;
        }
        proof {
            assert(t.take(actions@.len() as int) =~= t);
        }
    }
}

/// Conservation law: when the completion rule fires on consistent counters,
/// every announced unit has resolved exactly once, so the total equals the
/// successes plus the failures.
pub proof fn lemma_conservation(p: Progress)
    requires
        p.consistent(),
        p.complete(),
    ensures
        p.total_count == p.cloned_count + p.failed_count,
{
}

/// One step of the stream counts: taking one more event adds exactly that
/// event's contribution.
proof fn lemma_counts_take_step(s: Seq<ProjectAction>, i: int)
    requires
        0 <= i < s.len(),
    ensures
        toclone_count(s.take(i + 1)) == toclone_count(s.take(i)) + (match s[i] {
            ProjectAction::ToClone => 1nat,
            _ => 0nat,
        }),
        cloned_count_of(s.take(i + 1)) == cloned_count_of(s.take(i)) + (match s[i] {
            ProjectAction::Cloned { .. } => 1nat,
            _ => 0nat,
        }),
        failed_count_of(s.take(i + 1)) == failed_count_of(s.take(i)) + (match s[i] {
            ProjectAction::Failed { .. } => 1nat,
            _ => 0nat,
        }),
        bytes_count_of(s.take(i + 1)) == bytes_count_of(s.take(i)) + (match s[i] {
            ProjectAction::Cloned { received_bytes, .. } => received_bytes as nat,
            _ => 0nat,
        }),
{
    assert(s.take(i + 1).drop_last() =~= s.take(i));
    assert(s.take(i + 1).last() == s[i]);
}

/// The stream counts only grow as more of the stream is taken.
proof fn lemma_counts_take_le(s: Seq<ProjectAction>, i: int)
    requires
        0 <= i <= s.len(),
    ensures
        toclone_count(s.take(i)) <= toclone_count(s),
        cloned_count_of(s.take(i)) <= cloned_count_of(s),
        failed_count_of(s.take(i)) <= failed_count_of(s),
        bytes_count_of(s.take(i)) <= bytes_count_of(s),
    decreases s.len() - i,
{
    if i == s.len() {
        assert(s.take(i) =~= s);
    } else {
        lemma_counts_take_step(s, i);
        lemma_counts_take_le(s, i + 1);
    }
}

} // verus!
