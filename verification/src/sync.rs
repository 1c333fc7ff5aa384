//! Bringing the components index up to date from a list of mirrors.
//!
//! The mirrors are tried in the order in which they are configured. A failed
//! mirror is followed by the next one; the first mirror that succeeds ends
//! the work, and so does the failure of the last one. Every failure is kept.
//! The attempts themselves are made outside: [`MirrorSync`] says which mirror
//! is to be tried and takes what the attempt gave.

use vstd::prelude::*;
use vstd::string::*;
use crate::error::SyncError;

verus! {

/// What an attempt gave, as contracts see it: the lines of the change log,
/// or the message of the failure.
pub open spec fn attempt_view(outcome: Result<Vec<String>, SyncError>) -> Result<
    Seq<Seq<char>>,
    Seq<char>,
> {
    match outcome {
        Ok(changes) => Ok(changes.deep_view()),
        Err(e) => Err(e@),
    }
}

// ----------------------------------------------------------------------
// The summary of a change log
// ----------------------------------------------------------------------

/// A line of a change log as an item of a list.
pub open spec fn bullet(line: Seq<char>) -> Seq<char> {
    "- "@ + line
}

/// The lines of a change log as a list, one item on each line.
pub open spec fn summary_text(lines: Seq<Seq<char>>) -> Seq<char>
    decreases lines.len(),
{
    if lines.len() == 0 {
        Seq::empty()
    } else if lines.len() == 1 {
        bullet(lines[0])
    } else {
        summary_text(lines.drop_last()) + "\n"@ + bullet(lines.last())
    }
}

/// The summary of a change log: none for an empty one.
pub open spec fn summary_spec(lines: Seq<Seq<char>>) -> Option<Seq<char>> {
    if lines.len() == 0 {
        None
    } else {
        Some(summary_text(lines))
    }
}

/// The summary of a change log, to be shown to the user.
pub fn summary(changes: &Vec<String>) -> (text: Option<String>)
    ensures
        text.deep_view() == summary_spec(changes.deep_view()),
{
    if changes.len() == 0 {
        return None;
    }
    let ghost lines = changes.deep_view();
    let mut text = String::from_str("- ");
    text.append(changes[0].as_str());
    assert(lines.take(1) =~= seq![lines[0]]);
    let mut i: usize = 1;
    while i < changes.len()
        invariant
            lines == changes.deep_view(),
            1 <= i <= changes.len(),
            text@ == summary_text(lines.take(i as int)),
        decreases changes.len() - i,
    {
        text.append("\n");
        text.append("- ");
        text.append(changes[i].as_str());
        proof {
            let upto = lines.take(i as int + 1);
            assert(upto.drop_last() =~= lines.take(i as int));
            assert(upto.last() == lines[i as int]);
            assert(text@ =~= summary_text(upto.drop_last()) + "\n"@ + bullet(upto.last()));
        }
        i += 1;
    }
    assert(lines.take(i as int) =~= lines);
    Some(text)
}

// ----------------------------------------------------------------------
// The mirrors, one attempt at a time
// ----------------------------------------------------------------------

/// What a [`MirrorSync`] stands for. The mirrors before the one with index
/// `failures.len()` have failed, with the messages in `failures`; `changes`
/// is what that mirror gave, once it has succeeded.
pub struct MirrorSyncView {
    pub mirrors: Seq<Seq<char>>,
    pub failures: Seq<Seq<char>>,
    pub changes: Option<Seq<Seq<char>>>,
}

impl MirrorSyncView {
    /// No more mirrors have failed than there are, and a mirror that
    /// succeeded is one of them.
    pub open spec fn wf(self) -> bool {
        &&& self.failures.len() <= self.mirrors.len()
        &&& self.changes is Some ==> self.failures.len() < self.mirrors.len()
    }

    /// The work before any attempt.
    pub open spec fn begin(mirrors: Seq<Seq<char>>) -> MirrorSyncView {
        MirrorSyncView { mirrors, failures: Seq::empty(), changes: None }
    }

    /// The mirror that is to be tried: the first that has not been tried,
    /// as long as none has succeeded.
    pub open spec fn pending(self) -> Option<Seq<char>> {
        if self.changes is None && self.failures.len() < self.mirrors.len() {
            Some(self.mirrors[self.failures.len() as int])
        } else {
            None
        }
    }

    /// The mirror that succeeded.
    pub open spec fn source(self) -> Option<Seq<char>> {
        if self.changes is Some {
            Some(self.mirrors[self.failures.len() as int])
        } else {
            None
        }
    }

    /// How many attempts are left at most.
    pub open spec fn remaining(self) -> nat {
        if self.changes is None && self.failures.len() < self.mirrors.len() {
            (self.mirrors.len() - self.failures.len()) as nat
        } else {
            0
        }
    }

    /// The work after the pending mirror gave `outcome`: its success ends
    /// the work, its failure is kept and the next mirror is to be tried.
    /// When no mirror is pending, nothing changes.
    pub open spec fn record(self, outcome: Result<Seq<Seq<char>>, Seq<char>>) -> MirrorSyncView {
        if self.pending() is None {
            self
        } else {
            match outcome {
                Ok(changes) => MirrorSyncView { changes: Some(changes), ..self },
                Err(e) => MirrorSyncView { failures: self.failures.push(e), ..self },
            }
        }
    }

    /// The work after the outcomes of one attempt after the other.
    pub open spec fn record_all(
        self,
        outcomes: Seq<Result<Seq<Seq<char>>, Seq<char>>>,
    ) -> MirrorSyncView
        decreases outcomes.len(),
    {
        if outcomes.len() == 0 {
            self
        } else {
            self.record(outcomes[0]).record_all(outcomes.drop_first())
        }
    }
}

/// A mirror that failed, and the failure.
#[derive(Debug, PartialEq, Eq)]
pub struct SyncFailure {
    pub mirror: String,
    pub error: SyncError,
}

/// What a [`SyncFailure`] stands for.
pub struct SyncFailureView {
    pub mirror: Seq<char>,
    pub error: Seq<char>,
}

impl View for SyncFailure {
    type V = SyncFailureView;

    open spec fn view(&self) -> SyncFailureView {
        SyncFailureView { mirror: self.mirror@, error: self.error@ }
    }
}

impl DeepView for SyncFailure {
    type V = SyncFailureView;

    open spec fn deep_view(&self) -> SyncFailureView {
        self@
    }
}

/// A copy of the lines of a change log.
pub(crate) fn copy_lines(lines: &Vec<String>) -> (copy: Vec<String>)
    ensures
        copy.deep_view() == lines.deep_view(),
{
    let mut copy: Vec<String> = Vec::new();
    let mut i: usize = 0;
    while i < lines.len()
        invariant
            i <= lines.len(),
            copy@.len() == i,
            forall|j: int| 0 <= j < i ==> copy@[j]@ == lines@[j]@,
        decreases lines.len() - i,
    {
        copy.push(lines[i].clone());
        i += 1;
    }
    assert(copy.deep_view() =~= lines.deep_view());
    copy
}

/// The work of bringing the index up to date, in progress.
pub struct MirrorSync {
    mirrors: Vec<String>,
    failures: Vec<SyncError>,
    changes: Option<Vec<String>>,
}

impl View for MirrorSync {
    type V = MirrorSyncView;

    closed spec fn view(&self) -> MirrorSyncView {
        MirrorSyncView {
            mirrors: self.mirrors.deep_view(),
            failures: self.failures.deep_view(),
            changes: self.changes.deep_view(),
        }
    }
}

impl MirrorSync {
    /// What holds of every value of this type.
    #[verifier::type_invariant]
    pub open spec fn inv(self) -> bool {
        self@.wf()
    }

    /// Begins the work with the mirrors in the order of their priority.
    pub fn begin(mirrors: Vec<String>) -> (sync: MirrorSync)
        ensures
            sync@ == MirrorSyncView::begin(mirrors.deep_view()),
            sync@.wf(),
    {
        let sync = MirrorSync { mirrors, failures: Vec::new(), changes: None };
        assert(sync.failures.deep_view() =~= Seq::empty());
        sync
    }

    /// The mirror that is to be tried, if one is.
    pub fn pending(&self) -> (mirror: Option<String>)
        ensures
            mirror.deep_view() == self@.pending(),
            self@.wf(),
    {
        proof {
            use_type_invariant(self);
        }
        if self.changes.is_none() && self.failures.len() < self.mirrors.len() {
            Some(self.mirrors[self.failures.len()].clone())
        } else {
            None
        }
    }

    /// The mirror that succeeded, if one did.
    pub fn source(&self) -> (mirror: Option<String>)
        ensures
            mirror.deep_view() == self@.source(),
            self@.wf(),
    {
        proof {
            use_type_invariant(self);
        }
        if self.changes.is_some() {
            Some(self.mirrors[self.failures.len()].clone())
        } else {
            None
        }
    }

    /// What the mirror that succeeded gave, if one did.
    pub fn changes(&self) -> (changes: Option<Vec<String>>)
        ensures
            changes.deep_view() == self@.changes,
    {
        match &self.changes {
            Some(lines) => Some(copy_lines(lines)),
            None => None,
        }
    }

    /// The mirrors that failed, in the order in which they were tried, each
    /// with its failure.
    pub fn failures(&self) -> (failures: Vec<SyncFailure>)
        ensures
            self@.wf(),
            failures.deep_view().len() == self@.failures.len(),
            forall|i: int|
                0 <= i < self@.failures.len() ==> #[trigger] failures.deep_view()[i] == (
                SyncFailureView { mirror: self@.mirrors[i], error: self@.failures[i] }),
    {
        proof {
            use_type_invariant(self);
        }
        let mut failures: Vec<SyncFailure> = Vec::new();
        let mut i: usize = 0;
        while i < self.failures.len()
            invariant
                i <= self.failures.len() <= self.mirrors.len(),
                failures@.len() == i,
                forall|j: int|
                    0 <= j < i ==> #[trigger] failures@[j]@ == (SyncFailureView {
                        mirror: self.mirrors@[j]@,
                        error: self.failures@[j]@,
                    }),
            decreases self.failures.len() - i,
        {
            failures.push(
                SyncFailure { mirror: self.mirrors[i].clone(), error: self.failures[i].clone() },
            );
            i += 1;
        }
        failures
    }

    /// Takes what the attempt on the pending mirror gave. When no mirror is
    /// pending, nothing changes.
    pub fn record(self, outcome: Result<Vec<String>, SyncError>) -> (then: MirrorSync)
        ensures
            then@ == self@.record(attempt_view(outcome)),
            self@.wf(),
            then@.wf(),
    {
        proof {
            use_type_invariant(&self);
        }
        if self.changes.is_none() && self.failures.len() < self.mirrors.len() {
            let MirrorSync { mirrors, mut failures, changes: _ } = self;
            match outcome {
                Ok(changes) => MirrorSync { mirrors, failures, changes: Some(changes) },
                Err(e) => {
                    failures.push(e);
                    assert(failures.deep_view() =~= self@.failures.push(e@));
                    MirrorSync { mirrors, failures, changes: None }
                },
            }
        } else {
            self
        }
    }
}

// ----------------------------------------------------------------------
// What holds of every run
// ----------------------------------------------------------------------

/// Once no mirror is pending, further outcomes change nothing.
pub proof fn lemma_finished_ignores(
    sync: MirrorSyncView,
    outcomes: Seq<Result<Seq<Seq<char>>, Seq<char>>>,
)
    requires
        sync.pending() is None,
    ensures
        sync.record_all(outcomes) == sync,
    decreases outcomes.len(),
{
    if outcomes.len() > 0 {
        lemma_finished_ignores(sync, outcomes.drop_first());
    }
}

/// The first success wins. When the first `k` outcomes are failures and the
/// next one is a success, and as many mirrors are left to try, then the
/// mirror with that place succeeded and gave the changes of that outcome,
/// the `k` failures were added to those kept before, in their order, and
/// whatever came after the success changed nothing.
pub proof fn lemma_first_success_wins(
    sync: MirrorSyncView,
    outcomes: Seq<Result<Seq<Seq<char>>, Seq<char>>>,
    k: int,
)
    requires
        sync.wf(),
        sync.changes is None,
        0 <= k < outcomes.len(),
        sync.failures.len() + k < sync.mirrors.len(),
        outcomes[k] is Ok,
        forall|j: int| 0 <= j < k ==> (#[trigger] outcomes[j]) is Err,
    ensures
        ({
            let end = sync.record_all(outcomes);
            &&& end.wf()
            &&& end.mirrors == sync.mirrors
            &&& end.source() == Some(sync.mirrors[sync.failures.len() + k])
            &&& end.changes == Some(outcomes[k]->Ok_0)
            &&& end.failures.len() == sync.failures.len() + k
            &&& forall|j: int|
                0 <= j < sync.failures.len() ==> #[trigger] end.failures[j] == sync.failures[j]
            &&& forall|j: int|
                0 <= j < k ==> end.failures[sync.failures.len() + j] == (
                #[trigger] outcomes[j])->Err_0
        }),
    decreases outcomes.len(),
{
    let first = sync.record(outcomes[0]);
    let rest = outcomes.drop_first();
    if k == 0 {
        lemma_finished_ignores(first, rest);
    } else {
        assert(outcomes[0] is Err);
        assert(rest[k - 1] == outcomes[k]);
        assert forall|j: int| 0 <= j < k - 1 implies (#[trigger] rest[j]) is Err by {
            assert(rest[j] == outcomes[j + 1]);
        }
        lemma_first_success_wins(first, rest, k - 1);
        let end = sync.record_all(outcomes);
        assert forall|j: int| 0 <= j < k implies end.failures[sync.failures.len() + j] == (
        #[trigger] outcomes[j])->Err_0 by {
            if j > 0 {
                assert(rest[j - 1] == outcomes[j]);
            }
        }
    }
}

/// Every failure is kept. When every mirror that is left to try fails, no
/// mirror has succeeded at the end, none is pending, and the failures of all
/// of them were added to those kept before, in their order.
pub proof fn lemma_all_failures_kept(
    sync: MirrorSyncView,
    outcomes: Seq<Result<Seq<Seq<char>>, Seq<char>>>,
)
    requires
        sync.wf(),
        sync.changes is None,
        outcomes.len() == sync.mirrors.len() - sync.failures.len(),
        forall|j: int| 0 <= j < outcomes.len() ==> (#[trigger] outcomes[j]) is Err,
    ensures
        ({
            let end = sync.record_all(outcomes);
            &&& end.wf()
            &&& end.mirrors == sync.mirrors
            &&& end.source() is None
            &&& end.pending() is None
            &&& end.failures.len() == sync.mirrors.len()
            &&& forall|j: int|
                0 <= j < sync.failures.len() ==> #[trigger] end.failures[j] == sync.failures[j]
            &&& forall|j: int|
                0 <= j < outcomes.len() ==> end.failures[sync.failures.len() + j] == (
                #[trigger] outcomes[j])->Err_0
        }),
    decreases outcomes.len(),
{
    if outcomes.len() > 0 {
        let first = sync.record(outcomes[0]);
        let rest = outcomes.drop_first();
        assert(outcomes[0] is Err);
        assert forall|j: int| 0 <= j < rest.len() implies (#[trigger] rest[j]) is Err by {
            assert(rest[j] == outcomes[j + 1]);
        }
        lemma_all_failures_kept(first, rest);
        let end = sync.record_all(outcomes);
        assert forall|j: int| 0 <= j < outcomes.len() implies end.failures[sync.failures.len()
            + j] == (#[trigger] outcomes[j])->Err_0 by {
            if j > 0 {
                assert(rest[j - 1] == outcomes[j]);
            }
        }
    }
}

} // verus!
