//! The confirmation workflow: zero, one or two warning dialogs stand between
//! an apply request and the renames, and the renames happen at most once, only
//! when every warning shown was answered with Continue.
use vstd::prelude::*;
use crate::check::CheckResult;
use crate::item::{Move, RenameItem, path_with_file_name};

verus! {

/// The two warnings a rename set can raise.
#[derive(Clone, Copy, Debug, PartialEq, Eq, Structural)]
pub enum Warning {
    /// Two or more candidates propose the same name.
    Names,
    /// Some candidates cannot be renamed.
    Permissions,
}

/// The user's answer to a warning dialog.
#[derive(Clone, Copy, Debug, PartialEq, Eq, Structural)]
pub enum Answer {
    Cancel,
    Continue,
}

/// Where the workflow stands.
#[derive(Clone, Copy, Debug, PartialEq, Eq, Structural)]
pub enum Confirmation {
    /// The open warnings await an answer; none was cancelled.
    Pending { names_open: bool, perms_open: bool },
    /// A warning was cancelled: nothing will be renamed. Warnings that are
    /// still open can only be closed.
    Aborted { names_open: bool, perms_open: bool },
    /// The renames were ordered.
    Committed,
}

/// What the surrounding program has to do after a transition.
#[derive(Clone, Copy, Debug, PartialEq, Eq, Structural)]
pub enum Action {
    Nothing,
    /// Show the given warning dialog.
    Show(Warning),
    /// Perform the renames of every candidate, close all dialogs and report.
    Commit,
    /// Disable the Continue button of the given, still open, dialog.
    DisableContinue(Warning),
}

/// The other warning.
pub open spec fn other(w: Warning) -> Warning {
    match w {
        Warning::Names => Warning::Permissions,
        Warning::Permissions => Warning::Names,
    }
}

/// Whether the dialog of `w` is open in `s`.
pub open spec fn is_open(s: Confirmation, w: Warning) -> bool {
    match s {
        Confirmation::Pending { names_open, perms_open }
        | Confirmation::Aborted { names_open, perms_open } => match w {
            Warning::Names => names_open,
            Warning::Permissions => perms_open,
        },
        Confirmation::Committed => false,
    }
}

/// The open flags of `s` with the dialog of `w` closed.
pub open spec fn closing(s: Confirmation, w: Warning) -> (bool, bool) {
    match w {
        Warning::Names => (false, is_open(s, Warning::Permissions)),
        Warning::Permissions => (is_open(s, Warning::Names), false),
    }
}

/// A state the workflow can be in: a pending workflow has an open dialog.
pub open spec fn well_formed(s: Confirmation) -> bool {
    s is Pending ==> is_open(s, Warning::Names) || is_open(s, Warning::Permissions)
}

/// The state entered once validation found `conflicts` and `problems`: with
/// neither, the renames are ordered at once; otherwise a dialog is shown for
/// each kind of problem found.
pub open spec fn start_spec(conflicts: bool, problems: bool) -> Confirmation {
    if !conflicts && !problems {
        Confirmation::Committed
    } else {
        Confirmation::Pending { names_open: conflicts, perms_open: problems }
    }
}

/// The transition on the answer `a` to the dialog of `w`, and its action.
/// Continue on a pending workflow commits when the other dialog is closed and
/// otherwise waits for it; Cancel aborts and disables the other dialog's
/// Continue. Answers to closed dialogs, and Continue on an aborted workflow,
/// change nothing.
pub open spec fn step(s: Confirmation, w: Warning, a: Answer) -> (Confirmation, Action) {
    let (n, p) = closing(s, w);
    if !is_open(s, w) {
        (s, Action::Nothing)
    } else {
        match s {
            Confirmation::Pending { .. } => match a {
                Answer::Cancel => (
                    Confirmation::Aborted { names_open: n, perms_open: p },
                    if is_open(s, other(w)) {
                        Action::DisableContinue(other(w))
                    } else {
                        Action::Nothing
                    },
                ),
                Answer::Continue => if is_open(s, other(w)) {
                    (Confirmation::Pending { names_open: n, perms_open: p }, Action::Nothing)
                } else {
                    (Confirmation::Committed, Action::Commit)
                },
            },
            Confirmation::Aborted { .. } => match a {
                Answer::Cancel => (Confirmation::Aborted { names_open: n, perms_open: p }, Action::Nothing),
                Answer::Continue => (s, Action::Nothing),
            },
            Confirmation::Committed => (s, Action::Nothing),
        }
    }
}

/// The state after answering `events` in order, starting from `s`.
pub open spec fn run(s: Confirmation, events: Seq<(Warning, Answer)>) -> Confirmation
    decreases events.len(),
{
    if events.len() == 0 {
        s
    } else {
        run(step(s, events[0].0, events[0].1).0, events.drop_first())
    }
}

/// How many times the renames are ordered while answering `events` from `s`.
pub open spec fn commits(s: Confirmation, events: Seq<(Warning, Answer)>) -> nat
    decreases events.len(),
{
    if events.len() == 0 {
        0
    } else {
        let (t, act) = step(s, events[0].0, events[0].1);
        (if act == Action::Commit { 1nat } else { 0nat }) + commits(t, events.drop_first())
    }
}

/// Once the renames were ordered or the workflow was aborted, no answer
/// orders them again; from any state they are ordered at most once.
pub proof fn lemma_commit_at_most_once(s: Confirmation, events: Seq<(Warning, Answer)>)
    ensures
        commits(s, events) <= 1,
        s is Committed || s is Aborted ==> commits(s, events) == 0,
        s is Aborted ==> run(s, events) is Aborted,
    decreases events.len(),
{
    if events.len() > 0 {
        let (t, act) = step(s, events[0].0, events[0].1);
        lemma_commit_at_most_once(t, events.drop_first());
    }
}

/// Cancelling an open warning of a pending workflow aborts it: whatever is
/// answered afterwards, in particular Continue on the other warning, nothing
/// is renamed.
pub proof fn lemma_cancel_aborts(s: Confirmation, w: Warning, events: Seq<(Warning, Answer)>)
    requires
        s is Pending,
        is_open(s, w),
    ensures
        commits(s, seq![(w, Answer::Cancel)] + events) == 0,
        run(s, seq![(w, Answer::Cancel)] + events) is Aborted,
{
    let all = seq![(w, Answer::Cancel)] + events;
    assert(all.drop_first() == events);
    let t = step(s, w, Answer::Cancel).0;
    lemma_commit_at_most_once(t, events);
}

/// With both warnings shown, answering Continue to both, in either order,
/// orders the renames exactly once, whatever is answered afterwards.
pub proof fn lemma_both_continued_commit_once(w: Warning, events: Seq<(Warning, Answer)>)
    ensures
        ({
            let s = start_spec(true, true);
            let answers = seq![(w, Answer::Continue), (other(w), Answer::Continue)] + events;
            &&& commits(s, answers) == 1
            &&& run(s, answers) is Committed
        }),
{
    let s = start_spec(true, true);
    let answers = seq![(w, Answer::Continue), (other(w), Answer::Continue)] + events;
    let t = step(s, w, Answer::Continue).0;
    assert(answers.drop_first() == seq![(other(w), Answer::Continue)] + events);
    assert(answers.drop_first().drop_first() == events);
    assert(step(s, w, Answer::Continue).1 == Action::Nothing);
    assert(step(t, other(w), Answer::Continue) == (Confirmation::Committed, Action::Commit));
    lemma_commit_at_most_once(Confirmation::Committed, events);
    lemma_committed_stays(events);
    assert(commits(t, answers.drop_first()) == 1 + commits(Confirmation::Committed, events));
    assert(commits(s, answers) == commits(t, answers.drop_first()));
    assert(run(t, answers.drop_first()) == run(Confirmation::Committed, events));
}

proof fn lemma_committed_stays(events: Seq<(Warning, Answer)>)
    ensures
        run(Confirmation::Committed, events) is Committed,
    decreases events.len(),
{
    if events.len() > 0 {
        lemma_committed_stays(events.drop_first());
    }
}

impl Confirmation {
    /// Enters the workflow for the result of validation. The returned actions
    /// are to be performed in order.
    pub fn start(check: &CheckResult) -> (r: (Confirmation, Vec<Action>))
        ensures
            r.0 == start_spec(check.conflicting_names@.len() > 0, check.permission_problems@.len() > 0),
            well_formed(r.0),
            r.0 is Committed ==> r.1@ == seq![Action::Commit],
            r.0 matches Confirmation::Pending { names_open, perms_open } ==> r.1@ == (
                if names_open { seq![Action::Show(Warning::Names)] } else { Seq::<Action>::empty() }
            ) + (
                if perms_open { seq![Action::Show(Warning::Permissions)] } else { Seq::<Action>::empty() }
            ),
    {
        let conflicts = check.conflicting_names.len() > 0;
        let problems = check.permission_problems.len() > 0;
        let mut actions: Vec<Action> = Vec::new();
        if !conflicts && !problems {
            actions.push(Action::Commit);
            assert(actions@ == seq![Action::Commit]);
            (Confirmation::Committed, actions)
        } else {
            if conflicts {
                actions.push(Action::Show(Warning::Names));
            }
            if problems {
                actions.push(Action::Show(Warning::Permissions));
            }
            let s = Confirmation::Pending { names_open: conflicts, perms_open: problems };
            proof {
                let a = if conflicts { seq![Action::Show(Warning::Names)] } else { Seq::<Action>::empty() };
                let b = if problems { seq![Action::Show(Warning::Permissions)] } else { Seq::<Action>::empty() };
                assert(actions@ == a + b);
            }
            (s, actions)
        }
    }

    /// Whether the dialog of `w` is open.
    pub fn is_open(&self, w: Warning) -> (r: bool)
        ensures
            r == is_open(*self, w),
    {
        match self {
            Confirmation::Pending { names_open, perms_open }
            | Confirmation::Aborted { names_open, perms_open } => match w {
                Warning::Names => *names_open,
                Warning::Permissions => *perms_open,
            },
            Confirmation::Committed => false,
        }
    }

    /// Takes the answer `a` to the dialog of `w`.
    pub fn answer(&mut self, w: Warning, a: Answer) -> (act: Action)
        requires
            well_formed(*old(self)),
        ensures
            (*final(self), act) == step(*old(self), w, a),
            well_formed(*final(self)),
    {
        let s = *self;
        if !s.is_open(w) {
            return Action::Nothing;
        }
        let other_w = match w {
            Warning::Names => Warning::Permissions,
            Warning::Permissions => Warning::Names,
        };
        let other_open = s.is_open(other_w);
        let (n, p) = match w {
            Warning::Names => (false, other_open),
            Warning::Permissions => (other_open, false),
        };
        match s {
            Confirmation::Pending { .. } => match a {
                Answer::Cancel => {
                    *self = Confirmation::Aborted { names_open: n, perms_open: p };
                    if other_open {
                        Action::DisableContinue(other_w)
                    } else {
                        Action::Nothing
                    }
                },
                Answer::Continue => {
                    if other_open {
                        *self = Confirmation::Pending { names_open: n, perms_open: p };
                        Action::Nothing
                    } else {
                        *self = Confirmation::Committed;
                        Action::Commit
                    }
                },
            },
            Confirmation::Aborted { .. } => match a {
                Answer::Cancel => {
                    *self = Confirmation::Aborted { names_open: n, perms_open: p };
                    Action::Nothing
                },
                Answer::Continue => Action::Nothing,
            },
            Confirmation::Committed => Action::Nothing,
        }
    }
}

/// The renames ordered by a commit, and the count reported afterwards.
#[derive(Clone, Debug)]
pub struct CommitPlan {
    /// One move per candidate, in candidate order.
    pub moves: Vec<Move>,
    /// The number of candidates less the number flagged as not renameable.
    pub reported: usize,
}

/// The renames of a commit: every candidate, flagged or not, moves to its
/// proposed name; the reported count leaves out those flagged as not
/// renameable, whatever the moves then do.
pub fn commit_plan(items: &[RenameItem], check: &CheckResult) -> (r: CommitPlan)
    requires
        check.permission_problems@.len() <= items@.len(),
    ensures
        r.moves@.len() == items@.len(),
        forall|i: int| 0 <= i < items@.len() ==> {
            &&& (#[trigger] r.moves@[i]).from@ == items@[i]@.location
            &&& r.moves@[i].to@ == path_with_file_name(items@[i]@.location, items@[i]@.renamed)
        },
        r.reported == items@.len() - check.permission_problems@.len(),
{
    let mut moves: Vec<Move> = Vec::new();
    let mut i: usize = 0;
    while i < items.len()
        invariant
            0 <= i <= items@.len(),
            moves@.len() == i,
            forall|k: int| 0 <= k < i ==> {
                &&& (#[trigger] moves@[k]).from@ == items@[k]@.location
                &&& moves@[k].to@ == path_with_file_name(items@[k]@.location, items@[k]@.renamed)
            },
        decreases items@.len() - i,
    {
        moves.push(items[i].rename());
        i = i + 1;
    }
    CommitPlan { moves, reported: items.len() - check.permission_problems.len() }
}

} // verus!
