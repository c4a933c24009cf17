use vstd::prelude::*;
use crate::command::{invocation, invocation_of};
use crate::config::{format_of, InputFormat};
use crate::error::{ErrorView, IssueError};
use crate::issue::{Issue, IssueView};
use crate::table::{issue_views, issues_of_csv, load_issues};

verus! {

/// Where a run stands.
#[derive(Debug)]
pub enum Phase {
    /// The input file is to be read.
    AwaitingInput,
    /// The issues are loaded; commands go out one per issue, in order.
    Dispatching,
    /// The run stopped on this error.
    Failed(IssueError),
}

/// What the caller is to do next.
#[derive(Debug)]
pub enum Action {
    /// Read the input file and hand its bytes to [`Session::input_read`], or the reason
    /// it could not be read to [`Session::input_unreadable`].
    ReadInput,
    /// Run this command line (program name first), wait for it, and hand its outcome to
    /// [`Session::command_exited`].
    Run(Vec<String>),
    /// Every issue was created.
    Finish,
    /// Report this error and stop.
    Fail(IssueError),
}

/// The mathematical value of a [`Phase`].
pub enum PhaseView {
    AwaitingInput,
    Dispatching,
    Failed(ErrorView),
}

/// The mathematical value of an [`Action`].
pub enum ActionView {
    ReadInput,
    Run(Seq<Seq<char>>),
    Finish,
    Fail(ErrorView),
}

/// The mathematical value of a [`Session`]: the loaded issues, the index of the next
/// one to dispatch, and the phase.
pub struct SessionView {
    pub issues: Seq<IssueView>,
    pub next: int,
    pub phase: PhaseView,
}

impl View for Phase {
    type V = PhaseView;

    open spec fn view(&self) -> PhaseView {
        match self {
            Phase::AwaitingInput => PhaseView::AwaitingInput,
            Phase::Dispatching => PhaseView::Dispatching,
            Phase::Failed(e) => PhaseView::Failed(e@),
        }
    }
}

impl View for Action {
    type V = ActionView;

    open spec fn view(&self) -> ActionView {
        match self {
            Action::ReadInput => ActionView::ReadInput,
            Action::Run(args) => ActionView::Run(args.deep_view()),
            Action::Finish => ActionView::Finish,
            Action::Fail(e) => ActionView::Fail(e@),
        }
    }
}

/// One run: reads one input file and creates one issue per row, stopping at the first
/// error.
pub struct Session {
    issues: Vec<Issue>,
    next: usize,
    phase: Phase,
}

impl View for Session {
    type V = SessionView;

    closed spec fn view(&self) -> SessionView {
        SessionView { issues: issue_views(self.issues@), next: self.next as int, phase: self.phase@ }
    }
}

/// A run in the given phase with nothing loaded.
pub open spec fn empty_session(phase: PhaseView) -> SessionView {
    SessionView { issues: Seq::empty(), next: 0, phase }
}

/// A run that is to read input of the extension `ext`.
pub open spec fn start_of(ext: Seq<char>) -> SessionView {
    match format_of(ext) {
        Some(_) => empty_session(PhaseView::AwaitingInput),
        None => empty_session(PhaseView::Failed(ErrorView::UnsupportedFormat { ext })),
    }
}

/// What a run does next.
pub open spec fn action_of(s: SessionView) -> ActionView {
    match s.phase {
        PhaseView::AwaitingInput => ActionView::ReadInput,
        PhaseView::Dispatching => if 0 <= s.next < s.issues.len() {
            ActionView::Run(invocation_of(s.issues[s.next]))
        } else {
            ActionView::Finish
        },
        PhaseView::Failed(e) => ActionView::Fail(e),
    }
}

/// A run after the input file was read as `data`: the loaded issues, or the load error.
/// A run that was not waiting for input is unchanged.
pub open spec fn after_input(s: SessionView, data: Seq<u8>) -> SessionView {
    match s.phase {
        PhaseView::AwaitingInput => match issues_of_csv(data) {
            Ok(issues) => SessionView { issues, next: 0, phase: PhaseView::Dispatching },
            Err(e) => SessionView { phase: PhaseView::Failed(e), ..s },
        },
        _ => s,
    }
}

/// A run after the input file could not be read.
pub open spec fn after_unreadable(s: SessionView, reason: Seq<char>) -> SessionView {
    match s.phase {
        PhaseView::AwaitingInput => SessionView {
            phase: PhaseView::Failed(ErrorView::FileError { reason }),
            ..s
        },
        _ => s,
    }
}

/// A run after the pending command exited: on to the next issue on success, stopped
/// with `DispatchFailure` for the issue's row otherwise. A run with no pending command
/// is unchanged.
pub open spec fn after_exit(s: SessionView, success: bool, detail: Seq<char>) -> SessionView {
    match s.phase {
        PhaseView::Dispatching => if 0 <= s.next < s.issues.len() {
            if success {
                SessionView { next: s.next + 1, ..s }
            } else {
                SessionView {
                    phase: PhaseView::Failed(
                        ErrorView::DispatchFailure { row: s.next + 1, detail },
                    ),
                    ..s
                }
            }
        } else {
            s
        },
        _ => s,
    }
}

/// A run after `k` commands in a row exited successfully.
pub open spec fn after_successes(s: SessionView, k: nat) -> SessionView
    decreases k,
{
    if k == 0 {
        s
    } else {
        after_exit(after_successes(s, (k - 1) as nat), true, Seq::empty())
    }
}

/// A run dispatching `issues` stands, after `k` successes, at issue `k`.
proof fn lemma_successes_advance(issues: Seq<IssueView>, k: nat)
    requires
        k <= issues.len(),
    ensures
        after_successes(SessionView { issues, next: 0, phase: PhaseView::Dispatching }, k)
            == (SessionView { issues, next: k as int, phase: PhaseView::Dispatching }),
    decreases k,
{
    if k > 0 {
        lemma_successes_advance(issues, (k - 1) as nat);
    }
}

/// Every row is dispatched exactly once, in input order: once CSV input has loaded, and
/// while each command succeeds, the run asks after `k` successes for the command of the
/// `k`-th issue, and finishes after as many successes as there are issues.
pub proof fn lemma_every_row_dispatched_in_order(data: Seq<u8>)
    requires
        issues_of_csv(data) is Ok,
    ensures
        ({
            let issues = issues_of_csv(data)->Ok_0;
            let s = after_input(start_of("csv"@), data);
            &&& forall|k: nat|
                k < issues.len() ==> #[trigger] action_of(after_successes(s, k)) == ActionView::Run(
                    invocation_of(issues[k as int]),
                )
            &&& action_of(after_successes(s, issues.len())) == ActionView::Finish
        }),
{
    let issues = issues_of_csv(data)->Ok_0;
    let s = after_input(start_of("csv"@), data);
    assert(s == SessionView { issues, next: 0, phase: PhaseView::Dispatching });
    assert forall|k: nat| k < issues.len() implies #[trigger] action_of(after_successes(s, k))
        == ActionView::Run(invocation_of(issues[k as int])) by {
        lemma_successes_advance(issues, k);
    }
    lemma_successes_advance(issues, issues.len());
}

/// A failed run stays failed: no later event changes it, so it never asks to read input
/// or to run a command.
pub proof fn lemma_failure_is_final(s: SessionView, data: Seq<u8>, reason: Seq<char>, success: bool)
    requires
        s.phase is Failed,
    ensures
        after_input(s, data) == s,
        after_unreadable(s, reason) == s,
        after_exit(s, success, reason) == s,
        action_of(s) == ActionView::Fail(s.phase->Failed_0),
{
}

/// An extension without a reader (YAML among them) fails the run with
/// `UnsupportedFormat` before any input is read: that is its first action, and input
/// handed to it changes nothing.
pub proof fn lemma_unsupported_format_reads_nothing(ext: Seq<char>, data: Seq<u8>)
    requires
        ext != "csv"@,
    ensures
        action_of(start_of(ext)) == ActionView::Fail(ErrorView::UnsupportedFormat { ext }),
        after_input(start_of(ext), data) == start_of(ext),
{
}

/// An input file that cannot be read fails the run with `FileError`, and no command is
/// ever run.
pub proof fn lemma_unreadable_input_runs_nothing(reason: Seq<char>)
    ensures
        action_of(after_unreadable(start_of("csv"@), reason)) == ActionView::Fail(
            ErrorView::FileError { reason },
        ),
{
}

/// Input that does not load fails the run with the load error before any command runs.
pub proof fn lemma_load_error_runs_nothing(data: Seq<u8>)
    requires
        issues_of_csv(data) is Err,
    ensures
        action_of(after_input(start_of("csv"@), data)) == ActionView::Fail(
            issues_of_csv(data)->Err_0,
        ),
{
}

impl Session {
    /// The well-formedness of a run: the next index never passes the issues.
    pub closed spec fn wf(&self) -> bool {
        self.next <= self.issues@.len()
    }

    /// A run for input of extension `ext`. An extension without a reader fails the run
    /// at once, before any input is read.
    pub fn start(ext: &str) -> (r: Session)
        ensures
            r.wf(),
            r@ == start_of(ext@),
    {
        let issues: Vec<Issue> = Vec::new();
        assert(issue_views(issues@) =~= Seq::<IssueView>::empty());
        match InputFormat::from_ext(ext) {
            Ok(_) => Session { issues, next: 0, phase: Phase::AwaitingInput },
            Err(e) => Session { issues, next: 0, phase: Phase::Failed(e) },
        }
    }

    /// What the caller is to do next.
    pub fn next_action(&self) -> (r: Action)
        requires
            self.wf(),
        ensures
            r@ == action_of(self@),
    {
        match &self.phase {
            Phase::AwaitingInput => Action::ReadInput,
            Phase::Dispatching => if self.next < self.issues.len() {
                Action::Run(invocation(&self.issues[self.next]))
            } else {
                Action::Finish
            },
            Phase::Failed(e) => Action::Fail(e.duplicate()),
        }
    }

    /// Hands the run the bytes of its input file.
    pub fn input_read(&mut self, data: &[u8])
        requires
            old(self).wf(),
        ensures
            final(self).wf(),
            final(self)@ == after_input(old(self)@, data@),
    {
        if let Phase::AwaitingInput = self.phase {
            match load_issues(data) {
                Ok(issues) => {
                    self.issues = issues;
                    self.next = 0;
                    self.phase = Phase::Dispatching;
                },
                Err(e) => {
                    self.phase = Phase::Failed(e);
                },
            }
        }
    }

    /// Tells the run that its input file could not be opened or read.
    pub fn input_unreadable(&mut self, reason: String)
        requires
            old(self).wf(),
        ensures
            final(self).wf(),
            final(self)@ == after_unreadable(old(self)@, reason@),
    {
        if let Phase::AwaitingInput = self.phase {
            self.phase = Phase::Failed(IssueError::FileError { reason });
        }
    }

    /// Hands the run the outcome of the command it asked for; `detail` is what the
    /// command reported on failure.
    pub fn command_exited(&mut self, success: bool, detail: String)
        requires
            old(self).wf(),
        ensures
            final(self).wf(),
            final(self)@ == after_exit(old(self)@, success, detail@),
    {
        if let Phase::Dispatching = self.phase {
            if self.next < self.issues.len() {
                if success {
                    self.next = self.next + 1;
                } else {
                    self.phase = Phase::Failed(
                        IssueError::DispatchFailure { row: self.next + 1, detail },
                    );
                }
            }
        }
    }
}

} // verus!
