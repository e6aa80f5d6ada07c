//! One request in progress: which target is being worked on, what the host
//! has been asked, and what has come of each target so far.
//!
//! A session never acts. It names the next thing for the host to do
//! (`request`), takes what came of it (`advance`), and so works through the
//! targets in their order: the first attempts, then the grace period, then
//! the rechecks with the timeout signal. In print-only mode it looks every
//! target up and lists what it finds. Whatever becomes of one target, the
//! next one is taken up; the judgment comes at the end.

use vstd::prelude::*;
use vstd::string::*;
use crate::attempt::{harmful, lemma_attempt_progress, protected_pid, Attempt, AttemptEnd};
use crate::error::{ErrorClass, KillError, KillErrorKind, KillFailure, SnapshotError};
use crate::host::{answers, entries_of, HostReply, HostRequest, ProcessEntry};
use crate::number::{parse_pid, pid_of};
use crate::options::{
    chosen_signal, first_violation, validate_options, valid_options, KillOptions, KillOptionsView,
};
use crate::resolve::{resolve_name, resolved};
use crate::signal::{method_of_signal, signal_to_windows_method, WindowsKillMethod};
use crate::text::{all_digits, is_all_digits};

verus! {

/// The pass that a session is in.
#[derive(Debug, Clone, Copy, PartialEq, Eq, Structural)]
pub enum Phase {
    /// Print-only: identifiers are looked up and listed, nothing is sent.
    Printing,
    /// The first attempt on every target, with the signal asked for.
    Initial,
    /// After the grace period: the recheck of every target whose first
    /// attempt succeeded, with the timeout signal.
    Escalating,
}

/// What a session is waiting for.
#[derive(Debug, Clone, Copy, PartialEq, Eq, Structural)]
pub enum Step {
    /// Nothing is pending and the next target has not been looked at yet.
    /// No session is ever handed out in this step.
    Idle,
    /// A process snapshot, to resolve the current target's name.
    Snapshot,
    /// The reply to the running attempt's request.
    Attempt,
    /// The end of the grace period.
    Sleep,
    /// Nothing: the request is complete.
    Finished,
}

/// Why a target counts as failed.
#[derive(Debug, Clone, Copy, PartialEq, Eq, Structural)]
pub enum TargetFailure {
    /// A numeric target that is too large for a process identifier.
    InvalidPid,
    /// A numeric target whose process was not terminated, for this reason.
    Kill(KillFailure),
    /// A name that could not be resolved because the snapshot failed.
    Snapshot(SnapshotError),
    /// A name that no running process has.
    NoMatch,
    /// A name with at least one process that was not terminated; the
    /// attempts on its processes tell which, and why.
    Members,
}

impl TargetFailure {
    /// The class that a target's failure belongs to.
    pub open spec fn class_of(self) -> ErrorClass {
        match self {
            TargetFailure::InvalidPid => ErrorClass::ParseError,
            TargetFailure::Kill(reason) => reason.class_of(),
            TargetFailure::Snapshot(_) => ErrorClass::EnumerationFailure,
            TargetFailure::NoMatch => ErrorClass::NotFound,
            TargetFailure::Members => ErrorClass::PartialFailure,
        }
    }

    /// The class that a target's failure belongs to.
    pub fn class(self) -> (r: ErrorClass)
        ensures
            r == self.class_of(),
    {
        match self {
            TargetFailure::InvalidPid => ErrorClass::ParseError,
            TargetFailure::Kill(reason) => reason.class(),
            TargetFailure::Snapshot(_) => ErrorClass::EnumerationFailure,
            TargetFailure::NoMatch => ErrorClass::NotFound,
            TargetFailure::Members => ErrorClass::PartialFailure,
        }
    }
}

/// What came of one target.
#[derive(Debug, Clone, Copy, PartialEq, Eq, Structural)]
pub enum TargetStatus {
    /// Every process of the target took the signal.
    Terminated,
    /// Print-only: the target was looked up and listed.
    Listed,
    /// The target failed.
    Failed(TargetFailure),
}

/// The end of one attempt: the position of its target among the targets, the
/// process, and how the attempt ended.
#[derive(Debug, Clone, Copy, PartialEq, Eq, Structural)]
pub struct AttemptRecord {
    pub target: usize,
    pub pid: u32,
    pub end: AttemptEnd,
}

/// One line of print-only output.
#[derive(Debug, Clone, Copy, PartialEq, Eq, Structural)]
pub enum PrintItem {
    /// The numeric target at this position, as it was written.
    Target(usize),
    /// A process identifier that a name resolved to.
    Pid(u32),
}

/// The mathematical content of a session.
pub ghost struct SessionView {
    pub options: KillOptionsView,
    pub method: WindowsKillMethod,
    pub timeout_method: WindowsKillMethod,
    pub phase: Phase,
    pub step: Step,
    pub cursor: int,
    pub pids: Seq<u32>,
    pub member: int,
    pub attempt: Attempt,
    pub member_failed: bool,
    pub statuses: Seq<TargetStatus>,
    pub attempts: Seq<AttemptRecord>,
    pub escalations: Seq<AttemptRecord>,
    pub printed: Seq<PrintItem>,
    pub verdict: Option<KillErrorKind>,
}

/// True when no target failed.
pub open spec fn none_failed(statuses: Seq<TargetStatus>) -> bool {
    forall|i: int| 0 <= i < statuses.len() ==> !((#[trigger] statuses[i]) is Failed)
}

/// True when every target was terminated.
pub open spec fn all_terminated(statuses: Seq<TargetStatus>) -> bool {
    forall|i: int| 0 <= i < statuses.len() ==> (#[trigger] statuses[i]) is Terminated
}

/// True when at least one target was terminated.
pub open spec fn any_terminated(statuses: Seq<TargetStatus>) -> bool {
    exists|i: int| 0 <= i < statuses.len() && (#[trigger] statuses[i]) is Terminated
}

/// The overall judgment: success only if no target failed.
pub open spec fn report_verdict(statuses: Seq<TargetStatus>) -> Option<KillErrorKind> {
    if none_failed(statuses) {
        None
    } else {
        Some(KillErrorKind::PartialFailure)
    }
}

/// The technique that a request asks for: that of its signal, and forced
/// termination where it names none.
pub open spec fn method_of_request(o: KillOptionsView) -> WindowsKillMethod {
    match chosen_signal(o) {
        Some(s) => match method_of_signal(s) {
            Some(m) => m,
            None => WindowsKillMethod::ForceTerminate,
        },
        None => WindowsKillMethod::ForceTerminate,
    }
}

/// The technique of a request's timeout signal.
pub open spec fn timeout_method_of_request(o: KillOptionsView) -> WindowsKillMethod {
    match o.timeout_signal {
        Some(s) => match method_of_signal(s) {
            Some(m) => m,
            None => WindowsKillMethod::ForceTerminate,
        },
        None => WindowsKillMethod::ForceTerminate,
    }
}

/// The print-only lines for the identifiers that a name resolved to.
pub open spec fn pid_items(pids: Seq<u32>) -> Seq<PrintItem> {
    Seq::new(pids.len(), |i: int| PrintItem::Pid(pids[i]))
}

/// The status of a target once the last attempt on its processes is over:
/// terminated if no attempt failed; else, for a numeric target, the reason of
/// its one attempt, and for a name, that some of its processes failed.
pub open spec fn status_after(numeric: bool, failed: bool, end: AttemptEnd) -> TargetStatus {
    if !failed {
        TargetStatus::Terminated
    } else if numeric {
        match end {
            AttemptEnd::Failed(reason) => TargetStatus::Failed(TargetFailure::Kill(reason)),
            _ => TargetStatus::Failed(TargetFailure::Members),
        }
    } else {
        TargetStatus::Failed(TargetFailure::Members)
    }
}

impl SessionView {
    /// The number of targets.
    pub open spec fn count(self) -> int {
        self.options.targets.len() as int
    }

    /// The target being worked on.
    pub open spec fn target(self) -> Seq<char> {
        self.options.targets[self.cursor]
    }

    /// The technique of the current pass.
    pub open spec fn active_method(self) -> WindowsKillMethod {
        if self.phase is Escalating {
            self.timeout_method
        } else {
            self.method
        }
    }

    /// What the host is to do next.
    pub open spec fn pending(self) -> HostRequest {
        match self.step {
            Step::Idle => HostRequest::Finished,
            Step::Snapshot => HostRequest::Snapshot,
            Step::Attempt => self.attempt.pending(),
            Step::Sleep => match self.options.timeout_ms {
                Some(ms) => HostRequest::Sleep(ms),
                None => HostRequest::Sleep(0),
            },
            Step::Finished => HostRequest::Finished,
        }
    }

    /// The session, complete with the judgment on its targets.
    pub open spec fn finished(self) -> SessionView {
        SessionView { step: Step::Finished, verdict: report_verdict(self.statuses), ..self }
    }

    /// The session with the current target passed over.
    pub open spec fn skip(self) -> SessionView {
        SessionView { step: Step::Idle, cursor: self.cursor + 1, ..self }
    }

    /// The session through with the current target. In the first pass and in
    /// print-only mode the target's status is noted; a recheck notes none.
    pub open spec fn done_with(self, status: TargetStatus) -> SessionView {
        if self.phase is Escalating {
            self.skip()
        } else {
            SessionView { statuses: self.statuses.push(status), ..self.skip() }
        }
    }

    /// The print-only session through with the current target, which it has
    /// listed on these lines.
    pub open spec fn listed(self, lines: Seq<PrintItem>) -> SessionView {
        SessionView { printed: self.printed + lines, ..self.done_with(TargetStatus::Listed) }
    }

    /// The session with the first attempt under way on the processes `pids`
    /// of the current target.
    pub open spec fn start_members(self, pids: Seq<u32>) -> SessionView {
        SessionView {
            step: Step::Attempt,
            pids,
            member: 0,
            member_failed: false,
            attempt: Attempt::initial(pids[0], self.active_method(), self.phase is Escalating),
            ..self
        }
    }

    /// The session with the end of the running attempt recorded: among the
    /// rechecks after the grace period, else among the first attempts.
    pub open spec fn logged(self, attempt: Attempt, end: AttemptEnd) -> SessionView {
        let record = AttemptRecord { target: self.cursor as usize, pid: attempt.pid, end };
        SessionView {
            attempt,
            member_failed: self.member_failed || end is Failed,
            attempts: if self.phase is Escalating {
                self.attempts
            } else {
                self.attempts.push(record)
            },
            escalations: if self.phase is Escalating {
                self.escalations.push(record)
            } else {
                self.escalations
            },
            ..self
        }
    }

    /// From a session with nothing pending, the session at its next request.
    ///
    /// Print-only: numeric targets are listed as written until a name needs a
    /// snapshot. First pass: a numeric target begins its attempt, unless it
    /// is too large, which fails that target alone; a name needs a snapshot.
    /// Recheck: targets that were not terminated are passed over. After the
    /// last target of the first pass comes the grace period, if one was asked
    /// for and any target was terminated; else the overall judgment.
    pub open spec fn settle(self) -> SessionView
        decreases self.count() - self.cursor,
    {
        if self.cursor < 0 || self.cursor >= self.count() {
            if self.phase is Initial && self.options.timeout_ms is Some && any_terminated(
                self.statuses,
            ) {
                SessionView { step: Step::Sleep, ..self }
            } else {
                self.finished()
            }
        } else {
            let numeric = all_digits(self.target());
            match self.phase {
                Phase::Printing => if numeric {
                    self.listed(seq![PrintItem::Target(self.cursor as usize)]).settle()
                } else {
                    SessionView { step: Step::Snapshot, ..self }
                },
                Phase::Initial => if numeric {
                    match pid_of(self.target()) {
                        Some(pid) => self.start_members(seq![pid]),
                        None => self.done_with(
                            TargetStatus::Failed(TargetFailure::InvalidPid),
                        ).settle(),
                    }
                } else {
                    SessionView { step: Step::Snapshot, ..self }
                },
                Phase::Escalating => if !(self.statuses[self.cursor] is Terminated) {
                    self.skip().settle()
                } else if numeric {
                    match pid_of(self.target()) {
                        Some(pid) => self.start_members(seq![pid]),
                        None => self.skip().settle(),
                    }
                } else {
                    SessionView { step: Step::Snapshot, ..self }
                },
            }
        }
    }

    /// The session after the snapshot that the current target's name needed,
    /// before it moves on. A failed snapshot, and a name without a match,
    /// fail this target alone; in print-only mode as well. Else print-only
    /// mode lists the identifiers, all or the first, and the other passes
    /// begin the attempts on them.
    pub open spec fn on_snapshot(
        self,
        reply: Result<Seq<(u32, Seq<char>)>, SnapshotError>,
    ) -> SessionView {
        match reply {
            Err(e) => self.done_with(TargetStatus::Failed(TargetFailure::Snapshot(e))),
            Ok(entries) => match resolved(entries, self.target(), self.options.all_processes) {
                None => self.done_with(TargetStatus::Failed(TargetFailure::NoMatch)),
                Some(pids) => if self.phase is Printing {
                    self.listed(pid_items(pids))
                } else {
                    self.start_members(pids)
                },
            },
        }
    }

    /// The session after a reply to the running attempt, before it moves on.
    /// While the attempt goes on, only the attempt changes. Once it is over,
    /// its end is recorded; then comes the next process of the target, or,
    /// after the last one, the target's status.
    pub open spec fn on_attempt(self, reply: HostReply) -> SessionView {
        let attempt = self.attempt.after(reply);
        match attempt.outcome() {
            None => SessionView { attempt, ..self },
            Some(end) => {
                let logged = self.logged(attempt, end);
                if self.member + 1 < self.pids.len() {
                    SessionView {
                        member: self.member + 1,
                        attempt: Attempt::initial(
                            self.pids[self.member + 1],
                            self.active_method(),
                            self.phase is Escalating,
                        ),
                        ..logged
                    }
                } else {
                    logged.done_with(
                        status_after(all_digits(self.target()), logged.member_failed, end),
                    )
                }
            },
        }
    }

    /// The session with a reply taken in, before it moves on to its next
    /// request. A reply that does not answer the pending request changes
    /// nothing.
    pub open spec fn absorb(self, reply: HostReply) -> SessionView {
        match (self.step, reply) {
            (Step::Snapshot, HostReply::Snapshot(Ok(entries))) => self.on_snapshot(
                Ok(entries_of(entries@)),
            ),
            (Step::Snapshot, HostReply::Snapshot(Err(e))) => self.on_snapshot(Err(e)),
            (Step::Attempt, _) => self.on_attempt(reply),
            (Step::Sleep, HostReply::Slept) => SessionView {
                phase: Phase::Escalating,
                step: Step::Idle,
                cursor: 0,
                ..self
            },
            _ => self,
        }
    }

    /// The session after a reply from the host, at its next request.
    pub open spec fn after(self, reply: HostReply) -> SessionView {
        if self.absorb(reply).step is Idle {
            self.absorb(reply).settle()
        } else {
            self.absorb(reply)
        }
    }

    /// The session of a request before anything was looked at.
    pub open spec fn fresh(o: KillOptionsView) -> SessionView {
        SessionView {
            options: o,
            method: method_of_request(o),
            timeout_method: timeout_method_of_request(o),
            phase: if o.print_only {
                Phase::Printing
            } else {
                Phase::Initial
            },
            step: Step::Idle,
            cursor: 0,
            pids: Seq::empty(),
            member: 0,
            attempt: Attempt::initial(0, method_of_request(o), false),
            member_failed: false,
            statuses: Seq::empty(),
            attempts: Seq::empty(),
            escalations: Seq::empty(),
            printed: Seq::empty(),
            verdict: None,
        }
    }

    /// The session of a valid request at its first request to the host.
    pub open spec fn start(o: KillOptionsView) -> SessionView {
        SessionView::fresh(o).settle()
    }

    /// How the request ended, once it is complete: success, or the failure
    /// that says that some target failed.
    pub open spec fn outcome(self) -> Option<Result<(), (KillErrorKind, Seq<char>)>> {
        if !(self.step is Finished) {
            None
        } else {
            match self.verdict {
                None => Some(Ok(())),
                Some(kind) => Some(Err((kind, Seq::empty()))),
            }
        }
    }

    /// What holds of every session whatever it is waiting for: the request
    /// is valid, the pass fits it, and the statuses are those of the targets
    /// gone through, listed in print-only mode and terminated in no other.
    pub open spec fn base(self) -> bool {
        &&& valid_options(self.options)
        &&& 0 <= self.cursor <= self.count()
        &&& self.options.print_only <==> self.phase is Printing
        &&& self.phase is Escalating ==> self.options.timeout_ms is Some
        &&& self.method == method_of_request(self.options)
        &&& self.timeout_method == timeout_method_of_request(self.options)
        &&& self.statuses.len() == (if self.phase is Escalating {
            self.count()
        } else {
            self.cursor
        })
        &&& forall|i: int|
            0 <= i < self.statuses.len() ==> ((#[trigger] self.statuses[i]) is Listed
                ==> self.phase is Printing) && (self.statuses[i] is Terminated ==> !(self.phase
                is Printing))
    }

    /// What holds of every session, whatever the host has replied.
    pub open spec fn inv(self) -> bool {
        &&& self.base()
        &&& match self.step {
            Step::Idle => true,
            Step::Snapshot => {
                &&& self.cursor < self.count()
                &&& !all_digits(self.target())
                &&& self.phase is Escalating ==> self.statuses[self.cursor] is Terminated
            },
            Step::Attempt => {
                &&& !(self.phase is Printing)
                &&& self.cursor < self.count()
                &&& 0 <= self.member < self.pids.len()
                &&& self.attempt.wf()
                &&& self.attempt.outcome() is None
                &&& self.attempt.pid == self.pids[self.member]
                &&& self.attempt.method == self.active_method()
                &&& self.attempt.recheck == (self.phase is Escalating)
                &&& self.phase is Escalating ==> self.statuses[self.cursor] is Terminated
            },
            Step::Sleep => {
                &&& self.phase is Initial
                &&& self.options.timeout_ms is Some
                &&& self.cursor == self.count()
            },
            Step::Finished => {
                &&& self.cursor == self.count()
                &&& self.verdict == report_verdict(self.statuses)
            },
        }
    }

    /// What holds of every session that is handed out.
    pub open spec fn wf(self) -> bool {
        self.inv() && !(self.step is Idle)
    }
}

/// Tells whether no target failed.
pub fn every_succeeded(statuses: &Vec<TargetStatus>) -> (r: bool)
    ensures
        r == none_failed(statuses@),
{
    let mut i: usize = 0;
    while i < statuses.len()
        invariant
            i <= statuses@.len(),
            forall|j: int| 0 <= j < i ==> !((#[trigger] statuses@[j]) is Failed),
        decreases statuses@.len() - i,
    {
        match statuses[i] {
            TargetStatus::Failed(_) => {
                return false;
            },
            _ => {},
        }
        i += 1;
    }
    true
}

/// Tells whether at least one target was terminated.
pub fn some_terminated(statuses: &Vec<TargetStatus>) -> (r: bool)
    ensures
        r == any_terminated(statuses@),
{
    let mut i: usize = 0;
    while i < statuses.len()
        invariant
            i <= statuses@.len(),
            forall|j: int| 0 <= j < i ==> !((#[trigger] statuses@[j]) is Terminated),
        decreases statuses@.len() - i,
    {
        match statuses[i] {
            TargetStatus::Terminated => {
                return true;
            },
            _ => {},
        }
        i += 1;
    }
    false
}

/// Folds the statuses of all targets into the overall judgment: success only
/// if no target failed, else the failure that says that some did.
pub fn report_kill_results(statuses: &Vec<TargetStatus>) -> (r: Result<(), KillErrorKind>)
    ensures
        match report_verdict(statuses@) {
            None => r == Ok::<(), KillErrorKind>(()),
            Some(kind) => r == Err::<(), KillErrorKind>(kind),
        },
{
    if every_succeeded(statuses) {
        Ok(())
    } else {
        Err(KillErrorKind::PartialFailure)
    }
}

/// Appends one print-only line for each identifier.
fn list_pids(printed: &mut Vec<PrintItem>, pids: &Vec<u32>)
    ensures
        final(printed)@ == old(printed)@ + pid_items(pids@),
{
    let ghost before = printed@;
    let mut i: usize = 0;
    assert(before + pid_items(pids@.take(0)) =~= before);
    while i < pids.len()
        invariant
            i <= pids@.len(),
            printed@ == before + pid_items(pids@.take(i as int)),
        decreases pids@.len() - i,
    {
        printed.push(PrintItem::Pid(pids[i]));
        assert(printed@ =~= before + pid_items(pids@.take(i + 1)));
        i += 1;
    }
    assert(pids@.take(i as int) =~= pids@);
}

/// One request in progress.
#[derive(Debug)]
pub struct KillSession {
    options: KillOptions,
    method: WindowsKillMethod,
    timeout_method: WindowsKillMethod,
    phase: Phase,
    step: Step,
    cursor: usize,
    pids: Vec<u32>,
    member: usize,
    attempt: Attempt,
    member_failed: bool,
    statuses: Vec<TargetStatus>,
    attempts: Vec<AttemptRecord>,
    escalations: Vec<AttemptRecord>,
    printed: Vec<PrintItem>,
    verdict: Option<KillErrorKind>,
}

impl View for KillSession {
    type V = SessionView;

    closed spec fn view(&self) -> SessionView {
        SessionView {
            options: self.options@,
            method: self.method,
            timeout_method: self.timeout_method,
            phase: self.phase,
            step: self.step,
            cursor: self.cursor as int,
            pids: self.pids@,
            member: self.member as int,
            attempt: self.attempt,
            member_failed: self.member_failed,
            statuses: self.statuses@,
            attempts: self.attempts@,
            escalations: self.escalations@,
            printed: self.printed@,
            verdict: self.verdict,
        }
    }
}

impl KillSession {
    /// Notes the status of the current target, unless this is a recheck, and
    /// goes to the next target.
    fn done_with(&mut self, status: TargetStatus)
        requires
            old(self)@.cursor < old(self)@.count(),
        ensures
            final(self)@ == old(self)@.done_with(status),
    {
        let n: usize = self.options.targets.len();
        match self.phase {
            Phase::Escalating => {},
            _ => {
                self.statuses.push(status);
            },
        }
        self.cursor = self.cursor + 1;
        self.step = Step::Idle;
    }

    /// Begins the attempts on the processes `pids` of the current target.
    fn start_members(&mut self, pids: Vec<u32>)
        requires
            pids@.len() > 0,
        ensures
            final(self)@ == old(self)@.start_members(pids@),
    {
        let recheck: bool = match self.phase {
            Phase::Escalating => true,
            _ => false,
        };
        let method = if recheck {
            self.timeout_method
        } else {
            self.method
        };
        self.attempt = Attempt::begin(pids[0], method, recheck);
        self.pids = pids;
        self.member = 0;
        self.member_failed = false;
        self.step = Step::Attempt;
    }

    /// Begins the attempt on the one process of a numeric target; a target
    /// too large for a process identifier is through at once.
    fn start_numeric(&mut self)
        requires
            old(self)@.cursor < old(self)@.count(),
            !(old(self)@.phase is Printing),
        ensures
            final(self)@ == (match pid_of(old(self)@.target()) {
                Some(pid) => old(self)@.start_members(seq![pid]),
                None => old(self)@.done_with(TargetStatus::Failed(TargetFailure::InvalidPid)),
            }),
    {
        let n: usize = self.options.targets.len();
        assert(self@.target() == self.options.targets@[self.cursor as int]@);
        match parse_pid(self.options.targets[self.cursor].as_str()) {
            Some(pid) => {
                let mut pids: Vec<u32> = Vec::new();
                pids.push(pid);
                assert(pids@ =~= seq![pid]);
                self.start_members(pids);
            },
            None => {
                self.done_with(TargetStatus::Failed(TargetFailure::InvalidPid));
            },
        }
    }

    /// Moves on to the next request to the host.
    fn settle(&mut self)
        requires
            old(self)@.inv(),
            old(self)@.step is Idle,
        ensures
            final(self)@ == old(self)@.settle(),
    {
        let ghost start = self@;
        loop
            invariant
                start == old(self)@,
                self@.inv(),
                self@.step is Idle,
                self@.settle() == start.settle(),
            decreases self@.count() - self@.cursor,
        {
            let ghost here = self@;
            let n: usize = self.options.targets.len();
            if self.cursor >= n {
                let wait: bool = match self.phase {
                    Phase::Initial => self.options.timeout_ms.is_some() && some_terminated(
                        &self.statuses,
                    ),
                    _ => false,
                };
                if wait {
                    self.step = Step::Sleep;
                } else {
                    self.verdict = match report_kill_results(&self.statuses) {
                        Ok(_) => None,
                        Err(kind) => Some(kind),
                    };
                    self.step = Step::Finished;
                }
                return ;
            }
            assert(here.target() == self.options.targets@[self.cursor as int]@);
            let numeric: bool = is_all_digits(self.options.targets[self.cursor].as_str());
            match self.phase {
                Phase::Printing => {
                    if numeric {
                        self.printed.push(PrintItem::Target(self.cursor));
                        self.done_with(TargetStatus::Listed);
                        proof {
                            assert(self@.printed =~= here.printed + seq![
                                PrintItem::Target(here.cursor as usize),
                            ]);
                            lemma_done_with_inv(here, TargetStatus::Listed);
                        }
                    } else {
                        self.step = Step::Snapshot;
                        return ;
                    }
                },
                Phase::Initial => {
                    if numeric {
                        proof {
                            lemma_done_with_inv(
                                here,
                                TargetStatus::Failed(TargetFailure::InvalidPid),
                            );
                        }
                        self.start_numeric();
                        match self.step {
                            Step::Idle => {},
                            _ => {
                                return ;
                            },
                        }
                    } else {
                        self.step = Step::Snapshot;
                        return ;
                    }
                },
                Phase::Escalating => {
                    let terminated: bool = match self.statuses[self.cursor] {
                        TargetStatus::Terminated => true,
                        _ => false,
                    };
                    proof {
                        lemma_done_with_inv(here, TargetStatus::Terminated);
                    }
                    if !terminated {
                        self.done_with(TargetStatus::Terminated);
                    } else if numeric {
                        self.start_numeric();
                        match self.step {
                            Step::Idle => {},
                            _ => {
                                return ;
                            },
                        }
                    } else {
                        self.step = Step::Snapshot;
                        return ;
                    }
                },
            }
        }
    }

    /// Takes the snapshot that the current target's name needed.
    fn on_snapshot(&mut self, reply: Result<Vec<ProcessEntry>, SnapshotError>)
        requires
            old(self)@.inv(),
            old(self)@.step is Snapshot,
        ensures
            final(self)@ == old(self)@.on_snapshot(
                match reply {
                    Ok(entries) => Ok(entries_of(entries@)),
                    Err(e) => Err(e),
                },
            ),
    {
        let ghost here = self@;
        let n: usize = self.options.targets.len();
        assert(here.target() == self.options.targets@[self.cursor as int]@);
        match reply {
            Err(e) => {
                self.done_with(TargetStatus::Failed(TargetFailure::Snapshot(e)));
            },
            Ok(entries) => {
                let resolution = resolve_name(
                    &entries,
                    self.options.targets[self.cursor].as_str(),
                    self.options.all_processes,
                );
                match resolution {
                    None => {
                        self.done_with(TargetStatus::Failed(TargetFailure::NoMatch));
                    },
                    Some(pids) => {
                        match self.phase {
                            Phase::Printing => {
                                list_pids(&mut self.printed, &pids);
                                self.done_with(TargetStatus::Listed);
                            },
                            _ => {
                                self.start_members(pids);
                            },
                        }
                    },
                }
            },
        }
    }

    /// Takes a reply to the running attempt.
    fn on_attempt(&mut self, reply: &HostReply)
        requires
            old(self)@.inv(),
            old(self)@.step is Attempt,
        ensures
            final(self)@ == old(self)@.on_attempt(*reply),
    {
        let ghost here = self@;
        let n: usize = self.options.targets.len();
        let members: usize = self.pids.len();
        assert(here.target() == self.options.targets@[self.cursor as int]@);
        self.attempt.advance(reply);
        match self.attempt.result() {
            None => {},
            Some(end) => {
                let record = AttemptRecord { target: self.cursor, pid: self.attempt.pid, end };
                let failed: bool = self.member_failed || match end {
                    AttemptEnd::Failed(_) => true,
                    _ => false,
                };
                self.member_failed = failed;
                let recheck: bool = match self.phase {
                    Phase::Escalating => true,
                    _ => false,
                };
                if recheck {
                    self.escalations.push(record);
                } else {
                    self.attempts.push(record);
                }
                if self.member + 1 < members {
                    self.member = self.member + 1;
                    let method = if recheck {
                        self.timeout_method
                    } else {
                        self.method
                    };
                    self.attempt = Attempt::begin(self.pids[self.member], method, recheck);
                } else {
                    let numeric: bool = is_all_digits(self.options.targets[self.cursor].as_str());
                    let status = if !failed {
                        TargetStatus::Terminated
                    } else if numeric {
                        match end {
                            AttemptEnd::Failed(reason) => TargetStatus::Failed(
                                TargetFailure::Kill(reason),
                            ),
                            _ => TargetStatus::Failed(TargetFailure::Members),
                        }
                    } else {
                        TargetStatus::Failed(TargetFailure::Members)
                    };
                    self.done_with(status);
                }
            },
        }
    }

    /// The request that the session works on.
    pub fn options(&self) -> (r: &KillOptions)
        ensures
            r@ == self@.options,
    {
        &self.options
    }

    /// The status of each target that the session is through with, in the
    /// order of the targets.
    pub fn statuses(&self) -> (r: &Vec<TargetStatus>)
        ensures
            r@ == self@.statuses,
    {
        &self.statuses
    }

    /// The end of every attempt of the first pass, in the order made.
    pub fn attempts(&self) -> (r: &Vec<AttemptRecord>)
        ensures
            r@ == self@.attempts,
    {
        &self.attempts
    }

    /// The end of every recheck after the grace period, in the order made.
    pub fn escalations(&self) -> (r: &Vec<AttemptRecord>)
        ensures
            r@ == self@.escalations,
    {
        &self.escalations
    }

    /// The lines of print-only output so far.
    pub fn printed(&self) -> (r: &Vec<PrintItem>)
        ensures
            r@ == self@.printed,
    {
        &self.printed
    }

    /// The technique of the signal asked for.
    pub fn method(&self) -> (r: WindowsKillMethod)
        ensures
            r == self@.method,
    {
        self.method
    }

    /// The technique of the timeout signal.
    pub fn timeout_method(&self) -> (r: WindowsKillMethod)
        ensures
            r == self@.timeout_method,
    {
        self.timeout_method
    }

    /// The pass that the session is in.
    pub fn phase(&self) -> (r: Phase)
        ensures
            r == self@.phase,
    {
        self.phase
    }

    /// How the request ended: nothing while the host still has something to
    /// do; then success, or the failure.
    pub fn result(&self) -> (r: Option<Result<(), KillError>>)
        ensures
            match self@.outcome() {
                None => r.is_none(),
                Some(Ok(_)) => r.is_some() && r.unwrap().is_ok(),
                Some(Err(e)) => r.is_some() && r.unwrap().is_err() && r.unwrap().unwrap_err()@ == e,
            },
    {
        match self.step {
            Step::Finished => {
                match self.verdict {
                    None => Some(Ok(())),
                    Some(kind) => Some(Err(KillError::bare(kind))),
                }
            },
            _ => None,
        }
    }

    /// What the host is to do next. `Finished` once the request is complete.
    pub fn request(&self) -> (r: HostRequest)
        ensures
            r == self@.pending(),
    {
        match self.step {
            Step::Idle => HostRequest::Finished,
            Step::Snapshot => HostRequest::Snapshot,
            Step::Attempt => self.attempt.request(),
            Step::Sleep => match self.options.timeout_ms {
                Some(ms) => HostRequest::Sleep(ms),
                None => HostRequest::Sleep(0),
            },
            Step::Finished => HostRequest::Finished,
        }
    }

    /// Takes the host's reply to the pending request and moves on to the next
    /// one. A reply that does not answer the pending request is ignored.
    pub fn advance(&mut self, reply: HostReply)
        requires
            old(self)@.wf(),
        ensures
            final(self)@ == old(self)@.after(reply),
            final(self)@.wf(),
    {
        proof {
            lemma_after_wf(self@, reply);
        }
        match self.step {
            Step::Snapshot => {
                match reply {
                    HostReply::Snapshot(snapshot) => {
                        self.on_snapshot(snapshot);
                    },
                    _ => {},
                }
            },
            Step::Attempt => {
                self.on_attempt(&reply);
            },
            Step::Sleep => {
                match reply {
                    HostReply::Slept => {
                        self.phase = Phase::Escalating;
                        self.cursor = 0;
                        self.step = Step::Idle;
                    },
                    _ => {},
                }
            },
            _ => {},
        }
        match self.step {
            Step::Idle => {
                self.settle();
            },
            _ => {},
        }
    }
}

/// The technique of an optional signal token: forced termination where there
/// is none.
fn method_or_default(signal: &Option<String>) -> (r: Result<WindowsKillMethod, KillError>)
    ensures
        match *signal {
            None => r == Ok::<WindowsKillMethod, KillError>(WindowsKillMethod::ForceTerminate),
            Some(s) => match method_of_signal(s@) {
                Some(m) => r == Ok::<WindowsKillMethod, KillError>(m),
                None => r.is_err() && r.unwrap_err()@ == (KillErrorKind::UnsupportedSignal, s@),
            },
        },
{
    match signal {
        None => Ok(WindowsKillMethod::ForceTerminate),
        Some(s) => signal_to_windows_method(s.as_str()),
    }
}

/// Opens the session of a request. The request is checked against the rules
/// first: one that breaks a rule opens no session, and nothing is asked of
/// the host. A session begins in print-only mode or with the first pass, at
/// its first request to the host.
pub fn handle_kill(options: KillOptions) -> (r: Result<KillSession, KillError>)
    ensures
        match first_violation(options@) {
            Some(e) => r.is_err() && r.unwrap_err()@ == e,
            None => r.is_ok() && r.unwrap()@ == SessionView::start(options@) && r.unwrap()@.wf(),
        },
{
    match validate_options(&options) {
        Err(e) => {
            return Err(e);
        },
        Ok(_) => {},
    }
    let chosen = if options.signal.is_some() {
        method_or_default(&options.signal)
    } else {
        method_or_default(&options.signal_explicit)
    };
    let method = match chosen {
        Ok(m) => m,
        Err(e) => {
            return Err(e);
        },
    };
    let timeout_method = match method_or_default(&options.timeout_signal) {
        Ok(m) => m,
        Err(e) => {
            return Err(e);
        },
    };
    let phase = if options.print_only {
        Phase::Printing
    } else {
        Phase::Initial
    };
    let mut session = KillSession {
        options,
        method,
        timeout_method,
        phase,
        step: Step::Idle,
        cursor: 0,
        pids: Vec::new(),
        member: 0,
        attempt: Attempt::begin(0, method, false),
        member_failed: false,
        statuses: Vec::new(),
        attempts: Vec::new(),
        escalations: Vec::new(),
        printed: Vec::new(),
        verdict: None,
    };
    proof {
        lemma_start(session@.options);
    }
    session.settle();
    Ok(session)
}

/// Going on to the next target keeps what holds of every session.
pub proof fn lemma_done_with_inv(s: SessionView, status: TargetStatus)
    requires
        s.base(),
        s.cursor < s.count(),
        s.phase is Printing ==> !(status is Terminated),
        !(s.phase is Printing) ==> !(status is Listed),
    ensures
        s.done_with(status).inv(),
        s.skip().inv() || !(s.phase is Escalating),
        forall|lines: Seq<PrintItem>| (#[trigger] s.listed(lines)).inv() || !(s.phase is Printing),
{
    let next = s.done_with(status);
    assert forall|i: int| 0 <= i < next.statuses.len() implies ((#[trigger] next.statuses[i])
        is Listed ==> next.phase is Printing) && (next.statuses[i] is Terminated ==> !(next.phase
        is Printing)) by {
        if i < s.statuses.len() {
            assert(next.statuses[i] == s.statuses[i]);
        }
    }
    if s.phase is Printing {
        assert forall|lines: Seq<PrintItem>| (#[trigger] s.listed(lines)).inv() by {
            let l = s.listed(lines);
            assert forall|i: int| 0 <= i < l.statuses.len() implies ((#[trigger] l.statuses[i])
                is Listed ==> l.phase is Printing) && (l.statuses[i] is Terminated ==> !(l.phase
                is Printing)) by {
                if i < s.statuses.len() {
                    assert(l.statuses[i] == s.statuses[i]);
                }
            }
        }
    }
}

/// Taking a reply in keeps what holds of every session.
pub proof fn lemma_absorb_inv(s: SessionView, reply: HostReply)
    requires
        s.wf(),
    ensures
        s.absorb(reply).inv(),
{
    if s.cursor < s.count() {
        lemma_done_with_inv(s, TargetStatus::Failed(TargetFailure::NoMatch));
        if !(s.phase is Printing) {
            lemma_done_with_inv(s, TargetStatus::Terminated);
        }
    }
    match (s.step, reply) {
        (Step::Attempt, _) => {
            let attempt = s.attempt.after(reply);
            match attempt.outcome() {
                None => {},
                Some(end) => {
                    let logged = s.logged(attempt, end);
                    let status = status_after(all_digits(s.target()), logged.member_failed, end);
                    lemma_done_with_inv(logged, status);
                },
            }
        },
        (Step::Snapshot, HostReply::Snapshot(Err(e))) => {
            lemma_done_with_inv(s, TargetStatus::Failed(TargetFailure::Snapshot(e)));
        },
        _ => {},
    }
}

/// Moving on from a session with nothing pending keeps what holds of every
/// session, and ends at a request to the host or at the end. Neither the
/// request nor the pass changes, and nothing that was noted is taken back.
/// The pass stays or ends, and the target reached is not before the current
/// one.
pub proof fn lemma_settle(s: SessionView)
    requires
        s.inv(),
        s.step is Idle,
    ensures
        s.settle().wf(),
        s.settle().options == s.options,
        s.settle().phase == s.phase,
        s.settle().method == s.method,
        s.settle().timeout_method == s.timeout_method,
        s.settle().attempts == s.attempts,
        s.settle().escalations == s.escalations,
        s.statuses.is_prefix_of(s.settle().statuses),
        s.printed.is_prefix_of(s.settle().printed),
        s.settle().step is Finished || s.settle().step is Sleep || (s.cursor <= s.settle().cursor
            < s.count()),
    decreases s.count() - s.cursor,
{
    if s.cursor < s.count() {
        let numeric = all_digits(s.target());
        lemma_done_with_inv(s, TargetStatus::Failed(TargetFailure::InvalidPid));
        match s.phase {
            Phase::Printing => {
                if numeric {
                    lemma_settle(s.listed(seq![PrintItem::Target(s.cursor as usize)]));
                }
            },
            Phase::Initial => {
                if numeric && pid_of(s.target()) is None {
                    lemma_settle(s.done_with(TargetStatus::Failed(TargetFailure::InvalidPid)));
                }
            },
            Phase::Escalating => {
                if !(s.statuses[s.cursor] is Terminated) || (numeric && pid_of(s.target()) is None) {
                    lemma_settle(s.skip());
                }
            },
        }
    }
}

/// Whatever the host replies, the session stays one that can be handed out.
pub proof fn lemma_after_wf(s: SessionView, reply: HostReply)
    requires
        s.wf(),
    ensures
        s.after(reply).wf(),
{
    lemma_absorb_inv(s, reply);
    if s.absorb(reply).step is Idle {
        lemma_settle(s.absorb(reply));
    }
}

/// Whatever the host replies, the request stays the one that the session was
/// opened for, a print-only session stays print-only, and nothing that was
/// noted is taken back: statuses, attempt records and printed lines only grow.
pub proof fn lemma_reply_keeps_record(s: SessionView, reply: HostReply)
    requires
        s.wf(),
    ensures
        s.after(reply).options == s.options,
        s.after(reply).method == s.method,
        s.after(reply).timeout_method == s.timeout_method,
        s.phase is Printing <==> s.after(reply).phase is Printing,
        s.statuses.is_prefix_of(s.after(reply).statuses),
        s.attempts.is_prefix_of(s.after(reply).attempts),
        s.escalations.is_prefix_of(s.after(reply).escalations),
        s.printed.is_prefix_of(s.after(reply).printed),
{
    lemma_absorb_inv(s, reply);
    if s.absorb(reply).step is Idle {
        lemma_settle(s.absorb(reply));
    }
}

/// The session of a valid request can be handed out, and holds that request.
pub proof fn lemma_start(o: KillOptionsView)
    requires
        valid_options(o),
    ensures
        SessionView::fresh(o).inv(),
        SessionView::start(o).wf(),
        SessionView::start(o).options == o,
        SessionView::start(o).method == method_of_request(o),
        SessionView::start(o).timeout_method == timeout_method_of_request(o),
        SessionView::start(o).phase is Printing <==> o.print_only,
{
    lemma_settle(SessionView::fresh(o));
}

/// No target is passed over: once a session is complete, every target has
/// its status, in the order of the targets, and the request has succeeded
/// exactly if no target failed. One target that fails does not keep the
/// others from being taken up. This holds in print-only mode as well, where
/// a target is either listed or failed; in the other modes a target is
/// either terminated or failed.
pub proof fn lemma_every_target_has_a_status(s: SessionView)
    requires
        s.wf(),
        s.step is Finished,
    ensures
        s.statuses.len() == s.options.targets.len(),
        s.outcome() == Some(Ok::<(), (KillErrorKind, Seq<char>)>(())) <==> none_failed(s.statuses),
        !none_failed(s.statuses) ==> s.outcome() == Some(
            Err::<(), (KillErrorKind, Seq<char>)>(
                (KillErrorKind::PartialFailure, Seq::<char>::empty()),
            ),
        ),
        !s.options.print_only ==> (none_failed(s.statuses) <==> all_terminated(s.statuses)),
        s.options.print_only ==> !any_terminated(s.statuses),
{
}

/// A print-only session asks the host for snapshots and for nothing else: no
/// process is terminated, signalled or asked to close a window, and there is
/// no grace period.
pub proof fn lemma_print_only_harms_nothing(s: SessionView)
    requires
        s.wf(),
        s.options.print_only,
    ensures
        s.pending() == HostRequest::Snapshot || s.pending() == HostRequest::Finished,
        !harmful(s.pending()),
{
}

/// Whatever a session asks that may end or disturb a process, it asks after
/// the guard has passed for that process: the process is neither protected
/// nor, by the identifier that the host reported, the caller itself.
pub proof fn lemma_session_guard_precedes_harm(s: SessionView)
    requires
        s.wf(),
        harmful(s.pending()),
    ensures
        s.step is Attempt,
        s.attempt.own_pid is Some,
        s.attempt.pid != s.attempt.own_pid->0,
        !protected_pid(s.attempt.pid),
        s.attempt.pid == s.pids[s.member],
{
}

/// The grace period comes once, after the first pass, and only where a
/// timeout was asked for and some target was terminated; what follows it is
/// the recheck, with the technique of the timeout signal.
pub proof fn lemma_grace_period(s: SessionView)
    requires
        s.wf(),
        s.step is Sleep,
    ensures
        s.phase is Initial,
        s.options.timeout_ms is Some,
        s.pending() == HostRequest::Sleep(s.options.timeout_ms->0),
        s.statuses.len() == s.options.targets.len(),
        s.after(HostReply::Slept).phase is Escalating,
        s.after(HostReply::Slept).wf(),
{
    lemma_absorb_inv(s, HostReply::Slept);
    lemma_settle(s.absorb(HostReply::Slept));
}

/// The timeout signal is sent only after the full wait, and only to what was
/// terminated before: a session enters the recheck by no reply but the end
/// of the grace period; until then every request that may end or disturb a
/// process uses the technique of the signal asked for; and in the recheck
/// every such request is for a target whose first attempt succeeded.
pub proof fn lemma_escalation_follows_the_wait(s: SessionView, reply: HostReply)
    requires
        s.wf(),
    ensures
        !(s.phase is Escalating) && s.after(reply).phase is Escalating ==> s.step is Sleep
            && reply is Slept,
        s.phase is Escalating ==> s.after(reply).phase is Escalating,
        s.step is Attempt ==> s.attempt.method == s.active_method() && s.attempt.recheck == (
        s.phase is Escalating),
        s.phase is Escalating && (s.step is Attempt || s.step is Snapshot)
            ==> s.statuses[s.cursor] is Terminated,
{
    lemma_absorb_inv(s, reply);
    if s.absorb(reply).step is Idle {
        lemma_settle(s.absorb(reply));
    }
}

impl SessionView {
    /// How far the session is from its end, by pass: 0 once complete.
    pub open spec fn pass_rank(self) -> nat {
        if self.step is Finished {
            0
        } else {
            match self.phase {
                Phase::Initial => if self.step is Sleep {
                    2
                } else {
                    3
                },
                _ => 1,
            }
        }
    }

    /// The number of targets that the current pass has not gone through yet.
    pub open spec fn targets_left(self) -> nat {
        if self.cursor <= self.count() {
            (self.count() - self.cursor) as nat
        } else {
            0
        }
    }

    /// How far the current target is from its end: a snapshot first, then
    /// the processes not yet through, then the requests of the running attempt.
    pub open spec fn target_rank(self) -> (nat, nat, nat) {
        match self.step {
            Step::Snapshot => (1, 0, 0),
            Step::Attempt => (
                0,
                if self.member <= self.pids.len() {
                    (self.pids.len() - self.member) as nat
                } else {
                    0
                },
                self.attempt.rank(),
            ),
            _ => (0, 0, 0),
        }
    }

    /// True when `self` is strictly closer to the end than `earlier`: by
    /// pass, then by targets left, then within the target.
    pub open spec fn closer_than(self, earlier: SessionView) -> bool {
        let a = (self.pass_rank(), self.targets_left(), self.target_rank());
        let b = (earlier.pass_rank(), earlier.targets_left(), earlier.target_rank());
        ||| a.0 < b.0
        ||| a.0 == b.0 && a.1 < b.1
        ||| a.0 == b.0 && a.1 == b.1 && a.2.0 < b.2.0
        ||| a.0 == b.0 && a.1 == b.1 && a.2.0 == b.2.0 && a.2.1 < b.2.1
        ||| a.0 == b.0 && a.1 == b.1 && a.2.0 == b.2.0 && a.2.1 == b.2.1 && a.2.2 < b.2.2
    }
}

/// Every reply that answers what a session asked brings the session strictly
/// closer to its end, in an order that has no endless descent: a host that
/// serves each request sees the request complete, with every target gone
/// through, whatever became of the targets before it.
pub proof fn lemma_every_answer_brings_the_end_closer(s: SessionView, reply: HostReply)
    requires
        s.wf(),
        !(s.step is Finished),
        answers(reply, s.pending()),
    ensures
        s.after(reply).closer_than(s),
        s.after(reply).wf(),
{
    lemma_absorb_inv(s, reply);
    if s.step is Attempt {
        lemma_attempt_progress(s.attempt, reply);
    }
    if s.absorb(reply).step is Idle {
        lemma_settle(s.absorb(reply));
    }
}

} // verus!
