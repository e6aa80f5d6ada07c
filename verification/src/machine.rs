//! A host in the abstract: what the operating system would reply about each
//! process, and where a session ends when such a host serves it. Nothing
//! here runs; these are the statements that tie the session's single steps
//! to whole requests.

use vstd::prelude::*;
use crate::attempt::{
    lemma_attempt_after, lemma_attempt_ends_as_the_ladder_says, lemma_attempt_progress,
    safety_verdict, Answers, Attempt, AttemptEnd,
};
use crate::error::{ErrorClass, KillErrorKind, KillFailure, SnapshotError};
use crate::host::{HostReply, HostRequest, ProcessEntry, TerminateReply};
use crate::number::pid_of;
use crate::options::{valid_options, KillOptionsView};
use crate::session::{
    any_terminated, lemma_after_wf, lemma_done_with_inv, lemma_settle, lemma_start,
    method_of_request, report_verdict, status_after, timeout_method_of_request, AttemptRecord,
    Phase, SessionView, Step, TargetFailure, TargetStatus,
};
use crate::signal::WindowsKillMethod;
use crate::text::all_digits;

verus! {

/// A host whose replies about a process do not change with time: the
/// snapshot it would hand out, and its answers about each process.
pub ghost struct Machine {
    pub snapshot: Result<Vec<ProcessEntry>, SnapshotError>,
    pub processes: spec_fn(u32) -> Answers,
}

/// An attempt that is over stays as it is, however often the host replies.
pub proof fn lemma_over_stays(w: Answers, a: Attempt, steps: nat)
    requires
        a.stage is Over,
    ensures
        w.run(a, steps) == a,
    decreases steps,
{
    if steps > 0 {
        lemma_over_stays(w, a, (steps - 1) as nat);
    }
}

/// An attempt that the host serves is over once the host has replied as
/// often as the attempt may ask, and further replies change nothing.
pub proof fn lemma_attempt_run_ends(w: Answers, a: Attempt, steps: nat)
    requires
        a.wf(),
        steps >= a.rank(),
    ensures
        w.run(a, steps) == w.run(a, a.rank()),
        w.run(a, steps).outcome() is Some,
        w.run(a, steps).pid == a.pid,
    decreases a.rank(),
{
    if a.stage is Over {
        lemma_over_stays(w, a, steps);
        lemma_over_stays(w, a, a.rank());
    } else {
        let next = a.after(w.reply_to(a.pending()));
        lemma_attempt_progress(a, w.reply_to(a.pending()));
        lemma_attempt_after(a, w.reply_to(a.pending()));
        lemma_attempt_run_ends(w, next, (steps - 1) as nat);
        lemma_attempt_run_ends(w, next, (a.rank() - 1) as nat);
    }
}

impl Machine {
    /// The reply to what a session is waiting for.
    pub open spec fn reply(self, s: SessionView) -> HostReply {
        match s.step {
            Step::Snapshot => HostReply::Snapshot(self.snapshot),
            Step::Attempt => (self.processes)(s.attempt.pid).reply_to(s.attempt.pending()),
            _ => HostReply::Slept,
        }
    }

    /// The session after the host has served `steps` of its requests.
    pub open spec fn run(self, s: SessionView, steps: nat) -> SessionView
        decreases steps,
    {
        if steps == 0 {
            s
        } else {
            self.run(s.after(self.reply(s)), (steps - 1) as nat)
        }
    }

    /// The attempt on `pid`, served to its end.
    pub open spec fn over(self, pid: u32, method: WindowsKillMethod, recheck: bool) -> Attempt {
        (self.processes)(pid).run(Attempt::initial(pid, method, recheck), 5)
    }

    /// The session through with the numeric target that `x` stands at: the
    /// one attempt on its process has ended as the guard, the probe and the
    /// ladder say, the end is recorded, and, in the first pass, the target
    /// has its status.
    pub open spec fn through(self, x: SessionView) -> SessionView {
        let pid = pid_of(x.target())->0;
        let attempt = self.over(pid, x.active_method(), x.phase is Escalating);
        let logged = x.start_members(seq![pid]).logged(attempt, attempt.outcome()->0);
        logged.done_with(status_after(true, logged.member_failed, attempt.outcome()->0))
    }

    /// Where a session with nothing pending ends when this host serves it.
    ///
    /// The first pass takes the targets in their order: one too large for a
    /// process identifier fails alone, and each other one is gone through,
    /// whatever became of those before it. If a timeout was asked for and
    /// any target was terminated, the recheck follows, which goes through
    /// the terminated targets in their order and passes over the others.
    /// Then the session is complete, with the judgment on its statuses.
    pub open spec fn result(self, x: SessionView) -> SessionView
        decreases
            (if x.phase is Initial {
                1int
            } else {
                0int
            }),
            x.count() - x.cursor,
    {
        if x.cursor < 0 || x.cursor >= x.count() {
            if x.phase is Initial && x.options.timeout_ms is Some && any_terminated(x.statuses) {
                self.result(
                    SessionView { phase: Phase::Escalating, step: Step::Idle, cursor: 0, ..x },
                )
            } else {
                x.finished()
            }
        } else {
            match x.phase {
                Phase::Printing => x.finished(),
                Phase::Initial => if pid_of(x.target()) is Some {
                    self.result(self.through(x))
                } else {
                    self.result(x.done_with(TargetStatus::Failed(TargetFailure::InvalidPid)))
                },
                Phase::Escalating => if x.statuses[x.cursor] is Terminated && pid_of(x.target())
                    is Some {
                    self.result(self.through(x))
                } else {
                    self.result(x.skip())
                },
            }
        }
    }

    /// The number of requests within which a session with nothing pending,
    /// all of whose targets are numeric, is complete.
    pub open spec fn bound(x: SessionView) -> nat {
        let left = if x.cursor <= x.count() {
            (x.count() - x.cursor) as nat
        } else {
            0
        };
        if x.phase is Initial && x.options.timeout_ms is Some {
            5 * left + 1 + 5 * (x.count() as nat)
        } else {
            5 * left
        }
    }
}

/// True when every target consists of digits only.
pub open spec fn all_numeric(targets: Seq<Seq<char>>) -> bool {
    forall|i: int| 0 <= i < targets.len() ==> all_digits(#[trigger] targets[i])
}

/// Serving requests one after the other is serving them all.
pub proof fn lemma_run_in_parts(m: Machine, s: SessionView, first: nat, then: nat)
    ensures
        m.run(s, first + then) == m.run(m.run(s, first), then),
    decreases first,
{
    if first > 0 {
        lemma_run_in_parts(m, s.after(m.reply(s)), (first - 1) as nat, then);
    }
}

/// A session that is complete stays as it is.
pub proof fn lemma_finished_stays(m: Machine, s: SessionView, steps: nat)
    requires
        s.step is Finished,
    ensures
        m.run(s, steps) == s,
    decreases steps,
{
    if steps > 0 {
        lemma_finished_stays(m, s, (steps - 1) as nat);
    }
}


/// The session through with its current target, whose last attempt has ended
/// as `attempt`.
pub open spec fn ended(s: SessionView, attempt: Attempt) -> SessionView {
    let logged = s.logged(attempt, attempt.outcome()->0);
    logged.done_with(
        status_after(all_digits(s.target()), logged.member_failed, attempt.outcome()->0),
    )
}

/// A target with one process is gone through within as many requests as its
/// attempt may ask; then the session stands at its next request, with the
/// attempt ended as the host's answers about the process say.
pub proof fn lemma_target_runs(m: Machine, s: SessionView) -> (k: nat)
    requires
        s.wf(),
        s.step is Attempt,
        s.pids.len() == 1,
    ensures
        1 <= k <= s.attempt.rank(),
        m.run(s, k) == ended(
            s,
            (m.processes)(s.attempt.pid).run(s.attempt, s.attempt.rank()),
        ).settle(),
    decreases s.attempt.rank(),
{
    let w = (m.processes)(s.attempt.pid);
    let reply = m.reply(s);
    let next = s.attempt.after(reply);
    lemma_attempt_progress(s.attempt, reply);
    lemma_attempt_after(s.attempt, reply);
    lemma_after_wf(s, reply);
    assert(m.run(s, 1) == m.run(s.after(reply), 0));
    if next.outcome() is Some {
        lemma_over_stays(w, next, (s.attempt.rank() - 1) as nat);
        1
    } else {
        let k = lemma_target_runs(m, s.after(reply));
        lemma_attempt_run_ends(w, next, (s.attempt.rank() - 1) as nat);
        assert(ended(s.after(reply), w.run(next, next.rank())) == ended(
            s,
            w.run(s.attempt, s.attempt.rank()),
        ));
        k + 1
    }
}

/// A host that serves every request brings a request with numeric targets to
/// its end within five requests for each target and pass, and one for the
/// grace period. The end is the one that `Machine::result` states: every
/// target gone through in its order, each by itself.
pub proof fn lemma_served_session_ends(m: Machine, x: SessionView, steps: nat)
    requires
        x.inv(),
        x.step is Idle,
        !(x.phase is Printing),
        all_numeric(x.options.targets),
        steps >= Machine::bound(x),
    ensures
        m.run(x.settle(), steps) == m.result(x),
        m.result(x).step is Finished,
        m.result(x).wf(),
        m.result(x).options == x.options,
    decreases
        (if x.phase is Initial {
            1int
        } else {
            0int
        }),
        x.count() - x.cursor,
{
    lemma_settle(x);
    if x.cursor >= x.count() {
        if x.phase is Initial && x.options.timeout_ms is Some && any_terminated(x.statuses) {
            let asleep = x.settle();
            let awake = SessionView {
                phase: Phase::Escalating,
                step: Step::Idle,
                cursor: 0,
                ..x
            };
            assert(asleep.absorb(HostReply::Slept) == awake);
            lemma_served_session_ends(m, awake, (steps - 1) as nat);
        } else {
            lemma_finished_stays(m, x.finished(), steps);
        }
    } else {
        assert(all_digits(x.target()));
        lemma_done_with_inv(x, TargetStatus::Failed(TargetFailure::InvalidPid));
        let gone_through = (x.phase is Initial || x.statuses[x.cursor] is Terminated) && pid_of(
            x.target(),
        ) is Some;
        if gone_through {
            let pid = pid_of(x.target())->0;
            let s = x.settle();
            let first = Attempt::initial(pid, x.active_method(), x.phase is Escalating);
            let k = lemma_target_runs(m, s);
            lemma_attempt_run_ends((m.processes)(pid), first, 5);
            let y = m.through(x);
            assert(y == ended(s, (m.processes)(pid).run(first, first.rank())));
            lemma_done_with_inv(
                s.logged(m.over(pid, x.active_method(), x.phase is Escalating), m.over(
                    pid,
                    x.active_method(),
                    x.phase is Escalating,
                ).outcome()->0),
                status_after(
                    true,
                    s.logged(m.over(pid, x.active_method(), x.phase is Escalating), m.over(
                        pid,
                        x.active_method(),
                        x.phase is Escalating,
                    ).outcome()->0).member_failed,
                    m.over(pid, x.active_method(), x.phase is Escalating).outcome()->0,
                ),
            );
            lemma_run_in_parts(m, s, k, (steps - k) as nat);
            lemma_served_session_ends(m, y, (steps - k) as nat);
        } else if x.phase is Initial {
            lemma_served_session_ends(
                m,
                x.done_with(TargetStatus::Failed(TargetFailure::InvalidPid)),
                steps,
            );
        } else {
            lemma_served_session_ends(m, x.skip(), steps);
        }
    }
}

/// The whole of a request: where all targets are numeric and the request is
/// not print-only, a host that serves ten requests for each target, and one
/// more, has seen the request complete, with the end that `Machine::result`
/// states for it.
pub proof fn lemma_served_request_ends(m: Machine, o: KillOptionsView, steps: nat)
    requires
        valid_options(o),
        !o.print_only,
        all_numeric(o.targets),
        steps >= 10 * o.targets.len() + 1,
    ensures
        m.run(SessionView::start(o), steps) == m.result(SessionView::fresh(o)),
        m.result(SessionView::fresh(o)).step is Finished,
        m.result(SessionView::fresh(o)).wf(),
        m.result(SessionView::fresh(o)).statuses.len() == o.targets.len(),
{
    lemma_start(o);
    lemma_served_session_ends(m, SessionView::fresh(o), steps);
}


impl Machine {
    /// The process that the numeric target at position `i` denotes.
    pub open spec fn pid_at(o: KillOptionsView, i: int) -> u32 {
        pid_of(o.targets[i])->0
    }

    /// How the first attempt on the target at position `i` ends.
    pub open spec fn first_end(self, o: KillOptionsView, i: int) -> AttemptEnd {
        (self.processes)(Self::pid_at(o, i)).end_of(Self::pid_at(o, i), method_of_request(o), false)
    }

    /// How the recheck of the target at position `i` ends.
    pub open spec fn recheck_end(self, o: KillOptionsView, i: int) -> AttemptEnd {
        (self.processes)(Self::pid_at(o, i)).end_of(
            Self::pid_at(o, i),
            timeout_method_of_request(o),
            true,
        )
    }

    /// The status of the numeric target at position `i` after the first
    /// pass. It depends on this target and on the host's answers about its
    /// process, and on nothing else.
    pub open spec fn first_status(self, o: KillOptionsView, i: int) -> TargetStatus {
        if pid_of(o.targets[i]) is Some {
            status_after(true, self.first_end(o, i) is Failed, self.first_end(o, i))
        } else {
            TargetStatus::Failed(TargetFailure::InvalidPid)
        }
    }

    /// The statuses of the targets from position `from` on, in their order.
    pub open spec fn first_statuses(self, o: KillOptionsView, from: int) -> Seq<TargetStatus>
        decreases o.targets.len() - from,
    {
        if from < 0 || from >= o.targets.len() {
            Seq::empty()
        } else {
            seq![self.first_status(o, from)] + self.first_statuses(o, from + 1)
        }
    }

    /// The records of the first attempts on the targets from position `from`
    /// on: one for each target that denotes a process, in their order.
    pub open spec fn first_attempts(self, o: KillOptionsView, from: int) -> Seq<AttemptRecord>
        decreases o.targets.len() - from,
    {
        if from < 0 || from >= o.targets.len() {
            Seq::empty()
        } else if pid_of(o.targets[from]) is Some {
            seq![
                AttemptRecord {
                    target: from as usize,
                    pid: Self::pid_at(o, from),
                    end: self.first_end(o, from),
                },
            ] + self.first_attempts(o, from + 1)
        } else {
            self.first_attempts(o, from + 1)
        }
    }

    /// The records of the rechecks of the targets from position `from` on:
    /// one for each target that the first pass terminated, in their order,
    /// and none for any other.
    pub open spec fn rechecks(self, o: KillOptionsView, from: int) -> Seq<AttemptRecord>
        decreases o.targets.len() - from,
    {
        if from < 0 || from >= o.targets.len() {
            Seq::empty()
        } else if self.first_status(o, from) is Terminated {
            seq![
                AttemptRecord {
                    target: from as usize,
                    pid: Self::pid_at(o, from),
                    end: self.recheck_end(o, from),
                },
            ] + self.rechecks(o, from + 1)
        } else {
            self.rechecks(o, from + 1)
        }
    }
}

/// The statuses from a position on are those of the single targets.
pub proof fn lemma_first_statuses(m: Machine, o: KillOptionsView, from: int)
    requires
        0 <= from <= o.targets.len(),
    ensures
        m.first_statuses(o, from).len() == o.targets.len() - from,
        forall|j: int|
            0 <= j < o.targets.len() - from ==> #[trigger] m.first_statuses(o, from)[j]
                == m.first_status(o, from + j),
    decreases o.targets.len() - from,
{
    if from < o.targets.len() {
        lemma_first_statuses(m, o, from + 1);
        assert forall|j: int| 0 <= j < o.targets.len() - from implies #[trigger] m.first_statuses(
            o,
            from,
        )[j] == m.first_status(o, from + j) by {
            if j > 0 {
                assert(m.first_statuses(o, from)[j] == m.first_statuses(o, from + 1)[j - 1]);
            }
        }
    }
}

/// The recheck changes no status and no record of the first pass, and adds
/// one record for each target that the first pass terminated.
pub proof fn lemma_recheck_pass(m: Machine, x: SessionView)
    requires
        x.inv(),
        x.step is Idle,
        x.phase is Escalating,
        all_numeric(x.options.targets),
        forall|i: int|
            0 <= i < x.count() ==> #[trigger] x.statuses[i] == m.first_status(x.options, i),
    ensures
        m.result(x).statuses == x.statuses,
        m.result(x).attempts == x.attempts,
        m.result(x).escalations == x.escalations + m.rechecks(x.options, x.cursor),
    decreases x.count() - x.cursor,
{
    let o = x.options;
    if x.cursor >= x.count() {
        assert(x.escalations + m.rechecks(o, x.cursor) =~= x.escalations);
    } else {
        assert(all_digits(x.target()));
        lemma_done_with_inv(x, TargetStatus::Failed(TargetFailure::InvalidPid));
        if x.statuses[x.cursor] is Terminated && pid_of(x.target()) is Some {
            let pid = pid_of(x.target())->0;
            let y = m.through(x);
            let over = m.over(pid, x.active_method(), true);
            lemma_attempt_ends_as_the_ladder_says((m.processes)(pid), pid, x.active_method(), true);
            lemma_attempt_run_ends(
                (m.processes)(pid),
                Attempt::initial(pid, x.active_method(), true),
                5,
            );
            assert(y.escalations == x.escalations.push(
                AttemptRecord { target: x.cursor as usize, pid, end: m.recheck_end(o, x.cursor) },
            ));
            let logged = x.start_members(seq![pid]).logged(over, over.outcome()->0);
            lemma_done_with_inv(
                logged,
                status_after(true, logged.member_failed, over.outcome()->0),
            );
            lemma_recheck_pass(m, y);
            assert(y.escalations + m.rechecks(o, x.cursor + 1) =~= x.escalations + m.rechecks(
                o,
                x.cursor,
            ));
        } else {
            lemma_recheck_pass(m, x.skip());
        }
    }
}

/// The first pass gives every target from the current one on its status and
/// its record, each by itself; the recheck follows if a timeout was asked
/// for and any target was terminated.
pub proof fn lemma_first_pass(m: Machine, x: SessionView)
    requires
        x.inv(),
        x.step is Idle,
        x.phase is Initial,
        all_numeric(x.options.targets),
        forall|i: int|
            0 <= i < x.cursor ==> #[trigger] x.statuses[i] == m.first_status(x.options, i),
    ensures
        m.result(x).statuses == x.statuses + m.first_statuses(x.options, x.cursor),
        m.result(x).attempts == x.attempts + m.first_attempts(x.options, x.cursor),
        m.result(x).escalations == x.escalations + (if x.options.timeout_ms is Some
            && any_terminated(m.result(x).statuses) {
            m.rechecks(x.options, 0)
        } else {
            Seq::empty()
        }),
    decreases x.count() - x.cursor,
{
    let o = x.options;
    if x.cursor >= x.count() {
        assert(x.statuses + m.first_statuses(o, x.cursor) =~= x.statuses);
        assert(x.attempts + m.first_attempts(o, x.cursor) =~= x.attempts);
        if x.options.timeout_ms is Some && any_terminated(x.statuses) {
            let awake = SessionView {
                phase: Phase::Escalating,
                step: Step::Idle,
                cursor: 0,
                ..x
            };
            lemma_recheck_pass(m, awake);
        } else {
            assert(x.escalations + Seq::<AttemptRecord>::empty() =~= x.escalations);
        }
    } else {
        assert(all_digits(x.target()));
        lemma_done_with_inv(x, TargetStatus::Failed(TargetFailure::InvalidPid));
        let y = if pid_of(x.target()) is Some {
            m.through(x)
        } else {
            x.done_with(TargetStatus::Failed(TargetFailure::InvalidPid))
        };
        if pid_of(x.target()) is Some {
            let pid = pid_of(x.target())->0;
            let over = m.over(pid, x.active_method(), false);
            lemma_attempt_ends_as_the_ladder_says(
                (m.processes)(pid),
                pid,
                x.active_method(),
                false,
            );
            lemma_attempt_run_ends(
                (m.processes)(pid),
                Attempt::initial(pid, x.active_method(), false),
                5,
            );
            let logged = x.start_members(seq![pid]).logged(over, over.outcome()->0);
            lemma_done_with_inv(
                logged,
                status_after(true, logged.member_failed, over.outcome()->0),
            );
            assert(y.attempts == x.attempts.push(
                AttemptRecord { target: x.cursor as usize, pid, end: m.first_end(o, x.cursor) },
            ));
        }
        assert(y.statuses == x.statuses.push(m.first_status(o, x.cursor)));
        assert forall|i: int| 0 <= i < y.cursor implies #[trigger] y.statuses[i]
            == m.first_status(y.options, i) by {
            if i < x.cursor {
                assert(y.statuses[i] == x.statuses[i]);
            }
        }
        lemma_first_pass(m, y);
        assert(y.statuses + m.first_statuses(o, x.cursor + 1) =~= x.statuses + m.first_statuses(
            o,
            x.cursor,
        ));
        assert(y.attempts + m.first_attempts(o, x.cursor + 1) =~= x.attempts + m.first_attempts(
            o,
            x.cursor,
        ));
    }
}

/// What becomes of a request with numeric targets that a host serves: every
/// target has the status that its own first attempt gives it, in the order
/// of the targets, whatever became of the others; the first pass has made
/// one attempt for each target that denotes a process; and after the grace
/// period, which there is if a timeout was asked for and any target was
/// terminated, each terminated target, and no other, has been rechecked
/// once with the technique of the timeout signal.
pub proof fn lemma_each_target_by_itself(m: Machine, o: KillOptionsView, steps: nat)
    requires
        valid_options(o),
        !o.print_only,
        all_numeric(o.targets),
        steps >= 10 * o.targets.len() + 1,
    ensures
        m.run(SessionView::start(o), steps).step is Finished,
        m.run(SessionView::start(o), steps).statuses == m.first_statuses(o, 0),
        m.run(SessionView::start(o), steps).statuses.len() == o.targets.len(),
        forall|i: int|
            0 <= i < o.targets.len() ==> #[trigger] m.run(SessionView::start(o), steps).statuses[i]
                == m.first_status(o, i),
        m.run(SessionView::start(o), steps).attempts == m.first_attempts(o, 0),
        m.run(SessionView::start(o), steps).escalations == (if o.timeout_ms is Some
            && any_terminated(m.first_statuses(o, 0)) {
            m.rechecks(o, 0)
        } else {
            Seq::<AttemptRecord>::empty()
        }),
        m.run(SessionView::start(o), steps).verdict == report_verdict(m.first_statuses(o, 0)),
{
    lemma_served_request_ends(m, o, steps);
    lemma_first_pass(m, SessionView::fresh(o));
    lemma_first_statuses(m, o, 0);
    let end = m.result(SessionView::fresh(o));
    assert(end.statuses =~= m.first_statuses(o, 0));
    assert(end.attempts =~= m.first_attempts(o, 0));
    assert(Seq::<AttemptRecord>::empty() + m.rechecks(o, 0) =~= m.rechecks(o, 0));
    assert(end.escalations =~= (if o.timeout_ms is Some && any_terminated(
        m.first_statuses(o, 0),
    ) {
        m.rechecks(o, 0)
    } else {
        Seq::<AttemptRecord>::empty()
    }));
}


/// One target without a process among three: all three are attempted, in
/// their order; the one without a process fails as not found, and the two
/// others are terminated although it failed. The request as a whole fails.
pub proof fn lemma_absent_target_fails_alone(m: Machine, o: KillOptionsView, steps: nat)
    requires
        valid_options(o),
        !o.print_only,
        o.timeout_ms is None,
        all_numeric(o.targets),
        o.targets.len() == 3,
        pid_of(o.targets[0]) is Some,
        pid_of(o.targets[1]) is Some,
        pid_of(o.targets[2]) is Some,
        m.first_end(o, 0) is Terminated,
        safety_verdict(Machine::pid_at(o, 1), (m.processes)(Machine::pid_at(o, 1)).current_pid)
            is Ok,
        !(m.processes)(Machine::pid_at(o, 1)).exists,
        m.first_end(o, 2) is Terminated,
        steps >= 31,
    ensures
        m.run(SessionView::start(o), steps).statuses == seq![
            TargetStatus::Terminated,
            TargetStatus::Failed(TargetFailure::Kill(KillFailure::NoSuchProcess)),
            TargetStatus::Terminated,
        ],
        m.run(SessionView::start(o), steps).attempts == seq![
            AttemptRecord { target: 0, pid: Machine::pid_at(o, 0), end: m.first_end(o, 0) },
            AttemptRecord {
                target: 1,
                pid: Machine::pid_at(o, 1),
                end: AttemptEnd::Failed(KillFailure::NoSuchProcess),
            },
            AttemptRecord { target: 2, pid: Machine::pid_at(o, 2), end: m.first_end(o, 2) },
        ],
        m.run(SessionView::start(o), steps).escalations.len() == 0,
        m.run(SessionView::start(o), steps).outcome() == Some(
            Err::<(), (KillErrorKind, Seq<char>)>(
                (KillErrorKind::PartialFailure, Seq::<char>::empty()),
            ),
        ),
        KillFailure::NoSuchProcess.class_of() == ErrorClass::NotFound,
{
    lemma_each_target_by_itself(m, o, steps);
    let end = m.run(SessionView::start(o), steps);
    reveal_with_fuel(Machine::first_attempts, 4);
    assert(end.statuses =~= seq![
        TargetStatus::Terminated,
        TargetStatus::Failed(TargetFailure::Kill(KillFailure::NoSuchProcess)),
        TargetStatus::Terminated,
    ]);
    assert(end.attempts =~= seq![
        AttemptRecord { target: 0, pid: Machine::pid_at(o, 0), end: m.first_end(o, 0) },
        AttemptRecord {
            target: 1,
            pid: Machine::pid_at(o, 1),
            end: AttemptEnd::Failed(KillFailure::NoSuchProcess),
        },
        AttemptRecord { target: 2, pid: Machine::pid_at(o, 2), end: m.first_end(o, 2) },
    ]);
    assert(end.statuses[1] is Failed);
}

/// A target that takes the first signal and stays alive is terminated by
/// force after the grace period: the first pass counts it as terminated, the
/// host is asked to wait, and the recheck, which finds the process still
/// there and past the guard, ends with the forced termination. The request
/// succeeds.
pub proof fn lemma_stubborn_target_is_escalated(m: Machine, o: KillOptionsView, steps: nat)
    requires
        valid_options(o),
        !o.print_only,
        o.timeout_ms is Some,
        timeout_method_of_request(o) == WindowsKillMethod::ForceTerminate,
        all_numeric(o.targets),
        o.targets.len() == 1,
        pid_of(o.targets[0]) is Some,
        m.first_end(o, 0) is Terminated,
        safety_verdict(Machine::pid_at(o, 0), (m.processes)(Machine::pid_at(o, 0)).current_pid)
            is Ok,
        (m.processes)(Machine::pid_at(o, 0)).exists,
        (m.processes)(Machine::pid_at(o, 0)).terminate == TerminateReply::Done,
        steps >= 11,
    ensures
        m.run(SessionView::start(o), steps).statuses == seq![TargetStatus::Terminated],
        m.run(SessionView::start(o), steps).escalations == seq![
            AttemptRecord {
                target: 0,
                pid: Machine::pid_at(o, 0),
                end: AttemptEnd::Terminated(WindowsKillMethod::ForceTerminate),
            },
        ],
        m.run(SessionView::start(o), steps).outcome() == Some(
            Ok::<(), (KillErrorKind, Seq<char>)>(()),
        ),
{
    lemma_each_target_by_itself(m, o, steps);
    let end = m.run(SessionView::start(o), steps);
    reveal_with_fuel(Machine::rechecks, 2);
    assert(end.statuses =~= seq![TargetStatus::Terminated]);
    assert(end.statuses[0] is Terminated);
    assert(end.escalations =~= seq![
        AttemptRecord {
            target: 0,
            pid: Machine::pid_at(o, 0),
            end: AttemptEnd::Terminated(WindowsKillMethod::ForceTerminate),
        },
    ]);
}

} // verus!
