//! One termination attempt on one process: the safety guard, the existence
//! probe, and the ladder of techniques with its fallbacks.

use vstd::prelude::*;
use crate::error::{ErrorClass, KillFailure};
use crate::host::{answers, HostReply, HostRequest, TerminateReply, WindowReply};
use crate::signal::WindowsKillMethod;

verus! {

/// True for the identifiers of the platform's kernel and idle processes.
pub open spec fn protected_pid(pid: u32) -> bool {
    pid == 0 || pid == 4 || pid == 8
}

/// The guard's verdict on `pid`, given the caller's own identifier: a
/// protected identifier is refused first, then the caller's own.
pub open spec fn safety_verdict(pid: u32, current_pid: u32) -> Result<(), KillFailure> {
    if protected_pid(pid) {
        Err(KillFailure::ProtectedPid)
    } else if pid == current_pid {
        Err(KillFailure::CurrentProcess)
    } else {
        Ok(())
    }
}

/// Refuses the protected identifiers and the caller's own, which the host has
/// queried just now.
pub fn validate_pid_safety(pid: u32, current_pid: u32) -> (r: Result<(), KillFailure>)
    ensures
        r == safety_verdict(pid, current_pid),
{
    if pid == 0 || pid == 4 || pid == 8 {
        Err(KillFailure::ProtectedPid)
    } else if pid == current_pid {
        Err(KillFailure::CurrentProcess)
    } else {
        Ok(())
    }
}

/// What a forced termination amounts to: success, or the reason told apart
/// by the stage that failed and by its error code.
pub open spec fn terminate_verdict(reply: TerminateReply) -> Result<(), KillFailure> {
    match reply {
        TerminateReply::Done => Ok(()),
        TerminateReply::OpenFailed(code) => if code == 5 {
            Err(KillFailure::OpenDenied)
        } else if code == 87 {
            Err(KillFailure::OpenInvalid)
        } else {
            Err(KillFailure::OpenFailed(code))
        },
        TerminateReply::TerminateFailed(code) => if code == 5 {
            Err(KillFailure::TerminateDenied)
        } else {
            Err(KillFailure::TerminateFailed(code))
        },
    }
}

/// Judges the outcome of a forced termination.
pub fn force_terminate_process(reply: TerminateReply) -> (r: Result<(), KillFailure>)
    ensures
        r == terminate_verdict(reply),
{
    match reply {
        TerminateReply::Done => Ok(()),
        TerminateReply::OpenFailed(code) => if code == 5 {
            Err(KillFailure::OpenDenied)
        } else if code == 87 {
            Err(KillFailure::OpenInvalid)
        } else {
            Err(KillFailure::OpenFailed(code))
        },
        TerminateReply::TerminateFailed(code) => if code == 5 {
            Err(KillFailure::TerminateDenied)
        } else {
            Err(KillFailure::TerminateFailed(code))
        },
    }
}

/// What closing windows amounts to: success needs a window found and a close
/// request taken; no window, and windows that all refused, are told apart.
pub open spec fn window_verdict(reply: WindowReply) -> Result<(), KillFailure> {
    match reply {
        WindowReply::EnumerationFailed(code) => Err(KillFailure::WindowEnumerationFailed(code)),
        WindowReply::Counted(found, closed) => if found == 0 {
            Err(KillFailure::NoWindows)
        } else if closed == 0 {
            Err(KillFailure::WindowsRefused(found))
        } else {
            Ok(())
        },
    }
}

/// Judges the outcome of closing the windows of a process.
pub fn window_close_process(reply: WindowReply) -> (r: Result<(), KillFailure>)
    ensures
        r == window_verdict(reply),
{
    match reply {
        WindowReply::EnumerationFailed(code) => Err(KillFailure::WindowEnumerationFailed(code)),
        WindowReply::Counted(found, closed) => if found == 0 {
            Err(KillFailure::NoWindows)
        } else if closed == 0 {
            Err(KillFailure::WindowsRefused(found))
        } else {
            Ok(())
        },
    }
}

/// What a console event amounts to.
#[derive(Debug, Clone, Copy, PartialEq, Eq, Structural)]
pub enum ConsoleVerdict {
    /// The event was sent.
    Sent,
    /// The event could not be sent, which is what happens to a process
    /// without a console; the error code. The next technique is due.
    FallBack(u32),
}

/// The verdict on a console event: `None` is success; any failure calls for
/// the fallback and is not an error by itself.
pub open spec fn console_verdict(reply: Option<u32>) -> ConsoleVerdict {
    match reply {
        None => ConsoleVerdict::Sent,
        Some(code) => ConsoleVerdict::FallBack(code),
    }
}

/// Judges the outcome of a console event.
pub fn graceful_terminate_process(reply: Option<u32>) -> (r: ConsoleVerdict)
    ensures
        r == console_verdict(reply),
{
    match reply {
        None => ConsoleVerdict::Sent,
        Some(code) => ConsoleVerdict::FallBack(code),
    }
}

/// True for the two techniques that send a console event.
pub open spec fn graceful(method: WindowsKillMethod) -> bool {
    method == WindowsKillMethod::GracefulCtrlC || method == WindowsKillMethod::GracefulCtrlBreak
}

/// The ladder: the technique to try once `rung` has failed, for an attempt
/// that was asked to use `method`. Only a graceful attempt falls back: from
/// the console event to closing windows, and from there to forced termination.
pub open spec fn next_rung(method: WindowsKillMethod, rung: WindowsKillMethod) -> Option<
    WindowsKillMethod,
> {
    if !graceful(method) {
        None
    } else {
        match rung {
            WindowsKillMethod::GracefulCtrlC | WindowsKillMethod::GracefulCtrlBreak => Some(
                WindowsKillMethod::WindowClose,
            ),
            WindowsKillMethod::WindowClose => Some(WindowsKillMethod::ForceTerminate),
            WindowsKillMethod::ForceTerminate => None,
        }
    }
}

/// Looks up the ladder.
pub fn graceful_terminate_fallback(method: WindowsKillMethod, rung: WindowsKillMethod) -> (r:
    Option<WindowsKillMethod>)
    ensures
        r == next_rung(method, rung),
{
    match method {
        WindowsKillMethod::GracefulCtrlC | WindowsKillMethod::GracefulCtrlBreak => match rung {
            WindowsKillMethod::GracefulCtrlC | WindowsKillMethod::GracefulCtrlBreak => Some(
                WindowsKillMethod::WindowClose,
            ),
            WindowsKillMethod::WindowClose => Some(WindowsKillMethod::ForceTerminate),
            WindowsKillMethod::ForceTerminate => None,
        },
        _ => None,
    }
}

/// The host request that carries out one technique on one process.
pub open spec fn request_for(pid: u32, rung: WindowsKillMethod) -> HostRequest {
    match rung {
        WindowsKillMethod::ForceTerminate => HostRequest::Terminate(pid),
        WindowsKillMethod::GracefulCtrlC => HostRequest::ConsoleEvent(pid, false),
        WindowsKillMethod::GracefulCtrlBreak => HostRequest::ConsoleEvent(pid, true),
        WindowsKillMethod::WindowClose => HostRequest::CloseWindows(pid),
    }
}

/// Names the host request that carries out one technique on one process.
pub fn kill_process_with_method(pid: u32, method: WindowsKillMethod) -> (r: HostRequest)
    ensures
        r == request_for(pid, method),
{
    match method {
        WindowsKillMethod::ForceTerminate => HostRequest::Terminate(pid),
        WindowsKillMethod::GracefulCtrlC => HostRequest::ConsoleEvent(pid, false),
        WindowsKillMethod::GracefulCtrlBreak => HostRequest::ConsoleEvent(pid, true),
        WindowsKillMethod::WindowClose => HostRequest::CloseWindows(pid),
    }
}

/// How an attempt ended.
#[derive(Debug, Clone, Copy, PartialEq, Eq, Structural)]
pub enum AttemptEnd {
    /// The process took this technique.
    Terminated(WindowsKillMethod),
    /// A recheck found the process gone before anything was sent.
    Gone,
    /// The process was not terminated, for this reason.
    Failed(KillFailure),
}

/// Where an attempt stands.
#[derive(Debug, Clone, Copy, PartialEq, Eq, Structural)]
pub enum AttemptStage {
    /// The caller's own identifier has been asked for.
    Guard,
    /// The existence of the process has been asked for.
    Probe,
    /// This technique has been asked for.
    Trying(WindowsKillMethod),
    /// Over, with this end.
    Over(AttemptEnd),
}

/// One attempt to terminate the process `pid` with `method`.
///
/// A first attempt passes the guard, then probes for the process, then
/// climbs down the ladder. A recheck, made after a grace period, probes
/// first: a process that is gone needs nothing more; one that is still there
/// passes the guard and then climbs down the ladder. `own_pid` is the
/// caller's identifier, once the host has reported it.
#[derive(Debug, Clone, Copy, PartialEq, Eq, Structural)]
pub struct Attempt {
    pub pid: u32,
    pub method: WindowsKillMethod,
    pub recheck: bool,
    pub own_pid: Option<u32>,
    pub stage: AttemptStage,
}

/// True for the requests that may end or disturb a process.
pub open spec fn harmful(request: HostRequest) -> bool {
    request is Terminate || request is ConsoleEvent || request is CloseWindows
}

impl Attempt {
    /// The attempt before the host has replied to anything.
    pub open spec fn initial(pid: u32, method: WindowsKillMethod, recheck: bool) -> Attempt {
        Attempt {
            pid,
            method,
            recheck,
            own_pid: None,
            stage: if recheck {
                AttemptStage::Probe
            } else {
                AttemptStage::Guard
            },
        }
    }

    /// What the attempt is waiting for.
    pub open spec fn pending(self) -> HostRequest {
        match self.stage {
            AttemptStage::Guard => HostRequest::CurrentPid,
            AttemptStage::Probe => HostRequest::Probe(self.pid),
            AttemptStage::Trying(rung) => request_for(self.pid, rung),
            AttemptStage::Over(_) => HostRequest::Finished,
        }
    }

    /// How the attempt ended, once it is over.
    pub open spec fn outcome(self) -> Option<AttemptEnd> {
        match self.stage {
            AttemptStage::Over(end) => Some(end),
            _ => None,
        }
    }

    /// The stage after the technique `rung` has failed with `reason`: the next
    /// rung of the ladder, or the end with that reason.
    pub open spec fn fall_back(self, rung: WindowsKillMethod, reason: KillFailure) -> AttemptStage {
        match next_rung(self.method, rung) {
            Some(next) => AttemptStage::Trying(next),
            None => AttemptStage::Over(AttemptEnd::Failed(reason)),
        }
    }

    /// The stage that a reply leads to. A reply that does not answer the
    /// pending request changes nothing.
    pub open spec fn stage_after(self, reply: HostReply) -> AttemptStage {
        match (self.stage, reply) {
            (AttemptStage::Guard, HostReply::CurrentPid(current)) => match safety_verdict(
                self.pid,
                current,
            ) {
                Err(reason) => AttemptStage::Over(AttemptEnd::Failed(reason)),
                Ok(_) => if self.recheck {
                    AttemptStage::Trying(self.method)
                } else {
                    AttemptStage::Probe
                },
            },
            (AttemptStage::Probe, HostReply::Probe(exists)) => if exists {
                if self.recheck {
                    AttemptStage::Guard
                } else {
                    AttemptStage::Trying(self.method)
                }
            } else {
                if self.recheck {
                    AttemptStage::Over(AttemptEnd::Gone)
                } else {
                    AttemptStage::Over(AttemptEnd::Failed(KillFailure::NoSuchProcess))
                }
            },
            (
                AttemptStage::Trying(WindowsKillMethod::ForceTerminate),
                HostReply::Terminate(reply),
            ) => match terminate_verdict(reply) {
                Ok(_) => AttemptStage::Over(
                    AttemptEnd::Terminated(WindowsKillMethod::ForceTerminate),
                ),
                Err(reason) => AttemptStage::Over(AttemptEnd::Failed(reason)),
            },
            (
                AttemptStage::Trying(WindowsKillMethod::GracefulCtrlC),
                HostReply::ConsoleEvent(reply),
            ) => match console_verdict(reply) {
                ConsoleVerdict::Sent => AttemptStage::Over(
                    AttemptEnd::Terminated(WindowsKillMethod::GracefulCtrlC),
                ),
                ConsoleVerdict::FallBack(_) => AttemptStage::Trying(WindowsKillMethod::WindowClose),
            },
            (
                AttemptStage::Trying(WindowsKillMethod::GracefulCtrlBreak),
                HostReply::ConsoleEvent(reply),
            ) => match console_verdict(reply) {
                ConsoleVerdict::Sent => AttemptStage::Over(
                    AttemptEnd::Terminated(WindowsKillMethod::GracefulCtrlBreak),
                ),
                ConsoleVerdict::FallBack(_) => AttemptStage::Trying(WindowsKillMethod::WindowClose),
            },
            (
                AttemptStage::Trying(WindowsKillMethod::WindowClose),
                HostReply::CloseWindows(reply),
            ) => match window_verdict(reply) {
                Ok(_) => AttemptStage::Over(AttemptEnd::Terminated(WindowsKillMethod::WindowClose)),
                Err(reason) => self.fall_back(WindowsKillMethod::WindowClose, reason),
            },
            _ => self.stage,
        }
    }

    /// The attempt after a reply.
    pub open spec fn after(self, reply: HostReply) -> Attempt {
        Attempt {
            own_pid: match (self.stage, reply) {
                (AttemptStage::Guard, HostReply::CurrentPid(current)) => Some(current),
                _ => self.own_pid,
            },
            stage: self.stage_after(reply),
            ..self
        }
    }

    /// True when the attempt can have come about: a technique is tried only
    /// once the guard has passed against the caller's identifier as reported,
    /// and a technique other than the one asked for is tried only on the way
    /// down the ladder.
    pub open spec fn wf(self) -> bool {
        &&& self.stage is Guard ==> self.own_pid is None
        &&& self.stage is Probe ==> (self.recheck <==> self.own_pid is None)
        &&& (self.stage is Trying || (self.stage is Probe && !self.recheck)) ==> self.own_pid is Some
            && safety_verdict(self.pid, self.own_pid->0) is Ok
        &&& match self.stage {
            AttemptStage::Trying(rung) => rung == self.method || (graceful(self.method) && (rung
                == WindowsKillMethod::WindowClose || rung == WindowsKillMethod::ForceTerminate)),
            _ => true,
        }
    }

    /// Starts an attempt: a first one if `recheck` is unset, which begins
    /// with the guard, or a recheck, which begins with the probe.
    pub fn begin(pid: u32, method: WindowsKillMethod, recheck: bool) -> (r: Attempt)
        ensures
            r == Attempt::initial(pid, method, recheck),
            r.wf(),
            !harmful(r.pending()),
    {
        Attempt {
            pid,
            method,
            recheck,
            own_pid: None,
            stage: if recheck {
                AttemptStage::Probe
            } else {
                AttemptStage::Guard
            },
        }
    }

    /// What the host is to do next for this attempt.
    pub fn request(&self) -> (r: HostRequest)
        ensures
            r == self.pending(),
    {
        match self.stage {
            AttemptStage::Guard => HostRequest::CurrentPid,
            AttemptStage::Probe => HostRequest::Probe(self.pid),
            AttemptStage::Trying(rung) => kill_process_with_method(self.pid, rung),
            AttemptStage::Over(_) => HostRequest::Finished,
        }
    }

    /// How the attempt ended, once it is over.
    pub fn result(&self) -> (r: Option<AttemptEnd>)
        ensures
            r == self.outcome(),
    {
        match self.stage {
            AttemptStage::Over(end) => Some(end),
            _ => None,
        }
    }

    /// Takes the host's reply to the pending request and moves on: past the
    /// guard, past the probe, or one rung down the ladder.
    pub fn advance(&mut self, reply: &HostReply)
        ensures
            *final(self) == old(self).after(*reply),
            old(self).wf() ==> final(self).wf(),
    {
        match (self.stage, reply) {
            (AttemptStage::Guard, HostReply::CurrentPid(current)) => {
                self.own_pid = Some(*current);
                match validate_pid_safety(self.pid, *current) {
                    Err(reason) => {
                        self.stage = AttemptStage::Over(AttemptEnd::Failed(reason));
                    },
                    Ok(_) => {
                        if self.recheck {
                            self.stage = AttemptStage::Trying(self.method);
                        } else {
                            self.stage = AttemptStage::Probe;
                        }
                    },
                }
            },
            (AttemptStage::Probe, HostReply::Probe(exists)) => {
                if *exists {
                    if self.recheck {
                        self.stage = AttemptStage::Guard;
                    } else {
                        self.stage = AttemptStage::Trying(self.method);
                    }
                } else {
                    if self.recheck {
                        self.stage = AttemptStage::Over(AttemptEnd::Gone);
                    } else {
                        self.stage = AttemptStage::Over(
                            AttemptEnd::Failed(KillFailure::NoSuchProcess),
                        );
                    }
                }
            },
            (
                AttemptStage::Trying(WindowsKillMethod::ForceTerminate),
                HostReply::Terminate(outcome),
            ) => {
                match force_terminate_process(*outcome) {
                    Ok(_) => {
                        self.stage = AttemptStage::Over(
                            AttemptEnd::Terminated(WindowsKillMethod::ForceTerminate),
                        );
                    },
                    Err(reason) => {
                        self.stage = AttemptStage::Over(AttemptEnd::Failed(reason));
                    },
                }
            },
            (
                AttemptStage::Trying(WindowsKillMethod::GracefulCtrlC),
                HostReply::ConsoleEvent(outcome),
            ) => {
                match graceful_terminate_process(*outcome) {
                    ConsoleVerdict::Sent => {
                        self.stage = AttemptStage::Over(
                            AttemptEnd::Terminated(WindowsKillMethod::GracefulCtrlC),
                        );
                    },
                    ConsoleVerdict::FallBack(_) => {
                        self.stage = AttemptStage::Trying(WindowsKillMethod::WindowClose);
                    },
                }
            },
            (
                AttemptStage::Trying(WindowsKillMethod::GracefulCtrlBreak),
                HostReply::ConsoleEvent(outcome),
            ) => {
                match graceful_terminate_process(*outcome) {
                    ConsoleVerdict::Sent => {
                        self.stage = AttemptStage::Over(
                            AttemptEnd::Terminated(WindowsKillMethod::GracefulCtrlBreak),
                        );
                    },
                    ConsoleVerdict::FallBack(_) => {
                        self.stage = AttemptStage::Trying(WindowsKillMethod::WindowClose);
                    },
                }
            },
            (
                AttemptStage::Trying(WindowsKillMethod::WindowClose),
                HostReply::CloseWindows(outcome),
            ) => {
                match window_close_process(*outcome) {
                    Ok(_) => {
                        self.stage = AttemptStage::Over(
                            AttemptEnd::Terminated(WindowsKillMethod::WindowClose),
                        );
                    },
                    Err(reason) => {
                        match graceful_terminate_fallback(
                            self.method,
                            WindowsKillMethod::WindowClose,
                        ) {
                            Some(next) => {
                                self.stage = AttemptStage::Trying(next);
                            },
                            None => {
                                self.stage = AttemptStage::Over(AttemptEnd::Failed(reason));
                            },
                        }
                    },
                }
            },
            _ => {},
        }
    }
}

/// Starts a first attempt on one process: the guard, the probe, the ladder.
pub fn kill_process_by_pid(pid: u32, method: WindowsKillMethod) -> (r: Attempt)
    ensures
        r == Attempt::initial(pid, method, false),
        r.wf(),
        r.pending() == HostRequest::CurrentPid,
{
    Attempt::begin(pid, method, false)
}

/// The caller's own process is never touched: a first attempt on it begins
/// by asking for the caller's identifier, and ends on the truthful reply with
/// a safety rejection. Nothing else was asked of the host.
pub proof fn lemma_own_pid_is_refused(pid: u32, method: WindowsKillMethod)
    ensures
        Attempt::initial(pid, method, false).pending() == HostRequest::CurrentPid,
        Attempt::initial(pid, method, false).after(HostReply::CurrentPid(pid)).outcome() is Some,
        Attempt::initial(pid, method, false).after(HostReply::CurrentPid(pid)).outcome()->0
            is Failed,
        Attempt::initial(pid, method, false).after(
            HostReply::CurrentPid(pid),
        ).outcome()->0->Failed_0.class_of() == ErrorClass::SafetyRejection,
        Attempt::initial(pid, method, false).after(HostReply::CurrentPid(pid)).pending()
            == HostRequest::Finished,
{
}

/// The same holds of a recheck: it probes first, and if the process is still
/// there, the guard refuses the caller's own identifier before anything is sent.
pub proof fn lemma_own_pid_is_refused_on_recheck(pid: u32, method: WindowsKillMethod)
    ensures
        Attempt::initial(pid, method, true).pending() == HostRequest::Probe(pid),
        Attempt::initial(pid, method, true).after(HostReply::Probe(false)).outcome() == Some(
            AttemptEnd::Gone,
        ),
        Attempt::initial(pid, method, true).after(HostReply::Probe(true)).pending()
            == HostRequest::CurrentPid,
        Attempt::initial(pid, method, true).after(HostReply::Probe(true)).after(
            HostReply::CurrentPid(pid),
        ).outcome()->0 is Failed,
        Attempt::initial(pid, method, true).after(HostReply::Probe(true)).after(
            HostReply::CurrentPid(pid),
        ).outcome()->0->Failed_0.class_of() == ErrorClass::SafetyRejection,
{
}

/// Every request that may end or disturb a process comes after the guard has
/// passed: it is for a process that is neither protected nor the caller, by
/// the identifier that the host reported for the caller.
pub proof fn lemma_guard_precedes_harm(a: Attempt)
    requires
        a.wf(),
        harmful(a.pending()),
    ensures
        a.own_pid is Some,
        a.pid != a.own_pid->0,
        !protected_pid(a.pid),
        a.pending() == request_for(a.pid, a.stage->Trying_0),
{
}

/// Whatever the host replies, an attempt stays one that can have come about;
/// and an attempt that is over stays as it is.
pub proof fn lemma_attempt_after(a: Attempt, reply: HostReply)
    requires
        a.wf(),
    ensures
        a.after(reply).wf(),
        a.after(reply).pid == a.pid,
        a.after(reply).method == a.method,
        a.stage is Over ==> a.after(reply) == a,
{
}

/// What the host would reply about one process, whatever it is asked.
pub ghost struct Answers {
    pub current_pid: u32,
    pub exists: bool,
    pub console: Option<u32>,
    pub windows: WindowReply,
    pub terminate: TerminateReply,
}

impl Answers {
    /// The reply to one request.
    pub open spec fn reply_to(self, request: HostRequest) -> HostReply {
        match request {
            HostRequest::CurrentPid => HostReply::CurrentPid(self.current_pid),
            HostRequest::Probe(_) => HostReply::Probe(self.exists),
            HostRequest::Terminate(_) => HostReply::Terminate(self.terminate),
            HostRequest::ConsoleEvent(_, _) => HostReply::ConsoleEvent(self.console),
            HostRequest::CloseWindows(_) => HostReply::CloseWindows(self.windows),
            _ => HostReply::Slept,
        }
    }

    /// How forced termination ends.
    pub open spec fn forced(self) -> AttemptEnd {
        match terminate_verdict(self.terminate) {
            Ok(_) => AttemptEnd::Terminated(WindowsKillMethod::ForceTerminate),
            Err(reason) => AttemptEnd::Failed(reason),
        }
    }

    /// How the ladder ends for the technique asked for. Forced termination
    /// and closing windows stand alone. A console event that is sent ends the
    /// attempt; one that fails leads to closing windows, and, if that fails
    /// too, to forced termination, whose end is then reported.
    pub open spec fn ladder(self, method: WindowsKillMethod) -> AttemptEnd {
        match method {
            WindowsKillMethod::ForceTerminate => self.forced(),
            WindowsKillMethod::WindowClose => match window_verdict(self.windows) {
                Ok(_) => AttemptEnd::Terminated(WindowsKillMethod::WindowClose),
                Err(reason) => AttemptEnd::Failed(reason),
            },
            _ => match console_verdict(self.console) {
                ConsoleVerdict::Sent => AttemptEnd::Terminated(method),
                ConsoleVerdict::FallBack(_) => match window_verdict(self.windows) {
                    Ok(_) => AttemptEnd::Terminated(WindowsKillMethod::WindowClose),
                    Err(_) => self.forced(),
                },
            },
        }
    }

    /// How an attempt ends. A first attempt: the guard, then the probe, then
    /// the ladder. A recheck: the probe, then the guard, then the ladder.
    pub open spec fn end_of(self, pid: u32, method: WindowsKillMethod, recheck: bool) -> AttemptEnd {
        if recheck {
            if !self.exists {
                AttemptEnd::Gone
            } else {
                match safety_verdict(pid, self.current_pid) {
                    Err(reason) => AttemptEnd::Failed(reason),
                    Ok(_) => self.ladder(method),
                }
            }
        } else {
            match safety_verdict(pid, self.current_pid) {
                Err(reason) => AttemptEnd::Failed(reason),
                Ok(_) => if !self.exists {
                    AttemptEnd::Failed(KillFailure::NoSuchProcess)
                } else {
                    self.ladder(method)
                },
            }
        }
    }

    /// The attempt after the host has served `steps` of its requests.
    pub open spec fn run(self, a: Attempt, steps: nat) -> Attempt
        decreases steps,
    {
        if steps == 0 {
            a
        } else {
            self.run(a.after(self.reply_to(a.pending())), (steps - 1) as nat)
        }
    }
}

/// An attempt that the host serves is over after five requests at most, and
/// ends as the guard, the probe and the ladder say.
pub proof fn lemma_attempt_ends_as_the_ladder_says(
    w: Answers,
    pid: u32,
    method: WindowsKillMethod,
    recheck: bool,
)
    ensures
        w.run(Attempt::initial(pid, method, recheck), 5).outcome() == Some(
            w.end_of(pid, method, recheck),
        ),
{
    reveal_with_fuel(Answers::run, 6);
}


impl Attempt {
    /// The number of requests that the attempt may still make, at most.
    pub open spec fn rank(self) -> nat {
        match self.stage {
            AttemptStage::Over(_) => 0,
            AttemptStage::Trying(WindowsKillMethod::ForceTerminate) => 1,
            AttemptStage::Trying(WindowsKillMethod::WindowClose) => 2,
            AttemptStage::Trying(_) => 3,
            AttemptStage::Guard => if self.recheck {
                4
            } else {
                5
            },
            AttemptStage::Probe => if self.recheck {
                5
            } else {
                4
            },
        }
    }
}

/// Every reply that answers what an attempt asked brings the attempt closer
/// to its end: no attempt asks more than five times.
pub proof fn lemma_attempt_progress(a: Attempt, reply: HostReply)
    requires
        a.wf(),
        a.outcome() is None,
        answers(reply, a.pending()),
    ensures
        a.after(reply).rank() < a.rank(),
        a.rank() <= 5,
{
}

} // verus!
