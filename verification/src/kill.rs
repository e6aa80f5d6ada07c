//! The entry point: from an argument list to a session that the host drives.

use vstd::prelude::*;
use vstd::string::*;
use crate::options::{
    args_of, chosen_signal, first_violation, parse_of, valid_options, KillOptionsView,
};
use crate::signal::method_of_signal;
use crate::session::{lemma_start, SessionView};

pub use crate::attempt::{
    force_terminate_process, graceful_terminate_fallback, graceful_terminate_process,
    kill_process_by_pid, kill_process_with_method, validate_pid_safety, window_close_process,
    Attempt, AttemptEnd, AttemptStage, ConsoleVerdict,
};
pub use crate::error::{ErrorClass, KillError, KillErrorKind, KillFailure, SnapshotError};
pub use crate::host::{HostReply, HostRequest, ProcessEntry, TerminateReply, WindowReply};
pub use crate::options::{parse_arguments, validate_options, KillOptions};
pub use crate::resolve::{find_processes_by_name, name_matches, resolve_name, select_matches};
pub use crate::session::{
    handle_kill, report_kill_results, AttemptRecord, KillSession, Phase, PrintItem, Step,
    TargetFailure, TargetStatus,
};
pub use crate::signal::{is_valid_signal_name, signal_to_windows_method, WindowsKillMethod};

verus! {

/// What an argument list leads to: the error that ends it before anything is
/// asked of the host, or the session at its first request.
pub open spec fn execute_of(args: Seq<Seq<char>>) -> Result<SessionView, (KillErrorKind, Seq<char>)> {
    if args.len() == 0 {
        Err((KillErrorKind::Usage, Seq::empty()))
    } else {
        match parse_of(args) {
            Err(e) => Err(e),
            Ok(o) => match first_violation(o) {
                Some(e) => Err(e),
                None => Ok(SessionView::start(o)),
            },
        }
    }
}

/// Reads the arguments of a `kill` command line, checks the request, and
/// opens its session. No argument at all is a usage error. A malformed flag
/// or an inconsistent request fails here, before anything is asked of the
/// host.
pub fn execute(args: &[&str]) -> (r: Result<KillSession, KillError>)
    ensures
        match execute_of(args_of(args@)) {
            Err(e) => r.is_err() && r.unwrap_err()@ == e,
            Ok(s) => r.is_ok() && r.unwrap()@ == s && s.wf(),
        },
{
    if args.len() == 0 {
        return Err(KillError::bare(KillErrorKind::Usage));
    }
    match parse_arguments(args) {
        Err(e) => Err(e),
        Ok(options) => handle_kill(options),
    }
}

/// A session is opened for a request that breaks no rule, and for no other:
/// where the arguments are malformed, or name an unsupported signal, or are
/// inconsistent, there is no session, and so nothing is ever asked of the host.
pub proof fn lemma_session_needs_valid_request(args: Seq<Seq<char>>)
    ensures
        match execute_of(args) {
            Ok(s) => {
                &&& parse_of(args) == Ok::<KillOptionsView, (KillErrorKind, Seq<char>)>(s.options)
                &&& valid_options(s.options)
                &&& s.wf()
                &&& chosen_signal(s.options).is_some() ==> method_of_signal(
                    chosen_signal(s.options).unwrap(),
                ) == Some(s.method)
                &&& s.options.timeout_signal.is_some() ==> method_of_signal(
                    s.options.timeout_signal.unwrap(),
                ) == Some(s.timeout_method)
            },
            Err(_) => args.len() == 0 || parse_of(args).is_err() || !valid_options(
                parse_of(args)->Ok_0,
            ),
        },
{
    if args.len() > 0 && parse_of(args).is_ok() {
        let o = parse_of(args)->Ok_0;
        if valid_options(o) {
            lemma_start(o);
        }
    }
}

} // verus!
