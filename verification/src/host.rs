//! The boundary to the operating system. The engine decides; the host acts.
//! Each `HostRequest` names one thing for the host to do, and the matching
//! `HostReply` carries what came of it.

use vstd::prelude::*;
use vstd::string::*;
use crate::error::SnapshotError;

verus! {

/// One running process in a snapshot: its identifier and executable name.
#[derive(Debug, Clone)]
pub struct ProcessEntry {
    pub pid: u32,
    pub exe_name: String,
}

impl View for ProcessEntry {
    type V = (u32, Seq<char>);

    open spec fn view(&self) -> (u32, Seq<char>) {
        (self.pid, self.exe_name@)
    }
}

/// The entries of a snapshot, in snapshot order.
pub open spec fn entries_of(v: Seq<ProcessEntry>) -> Seq<(u32, Seq<char>)> {
    Seq::new(v.len(), |i: int| v[i]@)
}

/// What the engine asks the host to do next.
#[derive(Debug, Clone, Copy, PartialEq, Eq, Structural)]
pub enum HostRequest {
    /// Report the caller's own process identifier, queried now.
    CurrentPid,
    /// Take a fresh snapshot of all running processes.
    Snapshot,
    /// Tell whether the process can be opened for a query.
    Probe(u32),
    /// Open the process and terminate it with the fixed exit code.
    Terminate(u32),
    /// Send a console event to the process: break if the flag is set,
    /// interrupt otherwise.
    ConsoleEvent(u32, bool),
    /// Ask every top-level window of the process to close.
    CloseWindows(u32),
    /// Block for this many milliseconds.
    Sleep(u64),
    /// Nothing more: the request is complete.
    Finished,
}

/// How a forced termination went.
#[derive(Debug, Clone, Copy, PartialEq, Eq, Structural)]
pub enum TerminateReply {
    /// The process was terminated.
    Done,
    /// The process could not be opened; the error code.
    OpenFailed(u32),
    /// The process was opened but not terminated; the error code.
    TerminateFailed(u32),
}

/// How closing the windows of a process went.
#[derive(Debug, Clone, Copy, PartialEq, Eq, Structural)]
pub enum WindowReply {
    /// The windows could not be enumerated; the error code.
    EnumerationFailed(u32),
    /// The number of windows that the process owns, and the number of them
    /// that took the close request.
    Counted(u32, u32),
}

/// What the host reports back.
#[derive(Debug)]
pub enum HostReply {
    /// The caller's own process identifier.
    CurrentPid(u32),
    /// The snapshot, or why there is none.
    Snapshot(Result<Vec<ProcessEntry>, SnapshotError>),
    /// Whether the probed process exists.
    Probe(bool),
    /// The outcome of a forced termination.
    Terminate(TerminateReply),
    /// The outcome of a console event: `None` if it was sent, else the error code.
    ConsoleEvent(Option<u32>),
    /// The outcome of closing windows.
    CloseWindows(WindowReply),
    /// The pause is over.
    Slept,
}


/// True when a reply is of the kind that a request calls for.
pub open spec fn answers(reply: HostReply, request: HostRequest) -> bool {
    match (request, reply) {
        (HostRequest::CurrentPid, HostReply::CurrentPid(_)) => true,
        (HostRequest::Snapshot, HostReply::Snapshot(_)) => true,
        (HostRequest::Probe(_), HostReply::Probe(_)) => true,
        (HostRequest::Terminate(_), HostReply::Terminate(_)) => true,
        (HostRequest::ConsoleEvent(_, _), HostReply::ConsoleEvent(_)) => true,
        (HostRequest::CloseWindows(_), HostReply::CloseWindows(_)) => true,
        (HostRequest::Sleep(_), HostReply::Slept) => true,
        _ => false,
    }
}

} // verus!
