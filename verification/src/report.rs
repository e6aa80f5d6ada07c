//! The user-facing text: one message for each error and each reason.

use vstd::prelude::*;
use vstd::string::*;
use crate::error::{KillError, KillErrorKind, KillFailure, SnapshotError};
use crate::attempt::AttemptEnd;
use crate::number::{digits_value, parse_pid, pid_of};
use crate::options::texts_of;
use crate::session::{AttemptRecord, KillSession, SessionView, TargetFailure, TargetStatus};
use crate::text::all_digits;

verus! {

/// The character of one decimal digit.
pub open spec fn digit_char(d: nat) -> char {
    if d == 0 {
        '0'
    } else if d == 1 {
        '1'
    } else if d == 2 {
        '2'
    } else if d == 3 {
        '3'
    } else if d == 4 {
        '4'
    } else if d == 5 {
        '5'
    } else if d == 6 {
        '6'
    } else if d == 7 {
        '7'
    } else if d == 8 {
        '8'
    } else {
        '9'
    }
}

/// A number in decimal, without sign and without leading zeros.
pub open spec fn decimal_text(n: nat) -> Seq<char>
    decreases n,
{
    if n < 10 {
        seq![digit_char(n)]
    } else {
        decimal_text(n / 10).push(digit_char(n % 10))
    }
}

/// Reading a number back from its decimal text gives the number.
pub proof fn lemma_decimal_round_trip(n: nat)
    ensures
        decimal_text(n).len() > 0,
        all_digits(decimal_text(n)),
        digits_value(decimal_text(n)) == n,
    decreases n,
{
    if n < 10 {
        let t = decimal_text(n);
        assert(t.drop_last() =~= Seq::<char>::empty());
        assert(digits_value(t.drop_last()) == 0);
        assert(t.last() == digit_char(n));
    } else {
        lemma_decimal_round_trip(n / 10);
        let t = decimal_text(n);
        assert(t.drop_last() =~= decimal_text(n / 10));
        assert(t.last() == digit_char(n % 10));
        assert forall|i: int| 0 <= i < t.len() implies '0' <= #[trigger] t[i] <= '9' by {
            if i < t.len() - 1 {
                assert(t[i] == decimal_text(n / 10)[i]);
            }
        }
    }
}

/// The text of one decimal digit.
fn digit_str(d: u64) -> (r: &'static str)
    requires
        d < 10,
    ensures
        r@ == seq![digit_char(d as nat)],
{
    proof {
        reveal_strlit("0");
        reveal_strlit("1");
        reveal_strlit("2");
        reveal_strlit("3");
        reveal_strlit("4");
        reveal_strlit("5");
        reveal_strlit("6");
        reveal_strlit("7");
        reveal_strlit("8");
        reveal_strlit("9");
    }
    let r = if d == 0 {
        "0"
    } else if d == 1 {
        "1"
    } else if d == 2 {
        "2"
    } else if d == 3 {
        "3"
    } else if d == 4 {
        "4"
    } else if d == 5 {
        "5"
    } else if d == 6 {
        "6"
    } else if d == 7 {
        "7"
    } else if d == 8 {
        "8"
    } else {
        "9"
    };
    assert(r@ =~= seq![digit_char(d as nat)]);
    r
}

/// Appends a number in decimal.
pub fn push_decimal(out: &mut String, n: u64)
    ensures
        final(out)@ == old(out)@ + decimal_text(n as nat),
    decreases n,
{
    if n >= 10 {
        push_decimal(out, n / 10);
    }
    out.append(digit_str(n % 10));
    assert(out@ =~= old(out)@ + decimal_text(n as nat));
}

/// A number in decimal.
pub fn decimal(n: u64) -> (r: String)
    ensures
        r@ == decimal_text(n as nat),
{
    let mut out = String::new();
    push_decimal(&mut out, n);
    assert(out@ =~= decimal_text(n as nat));
    out
}


/// A number between two texts.
pub open spec fn numbered(before: Seq<char>, n: nat, after: Seq<char>) -> Seq<char> {
    before + decimal_text(n) + after
}

/// Three texts, one after the other.
fn join3(a: &str, b: &str, c: &str) -> (r: String)
    ensures
        r@ == a@ + b@ + c@,
{
    let mut out = String::new();
    out.append(a);
    out.append(b);
    out.append(c);
    assert(out@ =~= a@ + b@ + c@);
    out
}

/// A number between two texts.
fn framed(before: &str, n: u64, after: &str) -> (r: String)
    ensures
        r@ == numbered(before@, n as nat, after@),
{
    let mut out = String::new();
    out.append(before);
    push_decimal(&mut out, n);
    out.append(after);
    assert(out@ =~= before@ + decimal_text(n as nat) + after@);
    out
}

/// The help text that answers a call without arguments.
pub open spec fn usage_text() -> Seq<char> {
    "Usage: kill [-signal|-s signal|-p] [-q value] [-a] [--timeout milliseconds signal] [--] pid|name...\n\nSupported signals on Windows:\n-2, -INT    Interrupt (Ctrl+C)\n-3, -QUIT   Quit (Ctrl+Break)\n-9, -KILL   Force terminate (default)\n-15, -TERM  Graceful terminate (Ctrl+C)\n\nExamples:\nkill 1234           # Force terminate process 1234\nkill -TERM 1234     # Graceful terminate\nkill -9 1234        # Force terminate\nkill -a notepad     # Kill all notepad processes"@
}

/// The help text that answers a call without arguments.
pub fn usage() -> (r: &'static str)
    ensures
        r@ == usage_text(),
{
    "Usage: kill [-signal|-s signal|-p] [-q value] [-a] [--timeout milliseconds signal] [--] pid|name...\n\nSupported signals on Windows:\n-2, -INT    Interrupt (Ctrl+C)\n-3, -QUIT   Quit (Ctrl+Break)\n-9, -KILL   Force terminate (default)\n-15, -TERM  Graceful terminate (Ctrl+C)\n\nExamples:\nkill 1234           # Force terminate process 1234\nkill -TERM 1234     # Graceful terminate\nkill -9 1234        # Force terminate\nkill -a notepad     # Kill all notepad processes"
}

/// The message for a failed process snapshot.
pub open spec fn snapshot_text(e: SnapshotError) -> Seq<char> {
    match e {
        SnapshotError::CreateFailed(code) => numbered(
            "Failed to create process snapshot: Windows error code "@,
            code as nat,
            ""@,
        ),
        SnapshotError::FirstEntryFailed(code) => numbered(
            "Failed to get first process: Windows error code "@,
            code as nat,
            ""@,
        ),
    }
}

/// Words the failure of a process snapshot.
pub fn describe_snapshot(e: SnapshotError) -> (r: String)
    ensures
        r@ == snapshot_text(e),
{
    match e {
        SnapshotError::CreateFailed(code) => framed(
            "Failed to create process snapshot: Windows error code ",
            code as u64,
            "",
        ),
        SnapshotError::FirstEntryFailed(code) => framed(
            "Failed to get first process: Windows error code ",
            code as u64,
            "",
        ),
    }
}

/// The message for an error that ends a request; `detail` is the token that
/// the error names.
pub open spec fn error_text(kind: KillErrorKind, detail: Seq<char>) -> Seq<char> {
    match kind {
        KillErrorKind::Usage => usage_text(),
        KillErrorKind::MissingSignalArgument => "Option -s requires a signal argument"@,
        KillErrorKind::MissingQueueValue => "Option -q requires a value argument"@,
        KillErrorKind::InvalidQueueValue => "Invalid queue value: "@ + detail,
        KillErrorKind::MissingTimeoutValue => "Option --timeout requires milliseconds argument"@,
        KillErrorKind::InvalidTimeoutValue => "Invalid timeout value: "@ + detail,
        KillErrorKind::MissingTimeoutSignal => "Option --timeout requires a signal argument"@,
        KillErrorKind::InvalidSignal => "Invalid signal: -"@ + detail,
        KillErrorKind::NoTarget => "No process ID or name specified"@,
        KillErrorKind::ConflictingSignals => "Cannot specify signal with both -signal and -s options"@,
        KillErrorKind::AllWithPid => "Cannot use -a flag with numeric PIDs"@,
        KillErrorKind::TimeoutWithoutSignal => "--timeout option requires a signal"@,
        KillErrorKind::UnsupportedSignal => "Signal '"@ + detail + "' is not supported on Windows. Supported signals: TERM(15), INT(2), QUIT(3), KILL(9)"@,
        KillErrorKind::PartialFailure => "Some kill operations failed"@,
    }
}

/// Words an error that ends a request.
pub fn describe_error(error: &KillError) -> (r: String)
    ensures
        r@ == error_text(error@.0, error@.1),
{
    proof {
        reveal_strlit("");
    }
    let r = match error.kind {
        KillErrorKind::Usage => join3(usage(), "", ""),
        KillErrorKind::MissingSignalArgument => join3("Option -s requires a signal argument", "", ""),
        KillErrorKind::MissingQueueValue => join3("Option -q requires a value argument", "", ""),
        KillErrorKind::InvalidQueueValue => join3("Invalid queue value: ", error.detail.as_str(), ""),
        KillErrorKind::MissingTimeoutValue => join3("Option --timeout requires milliseconds argument", "", ""),
        KillErrorKind::InvalidTimeoutValue => join3("Invalid timeout value: ", error.detail.as_str(), ""),
        KillErrorKind::MissingTimeoutSignal => join3("Option --timeout requires a signal argument", "", ""),
        KillErrorKind::InvalidSignal => join3("Invalid signal: -", error.detail.as_str(), ""),
        KillErrorKind::NoTarget => join3("No process ID or name specified", "", ""),
        KillErrorKind::ConflictingSignals => join3("Cannot specify signal with both -signal and -s options", "", ""),
        KillErrorKind::AllWithPid => join3("Cannot use -a flag with numeric PIDs", "", ""),
        KillErrorKind::TimeoutWithoutSignal => join3("--timeout option requires a signal", "", ""),
        KillErrorKind::UnsupportedSignal => join3("Signal '", error.detail.as_str(), "' is not supported on Windows. Supported signals: TERM(15), INT(2), QUIT(3), KILL(9)"),
        KillErrorKind::PartialFailure => join3("Some kill operations failed", "", ""),
    };
    assert(r@ =~= error_text(error@.0, error@.1));
    r
}

/// The message for the reason why the process `pid` was not terminated.
pub open spec fn failure_text(pid: u32, reason: KillFailure) -> Seq<char> {
    match reason {
        KillFailure::ProtectedPid => numbered("Cannot kill system process with PID "@, pid as nat, ""@),
        KillFailure::CurrentProcess => "Cannot kill current process"@,
        KillFailure::NoSuchProcess => numbered("No such process: "@, pid as nat, ""@),
        KillFailure::OpenDenied => numbered("Access denied: Cannot terminate process "@, pid as nat, " (insufficient privileges)"@),
        KillFailure::OpenInvalid => numbered("Invalid PID: Process "@, pid as nat, " does not exist"@),
        KillFailure::TerminateDenied => numbered("Access denied: Cannot terminate process "@, pid as nat, " (protected process)"@),
        KillFailure::NoWindows => numbered("No windows found for process "@, pid as nat, " (may be a console-only or background process)"@),
        KillFailure::OpenFailed(code) => numbered("Failed to open process "@, pid as nat, ": Windows error code "@) + numbered(Seq::empty(), code as nat, ""@),
        KillFailure::TerminateFailed(code) => numbered("Failed to terminate process "@, pid as nat, ": Windows error code "@) + numbered(Seq::empty(), code as nat, ""@),
        KillFailure::WindowsRefused(code) => numbered("Found "@, code as nat, " windows for process "@) + numbered(Seq::empty(), pid as nat, " but failed to send close messages"@),
        KillFailure::WindowEnumerationFailed(code) => numbered("Failed to enumerate windows: Windows error code "@, code as nat, ""@),
    }
}

/// Words the reason why the process `pid` was not terminated.
pub fn describe_failure(pid: u32, reason: KillFailure) -> (r: String)
    ensures
        r@ == failure_text(pid, reason),
{
    proof {
        reveal_strlit("");
    }
    let r = match reason {
        KillFailure::ProtectedPid => framed("Cannot kill system process with PID ", pid as u64, ""),
        KillFailure::CurrentProcess => join3("Cannot kill current process", "", ""),
        KillFailure::NoSuchProcess => framed("No such process: ", pid as u64, ""),
        KillFailure::OpenDenied => framed("Access denied: Cannot terminate process ", pid as u64, " (insufficient privileges)"),
        KillFailure::OpenInvalid => framed("Invalid PID: Process ", pid as u64, " does not exist"),
        KillFailure::TerminateDenied => framed("Access denied: Cannot terminate process ", pid as u64, " (protected process)"),
        KillFailure::NoWindows => framed("No windows found for process ", pid as u64, " (may be a console-only or background process)"),
        KillFailure::OpenFailed(code) => {
            let mut out = framed("Failed to open process ", pid as u64, ": Windows error code ");
            let ghost head = out@;
            push_decimal(&mut out, code as u64);
            out.append("");
            assert(out@ =~= head + numbered(Seq::empty(), code as nat, ""@));
            out
        },
        KillFailure::TerminateFailed(code) => {
            let mut out = framed("Failed to terminate process ", pid as u64, ": Windows error code ");
            let ghost head = out@;
            push_decimal(&mut out, code as u64);
            out.append("");
            assert(out@ =~= head + numbered(Seq::empty(), code as nat, ""@));
            out
        },
        KillFailure::WindowsRefused(code) => {
            let mut out = framed("Found ", code as u64, " windows for process ");
            let ghost head = out@;
            push_decimal(&mut out, pid as u64);
            out.append(" but failed to send close messages");
            assert(out@ =~= head + numbered(Seq::empty(), pid as nat, " but failed to send close messages"@));
            out
        },
        KillFailure::WindowEnumerationFailed(code) => framed("Failed to enumerate windows: Windows error code ", code as u64, ""),
    };
    assert(r@ =~= failure_text(pid, reason));
    r
}


/// The message for one failed attempt on a process of the target `name`.
pub open spec fn member_text(pid: u32, name: Seq<char>, reason: KillFailure) -> Seq<char> {
    numbered("Failed to kill "@, pid as nat, " ("@) + name + "): "@ + failure_text(pid, reason)
}

/// The messages of the failed attempts on the processes of the target at
/// position `index`, named `name`, in the order made and joined by `; `.
pub open spec fn members_text(records: Seq<AttemptRecord>, index: usize, name: Seq<char>) -> Seq<
    char,
>
    decreases records.len(),
{
    if records.len() == 0 {
        Seq::empty()
    } else {
        let head = members_text(records.drop_last(), index, name);
        let last = records.last();
        match last.end {
            AttemptEnd::Failed(reason) => if last.target == index {
                if head.len() == 0 {
                    member_text(last.pid, name, reason)
                } else {
                    head + "; "@ + member_text(last.pid, name, reason)
                }
            } else {
                head
            },
            _ => head,
        }
    }
}

/// The message for the reason why a target failed.
pub open spec fn reason_text(
    target: Seq<char>,
    index: usize,
    failure: TargetFailure,
    records: Seq<AttemptRecord>,
) -> Seq<char> {
    match failure {
        TargetFailure::InvalidPid => "Invalid PID: "@ + target + " must be a number or name"@,
        TargetFailure::Kill(reason) => failure_text(
            match pid_of(target) {
                Some(pid) => pid,
                None => 0,
            },
            reason,
        ),
        TargetFailure::Snapshot(e) => snapshot_text(e),
        TargetFailure::NoMatch => "No processes found with name: "@ + target,
        TargetFailure::Members => members_text(records, index, target),
    }
}

/// The line that reports one target.
pub open spec fn line_text(
    target: Seq<char>,
    index: usize,
    status: TargetStatus,
    records: Seq<AttemptRecord>,
) -> Seq<char> {
    match status {
        TargetStatus::Terminated | TargetStatus::Listed => "Successfully processed target: "@
            + target,
        TargetStatus::Failed(failure) => "Failed to process "@ + target + ": "@ + reason_text(
            target,
            index,
            failure,
            records,
        ),
    }
}

/// Words the failed attempts on the processes of one target.
pub fn describe_members(records: &Vec<AttemptRecord>, index: usize, name: &str) -> (r: String)
    ensures
        r@ == members_text(records@, index, name@),
{
    let mut out = String::new();
    let mut i: usize = 0;
    assert(records@.take(0) =~= Seq::<AttemptRecord>::empty());
    while i < records.len()
        invariant
            i <= records@.len(),
            out@ == members_text(records@.take(i as int), index, name@),
        decreases records@.len() - i,
    {
        let record = records[i];
        proof {
            assert(records@.take(i + 1).drop_last() =~= records@.take(i as int));
            assert(records@.take(i + 1).last() == record);
        }
        match record.end {
            AttemptEnd::Failed(reason) => {
                if record.target == index {
                    let ghost head = out@;
                    let empty: bool = out.as_str().unicode_len() == 0;
                    if !empty {
                        out.append("; ");
                    }
                    let ghost sofar = out@;
                    out.append("Failed to kill ");
                    push_decimal(&mut out, record.pid as u64);
                    out.append(" (");
                    out.append(name);
                    out.append("): ");
                    let why = describe_failure(record.pid, reason);
                    out.append(why.as_str());
                    assert(out@ =~= sofar + member_text(record.pid, name@, reason));
                    proof {
                        if empty {
                            assert(sofar =~= Seq::<char>::empty());
                            assert(out@ =~= member_text(record.pid, name@, reason));
                        }
                    }
                }
            },
            _ => {},
        }
        i += 1;
    }
    assert(records@.take(i as int) =~= records@);
    out
}

/// Words the report on one target: that it was processed, or why it failed.
pub fn report_line(
    target: &str,
    index: usize,
    status: TargetStatus,
    records: &Vec<AttemptRecord>,
) -> (r: String)
    ensures
        r@ == line_text(target@, index, status, records@),
{
    match status {
        TargetStatus::Terminated | TargetStatus::Listed => {
            let out = join3("Successfully processed target: ", target, "");
            proof {
                reveal_strlit("");
                assert(out@ =~= "Successfully processed target: "@ + target@);
            }
            out
        },
        TargetStatus::Failed(failure) => {
            let reason = match failure {
                TargetFailure::InvalidPid => join3(
                    "Invalid PID: ",
                    target,
                    " must be a number or name",
                ),
                TargetFailure::Kill(why) => {
                    let pid: u32 = match parse_pid(target) {
                        Some(pid) => pid,
                        None => 0,
                    };
                    describe_failure(pid, why)
                },
                TargetFailure::Snapshot(e) => describe_snapshot(e),
                TargetFailure::NoMatch => join3("No processes found with name: ", target, ""),
                TargetFailure::Members => describe_members(records, index, target),
            };
            let mut out = join3("Failed to process ", target, ": ");
            out.append(reason.as_str());
            proof {
                reveal_strlit("");
                assert(reason@ =~= reason_text(target@, index, failure, records@));
            }
            out
        },
    }
}

/// The lines that report the targets: one for each target that the session
/// is through with, in the order of the targets.
pub open spec fn lines_of(s: SessionView) -> Seq<Seq<char>> {
    Seq::new(
        s.statuses.len(),
        |i: int| line_text(s.options.targets[i], i as usize, s.statuses[i], s.attempts),
    )
}

/// Words the report on every target that the session is through with: once
/// the session is complete, one line for each target.
pub fn report_lines(session: &KillSession) -> (r: Vec<String>)
    requires
        session@.wf(),
    ensures
        texts_of(r@) == lines_of(session@),
        session@.step is Finished ==> r@.len() == session@.options.targets.len(),
{
    let statuses = session.statuses();
    let targets = &session.options().targets;
    let records = session.attempts();
    let mut lines: Vec<String> = Vec::new();
    let mut i: usize = 0;
    while i < statuses.len()
        invariant
            session@.wf(),
            statuses@ == session@.statuses,
            texts_of(targets@) == session@.options.targets,
            records@ == session@.attempts,
            i <= statuses@.len(),
            lines@.len() == i,
            forall|j: int|
                0 <= j < i ==> (#[trigger] lines@[j])@ == line_text(
                    session@.options.targets[j],
                    j as usize,
                    statuses@[j],
                    records@,
                ),
        decreases statuses@.len() - i,
    {
        assert(i < targets@.len()) by {
            assert(texts_of(targets@).len() == targets@.len());
        }
        assert(texts_of(targets@)[i as int] == targets@[i as int]@);
        let line = report_line(targets[i].as_str(), i, statuses[i], records);
        lines.push(line);
        i += 1;
    }
    assert(texts_of(lines@) =~= lines_of(session@));
    lines
}

} // verus!
