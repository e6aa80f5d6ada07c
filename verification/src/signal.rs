//! The signal vocabulary: which tokens are understood, and the termination
//! technique each one stands for.

use vstd::prelude::*;
use vstd::string::*;
use crate::error::{KillError, KillErrorKind};
use crate::text::{ascii_text, ascii_upper, str_eq, to_upper, upper_text};

verus! {

/// A concrete technique for ending or interrupting a process.
#[derive(Debug, Clone, Copy, PartialEq, Eq, Structural)]
pub enum WindowsKillMethod {
    /// Immediate termination with a fixed exit code.
    ForceTerminate,
    /// Console interrupt, the analogue of Ctrl+C.
    GracefulCtrlC,
    /// Console break, the analogue of Ctrl+Break.
    GracefulCtrlBreak,
    /// A close request to each top-level window of the process. Never chosen
    /// for a signal; it is only a fallback step.
    WindowClose,
}

/// The technique that an upper-case signal name or number stands for.
pub open spec fn method_of_canonical(name: Seq<char>) -> Option<WindowsKillMethod> {
    if name == "KILL"@ || name == "9"@ {
        Some(WindowsKillMethod::ForceTerminate)
    } else if name == "TERM"@ || name == "15"@ || name == "INT"@ || name == "2"@ {
        Some(WindowsKillMethod::GracefulCtrlC)
    } else if name == "QUIT"@ || name == "3"@ {
        Some(WindowsKillMethod::GracefulCtrlBreak)
    } else {
        None
    }
}

/// The technique that a signal token stands for, in any letter case.
pub open spec fn method_of_signal(signal: Seq<char>) -> Option<WindowsKillMethod> {
    method_of_canonical(upper_text(signal))
}

/// Maps an upper-case signal name or number to its technique.
pub fn method_for_canonical(name: &str) -> (r: Option<WindowsKillMethod>)
    ensures
        r == method_of_canonical(name@),
{
    if str_eq(name, "KILL") || str_eq(name, "9") {
        Some(WindowsKillMethod::ForceTerminate)
    } else if str_eq(name, "TERM") || str_eq(name, "15") || str_eq(name, "INT") || str_eq(
        name,
        "2",
    ) {
        Some(WindowsKillMethod::GracefulCtrlC)
    } else if str_eq(name, "QUIT") || str_eq(name, "3") {
        Some(WindowsKillMethod::GracefulCtrlBreak)
    } else {
        None
    }
}

/// Tells whether a token names one of the four supported signals, by name or
/// by number, in any letter case.
pub fn is_valid_signal_name(signal: &str) -> (r: bool)
    ensures
        r == method_of_signal(signal@).is_some(),
{
    let upper = to_upper(signal);
    method_for_canonical(upper.as_str()).is_some()
}

/// Maps a signal token, name or number in any letter case, to its technique.
/// A token outside the four supported signals is refused and named in the
/// error.
pub fn signal_to_windows_method(signal: &str) -> (r: Result<WindowsKillMethod, KillError>)
    ensures
        match method_of_signal(signal@) {
            Some(m) => r == Ok::<WindowsKillMethod, KillError>(m),
            None => r.is_err() && r.unwrap_err()@ == (KillErrorKind::UnsupportedSignal, signal@),
        },
{
    let upper = to_upper(signal);
    match method_for_canonical(upper.as_str()) {
        Some(m) => Ok(m),
        None => Err(KillError::about(KillErrorKind::UnsupportedSignal, signal)),
    }
}

/// True when two ASCII texts differ in letter case at most.
pub open spec fn same_ignoring_case(a: Seq<char>, b: Seq<char>) -> bool {
    &&& ascii_text(a)
    &&& ascii_text(b)
    &&& a.len() == b.len()
    &&& forall|i: int| 0 <= i < a.len() ==> ascii_upper(#[trigger] a[i]) == ascii_upper(b[i])
}

/// Letter case does not matter: two tokens that differ in case at most stand
/// for the same technique, or are both unsupported.
pub proof fn lemma_case_is_ignored(a: Seq<char>, b: Seq<char>)
    requires
        same_ignoring_case(a, b),
    ensures
        method_of_signal(a) == method_of_signal(b),
{
    assert(upper_text(a) =~= upper_text(b));
}

/// Each signal number stands for the same technique as its name.
pub proof fn lemma_numbers_name_signals()
    ensures
        method_of_signal("9"@) == Some(WindowsKillMethod::ForceTerminate),
        method_of_signal("KILL"@) == Some(WindowsKillMethod::ForceTerminate),
        method_of_signal("15"@) == Some(WindowsKillMethod::GracefulCtrlC),
        method_of_signal("TERM"@) == Some(WindowsKillMethod::GracefulCtrlC),
        method_of_signal("2"@) == Some(WindowsKillMethod::GracefulCtrlC),
        method_of_signal("INT"@) == Some(WindowsKillMethod::GracefulCtrlC),
        method_of_signal("3"@) == Some(WindowsKillMethod::GracefulCtrlBreak),
        method_of_signal("QUIT"@) == Some(WindowsKillMethod::GracefulCtrlBreak),
{
    reveal_strlit("9");
    reveal_strlit("KILL");
    reveal_strlit("15");
    reveal_strlit("TERM");
    reveal_strlit("2");
    reveal_strlit("INT");
    reveal_strlit("3");
    reveal_strlit("QUIT");
    assert("9"@.len() == 1 && "2"@.len() == 1 && "3"@.len() == 1 && "15"@.len() == 2);
    assert("KILL"@.len() == 4 && "TERM"@.len() == 4 && "QUIT"@.len() == 4 && "INT"@.len() == 3);
    assert("9"@[0] == '9' && "2"@[0] == '2' && "3"@[0] == '3');
    assert("KILL"@[0] == 'K' && "TERM"@[0] == 'T' && "QUIT"@[0] == 'Q');
    assert(upper_text("9"@) =~= "9"@);
    assert(upper_text("KILL"@) =~= "KILL"@);
    assert(upper_text("15"@) =~= "15"@);
    assert(upper_text("TERM"@) =~= "TERM"@);
    assert(upper_text("2"@) =~= "2"@);
    assert(upper_text("INT"@) =~= "INT"@);
    assert(upper_text("3"@) =~= "3"@);
    assert(upper_text("QUIT"@) =~= "QUIT"@);
}

/// A signal name in any letter case stands for the same technique as its
/// number: `kill`, `Kill` and `KILL` all equal `9`, and so on for the other
/// three signals.
pub proof fn lemma_name_in_any_case_equals_number(token: Seq<char>)
    ensures
        same_ignoring_case(token, "KILL"@) ==> method_of_signal(token) == method_of_signal("9"@),
        same_ignoring_case(token, "TERM"@) ==> method_of_signal(token) == method_of_signal("15"@),
        same_ignoring_case(token, "INT"@) ==> method_of_signal(token) == method_of_signal("2"@),
        same_ignoring_case(token, "QUIT"@) ==> method_of_signal(token) == method_of_signal("3"@),
        same_ignoring_case(token, "KILL"@) || same_ignoring_case(token, "TERM"@)
            || same_ignoring_case(token, "INT"@) || same_ignoring_case(token, "QUIT"@)
            ==> method_of_signal(token).is_some(),
{
    lemma_numbers_name_signals();
    if same_ignoring_case(token, "KILL"@) {
        lemma_case_is_ignored(token, "KILL"@);
    }
    if same_ignoring_case(token, "TERM"@) {
        lemma_case_is_ignored(token, "TERM"@);
    }
    if same_ignoring_case(token, "INT"@) {
        lemma_case_is_ignored(token, "INT"@);
    }
    if same_ignoring_case(token, "QUIT"@) {
        lemma_case_is_ignored(token, "QUIT"@);
    }
}

} // verus!
