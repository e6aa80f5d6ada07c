//! What can go wrong: the errors that end a whole request, and the reasons
//! for which a single process is not terminated.

use vstd::prelude::*;
use vstd::string::*;

verus! {

/// Why a snapshot of the running processes could not be taken. Each variant
/// carries the operating system's error code.
#[derive(Debug, Clone, Copy, PartialEq, Eq, Structural)]
pub enum SnapshotError {
    /// The snapshot could not be created.
    CreateFailed(u32),
    /// The snapshot was created but its first entry could not be read.
    FirstEntryFailed(u32),
}

/// The broad class of a failure.
#[derive(Debug, Clone, Copy, PartialEq, Eq, Structural)]
pub enum ErrorClass {
    /// A malformed flag or a missing value.
    ParseError,
    /// An inconsistent combination of options.
    ValidationError,
    /// Well-formed, but a signal that the platform cannot express.
    UnsupportedSignal,
    /// A target without a live process.
    NotFound,
    /// The operating system refused a handle or an operation.
    AccessDenied,
    /// A process or window snapshot could not be taken.
    EnumerationFailure,
    /// Some targets failed.
    PartialFailure,
    /// A protected process, or the caller itself.
    SafetyRejection,
    /// Any other failure that the operating system reported.
    SystemFailure,
}

/// Why one process was not terminated. Each variant that speaks of an
/// operating-system failure carries its error code where the code is not fixed
/// by the variant.
#[derive(Debug, Clone, Copy, PartialEq, Eq, Structural)]
pub enum KillFailure {
    /// The identifier denotes a kernel or idle process.
    ProtectedPid,
    /// The identifier is the caller's own.
    CurrentProcess,
    /// No such process could be opened for a query.
    NoSuchProcess,
    /// Opening the process for termination was refused (code 5).
    OpenDenied,
    /// Opening for termination failed because the identifier is invalid (code 87).
    OpenInvalid,
    /// Opening for termination failed with another code.
    OpenFailed(u32),
    /// The termination itself was refused (code 5).
    TerminateDenied,
    /// The termination itself failed with another code.
    TerminateFailed(u32),
    /// The top-level windows could not be enumerated.
    WindowEnumerationFailed(u32),
    /// The process owns no top-level window.
    NoWindows,
    /// The process owns this many windows, and none took the close request.
    WindowsRefused(u32),
}

impl KillFailure {
    /// The class that a reason belongs to.
    pub open spec fn class_of(self) -> ErrorClass {
        match self {
            KillFailure::ProtectedPid | KillFailure::CurrentProcess => ErrorClass::SafetyRejection,
            KillFailure::NoSuchProcess | KillFailure::OpenInvalid | KillFailure::NoWindows =>
                ErrorClass::NotFound,
            KillFailure::OpenDenied | KillFailure::TerminateDenied => ErrorClass::AccessDenied,
            KillFailure::WindowEnumerationFailed(_) => ErrorClass::EnumerationFailure,
            KillFailure::OpenFailed(_)
            | KillFailure::TerminateFailed(_)
            | KillFailure::WindowsRefused(_) => ErrorClass::SystemFailure,
        }
    }

    /// The class that a reason belongs to.
    pub fn class(self) -> (r: ErrorClass)
        ensures
            r == self.class_of(),
    {
        match self {
            KillFailure::ProtectedPid | KillFailure::CurrentProcess => ErrorClass::SafetyRejection,
            KillFailure::NoSuchProcess | KillFailure::OpenInvalid | KillFailure::NoWindows =>
                ErrorClass::NotFound,
            KillFailure::OpenDenied | KillFailure::TerminateDenied => ErrorClass::AccessDenied,
            KillFailure::WindowEnumerationFailed(_) => ErrorClass::EnumerationFailure,
            KillFailure::OpenFailed(_)
            | KillFailure::TerminateFailed(_)
            | KillFailure::WindowsRefused(_) => ErrorClass::SystemFailure,
        }
    }
}

/// The rule that a request broke.
#[derive(Debug, Clone, Copy, PartialEq, Eq, Structural)]
pub enum KillErrorKind {
    /// No argument at all was given.
    Usage,
    /// `-s` was the last argument.
    MissingSignalArgument,
    /// `-q` was the last argument.
    MissingQueueValue,
    /// The value after `-q` is no signed integer.
    InvalidQueueValue,
    /// `--timeout` was the last argument.
    MissingTimeoutValue,
    /// The timeout is no unsigned integer.
    InvalidTimeoutValue,
    /// `--timeout <ms>` was not followed by a signal.
    MissingTimeoutSignal,
    /// A dash argument that is neither digits nor a supported signal name.
    InvalidSignal,
    /// No target, and not print-only.
    NoTarget,
    /// Both `-s <signal>` and `-<signal>` were given.
    ConflictingSignals,
    /// `-a` together with a numeric target.
    AllWithPid,
    /// A timeout without a timeout signal.
    TimeoutWithoutSignal,
    /// A signal outside the four supported ones.
    UnsupportedSignal,
    /// At least one target failed.
    PartialFailure,
}

/// An error that ends a request: the rule, and the token that broke it (empty
/// where the rule names none).
#[derive(Debug, Clone)]
pub struct KillError {
    pub kind: KillErrorKind,
    pub detail: String,
}

impl KillErrorKind {
    /// The class that a rule belongs to.
    pub open spec fn class_of(self) -> ErrorClass {
        match self {
            KillErrorKind::Usage
            | KillErrorKind::MissingSignalArgument
            | KillErrorKind::MissingQueueValue
            | KillErrorKind::InvalidQueueValue
            | KillErrorKind::MissingTimeoutValue
            | KillErrorKind::InvalidTimeoutValue
            | KillErrorKind::MissingTimeoutSignal
            | KillErrorKind::InvalidSignal => ErrorClass::ParseError,
            KillErrorKind::NoTarget
            | KillErrorKind::ConflictingSignals
            | KillErrorKind::AllWithPid
            | KillErrorKind::TimeoutWithoutSignal => ErrorClass::ValidationError,
            KillErrorKind::UnsupportedSignal => ErrorClass::UnsupportedSignal,
            KillErrorKind::PartialFailure => ErrorClass::PartialFailure,
        }
    }

    /// The class that a rule belongs to.
    pub fn class(self) -> (r: ErrorClass)
        ensures
            r == self.class_of(),
    {
        match self {
            KillErrorKind::Usage
            | KillErrorKind::MissingSignalArgument
            | KillErrorKind::MissingQueueValue
            | KillErrorKind::InvalidQueueValue
            | KillErrorKind::MissingTimeoutValue
            | KillErrorKind::InvalidTimeoutValue
            | KillErrorKind::MissingTimeoutSignal
            | KillErrorKind::InvalidSignal => ErrorClass::ParseError,
            KillErrorKind::NoTarget
            | KillErrorKind::ConflictingSignals
            | KillErrorKind::AllWithPid
            | KillErrorKind::TimeoutWithoutSignal => ErrorClass::ValidationError,
            KillErrorKind::UnsupportedSignal => ErrorClass::UnsupportedSignal,
            KillErrorKind::PartialFailure => ErrorClass::PartialFailure,
        }
    }
}

impl View for KillError {
    type V = (KillErrorKind, Seq<char>);

    open spec fn view(&self) -> (KillErrorKind, Seq<char>) {
        (self.kind, self.detail@)
    }
}

impl KillError {
    /// An error that names no token.
    pub fn bare(kind: KillErrorKind) -> (r: KillError)
        ensures
            r@ == (kind, Seq::<char>::empty()),
    {
        KillError { kind, detail: String::new() }
    }

    /// An error about the token `detail`.
    pub fn about(kind: KillErrorKind, detail: &str) -> (r: KillError)
        ensures
            r@ == (kind, detail@),
    {
        KillError { kind, detail: detail.to_owned() }
    }
}

} // verus!
