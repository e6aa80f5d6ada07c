//! The request: its options, the grammar that reads them from an argument
//! list, and the rules that a complete request must meet.

use vstd::prelude::*;
use vstd::string::*;
use crate::error::{KillError, KillErrorKind};
use crate::number::{i32_of, parse_i32, parse_u64, u64_of};
use crate::signal::{is_valid_signal_name, method_of_signal, signal_to_windows_method};
use crate::text::{all_digits, find_char, is_all_digits, has_prefix, position_of, starts_with, str_eq};

verus! {

/// The options of one request, as read from its arguments.
#[derive(Debug, Clone)]
pub struct KillOptions {
    /// The signal given as `-<signal>`.
    pub signal: Option<String>,
    /// The signal given as `-s <signal>`.
    pub signal_explicit: Option<String>,
    /// `-p`: print the process identifiers, terminate nothing.
    pub print_only: bool,
    /// `-q <value>`: accepted and kept, attached to no termination call.
    pub queue_value: Option<i32>,
    /// `-a`: every process with a given name, not only the first.
    pub all_processes: bool,
    /// `--timeout`: the grace period in milliseconds.
    pub timeout_ms: Option<u64>,
    /// The signal to send once the grace period is over.
    pub timeout_signal: Option<String>,
    /// `--` was seen: every later argument is a target.
    pub end_of_options: bool,
    /// The targets in the order given: process identifiers or names.
    pub targets: Vec<String>,
}

/// The mathematical content of a `KillOptions`.
pub ghost struct KillOptionsView {
    pub signal: Option<Seq<char>>,
    pub signal_explicit: Option<Seq<char>>,
    pub print_only: bool,
    pub queue_value: Option<i32>,
    pub all_processes: bool,
    pub timeout_ms: Option<u64>,
    pub timeout_signal: Option<Seq<char>>,
    pub end_of_options: bool,
    pub targets: Seq<Seq<char>>,
}

/// The text inside an optional string.
pub open spec fn text_of(o: Option<String>) -> Option<Seq<char>> {
    match o {
        Some(s) => Some(s@),
        None => None,
    }
}

/// The texts of a list of strings.
pub open spec fn texts_of(v: Seq<String>) -> Seq<Seq<char>> {
    Seq::new(v.len(), |i: int| v[i]@)
}

/// The texts of an argument list.
pub open spec fn args_of(args: Seq<&str>) -> Seq<Seq<char>> {
    Seq::new(args.len(), |i: int| args[i]@)
}

impl View for KillOptions {
    type V = KillOptionsView;

    open spec fn view(&self) -> KillOptionsView {
        KillOptionsView {
            signal: text_of(self.signal),
            signal_explicit: text_of(self.signal_explicit),
            print_only: self.print_only,
            queue_value: self.queue_value,
            all_processes: self.all_processes,
            timeout_ms: self.timeout_ms,
            timeout_signal: text_of(self.timeout_signal),
            end_of_options: self.end_of_options,
            targets: texts_of(self.targets@),
        }
    }
}

/// The request that no argument has touched yet.
pub open spec fn empty_options() -> KillOptionsView {
    KillOptionsView {
        signal: None,
        signal_explicit: None,
        print_only: false,
        queue_value: None,
        all_processes: false,
        timeout_ms: None,
        timeout_signal: None,
        end_of_options: false,
        targets: Seq::empty(),
    }
}

impl Default for KillOptions {
    fn default() -> (r: KillOptions)
        ensures
            r@ == empty_options(),
    {
        let r = KillOptions {
            signal: None,
            signal_explicit: None,
            print_only: false,
            queue_value: None,
            all_processes: false,
            timeout_ms: None,
            timeout_signal: None,
            end_of_options: false,
            targets: Vec::new(),
        };
        assert(texts_of(r.targets@) =~= Seq::<Seq<char>>::empty());
        r
    }
}

/// The outcome of reading arguments: the request, or the rule that was broken
/// and the token that broke it.
pub type Parsed = Result<KillOptionsView, (KillErrorKind, Seq<char>)>;

/// The value part of `--timeout=<ms>`: what follows the first `=`.
pub open spec fn inline_timeout(arg: Seq<char>) -> Option<Seq<char>> {
    match position_of(arg, '=') {
        Some(i) => Some(arg.skip(i + 1)),
        None => None,
    }
}

/// Reads the arguments from position `i` on into the request `acc`.
///
/// After `--` every argument is a target. Before it, in this order of
/// precedence: `--`, `-p`, `-a`, `-s <signal>`, `-q <int>`, an argument that
/// begins with `--timeout` (with the value after `=`, or followed by the value
/// and a signal), any other argument of two or more characters that begins
/// with `-` (digits, or a supported signal name), and a target.
pub open spec fn parse_from(args: Seq<Seq<char>>, i: int, acc: KillOptionsView) -> Parsed
    decreases args.len() - i,
{
    if i < 0 || i >= args.len() {
        Ok(acc)
    } else {
        let arg = args[i];
        if acc.end_of_options {
            parse_from(args, i + 1, KillOptionsView { targets: acc.targets.push(arg), ..acc })
        } else if arg == "--"@ {
            parse_from(args, i + 1, KillOptionsView { end_of_options: true, ..acc })
        } else if arg == "-p"@ {
            parse_from(args, i + 1, KillOptionsView { print_only: true, ..acc })
        } else if arg == "-a"@ {
            parse_from(args, i + 1, KillOptionsView { all_processes: true, ..acc })
        } else if arg == "-s"@ {
            if i + 1 >= args.len() {
                Err((KillErrorKind::MissingSignalArgument, Seq::empty()))
            } else {
                parse_from(
                    args,
                    i + 2,
                    KillOptionsView { signal_explicit: Some(args[i + 1]), ..acc },
                )
            }
        } else if arg == "-q"@ {
            if i + 1 >= args.len() {
                Err((KillErrorKind::MissingQueueValue, Seq::empty()))
            } else {
                match i32_of(args[i + 1]) {
                    Some(v) => parse_from(
                        args,
                        i + 2,
                        KillOptionsView { queue_value: Some(v), ..acc },
                    ),
                    None => Err((KillErrorKind::InvalidQueueValue, args[i + 1])),
                }
            }
        } else if has_prefix(arg, "--timeout"@) {
            match inline_timeout(arg) {
                Some(value) => match u64_of(value) {
                    Some(ms) => parse_from(
                        args,
                        i + 1,
                        KillOptionsView { timeout_ms: Some(ms), ..acc },
                    ),
                    None => Err((KillErrorKind::InvalidTimeoutValue, value)),
                },
                None => if i + 1 >= args.len() {
                    Err((KillErrorKind::MissingTimeoutValue, Seq::empty()))
                } else {
                    match u64_of(args[i + 1]) {
                        Some(ms) => if i + 2 >= args.len() {
                            Err((KillErrorKind::MissingTimeoutSignal, Seq::empty()))
                        } else {
                            parse_from(
                                args,
                                i + 3,
                                KillOptionsView {
                                    timeout_ms: Some(ms),
                                    timeout_signal: Some(args[i + 2]),
                                    ..acc
                                },
                            )
                        },
                        None => Err((KillErrorKind::InvalidTimeoutValue, args[i + 1])),
                    }
                },
            }
        } else if arg.len() > 1 && arg[0] == '-' {
            let signal = arg.skip(1);
            if all_digits(signal) || method_of_signal(signal).is_some() {
                parse_from(args, i + 1, KillOptionsView { signal: Some(signal), ..acc })
            } else {
                Err((KillErrorKind::InvalidSignal, signal))
            }
        } else {
            parse_from(args, i + 1, KillOptionsView { targets: acc.targets.push(arg), ..acc })
        }
    }
}

/// What an argument list means: the request it spells, or its first error.
pub open spec fn parse_of(args: Seq<Seq<char>>) -> Parsed {
    parse_from(args, 0, empty_options())
}

/// True when `r` is the executable form of the parse outcome `p`.
pub open spec fn parsed_as(r: Result<KillOptions, KillError>, p: Parsed) -> bool {
    match p {
        Ok(v) => r.is_ok() && r.unwrap()@ == v,
        Err(e) => r.is_err() && r.unwrap_err()@ == e,
    }
}

/// True when `r` reports how reading one option at position `i` went: on
/// success the position of the next unread argument, with the request updated;
/// on failure the error of the whole argument list.
pub open spec fn read_as(
    r: Result<usize, KillError>,
    a: Seq<Seq<char>>,
    i: int,
    before: KillOptionsView,
    after: KillOptionsView,
) -> bool {
    match r {
        Ok(next) => i < next <= a.len() && parse_from(a, i, before) == parse_from(
            a,
            next as int,
            after,
        ),
        Err(e) => parse_from(a, i, before) == Err::<KillOptionsView, (KillErrorKind, Seq<char>)>(
            e@,
        ),
    }
}

/// True when `arg` is one of the flags that are spelled in one fixed way.
pub open spec fn fixed_flag(arg: Seq<char>) -> bool {
    arg == "--"@ || arg == "-p"@ || arg == "-a"@ || arg == "-s"@ || arg == "-q"@
}

/// Reads the timeout option at position `i`, in either of its two forms.
fn parse_timeout(args: &[&str], i: usize, options: &mut KillOptions) -> (r: Result<usize, KillError>)
    requires
        i < args@.len(),
        !old(options).end_of_options,
        !fixed_flag(args@[i as int]@),
        has_prefix(args@[i as int]@, "--timeout"@),
    ensures
        read_as(r, args_of(args@), i as int, old(options)@, final(options)@),
{
    let ghost a = args_of(args@);
    let n: usize = args.len();
    let arg: &str = args[i];
    let len: usize = arg.unicode_len();
    assert(a[i as int] == arg@);
    match find_char(arg, '=') {
        Some(at) => {
            let value: &str = arg.substring_char(at + 1, len);
            assert(value@ =~= arg@.skip(at + 1));
            match parse_u64(value) {
                Some(ms) => {
                    options.timeout_ms = Some(ms);
                    Ok(i + 1)
                },
                None => Err(KillError::about(KillErrorKind::InvalidTimeoutValue, value)),
            }
        },
        None => {
            if i + 1 >= n {
                return Err(KillError::bare(KillErrorKind::MissingTimeoutValue));
            }
            let value: &str = args[i + 1];
            assert(a[i + 1] == value@);
            match parse_u64(value) {
                Some(ms) => {
                    if i + 2 >= n {
                        return Err(KillError::bare(KillErrorKind::MissingTimeoutSignal));
                    }
                    let signal: &str = args[i + 2];
                    assert(a[i + 2] == signal@);
                    options.timeout_ms = Some(ms);
                    options.timeout_signal = Some(signal.to_owned());
                    Ok(i + 3)
                },
                None => Err(KillError::about(KillErrorKind::InvalidTimeoutValue, value)),
            }
        },
    }
}

/// Reads the argument at position `i` as a bare signal or as a target.
fn parse_signal_or_target(args: &[&str], i: usize, options: &mut KillOptions) -> (r: Result<
    usize,
    KillError,
>)
    requires
        i < args@.len(),
        !old(options).end_of_options,
        !fixed_flag(args@[i as int]@),
        !has_prefix(args@[i as int]@, "--timeout"@),
    ensures
        read_as(r, args_of(args@), i as int, old(options)@, final(options)@),
{
    let ghost a = args_of(args@);
    let ghost before = options@;
    let arg: &str = args[i];
    let len: usize = arg.unicode_len();
    assert(a[i as int] == arg@);
    if len > 1 && arg.get_char(0) == '-' {
        let signal: &str = arg.substring_char(1, len);
        assert(signal@ =~= arg@.skip(1));
        if is_all_digits(signal) || is_valid_signal_name(signal) {
            options.signal = Some(signal.to_owned());
            Ok(i + 1)
        } else {
            Err(KillError::about(KillErrorKind::InvalidSignal, signal))
        }
    } else {
        options.targets.push(arg.to_owned());
        assert(options@.targets =~= before.targets.push(arg@));
        assert(options@ == KillOptionsView { targets: before.targets.push(arg@), ..before });
        Ok(i + 1)
    }
}

/// Reads the option or target at position `i`.
fn parse_one(args: &[&str], i: usize, options: &mut KillOptions) -> (r: Result<usize, KillError>)
    requires
        i < args@.len(),
    ensures
        read_as(r, args_of(args@), i as int, old(options)@, final(options)@),
{
    let ghost a = args_of(args@);
    let ghost before = options@;
    let n: usize = args.len();
    let arg: &str = args[i];
    assert(a[i as int] == arg@);
    if options.end_of_options {
        options.targets.push(arg.to_owned());
        assert(options@.targets =~= before.targets.push(arg@));
        assert(options@ == KillOptionsView { targets: before.targets.push(arg@), ..before });
        Ok(i + 1)
    } else if str_eq(arg, "--") {
        options.end_of_options = true;
        Ok(i + 1)
    } else if str_eq(arg, "-p") {
        options.print_only = true;
        Ok(i + 1)
    } else if str_eq(arg, "-a") {
        options.all_processes = true;
        Ok(i + 1)
    } else if str_eq(arg, "-s") {
        if i + 1 >= n {
            return Err(KillError::bare(KillErrorKind::MissingSignalArgument));
        }
        let value: &str = args[i + 1];
        assert(a[i + 1] == value@);
        options.signal_explicit = Some(value.to_owned());
        Ok(i + 2)
    } else if str_eq(arg, "-q") {
        if i + 1 >= n {
            return Err(KillError::bare(KillErrorKind::MissingQueueValue));
        }
        let value: &str = args[i + 1];
        assert(a[i + 1] == value@);
        match parse_i32(value) {
            Some(v) => {
                options.queue_value = Some(v);
                Ok(i + 2)
            },
            None => Err(KillError::about(KillErrorKind::InvalidQueueValue, value)),
        }
    } else if starts_with(arg, "--timeout") {
        parse_timeout(args, i, options)
    } else {
        parse_signal_or_target(args, i, options)
    }
}

/// Reads an argument list, left to right, into a request. Nothing but the
/// request is built; the first malformed flag ends the reading with its error.
pub fn parse_arguments(args: &[&str]) -> (r: Result<KillOptions, KillError>)
    ensures
        parsed_as(r, parse_of(args_of(args@))),
{
    let mut options = KillOptions::default();
    let ghost a = args_of(args@);
    let n: usize = args.len();
    let mut i: usize = 0;
    while i < n
        invariant
            n == args@.len(),
            a == args_of(args@),
            i <= n,
            parse_from(a, i as int, options@) == parse_of(a),
        decreases n - i,
    {
        match parse_one(args, i, &mut options) {
            Ok(next) => {
                i = next;
            },
            Err(e) => {
                return Err(e);
            },
        }
    }
    Ok(options)
}

/// The signal that a request asks for: the bare one, else the one after `-s`.
pub open spec fn chosen_signal(o: KillOptionsView) -> Option<Seq<char>> {
    if o.signal.is_some() {
        o.signal
    } else {
        o.signal_explicit
    }
}

/// True when some target consists of digits only.
pub open spec fn has_numeric_target(targets: Seq<Seq<char>>) -> bool {
    exists|i: int| 0 <= i < targets.len() && all_digits(#[trigger] targets[i])
}

/// The first rule that a request breaks, in the order in which the rules are
/// checked: a target is needed unless print-only; the signal is given once;
/// the signal is supported; `-a` goes with names only; a timeout has its
/// signal; the timeout signal is supported.
pub open spec fn first_violation(o: KillOptionsView) -> Option<(KillErrorKind, Seq<char>)> {
    if o.targets.len() == 0 && !o.print_only {
        Some((KillErrorKind::NoTarget, Seq::empty()))
    } else if o.signal.is_some() && o.signal_explicit.is_some() {
        Some((KillErrorKind::ConflictingSignals, Seq::empty()))
    } else if chosen_signal(o).is_some() && method_of_signal(chosen_signal(o).unwrap()).is_none() {
        Some((KillErrorKind::UnsupportedSignal, chosen_signal(o).unwrap()))
    } else if o.all_processes && has_numeric_target(o.targets) {
        Some((KillErrorKind::AllWithPid, Seq::empty()))
    } else if o.timeout_ms.is_some() && o.timeout_signal.is_none() {
        Some((KillErrorKind::TimeoutWithoutSignal, Seq::empty()))
    } else if o.timeout_signal.is_some() && method_of_signal(o.timeout_signal.unwrap()).is_none() {
        Some((KillErrorKind::UnsupportedSignal, o.timeout_signal.unwrap()))
    } else {
        None
    }
}

/// True when a request breaks no rule.
pub open spec fn valid_options(o: KillOptionsView) -> bool {
    first_violation(o).is_none()
}

/// Tells whether some target consists of digits only.
pub fn any_numeric_target(targets: &Vec<String>) -> (r: bool)
    ensures
        r == has_numeric_target(texts_of(targets@)),
{
    let ghost t = texts_of(targets@);
    let mut i: usize = 0;
    while i < targets.len()
        invariant
            t == texts_of(targets@),
            i <= targets@.len(),
            forall|j: int| 0 <= j < i ==> !all_digits(#[trigger] t[j]),
        decreases targets@.len() - i,
    {
        if is_all_digits(targets[i].as_str()) {
            assert(all_digits(t[i as int]));
            return true;
        }
        i += 1;
    }
    false
}

/// Checks a request against the rules, in their order, and reports the first
/// one that it breaks. The request itself is left as it is.
pub fn validate_options(options: &KillOptions) -> (r: Result<(), KillError>)
    ensures
        match first_violation(options@) {
            None => r.is_ok(),
            Some(e) => r.is_err() && r.unwrap_err()@ == e,
        },
{
    if options.targets.len() == 0 && !options.print_only {
        return Err(KillError::bare(KillErrorKind::NoTarget));
    }
    if options.signal.is_some() && options.signal_explicit.is_some() {
        return Err(KillError::bare(KillErrorKind::ConflictingSignals));
    }
    match &options.signal {
        Some(signal) => {
            match signal_to_windows_method(signal.as_str()) {
                Ok(_) => {},
                Err(e) => {
                    return Err(e);
                },
            }
        },
        None => {
            match &options.signal_explicit {
                Some(signal) => {
                    match signal_to_windows_method(signal.as_str()) {
                        Ok(_) => {},
                        Err(e) => {
                            return Err(e);
                        },
                    }
                },
                None => {},
            }
        },
    }
    if options.all_processes && any_numeric_target(&options.targets) {
        return Err(KillError::bare(KillErrorKind::AllWithPid));
    }
    if options.timeout_ms.is_some() && options.timeout_signal.is_none() {
        return Err(KillError::bare(KillErrorKind::TimeoutWithoutSignal));
    }
    match &options.timeout_signal {
        Some(signal) => {
            match signal_to_windows_method(signal.as_str()) {
                Ok(_) => {},
                Err(e) => {
                    return Err(e);
                },
            }
        },
        None => {},
    }
    Ok(())
}

/// A request that names a signal outside the supported ones, as its signal
/// or as its timeout signal, breaks a rule; and where it breaks no earlier
/// rule, the rule it breaks is that one.
pub proof fn lemma_unsupported_signal_is_refused(o: KillOptionsView)
    ensures
        chosen_signal(o).is_some() && method_of_signal(chosen_signal(o).unwrap()).is_none()
            ==> first_violation(o).is_some(),
        o.timeout_signal.is_some() && method_of_signal(o.timeout_signal.unwrap()).is_none()
            ==> first_violation(o).is_some(),
        valid_options(o) && chosen_signal(o).is_some() ==> method_of_signal(
            chosen_signal(o).unwrap(),
        ).is_some(),
        valid_options(o) && o.timeout_signal.is_some() ==> method_of_signal(
            o.timeout_signal.unwrap(),
        ).is_some(),
{
}

/// The all-matches flag goes with names only: together with a numeric target
/// the request breaks a rule, and without one the flag changes nothing about
/// which rule, if any, the request breaks.
pub proof fn lemma_all_flag_goes_with_names_only(o: KillOptionsView)
    requires
        o.all_processes,
    ensures
        has_numeric_target(o.targets) ==> first_violation(o).is_some(),
        !has_numeric_target(o.targets) ==> first_violation(o) == first_violation(
            KillOptionsView { all_processes: false, ..o },
        ),
{
}

/// A timeout needs its signal: a request with a grace period and no timeout
/// signal breaks a rule.
pub proof fn lemma_timeout_needs_signal(o: KillOptionsView)
    requires
        o.timeout_ms.is_some(),
        o.timeout_signal.is_none(),
    ensures
        first_violation(o).is_some(),
{
}

/// A request with both a bare signal and one after `-s` breaks a rule.
pub proof fn lemma_signal_is_given_once(o: KillOptionsView)
    requires
        o.signal.is_some(),
        o.signal_explicit.is_some(),
    ensures
        first_violation(o).is_some(),
{
}


/// After the end-of-options marker every argument is a target, whatever it
/// looks like: none of them is read as a flag or as a signal, and none fails.
pub proof fn lemma_after_marker_all_are_targets(args: Seq<Seq<char>>, i: int, acc: KillOptionsView)
    requires
        acc.end_of_options,
        0 <= i <= args.len(),
    ensures
        parse_from(args, i, acc) == Ok::<KillOptionsView, (KillErrorKind, Seq<char>)>(
            KillOptionsView { targets: acc.targets + args.skip(i), ..acc },
        ),
    decreases args.len() - i,
{
    if i >= args.len() {
        assert(acc.targets + args.skip(i) =~= acc.targets);
    } else {
        let next = KillOptionsView { targets: acc.targets.push(args[i]), ..acc };
        lemma_after_marker_all_are_targets(args, i + 1, next);
        assert(next.targets + args.skip(i + 1) =~= acc.targets + args.skip(i));
    }
}

/// True when a request has a timeout signal only together with a timeout.
pub open spec fn timeout_paired(o: KillOptionsView) -> bool {
    o.timeout_signal.is_some() ==> o.timeout_ms.is_some()
}

/// Reading arguments never leaves a timeout signal without its timeout.
pub proof fn lemma_parse_keeps_timeout_paired(args: Seq<Seq<char>>, i: int, acc: KillOptionsView)
    requires
        timeout_paired(acc),
    ensures
        parse_from(args, i, acc).is_ok() ==> timeout_paired(parse_from(args, i, acc)->Ok_0),
    decreases args.len() - i,
{
    if 0 <= i < args.len() {
        let arg = args[i];
        if acc.end_of_options {
            lemma_parse_keeps_timeout_paired(
                args,
                i + 1,
                KillOptionsView { targets: acc.targets.push(arg), ..acc },
            );
        } else if arg == "--"@ {
            lemma_parse_keeps_timeout_paired(
                args,
                i + 1,
                KillOptionsView { end_of_options: true, ..acc },
            );
        } else if arg == "-p"@ {
            lemma_parse_keeps_timeout_paired(
                args,
                i + 1,
                KillOptionsView { print_only: true, ..acc },
            );
        } else if arg == "-a"@ {
            lemma_parse_keeps_timeout_paired(
                args,
                i + 1,
                KillOptionsView { all_processes: true, ..acc },
            );
        } else if arg == "-s"@ {
            if i + 1 < args.len() {
                lemma_parse_keeps_timeout_paired(
                    args,
                    i + 2,
                    KillOptionsView { signal_explicit: Some(args[i + 1]), ..acc },
                );
            }
        } else if arg == "-q"@ {
            if i + 1 < args.len() && i32_of(args[i + 1]).is_some() {
                lemma_parse_keeps_timeout_paired(
                    args,
                    i + 2,
                    KillOptionsView { queue_value: i32_of(args[i + 1]), ..acc },
                );
            }
        } else if has_prefix(arg, "--timeout"@) {
            match inline_timeout(arg) {
                Some(value) => {
                    if u64_of(value).is_some() {
                        lemma_parse_keeps_timeout_paired(
                            args,
                            i + 1,
                            KillOptionsView { timeout_ms: u64_of(value), ..acc },
                        );
                    }
                },
                None => {
                    if i + 2 < args.len() && u64_of(args[i + 1]).is_some() {
                        lemma_parse_keeps_timeout_paired(
                            args,
                            i + 3,
                            KillOptionsView {
                                timeout_ms: u64_of(args[i + 1]),
                                timeout_signal: Some(args[i + 2]),
                                ..acc
                            },
                        );
                    }
                },
            }
        } else if arg.len() > 1 && arg[0] == '-' {
            let signal = arg.skip(1);
            if all_digits(signal) || method_of_signal(signal).is_some() {
                lemma_parse_keeps_timeout_paired(
                    args,
                    i + 1,
                    KillOptionsView { signal: Some(signal), ..acc },
                );
            }
        } else {
            lemma_parse_keeps_timeout_paired(
                args,
                i + 1,
                KillOptionsView { targets: acc.targets.push(arg), ..acc },
            );
        }
    }
}

/// In a request that was read from arguments and breaks no rule, the signal
/// is given at most once, the timeout and its signal come together, the
/// all-matches flag goes with names only, and there is a target unless the
/// request is print-only.
pub proof fn lemma_valid_request(args: Seq<Seq<char>>)
    requires
        parse_of(args).is_ok(),
        valid_options(parse_of(args)->Ok_0),
    ensures
        !(parse_of(args)->Ok_0.signal.is_some() && parse_of(args)->Ok_0.signal_explicit.is_some()),
        parse_of(args)->Ok_0.timeout_ms.is_some() == parse_of(args)->Ok_0.timeout_signal.is_some(),
        parse_of(args)->Ok_0.all_processes ==> !has_numeric_target(parse_of(args)->Ok_0.targets),
        parse_of(args)->Ok_0.targets.len() > 0 || parse_of(args)->Ok_0.print_only,
{
    lemma_parse_keeps_timeout_paired(args, 0, empty_options());
}

} // verus!
