use winix::kill::{
    execute, find_processes_by_name, force_terminate_process, graceful_terminate_fallback,
    graceful_terminate_process, handle_kill, is_valid_signal_name, kill_process_with_method,
    name_matches, parse_arguments, report_kill_results, resolve_name, select_matches,
    signal_to_windows_method, validate_options, validate_pid_safety, window_close_process,
    Attempt, AttemptEnd, ConsoleVerdict, ErrorClass, HostReply, HostRequest, KillError,
    KillErrorKind, KillFailure, KillOptions, KillSession, PrintItem, ProcessEntry, SnapshotError,
    TargetFailure, TargetStatus, TerminateReply, WindowReply, WindowsKillMethod,
};
use winix::number::{parse_decimal, parse_i32, parse_pid, parse_u64};
use winix::report::{decimal, describe_error, describe_failure, report_lines, usage};

/// A process of the simulated machine.
#[derive(Clone)]
struct Proc {
    pid: u32,
    name: String,
    /// `None`: console events are delivered; `Some(code)`: they fail with it.
    console: Option<u32>,
    /// Whether a delivered console event ends the process.
    obeys_console: bool,
    /// Top-level windows owned, and how many of them take a close request.
    windows: (u32, u32),
    /// `None`: the process can be terminated; else the reply that refuses it.
    shield: Option<TerminateReply>,
}

/// A simulated machine: the caller, the running processes, and a log of
/// everything that was asked of it.
struct Machine {
    own_pid: u32,
    procs: Vec<Proc>,
    log: Vec<HostRequest>,
    slept: u64,
}

const OWN_PID: u32 = 31337;

fn machine() -> Machine {
    Machine { own_pid: OWN_PID, procs: Vec::new(), log: Vec::new(), slept: 0 }
}

/// A console process that takes console events and dies of them.
fn console_proc(pid: u32, name: &str) -> Proc {
    Proc {
        pid,
        name: name.to_string(),
        console: None,
        obeys_console: true,
        windows: (0, 0),
        shield: None,
    }
}

/// A process without console and without windows, as a detached child is.
fn background_proc(pid: u32, name: &str) -> Proc {
    Proc {
        pid,
        name: name.to_string(),
        console: Some(1),
        obeys_console: false,
        windows: (0, 0),
        shield: None,
    }
}

impl Machine {
    fn with(mut self, p: Proc) -> Machine {
        self.procs.push(p);
        self
    }

    fn spawn(&mut self, pid: u32) -> u32 {
        self.procs.push(background_proc(pid, "powershell.exe"));
        pid
    }

    fn is_running(&self, pid: u32) -> bool {
        self.procs.iter().any(|p| p.pid == pid)
    }

    fn remove(&mut self, pid: u32) {
        self.procs.retain(|p| p.pid != pid);
    }

    fn find(&self, pid: u32) -> Option<Proc> {
        self.procs.iter().find(|p| p.pid == pid).cloned()
    }

    fn answer(&mut self, request: HostRequest) -> HostReply {
        self.log.push(request);
        match request {
            HostRequest::CurrentPid => HostReply::CurrentPid(self.own_pid),
            HostRequest::Snapshot => HostReply::Snapshot(Ok(self
                .procs
                .iter()
                .map(|p| ProcessEntry { pid: p.pid, exe_name: p.name.clone() })
                .collect())),
            HostRequest::Probe(pid) => HostReply::Probe(self.is_running(pid)),
            HostRequest::Terminate(pid) => match self.find(pid) {
                None => HostReply::Terminate(TerminateReply::OpenFailed(87)),
                Some(p) => match p.shield {
                    Some(refusal) => HostReply::Terminate(refusal),
                    None => {
                        self.remove(pid);
                        HostReply::Terminate(TerminateReply::Done)
                    }
                },
            },
            HostRequest::ConsoleEvent(pid, _) => match self.find(pid) {
                None => HostReply::ConsoleEvent(Some(87)),
                Some(p) => {
                    if p.console.is_none() && p.obeys_console {
                        self.remove(pid);
                    }
                    HostReply::ConsoleEvent(p.console)
                }
            },
            HostRequest::CloseWindows(pid) => match self.find(pid) {
                None => HostReply::CloseWindows(WindowReply::Counted(0, 0)),
                Some(p) => {
                    if p.windows.0 > 0 && p.windows.1 > 0 {
                        self.remove(pid);
                    }
                    HostReply::CloseWindows(WindowReply::Counted(p.windows.0, p.windows.1))
                }
            },
            HostRequest::Sleep(ms) => {
                self.slept += ms;
                HostReply::Slept
            }
            HostRequest::Finished => unreachable!(),
        }
    }
}

/// Drives a session to its end on the machine.
fn drive(session: &mut KillSession, machine: &mut Machine) -> Result<(), KillError> {
    let mut steps = 0;
    loop {
        let request = session.request();
        if request == HostRequest::Finished {
            return session.result().expect("a finished session has a result");
        }
        let reply = machine.answer(request);
        session.advance(reply);
        steps += 1;
        assert!(steps < 10_000, "the session does not end");
    }
}

/// Runs a command line on the machine, as the program does.
fn kill(machine: &mut Machine, args: &[&str]) -> Result<(), KillError> {
    let mut session = execute(args)?;
    drive(&mut session, machine)
}

fn harmful(request: &HostRequest) -> bool {
    matches!(
        request,
        HostRequest::Terminate(_) | HostRequest::ConsoleEvent(_, _) | HostRequest::CloseWindows(_)
    )
}

#[test]
fn sanity_check() {
    assert_eq!(1 + 1, 2);
}

#[test]
fn test_kill_running_process() {
    let mut m = machine();
    let pid = m.spawn(4100);
    assert!(m.is_running(pid));
    let result = kill(&mut m, &[&pid.to_string()]);
    assert!(result.is_ok(), "Kill command should succeed");
    assert!(!m.is_running(pid), "Process is still running after kill command");
}

#[test]
fn test_kill_nonexistent_process() {
    let mut m = machine();
    let fake_pid = "999999";
    let result = kill(&mut m, &[fake_pid]);
    assert!(result.is_err(), "Kill should fail for non-existent process");
}

#[test]
fn test_kill_with_signal() {
    let mut m = machine();
    let pid = m.spawn(4101);
    let result = kill(&mut m, &["-9", &pid.to_string()]);
    assert!(result.is_ok(), "Kill with signal should succeed");
    assert!(!m.is_running(pid), "Process still running after kill -9");
}

#[test]
fn test_kill_current_process_protection() {
    let mut m = machine();
    let current_pid = m.own_pid;
    m.procs.push(background_proc(current_pid, "self.exe"));
    let result = kill(&mut m, &[&current_pid.to_string()]);
    assert!(result.is_err());
    assert!(m.is_running(current_pid), "Test process should still be running");
    assert!(!m.log.iter().any(harmful));
}

#[test]
fn test_kill_invalid_arguments() {
    let mut m = machine();
    let result = kill(&mut m, &[]);
    assert!(result.is_err(), "Kill with no args should fail");

    let result = kill(&mut m, &["not_a_number"]);
    assert!(result.is_err(), "Kill with invalid PID should fail");

    let result = kill(&mut m, &["-123"]);
    assert!(result.is_err(), "Kill with invalid signal should fail");
}

#[test]
fn test_kill_by_process_name() {
    let mut m = machine();
    m.spawn(4102);
    m.spawn(4103);
    let result = kill(&mut m, &["powershell"]);
    assert!(result.is_ok());
    assert!(!m.is_running(4102));
    assert!(m.is_running(4103), "only the first match is killed by default");
}

#[test]
fn test_kill_all_processes_by_name() {
    let mut m = machine();
    m.spawn(4104);
    m.spawn(4105);
    m.spawn(4106);
    let result = kill(&mut m, &["-a", "powershell"]);
    assert!(result.is_ok());
    assert!(m.procs.is_empty());
}

#[test]
fn test_kill_with_valid_signals() {
    let test_signals = vec![
        ("-2", "SIGINT"),
        ("-3", "SIGQUIT"),
        ("-9", "SIGKILL"),
        ("-15", "SIGTERM"),
        ("-INT", "INT signal"),
        ("-QUIT", "QUIT signal"),
        ("-KILL", "KILL signal"),
        ("-TERM", "TERM signal"),
    ];
    for (signal, description) in test_signals {
        let mut m = machine();
        let pid = m.spawn(4107);
        let result = kill(&mut m, &[signal, &pid.to_string()]);
        assert!(result.is_ok(), "Kill with {} ({}) should succeed", signal, description);
    }
}

#[test]
fn test_kill_with_invalid_signals() {
    let mut m = machine();
    let pid = m.spawn(4108);
    let invalid_signals = vec!["-HUP", "-USR1", "-PIPE", "-999", "-INVALID"];
    for signal in invalid_signals {
        let result = kill(&mut m, &[signal, &pid.to_string()]);
        assert!(result.is_err(), "Kill with invalid signal {} should fail", signal);
    }
    assert!(m.log.is_empty(), "nothing is asked of the host for an invalid signal");
    assert!(m.is_running(pid));
}

#[test]
fn test_kill_with_explicit_signal_flag() {
    let test_cases = vec![vec!["-s", "TERM"], vec!["-s", "9"], vec!["-s", "KILL"]];
    for args in test_cases {
        let mut m = machine();
        let new_pid = m.spawn(4109);
        let new_pid_str = new_pid.to_string();
        let mut test_args = args.clone();
        test_args.push(&new_pid_str);
        let result = kill(&mut m, &test_args);
        assert!(result.is_ok(), "Kill with -s flag should succeed for args: {:?}", test_args);
    }
}

#[test]
fn test_print_only_mode() {
    let mut m = machine();
    let pid = m.spawn(4110);
    let result = kill(&mut m, &["-p", &pid.to_string()]);
    assert!(result.is_ok(), "Print-only mode should succeed");
    assert!(m.is_running(pid), "Process correctly still running after -p flag");
}

#[test]
fn test_print_only_with_process_name() {
    let mut m = machine();
    let pid = m.spawn(4111);
    let mut session = execute(&["-p", "powershell"]).unwrap();
    let result = drive(&mut session, &mut m);
    assert!(result.is_ok());
    assert_eq!(session.printed(), &vec![PrintItem::Pid(pid)]);
    assert!(m.is_running(pid));
}

#[test]
fn test_conflicting_signal_options() {
    let mut m = machine();
    let pid = m.spawn(4112);
    let result = kill(&mut m, &["-9", "-s", "TERM", &pid.to_string()]);
    assert!(result.is_err(), "Conflicting signal options should fail");
    assert!(m.is_running(pid));
}

#[test]
fn test_queue_value_option() {
    let mut m = machine();
    let pid = m.spawn(4113);
    let result = kill(&mut m, &["-q", "42", "-TERM", &pid.to_string()]);
    assert!(result.is_ok(), "Kill with queue value should succeed");
}

#[test]
fn test_end_of_options_marker() {
    let mut m = machine();
    let pid = m.spawn(4114);
    let result = kill(&mut m, &["--", &pid.to_string()]);
    assert!(result.is_ok(), "Kill with -- marker should succeed");
}

#[test]
fn test_multiple_targets() {
    let mut m = machine();
    let mut pids = Vec::new();
    for i in 0..3 {
        pids.push(m.spawn(4115 + i).to_string());
    }
    let mut args = vec!["-9"];
    for pid in &pids {
        args.push(pid);
    }
    let result = kill(&mut m, &args);
    assert!(result.is_ok(), "Kill with multiple targets should succeed");
    assert!(m.procs.is_empty());
}

#[test]
fn test_timeout_option() {
    let mut m = machine();
    let pid = m.spawn(4120);
    let result = kill(&mut m, &["--timeout", "1000", "KILL", &pid.to_string()]);
    assert!(result.is_ok(), "Kill with timeout should succeed");
}

#[test]
fn test_invalid_a_flag_with_pid() {
    let mut m = machine();
    let result = kill(&mut m, &["-a", "1234"]);
    assert!(result.is_err(), "-a flag with numeric PID should fail");
}

#[test]
fn test_missing_signal_argument() {
    let mut m = machine();
    let result = kill(&mut m, &["-s"]);
    assert!(result.is_err(), "Missing signal argument should fail");

    let result = kill(&mut m, &["-q"]);
    assert!(result.is_err(), "Missing queue value argument should fail");
}

#[test]
fn test_system_process_protection() {
    let system_pids = vec!["0", "4", "8"];
    for pid in system_pids {
        let mut m = machine()
            .with(background_proc(0, "[System Process]"))
            .with(background_proc(4, "System"))
            .with(background_proc(8, "Registry"));
        let result = kill(&mut m, &[pid]);
        assert!(result.is_err());
        assert_eq!(m.procs.len(), 3);
        assert!(!m.log.iter().any(harmful));
    }
}

#[test]
fn test_nonexistent_process_name() {
    let mut m = machine();
    let result = kill(&mut m, &["nonexistent_process_name_12345"]);
    assert!(result.is_err(), "Killing nonexistent process name should fail");
}

#[test]
fn test_combined_flags() {
    let mut m = machine();
    let pid = m.spawn(4121);
    let result = kill(&mut m, &["-q", "42", "-s", "TERM", &pid.to_string()]);
    assert!(result.is_ok(), "Combined valid flags should succeed");
}

#[test]
fn test_invalid_queue_value() {
    let mut m = machine();
    let pid = m.spawn(4122);
    let result = kill(&mut m, &["-q", "invalid", &pid.to_string()]);
    assert!(result.is_err(), "Invalid queue value should fail");
    assert!(m.is_running(pid));
}

#[test]
fn test_timeout_without_signal() {
    let mut m = machine();
    let pid = m.spawn(4123);
    let result = kill(&mut m, &["--timeout", "1000", &pid.to_string()]);
    assert!(result.is_err(), "Timeout without signal should fail");
    assert!(m.is_running(pid));
}

#[test]
fn test_print_only_no_targets() {
    let mut m = machine();
    let result = kill(&mut m, &["-p"]);
    assert!(result.is_ok());
    assert!(m.log.is_empty());
}

#[test]
fn test_case_insensitive_signals() {
    let signals = vec!["-term", "-TERM", "-Term", "-kill", "-KILL", "-Kill"];
    for signal in signals {
        let mut m = machine();
        let new_pid = m.spawn(4124);
        let result = kill(&mut m, &[signal, &new_pid.to_string()]);
        assert!(result.is_ok(), "Case-insensitive signal {} should work", signal);
    }
}

#[test]
fn missing_pid_among_three_targets_fails_alone() {
    let mut m = machine();
    m.spawn(5001);
    m.spawn(5003);
    let mut session = execute(&["5001", "5002", "5003"]).unwrap();
    let result = drive(&mut session, &mut m);
    assert_eq!(result.unwrap_err().kind, KillErrorKind::PartialFailure);
    assert_eq!(
        session.statuses(),
        &vec![
            TargetStatus::Terminated,
            TargetStatus::Failed(TargetFailure::Kill(KillFailure::NoSuchProcess)),
            TargetStatus::Terminated,
        ]
    );
    assert_eq!(session.attempts().len(), 3);
    assert!(m.procs.is_empty());
}

#[test]
fn kill_of_absent_pid_reports_not_found() {
    let mut m = machine();
    let mut session = execute(&["-KILL", "4321"]).unwrap();
    let result = drive(&mut session, &mut m);
    assert!(result.is_err());
    assert_eq!(session.attempts().len(), 1);
    assert_eq!(session.attempts()[0].pid, 4321);
    assert_eq!(session.attempts()[0].end, AttemptEnd::Failed(KillFailure::NoSuchProcess));
    assert_eq!(
        m.log,
        vec![HostRequest::CurrentPid, HostRequest::Probe(4321)]
    );
}

#[test]
fn timeout_escalates_to_forced_termination() {
    let mut stubborn = console_proc(6001, "stubborn.exe");
    stubborn.obeys_console = false;
    let mut m = machine().with(stubborn);
    let mut session = execute(&["--timeout", "500", "KILL", "-TERM", "6001"]).unwrap();
    let result = drive(&mut session, &mut m);
    assert!(result.is_ok());
    assert_eq!(m.slept, 500);
    assert_eq!(
        m.log,
        vec![
            HostRequest::CurrentPid,
            HostRequest::Probe(6001),
            HostRequest::ConsoleEvent(6001, false),
            HostRequest::Sleep(500),
            HostRequest::Probe(6001),
            HostRequest::CurrentPid,
            HostRequest::Terminate(6001),
        ]
    );
    assert_eq!(session.escalations().len(), 1);
    assert_eq!(
        session.escalations()[0].end,
        AttemptEnd::Terminated(WindowsKillMethod::ForceTerminate)
    );
    assert!(!m.is_running(6001));
}

fn kind_of(args: &[&str]) -> KillErrorKind {
    match execute(args) {
        Ok(_) => panic!("{:?} should be refused", args),
        Err(e) => e.kind,
    }
}

#[test]
fn numeric_and_named_signals_agree_in_any_case() {
    let map = signal_to_windows_method;
    for (number, names) in [
        ("9", ["KILL", "kill", "Kill", "kIlL"]),
        ("15", ["TERM", "term", "Term", "tErM"]),
        ("2", ["INT", "int", "Int", "iNt"]),
        ("3", ["QUIT", "quit", "Quit", "qUiT"]),
    ] {
        let expected = map(number).unwrap();
        for name in names {
            assert_eq!(map(name).unwrap(), expected, "{} and {}", number, name);
        }
    }
    assert_eq!(map("9").unwrap(), WindowsKillMethod::ForceTerminate);
    assert_eq!(map("15").unwrap(), WindowsKillMethod::GracefulCtrlC);
    assert_eq!(map("2").unwrap(), WindowsKillMethod::GracefulCtrlC);
    assert_eq!(map("3").unwrap(), WindowsKillMethod::GracefulCtrlBreak);
}

#[test]
fn unsupported_signals_are_named_in_the_error() {
    let map = signal_to_windows_method;
    for token in ["HUP", "USR1", "PIPE", "999", "", "KILLS", "1", "WINCH"] {
        let e = map(token).unwrap_err();
        assert_eq!(e.kind, KillErrorKind::UnsupportedSignal);
        assert_eq!(e.detail, token);
    }
    assert!(is_valid_signal_name("term"));
    assert!(is_valid_signal_name("15"));
    assert!(!is_valid_signal_name("hup"));
}

#[test]
fn each_rule_has_its_error() {
    assert_eq!(kind_of(&[]), KillErrorKind::Usage);
    assert_eq!(kind_of(&["-s"]), KillErrorKind::MissingSignalArgument);
    assert_eq!(kind_of(&["-q"]), KillErrorKind::MissingQueueValue);
    assert_eq!(kind_of(&["-q", "x1", "7"]), KillErrorKind::InvalidQueueValue);
    assert_eq!(kind_of(&["--timeout"]), KillErrorKind::MissingTimeoutValue);
    assert_eq!(kind_of(&["--timeout", "soon", "KILL", "7"]), KillErrorKind::InvalidTimeoutValue);
    assert_eq!(kind_of(&["--timeout=soon", "7"]), KillErrorKind::InvalidTimeoutValue);
    assert_eq!(kind_of(&["--timeout", "1000"]), KillErrorKind::MissingTimeoutSignal);
    assert_eq!(kind_of(&["-HUP", "7"]), KillErrorKind::InvalidSignal);
    assert_eq!(kind_of(&["-p1", "7"]), KillErrorKind::InvalidSignal);
    assert_eq!(kind_of(&["-9"]), KillErrorKind::NoTarget);
    assert_eq!(kind_of(&["-s", "TERM", "-9", "1234"]), KillErrorKind::ConflictingSignals);
    assert_eq!(kind_of(&["-999", "7"]), KillErrorKind::UnsupportedSignal);
    assert_eq!(kind_of(&["-s", "HUP", "7"]), KillErrorKind::UnsupportedSignal);
    assert_eq!(kind_of(&["-a", "notepad", "1234"]), KillErrorKind::AllWithPid);
    assert_eq!(kind_of(&["--timeout=1000", "1234"]), KillErrorKind::TimeoutWithoutSignal);
    assert_eq!(kind_of(&["--timeout", "1000", "HUP", "1234"]), KillErrorKind::UnsupportedSignal);
    // The token after the milliseconds is taken as the signal, so no target is left.
    assert_eq!(kind_of(&["--timeout", "1000", "1234"]), KillErrorKind::NoTarget);
}

#[test]
fn rules_are_checked_in_order() {
    // No target comes before conflicting signals, which comes before the rest.
    assert_eq!(kind_of(&["-9", "-s", "HUP"]), KillErrorKind::NoTarget);
    assert_eq!(kind_of(&["-9", "-s", "HUP", "-a", "12"]), KillErrorKind::ConflictingSignals);
    assert_eq!(kind_of(&["-s", "HUP", "-a", "12"]), KillErrorKind::UnsupportedSignal);
    assert_eq!(kind_of(&["-a", "12", "--timeout=5"]), KillErrorKind::AllWithPid);
}

#[test]
fn all_flag_with_names_only_is_valid() {
    let options = parse_arguments(&["-a", "notepad", "calc"]).unwrap();
    assert!(options.all_processes);
    assert!(validate_options(&options).is_ok());
    let options = parse_arguments(&["-a", "notepad", "12"]).unwrap();
    assert_eq!(validate_options(&options).unwrap_err().kind, KillErrorKind::AllWithPid);
    let options = parse_arguments(&["-a", ""]).unwrap();
    assert_eq!(validate_options(&options).unwrap_err().kind, KillErrorKind::AllWithPid);
}

#[test]
fn arguments_are_read_left_to_right() {
    let o = parse_arguments(&["-q", "-42", "--timeout=250", "-s", "TERM", "-a", "a", "--", "-x", "-p"])
        .unwrap();
    assert_eq!(o.queue_value, Some(-42));
    assert_eq!(o.timeout_ms, Some(250));
    assert_eq!(o.timeout_signal, None);
    assert_eq!(o.signal_explicit.as_deref(), Some("TERM"));
    assert_eq!(o.signal, None);
    assert!(o.all_processes);
    assert!(!o.print_only);
    assert!(o.end_of_options);
    assert_eq!(o.targets, vec!["a", "-x", "-p"]);

    let o = parse_arguments(&["--timeout", "+7", "int", "-Kill", "-", "77"]).unwrap();
    assert_eq!(o.timeout_ms, Some(7));
    assert_eq!(o.timeout_signal.as_deref(), Some("int"));
    assert_eq!(o.signal.as_deref(), Some("Kill"));
    assert_eq!(o.targets, vec!["-", "77"]);

    let o = parse_arguments(&["-123", "-s", "-p"]).unwrap();
    assert_eq!(o.signal.as_deref(), Some("123"));
    assert_eq!(o.signal_explicit.as_deref(), Some("-p"));
    assert!(!o.print_only);

    let e = parse_arguments(&["--timeout=5=6"]).unwrap_err();
    assert_eq!(e.kind, KillErrorKind::InvalidTimeoutValue);
    assert_eq!(e.detail, "5=6");
    let e = parse_arguments(&["-q", "2147483648"]).unwrap_err();
    assert_eq!(e.detail, "2147483648");
    let o = parse_arguments(&["-q", "-2147483648", "-q", "+0012"]).unwrap();
    assert_eq!(o.queue_value, Some(12));
    let o = parse_arguments(&["--timeout=18446744073709551615"]).unwrap();
    assert_eq!(o.timeout_ms, Some(u64::MAX));
    assert!(parse_arguments(&["--timeout=18446744073709551616"]).is_err());
    assert!(parse_arguments(&["--timeout=-1"]).is_err());
    assert!(parse_arguments(&["--timeout="]).is_err());
    let o = parse_arguments(&[]).unwrap();
    assert!(o.targets.is_empty() && o.signal.is_none() && !o.end_of_options);
}

#[test]
fn numbers_in_text() {
    assert_eq!(parse_u64("0"), Some(0));
    assert_eq!(parse_u64("+5"), Some(5));
    assert_eq!(parse_u64("-5"), None);
    assert_eq!(parse_u64("+"), None);
    assert_eq!(parse_u64(""), None);
    assert_eq!(parse_u64("00000000000000000000000000017"), Some(17));
    assert_eq!(parse_u64("1 "), None);
    assert_eq!(parse_i32("-0"), Some(0));
    assert_eq!(parse_i32("-"), None);
    assert_eq!(parse_i32("+-1"), None);
    assert_eq!(parse_i32("2147483647"), Some(i32::MAX));
    assert_eq!(parse_i32("-2147483648"), Some(i32::MIN));
    assert_eq!(parse_i32("-2147483649"), None);
    assert_eq!(parse_pid("4294967295"), Some(u32::MAX));
    assert_eq!(parse_pid("4294967296"), None);
    assert_eq!(parse_pid("+1"), None);
    assert_eq!(parse_pid(""), None);
    assert_eq!(parse_decimal("255", 255), Some(255));
    assert_eq!(parse_decimal("256", 255), None);
    assert_eq!(parse_decimal("9", 3), None);
}

#[test]
fn name_resolution_ignores_case_and_suffix() {
    let entry = |pid, name: &str| ProcessEntry { pid, exe_name: name.to_string() };
    let snapshot = vec![
        entry(10, "NOTEPAD.EXE"),
        entry(11, "calc.exe"),
        entry(12, "notepad"),
        entry(13, "Notepad.exe"),
        entry(14, "notepad.exe.exe"),
        entry(15, "xnotepad.exe"),
        entry(16, "notepad.ex"),
    ];
    assert_eq!(find_processes_by_name(&snapshot, "NotePad"), vec![10, 12, 13]);
    assert_eq!(find_processes_by_name(&snapshot, "notepad.exe"), vec![10, 13, 14]);
    assert_eq!(find_processes_by_name(&snapshot, "ÉDIT"), Vec::<u32>::new());
    assert_eq!(find_processes_by_name(&vec![entry(1, "édit.exe")], "ÉDIT"), vec![1]);
    assert_eq!(find_processes_by_name(&Vec::new(), "notepad"), Vec::<u32>::new());
    assert_eq!(select_matches(vec![10, 12, 13], false), vec![10]);
    assert_eq!(select_matches(vec![10, 12, 13], true), vec![10, 12, 13]);
    assert_eq!(select_matches(vec![], false), Vec::<u32>::new());
    assert!(name_matches("a.exe", "a"));
    assert!(name_matches("a", "a"));
    assert!(!name_matches("a", "a.exe"));
    assert!(!name_matches(".exe", "a"));
    assert!(name_matches(".exe", ""));
}

#[test]
fn guard_refuses_protected_and_own_pid() {
    for pid in [0, 4, 8] {
        assert_eq!(validate_pid_safety(pid, 99), Err(KillFailure::ProtectedPid));
        assert_eq!(validate_pid_safety(pid, pid), Err(KillFailure::ProtectedPid));
    }
    assert_eq!(validate_pid_safety(99, 99), Err(KillFailure::CurrentProcess));
    assert_eq!(validate_pid_safety(1, 99), Ok(()));
    assert_eq!(validate_pid_safety(12, 99), Ok(()));
}

#[test]
fn own_pid_fails_with_safety_rejection() {
    let mut m = machine().with(background_proc(OWN_PID, "self.exe"));
    let mut session = execute(&[&OWN_PID.to_string()]).unwrap();
    let result = drive(&mut session, &mut m);
    assert_eq!(result.unwrap_err().kind, KillErrorKind::PartialFailure);
    assert_eq!(
        session.statuses(),
        &vec![TargetStatus::Failed(TargetFailure::Kill(KillFailure::CurrentProcess))]
    );
    assert_eq!(KillFailure::CurrentProcess.class(), ErrorClass::SafetyRejection);
    assert_eq!(m.log, vec![HostRequest::CurrentPid]);
}

#[test]
fn ladder_falls_back_from_console_to_windows_to_force() {
    let reply = |a: &mut Attempt, r: HostReply| {
        a.advance(&r);
        a.request()
    };
    // Console event fails for a process without console: windows are closed.
    let mut a = Attempt::begin(50, WindowsKillMethod::GracefulCtrlBreak, false);
    assert_eq!(a.request(), HostRequest::CurrentPid);
    assert_eq!(reply(&mut a, HostReply::CurrentPid(1)), HostRequest::Probe(50));
    assert_eq!(reply(&mut a, HostReply::Probe(true)), HostRequest::ConsoleEvent(50, true));
    assert_eq!(reply(&mut a, HostReply::ConsoleEvent(Some(1))), HostRequest::CloseWindows(50));
    assert_eq!(
        reply(&mut a, HostReply::CloseWindows(WindowReply::Counted(2, 1))),
        HostRequest::Finished
    );
    assert_eq!(a.result(), Some(AttemptEnd::Terminated(WindowsKillMethod::WindowClose)));

    // No window takes the request: forced termination, whose end is reported.
    let mut a = Attempt::begin(50, WindowsKillMethod::GracefulCtrlC, false);
    reply(&mut a, HostReply::CurrentPid(1));
    reply(&mut a, HostReply::Probe(true));
    assert_eq!(reply(&mut a, HostReply::ConsoleEvent(Some(5))), HostRequest::CloseWindows(50));
    assert_eq!(
        reply(&mut a, HostReply::CloseWindows(WindowReply::Counted(3, 0))),
        HostRequest::Terminate(50)
    );
    reply(&mut a, HostReply::Terminate(TerminateReply::TerminateFailed(5)));
    assert_eq!(a.result(), Some(AttemptEnd::Failed(KillFailure::TerminateDenied)));

    // Whatever the code, a console event that fails leads to the next technique.
    for code in [6, 87, 0, 1450] {
        let mut a = Attempt::begin(50, WindowsKillMethod::GracefulCtrlC, false);
        reply(&mut a, HostReply::CurrentPid(1));
        reply(&mut a, HostReply::Probe(true));
        assert_eq!(reply(&mut a, HostReply::ConsoleEvent(Some(code))), HostRequest::CloseWindows(50));
        assert_eq!(a.result(), None);
    }

    // A console event that is sent ends the attempt.
    let mut a = Attempt::begin(50, WindowsKillMethod::GracefulCtrlC, false);
    reply(&mut a, HostReply::CurrentPid(1));
    reply(&mut a, HostReply::Probe(true));
    assert_eq!(reply(&mut a, HostReply::ConsoleEvent(None)), HostRequest::Finished);
    assert_eq!(a.result(), Some(AttemptEnd::Terminated(WindowsKillMethod::GracefulCtrlC)));

    // Closing windows, asked for by itself, does not fall back.
    let mut a = Attempt::begin(50, WindowsKillMethod::WindowClose, false);
    reply(&mut a, HostReply::CurrentPid(1));
    assert_eq!(reply(&mut a, HostReply::Probe(true)), HostRequest::CloseWindows(50));
    reply(&mut a, HostReply::CloseWindows(WindowReply::Counted(0, 0)));
    assert_eq!(a.result(), Some(AttemptEnd::Failed(KillFailure::NoWindows)));

    // A reply to something that was not asked changes nothing.
    let mut a = Attempt::begin(50, WindowsKillMethod::ForceTerminate, false);
    assert_eq!(reply(&mut a, HostReply::Probe(true)), HostRequest::CurrentPid);
    assert_eq!(reply(&mut a, HostReply::Terminate(TerminateReply::Done)), HostRequest::CurrentPid);
    assert_eq!(a.result(), None);
}

#[test]
fn outcomes_of_single_techniques() {
    assert_eq!(force_terminate_process(TerminateReply::Done), Ok(()));
    assert_eq!(force_terminate_process(TerminateReply::OpenFailed(5)), Err(KillFailure::OpenDenied));
    assert_eq!(
        force_terminate_process(TerminateReply::OpenFailed(87)),
        Err(KillFailure::OpenInvalid)
    );
    assert_eq!(
        force_terminate_process(TerminateReply::OpenFailed(6)),
        Err(KillFailure::OpenFailed(6))
    );
    assert_eq!(
        force_terminate_process(TerminateReply::TerminateFailed(87)),
        Err(KillFailure::TerminateFailed(87))
    );
    assert_eq!(
        window_close_process(WindowReply::EnumerationFailed(3)),
        Err(KillFailure::WindowEnumerationFailed(3))
    );
    assert_eq!(window_close_process(WindowReply::Counted(0, 0)), Err(KillFailure::NoWindows));
    assert_eq!(
        window_close_process(WindowReply::Counted(4, 0)),
        Err(KillFailure::WindowsRefused(4))
    );
    assert_eq!(window_close_process(WindowReply::Counted(4, 1)), Ok(()));
    assert_eq!(graceful_terminate_process(None), ConsoleVerdict::Sent);
    assert_eq!(graceful_terminate_process(Some(0)), ConsoleVerdict::FallBack(0));
    assert_eq!(graceful_terminate_process(Some(6)), ConsoleVerdict::FallBack(6));
    assert_eq!(
        graceful_terminate_fallback(WindowsKillMethod::GracefulCtrlC, WindowsKillMethod::GracefulCtrlC),
        Some(WindowsKillMethod::WindowClose)
    );
    assert_eq!(
        graceful_terminate_fallback(WindowsKillMethod::GracefulCtrlBreak, WindowsKillMethod::WindowClose),
        Some(WindowsKillMethod::ForceTerminate)
    );
    assert_eq!(
        graceful_terminate_fallback(WindowsKillMethod::GracefulCtrlC, WindowsKillMethod::ForceTerminate),
        None
    );
    assert_eq!(
        graceful_terminate_fallback(WindowsKillMethod::WindowClose, WindowsKillMethod::WindowClose),
        None
    );
    assert_eq!(
        kill_process_with_method(9, WindowsKillMethod::WindowClose),
        HostRequest::CloseWindows(9)
    );
    assert_eq!(
        kill_process_with_method(9, WindowsKillMethod::GracefulCtrlBreak),
        HostRequest::ConsoleEvent(9, true)
    );
}

#[test]
fn name_with_a_failing_member_fails_as_a_whole() {
    let mut shielded = background_proc(7002, "svc.exe");
    shielded.shield = Some(TerminateReply::OpenFailed(5));
    let mut m = machine()
        .with(background_proc(7001, "svc.exe"))
        .with(shielded)
        .with(background_proc(7003, "SVC.EXE"));
    let mut session = execute(&["-a", "svc", "other"]).unwrap();
    let result = drive(&mut session, &mut m);
    assert!(result.is_err());
    assert_eq!(
        session.statuses(),
        &vec![
            TargetStatus::Failed(TargetFailure::Members),
            TargetStatus::Failed(TargetFailure::NoMatch),
        ]
    );
    let ends: Vec<(u32, AttemptEnd)> = session.attempts().iter().map(|r| (r.pid, r.end)).collect();
    assert_eq!(
        ends,
        vec![
            (7001, AttemptEnd::Terminated(WindowsKillMethod::ForceTerminate)),
            (7002, AttemptEnd::Failed(KillFailure::OpenDenied)),
            (7003, AttemptEnd::Terminated(WindowsKillMethod::ForceTerminate)),
        ]
    );
    let lines = report_lines(&session);
    assert_eq!(
        lines,
        vec![
            "Failed to process svc: Failed to kill 7002 (svc): Access denied: Cannot terminate \
             process 7002 (insufficient privileges)",
            "Failed to process other: No processes found with name: other",
        ]
    );
}

#[test]
fn oversized_pid_fails_alone() {
    let mut m = machine();
    m.spawn(8001);
    let mut session = execute(&["99999999999", "8001"]).unwrap();
    let result = drive(&mut session, &mut m);
    assert!(result.is_err());
    assert_eq!(
        session.statuses(),
        &vec![TargetStatus::Failed(TargetFailure::InvalidPid), TargetStatus::Terminated]
    );
    assert!(!m.is_running(8001));
    assert_eq!(
        report_lines(&session),
        vec![
            "Failed to process 99999999999: Invalid PID: 99999999999 must be a number or name",
            "Successfully processed target: 8001",
        ]
    );
}

#[test]
fn grace_period_rechecks_and_escalates() {
    // One process dies of the console event, one ignores it, one name is gone.
    let mut stubborn = console_proc(9002, "b.exe");
    stubborn.obeys_console = false;
    let mut m = machine().with(console_proc(9001, "a.exe")).with(stubborn);
    let mut session = execute(&["--timeout", "40", "9", "-INT", "9001", "b", "9999"]).unwrap();
    let result = drive(&mut session, &mut m);
    assert_eq!(result.unwrap_err().kind, KillErrorKind::PartialFailure);
    assert_eq!(m.slept, 40);
    assert_eq!(
        session.statuses(),
        &vec![
            TargetStatus::Terminated,
            TargetStatus::Terminated,
            TargetStatus::Failed(TargetFailure::Kill(KillFailure::NoSuchProcess)),
        ]
    );
    let ends: Vec<(usize, u32, AttemptEnd)> =
        session.escalations().iter().map(|r| (r.target, r.pid, r.end)).collect();
    assert_eq!(
        ends,
        vec![
            (0, 9001, AttemptEnd::Gone),
            (1, 9002, AttemptEnd::Terminated(WindowsKillMethod::ForceTerminate)),
        ]
    );
    assert!(m.procs.is_empty());
    let after_sleep: Vec<HostRequest> = m
        .log
        .iter()
        .copied()
        .skip_while(|r| *r != HostRequest::Sleep(40))
        .collect();
    assert_eq!(
        after_sleep,
        vec![
            HostRequest::Sleep(40),
            HostRequest::Probe(9001),
            HostRequest::Snapshot,
            HostRequest::Probe(9002),
            HostRequest::CurrentPid,
            HostRequest::Terminate(9002),
        ]
    );
}

#[test]
fn no_grace_period_without_a_success() {
    let mut m = machine();
    let result = kill(&mut m, &["--timeout", "40", "KILL", "-TERM", "4321"]);
    assert!(result.is_err());
    assert_eq!(m.slept, 0);
    assert!(!m.log.contains(&HostRequest::Sleep(40)));
}

#[test]
fn print_only_lists_and_touches_nothing() {
    let mut m = machine();
    m.spawn(3001);
    m.spawn(3002);
    let mut session = execute(&["-p", "007", "powershell", "12"]).unwrap();
    let result = drive(&mut session, &mut m);
    assert!(result.is_ok());
    assert_eq!(
        session.printed(),
        &vec![PrintItem::Target(0), PrintItem::Pid(3001), PrintItem::Target(2)]
    );
    assert_eq!(m.log, vec![HostRequest::Snapshot]);
    assert_eq!(m.procs.len(), 2);

    let mut session = execute(&["-p", "-a", "powershell"]).unwrap();
    let result = drive(&mut session, &mut m);
    assert!(result.is_ok());
    assert_eq!(session.printed(), &vec![PrintItem::Pid(3001), PrintItem::Pid(3002)]);
    assert_eq!(m.log, vec![HostRequest::Snapshot, HostRequest::Snapshot]);
    assert_eq!(m.procs.len(), 2);

    // A name without a match fails alone: the targets after it are still listed.
    let mut session = execute(&["-p", "powershell", "nothing", "powershell", "12"]).unwrap();
    let e = drive(&mut session, &mut m).unwrap_err();
    assert_eq!(e.kind, KillErrorKind::PartialFailure);
    assert_eq!(
        session.printed(),
        &vec![PrintItem::Pid(3001), PrintItem::Pid(3001), PrintItem::Target(3)]
    );
    assert_eq!(
        session.statuses(),
        &vec![
            TargetStatus::Listed,
            TargetStatus::Failed(TargetFailure::NoMatch),
            TargetStatus::Listed,
            TargetStatus::Listed,
        ]
    );
    assert_eq!(
        report_lines(&session)[1],
        "Failed to process nothing: No processes found with name: nothing"
    );
    assert_eq!(m.procs.len(), 2);
    assert!(m.log.iter().all(|r| *r == HostRequest::Snapshot));
}

#[test]
fn print_only_goes_on_after_a_failed_lookup() {
    let mut m = machine();
    let mut session = execute(&["-p", "nonexistent_process_name_12345", "1234"]).unwrap();
    let result = drive(&mut session, &mut m);
    assert!(result.is_err());
    assert_eq!(session.printed(), &vec![PrintItem::Target(1)]);
    assert_eq!(
        session.statuses(),
        &vec![TargetStatus::Failed(TargetFailure::NoMatch), TargetStatus::Listed]
    );
    assert_eq!(TargetFailure::NoMatch.class(), ErrorClass::NotFound);
    assert_eq!(m.log, vec![HostRequest::Snapshot]);
}

#[test]
fn failed_snapshot_is_an_enumeration_failure() {
    let mut session = execute(&["ghost", "12"]).unwrap();
    assert_eq!(session.request(), HostRequest::Snapshot);
    // A reply to something else is ignored.
    session.advance(HostReply::Probe(true));
    assert_eq!(session.request(), HostRequest::Snapshot);
    session.advance(HostReply::Snapshot(Err(SnapshotError::FirstEntryFailed(24))));
    assert_eq!(
        session.statuses(),
        &vec![TargetStatus::Failed(TargetFailure::Snapshot(SnapshotError::FirstEntryFailed(24)))]
    );
    assert_eq!(session.request(), HostRequest::CurrentPid);
    assert!(session.result().is_none());

    // Print-only: a failed snapshot fails that target, and the next is taken up.
    let mut session = execute(&["-p", "ghost", "77", "wraith"]).unwrap();
    session.advance(HostReply::Snapshot(Err(SnapshotError::CreateFailed(8))));
    assert!(session.result().is_none());
    assert_eq!(session.request(), HostRequest::Snapshot);
    session.advance(HostReply::Snapshot(Ok(vec![ProcessEntry {
        pid: 5,
        exe_name: "Wraith.exe".to_string(),
    }])));
    let e = session.result().unwrap().unwrap_err();
    assert_eq!(e.kind, KillErrorKind::PartialFailure);
    assert_eq!(e.kind.class(), ErrorClass::PartialFailure);
    let failure = TargetFailure::Snapshot(SnapshotError::CreateFailed(8));
    assert_eq!(failure.class(), ErrorClass::EnumerationFailure);
    assert_eq!(
        session.statuses(),
        &vec![TargetStatus::Failed(failure), TargetStatus::Listed, TargetStatus::Listed]
    );
    assert_eq!(session.printed(), &vec![PrintItem::Target(1), PrintItem::Pid(5)]);
    assert_eq!(
        report_lines(&session),
        vec![
            "Failed to process ghost: Failed to create process snapshot: Windows error code 8",
            "Successfully processed target: 77",
            "Successfully processed target: wraith",
        ]
    );
    assert_eq!(describe_error(&e), "Some kill operations failed");
}

#[test]
fn messages_are_worded_exactly() {
    let text = |args: &[&str]| describe_error(&execute(args).err().unwrap());
    assert!(text(&[]).starts_with("Usage: kill [-signal|-s signal|-p] [-q value] [-a]"));
    assert_eq!(text(&[]), usage());
    assert_eq!(text(&["-s"]), "Option -s requires a signal argument");
    assert_eq!(text(&["-q"]), "Option -q requires a value argument");
    assert_eq!(text(&["-q", "x"]), "Invalid queue value: x");
    assert_eq!(text(&["--timeout"]), "Option --timeout requires milliseconds argument");
    assert_eq!(text(&["--timeout", "1"]), "Option --timeout requires a signal argument");
    assert_eq!(text(&["--timeout=z"]), "Invalid timeout value: z");
    assert_eq!(text(&["-HUP"]), "Invalid signal: -HUP");
    assert_eq!(text(&["-9"]), "No process ID or name specified");
    assert_eq!(
        text(&["-9", "-s", "9", "1"]),
        "Cannot specify signal with both -signal and -s options"
    );
    assert_eq!(
        text(&["-s", "HUP", "1"]),
        "Signal 'HUP' is not supported on Windows. Supported signals: TERM(15), INT(2), QUIT(3), KILL(9)"
    );
    assert_eq!(text(&["-a", "1"]), "Cannot use -a flag with numeric PIDs");
    assert_eq!(text(&["--timeout=1", "1"]), "--timeout option requires a signal");
    assert_eq!(decimal(0), "0");
    assert_eq!(decimal(10), "10");
    assert_eq!(decimal(4294967295), "4294967295");
    assert_eq!(decimal(u64::MAX), "18446744073709551615");
    assert_eq!(
        describe_failure(4, KillFailure::ProtectedPid),
        "Cannot kill system process with PID 4"
    );
    assert_eq!(describe_failure(4, KillFailure::CurrentProcess), "Cannot kill current process");
    assert_eq!(describe_failure(120, KillFailure::NoSuchProcess), "No such process: 120");
    assert_eq!(
        describe_failure(120, KillFailure::OpenInvalid),
        "Invalid PID: Process 120 does not exist"
    );
    assert_eq!(
        describe_failure(120, KillFailure::OpenFailed(1450)),
        "Failed to open process 120: Windows error code 1450"
    );
    assert_eq!(
        describe_failure(120, KillFailure::TerminateDenied),
        "Access denied: Cannot terminate process 120 (protected process)"
    );
    assert_eq!(
        describe_failure(120, KillFailure::TerminateFailed(31)),
        "Failed to terminate process 120: Windows error code 31"
    );
    assert_eq!(
        describe_failure(120, KillFailure::WindowEnumerationFailed(2)),
        "Failed to enumerate windows: Windows error code 2"
    );
    assert_eq!(
        describe_failure(120, KillFailure::NoWindows),
        "No windows found for process 120 (may be a console-only or background process)"
    );
    assert_eq!(
        describe_failure(120, KillFailure::WindowsRefused(3)),
        "Found 3 windows for process 120 but failed to send close messages"
    );
}

#[test]
fn report_is_success_only_if_every_target_was_terminated() {
    assert_eq!(report_kill_results(&vec![]), Ok(()));
    assert_eq!(report_kill_results(&vec![TargetStatus::Terminated; 3]), Ok(()));
    assert_eq!(
        report_kill_results(&vec![
            TargetStatus::Terminated,
            TargetStatus::Failed(TargetFailure::NoMatch),
            TargetStatus::Terminated,
        ]),
        Err(KillErrorKind::PartialFailure)
    );
}

#[test]
fn default_options_are_empty() {
    let o = KillOptions::default();
    assert!(o.signal.is_none() && o.signal_explicit.is_none() && o.timeout_signal.is_none());
    assert!(!o.print_only && !o.all_processes && !o.end_of_options);
    assert!(o.queue_value.is_none() && o.timeout_ms.is_none() && o.targets.is_empty());
    assert_eq!(handle_kill(o).err().unwrap().kind, KillErrorKind::NoTarget);
}

#[test]
fn name_without_match_resolves_to_nothing() {
    let entry = |pid, name: &str| ProcessEntry { pid, exe_name: name.to_string() };
    let snapshot = vec![entry(1, "a.exe"), entry(2, "b.exe"), entry(3, "A.EXE"), entry(4, "a")];
    assert_eq!(resolve_name(&snapshot, "a", false), Some(vec![1]));
    assert_eq!(resolve_name(&snapshot, "a", true), Some(vec![1, 3, 4]));
    assert_eq!(resolve_name(&snapshot, "b.exe", true), Some(vec![2]));
    assert_eq!(resolve_name(&snapshot, "c", true), None);
    assert_eq!(resolve_name(&snapshot, "c", false), None);
    assert_eq!(resolve_name(&Vec::new(), "a", true), None);
}
