use codex_lite::error::CodexErr;
use codex_lite::error::IoError;
use codex_lite::error::IoErrorKind;
use codex_lite::error::SandboxErr;
use codex_lite::exec::check_pipes;
use codex_lite::exec::classify;
use codex_lite::exec::consume_truncated_output;
use codex_lite::exec::finish_exec_tool_call;
use codex_lite::exec::is_likely_sandbox_denied;
use codex_lite::exec::resolve_race;
use codex_lite::exec::RaceEvent;
use codex_lite::exec::RawExecToolCallOutput;
use codex_lite::exec::SandboxType;
use codex_lite::exit_status::synthetic_exit_status;
use codex_lite::exit_status::ExitStatus;
use codex_lite::exit_status::SIGKILL_CODE;
use codex_lite::exit_status::TIMEOUT_CODE;
use std::time::Duration;

fn raw(exit_status: ExitStatus, stdout: &[u8], stderr: &[u8]) -> RawExecToolCallOutput {
    RawExecToolCallOutput {
        exit_status,
        stdout: stdout.to_vec(),
        stderr: stderr.to_vec(),
    }
}

fn io_error(message: &str) -> IoError {
    IoError {
        kind: IoErrorKind::Other,
        message: message.to_string(),
    }
}

#[test]
fn echo_hi_without_sandbox_is_an_ordinary_result() {
    let duration = Duration::from_millis(12);
    let out = finish_exec_tool_call(
        Ok(raw(ExitStatus::ExitedWithCode(0), b"hi\n", b"")),
        SandboxType::NoSandbox,
        duration,
    )
    .unwrap();
    assert_eq!(out.exit_code, 0);
    assert_eq!(out.stdout, "hi\n");
    assert_eq!(out.stderr, "");
    assert_eq!(out.duration, duration);
}

#[test]
fn exit_126_under_a_sandbox_is_denied_and_127_is_not() {
    for sandbox in [SandboxType::MacosSeatbelt, SandboxType::LinuxSeccomp] {
        let denied = finish_exec_tool_call(
            Ok(raw(ExitStatus::ExitedWithCode(126), b"out", b"err")),
            sandbox,
            Duration::from_millis(1),
        );
        match denied {
            Err(CodexErr::Sandbox(SandboxErr::Denied(code, stdout, stderr))) => {
                assert_eq!(code, 126);
                assert_eq!(stdout, "out");
                assert_eq!(stderr, "err");
            }
            other => panic!("expected a denial, got {other:?}"),
        }

        let not_found = finish_exec_tool_call(
            Ok(raw(ExitStatus::ExitedWithCode(127), b"", b"sh: nope: not found\n")),
            sandbox,
            Duration::from_millis(1),
        )
        .unwrap();
        assert_eq!(not_found.exit_code, 127);
        assert_eq!(not_found.stderr, "sh: nope: not found\n");
    }
}

#[test]
fn failure_without_sandbox_is_an_ordinary_result() {
    let out = finish_exec_tool_call(
        Ok(raw(ExitStatus::ExitedWithCode(126), b"", b"")),
        SandboxType::NoSandbox,
        Duration::from_millis(1),
    )
    .unwrap();
    assert_eq!(out.exit_code, 126);
}

#[test]
fn success_under_a_sandbox_is_an_ordinary_result() {
    let out = finish_exec_tool_call(
        Ok(raw(ExitStatus::ExitedWithCode(0), b"ok", b"")),
        SandboxType::LinuxSeccomp,
        Duration::from_millis(1),
    )
    .unwrap();
    assert_eq!(out.exit_code, 0);
    assert_eq!(out.stdout, "ok");
}

#[test]
fn unknown_exit_code_is_minus_one() {
    let out = classify(
        ExitStatus::Unknown,
        SandboxType::NoSandbox,
        String::new(),
        String::new(),
        Duration::from_millis(1),
    )
    .unwrap();
    assert_eq!(out.exit_code, -1);

    let denied = classify(
        ExitStatus::Unknown,
        SandboxType::MacosSeatbelt,
        "a".to_string(),
        "b".to_string(),
        Duration::from_millis(1),
    );
    assert!(matches!(
        denied,
        Err(CodexErr::Sandbox(SandboxErr::Denied(-1, _, _)))
    ));
}

#[test]
fn denial_heuristic_table() {
    assert!(!is_likely_sandbox_denied(SandboxType::NoSandbox, 1));
    assert!(!is_likely_sandbox_denied(SandboxType::NoSandbox, 127));
    assert!(is_likely_sandbox_denied(SandboxType::MacosSeatbelt, 1));
    assert!(is_likely_sandbox_denied(SandboxType::LinuxSeccomp, 2));
    assert!(is_likely_sandbox_denied(SandboxType::LinuxSeccomp, 126));
    assert!(!is_likely_sandbox_denied(SandboxType::LinuxSeccomp, 127));
    assert!(!is_likely_sandbox_denied(SandboxType::MacosSeatbelt, 127));
}

#[test]
fn timeout_is_classified_timeout_whatever_was_written() {
    let big = vec![b'x'; 10_240];
    for sandbox in [
        SandboxType::NoSandbox,
        SandboxType::MacosSeatbelt,
        SandboxType::LinuxSeccomp,
    ] {
        let raw = consume_truncated_output(
            Ok(RaceEvent::TimedOut),
            Ok(()),
            Ok(big.clone()),
            Ok(Vec::new()),
        )
        .unwrap();
        assert_eq!(raw.exit_status, ExitStatus::TerminatedBySignal(64));
        assert_eq!(raw.stdout.len(), 10_240);
        let result = finish_exec_tool_call(Ok(raw), sandbox, Duration::from_millis(50));
        assert!(matches!(
            result,
            Err(CodexErr::Sandbox(SandboxErr::Timeout))
        ));
    }
}

#[test]
fn interrupt_is_classified_as_killed_not_timeout() {
    for sandbox in [
        SandboxType::NoSandbox,
        SandboxType::MacosSeatbelt,
        SandboxType::LinuxSeccomp,
    ] {
        let raw = consume_truncated_output(
            Ok(RaceEvent::Interrupted),
            Ok(()),
            Ok(b"partial".to_vec()),
            Ok(Vec::new()),
        )
        .unwrap();
        assert_eq!(raw.exit_status, ExitStatus::TerminatedBySignal(9));
        let result = finish_exec_tool_call(Ok(raw), sandbox, Duration::from_millis(50));
        assert!(matches!(
            result,
            Err(CodexErr::Sandbox(SandboxErr::Signal(9)))
        ));
    }
}

#[test]
fn real_signal_is_reported_with_its_number() {
    let result = finish_exec_tool_call(
        Ok(raw(ExitStatus::TerminatedBySignal(15), b"", b"")),
        SandboxType::NoSandbox,
        Duration::from_millis(1),
    );
    assert!(matches!(
        result,
        Err(CodexErr::Sandbox(SandboxErr::Signal(15)))
    ));
}

#[test]
fn race_outcomes() {
    let exited = resolve_race(RaceEvent::Exited(ExitStatus::ExitedWithCode(3)));
    assert!(!exited.kill);
    assert_eq!(exited.exit_status, ExitStatus::ExitedWithCode(3));

    let timed_out = resolve_race(RaceEvent::TimedOut);
    assert!(timed_out.kill);
    assert_eq!(
        timed_out.exit_status,
        ExitStatus::TerminatedBySignal(TIMEOUT_CODE)
    );

    let interrupted = resolve_race(RaceEvent::Interrupted);
    assert!(interrupted.kill);
    assert_eq!(
        interrupted.exit_status,
        ExitStatus::TerminatedBySignal(SIGKILL_CODE)
    );
}

#[test]
fn wait_statuses_decode_as_on_posix() {
    assert_eq!(ExitStatus::from_raw(0), ExitStatus::ExitedWithCode(0));
    assert_eq!(ExitStatus::from_raw(1 << 8), ExitStatus::ExitedWithCode(1));
    assert_eq!(ExitStatus::from_raw(127 << 8), ExitStatus::ExitedWithCode(127));
    assert_eq!(ExitStatus::from_raw(9), ExitStatus::TerminatedBySignal(9));
    assert_eq!(ExitStatus::from_raw(15 | 0x80), ExitStatus::TerminatedBySignal(15));
    assert_eq!(ExitStatus::from_raw(0x137f), ExitStatus::Unknown);
    assert_eq!(ExitStatus::from_raw(0xffff), ExitStatus::Unknown);
    assert_eq!(synthetic_exit_status(128 + 64), ExitStatus::TerminatedBySignal(64));
    assert_eq!(synthetic_exit_status(128 + 9), ExitStatus::TerminatedBySignal(9));
    assert_eq!(ExitStatus::TerminatedBySignal(64).signal(), Some(64));
    assert_eq!(ExitStatus::TerminatedBySignal(64).code(), None);
    assert_eq!(ExitStatus::ExitedWithCode(5).code(), Some(5));
    assert_eq!(ExitStatus::ExitedWithCode(5).signal(), None);
    assert_eq!(ExitStatus::Unknown.code(), None);
    assert_eq!(ExitStatus::Unknown.signal(), None);
}

#[test]
fn failures_surface_in_order() {
    // A failed wait comes first.
    let r = consume_truncated_output(
        Err(io_error("wait")),
        Err(io_error("kill")),
        Err(io_error("stdout")),
        Err(io_error("stderr")),
    );
    assert!(matches!(r, Err(CodexErr::Io(e)) if e.message == "wait"));

    // A failed kill counts only where a kill was due.
    let r = consume_truncated_output(
        Ok(RaceEvent::TimedOut),
        Err(io_error("kill")),
        Ok(Vec::new()),
        Ok(Vec::new()),
    );
    assert!(matches!(r, Err(CodexErr::Io(e)) if e.message == "kill"));
    let r = consume_truncated_output(
        Ok(RaceEvent::Exited(ExitStatus::ExitedWithCode(0))),
        Err(io_error("kill")),
        Ok(b"o".to_vec()),
        Ok(b"e".to_vec()),
    )
    .unwrap();
    assert_eq!(r.exit_status, ExitStatus::ExitedWithCode(0));
    assert_eq!(r.stdout, b"o");
    assert_eq!(r.stderr, b"e");

    // Then the drains, standard output first.
    let r = consume_truncated_output(
        Ok(RaceEvent::Interrupted),
        Ok(()),
        Err(io_error("stdout")),
        Err(io_error("stderr")),
    );
    assert!(matches!(r, Err(CodexErr::Io(e)) if e.message == "stdout"));
    let r = consume_truncated_output(
        Ok(RaceEvent::Interrupted),
        Ok(()),
        Ok(Vec::new()),
        Err(io_error("stderr")),
    );
    assert!(matches!(r, Err(CodexErr::Io(e)) if e.message == "stderr"));
}

#[test]
fn an_error_that_ended_the_run_is_handed_on() {
    let r = finish_exec_tool_call(
        Err(CodexErr::LandlockSandboxExecutableNotProvided),
        SandboxType::LinuxSeccomp,
        Duration::from_millis(1),
    );
    assert!(matches!(
        r,
        Err(CodexErr::LandlockSandboxExecutableNotProvided)
    ));
    let r = finish_exec_tool_call(
        Err(CodexErr::Io(io_error("spawn"))),
        SandboxType::NoSandbox,
        Duration::from_millis(1),
    );
    assert!(matches!(r, Err(CodexErr::Io(e)) if e.message == "spawn" && e.kind == IoErrorKind::Other));
}

#[test]
fn invalid_utf8_in_output_is_replaced() {
    let out = finish_exec_tool_call(
        Ok(raw(ExitStatus::ExitedWithCode(0), b"a\xffb", b"\xc3\xa9")),
        SandboxType::NoSandbox,
        Duration::from_millis(1),
    )
    .unwrap();
    assert_eq!(out.stdout, "a\u{fffd}b");
    assert_eq!(out.stderr, "é");
}

#[test]
fn missing_pipes_are_io_errors() {
    assert!(check_pipes(true, true).is_ok());
    match check_pipes(false, true) {
        Err(CodexErr::Io(e)) => {
            assert_eq!(e.kind, IoErrorKind::Other);
            assert_eq!(e.message, "stdout pipe was unexpectedly not available");
        }
        other => panic!("unexpected {other:?}"),
    }
    match check_pipes(false, false) {
        Err(CodexErr::Io(e)) => {
            assert_eq!(e.message, "stdout pipe was unexpectedly not available");
        }
        other => panic!("unexpected {other:?}"),
    }
    match check_pipes(true, false) {
        Err(CodexErr::Io(e)) => {
            assert_eq!(e.kind, IoErrorKind::Other);
            assert_eq!(e.message, "stderr pipe was unexpectedly not available");
        }
        other => panic!("unexpected {other:?}"),
    }
}
