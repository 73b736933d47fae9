use sln_operations::{
    BuildConfig, BuildError, Config, ExitOutcome, Interrupt, MsBuildArg, Operation, Platform,
    RecordingSink, RunIo, RunState, SlnOperations, decide_outcome, should_kill, tool_command,
};

fn new_ops(config: Config, plat: Platform) -> SlnOperations<RecordingSink> {
    SlnOperations::from_env("S", BuildConfig { config, plat })
}

fn run_with(stdout_data: &[u8], stderr_data: &[u8], exit_code: i32) -> RunIo {
    RunIo {
        spawn_ok: true,
        stdout_data: stdout_data.to_vec(),
        stderr_data: stderr_data.to_vec(),
        exit_code,
        cancel_signal: None,
        alive_at_signal: true,
    }
}

#[test]
fn stdout_sinks_receive_every_line_in_order() {
    let mut ops = new_ops(Config::Release, Platform::x64);
    ops.add_stdout_sink(RecordingSink::new());
    ops.add_stdout_sink(RecordingSink::new());
    ops.add_stdout_sink(RecordingSink::new());
    let outcome = ops
        .build(Operation::Build, run_with(b"one\ntwo\nthree\n", b"", 0))
        .unwrap();
    assert!(!outcome.was_cancelled);
    let expected = vec![b"one".to_vec(), b"two".to_vec(), b"three".to_vec()];
    for sink in ops.stdout_sinks() {
        assert_eq!(sink.lines, expected);
    }
}

#[test]
fn streams_never_cross_their_sinks() {
    let mut ops = new_ops(Config::Release, Platform::x64);
    ops.add_stdout_sink(RecordingSink::new());
    ops.add_stdout_sink(RecordingSink::new());
    ops.add_stderr_sink(RecordingSink::new());
    ops.build(Operation::Build, run_with(b"", b"warning: late\n", 0))
        .unwrap();
    assert_eq!(ops.stdout_sinks()[0].lines, Vec::<Vec<u8>>::new());
    assert_eq!(ops.stdout_sinks()[1].lines, Vec::<Vec<u8>>::new());
    assert_eq!(ops.stderr_sinks()[0].lines, vec![b"warning: late".to_vec()]);
    let mut ops = new_ops(Config::Release, Platform::x64);
    ops.add_stdout_sink(RecordingSink::new());
    ops.add_stderr_sink(RecordingSink::new());
    ops.build(Operation::Build, run_with(b"out only\n", b"", 0))
        .unwrap();
    assert_eq!(ops.stdout_sinks()[0].lines, vec![b"out only".to_vec()]);
    assert_eq!(ops.stderr_sinks()[0].lines, Vec::<Vec<u8>>::new());
}

#[test]
fn msbuild_command_line_is_fixed() {
    let ops = new_ops(Config::Debug, Platform::x64);
    assert_eq!(tool_command(), "msbuild");
    let args = ops.get_args(&Operation::Build);
    assert_eq!(
        args,
        vec![
            "S".to_string(),
            "/t:restore".to_string(),
            "/p:RestorePackagesConfig=true".to_string(),
            "/t:Build".to_string(),
            "/p:Configuration=Debug".to_string(),
            "/p:Platform=x64".to_string(),
        ]
    );
}

#[test]
fn partial_final_line_is_still_delivered() {
    let mut ops = new_ops(Config::Release, Platform::x64);
    ops.add_stdout_sink(RecordingSink::new());
    let outcome = ops
        .build(Operation::Build, run_with(b"a\nb", b"", 0))
        .unwrap();
    assert_eq!(ops.stdout_sinks()[0].lines, vec![b"a".to_vec(), b"b".to_vec()]);
    assert_eq!(
        outcome,
        ExitOutcome {
            status_code: 0,
            was_cancelled: false
        }
    );
}

#[test]
fn cancel_requested_before_run_cancels_it() {
    let mut ops = new_ops(Config::Release, Platform::x64);
    ops.add_stdout_sink(RecordingSink::new());
    ops.interrupter();
    ops.request_cancel(Interrupt(true));
    let outcome = ops
        .build(Operation::Build, run_with(b"starting\n", b"", 0))
        .unwrap();
    assert!(outcome.was_cancelled);
    assert_eq!(ops.state(), RunState::Cancelled);
}

#[test]
fn cancel_after_natural_exit_is_a_no_op() {
    let mut ops = new_ops(Config::Release, Platform::x64);
    ops.interrupter();
    // the watcher wakes only after the child has already exited
    let run = RunIo {
        spawn_ok: true,
        stdout_data: Vec::new(),
        stderr_data: Vec::new(),
        exit_code: 3,
        cancel_signal: Some(Interrupt(true)),
        alive_at_signal: false,
    };
    let outcome = ops.build(Operation::Build, run).unwrap();
    assert_eq!(
        outcome,
        ExitOutcome {
            status_code: 3,
            was_cancelled: false
        }
    );
    assert_eq!(ops.state(), RunState::Completed);
}

#[test]
fn requesting_cancel_twice_equals_once() {
    let mut once = new_ops(Config::Release, Platform::x64);
    once.interrupter();
    once.request_cancel(Interrupt(true));
    let mut twice = new_ops(Config::Release, Platform::x64);
    twice.interrupter();
    twice.request_cancel(Interrupt(true));
    twice.request_cancel(Interrupt(true));
    let outcome_once = once
        .build(Operation::Build, run_with(b"", b"", 0))
        .unwrap();
    let outcome_twice = twice
        .build(Operation::Build, run_with(b"", b"", 0))
        .unwrap();
    assert_eq!(outcome_once, outcome_twice);
    assert_eq!(once.state(), twice.state());
}

#[test]
fn cancel_without_armed_token_is_ignored() {
    let mut ops = new_ops(Config::Release, Platform::x64);
    ops.request_cancel(Interrupt(true));
    let outcome = ops
        .build(Operation::Build, run_with(b"", b"", 0))
        .unwrap();
    assert!(!outcome.was_cancelled);
    assert_eq!(ops.state(), RunState::Completed);
}

#[test]
fn false_interrupt_does_not_cancel() {
    let mut ops = new_ops(Config::Release, Platform::x64);
    ops.interrupter();
    let run = RunIo {
        spawn_ok: true,
        stdout_data: Vec::new(),
        stderr_data: Vec::new(),
        exit_code: 0,
        cancel_signal: Some(Interrupt(false)),
        alive_at_signal: true,
    };
    let outcome = ops.build(Operation::Build, run).unwrap();
    assert!(!outcome.was_cancelled);
}

#[test]
fn failed_spawn_is_fatal_and_delivers_nothing() {
    let mut ops = new_ops(Config::Release, Platform::x64);
    ops.add_stdout_sink(RecordingSink::new());
    let run = RunIo {
        spawn_ok: false,
        stdout_data: b"never seen\n".to_vec(),
        stderr_data: Vec::new(),
        exit_code: 0,
        cancel_signal: None,
        alive_at_signal: true,
    };
    let err = ops.build(Operation::Build, run).unwrap_err();
    assert_eq!(err, BuildError::Spawn);
    assert_eq!(ops.state(), RunState::Failed);
    assert_eq!(ops.stdout_sinks()[0].lines, Vec::<Vec<u8>>::new());
}

#[test]
fn natural_failing_exit_is_not_cancelled() {
    let mut ops = new_ops(Config::Release, Platform::x64);
    let outcome = ops
        .build(Operation::Build, run_with(b"", b"", 1))
        .unwrap();
    assert_eq!(
        outcome,
        ExitOutcome {
            status_code: 1,
            was_cancelled: false
        }
    );
}

#[test]
fn watcher_decision_table() {
    assert!(should_kill(true, true));
    assert!(!should_kill(true, false));
    assert!(!should_kill(false, true));
    assert!(!should_kill(false, false));
}

#[test]
fn outcome_report_is_exact() {
    assert_eq!(
        decide_outcome(false, 42),
        ExitOutcome {
            status_code: 42,
            was_cancelled: false
        }
    );
    assert_eq!(
        decide_outcome(true, -9),
        ExitOutcome {
            status_code: -9,
            was_cancelled: true
        }
    );
}

#[test]
fn every_operation_config_and_platform_has_its_argument() {
    assert_eq!(Operation::Build.get_arg(), "/t:Build");
    assert_eq!(Operation::Clean.get_arg(), "/t:Clean");
    assert_eq!(Operation::Rebuild.get_arg(), "/t:Rebuild");
    assert_eq!(Config::Debug.get_arg(), "/p:Configuration=Debug");
    assert_eq!(Config::Release.get_arg(), "/p:Configuration=Release");
    assert_eq!(Platform::Any.get_arg(), "/p:Platform=Any");
    assert_eq!(Platform::Win32.get_arg(), "/p:Platform=Win32");
    assert_eq!(Platform::Win64.get_arg(), "/p:Platform=Win64");
    assert_eq!(Platform::x86.get_arg(), "/p:Platform=x86");
    assert_eq!(Platform::x64.get_arg(), "/p:Platform=x64");
}
