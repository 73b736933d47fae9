use sln_operations::{BuildAdapter, BuildError, ErrorUiAdapter, RecordingSink, RunIo, RunState};

fn run_with(stdout_data: &[u8], exit_code: i32, spawn_ok: bool) -> RunIo {
    RunIo {
        spawn_ok,
        stdout_data: stdout_data.to_vec(),
        stderr_data: Vec::new(),
        exit_code,
        cancel_signal: None,
        alive_at_signal: true,
    }
}

#[test]
fn adapter_registers_its_sink_and_builds() {
    let mut adapter = BuildAdapter::new("demo.sln", RecordingSink::new());
    adapter.build(run_with(b"line one\nline two\n", 0, true)).unwrap();
    assert_eq!(adapter.ops().state(), RunState::Completed);
    assert_eq!(
        adapter.ops().stdout_sinks()[0].lines,
        vec![b"line one".to_vec(), b"line two".to_vec()]
    );
}

#[test]
fn second_build_is_refused_without_a_sink() {
    let mut adapter = BuildAdapter::new("demo.sln", RecordingSink::new());
    adapter.build(run_with(b"", 0, true)).unwrap();
    let err = adapter.build(run_with(b"", 0, true)).unwrap_err();
    match err {
        ErrorUiAdapter::Other(m) => assert_eq!(m, "log sink is not set."),
        ErrorUiAdapter::Io(_) => panic!("expected the adapter's own error"),
    }
}

#[test]
fn adapter_passes_spawn_errors_through() {
    let mut adapter = BuildAdapter::new("demo.sln", RecordingSink::new());
    let err = adapter.build(run_with(b"", 0, false)).unwrap_err();
    match err {
        ErrorUiAdapter::Io(e) => assert_eq!(e, BuildError::Spawn),
        ErrorUiAdapter::Other(_) => panic!("expected the supervisor's error"),
    }
    assert_eq!(adapter.ops().state(), RunState::Failed);
}
