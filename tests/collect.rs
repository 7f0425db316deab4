use multinode::{
    collect_line, collect_stderr, collect_stdout, record_load_outcome, ContextSet, LogBuffer,
    Supervisor,
};

#[test]
fn stdout_and_stderr_lines_are_cleaned_and_logged() {
    let mut log = LogBuffer::new();
    let bridge = ContextSet::new();
    assert!(!collect_stdout(&mut log, &bridge, "\x1b[32mready\x1b[0m"));
    assert!(!collect_stderr(&mut log, &bridge, "\x1b[31moops\x1b[0m"));
    assert!(!collect_line(&mut log, &bridge, "raw \x1b[1m".to_string()));
    assert_eq!(log.snapshot(), vec!["ready", "Stderr: oops", "raw \x1b[1m"]);
}

#[test]
fn wired_collector_requests_repaint() {
    let mut log = LogBuffer::new();
    let mut bridge = ContextSet::new();
    bridge.wire(egui::Context::default());
    assert!(collect_stdout(&mut log, &bridge, "line"));
}

#[test]
fn plugin_load_failure_adds_one_line() {
    let mut log = LogBuffer::new();
    let bridge = ContextSet::new();
    record_load_outcome(&mut log, &bridge, "mod.wasm", Err("invalid magic number".to_string()));
    let lines = log.snapshot();
    assert_eq!(lines.len(), 1);
    assert_eq!(lines[0], "Failed to load plugin mod.wasm: invalid magic number");
    assert!(lines[0].contains("Failed"));
}

#[test]
fn plugin_load_success_adds_nothing() {
    let mut log = LogBuffer::new();
    let mut bridge = ContextSet::new();
    bridge.wire(egui::Context::default());
    assert!(record_load_outcome(&mut log, &bridge, "mod.wasm", Ok(())));
    assert_eq!(log.len(), 0);
}

#[test]
fn three_plain_lines_then_terminate() {
    let mut sup = Supervisor::from_handoff(Some(Ok(1u32))).ok().unwrap();
    let mut log = LogBuffer::new();
    let bridge = ContextSet::new();
    for raw in ["one", "two", "three"] {
        collect_stdout(&mut log, &bridge, raw);
    }
    assert_eq!(log.snapshot(), vec!["one", "two", "three"]);
    assert_eq!(sup.take_for_termination(), Some(1));
    assert_eq!(sup.take_for_termination(), None);
}
