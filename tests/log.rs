use multinode::LogBuffer;

#[test]
fn snapshot_keeps_arrival_order() {
    let mut log = LogBuffer::new();
    log.append("L1".to_string());
    log.append("L2".to_string());
    log.append("L3".to_string());
    assert_eq!(log.snapshot(), vec!["L1", "L2", "L3"]);
    assert_eq!(log.newest_first(), vec!["L3", "L2", "L1"]);
    assert_eq!(log.len(), 3);
}

#[test]
fn new_log_is_empty() {
    let log = LogBuffer::new();
    assert_eq!(log.len(), 0);
    assert!(log.snapshot().is_empty());
    assert!(log.newest_first().is_empty());
}

#[test]
fn equal_lines_are_all_kept() {
    let mut log = LogBuffer::new();
    log.append("same".to_string());
    log.append("same".to_string());
    assert_eq!(log.snapshot(), vec!["same", "same"]);
}
