use multinode::{file_label, BackendPanel, DroppedFileInfo, FileDialog, State};

fn info(path: Option<&str>, name: &str, mime: &str, byte_len: Option<usize>) -> DroppedFileInfo {
    DroppedFileInfo {
        path: path.map(|p| p.to_string()),
        name: name.to_string(),
        mime: mime.to_string(),
        byte_len,
    }
}

#[test]
fn label_prefers_path_then_name_then_placeholder() {
    assert_eq!(file_label(&info(Some("/tmp/a.wasm"), "a", "", None)), "/tmp/a.wasm");
    assert_eq!(file_label(&info(None, "a.wasm", "", None)), "a.wasm");
    assert_eq!(file_label(&info(None, "", "", None)), "???");
}

#[test]
fn label_lists_type_and_size() {
    assert_eq!(
        file_label(&info(None, "a.wasm", "application/wasm", Some(1234))),
        "a.wasm (type: application/wasm, 1234 bytes)"
    );
    assert_eq!(file_label(&info(None, "a.wasm", "application/wasm", None)), "a.wasm (type: application/wasm)");
    assert_eq!(file_label(&info(None, "a.wasm", "", Some(0))), "a.wasm (0 bytes)");
}

#[test]
fn pick_records_the_file() {
    let mut dialog = FileDialog::new();
    let name = dialog.record_pick("plugin".to_string());
    assert_eq!(name, "plugin");
    assert_eq!(dialog.picked_path, Some("plugin".to_string()));
    assert_eq!(dialog.labels(), vec!["plugin"]);
}

#[test]
fn empty_drop_keeps_the_list() {
    let mut dialog = FileDialog::new();
    dialog.record_pick("plugin".to_string());
    dialog.collect_dropped(Vec::new());
    assert_eq!(dialog.labels(), vec!["plugin"]);
    dialog.collect_dropped(vec![info(None, "x.wasm", "", Some(5)), info(None, "", "", None)]);
    assert_eq!(dialog.labels(), vec!["x.wasm (5 bytes)", "???"]);
    assert_eq!(dialog.picked_path, Some("plugin".to_string()));
}

#[test]
fn default_state_has_a_closed_panel() {
    let state = State::default();
    assert!(!state.backend_panel.open);
    assert_eq!(state.backend_panel.password, "default password");
    assert!(state.backend_panel.file_dialog.dropped_files.is_empty());
    let panel = BackendPanel::default();
    assert!(panel.file_dialog.picked_path.is_none());
}
