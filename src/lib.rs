//! Supervision core of a desktop shell that runs a local node process and
//! relays plugin modules to a plugin runtime.
//!
//! The modules hold the decisions and data of that core: cleaning captured
//! output lines, the shared log, the bridge to the UI's redraw request, the
//! ownership and shutdown of the worker process, and the bookkeeping around
//! plugin loads. Process spawning, pipes, locks and async tasks live with
//! the caller.

pub mod collect;
pub mod log;
pub mod normalize;
pub mod panel;
pub mod repaint;
pub mod supervisor;

pub use collect::{collect_line, collect_stderr, collect_stdout, record_load_outcome};
pub use log::LogBuffer;
pub use panel::{file_label, BackendPanel, DroppedFileInfo, FileDialog, State};
pub use normalize::{stderr_line, strip_ansi};
pub use repaint::ContextSet;
pub use supervisor::{
    channel_closed_line, select_worker_binary, termination_lines, SpawnError, Supervisor,
    WorkerLocation,
};
