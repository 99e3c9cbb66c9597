//! Verified core of a small desktop front end for the CFR Java decompiler.
//!
//! The library holds the decisions that the front end makes: which state the
//! decompilation run is in, what the console shows, which buttons are active,
//! which command starts the decompiler, and what each message of the
//! background worker does to the state. The window, the file dialogs, the
//! subprocess and the threads live in the application around it.

pub mod app;
pub mod console;
pub mod message;
pub mod palette;
pub mod status;
pub mod text;
pub mod worker;

pub use message::DecompileMessage;
pub use status::{DecompileStatus, StatusPill, StatusTone};
pub use text::{has_prefix, is_blank, is_white_space, join_text};
pub use worker::{DecompileCommand, WorkerEvent, WorkerPhase, worker_step, decompiler_command, jar_needs_write, stdout_message, stderr_message, spawn_failed_message, exit_message, wait_failed_message};
pub use console::{LineKind, classify_line};
pub use app::{ConsoleRow, DecompilerApp, DecompileButton, PathLabel};
pub use palette::{Rgb, status_tone_color, line_kind_color, path_label_color, button_highlight_color};
