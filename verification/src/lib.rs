//! Crash-and-panic capture core.
//!
//! Translates panic payloads into structured crash events, runs a chain of
//! user-supplied extractors that may override the default builder, models
//! the install-once handler registry, names the temporary dump file, and
//! scopes a captured dump to the one event it belongs to. The host process
//! wires these pieces to its panic hook, its signal handler and its
//! reporting sink.

pub mod builder;
pub mod config;
pub mod dump;
pub mod event;
pub mod facade;
pub mod payload;
pub mod registry;
pub mod trace;

pub use builder::{Extractor, MessageMatchExtractor, PanicIntegration};
pub use config::JavaScriptOptions;
pub use dump::dump_file_name;
pub use event::{Attachment, AttachmentKind, CrashEvent, ExceptionRecord, Level, Mechanism};
pub use facade::{on_run_event, RunEvent, SHUTDOWN_FLUSH_TIMEOUT_MS};
pub use payload::{message_from_panic_info, PanicPayload};
pub use registry::HandlerRegistry;
