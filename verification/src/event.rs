//! The structured crash event and its parts.
//!
//! A crash event carries a list of exception records (this pipeline produces
//! exactly one per panic unless an extractor supplies a whole event of its
//! own), a severity level, a platform tag naming the calling surface, and
//! the attachments prepared for it.

use vstd::prelude::*;

verus! {

/// Severity of an event. The crash path always reports `Fatal`.
#[derive(Clone, Copy, PartialEq, Eq, Structural, Debug)]
pub enum Level {
    /// Diagnostic detail.
    Debug,
    /// Ordinary information.
    Info,
    /// Something worth attention.
    Warning,
    /// A handled error.
    Error,
    /// An unrecoverable failure.
    Fatal,
}

/// How an exception came to be observed.
pub struct Mechanism {
    /// Tag naming the mechanism, `"panic"` on this path.
    pub ty: String,
    /// Whether the failure was handled by the application.
    pub handled: Option<bool>,
}

/// Mathematical model of a [`Mechanism`].
#[verifier::ext_equal]
pub ghost struct MechanismView {
    /// Tag naming the mechanism.
    pub ty: Seq<char>,
    /// Whether the failure was handled.
    pub handled: Option<bool>,
}

impl View for Mechanism {
    type V = MechanismView;

    open spec fn view(&self) -> MechanismView {
        MechanismView { ty: self.ty@, handled: self.handled }
    }
}

/// One exception entry of a crash event.
pub struct ExceptionRecord {
    /// Type tag of the exception, `"panic"` on this path.
    pub ty: String,
    /// Human-readable value: the panic message.
    pub value: Option<String>,
    /// How the exception was observed.
    pub mechanism: Option<Mechanism>,
    /// Stack trace of the faulting thread, where one could be captured.
    pub stacktrace: Option<sentry::protocol::Stacktrace>,
}

/// Mathematical model of an [`ExceptionRecord`].
#[verifier::ext_equal]
pub ghost struct ExceptionView {
    /// Type tag of the exception.
    pub ty: Seq<char>,
    /// Human-readable value.
    pub value: Option<Seq<char>>,
    /// How the exception was observed.
    pub mechanism: Option<MechanismView>,
    /// Stack trace, carried through unread.
    pub stacktrace: Option<sentry::protocol::Stacktrace>,
}

impl View for ExceptionRecord {
    type V = ExceptionView;

    open spec fn view(&self) -> ExceptionView {
        ExceptionView {
            ty: self.ty@,
            value: match self.value {
                Some(s) => Some(s@),
                None => None,
            },
            mechanism: match self.mechanism {
                Some(m) => Some(m@),
                None => None,
            },
            stacktrace: self.stacktrace,
        }
    }
}

/// Kind tag of an attachment. The crash path only produces minidumps.
#[derive(Clone, Copy, PartialEq, Eq, Structural, Debug)]
pub enum AttachmentKind {
    /// A binary minidump of the faulting process.
    Minidump,
}

/// A binary buffer attached to one event.
pub struct Attachment {
    /// The attached bytes.
    pub buffer: Vec<u8>,
    /// Name of the file the bytes were written to.
    pub filename: String,
    /// Kind tag of the attachment.
    pub kind: AttachmentKind,
}

/// Mathematical model of an [`Attachment`].
#[verifier::ext_equal]
pub ghost struct AttachmentView {
    /// The attached bytes.
    pub buffer: Seq<u8>,
    /// Name of the file the bytes were written to.
    pub filename: Seq<char>,
    /// Kind tag of the attachment.
    pub kind: AttachmentKind,
}

impl View for Attachment {
    type V = AttachmentView;

    open spec fn view(&self) -> AttachmentView {
        AttachmentView { buffer: self.buffer@, filename: self.filename@, kind: self.kind }
    }
}

/// A structured crash event, ready for the reporting sink.
pub struct CrashEvent {
    /// The exception entries; this pipeline produces exactly one per panic.
    pub exception: Vec<ExceptionRecord>,
    /// Severity of the event.
    pub level: Level,
    /// The calling surface the event originates from.
    pub platform: String,
    /// Attachments scoped to this one event.
    pub attachments: Vec<Attachment>,
}

/// Mathematical model of a [`CrashEvent`].
#[verifier::ext_equal]
pub ghost struct CrashEventView {
    /// The exception entries.
    pub exception: Seq<ExceptionView>,
    /// Severity of the event.
    pub level: Level,
    /// The calling surface the event originates from.
    pub platform: Seq<char>,
    /// Attachments scoped to this one event.
    pub attachments: Seq<AttachmentView>,
}

impl View for CrashEvent {
    type V = CrashEventView;

    open spec fn view(&self) -> CrashEventView {
        CrashEventView {
            exception: self.exception@.map_values(|e: ExceptionRecord| e@),
            level: self.level,
            platform: self.platform@,
            attachments: self.attachments@.map_values(|a: Attachment| a@),
        }
    }
}

/// Overwrite the platform tag of an event about to be dispatched for the
/// bridged scripting surface. The rest of the event is untouched.
pub fn mark_bridged(event: &mut CrashEvent)
    ensures
        final(event)@ == (CrashEventView { platform: "javascript"@, ..old(event)@ }),
{
    event.platform = "javascript".to_owned();
}

} // verus!
