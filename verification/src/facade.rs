//! The integration facade: the panic-handling entry point and the host's
//! shutdown flush decision.
//!
//! On a panic the host hands this module the payload and the outcome of the
//! dump capture; it gets back the one event to dispatch, with the dump
//! scoped to it as at most one attachment. A failed capture never prevents
//! the event: it only leaves it without an attachment. On the host's exit
//! event the sink is flushed with a fixed bound, so shutdown is never
//! blocked indefinitely.

use vstd::prelude::*;

use crate::builder::{chain_extract, default_built, Extractor, PanicIntegration};
use crate::event::{Attachment, AttachmentKind, AttachmentView, CrashEvent, CrashEventView};
use crate::payload::PanicPayload;

verus! {

/// Bound, in milliseconds, of the sink flush requested on the host's
/// shutdown event.
pub const SHUTDOWN_FLUSH_TIMEOUT_MS: u64 = 5000;

/// A lifecycle event of the host, as far as this integration reads it.
pub enum RunEvent {
    /// The host is about to exit.
    Exit,
    /// Any other lifecycle event.
    Other,
}

/// The attachments prepared from one dump-capture outcome: none for a
/// failed capture, exactly one minidump for a successful one, holding the
/// very bytes that were written to the named file.
pub open spec fn capture_attachments_view(capture: Option<(String, Vec<u8>)>) -> Seq<
    AttachmentView,
> {
    match capture {
        None => Seq::empty(),
        Some((filename, buffer)) => seq![
            AttachmentView { buffer: buffer@, filename: filename@, kind: AttachmentKind::Minidump },
        ],
    }
}

/// The flush the facade asks of the sink for a lifecycle event: on exit a
/// flush bounded by the fixed timeout, on any other event nothing.
pub fn on_run_event(event: &RunEvent) -> (r: Option<u64>)
    ensures
        r == (match event {
            RunEvent::Exit => Some(SHUTDOWN_FLUSH_TIMEOUT_MS),
            RunEvent::Other => None::<u64>,
        }),
{
    match event {
        RunEvent::Exit => Some(SHUTDOWN_FLUSH_TIMEOUT_MS),
        RunEvent::Other => None,
    }
}

impl<E: Extractor> PanicIntegration<E> {
    /// The panic-handling entry point: builds the one event for this panic
    /// (extractors first, the default builder otherwise) and scopes the
    /// dump, where capture succeeded, to it as its single attachment.
    ///
    /// Total for every payload and every capture outcome: a failed capture
    /// only leaves the event without attachments, it never prevents the
    /// event. The caller dispatches the result to the sink.
    pub fn handle_panic(&self, payload: &PanicPayload, capture: Option<(String, Vec<u8>)>) -> (r:
        CrashEvent)
        ensures
            r@.attachments == capture_attachments_view(capture),
            (match chain_extract(self.chain(), *payload) {
                Some(v) => r@ == (CrashEventView {
                    attachments: capture_attachments_view(capture),
                    ..v
                }),
                None => default_built(r@, *payload),
            }),
    {
        let mut event = self.event_from_panic_info(payload);
        let ghost pre = event@;
        let mut attachments: Vec<Attachment> = Vec::new();
        match capture {
            Some((filename, buffer)) => {
                attachments.push(Attachment { buffer, filename, kind: AttachmentKind::Minidump });
            },
            None => {},
        }
        event.attachments = attachments;
        proof {
            assert(event@ =~~= (CrashEventView {
                attachments: capture_attachments_view(capture),
                ..pre
            }));
        }
        event
    }
}

} // verus!
