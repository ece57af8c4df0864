//! Capture of the current stack trace, delegated to the external
//! stack-walking utility.

use vstd::prelude::*;

verus! {

#[verifier::external_type_specification]
#[verifier::external_body]
/// The external stack trace record that an event carries through unread.
pub struct ExStacktrace(sentry::protocol::Stacktrace);

/// Relies on sentry_backtrace::current_stacktrace: walks the stack of the
/// calling thread and returns its frames, or nothing where no frame could be
/// resolved. The outcome depends on the execution context the call is made
/// from, so nothing is promised of it.
#[verifier::external_body]
pub(crate) fn capture_stacktrace() -> Option<sentry::protocol::Stacktrace> {
    sentry_backtrace::current_stacktrace()
}

} // verus!
