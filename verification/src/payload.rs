//! The shape of a panic payload, and the message read out of it.
//!
//! A panic carries an arbitrary payload. The handler recognizes the two
//! textual shapes (a static string and an owned string) and uses their text
//! verbatim; every other shape is reported with a fixed placeholder, so that
//! an event is produced for every payload.

use vstd::prelude::*;

verus! {

/// What the crash handler reads out of a panic's payload: the text of the
/// two recognized string shapes, or nothing for any other shape.
pub enum PanicPayload {
    /// The payload was a static string slice.
    StaticText(String),
    /// The payload was an owned string.
    OwnedText(String),
    /// The payload had any other, unrecognized shape.
    Unknown,
}

impl PanicPayload {
    /// The message the handler reports for this payload: the text verbatim
    /// for the recognized shapes, the fixed placeholder otherwise.
    pub open spec fn message_spec(&self) -> Seq<char> {
        match self {
            PanicPayload::StaticText(s) => s@,
            PanicPayload::OwnedText(s) => s@,
            PanicPayload::Unknown => "Box<Any>"@,
        }
    }
}

/// Extract the message of a panic: the payload's text where it has one of
/// the recognized string shapes, the fixed placeholder otherwise. Never
/// fails, whatever the payload.
pub fn message_from_panic_info(info: &PanicPayload) -> (r: String)
    ensures
        r@ == info.message_spec(),
{
    match info {
        PanicPayload::StaticText(s) => s.clone(),
        PanicPayload::OwnedText(s) => s.clone(),
        PanicPayload::Unknown => "Box<Any>".to_owned(),
    }
}

} // verus!
