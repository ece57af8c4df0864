//! The event builder and the extractor chain.
//!
//! A panic integration holds an ordered chain of extractors. Building an
//! event runs the chain in registration order; the first extractor to
//! produce an event wins and its event is returned unmodified. Where none
//! produces one, the default builder makes a single-exception fatal event
//! out of the payload's message and the current stack trace.

use vstd::prelude::*;

use crate::event::{
    CrashEvent, CrashEventView, ExceptionRecord, ExceptionView, Level, Mechanism, MechanismView,
};
use crate::payload::{message_from_panic_info, PanicPayload};
use crate::trace::capture_stacktrace;

verus! {

/// An extractor: inspects a panic payload and may produce a whole crash
/// event of its own, overriding the default builder for that panic.
pub trait Extractor: Sized {
    /// What this extractor produces for a given payload.
    spec fn spec_extract(&self, payload: PanicPayload) -> Option<CrashEventView>;

    /// Inspect a payload; produce a whole event to override the default
    /// builder, or nothing to let a later extractor or the default run.
    fn extract(&self, payload: &PanicPayload) -> (r: Option<CrashEvent>)
        ensures
            (match r {
                Some(e) => self.spec_extract(*payload) == Some(e@),
                None => self.spec_extract(*payload) is None,
            }),
    ;
}

/// The outcome of running a chain of extractors in order on one payload:
/// the event of the first extractor that produces one, if any does.
pub open spec fn chain_extract<E: Extractor>(chain: Seq<E>, payload: PanicPayload) -> Option<
    CrashEventView,
>
    decreases chain.len(),
{
    if chain.len() == 0 {
        None
    } else if chain.first().spec_extract(payload) is Some {
        chain.first().spec_extract(payload)
    } else {
        chain_extract(chain.drop_first(), payload)
    }
}

/// Law: the chain short-circuits. Where extractor `i` produces an event and
/// every earlier one produces none, the chain's outcome is exactly extractor
/// `i`'s event: no later extractor can affect it.
pub proof fn lemma_extractor_short_circuit<E: Extractor>(
    chain: Seq<E>,
    payload: PanicPayload,
    i: int,
)
    requires
        0 <= i < chain.len(),
        chain[i].spec_extract(payload) is Some,
        forall|j: int| 0 <= j < i ==> chain[j].spec_extract(payload) is None,
    ensures
        chain_extract(chain, payload) == chain[i].spec_extract(payload),
    decreases i,
{
    if i == 0 {
    } else {
        assert(chain[0].spec_extract(payload) is None);
        let rest = chain.drop_first();
        assert forall|j: int| 0 <= j < i - 1 implies rest[j].spec_extract(payload) is None by {
            assert(rest[j] == chain[j + 1]);
        }
        assert(rest[i - 1] == chain[i]);
        lemma_extractor_short_circuit(rest, payload, i - 1);
    }
}

/// Law: where no extractor in the chain produces an event, the chain
/// produces none, and the default builder runs.
pub proof fn lemma_extractor_all_none<E: Extractor>(chain: Seq<E>, payload: PanicPayload)
    requires
        forall|j: int| 0 <= j < chain.len() ==> chain[j].spec_extract(payload) is None,
    ensures
        chain_extract(chain, payload) is None,
    decreases chain.len(),
{
    if chain.len() > 0 {
        let rest = chain.drop_first();
        assert forall|j: int| 0 <= j < rest.len() implies rest[j].spec_extract(payload) is None by {
            assert(rest[j] == chain[j + 1]);
        }
        lemma_extractor_all_none(rest, payload);
    }
}

/// The event the default builder makes for a payload, given the captured
/// stack trace: one exception tagged as a panic, unhandled, carrying the
/// payload's message, at fatal severity, with no attachments yet.
pub open spec fn default_event_view(
    payload: PanicPayload,
    trace: Option<sentry::protocol::Stacktrace>,
) -> CrashEventView {
    CrashEventView {
        exception: seq![
            ExceptionView {
                ty: "panic"@,
                value: Some(payload.message_spec()),
                mechanism: Some(MechanismView { ty: "panic"@, handled: Some(false) }),
                stacktrace: trace,
            },
        ],
        level: Level::Fatal,
        platform: "native"@,
        attachments: Seq::empty(),
    }
}

/// What the default builder guarantees of its event, whatever stack trace
/// the capture returned: a single panic exception holding the payload's
/// message, unhandled, at fatal severity.
pub open spec fn default_built(v: CrashEventView, payload: PanicPayload) -> bool {
    &&& v.level == Level::Fatal
    &&& v.platform == "native"@
    &&& v.exception.len() == 1
    &&& v.exception[0].ty == "panic"@
    &&& v.exception[0].value == Some(payload.message_spec())
    &&& v.exception[0].mechanism == Some(MechanismView { ty: "panic"@, handled: Some(false) })
}

/// The default builder's event satisfies its guarantees for every payload
/// and every capture outcome.
pub proof fn lemma_default_event_view_built(
    payload: PanicPayload,
    trace: Option<sentry::protocol::Stacktrace>,
)
    ensures
        default_built(default_event_view(payload, trace), payload),
{
}

/// Build the default event for a payload out of an already captured stack
/// trace.
pub fn event_with_trace(
    payload: &PanicPayload,
    trace: Option<sentry::protocol::Stacktrace>,
) -> (r: CrashEvent)
    ensures
        r@ == default_event_view(*payload, trace),
{
    let msg = message_from_panic_info(payload);
    let mut exception: Vec<ExceptionRecord> = Vec::new();
    exception.push(
        ExceptionRecord {
            ty: "panic".to_owned(),
            value: Some(msg),
            mechanism: Some(Mechanism { ty: "panic".to_owned(), handled: Some(false) }),
            stacktrace: trace,
        },
    );
    let r = CrashEvent {
        exception,
        level: Level::Fatal,
        platform: "native".to_owned(),
        attachments: Vec::new(),
    };
    proof {
        assert(r@ =~~= default_event_view(*payload, trace));
    }
    r
}

/// The panic integration: the chain of extractors and the default builder
/// behind it.
pub struct PanicIntegration<E: Extractor> {
    extractors: Vec<E>,
}

impl<E: Extractor> PanicIntegration<E> {
    /// The extractors registered, in registration order.
    pub closed spec fn chain(&self) -> Seq<E> {
        self.extractors@
    }

    /// Creates a new panic integration with no extractors.
    pub fn new() -> (r: Self)
        ensures
            r.chain() == Seq::<E>::empty(),
    {
        PanicIntegration { extractors: Vec::new() }
    }

    /// Fixed identifier of this integration.
    pub fn name(&self) -> (r: &'static str)
        ensures
            r@ == "panic"@,
    {
        "panic"
    }

    /// Registers a new extractor, behind those already registered.
    #[must_use]
    pub fn add_extractor(self, f: E) -> (r: Self)
        ensures
            r.chain() == self.chain().push(f),
    {
        let mut extractors = self.extractors;
        extractors.push(f);
        PanicIntegration { extractors }
    }

    /// Creates an event from the given panic payload.
    ///
    /// The extractors run first, in registration order; the first to produce
    /// an event short-circuits the rest, and its event is returned
    /// unmodified. Otherwise the default builder runs: the stack trace is
    /// calculated from the current frame, and the event holds the payload's
    /// message as its single exception. An event is produced for every
    /// payload.
    pub fn event_from_panic_info(&self, payload: &PanicPayload) -> (r: CrashEvent)
        ensures
            (match chain_extract(self.chain(), *payload) {
                Some(v) => r@ == v,
                None => default_built(r@, *payload) && r@.attachments.len() == 0,
            }),
    {
        let n = self.extractors.len();
        let mut i: usize = 0;
        while i < n
            invariant
                i <= n,
                n == self.extractors@.len(),
                forall|j: int| 0 <= j < i ==> self.extractors@[j].spec_extract(*payload) is None,
            decreases n - i,
        {
            let found = self.extractors[i].extract(payload);
            match found {
                Some(event) => {
                    proof {
                        lemma_extractor_short_circuit(self.chain(), *payload, i as int);
                    }
                    return event;
                },
                None => {},
            }
            i += 1;
        }
        proof {
            lemma_extractor_all_none(self.chain(), *payload);
        }
        let trace = capture_stacktrace();
        let r = event_with_trace(payload, trace);
        proof {
            lemma_default_event_view_built(*payload, trace);
        }
        r
    }
}

impl<E: Extractor> Default for PanicIntegration<E> {
    /// A panic integration with no extractors.
    fn default() -> (r: Self)
        ensures
            r.chain() == Seq::<E>::empty(),
    {
        PanicIntegration { extractors: Vec::new() }
    }
}

/// The event a [`MessageMatchExtractor`] produces on a match: a single
/// exception holding the extractor's note, fatal, with no stack trace and
/// no attachments.
pub open spec fn note_event_view(note: Seq<char>) -> CrashEventView {
    CrashEventView {
        exception: seq![
            ExceptionView { ty: "panic"@, value: Some(note), mechanism: None, stacktrace: None },
        ],
        level: Level::Fatal,
        platform: "native"@,
        attachments: Seq::empty(),
    }
}

/// An extractor that recognizes one exact panic message and produces a
/// fixed textual event for it, overriding the default builder.
pub struct MessageMatchExtractor {
    /// The exact message this extractor recognizes.
    pub needle: String,
    /// The exception value of the event produced on a match.
    pub note: String,
}

impl MessageMatchExtractor {
    /// An extractor recognizing `needle` and answering with `note`.
    pub fn new(needle: String, note: String) -> (r: Self)
        ensures
            r.needle == needle,
            r.note == note,
    {
        MessageMatchExtractor { needle, note }
    }
}

impl Extractor for MessageMatchExtractor {
    open spec fn spec_extract(&self, payload: PanicPayload) -> Option<CrashEventView> {
        if payload.message_spec() == self.needle@ {
            Some(note_event_view(self.note@))
        } else {
            None
        }
    }

    fn extract(&self, payload: &PanicPayload) -> (r: Option<CrashEvent>) {
        let msg = message_from_panic_info(payload);
        if msg == self.needle {
            let mut exception: Vec<ExceptionRecord> = Vec::new();
            exception.push(
                ExceptionRecord {
                    ty: "panic".to_owned(),
                    value: Some(self.note.clone()),
                    mechanism: None,
                    stacktrace: None,
                },
            );
            let e = CrashEvent {
                exception,
                level: Level::Fatal,
                platform: "native".to_owned(),
                attachments: Vec::new(),
            };
            proof {
                assert(e@ =~~= note_event_view(self.note@));
            }
            Some(e)
        } else {
            None
        }
    }
}

} // verus!
