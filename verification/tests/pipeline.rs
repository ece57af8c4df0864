use sentry_tauri::builder::event_with_trace;
use sentry_tauri::dump::u32_decimal;
use sentry_tauri::event::mark_bridged;
use sentry_tauri::{
    dump_file_name, message_from_panic_info, on_run_event, AttachmentKind, Extractor,
    HandlerRegistry, JavaScriptOptions, Level, MessageMatchExtractor, PanicIntegration,
    PanicPayload, RunEvent, SHUTDOWN_FLUSH_TIMEOUT_MS,
};

fn no_extractors() -> PanicIntegration<MessageMatchExtractor> {
    PanicIntegration::new()
}

#[test]
fn static_text_payload_verbatim() {
    let integration = no_extractors();
    let payload = PanicPayload::StaticText("boom".to_string());
    let event = integration.event_from_panic_info(&payload);
    assert_eq!(event.exception.len(), 1);
    assert_eq!(event.exception[0].ty, "panic".to_string());
    assert_eq!(event.exception[0].value, Some("boom".to_string()));
    let mechanism = event.exception[0].mechanism.as_ref().unwrap();
    assert_eq!(mechanism.ty, "panic".to_string());
    assert_eq!(mechanism.handled, Some(false));
    assert!(event.level == Level::Fatal);
    assert_eq!(event.attachments.len(), 0);
}

#[test]
fn owned_text_payload_verbatim() {
    let integration = no_extractors();
    let payload = PanicPayload::OwnedText("out of cheese".to_string());
    let event = integration.event_from_panic_info(&payload);
    assert_eq!(event.exception.len(), 1);
    assert_eq!(event.exception[0].value, Some("out of cheese".to_string()));
    assert!(event.level == Level::Fatal);
}

#[test]
fn unknown_payload_placeholder() {
    let integration = no_extractors();
    let payload = PanicPayload::Unknown;
    let event = integration.event_from_panic_info(&payload);
    assert_eq!(event.exception.len(), 1);
    assert_eq!(event.exception[0].value, Some("Box<Any>".to_string()));
    assert!(event.level == Level::Fatal);
}

#[test]
fn message_of_each_shape() {
    assert_eq!(
        message_from_panic_info(&PanicPayload::StaticText("a".to_string())),
        "a".to_string()
    );
    assert_eq!(
        message_from_panic_info(&PanicPayload::OwnedText("b".to_string())),
        "b".to_string()
    );
    assert_eq!(
        message_from_panic_info(&PanicPayload::Unknown),
        "Box<Any>".to_string()
    );
}

#[test]
fn extractor_overrides_default() {
    let integration = no_extractors()
        .add_extractor(MessageMatchExtractor::new("boom".to_string(), "custom".to_string()));
    let event = integration.event_from_panic_info(&PanicPayload::StaticText("boom".to_string()));
    assert_eq!(event.exception[0].value, Some("custom".to_string()));
    assert!(event.exception[0].mechanism.is_none());
    assert!(event.exception[0].stacktrace.is_none());
}

#[test]
fn first_matching_extractor_wins() {
    let integration = no_extractors()
        .add_extractor(MessageMatchExtractor::new("boom".to_string(), "first".to_string()))
        .add_extractor(MessageMatchExtractor::new("boom".to_string(), "second".to_string()));
    let event = integration.event_from_panic_info(&PanicPayload::StaticText("boom".to_string()));
    assert_eq!(event.exception[0].value, Some("first".to_string()));
}

#[test]
fn later_extractor_runs_when_earlier_declines() {
    let integration = no_extractors()
        .add_extractor(MessageMatchExtractor::new("quiet".to_string(), "first".to_string()))
        .add_extractor(MessageMatchExtractor::new("boom".to_string(), "second".to_string()));
    let event = integration.event_from_panic_info(&PanicPayload::StaticText("boom".to_string()));
    assert_eq!(event.exception[0].value, Some("second".to_string()));
}

#[test]
fn no_match_falls_back_to_default() {
    let integration = no_extractors()
        .add_extractor(MessageMatchExtractor::new("quiet".to_string(), "first".to_string()));
    let event = integration.event_from_panic_info(&PanicPayload::StaticText("boom".to_string()));
    assert_eq!(event.exception[0].value, Some("boom".to_string()));
    let mechanism = event.exception[0].mechanism.as_ref().unwrap();
    assert_eq!(mechanism.handled, Some(false));
}

#[test]
fn extract_matches_exactly() {
    let extractor = MessageMatchExtractor::new("boom".to_string(), "note".to_string());
    assert!(extractor
        .extract(&PanicPayload::StaticText("boom".to_string()))
        .is_some());
    assert!(extractor
        .extract(&PanicPayload::StaticText("booms".to_string()))
        .is_none());
    assert!(extractor.extract(&PanicPayload::Unknown).is_none());
}

#[test]
fn install_performed_exactly_once() {
    let mut registry = HandlerRegistry::new();
    let results = vec![registry.install(), registry.install(), registry.install()];
    assert_eq!(results, vec![true, false, false]);
    let performed = results.iter().filter(|r| **r).count();
    assert_eq!(performed, 1);
}

#[test]
fn capture_failure_still_builds_event() {
    let integration = no_extractors();
    let payload = PanicPayload::StaticText("boom".to_string());
    let event = integration.handle_panic(&payload, None);
    assert_eq!(event.attachments.len(), 0);
    assert_eq!(event.exception[0].value, Some("boom".to_string()));
    assert!(event.level == Level::Fatal);
}

#[test]
fn capture_success_single_attachment() {
    let integration = no_extractors();
    let payload = PanicPayload::StaticText("boom".to_string());
    let bytes = vec![77u8, 68, 77, 80, 0, 1, 2, 3];
    let event = integration.handle_panic(
        &payload,
        Some(("dump_42.mdmp".to_string(), bytes.clone())),
    );
    assert_eq!(event.attachments.len(), 1);
    assert_eq!(event.attachments[0].buffer, bytes);
    assert_eq!(event.attachments[0].filename, "dump_42.mdmp".to_string());
    assert!(event.attachments[0].kind == AttachmentKind::Minidump);
    assert_eq!(event.exception[0].value, Some("boom".to_string()));
}

#[test]
fn attachment_scoped_to_extractor_event_too() {
    let integration = no_extractors()
        .add_extractor(MessageMatchExtractor::new("boom".to_string(), "custom".to_string()));
    let payload = PanicPayload::StaticText("boom".to_string());
    let event = integration.handle_panic(&payload, Some(("f".to_string(), vec![9u8])));
    assert_eq!(event.exception[0].value, Some("custom".to_string()));
    assert_eq!(event.attachments.len(), 1);
    assert_eq!(event.attachments[0].buffer, vec![9u8]);
}

#[test]
fn dump_file_name_format() {
    assert_eq!(dump_file_name(1234), "dump_1234.mdmp".to_string());
    assert_eq!(dump_file_name(0), "dump_0.mdmp".to_string());
    assert_eq!(dump_file_name(u32::MAX), "dump_4294967295.mdmp".to_string());
}

#[test]
fn decimal_rendering() {
    assert_eq!(u32_decimal(0), "0".to_string());
    assert_eq!(u32_decimal(7), "7".to_string());
    assert_eq!(u32_decimal(10), "10".to_string());
    assert_eq!(u32_decimal(907), "907".to_string());
    assert_eq!(u32_decimal(100000), "100000".to_string());
}

#[test]
fn integration_name_is_fixed() {
    assert_eq!(no_extractors().name(), "panic");
}

#[test]
fn default_javascript_options() {
    let options = JavaScriptOptions::default();
    assert!(options.inject);
    assert!(!options.debug);
}

#[test]
fn exit_event_asks_for_bounded_flush() {
    assert_eq!(on_run_event(&RunEvent::Exit), Some(SHUTDOWN_FLUSH_TIMEOUT_MS));
    assert_eq!(on_run_event(&RunEvent::Exit), Some(5000));
    assert_eq!(on_run_event(&RunEvent::Other), None);
}

#[test]
fn bridged_event_platform_overwritten() {
    let mut event = event_with_trace(&PanicPayload::StaticText("boom".to_string()), None);
    assert_eq!(event.platform, "native".to_string());
    mark_bridged(&mut event);
    assert_eq!(event.platform, "javascript".to_string());
    assert_eq!(event.exception[0].value, Some("boom".to_string()));
}
