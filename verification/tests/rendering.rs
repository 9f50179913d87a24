use sentry_test_server::item::ItemKind;
use sentry_test_server::json::{
    name_of, render, to_json, to_json_pretty, write_attachment, write_element,
};
use sentry_test_server::projection::{AttachmentSerialisable, EnvelopeItemSerialisable};
use sentry_test_server::text::Layout;
use sentry_test_server::SerializeError;
use sentry_types::protocol::v7::{
    Attachment, AttachmentType, Envelope, Event, Log, SessionAggregates, SessionUpdate,
    Transaction,
};
use std::collections::BTreeMap;
use std::time::{Duration, SystemTime};

fn dated_event(message: &str) -> Event<'static> {
    Event {
        message: Some(message.to_string()),
        timestamp: SystemTime::UNIX_EPOCH + Duration::from_millis(1_595_256_674_296),
        ..Default::default()
    }
}

fn dated_transaction(name: &str) -> Transaction<'static> {
    Transaction {
        name: Some(name.to_string()),
        start_timestamp: SystemTime::UNIX_EPOCH + Duration::from_secs(1_595_256_674),
        ..Default::default()
    }
}

fn update() -> SessionUpdate<'static> {
    serde_json::from_str(
        "{\"sid\":\"00000000-0000-0000-0000-000000000000\",\"did\":\"foo\",\"started\":\"2020-02-07T14:16:00Z\",\"init\":true,\"duration\":1.234,\"status\":\"ok\",\"errors\":123,\"attrs\":{\"release\":\"foo-bar@1.2.3\",\"environment\":\"production\"}}",
    )
    .unwrap()
}

fn aggregates() -> SessionAggregates<'static> {
    serde_json::from_str(
        "{\"aggregates\":[{\"started\":\"2020-02-07T14:16:00Z\",\"exited\":2,\"errored\":1}],\"attrs\":{\"release\":\"foo-bar@1.2.3\"}}",
    )
    .unwrap()
}

fn dump() -> AttachmentSerialisable {
    AttachmentSerialisable {
        length: 42,
        filename: "dump.bin".to_string(),
        content_type: Some("application/octet-stream".to_string()),
        ty: None,
    }
}

#[test]
fn attachment_summary_in_compact_form() {
    assert_eq!(
        write_attachment(Layout::Compact, &dump()),
        "{\"length\":42,\"filename\":\"dump.bin\",\"content_type\":\"application/octet-stream\",\"ty\":null}"
    );
}

#[test]
fn attachment_summary_in_pretty_form() {
    assert_eq!(
        write_attachment(Layout::Pretty, &dump()),
        "{\n  \"length\": 42,\n  \"filename\": \"dump.bin\",\n  \"content_type\": \"application/octet-stream\",\n  \"ty\": null\n}"
    );
}

#[test]
fn attachment_summary_with_nothing_declared() {
    let bare = AttachmentSerialisable::default();
    assert_eq!(
        write_attachment(Layout::Compact, &bare),
        "{\"length\":0,\"filename\":\"\",\"content_type\":null,\"ty\":null}"
    );
}

#[test]
fn attachment_summary_with_everything_declared() {
    let full = AttachmentSerialisable {
        length: u64::MAX,
        filename: "a.dmp".to_string(),
        content_type: Some("text/plain".to_string()),
        ty: Some("event.minidump".to_string()),
    };
    assert_eq!(
        write_attachment(Layout::Compact, &full),
        "{\"length\":18446744073709551615,\"filename\":\"a.dmp\",\"content_type\":\"text/plain\",\"ty\":\"event.minidump\"}"
    );
}

#[test]
fn strings_are_written_as_json_literals() {
    let odd = AttachmentSerialisable {
        length: 1,
        filename: "file \"name\"\npart\\.txt".to_string(),
        content_type: Some("tab\there".to_string()),
        ty: Some("\u{1}é".to_string()),
    };
    let compact = write_attachment(Layout::Compact, &odd);
    assert_eq!(
        compact,
        "{\"length\":1,\"filename\":\"file \\\"name\\\"\\npart\\\\.txt\",\"content_type\":\"tab\\there\",\"ty\":\"\\u0001é\"}"
    );
    let parsed: serde_json::Value = serde_json::from_str(&compact).unwrap();
    assert_eq!(parsed["filename"].as_str(), Some("file \"name\"\npart\\.txt"));
    assert_eq!(parsed["content_type"].as_str(), Some("tab\there"));
    assert_eq!(parsed["ty"].as_str(), Some("\u{1}é"));
    let pretty = write_attachment(Layout::Pretty, &odd);
    assert_eq!(pretty.lines().count(), 6);
}

#[test]
fn element_is_an_object_with_one_member() {
    assert_eq!(write_element(Layout::Compact, "Event", "{}"), "{\"Event\":{}}");
    assert_eq!(write_element(Layout::Pretty, "Event", "{}"), "{\n  \"Event\": {}\n}");
    assert_eq!(
        write_element(Layout::Pretty, "Event", "{\n  \"a\": 1\n}"),
        "{\n  \"Event\": {\n    \"a\": 1\n  }\n}"
    );
}

#[test]
fn nothing_renders_as_an_empty_array() {
    assert_eq!(render(Layout::Compact, &Vec::new()).unwrap(), "[]");
    assert_eq!(render(Layout::Pretty, &Vec::new()).unwrap(), "[]");
    assert_eq!(to_json(&Envelope::new()).unwrap(), "[]");
    assert_eq!(to_json_pretty(&Envelope::new()).unwrap(), "[]");
}

#[test]
fn attachments_render_exactly() {
    let items = vec![
        EnvelopeItemSerialisable::Attachment(dump()),
        EnvelopeItemSerialisable::Attachment(AttachmentSerialisable::default()),
    ];
    assert_eq!(
        render(Layout::Compact, &items).unwrap(),
        "[{\"Attachment\":{\"length\":42,\"filename\":\"dump.bin\",\"content_type\":\"application/octet-stream\",\"ty\":null}},{\"Attachment\":{\"length\":0,\"filename\":\"\",\"content_type\":null,\"ty\":null}}]"
    );
    assert_eq!(
        render(Layout::Pretty, &items).unwrap(),
        "[\n  {\n    \"Attachment\": {\n      \"length\": 42,\n      \"filename\": \"dump.bin\",\n      \"content_type\": \"application/octet-stream\",\n      \"ty\": null\n    }\n  },\n  {\n    \"Attachment\": {\n      \"length\": 0,\n      \"filename\": \"\",\n      \"content_type\": null,\n      \"ty\": null\n    }\n  }\n]"
    );
}

#[test]
fn events_render_as_the_json_printer_writes_them() {
    let first = dated_event("first");
    let second = dated_event("second\nline");
    let mut envelope = Envelope::new();
    envelope.add_item(first.clone());
    envelope.add_item(second.clone());
    let tagged: Vec<BTreeMap<&str, &Event<'static>>> =
        vec![BTreeMap::from([("Event", &first)]), BTreeMap::from([("Event", &second)])];
    assert_eq!(to_json(&envelope).unwrap(), serde_json::to_string(&tagged).unwrap());
    assert_eq!(to_json_pretty(&envelope).unwrap(), serde_json::to_string_pretty(&tagged).unwrap());
}

#[test]
fn transactions_render_as_the_json_printer_writes_them() {
    let first = dated_transaction("checkout");
    let mut envelope = Envelope::new();
    envelope.add_item(first.clone());
    let tagged: Vec<BTreeMap<&str, &Transaction<'static>>> =
        vec![BTreeMap::from([("Transaction", &first)])];
    assert_eq!(to_json(&envelope).unwrap(), serde_json::to_string(&tagged).unwrap());
    assert_eq!(to_json_pretty(&envelope).unwrap(), serde_json::to_string_pretty(&tagged).unwrap());
}

#[test]
fn session_updates_render_as_the_json_printer_writes_them() {
    let first = update();
    let mut envelope = Envelope::new();
    envelope.add_item(first.clone());
    envelope.add_item(first.clone());
    envelope.add_item(first.clone());
    let tagged: Vec<BTreeMap<&str, &SessionUpdate<'static>>> = vec![
        BTreeMap::from([("SessionUpdate", &first)]),
        BTreeMap::from([("SessionUpdate", &first)]),
        BTreeMap::from([("SessionUpdate", &first)]),
    ];
    assert_eq!(to_json(&envelope).unwrap(), serde_json::to_string(&tagged).unwrap());
    assert_eq!(to_json_pretty(&envelope).unwrap(), serde_json::to_string_pretty(&tagged).unwrap());
}

#[test]
fn session_aggregates_render_as_the_json_printer_writes_them() {
    let first = aggregates();
    let mut envelope = Envelope::new();
    envelope.add_item(first.clone());
    let tagged: Vec<BTreeMap<&str, &SessionAggregates<'static>>> =
        vec![BTreeMap::from([("SessionAggregates", &first)])];
    assert_eq!(to_json(&envelope).unwrap(), serde_json::to_string(&tagged).unwrap());
    assert_eq!(to_json_pretty(&envelope).unwrap(), serde_json::to_string_pretty(&tagged).unwrap());
}

#[test]
fn rendering_keeps_count_tags_and_order() {
    let mut envelope = Envelope::new();
    envelope.add_item(dated_transaction("t"));
    envelope.add_item(Attachment {
        buffer: vec![0; 3],
        filename: "a".to_string(),
        content_type: None,
        ty: Some(AttachmentType::Minidump),
    });
    envelope.add_item(dated_event("e"));
    envelope.add_item(update());
    envelope.add_item(aggregates());
    envelope.add_item(dated_event("again"));
    let expected = ["Transaction", "Attachment", "Event", "SessionUpdate", "SessionAggregates", "Event"];
    for json in [to_json(&envelope).unwrap(), to_json_pretty(&envelope).unwrap()] {
        let parsed: serde_json::Value = serde_json::from_str(&json).unwrap();
        let elements = parsed.as_array().unwrap();
        assert_eq!(elements.len(), expected.len());
        for (element, name) in elements.iter().zip(expected.iter()) {
            let object = element.as_object().unwrap();
            assert_eq!(object.len(), 1);
            assert!(object.contains_key(*name));
        }
        assert_eq!(parsed[2]["Event"]["message"].as_str(), Some("e"));
        assert_eq!(parsed[5]["Event"]["message"].as_str(), Some("again"));
        assert_eq!(parsed[1]["Attachment"]["length"].as_u64(), Some(3));
        assert_eq!(parsed[1]["Attachment"]["ty"].as_str(), Some("event.minidump"));
    }
}

#[test]
fn compact_and_pretty_forms_hold_the_same_value() {
    let mut envelope = Envelope::new();
    envelope.add_item(dated_event("e"));
    envelope.add_item(Attachment {
        buffer: vec![0; 9],
        filename: "line\nbreak".to_string(),
        content_type: None,
        ty: None,
    });
    let compact: serde_json::Value = serde_json::from_str(&to_json(&envelope).unwrap()).unwrap();
    let pretty: serde_json::Value =
        serde_json::from_str(&to_json_pretty(&envelope).unwrap()).unwrap();
    assert_eq!(compact, pretty);
    assert_eq!(compact[1]["Attachment"]["filename"].as_str(), Some("line\nbreak"));
}

#[test]
fn unsupported_kind_fails_the_rendering() {
    let mut envelope = Envelope::new();
    envelope.add_item(dated_event("e"));
    envelope.add_item(dated_event("f"));
    envelope.add_item(Vec::<Log>::new());
    assert!(matches!(to_json(&envelope), Err(SerializeError::UnsupportedItemKind(2))));
    assert!(matches!(to_json_pretty(&envelope), Err(SerializeError::UnsupportedItemKind(2))));
}

#[test]
fn record_without_a_json_text_fails_the_rendering() {
    let early = Event {
        timestamp: SystemTime::UNIX_EPOCH - Duration::from_secs(1),
        ..Default::default()
    };
    assert!(serde_json::to_string(&early).is_err());
    let mut envelope = Envelope::new();
    envelope.add_item(dated_event("fine"));
    envelope.add_item(early.clone());
    assert!(matches!(to_json(&envelope), Err(SerializeError::Json(_))));
    assert!(matches!(to_json_pretty(&envelope), Err(SerializeError::Json(_))));
    let items = vec![EnvelopeItemSerialisable::Event(early)];
    assert!(matches!(render(Layout::Compact, &items), Err(SerializeError::Json(_))));
}

#[test]
fn unsupported_kind_is_reported_before_a_record_without_text() {
    let early = Event {
        timestamp: SystemTime::UNIX_EPOCH - Duration::from_secs(1),
        ..Default::default()
    };
    let mut envelope = Envelope::new();
    envelope.add_item(early);
    envelope.add_item(Vec::<Log>::new());
    assert!(matches!(to_json(&envelope), Err(SerializeError::UnsupportedItemKind(1))));
}

#[test]
fn each_kind_has_its_name() {
    assert_eq!(name_of(ItemKind::Event), "Event");
    assert_eq!(name_of(ItemKind::SessionUpdate), "SessionUpdate");
    assert_eq!(name_of(ItemKind::SessionAggregates), "SessionAggregates");
    assert_eq!(name_of(ItemKind::Transaction), "Transaction");
    assert_eq!(name_of(ItemKind::Attachment), "Attachment");
}

#[test]
fn mixed_items_render_exactly() {
    let first = dated_event("first");
    let items = vec![
        EnvelopeItemSerialisable::Event(first.clone()),
        EnvelopeItemSerialisable::Attachment(dump()),
        EnvelopeItemSerialisable::SessionUpdate(update()),
    ];
    let expected = format!(
        "[{{\"Event\":{}}},{{\"Attachment\":{{\"length\":42,\"filename\":\"dump.bin\",\"content_type\":\"application/octet-stream\",\"ty\":null}}}},{{\"SessionUpdate\":{}}}]",
        serde_json::to_string(&first).unwrap(),
        serde_json::to_string(&update()).unwrap()
    );
    assert_eq!(render(Layout::Compact, &items).unwrap(), expected);
}

fn literal_of(text: &str) -> String {
    let named = AttachmentSerialisable {
        length: 0,
        filename: text.to_string(),
        content_type: None,
        ty: None,
    };
    let json = write_attachment(Layout::Compact, &named);
    let head = "{\"length\":0,\"filename\":";
    let tail = ",\"content_type\":null,\"ty\":null}";
    assert!(json.starts_with(head));
    assert!(json.ends_with(tail));
    json[head.len()..json.len() - tail.len()].to_string()
}

#[test]
fn plain_characters_stand_as_they_are() {
    assert_eq!(literal_of(""), "\"\"");
    assert_eq!(literal_of("dump.bin"), "\"dump.bin\"");
    assert_eq!(literal_of("a/b c"), "\"a/b c\"");
    assert_eq!(literal_of("\u{7f}"), "\"\u{7f}\"");
    assert_eq!(literal_of("é\u{2028}\u{1f600}"), "\"é\u{2028}\u{1f600}\"");
}

#[test]
fn quote_and_backslash_follow_a_backslash() {
    assert_eq!(literal_of("\""), "\"\\\"\"");
    assert_eq!(literal_of("\\"), "\"\\\\\"");
    assert_eq!(literal_of("a\"b\\c"), "\"a\\\"b\\\\c\"");
}

#[test]
fn five_control_characters_have_a_letter() {
    assert_eq!(literal_of("\u{8}"), "\"\\b\"");
    assert_eq!(literal_of("\t"), "\"\\t\"");
    assert_eq!(literal_of("\n"), "\"\\n\"");
    assert_eq!(literal_of("\u{c}"), "\"\\f\"");
    assert_eq!(literal_of("\r"), "\"\\r\"");
}

#[test]
fn other_control_characters_are_written_in_base_sixteen() {
    assert_eq!(literal_of("\u{0}"), "\"\\u0000\"");
    assert_eq!(literal_of("\u{1}"), "\"\\u0001\"");
    assert_eq!(literal_of("\u{7}"), "\"\\u0007\"");
    assert_eq!(literal_of("\u{b}"), "\"\\u000b\"");
    assert_eq!(literal_of("\u{e}"), "\"\\u000e\"");
    assert_eq!(literal_of("\u{f}"), "\"\\u000f\"");
    assert_eq!(literal_of("\u{10}"), "\"\\u0010\"");
    assert_eq!(literal_of("\u{1a}"), "\"\\u001a\"");
    assert_eq!(literal_of("\u{1f}"), "\"\\u001f\"");
    assert_eq!(literal_of(" "), "\" \"");
}

#[test]
fn every_low_character_is_written_as_the_json_printer_writes_it() {
    for code in 0u32..0x100 {
        let text = char::from_u32(code).unwrap().to_string();
        assert_eq!(literal_of(&text), serde_json::to_string(&text).unwrap());
        let parsed: String = serde_json::from_str(&literal_of(&text)).unwrap();
        assert_eq!(parsed, text);
    }
}

#[test]
fn both_layouts_fail_on_the_same_items() {
    let early = Event {
        timestamp: SystemTime::UNIX_EPOCH - Duration::from_secs(1),
        ..Default::default()
    };
    let fine = vec![EnvelopeItemSerialisable::Event(dated_event("fine"))];
    let broken = vec![
        EnvelopeItemSerialisable::Event(dated_event("fine")),
        EnvelopeItemSerialisable::Event(early),
    ];
    assert!(render(Layout::Compact, &fine).is_ok());
    assert!(render(Layout::Pretty, &fine).is_ok());
    assert!(matches!(render(Layout::Compact, &broken), Err(SerializeError::Json(_))));
    assert!(matches!(render(Layout::Pretty, &broken), Err(SerializeError::Json(_))));
}
