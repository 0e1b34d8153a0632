use event_recorder::Event;
use event_recorder::CLIENT_ID_METAFILE;
use event_recorder::EVENT_BUILDER_PROJECT_CREATE;
use event_recorder::event_file_name;
use event_recorder::prepare_event_file;
use event_recorder::resolve_client_id;
use event_recorder::timestamp;
use event_recorder::timestamp_string;
use event_recorder::u64_to_dec;

#[test]
fn event_to_json() {
    let event = Event::new("foo", "bar", "baz");
    let encoded = event.to_json();
    let expected =
        r#"{"event":"foo","properties":{"clientid":"bar","timestamp":"baz"},"type":"track"}"#;
    assert!(encoded.to_string() == expected.to_string());
}

#[test]
fn serialization_is_deterministic() {
    let a = Event::new("sign-in", "0a5c0882-ade5-46cf-821d-8d3853cd0d41", "1479330000.13442404");
    let _noise = Event::new("other", "x", "y").to_json();
    let b = Event::new("sign-in", "0a5c0882-ade5-46cf-821d-8d3853cd0d41", "1479330000.13442404");
    assert_eq!(a.to_json(), b.to_json());
    assert_eq!(
        a.to_json(),
        "{\"event\":\"sign-in\",\"properties\":{\"clientid\":\"0a5c0882-ade5-46cf-821d-8d3853cd0d41\",\"timestamp\":\"1479330000.13442404\"},\"type\":\"track\"}"
    );
}

#[test]
fn well_known_names() {
    assert_eq!(EVENT_BUILDER_PROJECT_CREATE, "builder-project-create");
    assert_eq!(CLIENT_ID_METAFILE, "CLIENT_ID");
}

fn is_hyphenated_uuid(s: &str) -> bool {
    let chars: Vec<char> = s.chars().collect();
    chars.len() == 36
        && chars.iter().enumerate().all(|(i, c)| {
            if i == 8 || i == 13 || i == 18 || i == 23 {
                *c == '-'
            } else {
                c.is_ascii_hexdigit() && !c.is_ascii_uppercase()
            }
        })
}

#[test]
fn fresh_identity_has_uuid_shape() {
    let (id, wrote) = resolve_client_id(None);
    assert!(wrote);
    assert!(is_hyphenated_uuid(&id), "not a hyphenated uuid: {}", id);
}

#[test]
fn existing_identity_returned_verbatim() {
    let (id, wrote) = resolve_client_id(Some(String::from("anything at all\n")));
    assert_eq!(id, "anything at all\n");
    assert!(!wrote);
}

#[test]
fn identity_resolution_is_idempotent() {
    // First resolution against an empty directory creates a value;
    // the second sees that value stored and performs no write.
    let (first, wrote_first) = resolve_client_id(None);
    assert!(wrote_first);
    let (second, wrote_second) = resolve_client_id(Some(first.clone()));
    assert_eq!(first, second);
    assert!(!wrote_second);
}

#[test]
fn decimal_rendering() {
    assert_eq!(u64_to_dec(0), "0");
    assert_eq!(u64_to_dec(7), "7");
    assert_eq!(u64_to_dec(10), "10");
    assert_eq!(u64_to_dec(1479330000), "1479330000");
    assert_eq!(u64_to_dec(u64::MAX), "18446744073709551615");
}

#[test]
fn timestamp_from_clock_reading() {
    assert_eq!(timestamp_string(Some((1700000000, 123456789))), "1700000000.123456789");
    assert_eq!(timestamp_string(Some((1479330000, 13442404))), "1479330000.13442404");
}

#[test]
fn timestamp_clock_failure_falls_back_to_sentinel() {
    assert_eq!(timestamp_string(None), "0.0");
}

#[test]
fn timestamp_now_is_well_formed() {
    let ts = timestamp();
    let parts: Vec<&str> = ts.split('.').collect();
    assert_eq!(parts.len(), 2);
    assert!(!parts[0].is_empty() && parts[0].chars().all(|c| c.is_ascii_digit()));
    assert!(!parts[1].is_empty() && parts[1].chars().all(|c| c.is_ascii_digit()));
}

#[test]
fn event_file_named_from_timestamp() {
    assert_eq!(
        event_file_name("1700000000.123456789"),
        "event-1700000000.123456789.json"
    );
}

#[test]
fn prepared_file_has_name_and_contents() {
    let (file_name, contents) = prepare_event_file("foo", "bar", "1700000000.123456789");
    assert_eq!(file_name, "event-1700000000.123456789.json");
    assert_eq!(
        contents,
        "{\"event\":\"foo\",\"properties\":{\"clientid\":\"bar\",\"timestamp\":\"1700000000.123456789\"},\"type\":\"track\"}"
    );
}
