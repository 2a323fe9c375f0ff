use opencode_auth::doc::AuthDoc;
use opencode_auth::store::{
    read_auth, remove_provider_auth, remove_then_read, write_auth, write_then_read, write_twice,
    DiskState,
};

fn disk_with(content: &str) -> DiskState {
    DiskState { auth_file: Some(String::from(content)), backup_file: None }
}

fn empty_disk() -> DiskState {
    DiskState { auth_file: None, backup_file: None }
}

fn doc_from(content: &str) -> AuthDoc {
    read_auth(&disk_with(content)).unwrap()
}

fn pretty(text: &str) -> String {
    let v: serde_json::Value = serde_json::from_str(text).unwrap();
    serde_json::to_string_pretty(&v).unwrap()
}

#[test]
fn read_missing_file_returns_empty_object() {
    let doc = read_auth(&empty_disk()).unwrap();
    assert!(doc.is_object());
    assert_eq!(doc.entry_count(), 0);
}

#[test]
fn read_empty_file_returns_empty_object() {
    let doc = doc_from("");
    assert!(doc.is_object());
    assert_eq!(doc.entry_count(), 0);
}

#[test]
fn read_whitespace_only_returns_empty_object() {
    let doc = doc_from("  \t\r\n  ");
    assert!(doc.is_object());
    assert_eq!(doc.entry_count(), 0);
}

#[test]
fn read_unicode_whitespace_returns_empty_object() {
    let doc = doc_from("\u{00A0}\u{2003}\u{3000}");
    assert!(doc.is_object());
    assert_eq!(doc.entry_count(), 0);
}

#[test]
fn read_trims_unicode_whitespace_around_json() {
    let doc = doc_from("\u{00A0}\u{000C}{\"a\": 1}\u{2028} \n");
    assert!(doc.is_object());
    assert_eq!(doc.entry_count(), 1);
    assert!(doc.has_provider("a"));
}

#[test]
fn validate_provider_id_rejects_only_empty() {
    assert!(matches!(
        opencode_auth::store::validate_provider_id(""),
        Err(e) if e.is_validation_error()
    ));
    assert!(opencode_auth::store::validate_provider_id("x").is_ok());
}

#[test]
fn zero_width_space_is_not_whitespace() {
    let r = read_auth(&disk_with("\u{200B}"));
    assert!(matches!(r, Err(e) if e.is_parse_error()));
}

#[test]
fn read_invalid_json_is_parse_error() {
    let r = read_auth(&disk_with("{ not json"));
    assert!(matches!(r, Err(e) if e.is_parse_error()));
}

#[test]
fn read_non_object_json_passes_through() {
    let doc = doc_from("[1, 2, 3]");
    assert!(!doc.is_object());
    assert_eq!(doc.entry_count(), 0);
    assert!(!doc.has_provider("x"));
}

#[test]
fn read_parses_providers() {
    let doc = doc_from("{\"anthropic\": {\"key\": \"k\"}, \"openai\": {}}");
    assert!(doc.is_object());
    assert_eq!(doc.entry_count(), 2);
    assert!(doc.has_provider("anthropic"));
    assert!(doc.has_provider("openai"));
    assert!(!doc.has_provider("google"));
    let expected: serde_json::Value = serde_json::from_str("{\"key\": \"k\"}").unwrap();
    assert_eq!(doc.payload("anthropic"), Some(&expected));
    assert_eq!(doc.payload("google"), None);
}

#[test]
fn duplicate_keys_keep_the_last_payload() {
    let doc = doc_from("{\"a\": 1, \"a\": 2}");
    assert_eq!(doc.entry_count(), 1);
    let two: serde_json::Value = serde_json::from_str("2").unwrap();
    assert_eq!(doc.payload("a"), Some(&two));
}

#[test]
fn written_object_keys_are_sorted() {
    let doc = doc_from("{\"b\": 1, \"a\": 2}");
    let disk = write_auth(empty_disk(), &doc);
    assert_eq!(disk.auth_file.as_deref(), Some("{\n  \"a\": 2,\n  \"b\": 1\n}"));
}

#[test]
fn write_then_read_round_trips() {
    let doc = doc_from("{\"x\": {\"a\": 1}, \"y\": true}");
    let back = write_then_read(empty_disk(), &doc).unwrap();
    assert!(back.is_object());
    assert_eq!(back.entry_count(), 2);
    let x: serde_json::Value = serde_json::from_str("{\"a\": 1}").unwrap();
    assert_eq!(back.payload("x"), Some(&x));
    assert_eq!(back.payload("y"), Some(&serde_json::Value::Bool(true)));
}

#[test]
fn write_non_object_round_trips() {
    let doc = doc_from("[1, {\"a\": null}]");
    let back = write_then_read(empty_disk(), &doc).unwrap();
    assert!(!back.is_object());
    let disk = write_auth(empty_disk(), &doc);
    assert_eq!(disk.auth_file.unwrap(), pretty("[1, {\"a\": null}]"));
}

#[test]
fn write_pretty_prints() {
    let doc = doc_from("{\"x\":1}");
    let disk = write_auth(empty_disk(), &doc);
    assert_eq!(disk.auth_file.as_deref(), Some("{\n  \"x\": 1\n}"));
    assert_eq!(disk.backup_file, None);
}

#[test]
fn first_write_of_existing_file_backs_it_up() {
    let disk = disk_with("{\"old\": 1}");
    let doc = doc_from("{\"new\": 2}");
    let after = write_auth(disk, &doc);
    assert_eq!(after.backup_file.as_deref(), Some("{\"old\": 1}"));
    assert_eq!(after.auth_file.unwrap(), pretty("{\"new\": 2}"));
}

#[test]
fn second_write_keeps_exactly_first_content_as_backup() {
    let first = doc_from("{\"a\": 1}");
    let second = doc_from("{\"b\": 2}");
    let disk1 = write_auth(empty_disk(), &first);
    assert_eq!(disk1.backup_file, None);
    let disk2 = write_auth(disk1, &second);
    assert_eq!(disk2.backup_file.unwrap(), pretty("{\"a\": 1}"));
    assert_eq!(disk2.auth_file.unwrap(), pretty("{\"b\": 2}"));
}

#[test]
fn write_twice_reports_single_backup() {
    let first = doc_from("{\"a\": 1}");
    let second = doc_from("{\"b\": 2}");
    let after = write_twice(empty_disk(), &first, &second);
    assert_eq!(after.backup_file.unwrap(), pretty("{\"a\": 1}"));
    assert_eq!(after.auth_file.unwrap(), pretty("{\"b\": 2}"));
}

#[test]
fn remove_empty_id_is_validation_error() {
    let r = remove_provider_auth(disk_with("{\"x\": 1}"), "");
    assert!(matches!(r, Err(e) if e.is_validation_error()));
}

#[test]
fn remove_absent_key_changes_nothing() {
    let disk = disk_with("{\"y\": 1}");
    let (after, removed) = remove_provider_auth(disk, "x").unwrap();
    assert!(!removed);
    assert_eq!(after.auth_file.as_deref(), Some("{\"y\": 1}"));
    assert_eq!(after.backup_file, None);
}

#[test]
fn remove_on_missing_file_changes_nothing() {
    let (after, removed) = remove_provider_auth(empty_disk(), "x").unwrap();
    assert!(!removed);
    assert_eq!(after.auth_file, None);
    assert_eq!(after.backup_file, None);
}

#[test]
fn remove_on_blank_file_changes_nothing() {
    let (after, removed) = remove_provider_auth(disk_with("   "), "x").unwrap();
    assert!(!removed);
    assert_eq!(after.auth_file.as_deref(), Some("   "));
    assert_eq!(after.backup_file, None);
}

#[test]
fn remove_present_key_rewrites_store() {
    let original = "{\"x\": {\"a\": 1}, \"y\": {\"b\": 2}}";
    let (after, removed) = remove_provider_auth(disk_with(original), "x").unwrap();
    assert!(removed);
    assert_eq!(after.backup_file.as_deref(), Some(original));
    assert_eq!(after.auth_file.as_deref(), Some(pretty("{\"y\": {\"b\": 2}}").as_str()));

    let doc = read_auth(&after).unwrap();
    assert!(doc.is_object());
    assert_eq!(doc.entry_count(), 1);
    assert!(!doc.has_provider("x"));
    let y: serde_json::Value = serde_json::from_str("{\"b\": 2}").unwrap();
    assert_eq!(doc.payload("y"), Some(&y));
}

#[test]
fn remove_then_read_drops_exactly_one_entry() {
    let doc = remove_then_read(disk_with("{\"x\": 1, \"y\": {\"b\": 2}}"), "x").unwrap();
    assert!(doc.is_object());
    assert_eq!(doc.entry_count(), 1);
    assert!(!doc.has_provider("x"));
    let y: serde_json::Value = serde_json::from_str("{\"b\": 2}").unwrap();
    assert_eq!(doc.payload("y"), Some(&y));
}

#[test]
fn remove_on_array_store_is_schema_error() {
    let r = remove_provider_auth(disk_with("[1, 2]"), "x");
    assert!(matches!(r, Err(e) if e.is_schema_error()));
}

#[test]
fn remove_on_invalid_store_is_parse_error() {
    let r = remove_provider_auth(disk_with("{ nope"), "x");
    assert!(matches!(r, Err(e) if e.is_parse_error()));
}

#[test]
fn remove_entry_on_document() {
    let mut doc = doc_from("{\"x\": 1, \"y\": 2}");
    assert_eq!(doc.remove_entry("x").unwrap(), true);
    assert_eq!(doc.entry_count(), 1);
    assert_eq!(doc.remove_entry("x").unwrap(), false);
    assert!(doc.has_provider("y"));
}
