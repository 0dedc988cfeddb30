use lorekeeper::model::entry::{Entry, EntryId, Timestamp};
use lorekeeper::model::json::{JsonNumber, JsonValue};
use lorekeeper::model::types::EntryType;
use lorekeeper::render::render_entries;

const NOW: i64 = 1_750_000_000;

fn test_entry(id: &str, et: EntryType, title: &str, created_days_ago: i64) -> Entry {
    let created = Timestamp { secs: NOW - created_days_ago * 86400, nanos: 0 };
    Entry {
        id: EntryId(id.into()),
        entry_type: et,
        title: title.into(),
        body: Some("Body text".into()),
        role: "architect".into(),
        tags: vec!["tag1".into()],
        related_entries: vec![],
        created_at: created,
        updated_at: created,
        is_deleted: false,
        access_count: 0,
        last_accessed_at: None,
        data: JsonValue::Null,
    }
}

#[test]
fn render_empty_entries() {
    let result = render_entries(&[]);
    assert_eq!(result, "No entries found.\n");
}

#[test]
fn render_single_entry() {
    let entries = vec![test_entry("id1", EntryType::Decision, "Title 1", 0)];
    let result = render_entries(&entries);
    assert!(result.contains("### [DECISION] Title 1"));
    assert!(result.contains("- **ID:** id1"));
}

#[test]
fn render_groups_by_type() {
    let entries = vec![
        test_entry("id1", EntryType::Decision, "D1", 0),
        test_entry("id2", EntryType::Commit, "C1", 0),
    ];
    let result = render_entries(&entries);
    assert!(result.contains("## DECISION"));
    assert!(result.contains("## COMMIT"));
}

#[test]
fn render_entry_with_data() {
    let mut entry = test_entry("id1", EntryType::Plan, "Title 1", 0);
    entry.data = JsonValue::Object(vec![
        ("status".to_string(), JsonValue::Str("planned".into())),
        ("scope".to_string(), JsonValue::Str("test".into())),
        ("tier".to_string(), JsonValue::Str("S".into())),
    ]);
    let entries = vec![entry];
    let result = render_entries(&entries);
    assert!(result.contains("- **Data:**"));
    assert!(result.contains("\"status\": \"planned\""));
    assert!(result.contains("```json"));
}

#[test]
fn render_entry_with_tags_shows_tags_line() {
    let entry = test_entry("id1", EntryType::Decision, "Title 1", 0);
    let entries = vec![entry];
    let result = render_entries(&entries);
    assert!(result.contains("- **Tags:** tag1"));
}

#[test]
fn render_entry_without_tags_omits_tags_line() {
    let mut entry = test_entry("id1", EntryType::Decision, "Title 1", 0);
    entry.tags = vec![];
    let entries = vec![entry];
    let result = render_entries(&entries);
    assert!(!result.contains("- **Tags:**"));
}

// ---- Further cases -------------------------------------------------------

#[test]
fn render_whole_dump_exactly() {
    let mut a = test_entry("a", EntryType::Commit, "Newer", 0);
    a.role = "builder".into();
    a.tags = vec!["x".into(), "y".into()];
    a.body = None;
    let b = test_entry("b", EntryType::Decision, "Only", 1);
    let mut c = test_entry("c", EntryType::Commit, "Older", 2);
    c.role = "builder".into();
    c.tags = vec![];
    c.data = JsonValue::Object(vec![(
        "hash".to_string(),
        JsonValue::Str("abc".into()),
    )]);
    let result = render_entries(&[a, b, c]);
    let expected = "# Lorekeeper Memory Dump\n\n\
## DECISION\n\n\
### [DECISION] Only\n\n\
- **ID:** b\n\
- **Created:** 2025-06-14T15:06:40+00:00\n\
- **Role:** architect\n\
- **Tags:** tag1\n\
\n\
Body text\n\n\
## COMMIT\n\n\
### [COMMIT] Older\n\n\
- **ID:** c\n\
- **Created:** 2025-06-13T15:06:40+00:00\n\
- **Role:** builder\n\
- **Data:**\n```json\n{\n  \"hash\": \"abc\"\n}\n```\n\
\n\
Body text\n\n\
### [COMMIT] Newer\n\n\
- **ID:** a\n\
- **Created:** 2025-06-15T15:06:40+00:00\n\
- **Role:** builder\n\
- **Tags:** x, y\n\
\n";
    assert_eq!(result, expected);
}

#[test]
fn render_orders_within_type_by_creation_and_keeps_ties_in_order() {
    let e1 = test_entry("first", EntryType::Lesson, "L1", 0);
    let e2 = test_entry("second", EntryType::Lesson, "L2", 0);
    let e3 = test_entry("oldest", EntryType::Lesson, "L0", 5);
    let result = render_entries(&[e1, e2, e3]);
    let p0 = result.find("### [LESSON] L0").unwrap();
    let p1 = result.find("### [LESSON] L1").unwrap();
    let p2 = result.find("### [LESSON] L2").unwrap();
    assert!(p0 < p1 && p1 < p2);
}

#[test]
fn render_uses_variant_names_in_headings() {
    let mut e = test_entry("n", EntryType::BuilderNote, "Note", 0);
    e.role = "builder".into();
    let result = render_entries(&[e]);
    assert!(result.contains("## BUILDERNOTE\n\n### [BUILDERNOTE] Note"));
}

#[test]
fn render_shows_subsecond_creation_time() {
    let mut e = test_entry("t", EntryType::Plan, "P", 0);
    e.created_at = Timestamp { secs: 0, nanos: 500_000_000 };
    let result = render_entries(&[e]);
    assert!(result.contains("- **Created:** 1970-01-01T00:00:00.500+00:00\n"));
}

#[test]
fn data_block_uses_serde_json_pretty_layout() {
    let mut e = test_entry("01957ab6-0000-7000-b000-0000000000d1", EntryType::Decision, "With data", 10);
    e.data = JsonValue::Object(vec![
        ("z".to_string(), JsonValue::Array(vec![
            JsonValue::Number(JsonNumber::PosInt(1)),
            JsonValue::Number(JsonNumber::NegInt(-2)),
            JsonValue::Number(JsonNumber::Float("2.5".into())),
        ])),
        ("a".to_string(), JsonValue::Str("q\"\\\n\u{1}".into())),
        ("m".to_string(), JsonValue::Object(vec![])),
    ]);
    let result = render_entries(&[e]);
    let expected = "- **Data:**\n```json\n{\n  \"a\": \"q\\\"\\\\\\n\\u0001\",\n  \"m\": {},\n  \"z\": [\n    1,\n    -2,\n    2.5\n  ]\n}\n```\n";
    assert!(result.contains(expected), "{result}");
}
