use lorekeeper::error::LoreError;
use lorekeeper::model::entry::{Entry, EntryId, NewEntry, Timestamp, UpdateEntry};
use lorekeeper::model::json::JsonValue;
use lorekeeper::model::types::EntryType;
use lorekeeper::store::columns::{entry_from_row, stored_columns, StoredRow};
use lorekeeper::store::ops::{
    assemble_stats, check_deleted, row_count, check_fetched, new_stored_entry, prepare_store, prepare_update,
    similarity_query, updated_entry,
};

const ID: &str = "01957ab6-0000-7000-b000-0000000000aa";

fn t(secs: i64) -> Timestamp {
    Timestamp { secs, nanos: 0 }
}

fn text(s: &str) -> JsonValue {
    JsonValue::Str(s.to_string())
}

fn obj(fields: Vec<(&str, JsonValue)>) -> JsonValue {
    JsonValue::Object(fields.into_iter().map(|(k, v)| (k.to_string(), v)).collect())
}

fn new_entry(entry_type: EntryType, title: &str, role: &str) -> NewEntry {
    NewEntry {
        entry_type,
        title: title.into(),
        body: None,
        role: role.into(),
        tags: None,
        related_entries: None,
        data: None,
    }
}

fn stored(input: NewEntry, now: i64) -> Entry {
    prepare_store(input, ID.to_string(), t(now)).unwrap()
}

#[test]
fn store_entry_returns_entry_with_id() {
    let new = NewEntry {
        entry_type: EntryType::Plan,
        title: "Test Plan".into(),
        body: Some("Description".into()),
        role: "architect".into(),
        tags: Some(vec!["tag1".into()]),
        related_entries: None,
        data: Some(obj(vec![
            ("scope", text("Phase 2")),
            ("tier", text("L")),
            ("status", text("active")),
        ])),
    };
    let entry = prepare_store(new, ID.to_string(), t(10)).unwrap();
    assert!(!entry.id.0.is_empty());
    assert_eq!(entry.title, "Test Plan");
    assert_eq!(entry.tags, vec!["tag1"]);
    assert_eq!(entry.created_at, t(10));
    assert_eq!(entry.updated_at, t(10));
    assert!(!entry.is_deleted);
    assert_eq!(entry.access_count, 0);
}

#[test]
fn store_entry_validates_input() {
    let new = new_entry(EntryType::Plan, "", "architect");
    let res = prepare_store(new, ID.to_string(), t(1));
    assert!(matches!(res, Err(LoreError::Validation(_))));
}

#[test]
fn get_entry_by_id() {
    let e = stored(new_entry(EntryType::Decision, "D1", "architect"), 1);
    let fetched = check_fetched(Some(e), ID).unwrap();
    assert_eq!(fetched.title, "D1");
}

#[test]
fn get_entry_not_found() {
    let res = check_fetched(None, "none");
    assert!(matches!(res, Err(LoreError::NotFound(_))));
}

#[test]
fn update_entry_partial() {
    let mut input = new_entry(EntryType::Decision, "Original", "architect");
    input.body = Some("Old body".into());
    let stored_entry = stored(input, 100);
    let update = UpdateEntry {
        title: Some("New Title".into()),
        body: None,
        tags: None,
        related_entries: None,
        data: None,
    };
    let updated = prepare_update(Some(stored_entry), ID, update, t(200)).unwrap();
    assert_eq!(updated.title, "New Title");
    assert_eq!(updated.body, Some("Old body".into()));
    assert!(updated.updated_at > t(100));
    assert_eq!(updated.created_at, t(100));
}

#[test]
fn delete_entry_soft() {
    assert!(check_deleted(1, ID).is_ok());
    let mut e = stored(new_entry(EntryType::Decision, "To Delete", "architect"), 1);
    e.is_deleted = true;
    let res = check_fetched(Some(e), ID);
    assert!(matches!(res, Err(LoreError::NotFound(_))));
}

#[test]
fn stats_returns_counts() {
    let stats = assemble_stats(
        2,
        Some(t(5)),
        vec![("DECISION".into(), 1), ("COMMIT".into(), 1)],
        vec![],
    );
    assert_eq!(stats.total, 2);
    assert_eq!(stats.by_type, vec![(EntryType::Decision, 1), (EntryType::Commit, 1)]);
}

#[test]
fn stats_returns_status_breakdown() {
    let stats = assemble_stats(
        3,
        None,
        vec![("PLAN".into(), 2), ("STUB".into(), 1)],
        vec![("open".into(), 1), ("planned".into(), 2)],
    );
    assert_eq!(stats.total, 3);
    let planned_count =
        stats.by_status.iter().find(|(s, _)| s == "planned").map_or(0, |(_, n)| *n);
    let open_count = stats.by_status.iter().find(|(s, _)| s == "open").map_or(0, |(_, n)| *n);
    assert_eq!(planned_count, 2, "expected 2 PLANs with status=planned");
    assert_eq!(open_count, 1, "expected 1 STUB with status=open");
}

#[test]
fn update_rejects_invalid_plan_transition() {
    let mut input = new_entry(EntryType::Plan, "P1", "architect");
    input.data = Some(obj(vec![
        ("scope", text("test")),
        ("tier", text("S")),
        ("status", text("executed")),
    ]));
    let e = stored(input, 1);
    let res = prepare_update(
        Some(e),
        ID,
        UpdateEntry {
            data: Some(obj(vec![
                ("scope", text("test")),
                ("tier", text("S")),
                ("status", text("planned")),
            ])),
            ..Default::default()
        },
        t(2),
    );
    assert!(matches!(res, Err(LoreError::Validation(_))));
}

#[test]
fn store_rejects_invalid_related_entry_uuid() {
    let mut input = new_entry(EntryType::Decision, "D1", "architect");
    input.related_entries = Some(vec![EntryId("invalid-uuid".into())]);
    let res = prepare_store(input, ID.to_string(), t(1));
    assert!(matches!(res, Err(LoreError::Validation(_))));
}

#[test]
fn update_deleted_entry_returns_not_found() {
    let mut e = stored(new_entry(EntryType::Decision, "To Delete", "architect"), 1);
    e.is_deleted = true;
    let res = prepare_update(Some(e), ID, UpdateEntry::default(), t(2));
    assert!(matches!(res, Err(LoreError::NotFound(_))));
}

#[test]
fn stats_empty_database() {
    let stats = assemble_stats(0, None, vec![], vec![]);
    assert_eq!(stats.total, 0);
    assert!(stats.by_type.is_empty());
    assert!(stats.last_updated.is_none());
}

#[test]
fn poisoned_mutex_returns_error() {
    let err = LoreError::Poison("mutex poisoned".into());
    assert!(err.message().contains("mutex poisoned"));
}

// ---- Further cases -------------------------------------------------------

#[test]
fn store_normalizes_tags_and_fills_defaults() {
    let mut input = new_entry(EntryType::Commit, "C", "Builder");
    input.tags = Some(vec!["  Alpha ".into(), "BETA".into()]);
    let e = stored(input, 7);
    assert_eq!(e.tags, vec!["alpha", "beta"]);
    assert!(e.related_entries.is_empty());
    assert!(e.data.is_null());
    assert_eq!(e.role, "Builder");
    assert_eq!(e.id.0, ID);
    assert!(e.last_accessed_at.is_none());
}

#[test]
fn store_refuses_role_before_links() {
    let mut input = new_entry(EntryType::Commit, "C", "architect");
    input.related_entries = Some(vec![EntryId("nope".into())]);
    let res = prepare_store(input, ID.to_string(), t(1));
    assert!(matches!(res, Err(LoreError::RoleViolation { .. })));
}

#[test]
fn update_keeps_unchanged_fields_and_counters() {
    let mut input = new_entry(EntryType::Stub, "S", "builder");
    input.tags = Some(vec!["keep".into()]);
    input.data = Some(obj(vec![
        ("phase_number", JsonValue::Number(lorekeeper::model::json::JsonNumber::PosInt(1))),
        ("contract", text("c")),
        ("module", text("m")),
        ("status", text("open")),
    ]));
    let mut e = stored(input, 1);
    e.access_count = 4;
    e.last_accessed_at = Some(t(3));
    let upd = UpdateEntry {
        tags: Some(vec![" New ".into()]),
        data: Some(obj(vec![
            ("phase_number", JsonValue::Number(lorekeeper::model::json::JsonNumber::PosInt(1))),
            ("contract", text("c")),
            ("module", text("m")),
            ("status", text("resolved")),
        ])),
        ..Default::default()
    };
    let u = prepare_update(Some(e), ID, upd, t(9)).unwrap();
    assert_eq!(u.tags, vec!["new"]);
    assert_eq!(u.title, "S");
    assert_eq!(u.access_count, 4);
    assert_eq!(u.last_accessed_at, Some(t(3)));
    assert_eq!(u.updated_at, t(9));
    assert_eq!(u.data.status(), Some("resolved"));
}

#[test]
fn update_with_blank_title_is_refused() {
    let e = stored(new_entry(EntryType::Decision, "D", "architect"), 1);
    let res = prepare_update(
        Some(e),
        ID,
        UpdateEntry { title: Some("   ".into()), ..Default::default() },
        t(2),
    );
    assert!(matches!(res, Err(LoreError::Validation(_))));
}

#[test]
fn update_of_missing_entry_names_the_id() {
    match prepare_update(None, "abc", UpdateEntry::default(), t(2)) {
        Err(e) => assert_eq!(e.message(), "entry not found: abc"),
        Ok(_) => panic!("expected not found"),
    }
    match check_deleted(0, "xyz") {
        Err(LoreError::NotFound(m)) => assert_eq!(m, "xyz"),
        other => panic!("unexpected {other:?}"),
    }
}

#[test]
fn stats_count_unknown_type_names_as_stub() {
    let stats = assemble_stats(1, None, vec![("MYSTERY".into(), 4)], vec![]);
    assert_eq!(stats.by_type, vec![(EntryType::Stub, 4)]);
}

#[test]
fn similarity_query_sanitizes_and_trims() {
    assert_eq!(similarity_query("Use SQLite!", Some("for (storage)")), Some("Use SQLite  for  storage".to_string()));
    assert_eq!(similarity_query("--", None), None);
    assert_eq!(similarity_query("Title", Some("")), Some("Title".to_string()));
    assert_eq!(similarity_query("é", None), None);
}

#[test]
fn error_messages_follow_their_variant() {
    assert_eq!(LoreError::Database("x".into()).message(), "database error: x");
    assert_eq!(LoreError::Validation("x".into()).message(), "validation error: x");
    assert_eq!(LoreError::Serialization("x".into()).message(), "serialization error: x");
    assert_eq!(LoreError::ProjectRoot("x".into()).message(), "project root not found: x");
    assert_eq!(LoreError::Internal("x".into()).message(), "internal error: x");
}

#[test]
fn empty_update_changes_only_the_update_time() {
    let mut input = new_entry(EntryType::Decision, "Keep me", "architect");
    input.body = Some("body".into());
    input.tags = Some(vec!["a".into(), "b".into()]);
    let mut e = stored(input, 5);
    e.access_count = 2;
    let u = prepare_update(Some(e), ID, UpdateEntry::default(), t(11)).unwrap();
    assert_eq!(u.id, EntryId(ID.to_string()));
    assert_eq!(u.entry_type, EntryType::Decision);
    assert_eq!(u.title, "Keep me");
    assert_eq!(u.body, Some("body".to_string()));
    assert_eq!(u.role, "architect");
    assert_eq!(u.tags, vec!["a", "b"]);
    assert!(u.related_entries.is_empty());
    assert!(u.data.is_null());
    assert_eq!(u.created_at, t(5));
    assert_eq!(u.updated_at, t(11));
    assert_eq!(u.access_count, 2);
    assert!(!u.is_deleted);
}

#[test]
fn stored_entry_is_fetched_back() {
    let e = stored(new_entry(EntryType::Lesson, "L", "architect"), 7);
    assert!(!e.is_deleted);
    assert_eq!(e.created_at, e.updated_at);
    assert_eq!(e.access_count, 0);
    let fetched = check_fetched(Some(e), ID).unwrap();
    assert_eq!(fetched.title, "L");
    assert_eq!(fetched.id.0, ID);
}

#[test]
fn new_stored_entry_gets_a_fresh_uuid_and_one_time() {
    let e = new_stored_entry(new_entry(EntryType::Decision, "D", "architect")).unwrap();
    assert_eq!(e.id.0.len(), 36);
    let parsed = uuid::Uuid::parse_str(&e.id.0).unwrap();
    assert_eq!(parsed.get_version_num(), 7);
    assert_eq!(e.created_at, e.updated_at);
    assert!(e.created_at.secs > 1_600_000_000);
    let other = new_stored_entry(new_entry(EntryType::Decision, "D", "architect")).unwrap();
    assert_ne!(e.id, other.id);
    assert!(matches!(
        new_stored_entry(new_entry(EntryType::Decision, " ", "architect")),
        Err(LoreError::Validation(_))
    ));
}

#[test]
fn updated_entry_is_stamped_now() {
    let e = stored(new_entry(EntryType::Decision, "D", "architect"), 5);
    let upd = UpdateEntry { title: Some("D2".into()), ..Default::default() };
    let u = updated_entry(Some(e), ID, upd).unwrap();
    assert_eq!(u.title, "D2");
    assert_eq!(u.created_at, t(5));
    assert!(u.updated_at.secs > 1_600_000_000);
    assert!(matches!(
        updated_entry(None, ID, UpdateEntry::default()),
        Err(LoreError::NotFound(m)) if m == ID
    ));
}

#[test]
fn row_counts_below_zero_read_as_zero() {
    assert_eq!(row_count(7), 7);
    assert_eq!(row_count(0), 0);
    assert_eq!(row_count(-3), 0);
}

#[test]
fn stored_columns_read_back_as_the_entry() {
    let mut input = new_entry(EntryType::Commit, "C", "builder");
    input.tags = Some(vec!["Rust ".into(), "a\"b".into()]);
    input.related_entries = Some(vec![EntryId(ID.to_string())]);
    input.data = Some(obj(vec![
        ("hash", text("abc")),
        ("files", JsonValue::Array(vec![text("src/main.rs")])),
    ]));
    let e = stored(input, 5);
    let (tags, links, data) = stored_columns(&e);
    assert_eq!(tags, "[\"rust\",\"a\\\"b\"]");
    assert_eq!(links, format!("[\"{ID}\"]"));
    assert_eq!(data, "{\"files\":[\"src/main.rs\"],\"hash\":\"abc\"}");
    let row = StoredRow {
        id: ID.to_string(),
        entry_type: "COMMIT".into(),
        title: "C".into(),
        body: None,
        role: "builder".into(),
        tags,
        related_entries: links,
        created_at: t(5),
        updated_at: t(6),
        is_deleted: false,
        data,
        access_count: 3,
        last_accessed_at: None,
    };
    let back = entry_from_row(row.clone()).unwrap();
    assert_eq!(back.entry_type, EntryType::Commit);
    assert_eq!(back.tags, vec!["rust", "a\"b"]);
    assert_eq!(back.related_entries, vec![EntryId(ID.to_string())]);
    assert_eq!(back.data.status(), None);
    assert_eq!(back.updated_at, t(6));
    assert_eq!(back.access_count, 3);
    let mut unknown = row.clone();
    unknown.entry_type = "NOTE".into();
    assert!(entry_from_row(unknown).is_none());
    let mut broken = row;
    broken.tags = "not json".into();
    broken.data = "{".into();
    let back = entry_from_row(broken).unwrap();
    assert!(back.tags.is_empty());
    assert!(back.data.is_null());
}
