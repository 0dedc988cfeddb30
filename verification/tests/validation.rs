use lorekeeper::error::LoreError;
use lorekeeper::model::entry::{EntryId, NewEntry};
use lorekeeper::model::json::{JsonNumber, JsonValue};
use lorekeeper::model::types::EntryType;
use lorekeeper::model::validation::{
    validate_new_entry, validate_related_entries, validate_role, validate_state_transition,
    validate_update,
};

fn create_test_entry(entry_type: EntryType, data: Option<JsonValue>) -> NewEntry {
    NewEntry {
        entry_type,
        title: "Test".to_string(),
        body: None,
        role: "architect".to_string(),
        tags: None,
        related_entries: None,
        data,
    }
}

fn text(s: &str) -> JsonValue {
    JsonValue::Str(s.to_string())
}

fn count(n: u64) -> JsonValue {
    JsonValue::Number(JsonNumber::PosInt(n))
}

fn obj(fields: Vec<(&str, JsonValue)>) -> JsonValue {
    JsonValue::Object(fields.into_iter().map(|(k, v)| (k.to_string(), v)).collect())
}

#[test]
fn validate_new_entry_happy_path() {
    let entry = create_test_entry(EntryType::Decision, None);
    assert!(validate_new_entry(&entry).is_ok());
}

#[test]
fn validate_new_entry_missing_title() {
    let mut entry = create_test_entry(EntryType::Decision, None);
    entry.title = String::new();
    let result = validate_new_entry(&entry);
    assert!(result.is_err());
    assert!(matches!(result.unwrap_err(), LoreError::Validation(_)));
}

#[test]
fn validate_new_entry_plan_missing_status() {
    let entry = create_test_entry(
        EntryType::Plan,
        Some(obj(vec![("scope", text("test")), ("tier", text("S"))])),
    );
    let result = validate_new_entry(&entry);
    assert!(result.is_err());
}

#[test]
fn validate_role_builder_cannot_write_decision() {
    let result = validate_role("builder", EntryType::Decision);
    assert!(result.is_err());
    assert!(matches!(result.unwrap_err(), LoreError::RoleViolation { .. }));
}

#[test]
fn validate_role_architect_cannot_write_commit() {
    let result = validate_role("architect", EntryType::Commit);
    assert!(result.is_err());
    assert!(matches!(result.unwrap_err(), LoreError::RoleViolation { .. }));
}

#[test]
fn validate_role_both_can_write_deferred() {
    assert!(validate_role("architect", EntryType::Deferred).is_ok());
    assert!(validate_role("builder", EntryType::Deferred).is_ok());
}

#[test]
fn tag_normalization_lowercases_and_trims() {
    let mut entry = create_test_entry(EntryType::Decision, None);
    entry.tags = Some(vec!["  Rust  ".to_string(), "MCP".to_string()]);
    entry.normalize_tags();
    assert_eq!(entry.tags.unwrap(), vec!["rust", "mcp"]);
}

#[test]
fn validate_new_entry_all_types_happy_path() {
    let cases: Vec<(EntryType, &str, Option<JsonValue>)> = vec![
        (EntryType::Decision, "architect", None),
        (
            EntryType::Commit,
            "builder",
            Some(obj(vec![
                ("hash", text("abc123")),
                ("files", JsonValue::Array(vec![text("src/main.rs")])),
            ])),
        ),
        (EntryType::Constraint, "architect", Some(obj(vec![("source", text("legal"))]))),
        (EntryType::Lesson, "architect", Some(obj(vec![("root_cause", text("misconfig"))]))),
        (
            EntryType::Plan,
            "architect",
            Some(obj(vec![("scope", text("module")), ("tier", text("S")), ("status", text("draft"))])),
        ),
        (EntryType::Feature, "architect", Some(obj(vec![("status", text("proposed"))]))),
        (
            EntryType::Stub,
            "builder",
            Some(obj(vec![
                ("phase_number", count(2)),
                ("contract", text("trait X")),
                ("module", text("store")),
                ("status", text("pending")),
            ])),
        ),
        (
            EntryType::Deferred,
            "architect",
            Some(obj(vec![("reason", text("out of scope")), ("target_phase", count(2))])),
        ),
        (
            EntryType::BuilderNote,
            "builder",
            Some(obj(vec![
                ("note_type", text("observation")),
                ("step_ref", text("5")),
                ("plan_ref", text("plan-v1")),
            ])),
        ),
        (
            EntryType::TechDebt,
            "builder",
            Some(obj(vec![("severity", text("low")), ("origin_phase", count(1))])),
        ),
    ];

    for (entry_type, role, data) in cases {
        let mut entry = create_test_entry(entry_type, data);
        entry.role = role.to_string();
        let result = validate_new_entry(&entry);
        assert!(result.is_ok(), "Expected Ok for {entry_type:?} with role {role}, got: {result:?}");
    }
}

// ---- State machine tests -------------------------------------------------

#[test]
fn plan_transition_planned_to_executed_is_valid() {
    assert!(validate_state_transition(EntryType::Plan, Some("planned"), Some("executed")).is_ok());
}

#[test]
fn plan_transition_planned_to_abandoned_is_valid() {
    assert!(validate_state_transition(EntryType::Plan, Some("planned"), Some("abandoned")).is_ok());
}

#[test]
fn plan_transition_executed_to_planned_is_invalid() {
    let result = validate_state_transition(EntryType::Plan, Some("executed"), Some("planned"));
    assert!(result.is_err());
    assert!(matches!(result.unwrap_err(), LoreError::Validation(_)));
}

#[test]
fn stub_transition_open_to_resolved_is_valid() {
    assert!(validate_state_transition(EntryType::Stub, Some("open"), Some("resolved")).is_ok());
}

#[test]
fn stub_transition_resolved_to_open_is_invalid() {
    let result = validate_state_transition(EntryType::Stub, Some("resolved"), Some("open"));
    assert!(result.is_err());
}

#[test]
fn state_transition_skipped_when_status_none() {
    assert!(validate_state_transition(EntryType::Plan, None, Some("executed")).is_ok());
    assert!(validate_state_transition(EntryType::Plan, Some("planned"), None).is_ok());
}

// ---- UUID validation tests -----------------------------------------------

#[test]
fn related_entries_valid_uuids_passes() {
    let ids = vec![
        EntryId("01957ab6-0000-7000-b000-000000000001".to_string()),
        EntryId("01957ab6-0000-7000-b000-000000000002".to_string()),
    ];
    assert!(validate_related_entries(&ids).is_ok());
}

#[test]
fn related_entries_invalid_uuid_fails() {
    let ids = vec![EntryId("not-a-uuid".to_string())];
    let result = validate_related_entries(&ids);
    assert!(result.is_err());
    assert!(matches!(result.unwrap_err(), LoreError::Validation(_)));
}

#[test]
fn state_transition_same_status_is_noop() {
    assert!(validate_state_transition(EntryType::Plan, Some("planned"), Some("planned")).is_ok());
}

#[test]
fn state_transition_other_type_ignores_status() {
    assert!(validate_state_transition(EntryType::Decision, Some("foo"), Some("bar")).is_ok());
}

// ---- Further cases -------------------------------------------------------

#[test]
fn role_check_ignores_letter_case() {
    assert!(validate_role("ARCHITECT", EntryType::Decision).is_ok());
    assert!(validate_role("Builder", EntryType::Commit).is_ok());
}

#[test]
fn role_violation_names_role_and_variant() {
    match validate_role("Builder", EntryType::BuilderNote) {
        Ok(()) => {}
        Err(e) => panic!("unexpected {e:?}"),
    }
    match validate_role("Guest", EntryType::TechDebt) {
        Err(LoreError::RoleViolation { role, entry_type }) => {
            assert_eq!(role, "Guest");
            assert_eq!(entry_type, "TechDebt");
        }
        other => panic!("unexpected {other:?}"),
    }
    let err = validate_role("builder", EntryType::SessionSummary);
    assert!(err.is_ok());
    let err = validate_role("builder", EntryType::Lesson).unwrap_err();
    assert_eq!(err.message(), "role violation: builder cannot write Lesson");
}

#[test]
fn blank_title_is_refused_before_role() {
    let mut entry = create_test_entry(EntryType::Commit, None);
    entry.title = " \t\n".to_string();
    match validate_new_entry(&entry) {
        Err(LoreError::Validation(m)) => assert_eq!(m, "title cannot be empty"),
        other => panic!("unexpected {other:?}"),
    }
}

#[test]
fn schema_refusal_is_a_serialization_error() {
    let entry = create_test_entry(EntryType::Lesson, Some(obj(vec![("root_cause", count(3))])));
    match validate_new_entry(&entry) {
        Err(LoreError::Serialization(m)) => {
            assert_eq!(m, "metadata does not match the schema of LESSON")
        }
        other => panic!("unexpected {other:?}"),
    }
}

#[test]
fn schema_accepts_positional_array_and_ignores_extra_members() {
    let arr = JsonValue::Array(vec![text("h"), JsonValue::Array(vec![])]);
    assert!(validate_update(EntryType::Commit, Some(&arr)).is_ok());
    let short = JsonValue::Array(vec![text("h")]);
    assert!(validate_update(EntryType::Commit, Some(&short)).is_err());
    let extra = obj(vec![("source", text("legal")), ("other", JsonValue::Bool(true))]);
    assert!(validate_update(EntryType::Constraint, Some(&extra)).is_ok());
    assert!(validate_update(EntryType::Constraint, Some(&JsonValue::Null)).is_err());
    assert!(validate_update(EntryType::Decision, Some(&JsonValue::Bool(false))).is_ok());
    assert!(validate_update(EntryType::Plan, None).is_ok());
}

#[test]
fn schema_counts_must_fit_u32() {
    let ok = obj(vec![("reason", text("r")), ("target_phase", count(4294967295))]);
    assert!(validate_update(EntryType::Deferred, Some(&ok)).is_ok());
    let big = obj(vec![("reason", text("r")), ("target_phase", count(4294967296))]);
    assert!(validate_update(EntryType::Deferred, Some(&big)).is_err());
    let neg = obj(vec![("reason", text("r")), ("target_phase", JsonValue::Number(JsonNumber::NegInt(-1)))]);
    assert!(validate_update(EntryType::Deferred, Some(&neg)).is_err());
    let float = obj(vec![
        ("reason", text("r")),
        ("target_phase", JsonValue::Number(JsonNumber::Float("2.0".to_string()))),
    ]);
    assert!(validate_update(EntryType::Deferred, Some(&float)).is_err());
}

#[test]
fn session_summary_counts_are_optional() {
    let minimal = obj(vec![("session_date", text("2025-01-01"))]);
    assert!(validate_update(EntryType::SessionSummary, Some(&minimal)).is_ok());
    let with_null = obj(vec![("session_date", text("d")), ("entries_created", JsonValue::Null)]);
    assert!(validate_update(EntryType::SessionSummary, Some(&with_null)).is_ok());
    let bad = obj(vec![("session_date", text("d")), ("entries_deleted", text("x"))]);
    assert!(validate_update(EntryType::SessionSummary, Some(&bad)).is_err());
}

#[test]
fn refused_transitions_carry_their_message() {
    match validate_state_transition(EntryType::Plan, Some("executed"), Some("planned")) {
        Err(LoreError::Validation(m)) => assert_eq!(
            m,
            "PLAN state transition `executed` -> `planned` is not permitted; allowed: planned->executed, planned->abandoned"
        ),
        other => panic!("unexpected {other:?}"),
    }
    match validate_state_transition(EntryType::Stub, Some("open"), Some("closed")) {
        Err(LoreError::Validation(m)) => assert_eq!(
            m,
            "STUB state transition `open` -> `closed` is not permitted; allowed: open->resolved"
        ),
        other => panic!("unexpected {other:?}"),
    }
}

#[test]
fn finished_plan_cannot_move_again() {
    assert!(validate_state_transition(EntryType::Plan, Some("executed"), Some("abandoned")).is_err());
    assert!(validate_state_transition(EntryType::Plan, Some("abandoned"), Some("planned")).is_err());
    assert!(validate_state_transition(EntryType::Stub, Some("resolved"), Some("open")).is_err());
}

#[test]
fn first_bad_link_is_named() {
    let ids = vec![
        EntryId("01957ab6-0000-7000-b000-000000000001".to_string()),
        EntryId("bad-one".to_string()),
        EntryId("bad-two".to_string()),
    ];
    match validate_related_entries(&ids) {
        Err(LoreError::Validation(m)) => assert_eq!(m, "related_entry `bad-one` is not a valid UUID"),
        other => panic!("unexpected {other:?}"),
    }
    assert!(validate_related_entries(&[]).is_ok());
}
