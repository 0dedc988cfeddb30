//! Validation rules: role enforcement, metadata schemas, status state machines and links.

use super::entry::{EntryId, NewEntry};
use super::json::{check_schema, fits_schema, schema_view, FieldKind, JsonValue};
use super::types::{roles_of, variant_name, wire_name, EntryType};
use crate::error::LoreError;
use crate::text::{ascii_lowercase, blank_text, is_blank, lowered, same_text, to_lowercase_text};
use vstd::prelude::*;

verus! {

// ---------------------------------------------------------------------------
// Roles
// ---------------------------------------------------------------------------

/// Whether `role` (in any letter case) may write entries of type `t`.
pub open spec fn role_allowed(role: Seq<char>, t: EntryType) -> bool {
    roles_of(t).contains(lowered(role))
}

/// Validates that a role is authorized to write a specific entry type.
///
/// The role is compared in lower case; a refusal names the role as given and the type's variant name.
pub fn validate_role(role: &str, entry_type: EntryType) -> (r: Result<(), LoreError>)
    ensures
        r is Ok <==> role_allowed(role@, entry_type),
        r is Err ==> (r matches Err(LoreError::RoleViolation { role: rr, entry_type: et })
            && rr@ == role@ && et@ == variant_name(entry_type)),
{
    let allowed = entry_type.allowed_roles();
    let role_lc = to_lowercase_text(role);
    let mut i: usize = 0;
    while i < allowed.len()
        invariant
            i <= allowed@.len(),
            role_lc@ == lowered(role@),
            allowed@.len() == roles_of(entry_type).len(),
            forall|j: int| 0 <= j < allowed@.len() ==> (#[trigger] allowed@[j])@ == roles_of(entry_type)[j],
            forall|j: int| 0 <= j < i ==> roles_of(entry_type)[j] != role_lc@,
        decreases allowed@.len() - i,
    {
        if same_text(allowed[i], role_lc.as_str()) {
            assert(roles_of(entry_type)[i as int] == lowered(role@));
            return Ok(());
        }
        i = i + 1;
    }
    assert(!roles_of(entry_type).contains(lowered(role@))) by {
        if roles_of(entry_type).contains(lowered(role@)) {
            let k = choose|k: int| 0 <= k < roles_of(entry_type).len() && roles_of(entry_type)[k] == lowered(role@);
            assert(roles_of(entry_type)[k] != role_lc@);
        }
    }
    Err(LoreError::RoleViolation {
        role: String::from_str(role),
        entry_type: String::from_str(entry_type.variant_name()),
    })
}

/// Role enforcement: a role (in any letter case) may write an entry exactly
/// when it is `architect` and the type is not COMMIT, STUB or BUILDER_NOTE, or
/// it is `builder` and the type is COMMIT, STUB, BUILDER_NOTE, DEFERRED,
/// TECH_DEBT or SESSION_SUMMARY. In particular a builder may never write a
/// DECISION, CONSTRAINT, LESSON, PLAN or FEATURE entry.
pub proof fn lemma_role_permissions(role: Seq<char>, t: EntryType)
    ensures
        role_allowed(role, t) <==> (lowered(role) == "architect"@ && !(t == EntryType::Commit || t
            == EntryType::Stub || t == EntryType::BuilderNote)) || (lowered(role) == "builder"@ && (t
            == EntryType::Commit || t == EntryType::Stub || t == EntryType::BuilderNote || t
            == EntryType::Deferred || t == EntryType::TechDebt || t == EntryType::SessionSummary)),
{
    crate::model::types::lemma_writers_of_each_type(t);
    let r = roles_of(t);
    let l = lowered(role);
    if r.contains(l) {
        let i = choose|i: int| 0 <= i < r.len() && r[i] == l;
        assert(r[i] == "architect"@ || r[i] == "builder"@);
    }
}

// ---------------------------------------------------------------------------
// Metadata schemas
// ---------------------------------------------------------------------------

/// The fields that the metadata of type `t` must have; `None` when any metadata is accepted.
pub open spec fn schema_of(t: EntryType) -> Option<Seq<(Seq<char>, FieldKind)>> {
    match t {
        EntryType::Decision => None,
        EntryType::Commit => Some(seq![("hash"@, FieldKind::Text), ("files"@, FieldKind::TextList)]),
        EntryType::Constraint => Some(seq![("source"@, FieldKind::Text)]),
        EntryType::Lesson => Some(seq![("root_cause"@, FieldKind::Text)]),
        EntryType::Plan => Some(
            seq![("scope"@, FieldKind::Text), ("tier"@, FieldKind::Text), ("status"@, FieldKind::Text)],
        ),
        EntryType::Feature => Some(seq![("status"@, FieldKind::Text)]),
        EntryType::Stub => Some(
            seq![
                ("phase_number"@, FieldKind::Count),
                ("contract"@, FieldKind::Text),
                ("module"@, FieldKind::Text),
                ("status"@, FieldKind::Text),
            ],
        ),
        EntryType::Deferred => Some(
            seq![("reason"@, FieldKind::Text), ("target_phase"@, FieldKind::Count)],
        ),
        EntryType::BuilderNote => Some(
            seq![
                ("note_type"@, FieldKind::Text),
                ("step_ref"@, FieldKind::Text),
                ("plan_ref"@, FieldKind::Text),
            ],
        ),
        EntryType::TechDebt => Some(
            seq![("severity"@, FieldKind::Text), ("origin_phase"@, FieldKind::Count)],
        ),
        EntryType::SessionSummary => Some(
            seq![
                ("session_date"@, FieldKind::Text),
                ("entries_created"@, FieldKind::OptionalCount),
                ("entries_updated"@, FieldKind::OptionalCount),
                ("entries_deleted"@, FieldKind::OptionalCount),
            ],
        ),
    }
}

/// Whether `data` is acceptable metadata for type `t`.
pub open spec fn data_allowed(t: EntryType, data: Option<JsonValue>) -> bool {
    match data {
        None => true,
        Some(v) => match schema_of(t) {
            None => true,
            Some(s) => fits_schema(v, s),
        },
    }
}

/// The message of a schema refusal.
pub open spec fn schema_message(t: EntryType) -> Seq<char> {
    "metadata does not match the schema of "@ + wire_name(t)
}

/// The static table of the fields of type `t`.
fn schema_table(t: EntryType) -> (r: Option<&'static [(&'static str, FieldKind)]>)
    ensures
        match r {
            None => schema_of(t) is None,
            Some(s) => schema_of(t) == Some(schema_view(s@)),
        },
{
    proof {
        reveal_strlit("hash");
        reveal_strlit("files");
        reveal_strlit("source");
        reveal_strlit("root_cause");
        reveal_strlit("scope");
        reveal_strlit("tier");
        reveal_strlit("status");
        reveal_strlit("phase_number");
        reveal_strlit("contract");
        reveal_strlit("module");
        reveal_strlit("reason");
        reveal_strlit("target_phase");
        reveal_strlit("note_type");
        reveal_strlit("step_ref");
        reveal_strlit("plan_ref");
        reveal_strlit("severity");
        reveal_strlit("origin_phase");
        reveal_strlit("session_date");
        reveal_strlit("entries_created");
        reveal_strlit("entries_updated");
        reveal_strlit("entries_deleted");
    }
    let r: Option<&'static [(&'static str, FieldKind)]> = match t {
        EntryType::Decision => None,
        EntryType::Commit => Some(&[("hash", FieldKind::Text), ("files", FieldKind::TextList)]),
        EntryType::Constraint => Some(&[("source", FieldKind::Text)]),
        EntryType::Lesson => Some(&[("root_cause", FieldKind::Text)]),
        EntryType::Plan => Some(
            &[("scope", FieldKind::Text), ("tier", FieldKind::Text), ("status", FieldKind::Text)],
        ),
        EntryType::Feature => Some(&[("status", FieldKind::Text)]),
        EntryType::Stub => Some(
            &[
                ("phase_number", FieldKind::Count),
                ("contract", FieldKind::Text),
                ("module", FieldKind::Text),
                ("status", FieldKind::Text),
            ],
        ),
        EntryType::Deferred => Some(&[("reason", FieldKind::Text), ("target_phase", FieldKind::Count)]),
        EntryType::BuilderNote => Some(
            &[
                ("note_type", FieldKind::Text),
                ("step_ref", FieldKind::Text),
                ("plan_ref", FieldKind::Text),
            ],
        ),
        EntryType::TechDebt => Some(
            &[("severity", FieldKind::Text), ("origin_phase", FieldKind::Count)],
        ),
        EntryType::SessionSummary => Some(
            &[
                ("session_date", FieldKind::Text),
                ("entries_created", FieldKind::OptionalCount),
                ("entries_updated", FieldKind::OptionalCount),
                ("entries_deleted", FieldKind::OptionalCount),
            ],
        ),
    };
    proof {
        if let Some(s) = r {
            assert(schema_of(t) == Some(schema_view(s@)));
        }
    }
    r
}

/// Validates the JSON metadata of an entry against the schema of its type.
pub fn validate_update(entry_type: EntryType, data: Option<&JsonValue>) -> (r: Result<(), LoreError>)
    ensures
        r is Ok <==> data_allowed(
            entry_type,
            match data {
                Some(v) => Some(*v),
                None => None,
            },
        ),
        r is Err ==> (r matches Err(LoreError::Serialization(m)) && m@ == schema_message(entry_type)),
{
    match data {
        None => Ok(()),
        Some(v) => match schema_table(entry_type) {
            None => Ok(()),
            Some(table) => {
                if check_schema(v, table) {
                    Ok(())
                } else {
                    Err(LoreError::Serialization(schema_refusal(entry_type)))
                }
            },
        },
    }
}

fn schema_refusal(t: EntryType) -> (r: String)
    ensures
        r@ == schema_message(t),
{
    proof {
        reveal_strlit("metadata does not match the schema of ");
    }
    String::from_str("metadata does not match the schema of ").concat(t.wire_name())
}

// ---------------------------------------------------------------------------
// New entries
// ---------------------------------------------------------------------------

/// Whether a new entry passes every check.
pub open spec fn new_entry_valid(e: NewEntry) -> bool {
    &&& !is_blank(e.title@)
    &&& role_allowed(e.role@, e.entry_type)
    &&& data_allowed(e.entry_type, e.data)
}

/// Whether `err` is the refusal that the checks of a new entry give, for an
/// entry that fails them: the first failing check decides.
pub open spec fn new_entry_refusal(e: NewEntry, err: LoreError) -> bool {
    if is_blank(e.title@) {
        err matches LoreError::Validation(m) && m@ == "title cannot be empty"@
    } else if !role_allowed(e.role@, e.entry_type) {
        err matches LoreError::RoleViolation { role, entry_type } && role@ == e.role@
            && entry_type@ == variant_name(e.entry_type)
    } else {
        err matches LoreError::Serialization(m) && m@ == schema_message(e.entry_type)
    }
}

/// Validates a new entry: its title is not blank, its role may write its type,
/// and its metadata matches its type's schema, checked in that order.
pub fn validate_new_entry(entry: &NewEntry) -> (r: Result<(), LoreError>)
    ensures
        r is Ok <==> new_entry_valid(*entry),
        r matches Err(e) ==> new_entry_refusal(*entry, e),
{
    if blank_text(entry.title.as_str()) {
        proof {
            reveal_strlit("title cannot be empty");
        }
        return Err(LoreError::Validation(String::from_str("title cannot be empty")));
    }
    match validate_role(entry.role.as_str(), entry.entry_type) {
        Ok(()) => {},
        Err(e) => {
            return Err(e);
        },
    }
    let data = match &entry.data {
        Some(v) => Some(v),
        None => None,
    };
    validate_update(entry.entry_type, data)
}

// ---------------------------------------------------------------------------
// Status state machines
// ---------------------------------------------------------------------------

/// Whether a status change from `current` to `next` is permitted for type `t`:
/// keeping a status always is; a PLAN moves only from `planned` to `executed`
/// or `abandoned`; a STUB only from `open` to `resolved`; other types have no
/// state machine.
pub open spec fn transition_allowed(t: EntryType, current: Seq<char>, next: Seq<char>) -> bool {
    if current == next {
        true
    } else {
        match t {
            EntryType::Plan => current == "planned"@ && (next == "executed"@ || next
                == "abandoned"@),
            EntryType::Stub => current == "open"@ && next == "resolved"@,
            _ => true,
        }
    }
}

/// The message of a refused PLAN transition.
pub open spec fn plan_transition_message(current: Seq<char>, next: Seq<char>) -> Seq<char> {
    "PLAN state transition `"@ + current + "` -> `"@ + next
        + "` is not permitted; allowed: planned->executed, planned->abandoned"@
}

/// The message of a refused STUB transition.
pub open spec fn stub_transition_message(current: Seq<char>, next: Seq<char>) -> Seq<char> {
    "STUB state transition `"@ + current + "` -> `"@ + next
        + "` is not permitted; allowed: open->resolved"@
}

/// Validates that a change of the `data.status` field is legal; when either
/// status is absent the check is skipped.
pub fn validate_state_transition(
    entry_type: EntryType,
    current_status: Option<&str>,
    new_status: Option<&str>,
) -> (r: Result<(), LoreError>)
    ensures
        (current_status is None || new_status is None) ==> r is Ok,
        current_status is Some && new_status is Some ==> (r is Ok <==> transition_allowed(
            entry_type,
            current_status.unwrap()@,
            new_status.unwrap()@,
        )),
        r is Err && entry_type == EntryType::Plan ==> (r matches Err(LoreError::Validation(m))
            && m@ == plan_transition_message(current_status.unwrap()@, new_status.unwrap()@)),
        r is Err && entry_type == EntryType::Stub ==> (r matches Err(LoreError::Validation(m))
            && m@ == stub_transition_message(current_status.unwrap()@, new_status.unwrap()@)),
        r is Err ==> (entry_type == EntryType::Plan || entry_type == EntryType::Stub),
{
    let (current, next) = match (current_status, new_status) {
        (Some(c), Some(n)) => (c, n),
        _ => {
            return Ok(());
        },
    };
    if same_text(current, next) {
        return Ok(());
    }
    proof {
        reveal_strlit("planned");
        reveal_strlit("executed");
        reveal_strlit("abandoned");
        reveal_strlit("open");
        reveal_strlit("resolved");
        reveal_strlit("PLAN state transition `");
        reveal_strlit("STUB state transition `");
        reveal_strlit("` -> `");
        reveal_strlit("` is not permitted; allowed: planned->executed, planned->abandoned");
        reveal_strlit("` is not permitted; allowed: open->resolved");
    }
    match entry_type {
        EntryType::Plan => {
            let valid = same_text(current, "planned") && (same_text(next, "executed")
                || same_text(next, "abandoned"));
            if !valid {
                let msg = String::from_str("PLAN state transition `").concat(current).concat(
                    "` -> `",
                ).concat(next).concat(
                    "` is not permitted; allowed: planned->executed, planned->abandoned",
                );
                return Err(LoreError::Validation(msg));
            }
        },
        EntryType::Stub => {
            let valid = same_text(current, "open") && same_text(next, "resolved");
            if !valid {
                let msg = String::from_str("STUB state transition `").concat(current).concat(
                    "` -> `",
                ).concat(next).concat("` is not permitted; allowed: open->resolved");
                return Err(LoreError::Validation(msg));
            }
        },
        _ => {},
    }
    Ok(())
}

/// A status that has left `planned` (or `open`, for a STUB) can never change again:
/// for PLAN and STUB entries, every permitted change starts from the initial
/// status and ends in a status that permits no further change.
pub proof fn lemma_transitions_are_final(t: EntryType, current: Seq<char>, next: Seq<char>, later: Seq<char>)
    requires
        t == EntryType::Plan || t == EntryType::Stub,
        current != next,
        transition_allowed(t, current, next),
        later != next,
    ensures
        !transition_allowed(t, next, later),
{
    reveal_strlit("planned");
    reveal_strlit("executed");
    reveal_strlit("abandoned");
    reveal_strlit("open");
    reveal_strlit("resolved");
    if t == EntryType::Plan {
        assert(next == "executed"@ || next == "abandoned"@);
        assert(next != "planned"@) by {
            assert(next[0] != "planned"@[0] || next.len() != "planned"@.len());
        }
    } else {
        assert(next == "resolved"@);
        assert(next != "open"@) by {
            assert(next.len() != "open"@.len());
        }
    }
}

/// The status machines: a PLAN may change status only from `planned` to
/// `executed` or `abandoned`, a STUB only from `open` to `resolved`; entries of
/// other types change status freely, and keeping a status is always allowed.
pub proof fn lemma_status_machines(t: EntryType, current: Seq<char>, next: Seq<char>)
    ensures
        current == next ==> transition_allowed(t, current, next),
        current != next && t == EntryType::Plan ==> (transition_allowed(t, current, next) <==> (
        current == "planned"@ && (next == "executed"@ || next == "abandoned"@))),
        current != next && t == EntryType::Stub ==> (transition_allowed(t, current, next) <==> (
        current == "open"@ && next == "resolved"@)),
        t != EntryType::Plan && t != EntryType::Stub ==> transition_allowed(t, current, next),
{
}

/// No permitted PLAN or STUB change can be undone.
pub proof fn lemma_no_revert(t: EntryType, current: Seq<char>, next: Seq<char>)
    requires
        current != next,
        transition_allowed(t, current, next),
        t == EntryType::Plan || t == EntryType::Stub,
    ensures
        !transition_allowed(t, next, current),
{
    lemma_transitions_are_final(t, current, next, current);
}

// ---------------------------------------------------------------------------
// Related entries
// ---------------------------------------------------------------------------

/// Whether `c` is a hexadecimal digit (either case).
pub open spec fn is_hex_digit(c: char) -> bool {
    ('0' <= c && c <= '9') || ('a' <= c && c <= 'f') || ('A' <= c && c <= 'F')
}

/// The simple form of a UUID: 32 hexadecimal digits.
pub open spec fn simple_uuid(s: Seq<char>) -> bool {
    s.len() == 32 && forall|i: int| 0 <= i < 32 ==> is_hex_digit(#[trigger] s[i])
}

/// The hyphenated form of a UUID: 36 chars, hyphens at 8, 13, 18 and 23,
/// hexadecimal digits elsewhere.
pub open spec fn hyphenated_uuid(s: Seq<char>) -> bool {
    s.len() == 36 && forall|i: int|
        0 <= i < 36 ==> if i == 8 || i == 13 || i == 18 || i == 23 {
            #[trigger] s[i] == '-'
        } else {
            is_hex_digit(s[i])
        }
}

/// Whether `uuid::Uuid::parse_str` accepts `s`: the simple form, the
/// hyphenated form, the hyphenated form in braces, or the hyphenated form
/// after `urn:uuid:` (that prefix in any ASCII case).
pub open spec fn uuid_parses(s: Seq<char>) -> bool {
    ||| simple_uuid(s)
    ||| hyphenated_uuid(s)
    ||| (s.len() == 38 && s[0] == '{' && s[37] == '}' && hyphenated_uuid(s.subrange(1, 37)))
    ||| (s.len() == 45 && ascii_lowercase(s.take(9)) == "urn:uuid:"@ && hyphenated_uuid(s.skip(9)))
}

/// Whether `s` is a well-formed UUID (calls `uuid::Uuid::parse_str`).
///
/// Claims that the answer is `uuid_parses(s)`, the forms that `try_parse`
/// accepts (it reads bytes; a char outside ASCII is never one of the accepted
/// digits, hyphens, braces or prefix letters, so reading chars agrees).
#[verifier::external_body]
fn uuid_text_is_valid(s: &str) -> (r: bool)
    ensures
        r == uuid_parses(s@),
{
    uuid::Uuid::parse_str(s).is_ok()
}

/// Whether every id of `ids` is a well-formed UUID.
pub open spec fn all_uuids(ids: Seq<EntryId>) -> bool {
    forall|i: int| 0 <= i < ids.len() ==> uuid_parses((#[trigger] ids[i]).0@)
}

/// The message of a refused link.
pub open spec fn link_message(id: Seq<char>) -> Seq<char> {
    "related_entry `"@ + id + "` is not a valid UUID"@
}

/// Whether `err` is the refusal of the links `ids`: it names the first malformed one.
pub open spec fn link_refusal(ids: Seq<EntryId>, err: LoreError) -> bool {
    exists|k: int|
        0 <= k < ids.len() && !uuid_parses(ids[k].0@) && (forall|j: int|
            0 <= j < k ==> uuid_parses((#[trigger] ids[j]).0@)) && (err matches LoreError::Validation(
            m,
        ) && m@ == link_message(ids[k].0@))
}

/// Validates that all entries in `related_entries` are valid UUIDs; the first
/// malformed one is named in the error.
pub fn validate_related_entries(ids: &[EntryId]) -> (r: Result<(), LoreError>)
    ensures
        r is Ok <==> all_uuids(ids@),
        r matches Err(e) ==> link_refusal(ids@, e),
{
    let mut i: usize = 0;
    while i < ids.len()
        invariant
            i <= ids@.len(),
            forall|j: int| 0 <= j < i ==> uuid_parses((#[trigger] ids@[j]).0@),
        decreases ids@.len() - i,
    {
        if !uuid_text_is_valid(ids[i].0.as_str()) {
            proof {
                reveal_strlit("related_entry `");
                reveal_strlit("` is not a valid UUID");
            }
            let msg = String::from_str("related_entry `").concat(ids[i].0.as_str()).concat(
                "` is not a valid UUID",
            );
            let e = LoreError::Validation(msg);
            assert(e matches LoreError::Validation(m) && m@ == link_message(ids@[i as int].0@));
            return Err(e);
        }
        i = i + 1;
    }
    Ok(())
}

} // verus!
