//! What the repository decides around its queries: the entry it stores, the
//! merge it writes on update, what a fetch answers, the statistics it reports
//! and the text it searches for duplicates with.

use super::repository::MemoryStats;
use crate::error::LoreError;
use crate::model::entry::{tags_normalized, Entry, EntryId, NewEntry, Timestamp, UpdateEntry};
use crate::model::json::{status_of, JsonValue};
use crate::model::types::{parse_wire_name, EntryType};
use crate::model::validation::{
    all_uuids, data_allowed, link_refusal, new_entry_refusal, new_entry_valid, role_allowed,
    schema_message, transition_allowed, plan_transition_message, stub_transition_message, uuid_parses, hyphenated_uuid,
    validate_new_entry, validate_related_entries, validate_state_transition,
};
use crate::text::{is_blank, push_char, trimmed};
use vstd::prelude::*;

verus! {

/// The links of an input, or none.
pub open spec fn ids_or_empty(o: Option<Vec<EntryId>>) -> Seq<EntryId> {
    match o {
        Some(v) => v@,
        None => Seq::empty(),
    }
}

/// The tags of an input, or none.
pub open spec fn tags_or_empty(o: Option<Vec<String>>) -> Seq<String> {
    match o {
        Some(v) => v@,
        None => Seq::empty(),
    }
}

/// The metadata of an input, or `null`.
pub open spec fn data_or_null(o: Option<JsonValue>) -> JsonValue {
    match o {
        Some(v) => v,
        None => JsonValue::Null,
    }
}

/// Whether `e` is the entry that storing `input` under `id` at `now` creates.
pub open spec fn stored_as(e: Entry, input: NewEntry, id: Seq<char>, now: Timestamp) -> bool {
    &&& e.id.0@ == id
    &&& e.entry_type == input.entry_type
    &&& e.title == input.title
    &&& e.body == input.body
    &&& e.role == input.role
    &&& tags_normalized(tags_or_empty(input.tags), e.tags@)
    &&& e.related_entries@ == ids_or_empty(input.related_entries)
    &&& e.created_at == now
    &&& e.updated_at == now
    &&& !e.is_deleted
    &&& e.access_count == 0
    &&& e.last_accessed_at is None
    &&& e.data == data_or_null(input.data)
}

/// The entry to insert for `input`, given the fresh `id` and the current time:
/// tags are normalized, then the entry is validated (title, role, metadata)
/// and its links are checked.
pub fn prepare_store(input: NewEntry, id: String, now: Timestamp) -> (r: Result<Entry, LoreError>)
    ensures
        r is Ok <==> new_entry_valid(input) && all_uuids(ids_or_empty(input.related_entries)),
        r matches Err(e) ==> if !new_entry_valid(input) {
            new_entry_refusal(input, e)
        } else {
            link_refusal(ids_or_empty(input.related_entries), e)
        },
        r matches Ok(e) ==> stored_as(e, input, id@, now),
{
    let mut input = input;
    let ghost original = input;
    input.normalize_tags();
    assert(new_entry_valid(input) == new_entry_valid(original));
    match validate_new_entry(&input) {
        Ok(()) => {},
        Err(e) => {
            return Err(e);
        },
    }
    match &input.related_entries {
        Some(related) => match validate_related_entries(related.as_slice()) {
            Ok(()) => {},
            Err(e) => {
                return Err(e);
            },
        },
        None => {},
    }
    let NewEntry { entry_type, title, body, role, tags, related_entries, data } = input;
    let tags = match tags {
        Some(t) => t,
        None => Vec::new(),
    };
    let related_entries = match related_entries {
        Some(v) => v,
        None => Vec::new(),
    };
    let data = match data {
        Some(v) => v,
        None => JsonValue::Null,
    };
    Ok(
        Entry {
            id: EntryId(id),
            entry_type,
            title,
            body,
            role,
            tags,
            related_entries,
            created_at: now,
            updated_at: now,
            is_deleted: false,
            access_count: 0,
            last_accessed_at: None,
            data,
        },
    )
}

/// A fresh entry id (calls `uuid::Uuid::now_v7` and formats it with `to_string`).
///
/// Claims what holds of every outcome: the text is the hyphenated form (36
/// chars, hyphens at 8, 13, 18 and 23, hexadecimal digits elsewhere). Which id comes out (it depends on
/// the clock and on chance) is left unsaid.
#[verifier::external_body]
fn fresh_entry_id() -> (r: String)
    ensures
        hyphenated_uuid(r@),
{
    uuid::Uuid::now_v7().to_string()
}

/// The current UTC time (calls `chrono::Utc::now`), as seconds and
/// nanoseconds since the epoch.
///
/// Claims what holds of every reading: `Utc::now` builds it from the time
/// since the epoch (it panics on a clock set before 1970), so the seconds are
/// not negative and the nanoseconds stay below one second. Which instant it
/// is, is left unsaid.
#[verifier::external_body]
fn current_time() -> (r: Timestamp)
    ensures
        r.secs >= 0,
        r.nanos < 1_000_000_000,
{
    let t = chrono::Utc::now();
    Timestamp { secs: t.timestamp(), nanos: t.timestamp_subsec_nanos() }
}

/// The entry to insert for `input`, under a fresh UUID v7 and the current
/// time: whatever id and time come back, the entry is the one that
/// `prepare_store` makes of them, and its id is a well-formed UUID.
pub fn new_stored_entry(input: NewEntry) -> (r: Result<Entry, LoreError>)
    ensures
        r is Ok <==> new_entry_valid(input) && all_uuids(ids_or_empty(input.related_entries)),
        r matches Err(e) ==> if !new_entry_valid(input) {
            new_entry_refusal(input, e)
        } else {
            link_refusal(ids_or_empty(input.related_entries), e)
        },
        r matches Ok(e) ==> stored_as(e, input, e.id.0@, e.created_at) && uuid_parses(e.id.0@)
            && e.id.0@.len() == 36,
{
    let id = fresh_entry_id();
    let now = current_time();
    prepare_store(input, id, now)
}

/// What a fetch by `id` answers, given the row read (if any): a missing or
/// deleted entry is not found.
pub fn check_fetched(row: Option<Entry>, id: &str) -> (r: Result<Entry, LoreError>)
    ensures
        match row {
            Some(e) if !e.is_deleted => r == Ok::<Entry, LoreError>(e),
            _ => r matches Err(LoreError::NotFound(m)) && m@ == id@,
        },
{
    match row {
        Some(e) => {
            if e.is_deleted {
                Err(LoreError::NotFound(String::from_str(id)))
            } else {
                Ok(e)
            }
        },
        None => Err(LoreError::NotFound(String::from_str(id))),
    }
}

/// What a soft delete of `id` answers, given the number of rows it marked.
pub fn check_deleted(rows: usize, id: &str) -> (r: Result<(), LoreError>)
    ensures
        rows > 0 ==> r is Ok,
        rows == 0 ==> (r matches Err(LoreError::NotFound(m)) && m@ == id@),
{
    if rows == 0 {
        Err(LoreError::NotFound(String::from_str(id)))
    } else {
        Ok(())
    }
}

/// The status of the metadata an update brings, if any.
pub open spec fn incoming_status(u: UpdateEntry) -> Option<Seq<char>> {
    match u.data {
        Some(d) => status_of(d),
        None => None,
    }
}

/// Whether the status change that `u` brings to `ex` is permitted.
pub open spec fn update_transition_ok(ex: Entry, u: UpdateEntry) -> bool {
    match (status_of(ex.data), incoming_status(u)) {
        (Some(c), Some(n)) => transition_allowed(ex.entry_type, c, n),
        _ => true,
    }
}

/// The title after the update.
pub open spec fn merged_title(ex: Entry, u: UpdateEntry) -> String {
    match u.title {
        Some(t) => t,
        None => ex.title,
    }
}

/// The body after the update.
pub open spec fn merged_body(ex: Entry, u: UpdateEntry) -> Option<String> {
    match u.body {
        Some(b) => Some(b),
        None => ex.body,
    }
}

/// The links after the update.
pub open spec fn merged_links(ex: Entry, u: UpdateEntry) -> Seq<EntryId> {
    match u.related_entries {
        Some(v) => v@,
        None => ex.related_entries@,
    }
}

/// The metadata after the update.
pub open spec fn merged_data(ex: Entry, u: UpdateEntry) -> JsonValue {
    match u.data {
        Some(d) => d,
        None => ex.data,
    }
}

/// Whether the merged entry passes the checks of a new entry.
pub open spec fn merged_valid(ex: Entry, u: UpdateEntry) -> bool {
    &&& !is_blank(merged_title(ex, u)@)
    &&& role_allowed(ex.role@, ex.entry_type)
    &&& data_allowed(ex.entry_type, Some(merged_data(ex, u)))
}

/// Whether `e` is what updating `ex` with `u` under `id` at `now` writes:
/// present fields replace the stored ones (tags normalized), everything else is kept.
pub open spec fn updated_as(e: Entry, ex: Entry, u: UpdateEntry, id: Seq<char>, now: Timestamp) -> bool {
    &&& e.id.0@ == id
    &&& e.entry_type == ex.entry_type
    &&& e.title == merged_title(ex, u)
    &&& e.body == merged_body(ex, u)
    &&& e.role == ex.role
    &&& (match u.tags {
        Some(v) => tags_normalized(v@, e.tags@),
        None => e.tags == ex.tags,
    })
    &&& e.related_entries@ == merged_links(ex, u)
    &&& e.created_at == ex.created_at
    &&& e.updated_at == now
    &&& !e.is_deleted
    &&& e.access_count == ex.access_count
    &&& e.last_accessed_at == ex.last_accessed_at
    &&& e.data == merged_data(ex, u)
}

/// Whether `err` is the refusal of a merged entry that fails the checks of a new entry.
pub open spec fn merged_refusal(ex: Entry, u: UpdateEntry, err: LoreError) -> bool {
    if is_blank(merged_title(ex, u)@) {
        err matches LoreError::Validation(m) && m@ == "title cannot be empty"@
    } else if !role_allowed(ex.role@, ex.entry_type) {
        err matches LoreError::RoleViolation { role, entry_type } && role@ == ex.role@
            && entry_type@ == crate::model::types::variant_name(ex.entry_type)
    } else {
        err matches LoreError::Serialization(m) && m@ == schema_message(ex.entry_type)
    }
}

/// Whether `err` is the refusal of a status change from `ex` that `u` brings.
pub open spec fn transition_refusal(ex: Entry, u: UpdateEntry, err: LoreError) -> bool {
    let c = status_of(ex.data).unwrap();
    let n = incoming_status(u).unwrap();
    if ex.entry_type == EntryType::Plan {
        err matches LoreError::Validation(m) && m@ == plan_transition_message(c, n)
    } else {
        err matches LoreError::Validation(m) && m@ == stub_transition_message(c, n)
    }
}

/// The entry to write when `update` is applied to the stored row `existing` of
/// `id` at time `now`. A missing or deleted entry is not found; then the status
/// change is checked, the tags normalized, the fields merged, the links and the
/// merged entry validated, in that order.
pub fn prepare_update(existing: Option<Entry>, id: &str, update: UpdateEntry, now: Timestamp) -> (r:
    Result<Entry, LoreError>)
    ensures
        match existing {
            Some(ex) if !ex.is_deleted => {
                &&& (r is Ok <==> update_transition_ok(ex, update) && all_uuids(
                    merged_links(ex, update),
                ) && merged_valid(ex, update))
                &&& r matches Ok(e) ==> updated_as(e, ex, update, id@, now)
                &&& r matches Err(err) ==> if !update_transition_ok(ex, update) {
                    transition_refusal(ex, update, err)
                } else if !all_uuids(merged_links(ex, update)) {
                    link_refusal(merged_links(ex, update), err)
                } else {
                    merged_refusal(ex, update, err)
                }
            },
            _ => r matches Err(LoreError::NotFound(m)) && m@ == id@,
        },
{
    let ex = match existing {
        Some(e) => e,
        None => {
            return Err(LoreError::NotFound(String::from_str(id)));
        },
    };
    if ex.is_deleted {
        return Err(LoreError::NotFound(String::from_str(id)));
    }
    let mut update = update;
    {
        let current_status = ex.data.status();
        let new_status = match &update.data {
            Some(d) => d.status(),
            None => None,
        };
        match validate_state_transition(ex.entry_type, current_status, new_status) {
            Ok(()) => {},
            Err(e) => {
                return Err(e);
            },
        }
    }
    update.normalize_tags();
    let UpdateEntry { title, body, tags, related_entries, data } = update;
    let Entry {
        id: _,
        entry_type,
        title: ex_title,
        body: ex_body,
        role,
        tags: ex_tags,
        related_entries: ex_related,
        created_at,
        updated_at: _,
        is_deleted: _,
        access_count,
        last_accessed_at,
        data: ex_data,
    } = ex;
    let title = match title {
        Some(t) => t,
        None => ex_title,
    };
    let body = match body {
        Some(b) => Some(b),
        None => ex_body,
    };
    let tags = match tags {
        Some(t) => t,
        None => ex_tags,
    };
    let related = match related_entries {
        Some(v) => v,
        None => ex_related,
    };
    match validate_related_entries(related.as_slice()) {
        Ok(()) => {},
        Err(e) => {
            return Err(e);
        },
    }
    let data = match data {
        Some(d) => d,
        None => ex_data,
    };
    let merged = NewEntry {
        entry_type,
        title,
        body,
        role,
        tags: Some(tags),
        related_entries: Some(related),
        data: Some(data),
    };
    match validate_new_entry(&merged) {
        Ok(()) => {},
        Err(e) => {
            return Err(e);
        },
    }
    let NewEntry { entry_type, title, body, role, tags, related_entries, data } = merged;
    let tags = match tags {
        Some(t) => t,
        None => Vec::new(),
    };
    let related = match related_entries {
        Some(v) => v,
        None => Vec::new(),
    };
    let data = match data {
        Some(d) => d,
        None => JsonValue::Null,
    };
    Ok(
        Entry {
            id: EntryId(String::from_str(id)),
            entry_type,
            title,
            body,
            role,
            tags,
            related_entries: related,
            created_at,
            updated_at: now,
            is_deleted: false,
            access_count,
            last_accessed_at,
            data,
        },
    )
}

/// A stored entry is live and carries the id it was stored under, so a fetch
/// by that id gives it back; it starts unread, created and updated at once.
pub proof fn lemma_stored_entry_is_fetchable(e: Entry, input: NewEntry, id: Seq<char>, now: Timestamp)
    requires
        stored_as(e, input, id, now),
    ensures
        !e.is_deleted,
        e.id.0@ == id,
        e.created_at == e.updated_at,
        e.access_count == 0,
{
}

/// An update that brings no field changes nothing but the update time: the
/// written entry has the stored entry's type, title, body, role, tags, links,
/// metadata, creation time and read count.
pub proof fn lemma_empty_update_keeps_entry(e: Entry, ex: Entry, u: UpdateEntry, id: Seq<char>, now: Timestamp)
    requires
        u.title is None,
        u.body is None,
        u.tags is None,
        u.related_entries is None,
        u.data is None,
        updated_as(e, ex, u, id, now),
    ensures
        e.entry_type == ex.entry_type,
        e.title == ex.title,
        e.body == ex.body,
        e.role == ex.role,
        e.tags == ex.tags,
        e.related_entries@ == ex.related_entries@,
        e.data == ex.data,
        e.created_at == ex.created_at,
        e.access_count == ex.access_count,
        e.last_accessed_at == ex.last_accessed_at,
        e.updated_at == now,
        !e.is_deleted,
{
}

/// An update that brings no field and finds a live entry is refused only for
/// what the stored entry already breaks: with a permitted status (there is
/// no incoming one), it succeeds exactly when the stored links are UUIDs and
/// the stored entry passes the checks of a new entry.
pub proof fn lemma_empty_update_succeeds_on_valid_entry(ex: Entry, u: UpdateEntry)
    requires
        u.title is None,
        u.body is None,
        u.tags is None,
        u.related_entries is None,
        u.data is None,
    ensures
        update_transition_ok(ex, u),
        merged_links(ex, u) == ex.related_entries@,
        merged_valid(ex, u) <==> (!is_blank(ex.title@) && role_allowed(ex.role@, ex.entry_type)
            && data_allowed(ex.entry_type, Some(ex.data))),
{
}

/// The entry to write when `update` is applied to the stored row `existing`
/// of `id` now: whatever time the clock gives, the result is what
/// `prepare_update` gives for it, stamped with that time.
pub fn updated_entry(existing: Option<Entry>, id: &str, update: UpdateEntry) -> (r: Result<Entry, LoreError>)
    ensures
        match existing {
            Some(ex) if !ex.is_deleted => {
                &&& (r is Ok <==> update_transition_ok(ex, update) && all_uuids(
                    merged_links(ex, update),
                ) && merged_valid(ex, update))
                &&& r matches Ok(e) ==> updated_as(e, ex, update, id@, e.updated_at)
                &&& r matches Err(err) ==> if !update_transition_ok(ex, update) {
                    transition_refusal(ex, update, err)
                } else if !all_uuids(merged_links(ex, update)) {
                    link_refusal(merged_links(ex, update), err)
                } else {
                    merged_refusal(ex, update, err)
                }
            },
            _ => r matches Err(LoreError::NotFound(m)) && m@ == id@,
        },
{
    let now = current_time();
    prepare_update(existing, id, update, now)
}

// ---------------------------------------------------------------------------
// Statistics
// ---------------------------------------------------------------------------

/// The type a stored type name counts under: unknown names count as STUB.
pub open spec fn counted_type(s: Seq<char>) -> EntryType {
    match parse_wire_name(s) {
        Some(t) => t,
        None => EntryType::Stub,
    }
}

/// A row count as the statistics report it: SQLite counts in `i64`, and a
/// count below zero (which a count query never gives) is reported as 0.
pub fn row_count(n: i64) -> (r: u64)
    ensures
        r == (if n < 0 { 0 } else { n as int }),
{
    if n < 0 {
        0
    } else {
        n as u64
    }
}

/// The statistics built from the counts that the queries read: the total and
/// last update as read, each per-type count under its parsed type (unknown
/// names count as STUB), and the per-status counts as read.
pub fn assemble_stats(
    total: u64,
    last_updated: Option<Timestamp>,
    type_rows: Vec<(String, u64)>,
    status_rows: Vec<(String, u64)>,
) -> (r: MemoryStats)
    ensures
        r.total == total,
        r.last_updated == last_updated,
        r.by_status == status_rows,
        r.by_type@.len() == type_rows@.len(),
        forall|i: int|
            0 <= i < type_rows@.len() ==> (#[trigger] r.by_type@[i]).0 == counted_type(
                type_rows@[i].0@,
            ) && r.by_type@[i].1 == type_rows@[i].1,
{
    let mut by_type: Vec<(EntryType, u64)> = Vec::new();
    let mut i: usize = 0;
    while i < type_rows.len()
        invariant
            i <= type_rows@.len(),
            by_type@.len() == i,
            forall|j: int|
                0 <= j < i ==> (#[trigger] by_type@[j]).0 == counted_type(type_rows@[j].0@)
                    && by_type@[j].1 == type_rows@[j].1,
        decreases type_rows@.len() - i,
    {
        let t = match EntryType::from_wire_name(type_rows[i].0.as_str()) {
            Some(t) => t,
            None => EntryType::Stub,
        };
        by_type.push((t, type_rows[i].1));
        i = i + 1;
    }
    MemoryStats { total, by_type, by_status: status_rows, last_updated }
}

// ---------------------------------------------------------------------------
// Duplicate search
// ---------------------------------------------------------------------------

/// The text a duplicate search starts from: the title, followed by a space and
/// the body when the body is present and not empty.
pub open spec fn similarity_source(title: Seq<char>, body: Option<Seq<char>>) -> Seq<char> {
    match body {
        Some(b) if b.len() > 0 => title + seq![' '] + b,
        _ => title,
    }
}

/// Whether `c` is kept in a full-text query: ASCII letters, digits and spaces.
pub open spec fn query_char_kept(c: char) -> bool {
    ('a' <= c && c <= 'z') || ('A' <= c && c <= 'Z') || ('0' <= c && c <= '9') || c == ' '
}

/// `s` with every char that a full-text query cannot hold replaced by a space.
pub open spec fn sanitized(s: Seq<char>) -> Seq<char> {
    s.map_values(|c: char| if query_char_kept(c) { c } else { ' ' })
}

/// Sanitizing keeps the length, keeps every ASCII letter, ASCII digit and
/// space where it stands, and puts a space in place of every other char.
pub proof fn lemma_sanitized_chars(s: Seq<char>)
    ensures
        sanitized(s).len() == s.len(),
        forall|i: int|
            0 <= i < s.len() ==> (#[trigger] sanitized(s)[i] == if ('a' <= s[i] && s[i] <= 'z') || (
            'A' <= s[i] && s[i] <= 'Z') || ('0' <= s[i] && s[i] <= '9') || s[i] == ' ' {
                s[i]
            } else {
                ' '
            }),
{
}

/// The full-text query that a duplicate search runs for an entry with `title`
/// and `body`: the sanitized source text, trimmed; `None` when nothing is left.
pub fn similarity_query(title: &str, body: Option<&str>) -> (r: Option<String>)
    ensures
        ({
            let b = match body {
                Some(x) => Some(x@),
                None => None,
            };
            let q = trimmed(sanitized(similarity_source(title@, b)));
            match r {
                Some(s) => q.len() > 0 && s@ == q,
                None => q.len() == 0,
            }
        }),
{
    let ghost b = match body {
        Some(x) => Some(x@),
        None => None,
    };
    let mut source = String::from_str(title);
    match body {
        Some(x) => {
            if x.unicode_len() > 0 {
                push_char(&mut source, ' ');
                source.append(x);
            }
        },
        None => {},
    }
    assert(source@ == similarity_source(title@, b));
    let n = source.as_str().unicode_len();
    let mut clean = String::new();
    let mut i: usize = 0;
    while i < n
        invariant
            n == source@.len(),
            i <= n,
            clean@ == sanitized(source@.take(i as int)),
        decreases n - i,
    {
        let c = source.as_str().get_char(i);
        let kept = ('a' <= c && c <= 'z') || ('A' <= c && c <= 'Z') || ('0' <= c && c <= '9')
            || c == ' ';
        if kept {
            push_char(&mut clean, c);
        } else {
            push_char(&mut clean, ' ');
        }
        i = i + 1;
        assert(clean@ =~= sanitized(source@.take(i as int)));
    }
    assert(source@.take(n as int) =~= source@);
    let t = crate::text::trim_text(clean.as_str());
    if t.as_str().unicode_len() == 0 {
        None
    } else {
        Some(t)
    }
}

} // verus!
