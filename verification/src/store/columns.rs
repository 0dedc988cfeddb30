//! How an entry is laid out in the columns of its table row: the JSON texts of
//! its tags, links and metadata, and the entry read back from a row.

use crate::model::entry::{Entry, EntryId, Timestamp};
use crate::model::json::{json_from_text, json_of_text, json_text, json_text_of, JsonValue};
use crate::model::types::{parse_wire_name, EntryType};
use vstd::prelude::*;

verus! {

/// The texts of `items`.
pub open spec fn texts(items: Seq<String>) -> Seq<Seq<char>> {
    items.map_values(|s: String| s@)
}

/// The ids of `ids`, as texts.
pub open spec fn id_texts(ids: Seq<EntryId>) -> Seq<Seq<char>> {
    ids.map_values(|i: EntryId| i.0@)
}

/// The JSON text that `serde_json::to_string` writes for a list of strings.
pub uninterp spec fn text_list_json(items: Seq<Seq<char>>) -> Seq<char>;

/// The list of strings that `serde_json::from_str` reads from `text`; empty
/// when the text is not a JSON list of strings.
pub uninterp spec fn text_list_of_json(text: Seq<char>) -> Seq<Seq<char>>;

/// The JSON text of a list of strings (calls `serde_json::to_string`).
///
/// Claims only that the text is the named `text_list_json` of the strings;
/// writing strings does not fail, and an error would give the empty text.
#[verifier::external_body]
fn text_list_text(items: &Vec<String>) -> (r: String)
    ensures
        r@ == text_list_json(texts(items@)),
{
    serde_json::to_string(items).unwrap_or_default()
}

/// Reads a JSON list of strings (calls `serde_json::from_str`), giving the
/// empty list for any other text.
///
/// Claims only that the strings are the named `text_list_of_json(text)`.
#[verifier::external_body]
fn text_list_from_text(text: &str) -> (r: Vec<String>)
    ensures
        texts(r@) == text_list_of_json(text@),
{
    serde_json::from_str::<Vec<String>>(text).unwrap_or_default()
}

/// The JSON texts an entry is stored with: its tags, its links and its metadata.
pub fn stored_columns(e: &Entry) -> (r: (String, String, String))
    ensures
        r.0@ == text_list_json(texts(e.tags@)),
        r.1@ == text_list_json(id_texts(e.related_entries@)),
        r.2@ == json_text_of(e.data),
{
    let mut ids: Vec<String> = Vec::new();
    let mut i: usize = 0;
    while i < e.related_entries.len()
        invariant
            i <= e.related_entries@.len(),
            texts(ids@) == id_texts(e.related_entries@).take(i as int),
        decreases e.related_entries@.len() - i,
    {
        let id = e.related_entries[i].0.clone();
        assert(id@ == id_texts(e.related_entries@)[i as int]);
        ids.push(id);
        assert(texts(ids@) =~= id_texts(e.related_entries@).take(i as int).push(id@));
        i = i + 1;
        assert(texts(ids@) =~= id_texts(e.related_entries@).take(i as int));
    }
    assert(id_texts(e.related_entries@).take(i as int) =~= id_texts(e.related_entries@));
    (text_list_text(&e.tags), text_list_text(&ids), json_text(&e.data))
}

/// The columns of a table row, as read.
#[derive(Debug, Clone)]
pub struct StoredRow {
    pub id: String,
    pub entry_type: String,
    pub title: String,
    pub body: Option<String>,
    pub role: String,
    pub tags: String,
    pub related_entries: String,
    pub created_at: Timestamp,
    pub updated_at: Timestamp,
    pub is_deleted: bool,
    pub data: String,
    pub access_count: i64,
    pub last_accessed_at: Option<Timestamp>,
}

/// The entry a row holds: its type read from the stored type name, its
/// tags and links read from their JSON lists (empty when unreadable), its
/// metadata read from its JSON text (`null` when unreadable), the other
/// columns as read. `None` when the type name is unknown.
pub fn entry_from_row(row: StoredRow) -> (r: Option<Entry>)
    ensures
        match parse_wire_name(row.entry_type@) {
            None => r is None,
            Some(t) => r matches Some(e) && {
                &&& e.id.0 == row.id
                &&& e.entry_type == t
                &&& e.title == row.title
                &&& e.body == row.body
                &&& e.role == row.role
                &&& texts(e.tags@) == text_list_of_json(row.tags@)
                &&& id_texts(e.related_entries@) == text_list_of_json(row.related_entries@)
                &&& e.created_at == row.created_at
                &&& e.updated_at == row.updated_at
                &&& e.is_deleted == row.is_deleted
                &&& e.data == json_of_text(row.data@)
                &&& e.access_count == row.access_count
                &&& e.last_accessed_at == row.last_accessed_at
            },
        },
{
    let entry_type = match EntryType::from_wire_name(row.entry_type.as_str()) {
        Some(t) => t,
        None => {
            return None;
        },
    };
    let tags = text_list_from_text(row.tags.as_str());
    let links = text_list_from_text(row.related_entries.as_str());
    let data: JsonValue = json_from_text(row.data.as_str());
    let mut related: Vec<EntryId> = Vec::new();
    let mut i: usize = 0;
    while i < links.len()
        invariant
            i <= links@.len(),
            id_texts(related@) == texts(links@).take(i as int),
        decreases links@.len() - i,
    {
        let link = links[i].clone();
        assert(link@ == texts(links@)[i as int]);
        related.push(EntryId(link));
        assert(id_texts(related@) =~= texts(links@).take(i as int).push(link@));
        i = i + 1;
        assert(id_texts(related@) =~= texts(links@).take(i as int));
    }
    assert(texts(links@).take(i as int) =~= texts(links@));
    let StoredRow {
        id,
        entry_type: _,
        title,
        body,
        role,
        tags: _,
        related_entries: _,
        created_at,
        updated_at,
        is_deleted,
        data: _,
        access_count,
        last_accessed_at,
    } = row;
    Some(
        Entry {
            id: EntryId(id),
            entry_type,
            title,
            body,
            role,
            tags,
            related_entries: related,
            created_at,
            updated_at,
            is_deleted,
            access_count,
            last_accessed_at,
            data,
        },
    )
}

} // verus!
