//! Memory entries: the stored form, the input for creating one and the input for updating one.

use super::json::JsonValue;
use super::types::EntryType;
use crate::text::{lowered, to_lowercase_text, trim_text, trimmed};
use vstd::prelude::*;

verus! {

/// The identifier of an entry (a UUID in its hyphenated text form).
#[derive(Debug, Clone, PartialEq, Eq, Hash)]
pub struct EntryId(pub String);

/// A point in time: whole seconds since the Unix epoch and the nanoseconds past them.
#[derive(Debug, Clone, Copy, PartialEq, Eq, Structural, PartialOrd, Ord)]
pub struct Timestamp {
    pub secs: i64,
    pub nanos: u32,
}

/// Whether `a` is not later than `b`.
pub open spec fn not_later(a: Timestamp, b: Timestamp) -> bool {
    a.secs < b.secs || (a.secs == b.secs && a.nanos <= b.nanos)
}

impl Timestamp {
    /// Whether `self` is not later than `other`.
    pub fn not_later_than(&self, other: &Timestamp) -> (r: bool)
        ensures
            r == not_later(*self, *other),
    {
        self.secs < other.secs || (self.secs == other.secs && self.nanos <= other.nanos)
    }
}

/// A stored memory entry.
#[derive(Debug)]
pub struct Entry {
    pub id: EntryId,
    pub entry_type: EntryType,
    pub title: String,
    pub body: Option<String>,
    pub role: String,
    pub tags: Vec<String>,
    pub related_entries: Vec<EntryId>,
    pub created_at: Timestamp,
    pub updated_at: Timestamp,
    pub is_deleted: bool,
    pub access_count: i64,
    pub last_accessed_at: Option<Timestamp>,
    pub data: JsonValue,
}

/// The input for creating an entry.
#[derive(Debug)]
pub struct NewEntry {
    pub entry_type: EntryType,
    pub title: String,
    pub body: Option<String>,
    pub role: String,
    pub tags: Option<Vec<String>>,
    pub related_entries: Option<Vec<EntryId>>,
    pub data: Option<JsonValue>,
}

/// The input for updating an entry: each field that is present replaces the stored one.
#[derive(Debug)]
pub struct UpdateEntry {
    pub title: Option<String>,
    pub body: Option<String>,
    pub tags: Option<Vec<String>>,
    pub related_entries: Option<Vec<EntryId>>,
    pub data: Option<JsonValue>,
}

impl Default for UpdateEntry {
    /// An update that changes nothing.
    fn default() -> (r: Self)
        ensures
            r.title is None,
            r.body is None,
            r.tags is None,
            r.related_entries is None,
            r.data is None,
    {
        UpdateEntry { title: None, body: None, tags: None, related_entries: None, data: None }
    }
}

/// The stored form of a tag: trimmed, then lowercased.
pub open spec fn normalized_tag(s: Seq<char>) -> Seq<char> {
    lowered(trimmed(s))
}

/// `after` is `before` with every tag normalized.
pub open spec fn tags_normalized(before: Seq<String>, after: Seq<String>) -> bool {
    &&& after.len() == before.len()
    &&& forall|i: int| 0 <= i < before.len() ==> (#[trigger] after[i])@ == normalized_tag(before[i]@)
}

/// The tags of `tags`, each normalized.
pub fn normalize_tag_list(tags: &Vec<String>) -> (r: Vec<String>)
    ensures
        tags_normalized(tags@, r@),
{
    let mut out: Vec<String> = Vec::new();
    let mut i: usize = 0;
    while i < tags.len()
        invariant
            i <= tags@.len(),
            out@.len() == i,
            forall|j: int| 0 <= j < i ==> (#[trigger] out@[j])@ == normalized_tag(tags@[j]@),
        decreases tags@.len() - i,
    {
        let t = trim_text(tags[i].as_str());
        out.push(to_lowercase_text(t.as_str()));
        i = i + 1;
    }
    out
}

impl NewEntry {
    /// Trims and lowercases every tag.
    pub fn normalize_tags(&mut self)
        ensures
            old(self).tags is None ==> final(self).tags is None,
            old(self).tags matches Some(v) ==> (final(self).tags matches Some(w) && tags_normalized(
                v@,
                w@,
            )),
            final(self).entry_type == old(self).entry_type,
            final(self).title == old(self).title,
            final(self).body == old(self).body,
            final(self).role == old(self).role,
            final(self).related_entries == old(self).related_entries,
            final(self).data == old(self).data,
    {
        let normalized = match &self.tags {
            Some(tags) => Some(normalize_tag_list(tags)),
            None => None,
        };
        self.tags = normalized;
    }
}

impl UpdateEntry {
    /// Trims and lowercases every tag.
    pub fn normalize_tags(&mut self)
        ensures
            old(self).tags is None ==> final(self).tags is None,
            old(self).tags matches Some(v) ==> (final(self).tags matches Some(w) && tags_normalized(
                v@,
                w@,
            )),
            final(self).title == old(self).title,
            final(self).body == old(self).body,
            final(self).related_entries == old(self).related_entries,
            final(self).data == old(self).data,
    {
        let normalized = match &self.tags {
            Some(tags) => Some(normalize_tag_list(tags)),
            None => None,
        };
        self.tags = normalized;
    }
}

} // verus!
