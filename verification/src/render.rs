//! Markdown rendering for memory entries.

use crate::model::entry::{not_later, Entry, Timestamp};
use crate::model::json::{json_pretty_of, pretty_json_text, JsonValue};
use crate::model::types::{heading_name, rank_of, type_at, EntryType, ENTRY_TYPE_COUNT};
use crate::text::push_char;
use vstd::prelude::*;

verus! {

// ---------------------------------------------------------------------------
// Time text
// ---------------------------------------------------------------------------

/// The RFC 3339 text that `chrono` gives for the UTC instant `secs` seconds and
/// `nanos` nanoseconds after the epoch, or `None` when the instant is out of its range.
pub uninterp spec fn rfc3339_of(secs: i64, nanos: u32) -> Option<Seq<char>>;

/// The RFC 3339 text of `ts` (calls `chrono::DateTime::<Utc>::from_timestamp`
/// and `DateTime::to_rfc3339`).
///
/// Claims only that the answer is the named result `rfc3339_of` of the instant.
#[verifier::external_body]
fn rfc3339_text(ts: Timestamp) -> (r: Option<String>)
    ensures
        match r {
            Some(s) => rfc3339_of(ts.secs, ts.nanos) == Some(s@),
            None => rfc3339_of(ts.secs, ts.nanos) is None,
        },
{
    match chrono::DateTime::<chrono::Utc>::from_timestamp(ts.secs, ts.nanos) {
        Some(d) => Some(d.to_rfc3339()),
        None => None,
    }
}

/// The creation time as the dump shows it (empty when out of range).
pub open spec fn time_text(ts: Timestamp) -> Seq<char> {
    match rfc3339_of(ts.secs, ts.nanos) {
        Some(s) => s,
        None => Seq::empty(),
    }
}

// ---------------------------------------------------------------------------
// Grouping and ordering
// ---------------------------------------------------------------------------

/// The entries of `entries` whose type is `t`, in their order.
pub open spec fn of_type(entries: Seq<Entry>, t: EntryType) -> Seq<Entry>
    decreases entries.len(),
{
    if entries.len() == 0 {
        Seq::empty()
    } else {
        of_type(entries.drop_last(), t) + (if entries.last().entry_type == t {
            seq![entries.last()]
        } else {
            Seq::empty()
        })
    }
}

/// Where `e` goes in `sorted`: after the last entry created no later than it.
pub open spec fn insert_pos(sorted: Seq<Entry>, e: Entry) -> nat
    decreases sorted.len(),
{
    if sorted.len() == 0 {
        0
    } else if not_later(sorted.last().created_at, e.created_at) {
        sorted.len()
    } else {
        insert_pos(sorted.drop_last(), e)
    }
}

/// `entries` ordered by creation time; entries created at the same time keep their order.
pub open spec fn by_creation(entries: Seq<Entry>) -> Seq<Entry>
    decreases entries.len(),
{
    if entries.len() == 0 {
        entries
    } else {
        let sorted = by_creation(entries.drop_last());
        let p = insert_pos(sorted, entries.last()) as int;
        sorted.insert(p, entries.last())
    }
}

// ---------------------------------------------------------------------------
// Text
// ---------------------------------------------------------------------------

/// `tags` separated by `", "`.
pub open spec fn joined(tags: Seq<String>) -> Seq<char>
    decreases tags.len(),
{
    if tags.len() == 0 {
        Seq::empty()
    } else if tags.len() == 1 {
        tags[0]@
    } else {
        joined(tags.drop_last()) + ", "@ + tags.last()@
    }
}

/// The first lines of an entry's block: heading, id, creation time and role.
pub open spec fn block_head(e: Entry) -> Seq<char> {
    "### ["@ + heading_name(e.entry_type) + "] "@ + e.title@ + "\n\n"@ + "- **ID:** "@ + e.id.0@
        + "\n"@ + "- **Created:** "@ + time_text(e.created_at) + "\n"@ + "- **Role:** "@ + e.role@
        + "\n"@
}

/// The tags line of an entry's block (absent without tags).
pub open spec fn tags_line(e: Entry) -> Seq<char> {
    if e.tags@.len() > 0 {
        "- **Tags:** "@ + joined(e.tags@) + "\n"@
    } else {
        Seq::empty()
    }
}

/// The metadata lines of an entry's block: a fenced JSON block (absent for `null`).
pub open spec fn data_lines(e: Entry) -> Seq<char> {
    if !(e.data is Null) {
        "- **Data:**\n```json\n"@ + json_pretty_of(e.data) + "\n```\n"@
    } else {
        Seq::empty()
    }
}

/// The end of an entry's block: an empty line, then the body and another empty line.
pub open spec fn block_tail(e: Entry) -> Seq<char> {
    "\n"@ + (match e.body {
        Some(b) => b@ + "\n\n"@,
        None => Seq::empty(),
    })
}

/// The Markdown block of one entry.
pub open spec fn entry_block(e: Entry) -> Seq<char> {
    block_head(e) + tags_line(e) + data_lines(e) + block_tail(e)
}

/// The blocks of `group`, one after another.
pub open spec fn blocks(group: Seq<Entry>) -> Seq<char>
    decreases group.len(),
{
    if group.len() == 0 {
        Seq::empty()
    } else {
        blocks(group.drop_last()) + entry_block(group.last())
    }
}

/// The section of type `t` for `entries`: a heading and the type's entries by
/// creation time, or nothing when no entry has the type.
pub open spec fn section(entries: Seq<Entry>, t: EntryType) -> Seq<char> {
    let group = of_type(entries, t);
    if group.len() == 0 {
        Seq::empty()
    } else {
        "## "@ + heading_name(t) + "\n\n"@ + blocks(by_creation(group))
    }
}

/// The sections of the first `k` types, in declaration order.
pub open spec fn sections(entries: Seq<Entry>, k: nat) -> Seq<char>
    decreases k,
{
    if k == 0 {
        Seq::empty()
    } else {
        sections(entries, (k - 1) as nat) + section(entries, type_at((k - 1) as nat))
    }
}

/// The Markdown dump of `entries`: one section per entry type present, in the
/// order the types are declared, each listing its entries by creation time.
pub open spec fn rendered(entries: Seq<Entry>) -> Seq<char> {
    if entries.len() == 0 {
        "No entries found.\n"@
    } else {
        "# Lorekeeper Memory Dump\n\n"@ + sections(entries, 11)
    }
}

// ---------------------------------------------------------------------------
// Executable rendering
// ---------------------------------------------------------------------------

/// The entries that `idx` points at.
pub open spec fn pick(entries: Seq<Entry>, idx: Seq<usize>) -> Seq<Entry> {
    idx.map_values(|j: usize| entries[j as int])
}

fn indices_of_type(entries: &[Entry], t: EntryType) -> (r: Vec<usize>)
    ensures
        forall|j: int| 0 <= j < r@.len() ==> (#[trigger] r@[j]) < entries@.len(),
        pick(entries@, r@) == of_type(entries@, t),
{
    let mut r: Vec<usize> = Vec::new();
    let mut i: usize = 0;
    while i < entries.len()
        invariant
            i <= entries@.len(),
            forall|j: int| 0 <= j < r@.len() ==> (#[trigger] r@[j]) < entries@.len(),
            pick(entries@, r@) == of_type(entries@.take(i as int), t),
        decreases entries@.len() - i,
    {
        assert(entries@.take(i + 1).drop_last() =~= entries@.take(i as int));
        let ghost before = r@;
        if entries[i].entry_type == t {
            r.push(i);
            assert(pick(entries@, r@) =~= pick(entries@, before) + seq![entries@[i as int]]);
        } else {
            assert(pick(entries@, r@) =~= pick(entries@, before) + Seq::empty());
        }
        i = i + 1;
    }
    assert(entries@.take(entries@.len() as int) =~= entries@);
    r
}

fn sort_by_creation(entries: &[Entry], idx: Vec<usize>) -> (r: Vec<usize>)
    requires
        forall|j: int| 0 <= j < idx@.len() ==> (#[trigger] idx@[j]) < entries@.len(),
    ensures
        forall|j: int| 0 <= j < r@.len() ==> (#[trigger] r@[j]) < entries@.len(),
        pick(entries@, r@) == by_creation(pick(entries@, idx@)),
{
    let ghost group = pick(entries@, idx@);
    let mut sorted: Vec<usize> = Vec::new();
    let mut m: usize = 0;
    while m < idx.len()
        invariant
            m <= idx@.len(),
            group == pick(entries@, idx@),
            forall|j: int| 0 <= j < idx@.len() ==> (#[trigger] idx@[j]) < entries@.len(),
            forall|j: int| 0 <= j < sorted@.len() ==> (#[trigger] sorted@[j]) < entries@.len(),
            pick(entries@, sorted@) == by_creation(group.take(m as int)),
        decreases idx@.len() - m,
    {
        let x = idx[m];
        let ghost e = entries@[x as int];
        let ghost s = pick(entries@, sorted@);
        assert(group.take(m + 1).drop_last() =~= group.take(m as int));
        assert(group.take(m + 1).last() == e);
        let mut p: usize = sorted.len();
        assert(s.take(p as int) =~= s);
        while p > 0 && !entries[sorted[p - 1]].created_at.not_later_than(&entries[x].created_at)
            invariant
                p <= sorted@.len(),
                x < entries@.len(),
                e == entries@[x as int],
                s == pick(entries@, sorted@),
                forall|j: int| 0 <= j < sorted@.len() ==> (#[trigger] sorted@[j]) < entries@.len(),
                insert_pos(s, e) == insert_pos(s.take(p as int), e),
            decreases p,
        {
            assert(s.take(p as int).drop_last() =~= s.take(p - 1));
            assert(s.take(p as int).last() == entries@[sorted@[p - 1] as int]);
            p = p - 1;
        }
        proof {
            let t = s.take(p as int);
            if p > 0 {
                assert(t.last() == entries@[sorted@[p - 1] as int]);
            }
            assert(insert_pos(t, e) == p);
        }
        let ghost before = sorted@;
        sorted.insert(p, x);
        assert(pick(entries@, sorted@) =~= s.insert(p as int, e));
        m = m + 1;
    }
    assert(group.take(idx@.len() as int) =~= group);
    sorted
}

fn push_joined(out: &mut String, tags: &Vec<String>)
    ensures
        final(out)@ == old(out)@ + joined(tags@),
{
    let ghost start = out@;
    let mut i: usize = 0;
    while i < tags.len()
        invariant
            i <= tags@.len(),
            out@ == start + joined(tags@.take(i as int)),
        decreases tags@.len() - i,
    {
        assert(tags@.take(i + 1).drop_last() =~= tags@.take(i as int));
        if i > 0 {
            proof {
                reveal_strlit(", ");
            }
            out.append(", ");
        } else {
            assert(tags@.take(1)[0] == tags@[0]);
        }
        out.append(tags[i].as_str());
        i = i + 1;
    }
    assert(tags@.take(tags@.len() as int) =~= tags@);
}

fn push_block_head(out: &mut String, e: &Entry)
    ensures
        final(out)@ == old(out)@ + block_head(*e),
{
    let ghost start = out@;
    proof {
        reveal_strlit("### [");
        reveal_strlit("] ");
        reveal_strlit("\n\n");
        reveal_strlit("- **ID:** ");
        reveal_strlit("\n");
        reveal_strlit("- **Created:** ");
        reveal_strlit("- **Role:** ");
    }
    out.append("### [");
    out.append(e.entry_type.heading_name());
    out.append("] ");
    out.append(e.title.as_str());
    out.append("\n\n");
    out.append("- **ID:** ");
    out.append(e.id.0.as_str());
    out.append("\n");
    out.append("- **Created:** ");
    let ghost mid = out@;
    match rfc3339_text(e.created_at) {
        Some(t) => out.append(t.as_str()),
        None => {},
    }
    assert(out@ =~= mid + time_text(e.created_at));
    out.append("\n");
    out.append("- **Role:** ");
    out.append(e.role.as_str());
    out.append("\n");
    assert(out@ =~= start + block_head(*e));
}

fn push_tags_line(out: &mut String, e: &Entry)
    ensures
        final(out)@ == old(out)@ + tags_line(*e),
{
    if e.tags.len() > 0 {
        proof {
            reveal_strlit("- **Tags:** ");
            reveal_strlit("\n");
        }
        let ghost start = out@;
        out.append("- **Tags:** ");
        push_joined(out, &e.tags);
        out.append("\n");
        assert(out@ =~= start + tags_line(*e));
    } else {
        assert(tags_line(*e) =~= Seq::<char>::empty());
    }
}

fn push_data_lines(out: &mut String, e: &Entry)
    ensures
        final(out)@ == old(out)@ + data_lines(*e),
{
    if !e.data.is_null() {
        proof {
            reveal_strlit("- **Data:**\n```json\n");
            reveal_strlit("\n```\n");
        }
        let ghost start = out@;
        out.append("- **Data:**\n```json\n");
        let text = pretty_json_text(&e.data);
        out.append(text.as_str());
        out.append("\n```\n");
        assert(out@ =~= start + data_lines(*e));
    } else {
        assert(data_lines(*e) =~= Seq::<char>::empty());
    }
}

fn push_block_tail(out: &mut String, e: &Entry)
    ensures
        final(out)@ == old(out)@ + block_tail(*e),
{
    proof {
        reveal_strlit("\n");
        reveal_strlit("\n\n");
    }
    let ghost start = out@;
    out.append("\n");
    match &e.body {
        Some(b) => {
            out.append(b.as_str());
            out.append("\n\n");
        },
        None => {},
    }
    assert(out@ =~= start + block_tail(*e));
}

fn push_entry_block(out: &mut String, e: &Entry)
    ensures
        final(out)@ == old(out)@ + entry_block(*e),
{
    let ghost start = out@;
    push_block_head(out, e);
    push_tags_line(out, e);
    push_data_lines(out, e);
    push_block_tail(out, e);
    assert(out@ =~= start + entry_block(*e));
}

fn push_blocks(out: &mut String, entries: &[Entry], idx: &Vec<usize>)
    requires
        forall|j: int| 0 <= j < idx@.len() ==> (#[trigger] idx@[j]) < entries@.len(),
    ensures
        final(out)@ == old(out)@ + blocks(pick(entries@, idx@)),
{
    let ghost start = out@;
    let ghost g = pick(entries@, idx@);
    let mut i: usize = 0;
    while i < idx.len()
        invariant
            i <= idx@.len(),
            g == pick(entries@, idx@),
            forall|j: int| 0 <= j < idx@.len() ==> (#[trigger] idx@[j]) < entries@.len(),
            out@ == start + blocks(g.take(i as int)),
        decreases idx@.len() - i,
    {
        assert(g.take(i + 1).drop_last() =~= g.take(i as int));
        assert(g.take(i + 1).last() == entries@[idx@[i as int] as int]);
        push_entry_block(out, &entries[idx[i]]);
        i = i + 1;
    }
    assert(g.take(idx@.len() as int) =~= g);
}

fn push_section(out: &mut String, entries: &[Entry], t: EntryType)
    ensures
        final(out)@ == old(out)@ + section(entries@, t),
{
    let idx = indices_of_type(entries, t);
    if idx.len() > 0 {
        proof {
            reveal_strlit("## ");
            reveal_strlit("\n\n");
        }
        let ghost start = out@;
        let sorted = sort_by_creation(entries, idx);
        out.append("## ");
        out.append(t.heading_name());
        out.append("\n\n");
        push_blocks(out, entries, &sorted);
        assert(out@ =~= start + section(entries@, t));
    } else {
        assert(section(entries@, t) =~= Seq::<char>::empty());
    }
}

/// Renders entries into a single Markdown string: a heading, then one section
/// per entry type present, in declaration order, each holding the entries of
/// that type ordered by creation time; `"No entries found.\n"` when there are none.
pub fn render_entries(entries: &[Entry]) -> (r: String)
    ensures
        r@ == rendered(entries@),
{
    if entries.len() == 0 {
        proof {
            reveal_strlit("No entries found.\n");
        }
        return String::from_str("No entries found.\n");
    }
    proof {
        reveal_strlit("# Lorekeeper Memory Dump\n\n");
    }
    let mut out = String::from_str("# Lorekeeper Memory Dump\n\n");
    let ghost start = out@;
    let mut k: usize = 0;
    while k < ENTRY_TYPE_COUNT
        invariant
            k <= ENTRY_TYPE_COUNT,
            out@ == start + sections(entries@, k as nat),
        decreases ENTRY_TYPE_COUNT - k,
    {
        let t = EntryType::at_rank(k);
        push_section(&mut out, entries, t);
        k = k + 1;
    }
    out
}

// ---------------------------------------------------------------------------
// Laws
// ---------------------------------------------------------------------------

/// Whether `s` is ordered by creation time.
pub open spec fn ordered_by_creation(s: Seq<Entry>) -> bool {
    forall|i: int, j: int|
        0 <= i < j < s.len() ==> not_later((#[trigger] s[i]).created_at, (#[trigger] s[j]).created_at)
}

proof fn lemma_insert_pos_bounds(sorted: Seq<Entry>, e: Entry)
    requires
        ordered_by_creation(sorted),
    ensures
        insert_pos(sorted, e) <= sorted.len(),
        forall|i: int| 0 <= i < insert_pos(sorted, e) ==> not_later((#[trigger] sorted[i]).created_at, e.created_at),
        forall|i: int|
            insert_pos(sorted, e) <= i < sorted.len() ==> !not_later((#[trigger] sorted[i]).created_at, e.created_at),
    decreases sorted.len(),
{
    if sorted.len() == 0 {
    } else if not_later(sorted.last().created_at, e.created_at) {
        assert forall|i: int| 0 <= i < sorted.len() implies not_later((#[trigger] sorted[i]).created_at, e.created_at) by {
            if i < sorted.len() - 1 {
                assert(not_later(sorted[i].created_at, sorted[sorted.len() - 1].created_at));
            }
        }
    } else {
        let d = sorted.drop_last();
        assert(ordered_by_creation(d)) by {
            assert forall|i: int, j: int| 0 <= i < j < d.len() implies not_later((#[trigger] d[i]).created_at, (#[trigger] d[j]).created_at) by {
                assert(d[i] == sorted[i] && d[j] == sorted[j]);
            }
        }
        lemma_insert_pos_bounds(d, e);
        assert forall|i: int| 0 <= i < insert_pos(sorted, e) implies not_later((#[trigger] sorted[i]).created_at, e.created_at) by {
            assert(sorted[i] == d[i]);
        }
        assert forall|i: int| insert_pos(sorted, e) <= i < sorted.len() implies !not_later((#[trigger] sorted[i]).created_at, e.created_at) by {
            if i < sorted.len() - 1 {
                assert(sorted[i] == d[i]);
            }
        }
    }
}

/// The entries of each section are ordered by creation time, and a section
/// holds exactly the entries it was given, each as often as given.
pub proof fn lemma_by_creation_ordered(entries: Seq<Entry>)
    ensures
        ordered_by_creation(by_creation(entries)),
        by_creation(entries).len() == entries.len(),
        by_creation(entries).to_multiset() == entries.to_multiset(),
    decreases entries.len(),
{
    if entries.len() == 0 {
        assert(by_creation(entries) == entries);
    } else {
        let sorted = by_creation(entries.drop_last());
        lemma_by_creation_ordered(entries.drop_last());
        let e = entries.last();
        lemma_insert_pos_bounds(sorted, e);
        let p = insert_pos(sorted, e) as int;
        let r = sorted.insert(p, e);
        vstd::seq_lib::to_multiset_insert(sorted, p, e);
        assert(entries == entries.drop_last().push(e));
        vstd::seq_lib::to_multiset_build(entries.drop_last(), e);
        assert forall|i: int, j: int| 0 <= i < j < r.len() implies not_later((#[trigger] r[i]).created_at, (#[trigger] r[j]).created_at) by {
            if j < p {
                assert(r[i] == sorted[i] && r[j] == sorted[j]);
            } else if j == p {
                assert(r[i] == sorted[i]);
            } else if i < p {
                assert(r[i] == sorted[i] && r[j] == sorted[j - 1]);
                assert(not_later(sorted[i].created_at, sorted[j - 1].created_at));
            } else if i == p {
                assert(r[j] == sorted[j - 1]);
                assert(!not_later(sorted[j - 1].created_at, e.created_at));
            } else {
                assert(r[i] == sorted[i - 1] && r[j] == sorted[j - 1]);
            }
        }
    }
}


/// How many entries the sections of the first `n` types (in declaration order) hold together.
pub open spec fn sectioned_count(entries: Seq<Entry>, n: nat) -> nat
    decreases n,
{
    if n == 0 {
        0
    } else {
        sectioned_count(entries, (n - 1) as nat) + of_type(entries, type_at((n - 1) as nat)).len()
    }
}

proof fn lemma_sectioned_count_push(d: Seq<Entry>, e: Entry, n: nat)
    requires
        n <= 11,
    ensures
        sectioned_count(d.push(e), n) == sectioned_count(d, n) + (if rank_of(e.entry_type) < n {
            1nat
        } else {
            0nat
        }),
    decreases n,
{
    if n > 0 {
        lemma_sectioned_count_push(d, e, (n - 1) as nat);
        let t = type_at((n - 1) as nat);
        assert(d.push(e).drop_last() == d);
        assert(d.push(e).last() == e);
        assert((t == e.entry_type) == (rank_of(e.entry_type) == n - 1));
    }
}

/// Every entry lands in exactly one section of the dump: together the
/// sections hold as many entries as were given.
pub proof fn lemma_sections_hold_every_entry(entries: Seq<Entry>)
    ensures
        sectioned_count(entries, 11) == entries.len(),
    decreases entries.len(),
{
    if entries.len() == 0 {
        lemma_sectioned_count_empty(entries, 11);
    } else {
        let d = entries.drop_last();
        let e = entries.last();
        assert(entries == d.push(e));
        lemma_sections_hold_every_entry(d);
        lemma_sectioned_count_push(d, e, 11);
    }
}

proof fn lemma_sectioned_count_empty(entries: Seq<Entry>, n: nat)
    requires
        entries.len() == 0,
    ensures
        sectioned_count(entries, n) == 0,
    decreases n,
{
    if n > 0 {
        lemma_sectioned_count_empty(entries, (n - 1) as nat);
    }
}


/// The types that have entries, in declaration order, among the first `k` types.
pub open spec fn present_types(entries: Seq<Entry>, k: nat) -> Seq<EntryType>
    decreases k,
{
    if k == 0 {
        Seq::empty()
    } else {
        present_types(entries, (k - 1) as nat) + (if of_type(entries, type_at((k - 1) as nat)).len()
            > 0 {
            seq![type_at((k - 1) as nat)]
        } else {
            Seq::empty()
        })
    }
}

/// The heading of the section of type `t`.
pub open spec fn section_heading(t: EntryType) -> Seq<char> {
    "## "@ + heading_name(t) + "\n\n"@
}

/// For each type of `types` in turn, its heading followed by the blocks of its
/// entries by creation time.
pub open spec fn headed_sections(entries: Seq<Entry>, types: Seq<EntryType>) -> Seq<char>
    decreases types.len(),
{
    if types.len() == 0 {
        Seq::empty()
    } else {
        headed_sections(entries, types.drop_last()) + section_heading(types.last()) + blocks(
            by_creation(of_type(entries, types.last())),
        )
    }
}

proof fn lemma_rank_type_at(k: nat)
    requires
        k < 11,
    ensures
        rank_of(type_at(k)) == k,
{
}

proof fn lemma_type_at_rank(t: EntryType)
    ensures
        type_at(rank_of(t)) == t,
        rank_of(t) < 11,
{
}

/// Whether an entry has type `t`.
pub open spec fn has_type(t: EntryType) -> spec_fn(Entry) -> bool {
    |e: Entry| e.entry_type == t
}

proof fn lemma_of_type_is_filter(entries: Seq<Entry>, t: EntryType)
    ensures
        of_type(entries, t) == entries.filter(has_type(t)),
    decreases entries.len(),
{
    reveal(Seq::filter);
    if entries.len() > 0 {
        lemma_of_type_is_filter(entries.drop_last(), t);
        assert(of_type(entries, t) =~= entries.filter(has_type(t)));
    }
}

proof fn lemma_present_types(entries: Seq<Entry>, k: nat)
    requires
        k <= 11,
    ensures
        sections(entries, k) == headed_sections(entries, present_types(entries, k)),
        forall|i: int|
            0 <= i < present_types(entries, k).len() ==> rank_of(
                #[trigger] present_types(entries, k)[i],
            ) < k,
        forall|i: int, j: int|
            0 <= i < j < present_types(entries, k).len() ==> rank_of(
                #[trigger] present_types(entries, k)[i],
            ) < rank_of(#[trigger] present_types(entries, k)[j]),
        forall|t: EntryType|
            rank_of(t) < k ==> (present_types(entries, k).contains(t) <==> of_type(entries, t).len()
                > 0),
    decreases k,
{
    if k > 0 {
        let k1 = (k - 1) as nat;
        lemma_present_types(entries, k1);
        lemma_rank_type_at(k1);
        let p = present_types(entries, k1);
        let t = type_at(k1);
        if of_type(entries, t).len() > 0 {
            let q = p.push(t);
            assert(present_types(entries, k) =~= q);
            assert(q.drop_last() =~= p);
            assert(sections(entries, k) =~= headed_sections(entries, q));
        } else {
            assert(present_types(entries, k) =~= p);
            assert(sections(entries, k) =~= headed_sections(entries, p));
        }
        assert forall|u: EntryType| rank_of(u) < k implies (present_types(entries, k).contains(u)
            <==> of_type(entries, u).len() > 0) by {
            lemma_type_at_rank(u);
            if rank_of(u) == k1 {
                assert(u == t);
                if of_type(entries, t).len() > 0 {
                    assert(present_types(entries, k)[p.len() as int] == u);
                } else if present_types(entries, k).contains(u) {
                    let i = choose|i: int| 0 <= i < present_types(entries, k).len() && present_types(entries, k)[i] == u;
                    assert(rank_of(p[i]) < k1);
                }
            } else {
                if p.contains(u) {
                    let i = choose|i: int| 0 <= i < p.len() && p[i] == u;
                    assert(present_types(entries, k)[i] == u);
                }
                if present_types(entries, k).contains(u) {
                    let i = choose|i: int| 0 <= i < present_types(entries, k).len() && present_types(entries, k)[i] == u;
                    if i < p.len() {
                        assert(p[i] == u);
                    }
                }
            }
        }
    }
}

/// The layout of a dump of some entries: the title, then for each type that
/// has entries, once each and in declaration order, its heading followed by
/// the blocks of exactly that type's entries (each entry once, as often as
/// given), ordered by creation time with ties in input order.
pub proof fn lemma_dump_structure(entries: Seq<Entry>)
    requires
        entries.len() > 0,
    ensures
        rendered(entries) == "# Lorekeeper Memory Dump\n\n"@ + headed_sections(
            entries,
            present_types(entries, 11),
        ),
        forall|i: int, j: int|
            0 <= i < j < present_types(entries, 11).len() ==> rank_of(
                #[trigger] present_types(entries, 11)[i],
            ) < rank_of(#[trigger] present_types(entries, 11)[j]),
        forall|t: EntryType|
            #[trigger] present_types(entries, 11).contains(t) <==> exists|i: int|
                0 <= i < entries.len() && (#[trigger] entries[i]).entry_type == t,
        forall|t: EntryType|
            {
                let g = #[trigger] by_creation(of_type(entries, t));
                &&& ordered_by_creation(g)
                &&& g.to_multiset() == entries.filter(has_type(t)).to_multiset()
                &&& forall|i: int| 0 <= i < g.len() ==> (#[trigger] g[i]).entry_type == t
            },
{
    lemma_present_types(entries, 11);
    assert forall|t: EntryType| #[trigger] present_types(entries, 11).contains(t) <==> exists|i: int|
        0 <= i < entries.len() && (#[trigger] entries[i]).entry_type == t by {
        lemma_type_at_rank(t);
        lemma_of_type_is_filter(entries, t);
        let f = entries.filter(has_type(t));
        if exists|i: int| 0 <= i < entries.len() && (#[trigger] entries[i]).entry_type == t {
            let i = choose|i: int| 0 <= i < entries.len() && (#[trigger] entries[i]).entry_type == t;
            entries.lemma_filter_contains(has_type(t), i);
        }
        if f.len() > 0 {
            entries.lemma_filter_pred(has_type(t), 0);
            assert(f.contains(f[0]));
            entries.lemma_filter_contains_rev(has_type(t), f[0]);
            let i = choose|i: int| 0 <= i < entries.len() && entries[i] == f[0];
            assert(entries[i].entry_type == t);
        }
    }
    assert forall|t: EntryType| {
        let g = #[trigger] by_creation(of_type(entries, t));
        &&& ordered_by_creation(g)
        &&& g.to_multiset() == entries.filter(has_type(t)).to_multiset()
        &&& forall|i: int| 0 <= i < g.len() ==> (#[trigger] g[i]).entry_type == t
    } by {
        let o = of_type(entries, t);
        let g = by_creation(o);
        lemma_by_creation_ordered(o);
        lemma_of_type_is_filter(entries, t);
        assert forall|i: int| 0 <= i < g.len() implies (#[trigger] g[i]).entry_type == t by {
            vstd::seq_lib::to_multiset_contains(g, g[i]);
            assert(g.to_multiset().count(g[i]) > 0);
            vstd::seq_lib::to_multiset_contains(o, g[i]);
            let k = choose|k: int| 0 <= k < o.len() && o[k] == g[i];
            entries.lemma_filter_pred(has_type(t), k);
        }
    }
}

} // verus!
