//! Entry type definitions and associated metadata schemas.

use vstd::prelude::*;

verus! {

/// The category of a memory entry, determining its role permissions and schema.
#[derive(Debug, Clone, Copy, PartialEq, Eq, Structural, PartialOrd, Ord, Hash)]
pub enum EntryType {
    /// A high-level architectural decision.
    Decision,
    /// A code commit reference with hash and files.
    Commit,
    /// A technical or project constraint.
    Constraint,
    /// A lesson learned from an event or bug.
    Lesson,
    /// An implementation or migration plan.
    Plan,
    /// A new feature or capability description.
    Feature,
    /// A placeholder for incomplete functionality.
    Stub,
    /// A task or feature deferred to a future phase.
    Deferred,
    /// Internal notes for the Builder role.
    BuilderNote,
    /// Technical debt markers.
    TechDebt,
    /// A summary of an agent session — memory about memory.
    SessionSummary,
}

/// The number of entry types.
pub const ENTRY_TYPE_COUNT: usize = 11;

/// The roles that may write an entry of type `t`.
pub open spec fn roles_of(t: EntryType) -> Seq<Seq<char>> {
    match t {
        EntryType::Decision | EntryType::Constraint | EntryType::Lesson | EntryType::Plan
        | EntryType::Feature => seq!["architect"@],
        EntryType::Commit | EntryType::Stub | EntryType::BuilderNote => seq!["builder"@],
        EntryType::Deferred | EntryType::TechDebt | EntryType::SessionSummary => seq![
            "architect"@,
            "builder"@,
        ],
    }
}

/// The position of `t` in declaration order, which is the order types are listed in.
pub open spec fn rank_of(t: EntryType) -> nat {
    match t {
        EntryType::Decision => 0,
        EntryType::Commit => 1,
        EntryType::Constraint => 2,
        EntryType::Lesson => 3,
        EntryType::Plan => 4,
        EntryType::Feature => 5,
        EntryType::Stub => 6,
        EntryType::Deferred => 7,
        EntryType::BuilderNote => 8,
        EntryType::TechDebt => 9,
        EntryType::SessionSummary => 10,
    }
}

/// The type at position `k` of the declaration order.
pub open spec fn type_at(k: nat) -> EntryType {
    if k == 0 { EntryType::Decision }
    else if k == 1 { EntryType::Commit }
    else if k == 2 { EntryType::Constraint }
    else if k == 3 { EntryType::Lesson }
    else if k == 4 { EntryType::Plan }
    else if k == 5 { EntryType::Feature }
    else if k == 6 { EntryType::Stub }
    else if k == 7 { EntryType::Deferred }
    else if k == 8 { EntryType::BuilderNote }
    else if k == 9 { EntryType::TechDebt }
    else { EntryType::SessionSummary }
}

/// The name under which a type is stored and exchanged (`SCREAMING_SNAKE_CASE`).
pub open spec fn wire_name(t: EntryType) -> Seq<char> {
    match t {
        EntryType::Decision => "DECISION"@,
        EntryType::Commit => "COMMIT"@,
        EntryType::Constraint => "CONSTRAINT"@,
        EntryType::Lesson => "LESSON"@,
        EntryType::Plan => "PLAN"@,
        EntryType::Feature => "FEATURE"@,
        EntryType::Stub => "STUB"@,
        EntryType::Deferred => "DEFERRED"@,
        EntryType::BuilderNote => "BUILDER_NOTE"@,
        EntryType::TechDebt => "TECH_DEBT"@,
        EntryType::SessionSummary => "SESSION_SUMMARY"@,
    }
}

/// The variant's own name, as the derived `Debug` prints it.
pub open spec fn variant_name(t: EntryType) -> Seq<char> {
    match t {
        EntryType::Decision => "Decision"@,
        EntryType::Commit => "Commit"@,
        EntryType::Constraint => "Constraint"@,
        EntryType::Lesson => "Lesson"@,
        EntryType::Plan => "Plan"@,
        EntryType::Feature => "Feature"@,
        EntryType::Stub => "Stub"@,
        EntryType::Deferred => "Deferred"@,
        EntryType::BuilderNote => "BuilderNote"@,
        EntryType::TechDebt => "TechDebt"@,
        EntryType::SessionSummary => "SessionSummary"@,
    }
}

/// The variant's name in upper case, as section headings of the Markdown dump show it.
pub open spec fn heading_name(t: EntryType) -> Seq<char> {
    match t {
        EntryType::Decision => "DECISION"@,
        EntryType::Commit => "COMMIT"@,
        EntryType::Constraint => "CONSTRAINT"@,
        EntryType::Lesson => "LESSON"@,
        EntryType::Plan => "PLAN"@,
        EntryType::Feature => "FEATURE"@,
        EntryType::Stub => "STUB"@,
        EntryType::Deferred => "DEFERRED"@,
        EntryType::BuilderNote => "BUILDERNOTE"@,
        EntryType::TechDebt => "TECHDEBT"@,
        EntryType::SessionSummary => "SESSIONSUMMARY"@,
    }
}

/// The type whose wire name is `s`, if any.
pub open spec fn parse_wire_name(s: Seq<char>) -> Option<EntryType> {
    if s == "DECISION"@ { Some(EntryType::Decision) }
    else if s == "COMMIT"@ { Some(EntryType::Commit) }
    else if s == "CONSTRAINT"@ { Some(EntryType::Constraint) }
    else if s == "LESSON"@ { Some(EntryType::Lesson) }
    else if s == "PLAN"@ { Some(EntryType::Plan) }
    else if s == "FEATURE"@ { Some(EntryType::Feature) }
    else if s == "STUB"@ { Some(EntryType::Stub) }
    else if s == "DEFERRED"@ { Some(EntryType::Deferred) }
    else if s == "BUILDER_NOTE"@ { Some(EntryType::BuilderNote) }
    else if s == "TECH_DEBT"@ { Some(EntryType::TechDebt) }
    else if s == "SESSION_SUMMARY"@ { Some(EntryType::SessionSummary) }
    else { None }
}

impl EntryType {
    /// Returns the roles authorized to create/write this entry type.
    pub fn allowed_roles(self) -> (r: &'static [&'static str])
        ensures
            r@.len() == roles_of(self).len(),
            forall|i: int| 0 <= i < r@.len() ==> (#[trigger] r@[i])@ == roles_of(self)[i],
    {
        proof {
            reveal_strlit("architect");
            reveal_strlit("builder");
        }
        match self {
            EntryType::Decision | EntryType::Constraint | EntryType::Lesson | EntryType::Plan
            | EntryType::Feature => &["architect"],
            EntryType::Commit | EntryType::Stub | EntryType::BuilderNote => &["builder"],
            EntryType::Deferred | EntryType::TechDebt | EntryType::SessionSummary => &[
                "architect",
                "builder",
            ],
        }
    }

    /// The position of this type in declaration order.
    pub fn rank(self) -> (r: usize)
        ensures
            r == rank_of(self),
            r < ENTRY_TYPE_COUNT,
    {
        match self {
            EntryType::Decision => 0,
            EntryType::Commit => 1,
            EntryType::Constraint => 2,
            EntryType::Lesson => 3,
            EntryType::Plan => 4,
            EntryType::Feature => 5,
            EntryType::Stub => 6,
            EntryType::Deferred => 7,
            EntryType::BuilderNote => 8,
            EntryType::TechDebt => 9,
            EntryType::SessionSummary => 10,
        }
    }

    /// The type at position `k` of declaration order.
    pub fn at_rank(k: usize) -> (r: EntryType)
        requires
            k < ENTRY_TYPE_COUNT,
        ensures
            r == type_at(k as nat),
            rank_of(r) == k,
    {
        if k == 0 { EntryType::Decision }
        else if k == 1 { EntryType::Commit }
        else if k == 2 { EntryType::Constraint }
        else if k == 3 { EntryType::Lesson }
        else if k == 4 { EntryType::Plan }
        else if k == 5 { EntryType::Feature }
        else if k == 6 { EntryType::Stub }
        else if k == 7 { EntryType::Deferred }
        else if k == 8 { EntryType::BuilderNote }
        else if k == 9 { EntryType::TechDebt }
        else { EntryType::SessionSummary }
    }

    /// The name under which this type is stored and exchanged, e.g. `BUILDER_NOTE`.
    pub fn wire_name(self) -> (r: &'static str)
        ensures
            r@ == wire_name(self),
    {
        proof {
            reveal_strlit("DECISION");
            reveal_strlit("COMMIT");
            reveal_strlit("CONSTRAINT");
            reveal_strlit("LESSON");
            reveal_strlit("PLAN");
            reveal_strlit("FEATURE");
            reveal_strlit("STUB");
            reveal_strlit("DEFERRED");
            reveal_strlit("BUILDER_NOTE");
            reveal_strlit("TECH_DEBT");
            reveal_strlit("SESSION_SUMMARY");
        }
        match self {
            EntryType::Decision => "DECISION",
            EntryType::Commit => "COMMIT",
            EntryType::Constraint => "CONSTRAINT",
            EntryType::Lesson => "LESSON",
            EntryType::Plan => "PLAN",
            EntryType::Feature => "FEATURE",
            EntryType::Stub => "STUB",
            EntryType::Deferred => "DEFERRED",
            EntryType::BuilderNote => "BUILDER_NOTE",
            EntryType::TechDebt => "TECH_DEBT",
            EntryType::SessionSummary => "SESSION_SUMMARY",
        }
    }

    /// The variant's own name, e.g. `BuilderNote`.
    pub fn variant_name(self) -> (r: &'static str)
        ensures
            r@ == variant_name(self),
    {
        proof {
            reveal_strlit("Decision");
            reveal_strlit("Commit");
            reveal_strlit("Constraint");
            reveal_strlit("Lesson");
            reveal_strlit("Plan");
            reveal_strlit("Feature");
            reveal_strlit("Stub");
            reveal_strlit("Deferred");
            reveal_strlit("BuilderNote");
            reveal_strlit("TechDebt");
            reveal_strlit("SessionSummary");
        }
        match self {
            EntryType::Decision => "Decision",
            EntryType::Commit => "Commit",
            EntryType::Constraint => "Constraint",
            EntryType::Lesson => "Lesson",
            EntryType::Plan => "Plan",
            EntryType::Feature => "Feature",
            EntryType::Stub => "Stub",
            EntryType::Deferred => "Deferred",
            EntryType::BuilderNote => "BuilderNote",
            EntryType::TechDebt => "TechDebt",
            EntryType::SessionSummary => "SessionSummary",
        }
    }

    /// The variant's name in upper case, e.g. `BUILDERNOTE`.
    pub fn heading_name(self) -> (r: &'static str)
        ensures
            r@ == heading_name(self),
    {
        proof {
            reveal_strlit("DECISION");
            reveal_strlit("COMMIT");
            reveal_strlit("CONSTRAINT");
            reveal_strlit("LESSON");
            reveal_strlit("PLAN");
            reveal_strlit("FEATURE");
            reveal_strlit("STUB");
            reveal_strlit("DEFERRED");
            reveal_strlit("BUILDERNOTE");
            reveal_strlit("TECHDEBT");
            reveal_strlit("SESSIONSUMMARY");
        }
        match self {
            EntryType::Decision => "DECISION",
            EntryType::Commit => "COMMIT",
            EntryType::Constraint => "CONSTRAINT",
            EntryType::Lesson => "LESSON",
            EntryType::Plan => "PLAN",
            EntryType::Feature => "FEATURE",
            EntryType::Stub => "STUB",
            EntryType::Deferred => "DEFERRED",
            EntryType::BuilderNote => "BUILDERNOTE",
            EntryType::TechDebt => "TECHDEBT",
            EntryType::SessionSummary => "SESSIONSUMMARY",
        }
    }

    /// The type stored under the wire name `s`, if any.
    pub fn from_wire_name(s: &str) -> (r: Option<EntryType>)
        ensures
            r == parse_wire_name(s@),
    {
        let mut k: usize = 0;
        while k < ENTRY_TYPE_COUNT
            invariant
                k <= ENTRY_TYPE_COUNT,
                forall|j: nat| j < k ==> wire_name(#[trigger] type_at(j)) != s@,
            decreases ENTRY_TYPE_COUNT - k,
        {
            let t = EntryType::at_rank(k);
            if crate::text::same_text(t.wire_name(), s) {
                proof {
                    lemma_wire_name_parses(t);
                }
                return Some(t);
            }
            k = k + 1;
        }
        proof {
            lemma_parse_only_wire_names(s@);
        }
        None
    }
}

/// Every type's wire name parses back to that type.
pub proof fn lemma_wire_name_parses(t: EntryType)
    ensures
        parse_wire_name(wire_name(t)) == Some(t),
{
    reveal_strlit("DECISION");
    reveal_strlit("COMMIT");
    reveal_strlit("CONSTRAINT");
    reveal_strlit("LESSON");
    reveal_strlit("PLAN");
    reveal_strlit("FEATURE");
    reveal_strlit("STUB");
    reveal_strlit("DEFERRED");
    reveal_strlit("BUILDER_NOTE");
    reveal_strlit("TECH_DEBT");
    reveal_strlit("SESSION_SUMMARY");
    let w = wire_name(t);
    match t {
        EntryType::Decision => {
            assert(w.len() != "COMMIT"@.len());
            assert(w.len() != "CONSTRAINT"@.len());
            assert(w.len() != "LESSON"@.len());
            assert(w.len() != "PLAN"@.len());
            assert(w.len() != "FEATURE"@.len());
            assert(w.len() != "STUB"@.len());
            assert(w[2] != "DEFERRED"@[2]);
            assert(w.len() != "BUILDER_NOTE"@.len());
            assert(w.len() != "TECH_DEBT"@.len());
            assert(w.len() != "SESSION_SUMMARY"@.len());
        },
        EntryType::Commit => {
            assert(w.len() != "DECISION"@.len());
            assert(w.len() != "CONSTRAINT"@.len());
            assert(w[0] != "LESSON"@[0]);
            assert(w.len() != "PLAN"@.len());
            assert(w.len() != "FEATURE"@.len());
            assert(w.len() != "STUB"@.len());
            assert(w.len() != "DEFERRED"@.len());
            assert(w.len() != "BUILDER_NOTE"@.len());
            assert(w.len() != "TECH_DEBT"@.len());
            assert(w.len() != "SESSION_SUMMARY"@.len());
        },
        EntryType::Constraint => {
            assert(w.len() != "DECISION"@.len());
            assert(w.len() != "COMMIT"@.len());
            assert(w.len() != "LESSON"@.len());
            assert(w.len() != "PLAN"@.len());
            assert(w.len() != "FEATURE"@.len());
            assert(w.len() != "STUB"@.len());
            assert(w.len() != "DEFERRED"@.len());
            assert(w.len() != "BUILDER_NOTE"@.len());
            assert(w.len() != "TECH_DEBT"@.len());
            assert(w.len() != "SESSION_SUMMARY"@.len());
        },
        EntryType::Lesson => {
            assert(w.len() != "DECISION"@.len());
            assert(w[0] != "COMMIT"@[0]);
            assert(w.len() != "CONSTRAINT"@.len());
            assert(w.len() != "PLAN"@.len());
            assert(w.len() != "FEATURE"@.len());
            assert(w.len() != "STUB"@.len());
            assert(w.len() != "DEFERRED"@.len());
            assert(w.len() != "BUILDER_NOTE"@.len());
            assert(w.len() != "TECH_DEBT"@.len());
            assert(w.len() != "SESSION_SUMMARY"@.len());
        },
        EntryType::Plan => {
            assert(w.len() != "DECISION"@.len());
            assert(w.len() != "COMMIT"@.len());
            assert(w.len() != "CONSTRAINT"@.len());
            assert(w.len() != "LESSON"@.len());
            assert(w.len() != "FEATURE"@.len());
            assert(w[0] != "STUB"@[0]);
            assert(w.len() != "DEFERRED"@.len());
            assert(w.len() != "BUILDER_NOTE"@.len());
            assert(w.len() != "TECH_DEBT"@.len());
            assert(w.len() != "SESSION_SUMMARY"@.len());
        },
        EntryType::Feature => {
            assert(w.len() != "DECISION"@.len());
            assert(w.len() != "COMMIT"@.len());
            assert(w.len() != "CONSTRAINT"@.len());
            assert(w.len() != "LESSON"@.len());
            assert(w.len() != "PLAN"@.len());
            assert(w.len() != "STUB"@.len());
            assert(w.len() != "DEFERRED"@.len());
            assert(w.len() != "BUILDER_NOTE"@.len());
            assert(w.len() != "TECH_DEBT"@.len());
            assert(w.len() != "SESSION_SUMMARY"@.len());
        },
        EntryType::Stub => {
            assert(w.len() != "DECISION"@.len());
            assert(w.len() != "COMMIT"@.len());
            assert(w.len() != "CONSTRAINT"@.len());
            assert(w.len() != "LESSON"@.len());
            assert(w[0] != "PLAN"@[0]);
            assert(w.len() != "FEATURE"@.len());
            assert(w.len() != "DEFERRED"@.len());
            assert(w.len() != "BUILDER_NOTE"@.len());
            assert(w.len() != "TECH_DEBT"@.len());
            assert(w.len() != "SESSION_SUMMARY"@.len());
        },
        EntryType::Deferred => {
            assert(w[2] != "DECISION"@[2]);
            assert(w.len() != "COMMIT"@.len());
            assert(w.len() != "CONSTRAINT"@.len());
            assert(w.len() != "LESSON"@.len());
            assert(w.len() != "PLAN"@.len());
            assert(w.len() != "FEATURE"@.len());
            assert(w.len() != "STUB"@.len());
            assert(w.len() != "BUILDER_NOTE"@.len());
            assert(w.len() != "TECH_DEBT"@.len());
            assert(w.len() != "SESSION_SUMMARY"@.len());
        },
        EntryType::BuilderNote => {
            assert(w.len() != "DECISION"@.len());
            assert(w.len() != "COMMIT"@.len());
            assert(w.len() != "CONSTRAINT"@.len());
            assert(w.len() != "LESSON"@.len());
            assert(w.len() != "PLAN"@.len());
            assert(w.len() != "FEATURE"@.len());
            assert(w.len() != "STUB"@.len());
            assert(w.len() != "DEFERRED"@.len());
            assert(w.len() != "TECH_DEBT"@.len());
            assert(w.len() != "SESSION_SUMMARY"@.len());
        },
        EntryType::TechDebt => {
            assert(w.len() != "DECISION"@.len());
            assert(w.len() != "COMMIT"@.len());
            assert(w.len() != "CONSTRAINT"@.len());
            assert(w.len() != "LESSON"@.len());
            assert(w.len() != "PLAN"@.len());
            assert(w.len() != "FEATURE"@.len());
            assert(w.len() != "STUB"@.len());
            assert(w.len() != "DEFERRED"@.len());
            assert(w.len() != "BUILDER_NOTE"@.len());
            assert(w.len() != "SESSION_SUMMARY"@.len());
        },
        EntryType::SessionSummary => {
            assert(w.len() != "DECISION"@.len());
            assert(w.len() != "COMMIT"@.len());
            assert(w.len() != "CONSTRAINT"@.len());
            assert(w.len() != "LESSON"@.len());
            assert(w.len() != "PLAN"@.len());
            assert(w.len() != "FEATURE"@.len());
            assert(w.len() != "STUB"@.len());
            assert(w.len() != "DEFERRED"@.len());
            assert(w.len() != "BUILDER_NOTE"@.len());
            assert(w.len() != "TECH_DEBT"@.len());
        },
    }
}

/// A text parses to a type only if it is that type's wire name.
pub proof fn lemma_parse_only_wire_names(s: Seq<char>)
    ensures
        (forall|j: nat| j < 11 ==> wire_name(#[trigger] type_at(j)) != s) ==> parse_wire_name(s)
            is None,
        parse_wire_name(s) matches Some(t) ==> wire_name(t) == s,
{
    assert(wire_name(type_at(0)) == "DECISION"@);
    assert(wire_name(type_at(1)) == "COMMIT"@);
    assert(wire_name(type_at(2)) == "CONSTRAINT"@);
    assert(wire_name(type_at(3)) == "LESSON"@);
    assert(wire_name(type_at(4)) == "PLAN"@);
    assert(wire_name(type_at(5)) == "FEATURE"@);
    assert(wire_name(type_at(6)) == "STUB"@);
    assert(wire_name(type_at(7)) == "DEFERRED"@);
    assert(wire_name(type_at(8)) == "BUILDER_NOTE"@);
    assert(wire_name(type_at(9)) == "TECH_DEBT"@);
    assert(wire_name(type_at(10)) == "SESSION_SUMMARY"@);
}

/// Every entry type may be written by the architect or by the builder, and by no other role.
pub proof fn lemma_every_type_has_a_writer(t: EntryType)
    ensures
        roles_of(t).len() >= 1,
        roles_of(t).contains("architect"@) || roles_of(t).contains("builder"@),
        forall|r: Seq<char>|
            #[trigger] roles_of(t).contains(r) ==> r == "architect"@ || r == "builder"@,
{
    match t {
        EntryType::Decision | EntryType::Constraint | EntryType::Lesson | EntryType::Plan
        | EntryType::Feature => {
            assert(roles_of(t)[0] == "architect"@);
        },
        EntryType::Commit | EntryType::Stub | EntryType::BuilderNote => {
            assert(roles_of(t)[0] == "builder"@);
        },
        EntryType::Deferred | EntryType::TechDebt | EntryType::SessionSummary => {
            assert(roles_of(t)[0] == "architect"@);
        },
    }
}

// ---------------------------------------------------------------------------
// Type-specific data structs
// ---------------------------------------------------------------------------

/// Metadata for a `Plan` entry.
#[derive(Debug, Clone)]
pub struct PlanData {
    /// The scope of the plan (e.g., "module", "project").
    pub scope: String,
    /// The TARS tier (S, M, L).
    pub tier: String,
    /// Execution status (e.g., "draft", "approved").
    pub status: String,
}

/// Metadata for a `Commit` entry.
#[derive(Debug, Clone)]
pub struct CommitData {
    /// Full or short git commit hash.
    pub hash: String,
    /// List of file paths modified in this commit.
    pub files: Vec<String>,
}

/// Metadata for a `Constraint` entry.
#[derive(Debug, Clone)]
pub struct ConstraintData {
    /// Source of the constraint (e.g., "legal", "infrastructure").
    pub source: String,
}

/// Metadata for a `Lesson` entry.
#[derive(Debug, Clone)]
pub struct LessonData {
    /// Explanation of why the lesson was necessary.
    pub root_cause: String,
}

/// Metadata for a `Feature` entry.
#[derive(Debug, Clone)]
pub struct FeatureData {
    /// Current development status of the feature.
    pub status: String,
}

/// Metadata for a `Stub` entry.
#[derive(Debug, Clone)]
pub struct StubData {
    /// The project phase this stub belongs to.
    pub phase_number: u32,
    /// Behavioral contract description.
    pub contract: String,
    /// Target module for implementation.
    pub module: String,
    /// Implementation status.
    pub status: String,
}

/// Metadata for a `Deferred` entry.
#[derive(Debug, Clone)]
pub struct DeferredData {
    /// Reason for deferring.
    pub reason: String,
    /// Intended phase for implementation.
    pub target_phase: u32,
}

/// Metadata for a `BuilderNote` entry.
#[derive(Debug, Clone)]
pub struct BuilderNoteData {
    /// Classification of the note (e.g., "observation").
    pub note_type: String,
    /// Reference to a plan step number.
    pub step_ref: String,
    /// Reference to the implementation plan ID.
    pub plan_ref: String,
}

/// Metadata for a `TechDebt` entry.
#[derive(Debug, Clone)]
pub struct TechDebtData {
    /// Impact level (e.g., "low", "high").
    pub severity: String,
    /// Phase where the debt was introduced.
    pub origin_phase: u32,
}

/// Metadata for a `SessionSummary` entry.
#[derive(Debug, Clone)]
pub struct SessionSummaryData {
    /// ISO 8601 date of the session.
    pub session_date: String,
    /// Number of entries created during the session.
    pub entries_created: Option<u32>,
    /// Number of entries updated during the session.
    pub entries_updated: Option<u32>,
    /// Number of entries deleted during the session.
    pub entries_deleted: Option<u32>,
}

// ---------------------------------------------------------------------------
// Reflect types
// ---------------------------------------------------------------------------

/// Focus criteria for the reflect analysis.
#[derive(Debug, Clone, Copy, PartialEq, Eq, Structural)]
pub enum ReflectFocus {
    /// Entries not updated beyond the stale threshold.
    Stale,
    /// Entries never accessed since creation.
    Dead,
    /// Frequently accessed but potentially outdated entries.
    Hot,
    /// Entries with broken or stale `related_entries` links.
    Orphaned,
    /// Same-type entries with textual or tag overlap.
    Contradictions,
    /// Run all checks.
    All,
}

impl Default for ReflectFocus {
    /// All checks.
    fn default() -> (r: Self)
        ensures
            r == ReflectFocus::All,
    {
        ReflectFocus::All
    }
}

/// Overall maturity state of the memory bank.
#[derive(Debug, Clone, Copy, PartialEq, Eq, Structural)]
pub enum MemoryState {
    /// Zero entries exist.
    Empty,
    /// Fewer than 5 entries — insufficient data for full analysis.
    Nascent,
    /// 5–99 entries — full analysis available.
    Active,
    /// 100+ entries — full analysis plus density warnings.
    Mature,
}

impl Default for MemoryState {
    /// The state of a bank with no entries.
    fn default() -> (r: Self)
        ensures
            r == MemoryState::Empty,
    {
        MemoryState::Empty
    }
}

/// Input parameters for the reflect analysis.
#[derive(Debug, Clone)]
pub struct ReflectCriteria {
    /// Which category of findings to surface.
    pub focus: ReflectFocus,
    /// Override the configured `stale_days` threshold for this call.
    pub stale_days: Option<u32>,
    /// Override the configured `hot_access_threshold` for this call.
    pub min_access_count: Option<u32>,
    /// Maximum number of findings to return (default: 20).
    pub limit: Option<u32>,
}

impl Default for ReflectCriteria {
    /// Focus on everything, with no overrides.
    fn default() -> (r: Self)
        ensures
            r.focus == ReflectFocus::All,
            r.stale_days is None,
            r.min_access_count is None,
            r.limit is None,
    {
        ReflectCriteria {
            focus: ReflectFocus::All,
            stale_days: None,
            min_access_count: None,
            limit: None,
        }
    }
}

/// A single actionable finding from the reflect analysis.
#[derive(Debug, Clone)]
pub struct ReflectFinding {
    /// Finding category (stale / dead / hot / orphaned / contradictions).
    pub category: String,
    /// UUID of the affected entry.
    pub entry_id: String,
    /// `EntryType` of the affected entry (serialized as string).
    pub entry_type: String,
    /// Title of the affected entry.
    pub title: String,
    /// Human-readable explanation of why this entry was flagged.
    pub reason: String,
}

/// Aggregate counts across all finding categories.
#[derive(Debug, Clone)]
pub struct ReflectSummary {
    /// Total number of findings.
    pub total: usize,
    /// Stale entry count.
    pub stale: usize,
    /// Dead entry count.
    pub dead: usize,
    /// Hot entry count.
    pub hot: usize,
    /// Orphaned entry count.
    pub orphaned: usize,
    /// Potential contradiction count.
    pub contradictions: usize,
}

impl Default for ReflectSummary {
    /// All counts zero.
    fn default() -> (r: Self)
        ensures
            r.total == 0 && r.stale == 0 && r.dead == 0 && r.hot == 0 && r.orphaned == 0
                && r.contradictions == 0,
    {
        ReflectSummary { total: 0, stale: 0, dead: 0, hot: 0, orphaned: 0, contradictions: 0 }
    }
}

/// Complete output of the reflect analysis.
#[derive(Debug, Clone)]
pub struct ReflectReport {
    /// Overall maturity classification of the memory bank.
    pub state: MemoryState,
    /// All findings up to the requested limit.
    pub findings: Vec<ReflectFinding>,
    /// Aggregate counts by category.
    pub summary: ReflectSummary,
    /// Optional guidance message (present when state = Empty or Nascent).
    pub guidance: Option<String>,
}

impl Default for ReflectReport {
    /// An empty report for an empty bank.
    fn default() -> (r: Self)
        ensures
            r.state == MemoryState::Empty,
            r.findings@.len() == 0,
            r.summary.total == 0,
            r.guidance is None,
    {
        ReflectReport {
            state: MemoryState::Empty,
            findings: Vec::new(),
            summary: ReflectSummary::default(),
            guidance: None,
        }
    }
}

/// Who may write each type: only architects write DECISION, CONSTRAINT,
/// LESSON, PLAN and FEATURE entries; only builders write COMMIT, STUB and
/// BUILDER_NOTE entries; both write DEFERRED, TECH_DEBT and SESSION_SUMMARY
/// entries; no other role writes anything.
pub proof fn lemma_writers_of_each_type(t: EntryType)
    ensures
        roles_of(t).contains("architect"@) <==> !(t == EntryType::Commit || t == EntryType::Stub
            || t == EntryType::BuilderNote),
        roles_of(t).contains("builder"@) <==> (t == EntryType::Commit || t == EntryType::Stub || t
            == EntryType::BuilderNote || t == EntryType::Deferred || t == EntryType::TechDebt || t
            == EntryType::SessionSummary),
        forall|i: int|
            0 <= i < roles_of(t).len() ==> #[trigger] roles_of(t)[i] == "architect"@ || roles_of(t)[i]
                == "builder"@,
{
    reveal_strlit("architect");
    reveal_strlit("builder");
    assert("architect"@ != "builder"@) by {
        assert("architect"@.len() != "builder"@.len());
    }
    let r = roles_of(t);
    if r.len() == 1 {
        assert(r.contains(r[0]));
    } else {
        assert(r.contains(r[0]));
        assert(r.contains(r[1]));
    }
}

} // verus!
