//! Topic-based help texts for agents.

use crate::model::types::{wire_name, EntryType};
use crate::text::same_text;
use vstd::prelude::*;

verus! {

pub const HELP_OVERVIEW: &'static str = "# Lorekeeper - Workflow Guide\n\n\
    Lorekeeper is your persistent structured memory bank. It survives across sessions.\n\n\
    ## Session Start\n\
    1. Call lorekeeper_stats - see current state of the memory bank\n\
    2. Call lorekeeper_recent - load recent context (last 10 entries)\n\
    3. Call lorekeeper_search - check for prior decisions and constraints\n\n\
    ## During Work\n\
    - Decision made -> lorekeeper_store type DECISION (architect role)\n\
    - Commit complete -> lorekeeper_store type COMMIT (builder role)\n\
    - Constraint found -> lorekeeper_store type CONSTRAINT (architect role)\n\
    - Lesson learned -> lorekeeper_store type LESSON (architect role)\n\
    - Plan created -> lorekeeper_store type PLAN (architect role)\n\
    - Work deferred -> lorekeeper_store type DEFERRED (either role)\n\
    - Tech debt noted -> lorekeeper_store type TECH_DEBT (either role)\n\n\
    ## Session End\n\
    - Update PLAN status to executed or abandoned via lorekeeper_update\n\
    - Resolve completed STUBs via lorekeeper_update\n\
    - Optionally call lorekeeper_render for a human-readable dump";

pub const HELP_ROLES: &'static str = "# Role Enforcement\n\n\
    | Role      | Allowed Types                                      |\n\
    |-----------|----------------------------------------------------||\n\
    | architect | DECISION, CONSTRAINT, LESSON, PLAN, FEATURE        |\n\
    | builder   | COMMIT, STUB, BUILDER_NOTE                         |\n\
    | both      | DEFERRED, TECH_DEBT                                |\n\n\
    Role violations are rejected server-side with a validation error.";

pub const HELP_TOOLS: &'static str = "# Lorekeeper Tools\n\n\
    ## Write\n\
    - lorekeeper_store  - create new entry\n\
    - lorekeeper_update - update existing entry\n\
    - lorekeeper_delete - soft-delete entry\n\
    - lorekeeper_render - export all entries as Markdown\n\n\
    ## Read\n\
    - lorekeeper_search  - full-text search (FTS5)\n\
    - lorekeeper_get     - retrieve by UUID\n\
    - lorekeeper_recent  - list newest entries\n\
    - lorekeeper_by_type - list filtered by type\n\
    - lorekeeper_stats   - aggregate counts\n\n\
    ## Help\n\
    - lorekeeper_help - this tool";

pub const HELP_DECISION: &'static str = "# DECISION\n\
    Records an architectural or technical decision.\n\
    - Role: architect only\n\
    - data: not required\n\
    - Use: when committing to an approach, library, or design pattern";

pub const HELP_COMMIT: &'static str = "# COMMIT\n\
    Records a git commit with hash and changed files.\n\
    - Role: builder only\n\
    - data: { hash: <sha>, files: [src/main.rs] }\n\
    - Use: after every significant git commit during Act phase";

pub const HELP_CONSTRAINT: &'static str = "# CONSTRAINT\n\
    Records a hard limit or restriction the project must respect.\n\
    - Role: architect only\n\
    - data: { source: <origin e.g. legal, infra, user> }\n\
    - Use: when discovering a constraint that affects design decisions";

pub const HELP_LESSON: &'static str = "# LESSON\n\
    Records a lesson learned from a bug, incident, or failed approach.\n\
    - Role: architect only\n\
    - data: { root_cause: <explanation> }\n\
    - Use: after resolving a non-trivial issue";

pub const HELP_PLAN: &'static str = "# PLAN\n\
    Records an implementation or migration plan.\n\
    - Role: architect only\n\
    - data: { scope: <area>, tier: S|M|L, status: planned }\n\
    - Status transitions: planned -> executed | planned -> abandoned\n\
    - Use: at the start of an Act phase; update to executed when complete";

pub const HELP_FEATURE: &'static str = "# FEATURE\n\
    Records a new feature or capability being designed.\n\
    - Role: architect only\n\
    - data: { status: <proposed|in-progress|done> }\n\
    - Use: when defining a new capability during Think phase";

pub const HELP_STUB: &'static str = "# STUB\n\
    Registers a placeholder for incomplete functionality across phases.\n\
    - Role: builder only\n\
    - data: { phase_number: N, contract: <desc>, module: <mod>, status: open }\n\
    - Status transitions: open -> resolved\n\
    - Use: when leaving a stub; close with lorekeeper_update when implemented";

pub const HELP_DEFERRED: &'static str = "# DEFERRED\n\
    Records work explicitly deferred to a future phase.\n\
    - Role: architect or builder\n\
    - data: { reason: <why>, target_phase: N }\n\
    - Use: when agreeing to defer a feature or fix";

pub const HELP_BUILDER_NOTE: &'static str = "# BUILDER_NOTE\n\
    Records an observation or suggestion during Act phase for Architect review.\n\
    - Role: builder only\n\
    - data: { note_type: tip|warn, step_ref: <step N>, plan_ref: <plan-id> }\n\
    - Use: when you notice something worth flagging but outside current scope";

pub const HELP_TECH_DEBT: &'static str = "# TECH_DEBT\n\
    Records a known technical debt item for future remediation.\n\
    - Role: architect or builder\n\
    - data: { severity: low|medium|high, origin_phase: N }\n\
    - Use: when introducing a deliberate shortcut or leaving something suboptimal";

pub const HELP_UNKNOWN: &'static str = "Unknown topic. Valid topics: overview, workflow, roles, tools, \
    DECISION, COMMIT, CONSTRAINT, LESSON, PLAN, FEATURE, STUB, DEFERRED, BUILDER_NOTE, TECH_DEBT";

/// The help text for `topic`; topics not listed get the text naming the valid ones.
pub open spec fn help_text(topic: Seq<char>) -> Seq<char> {
    if topic == "overview"@ {
        HELP_OVERVIEW@
    } else if topic == "workflow"@ {
        HELP_OVERVIEW@
    } else if topic == "roles"@ {
        HELP_ROLES@
    } else if topic == "tools"@ {
        HELP_TOOLS@
    } else if topic == "DECISION"@ {
        HELP_DECISION@
    } else if topic == "COMMIT"@ {
        HELP_COMMIT@
    } else if topic == "CONSTRAINT"@ {
        HELP_CONSTRAINT@
    } else if topic == "LESSON"@ {
        HELP_LESSON@
    } else if topic == "PLAN"@ {
        HELP_PLAN@
    } else if topic == "FEATURE"@ {
        HELP_FEATURE@
    } else if topic == "STUB"@ {
        HELP_STUB@
    } else if topic == "DEFERRED"@ {
        HELP_DEFERRED@
    } else if topic == "BUILDER_NOTE"@ {
        HELP_BUILDER_NOTE@
    } else if topic == "TECH_DEBT"@ {
        HELP_TECH_DEBT@
    } else {
        HELP_UNKNOWN@
    }
}

/// Returns contextual help text for the given topic keyword.
pub fn get_help(topic: &str) -> (r: &'static str)
    ensures
        r@ == help_text(topic@),
{
    if same_text(topic, "overview") {
        HELP_OVERVIEW
    } else if same_text(topic, "workflow") {
        HELP_OVERVIEW
    } else if same_text(topic, "roles") {
        HELP_ROLES
    } else if same_text(topic, "tools") {
        HELP_TOOLS
    } else if same_text(topic, "DECISION") {
        HELP_DECISION
    } else if same_text(topic, "COMMIT") {
        HELP_COMMIT
    } else if same_text(topic, "CONSTRAINT") {
        HELP_CONSTRAINT
    } else if same_text(topic, "LESSON") {
        HELP_LESSON
    } else if same_text(topic, "PLAN") {
        HELP_PLAN
    } else if same_text(topic, "FEATURE") {
        HELP_FEATURE
    } else if same_text(topic, "STUB") {
        HELP_STUB
    } else if same_text(topic, "DEFERRED") {
        HELP_DEFERRED
    } else if same_text(topic, "BUILDER_NOTE") {
        HELP_BUILDER_NOTE
    } else if same_text(topic, "TECH_DEBT") {
        HELP_TECH_DEBT
    } else {
        HELP_UNKNOWN
    }
}

/// The topics the help knows (matched exactly, letter case included).
pub open spec fn known_topic(topic: Seq<char>) -> bool {
    ||| topic == "overview"@
    ||| topic == "workflow"@
    ||| topic == "roles"@
    ||| topic == "tools"@
    ||| topic == "DECISION"@
    ||| topic == "COMMIT"@
    ||| topic == "CONSTRAINT"@
    ||| topic == "LESSON"@
    ||| topic == "PLAN"@
    ||| topic == "FEATURE"@
    ||| topic == "STUB"@
    ||| topic == "DEFERRED"@
    ||| topic == "BUILDER_NOTE"@
    ||| topic == "TECH_DEBT"@
}

/// The help text a call gives: for the topic named, or for `overview` when
/// no topic is named.
pub fn help_for(topic: Option<&str>) -> (r: &'static str)
    ensures
        r@ == help_text(
            match topic {
                Some(t) => t@,
                None => "overview"@,
            },
        ),
{
    match topic {
        Some(t) => get_help(t),
        None => get_help("overview"),
    }
}

/// Every topic the help does not know gets one and the same answer, the text
/// naming the valid topics, and that answer differs from the answer to every
/// known topic; `workflow` is another name for `overview`.
pub proof fn lemma_unknown_topics_share_the_fallback(t: Seq<char>, k: Seq<char>)
    requires
        !known_topic(t),
        known_topic(k),
    ensures
        help_text(t) == HELP_UNKNOWN@,
        help_text(t) == help_text("nonexistent_topic"@),
        help_text(k) != help_text(t),
        help_text("overview"@) == help_text("workflow"@),
{
    reveal_strlit("# Lorekeeper - Workflow Guide\n\nLorekeeper is your persistent structured memory bank. It survives across sessions.\n\n## Session Start\n1. Call lorekeeper_stats - see current state of the memory bank\n2. Call lorekeeper_recent - load recent context (last 10 entries)\n3. Call lorekeeper_search - check for prior decisions and constraints\n\n## During Work\n- Decision made -> lorekeeper_store type DECISION (architect role)\n- Commit complete -> lorekeeper_store type COMMIT (builder role)\n- Constraint found -> lorekeeper_store type CONSTRAINT (architect role)\n- Lesson learned -> lorekeeper_store type LESSON (architect role)\n- Plan created -> lorekeeper_store type PLAN (architect role)\n- Work deferred -> lorekeeper_store type DEFERRED (either role)\n- Tech debt noted -> lorekeeper_store type TECH_DEBT (either role)\n\n## Session End\n- Update PLAN status to executed or abandoned via lorekeeper_update\n- Resolve completed STUBs via lorekeeper_update\n- Optionally call lorekeeper_render for a human-readable dump");
    reveal_strlit("# Role Enforcement\n\n| Role      | Allowed Types                                      |\n|-----------|----------------------------------------------------||\n| architect | DECISION, CONSTRAINT, LESSON, PLAN, FEATURE        |\n| builder   | COMMIT, STUB, BUILDER_NOTE                         |\n| both      | DEFERRED, TECH_DEBT                                |\n\nRole violations are rejected server-side with a validation error.");
    reveal_strlit("# Lorekeeper Tools\n\n## Write\n- lorekeeper_store  - create new entry\n- lorekeeper_update - update existing entry\n- lorekeeper_delete - soft-delete entry\n- lorekeeper_render - export all entries as Markdown\n\n## Read\n- lorekeeper_search  - full-text search (FTS5)\n- lorekeeper_get     - retrieve by UUID\n- lorekeeper_recent  - list newest entries\n- lorekeeper_by_type - list filtered by type\n- lorekeeper_stats   - aggregate counts\n\n## Help\n- lorekeeper_help - this tool");
    reveal_strlit("# DECISION\nRecords an architectural or technical decision.\n- Role: architect only\n- data: not required\n- Use: when committing to an approach, library, or design pattern");
    reveal_strlit("# COMMIT\nRecords a git commit with hash and changed files.\n- Role: builder only\n- data: { hash: <sha>, files: [src/main.rs] }\n- Use: after every significant git commit during Act phase");
    reveal_strlit("# CONSTRAINT\nRecords a hard limit or restriction the project must respect.\n- Role: architect only\n- data: { source: <origin e.g. legal, infra, user> }\n- Use: when discovering a constraint that affects design decisions");
    reveal_strlit("# LESSON\nRecords a lesson learned from a bug, incident, or failed approach.\n- Role: architect only\n- data: { root_cause: <explanation> }\n- Use: after resolving a non-trivial issue");
    reveal_strlit("# PLAN\nRecords an implementation or migration plan.\n- Role: architect only\n- data: { scope: <area>, tier: S|M|L, status: planned }\n- Status transitions: planned -> executed | planned -> abandoned\n- Use: at the start of an Act phase; update to executed when complete");
    reveal_strlit("# FEATURE\nRecords a new feature or capability being designed.\n- Role: architect only\n- data: { status: <proposed|in-progress|done> }\n- Use: when defining a new capability during Think phase");
    reveal_strlit("# STUB\nRegisters a placeholder for incomplete functionality across phases.\n- Role: builder only\n- data: { phase_number: N, contract: <desc>, module: <mod>, status: open }\n- Status transitions: open -> resolved\n- Use: when leaving a stub; close with lorekeeper_update when implemented");
    reveal_strlit("# DEFERRED\nRecords work explicitly deferred to a future phase.\n- Role: architect or builder\n- data: { reason: <why>, target_phase: N }\n- Use: when agreeing to defer a feature or fix");
    reveal_strlit("# BUILDER_NOTE\nRecords an observation or suggestion during Act phase for Architect review.\n- Role: builder only\n- data: { note_type: tip|warn, step_ref: <step N>, plan_ref: <plan-id> }\n- Use: when you notice something worth flagging but outside current scope");
    reveal_strlit("# TECH_DEBT\nRecords a known technical debt item for future remediation.\n- Role: architect or builder\n- data: { severity: low|medium|high, origin_phase: N }\n- Use: when introducing a deliberate shortcut or leaving something suboptimal");
    reveal_strlit("Unknown topic. Valid topics: overview, workflow, roles, tools, DECISION, COMMIT, CONSTRAINT, LESSON, PLAN, FEATURE, STUB, DEFERRED, BUILDER_NOTE, TECH_DEBT");
    reveal_strlit("overview");
    reveal_strlit("workflow");
    reveal_strlit("roles");
    reveal_strlit("tools");
    reveal_strlit("DECISION");
    reveal_strlit("COMMIT");
    reveal_strlit("CONSTRAINT");
    reveal_strlit("LESSON");
    reveal_strlit("PLAN");
    reveal_strlit("FEATURE");
    reveal_strlit("STUB");
    reveal_strlit("DEFERRED");
    reveal_strlit("BUILDER_NOTE");
    reveal_strlit("TECH_DEBT");
    reveal_strlit("nonexistent_topic");
    assert(!known_topic("nonexistent_topic"@)) by {
        assert("nonexistent_topic"@.len() == 17);
    }
    assert(help_text(k)[0] == '#');
    assert(HELP_UNKNOWN@[0] == 'U');
}

/// Each entry-type topic gets its own help, headed by `# ` and the type's
/// name on a line of its own (SESSION_SUMMARY has no topic of its own and
/// gets the fallback); the other topics are headed by their own titles.
pub proof fn lemma_topics_get_their_own_help(t: EntryType)
    ensures
        t != EntryType::SessionSummary ==> help_text(wire_name(t)).take(wire_name(t).len() as int + 3)
            == "# "@ + wire_name(t) + "\n"@,
        t == EntryType::SessionSummary ==> help_text(wire_name(t)) == HELP_UNKNOWN@,
        help_text("overview"@).take(30) == "# Lorekeeper - Workflow Guide\n"@,
        help_text("roles"@).take(19) == "# Role Enforcement\n"@,
        help_text("tools"@).take(19) == "# Lorekeeper Tools\n"@,
{
    reveal_strlit("# Lorekeeper - Workflow Guide\n\nLorekeeper is your persistent structured memory bank. It survives across sessions.\n\n## Session Start\n1. Call lorekeeper_stats - see current state of the memory bank\n2. Call lorekeeper_recent - load recent context (last 10 entries)\n3. Call lorekeeper_search - check for prior decisions and constraints\n\n## During Work\n- Decision made -> lorekeeper_store type DECISION (architect role)\n- Commit complete -> lorekeeper_store type COMMIT (builder role)\n- Constraint found -> lorekeeper_store type CONSTRAINT (architect role)\n- Lesson learned -> lorekeeper_store type LESSON (architect role)\n- Plan created -> lorekeeper_store type PLAN (architect role)\n- Work deferred -> lorekeeper_store type DEFERRED (either role)\n- Tech debt noted -> lorekeeper_store type TECH_DEBT (either role)\n\n## Session End\n- Update PLAN status to executed or abandoned via lorekeeper_update\n- Resolve completed STUBs via lorekeeper_update\n- Optionally call lorekeeper_render for a human-readable dump");
    reveal_strlit("# Role Enforcement\n\n| Role      | Allowed Types                                      |\n|-----------|----------------------------------------------------||\n| architect | DECISION, CONSTRAINT, LESSON, PLAN, FEATURE        |\n| builder   | COMMIT, STUB, BUILDER_NOTE                         |\n| both      | DEFERRED, TECH_DEBT                                |\n\nRole violations are rejected server-side with a validation error.");
    reveal_strlit("# Lorekeeper Tools\n\n## Write\n- lorekeeper_store  - create new entry\n- lorekeeper_update - update existing entry\n- lorekeeper_delete - soft-delete entry\n- lorekeeper_render - export all entries as Markdown\n\n## Read\n- lorekeeper_search  - full-text search (FTS5)\n- lorekeeper_get     - retrieve by UUID\n- lorekeeper_recent  - list newest entries\n- lorekeeper_by_type - list filtered by type\n- lorekeeper_stats   - aggregate counts\n\n## Help\n- lorekeeper_help - this tool");
    reveal_strlit("# DECISION\nRecords an architectural or technical decision.\n- Role: architect only\n- data: not required\n- Use: when committing to an approach, library, or design pattern");
    reveal_strlit("# COMMIT\nRecords a git commit with hash and changed files.\n- Role: builder only\n- data: { hash: <sha>, files: [src/main.rs] }\n- Use: after every significant git commit during Act phase");
    reveal_strlit("# CONSTRAINT\nRecords a hard limit or restriction the project must respect.\n- Role: architect only\n- data: { source: <origin e.g. legal, infra, user> }\n- Use: when discovering a constraint that affects design decisions");
    reveal_strlit("# LESSON\nRecords a lesson learned from a bug, incident, or failed approach.\n- Role: architect only\n- data: { root_cause: <explanation> }\n- Use: after resolving a non-trivial issue");
    reveal_strlit("# PLAN\nRecords an implementation or migration plan.\n- Role: architect only\n- data: { scope: <area>, tier: S|M|L, status: planned }\n- Status transitions: planned -> executed | planned -> abandoned\n- Use: at the start of an Act phase; update to executed when complete");
    reveal_strlit("# FEATURE\nRecords a new feature or capability being designed.\n- Role: architect only\n- data: { status: <proposed|in-progress|done> }\n- Use: when defining a new capability during Think phase");
    reveal_strlit("# STUB\nRegisters a placeholder for incomplete functionality across phases.\n- Role: builder only\n- data: { phase_number: N, contract: <desc>, module: <mod>, status: open }\n- Status transitions: open -> resolved\n- Use: when leaving a stub; close with lorekeeper_update when implemented");
    reveal_strlit("# DEFERRED\nRecords work explicitly deferred to a future phase.\n- Role: architect or builder\n- data: { reason: <why>, target_phase: N }\n- Use: when agreeing to defer a feature or fix");
    reveal_strlit("# BUILDER_NOTE\nRecords an observation or suggestion during Act phase for Architect review.\n- Role: builder only\n- data: { note_type: tip|warn, step_ref: <step N>, plan_ref: <plan-id> }\n- Use: when you notice something worth flagging but outside current scope");
    reveal_strlit("# TECH_DEBT\nRecords a known technical debt item for future remediation.\n- Role: architect or builder\n- data: { severity: low|medium|high, origin_phase: N }\n- Use: when introducing a deliberate shortcut or leaving something suboptimal");
    reveal_strlit("Unknown topic. Valid topics: overview, workflow, roles, tools, DECISION, COMMIT, CONSTRAINT, LESSON, PLAN, FEATURE, STUB, DEFERRED, BUILDER_NOTE, TECH_DEBT");
    reveal_strlit("overview");
    reveal_strlit("workflow");
    reveal_strlit("roles");
    reveal_strlit("tools");
    reveal_strlit("DECISION");
    reveal_strlit("COMMIT");
    reveal_strlit("CONSTRAINT");
    reveal_strlit("LESSON");
    reveal_strlit("PLAN");
    reveal_strlit("FEATURE");
    reveal_strlit("STUB");
    reveal_strlit("DEFERRED");
    reveal_strlit("BUILDER_NOTE");
    reveal_strlit("TECH_DEBT");
    reveal_strlit("SESSION_SUMMARY");
    reveal_strlit("# ");
    reveal_strlit("\n");
    reveal_strlit("# Lorekeeper - Workflow Guide\n");
    reveal_strlit("# Role Enforcement\n");
    reveal_strlit("# Lorekeeper Tools\n");
    assert(help_text("overview"@) == HELP_OVERVIEW@);
    assert(help_text("roles"@) == HELP_ROLES@) by {
        assert("roles"@.len() != "overview"@.len() && "roles"@.len() != "workflow"@.len());
    }
    assert(help_text("tools"@) == HELP_TOOLS@) by {
        assert("tools"@.len() != "overview"@.len() && "tools"@.len() != "workflow"@.len());
        assert("tools"@[0] != "roles"@[0]);
    }
    assert(HELP_OVERVIEW@.take(30) =~= "# Lorekeeper - Workflow Guide\n"@);
    assert(HELP_ROLES@.take(19) =~= "# Role Enforcement\n"@);
    assert(HELP_TOOLS@.take(19) =~= "# Lorekeeper Tools\n"@);
    let w = wire_name(t);
    let n = w.len() as int + 3;
    match t {
        EntryType::Decision => {
            assert("DECISION"@[0] != "overview"@[0] && "DECISION"@[0] != "workflow"@[0] && "DECISION"@.len() != "roles"@.len() && "DECISION"@.len() != "tools"@.len());
            assert(HELP_DECISION@.take(n) =~= "# "@ + w + "\n"@);
        },
        EntryType::Commit => {
            assert("COMMIT"@.len() != "overview"@.len() && "COMMIT"@.len() != "workflow"@.len() && "COMMIT"@.len() != "roles"@.len() && "COMMIT"@.len() != "tools"@.len() && "COMMIT"@.len() != "DECISION"@.len());
            assert(HELP_COMMIT@.take(n) =~= "# "@ + w + "\n"@);
        },
        EntryType::Constraint => {
            assert("CONSTRAINT"@.len() != "overview"@.len() && "CONSTRAINT"@.len() != "workflow"@.len() && "CONSTRAINT"@.len() != "roles"@.len() && "CONSTRAINT"@.len() != "tools"@.len() && "CONSTRAINT"@.len() != "DECISION"@.len() && "CONSTRAINT"@.len() != "COMMIT"@.len());
            assert(HELP_CONSTRAINT@.take(n) =~= "# "@ + w + "\n"@);
        },
        EntryType::Lesson => {
            assert("LESSON"@.len() != "overview"@.len() && "LESSON"@.len() != "workflow"@.len() && "LESSON"@.len() != "roles"@.len() && "LESSON"@.len() != "tools"@.len() && "LESSON"@.len() != "DECISION"@.len() && "LESSON"@[0] != "COMMIT"@[0] && "LESSON"@.len() != "CONSTRAINT"@.len());
            assert(HELP_LESSON@.take(n) =~= "# "@ + w + "\n"@);
        },
        EntryType::Plan => {
            assert("PLAN"@.len() != "overview"@.len() && "PLAN"@.len() != "workflow"@.len() && "PLAN"@.len() != "roles"@.len() && "PLAN"@.len() != "tools"@.len() && "PLAN"@.len() != "DECISION"@.len() && "PLAN"@.len() != "COMMIT"@.len() && "PLAN"@.len() != "CONSTRAINT"@.len() && "PLAN"@.len() != "LESSON"@.len());
            assert(HELP_PLAN@.take(n) =~= "# "@ + w + "\n"@);
        },
        EntryType::Feature => {
            assert("FEATURE"@.len() != "overview"@.len() && "FEATURE"@.len() != "workflow"@.len() && "FEATURE"@.len() != "roles"@.len() && "FEATURE"@.len() != "tools"@.len() && "FEATURE"@.len() != "DECISION"@.len() && "FEATURE"@.len() != "COMMIT"@.len() && "FEATURE"@.len() != "CONSTRAINT"@.len() && "FEATURE"@.len() != "LESSON"@.len() && "FEATURE"@.len() != "PLAN"@.len());
            assert(HELP_FEATURE@.take(n) =~= "# "@ + w + "\n"@);
        },
        EntryType::Stub => {
            assert("STUB"@.len() != "overview"@.len() && "STUB"@.len() != "workflow"@.len() && "STUB"@.len() != "roles"@.len() && "STUB"@.len() != "tools"@.len() && "STUB"@.len() != "DECISION"@.len() && "STUB"@.len() != "COMMIT"@.len() && "STUB"@.len() != "CONSTRAINT"@.len() && "STUB"@.len() != "LESSON"@.len() && "STUB"@[0] != "PLAN"@[0] && "STUB"@.len() != "FEATURE"@.len());
            assert(HELP_STUB@.take(n) =~= "# "@ + w + "\n"@);
        },
        EntryType::Deferred => {
            assert("DEFERRED"@[0] != "overview"@[0] && "DEFERRED"@[0] != "workflow"@[0] && "DEFERRED"@.len() != "roles"@.len() && "DEFERRED"@.len() != "tools"@.len() && "DEFERRED"@[2] != "DECISION"@[2] && "DEFERRED"@.len() != "COMMIT"@.len() && "DEFERRED"@.len() != "CONSTRAINT"@.len() && "DEFERRED"@.len() != "LESSON"@.len() && "DEFERRED"@.len() != "PLAN"@.len() && "DEFERRED"@.len() != "FEATURE"@.len() && "DEFERRED"@.len() != "STUB"@.len());
            assert(HELP_DEFERRED@.take(n) =~= "# "@ + w + "\n"@);
        },
        EntryType::BuilderNote => {
            assert("BUILDER_NOTE"@.len() != "overview"@.len() && "BUILDER_NOTE"@.len() != "workflow"@.len() && "BUILDER_NOTE"@.len() != "roles"@.len() && "BUILDER_NOTE"@.len() != "tools"@.len() && "BUILDER_NOTE"@.len() != "DECISION"@.len() && "BUILDER_NOTE"@.len() != "COMMIT"@.len() && "BUILDER_NOTE"@.len() != "CONSTRAINT"@.len() && "BUILDER_NOTE"@.len() != "LESSON"@.len() && "BUILDER_NOTE"@.len() != "PLAN"@.len() && "BUILDER_NOTE"@.len() != "FEATURE"@.len() && "BUILDER_NOTE"@.len() != "STUB"@.len() && "BUILDER_NOTE"@.len() != "DEFERRED"@.len());
            assert(HELP_BUILDER_NOTE@.take(n) =~= "# "@ + w + "\n"@);
        },
        EntryType::TechDebt => {
            assert("TECH_DEBT"@.len() != "overview"@.len() && "TECH_DEBT"@.len() != "workflow"@.len() && "TECH_DEBT"@.len() != "roles"@.len() && "TECH_DEBT"@.len() != "tools"@.len() && "TECH_DEBT"@.len() != "DECISION"@.len() && "TECH_DEBT"@.len() != "COMMIT"@.len() && "TECH_DEBT"@.len() != "CONSTRAINT"@.len() && "TECH_DEBT"@.len() != "LESSON"@.len() && "TECH_DEBT"@.len() != "PLAN"@.len() && "TECH_DEBT"@.len() != "FEATURE"@.len() && "TECH_DEBT"@.len() != "STUB"@.len() && "TECH_DEBT"@.len() != "DEFERRED"@.len() && "TECH_DEBT"@.len() != "BUILDER_NOTE"@.len());
            assert(HELP_TECH_DEBT@.take(n) =~= "# "@ + w + "\n"@);
        },
        EntryType::SessionSummary => {},
    }
}

/// Different known topics get different help, except `overview` and
/// `workflow`, which name the same guide.
pub proof fn lemma_known_topics_get_distinct_help(k1: Seq<char>, k2: Seq<char>)
    requires
        known_topic(k1),
        known_topic(k2),
        k1 != k2,
        !((k1 == "overview"@ || k1 == "workflow"@) && (k2 == "overview"@ || k2 == "workflow"@)),
    ensures
        help_text(k1) != help_text(k2),
{
    reveal_strlit("# Lorekeeper - Workflow Guide\n\nLorekeeper is your persistent structured memory bank. It survives across sessions.\n\n## Session Start\n1. Call lorekeeper_stats - see current state of the memory bank\n2. Call lorekeeper_recent - load recent context (last 10 entries)\n3. Call lorekeeper_search - check for prior decisions and constraints\n\n## During Work\n- Decision made -> lorekeeper_store type DECISION (architect role)\n- Commit complete -> lorekeeper_store type COMMIT (builder role)\n- Constraint found -> lorekeeper_store type CONSTRAINT (architect role)\n- Lesson learned -> lorekeeper_store type LESSON (architect role)\n- Plan created -> lorekeeper_store type PLAN (architect role)\n- Work deferred -> lorekeeper_store type DEFERRED (either role)\n- Tech debt noted -> lorekeeper_store type TECH_DEBT (either role)\n\n## Session End\n- Update PLAN status to executed or abandoned via lorekeeper_update\n- Resolve completed STUBs via lorekeeper_update\n- Optionally call lorekeeper_render for a human-readable dump");
    reveal_strlit("# Role Enforcement\n\n| Role      | Allowed Types                                      |\n|-----------|----------------------------------------------------||\n| architect | DECISION, CONSTRAINT, LESSON, PLAN, FEATURE        |\n| builder   | COMMIT, STUB, BUILDER_NOTE                         |\n| both      | DEFERRED, TECH_DEBT                                |\n\nRole violations are rejected server-side with a validation error.");
    reveal_strlit("# Lorekeeper Tools\n\n## Write\n- lorekeeper_store  - create new entry\n- lorekeeper_update - update existing entry\n- lorekeeper_delete - soft-delete entry\n- lorekeeper_render - export all entries as Markdown\n\n## Read\n- lorekeeper_search  - full-text search (FTS5)\n- lorekeeper_get     - retrieve by UUID\n- lorekeeper_recent  - list newest entries\n- lorekeeper_by_type - list filtered by type\n- lorekeeper_stats   - aggregate counts\n\n## Help\n- lorekeeper_help - this tool");
    reveal_strlit("# DECISION\nRecords an architectural or technical decision.\n- Role: architect only\n- data: not required\n- Use: when committing to an approach, library, or design pattern");
    reveal_strlit("# COMMIT\nRecords a git commit with hash and changed files.\n- Role: builder only\n- data: { hash: <sha>, files: [src/main.rs] }\n- Use: after every significant git commit during Act phase");
    reveal_strlit("# CONSTRAINT\nRecords a hard limit or restriction the project must respect.\n- Role: architect only\n- data: { source: <origin e.g. legal, infra, user> }\n- Use: when discovering a constraint that affects design decisions");
    reveal_strlit("# LESSON\nRecords a lesson learned from a bug, incident, or failed approach.\n- Role: architect only\n- data: { root_cause: <explanation> }\n- Use: after resolving a non-trivial issue");
    reveal_strlit("# PLAN\nRecords an implementation or migration plan.\n- Role: architect only\n- data: { scope: <area>, tier: S|M|L, status: planned }\n- Status transitions: planned -> executed | planned -> abandoned\n- Use: at the start of an Act phase; update to executed when complete");
    reveal_strlit("# FEATURE\nRecords a new feature or capability being designed.\n- Role: architect only\n- data: { status: <proposed|in-progress|done> }\n- Use: when defining a new capability during Think phase");
    reveal_strlit("# STUB\nRegisters a placeholder for incomplete functionality across phases.\n- Role: builder only\n- data: { phase_number: N, contract: <desc>, module: <mod>, status: open }\n- Status transitions: open -> resolved\n- Use: when leaving a stub; close with lorekeeper_update when implemented");
    reveal_strlit("# DEFERRED\nRecords work explicitly deferred to a future phase.\n- Role: architect or builder\n- data: { reason: <why>, target_phase: N }\n- Use: when agreeing to defer a feature or fix");
    reveal_strlit("# BUILDER_NOTE\nRecords an observation or suggestion during Act phase for Architect review.\n- Role: builder only\n- data: { note_type: tip|warn, step_ref: <step N>, plan_ref: <plan-id> }\n- Use: when you notice something worth flagging but outside current scope");
    reveal_strlit("# TECH_DEBT\nRecords a known technical debt item for future remediation.\n- Role: architect or builder\n- data: { severity: low|medium|high, origin_phase: N }\n- Use: when introducing a deliberate shortcut or leaving something suboptimal");
    reveal_strlit("Unknown topic. Valid topics: overview, workflow, roles, tools, DECISION, COMMIT, CONSTRAINT, LESSON, PLAN, FEATURE, STUB, DEFERRED, BUILDER_NOTE, TECH_DEBT");
    reveal_strlit("overview");
    reveal_strlit("workflow");
    reveal_strlit("roles");
    reveal_strlit("tools");
    reveal_strlit("DECISION");
    reveal_strlit("COMMIT");
    reveal_strlit("CONSTRAINT");
    reveal_strlit("LESSON");
    reveal_strlit("PLAN");
    reveal_strlit("FEATURE");
    reveal_strlit("STUB");
    reveal_strlit("DEFERRED");
    reveal_strlit("BUILDER_NOTE");
    reveal_strlit("TECH_DEBT");
    assert(help_text(k1).len() != help_text(k2).len());
}

} // verus!
