//! The tools the server offers, how a tool name is read and the defaults of tool arguments.

use crate::text::same_text;
use vstd::prelude::*;

verus! {

/// The kind of value a tool argument takes.
#[derive(Debug, Clone, Copy, PartialEq, Eq, Structural)]
pub enum PropKind {
    /// A string.
    Text,
    /// An array of strings.
    TextList,
    /// A JSON object.
    Object,
    /// An integer.
    Integer,
    /// An integer with a default value.
    IntegerDefault(i64),
}

/// One argument of a tool.
#[derive(Debug, Clone, Copy)]
pub struct ToolProperty {
    pub name: &'static str,
    pub kind: PropKind,
}

/// A tool: its name, description, arguments and required arguments.
#[derive(Debug, Clone, Copy)]
pub struct ToolSpec {
    pub name: &'static str,
    pub description: &'static str,
    pub properties: &'static [ToolProperty],
    pub required: &'static [&'static str],
}

/// The tools the server offers.
#[derive(Debug, Clone, Copy, PartialEq, Eq, Structural)]
pub enum ToolName {
    Store,
    Search,
    Get,
    Update,
    Delete,
    Recent,
    ByType,
    Render,
    Stats,
    Reflect,
    SetRoot,
    Help,
}

/// A tool as plain text: name, description, arguments and required arguments.
pub type ToolView = (Seq<char>, Seq<char>, Seq<(Seq<char>, PropKind)>, Seq<Seq<char>>);

/// The plain text of a tool.
pub open spec fn tool_view(t: ToolSpec) -> ToolView {
    (
        t.name@,
        t.description@,
        t.properties@.map_values(|p: ToolProperty| (p.name@, p.kind)),
        t.required@.map_values(|s: &'static str| s@),
    )
}

/// The catalogue of tools, in the order they are listed.
pub open spec fn catalogue() -> Seq<ToolView> {
    seq![
        ("lorekeeper_store"@, "Store a new memory entry (Decision, Commit, Constraint, etc.)"@, seq![("entry_type"@, PropKind::Text), ("title"@, PropKind::Text), ("body"@, PropKind::Text), ("role"@, PropKind::Text), ("tags"@, PropKind::TextList), ("related_entries"@, PropKind::TextList), ("data"@, PropKind::Object)], seq!["entry_type"@, "title"@, "role"@]),
        ("lorekeeper_search"@, "Search entries using FTS5 (title, body, tags)"@, seq![("query"@, PropKind::Text), ("entry_type"@, PropKind::Text), ("limit"@, PropKind::IntegerDefault(20))], seq!["query"@]),
        ("lorekeeper_get"@, "Retrieve a specific entry by ID"@, seq![("id"@, PropKind::Text)], seq!["id"@]),
        ("lorekeeper_update"@, "Update an existing entry"@, seq![("id"@, PropKind::Text), ("title"@, PropKind::Text), ("body"@, PropKind::Text), ("tags"@, PropKind::TextList), ("related_entries"@, PropKind::TextList), ("data"@, PropKind::Object)], seq!["id"@]),
        ("lorekeeper_delete"@, "Soft-delete an entry"@, seq![("id"@, PropKind::Text)], seq!["id"@]),
        ("lorekeeper_recent"@, "List recent entries"@, seq![("limit"@, PropKind::IntegerDefault(10))], seq![]),
        ("lorekeeper_by_type"@, "List entries by type with pagination"@, seq![("entry_type"@, PropKind::Text), ("status"@, PropKind::Text), ("limit"@, PropKind::IntegerDefault(20)), ("offset"@, PropKind::IntegerDefault(0))], seq!["entry_type"@]),
        ("lorekeeper_render"@, "Export all entries as Markdown"@, seq![], seq![]),
        ("lorekeeper_stats"@, "Get memory statistics"@, seq![], seq![]),
        ("lorekeeper_reflect"@, "Surface stale, dead, hot, orphaned or contradictory entries"@, seq![("focus"@, PropKind::Text), ("stale_days"@, PropKind::Integer), ("min_access_count"@, PropKind::Integer), ("limit"@, PropKind::IntegerDefault(20))], seq![]),
        ("lorekeeper_set_root"@, "Switch the active project root"@, seq![("path"@, PropKind::Text)], seq!["path"@]),
        ("lorekeeper_help"@, "Get contextual help on a topic or entry type"@, seq![("topic"@, PropKind::Text)], seq![]),
    ]
}

/// The name under which a tool is called.
pub open spec fn tool_name_text(t: ToolName) -> Seq<char> {
    match t {
        ToolName::Store => "lorekeeper_store"@,
        ToolName::Search => "lorekeeper_search"@,
        ToolName::Get => "lorekeeper_get"@,
        ToolName::Update => "lorekeeper_update"@,
        ToolName::Delete => "lorekeeper_delete"@,
        ToolName::Recent => "lorekeeper_recent"@,
        ToolName::ByType => "lorekeeper_by_type"@,
        ToolName::Render => "lorekeeper_render"@,
        ToolName::Stats => "lorekeeper_stats"@,
        ToolName::Reflect => "lorekeeper_reflect"@,
        ToolName::SetRoot => "lorekeeper_set_root"@,
        ToolName::Help => "lorekeeper_help"@,
    }
}

/// The tool called `s`, if any.
pub open spec fn tool_of_name(s: Seq<char>) -> Option<ToolName> {
    if s == "lorekeeper_store"@ {
        Some(ToolName::Store)
    } else if s == "lorekeeper_search"@ {
        Some(ToolName::Search)
    } else if s == "lorekeeper_get"@ {
        Some(ToolName::Get)
    } else if s == "lorekeeper_update"@ {
        Some(ToolName::Update)
    } else if s == "lorekeeper_delete"@ {
        Some(ToolName::Delete)
    } else if s == "lorekeeper_recent"@ {
        Some(ToolName::Recent)
    } else if s == "lorekeeper_by_type"@ {
        Some(ToolName::ByType)
    } else if s == "lorekeeper_render"@ {
        Some(ToolName::Render)
    } else if s == "lorekeeper_stats"@ {
        Some(ToolName::Stats)
    } else if s == "lorekeeper_reflect"@ {
        Some(ToolName::Reflect)
    } else if s == "lorekeeper_set_root"@ {
        Some(ToolName::SetRoot)
    } else if s == "lorekeeper_help"@ {
        Some(ToolName::Help)
    } else {
        None
    }
}

/// The tools the server offers, with their arguments.
pub fn tool_catalogue() -> (r: Vec<ToolSpec>)
    ensures
        r@.map_values(|t: ToolSpec| tool_view(t)) == catalogue(),
{
    proof {
        reveal_strlit("Export all entries as Markdown");
        reveal_strlit("Get contextual help on a topic or entry type");
        reveal_strlit("Get memory statistics");
        reveal_strlit("List entries by type with pagination");
        reveal_strlit("List recent entries");
        reveal_strlit("Retrieve a specific entry by ID");
        reveal_strlit("Search entries using FTS5 (title, body, tags)");
        reveal_strlit("Soft-delete an entry");
        reveal_strlit("Store a new memory entry (Decision, Commit, Constraint, etc.)");
        reveal_strlit("Surface stale, dead, hot, orphaned or contradictory entries");
        reveal_strlit("Switch the active project root");
        reveal_strlit("Update an existing entry");
        reveal_strlit("body");
        reveal_strlit("data");
        reveal_strlit("entry_type");
        reveal_strlit("focus");
        reveal_strlit("id");
        reveal_strlit("limit");
        reveal_strlit("lorekeeper_by_type");
        reveal_strlit("lorekeeper_delete");
        reveal_strlit("lorekeeper_get");
        reveal_strlit("lorekeeper_help");
        reveal_strlit("lorekeeper_recent");
        reveal_strlit("lorekeeper_reflect");
        reveal_strlit("lorekeeper_render");
        reveal_strlit("lorekeeper_search");
        reveal_strlit("lorekeeper_set_root");
        reveal_strlit("lorekeeper_stats");
        reveal_strlit("lorekeeper_store");
        reveal_strlit("lorekeeper_update");
        reveal_strlit("min_access_count");
        reveal_strlit("offset");
        reveal_strlit("path");
        reveal_strlit("query");
        reveal_strlit("related_entries");
        reveal_strlit("role");
        reveal_strlit("stale_days");
        reveal_strlit("status");
        reveal_strlit("tags");
        reveal_strlit("title");
        reveal_strlit("topic");
    }
    let mut r: Vec<ToolSpec> = Vec::new();
    let t = ToolSpec {
        name: "lorekeeper_store",
        description: "Store a new memory entry (Decision, Commit, Constraint, etc.)",
        properties: &[ToolProperty { name: "entry_type", kind: PropKind::Text }, ToolProperty { name: "title", kind: PropKind::Text }, ToolProperty { name: "body", kind: PropKind::Text }, ToolProperty { name: "role", kind: PropKind::Text }, ToolProperty { name: "tags", kind: PropKind::TextList }, ToolProperty { name: "related_entries", kind: PropKind::TextList }, ToolProperty { name: "data", kind: PropKind::Object }],
        required: &["entry_type", "title", "role"],
    };
    assert(tool_view(t) == catalogue()[r@.len() as int]);
    r.push(t);
    let t = ToolSpec {
        name: "lorekeeper_search",
        description: "Search entries using FTS5 (title, body, tags)",
        properties: &[ToolProperty { name: "query", kind: PropKind::Text }, ToolProperty { name: "entry_type", kind: PropKind::Text }, ToolProperty { name: "limit", kind: PropKind::IntegerDefault(20) }],
        required: &["query"],
    };
    assert(tool_view(t) == catalogue()[r@.len() as int]);
    r.push(t);
    let t = ToolSpec {
        name: "lorekeeper_get",
        description: "Retrieve a specific entry by ID",
        properties: &[ToolProperty { name: "id", kind: PropKind::Text }],
        required: &["id"],
    };
    assert(tool_view(t) == catalogue()[r@.len() as int]);
    r.push(t);
    let t = ToolSpec {
        name: "lorekeeper_update",
        description: "Update an existing entry",
        properties: &[ToolProperty { name: "id", kind: PropKind::Text }, ToolProperty { name: "title", kind: PropKind::Text }, ToolProperty { name: "body", kind: PropKind::Text }, ToolProperty { name: "tags", kind: PropKind::TextList }, ToolProperty { name: "related_entries", kind: PropKind::TextList }, ToolProperty { name: "data", kind: PropKind::Object }],
        required: &["id"],
    };
    assert(tool_view(t) == catalogue()[r@.len() as int]);
    r.push(t);
    let t = ToolSpec {
        name: "lorekeeper_delete",
        description: "Soft-delete an entry",
        properties: &[ToolProperty { name: "id", kind: PropKind::Text }],
        required: &["id"],
    };
    assert(tool_view(t) == catalogue()[r@.len() as int]);
    r.push(t);
    let t = ToolSpec {
        name: "lorekeeper_recent",
        description: "List recent entries",
        properties: &[ToolProperty { name: "limit", kind: PropKind::IntegerDefault(10) }],
        required: &[],
    };
    assert(tool_view(t) == catalogue()[r@.len() as int]);
    r.push(t);
    let t = ToolSpec {
        name: "lorekeeper_by_type",
        description: "List entries by type with pagination",
        properties: &[ToolProperty { name: "entry_type", kind: PropKind::Text }, ToolProperty { name: "status", kind: PropKind::Text }, ToolProperty { name: "limit", kind: PropKind::IntegerDefault(20) }, ToolProperty { name: "offset", kind: PropKind::IntegerDefault(0) }],
        required: &["entry_type"],
    };
    assert(tool_view(t) == catalogue()[r@.len() as int]);
    r.push(t);
    let t = ToolSpec {
        name: "lorekeeper_render",
        description: "Export all entries as Markdown",
        properties: &[],
        required: &[],
    };
    assert(tool_view(t) == catalogue()[r@.len() as int]);
    r.push(t);
    let t = ToolSpec {
        name: "lorekeeper_stats",
        description: "Get memory statistics",
        properties: &[],
        required: &[],
    };
    assert(tool_view(t) == catalogue()[r@.len() as int]);
    r.push(t);
    let t = ToolSpec {
        name: "lorekeeper_reflect",
        description: "Surface stale, dead, hot, orphaned or contradictory entries",
        properties: &[ToolProperty { name: "focus", kind: PropKind::Text }, ToolProperty { name: "stale_days", kind: PropKind::Integer }, ToolProperty { name: "min_access_count", kind: PropKind::Integer }, ToolProperty { name: "limit", kind: PropKind::IntegerDefault(20) }],
        required: &[],
    };
    assert(tool_view(t) == catalogue()[r@.len() as int]);
    r.push(t);
    let t = ToolSpec {
        name: "lorekeeper_set_root",
        description: "Switch the active project root",
        properties: &[ToolProperty { name: "path", kind: PropKind::Text }],
        required: &["path"],
    };
    assert(tool_view(t) == catalogue()[r@.len() as int]);
    r.push(t);
    let t = ToolSpec {
        name: "lorekeeper_help",
        description: "Get contextual help on a topic or entry type",
        properties: &[ToolProperty { name: "topic", kind: PropKind::Text }],
        required: &[],
    };
    assert(tool_view(t) == catalogue()[r@.len() as int]);
    r.push(t);
    assert(r@.map_values(|t: ToolSpec| tool_view(t)) =~= catalogue());
    r
}

/// Reads a tool name.
pub fn parse_tool(name: &str) -> (r: Option<ToolName>)
    ensures
        r == tool_of_name(name@),
{
    if same_text(name, "lorekeeper_store") {
        Some(ToolName::Store)
    } else if same_text(name, "lorekeeper_search") {
        Some(ToolName::Search)
    } else if same_text(name, "lorekeeper_get") {
        Some(ToolName::Get)
    } else if same_text(name, "lorekeeper_update") {
        Some(ToolName::Update)
    } else if same_text(name, "lorekeeper_delete") {
        Some(ToolName::Delete)
    } else if same_text(name, "lorekeeper_recent") {
        Some(ToolName::Recent)
    } else if same_text(name, "lorekeeper_by_type") {
        Some(ToolName::ByType)
    } else if same_text(name, "lorekeeper_render") {
        Some(ToolName::Render)
    } else if same_text(name, "lorekeeper_stats") {
        Some(ToolName::Stats)
    } else if same_text(name, "lorekeeper_reflect") {
        Some(ToolName::Reflect)
    } else if same_text(name, "lorekeeper_set_root") {
        Some(ToolName::SetRoot)
    } else if same_text(name, "lorekeeper_help") {
        Some(ToolName::Help)
    } else {
        None
    }
}

/// The text argument that tool `t` cannot run without, given which of `id`,
/// `entry_type` and `path` the call holds as text: `None` when nothing is missing.
pub open spec fn missing_argument(t: ToolName, has_id: bool, has_entry_type: bool, has_path: bool) -> Option<Seq<char>> {
    match t {
        ToolName::Get | ToolName::Update | ToolName::Delete => if has_id {
            None
        } else {
            Some("id"@)
        },
        ToolName::ByType => if has_entry_type {
            None
        } else {
            Some("entry_type"@)
        },
        ToolName::SetRoot => if has_path {
            None
        } else {
            Some("path"@)
        },
        _ => None,
    }
}

/// Decides whether a call of the tool called `name` can run, given which of
/// the text arguments `id`, `entry_type` and `path` it holds: an unknown name
/// is refused with `unknown tool: NAME`, a missing argument with `missing ARG`;
/// otherwise the tool to run.
pub fn resolve_tool_call(name: &str, has_id: bool, has_entry_type: bool, has_path: bool) -> (r:
    Result<ToolName, String>)
    ensures
        match tool_of_name(name@) {
            None => r matches Err(m) && m@ == "unknown tool: "@ + name@,
            Some(t) => match missing_argument(t, has_id, has_entry_type, has_path) {
                Some(a) => r matches Err(m) && m@ == "missing "@ + a,
                None => r == Ok::<ToolName, String>(t),
            },
        },
{
    proof {
        reveal_strlit("unknown tool: ");
        reveal_strlit("missing ");
        reveal_strlit("id");
        reveal_strlit("entry_type");
        reveal_strlit("path");
    }
    let t = match parse_tool(name) {
        Some(t) => t,
        None => {
            return Err(String::from_str("unknown tool: ").concat(name));
        },
    };
    match t {
        ToolName::Get | ToolName::Update | ToolName::Delete => if !has_id {
            return Err(String::from_str("missing ").concat("id"));
        },
        ToolName::ByType => if !has_entry_type {
            return Err(String::from_str("missing ").concat("entry_type"));
        },
        ToolName::SetRoot => if !has_path {
            return Err(String::from_str("missing ").concat("path"));
        },
        _ => {},
    }
    Ok(t)
}

/// The number of entries listed by the recent tool when no limit is given.
pub const DEFAULT_RECENT_LIMIT: u32 = 10;

/// The limit the recent tool uses for the `limit` argument read as an unsigned
/// integer: the argument when it fits in a `u32`, else the default of 10.
pub fn recent_limit(arg: Option<u64>) -> (r: u32)
    ensures
        r == match arg {
            Some(n) => if n <= u32::MAX {
                n as u32
            } else {
                DEFAULT_RECENT_LIMIT
            },
            None => DEFAULT_RECENT_LIMIT,
        },
{
    match arg {
        Some(n) => if n <= 4294967295u64 {
            n as u32
        } else {
            DEFAULT_RECENT_LIMIT
        },
        None => DEFAULT_RECENT_LIMIT,
    }
}

} // verus!
