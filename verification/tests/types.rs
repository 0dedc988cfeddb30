use lorekeeper::model::types::EntryType;
use lorekeeper::project::{find_project_root, RootCandidate};
use lorekeeper::server::tools::{
    parse_tool, recent_limit, resolve_tool_call, tool_catalogue, ToolName,
};

const ALL: [EntryType; 11] = [
    EntryType::Decision,
    EntryType::Commit,
    EntryType::Constraint,
    EntryType::Lesson,
    EntryType::Plan,
    EntryType::Feature,
    EntryType::Stub,
    EntryType::Deferred,
    EntryType::BuilderNote,
    EntryType::TechDebt,
    EntryType::SessionSummary,
];

#[test]
fn wire_names_round_trip() {
    for t in ALL {
        assert_eq!(EntryType::from_wire_name(t.wire_name()), Some(t));
    }
    assert_eq!(EntryType::BuilderNote.wire_name(), "BUILDER_NOTE");
    assert_eq!(EntryType::from_wire_name("Decision"), None);
    assert_eq!(EntryType::from_wire_name(""), None);
}

#[test]
fn allowed_roles_table() {
    assert_eq!(EntryType::Decision.allowed_roles(), &["architect"]);
    assert_eq!(EntryType::BuilderNote.allowed_roles(), &["builder"]);
    assert_eq!(EntryType::SessionSummary.allowed_roles(), &["architect", "builder"]);
    for t in ALL {
        assert!(!t.allowed_roles().is_empty());
    }
}

#[test]
fn ranks_follow_declaration_order() {
    for (k, t) in ALL.iter().enumerate() {
        assert_eq!(t.rank(), k);
        assert_eq!(EntryType::at_rank(k), *t);
    }
    assert_eq!(EntryType::TechDebt.heading_name(), "TECHDEBT");
    assert_eq!(EntryType::TechDebt.variant_name(), "TechDebt");
}

#[test]
fn find_project_root_returns_none_when_no_markers() {
    let c = [RootCandidate { has_lorekeeper: false, has_git: false }; 3];
    assert_eq!(find_project_root(&c), None);
    assert_eq!(find_project_root(&[]), None);
}

#[test]
fn project_root_prefers_lorekeeper_over_nearer_git() {
    let c = [
        RootCandidate { has_lorekeeper: false, has_git: true },
        RootCandidate { has_lorekeeper: true, has_git: false },
        RootCandidate { has_lorekeeper: true, has_git: true },
    ];
    assert_eq!(find_project_root(&c), Some(1));
    let g = [
        RootCandidate { has_lorekeeper: false, has_git: false },
        RootCandidate { has_lorekeeper: false, has_git: true },
    ];
    assert_eq!(find_project_root(&g), Some(1));
}

#[test]
fn tool_catalogue_lists_every_tool() {
    let tools = tool_catalogue();
    assert_eq!(tools.len(), 12);
    for tool in &tools {
        assert!(parse_tool(tool.name).is_some());
        for req in tool.required {
            assert!(tool.properties.iter().any(|p| p.name == *req));
        }
    }
    assert_eq!(tools[0].name, "lorekeeper_store");
    assert_eq!(tools[0].required, &["entry_type", "title", "role"]);
    assert_eq!(parse_tool("lorekeeper_reflect"), Some(ToolName::Reflect));
    assert_eq!(parse_tool("lore_store"), None);
}

#[test]
fn recent_limit_defaults() {
    assert_eq!(recent_limit(None), 10);
    assert_eq!(recent_limit(Some(3)), 3);
    assert_eq!(recent_limit(Some(4_294_967_296)), 10);
}

#[test]
fn find_project_root_via_git() {
    let c = [RootCandidate { has_lorekeeper: false, has_git: true }];
    assert_eq!(find_project_root(&c), Some(0));
}

#[test]
fn find_project_root_via_lorekeeper_dir() {
    let c = [RootCandidate { has_lorekeeper: true, has_git: true }];
    assert_eq!(find_project_root(&c), Some(0));
}

#[test]
fn find_project_root_walks_up_to_git() {
    let nothing = RootCandidate { has_lorekeeper: false, has_git: false };
    let c = [nothing, nothing, nothing, RootCandidate { has_lorekeeper: false, has_git: true }];
    assert_eq!(find_project_root(&c), Some(3));
}

#[test]
fn tool_calls_are_resolved_or_refused() {
    assert_eq!(resolve_tool_call("lore_get", true, true, true), Err("unknown tool: lore_get".to_string()));
    assert_eq!(resolve_tool_call("lorekeeper_get", false, true, true), Err("missing id".to_string()));
    assert_eq!(resolve_tool_call("lorekeeper_delete", false, false, false), Err("missing id".to_string()));
    assert_eq!(
        resolve_tool_call("lorekeeper_by_type", true, false, true),
        Err("missing entry_type".to_string())
    );
    assert_eq!(resolve_tool_call("lorekeeper_set_root", true, true, false), Err("missing path".to_string()));
    assert_eq!(resolve_tool_call("lorekeeper_get", true, false, false), Ok(ToolName::Get));
    assert_eq!(resolve_tool_call("lorekeeper_stats", false, false, false), Ok(ToolName::Stats));
}
