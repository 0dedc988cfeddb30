use lorekeeper::server::help::{get_help, help_for};

#[test]
fn get_help_returns_known_topics() {
    assert!(get_help("overview").contains("Workflow Guide"));
    assert!(get_help("workflow").contains("Workflow Guide"));
    assert!(get_help("roles").contains("Role Enforcement"));
    assert!(get_help("tools").contains("lorekeeper_store"));
    assert!(get_help("PLAN").contains("planned"));
    assert!(get_help("STUB").contains("open"));
}

#[test]
fn get_help_returns_fallback_for_unknown() {
    let result = get_help("nonexistent_topic");
    assert!(result.contains("Unknown topic"));
    assert!(result.contains("Valid topics"));
}

#[test]
fn get_help_covers_all_individual_topics() {
    let topics = vec![
        "DECISION",
        "COMMIT",
        "CONSTRAINT",
        "LESSON",
        "FEATURE",
        "DEFERRED",
        "BUILDER_NOTE",
        "TECH_DEBT",
    ];
    for topic in topics {
        let result = get_help(topic);
        assert!(result.contains(topic), "Topic {topic} missing its header");
    }
}

#[test]
fn help_without_topic_is_the_overview() {
    assert_eq!(help_for(None), get_help("overview"));
    assert_eq!(help_for(Some("PLAN")), get_help("PLAN"));
    assert_eq!(help_for(Some("plan")), get_help("nonexistent_topic"));
    assert_ne!(help_for(Some("plan")), get_help("PLAN"));
}
