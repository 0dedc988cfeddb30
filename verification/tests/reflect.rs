use lorekeeper::config::ReflectConfig;
use lorekeeper::model::types::{MemoryState, ReflectCriteria, ReflectFocus};
use lorekeeper::store::reflect::{
    build_reflect_report, guidance_for, memory_state, plan_reflect, FindingRow, HotRow,
    ReflectRows,
};

fn row(id: &str, detail: &str) -> FindingRow {
    FindingRow {
        id: id.into(),
        entry_type: "DECISION".into(),
        title: format!("title {id}"),
        detail: detail.into(),
    }
}

fn rows() -> ReflectRows {
    ReflectRows {
        stale: vec![row("s1", "2025-01-01 00:00:00+00:00")],
        dead: vec![row("d1", "2025-02-02"), row("d2", "2025-02-03")],
        hot: vec![HotRow { id: "h1".into(), entry_type: "PLAN".into(), title: "hot".into(), count: 9 }],
        orphaned: vec![row("o1", "0000-gone")],
        contradictions: vec![row("c1", "Other title")],
    }
}

#[test]
fn memory_state_thresholds() {
    assert_eq!(memory_state(0), MemoryState::Empty);
    assert_eq!(memory_state(1), MemoryState::Nascent);
    assert_eq!(memory_state(4), MemoryState::Nascent);
    assert_eq!(memory_state(5), MemoryState::Active);
    assert_eq!(memory_state(99), MemoryState::Active);
    assert_eq!(memory_state(100), MemoryState::Mature);
}

#[test]
fn guidance_only_for_small_banks() {
    assert!(guidance_for(MemoryState::Empty).unwrap().starts_with("No entries yet."));
    assert!(guidance_for(MemoryState::Nascent).unwrap().contains("nascent (<5 entries)"));
    assert!(guidance_for(MemoryState::Active).is_none());
    assert!(guidance_for(MemoryState::Mature).is_none());
}

#[test]
fn default_config_and_criteria_give_default_plan() {
    let cfg = ReflectConfig::default();
    assert_eq!((cfg.stale_days, cfg.dead_entry_days, cfg.hot_access_threshold), (30, 7, 5));
    let plan = plan_reflect(&ReflectCriteria::default(), &cfg);
    assert!(plan.run_stale && plan.run_dead && plan.run_hot && plan.run_orphaned && plan.run_contradictions);
    assert_eq!((plan.stale_days, plan.dead_days, plan.hot_threshold, plan.limit), (30, 7, 5, 20));
}

#[test]
fn criteria_override_thresholds_and_focus() {
    let criteria = ReflectCriteria {
        focus: ReflectFocus::Hot,
        stale_days: Some(3),
        min_access_count: Some(2),
        limit: Some(4),
    };
    let plan = plan_reflect(&criteria, &ReflectConfig::default());
    assert!(plan.run_hot && !plan.run_stale && !plan.run_dead && !plan.run_orphaned && !plan.run_contradictions);
    assert_eq!((plan.stale_days, plan.hot_threshold, plan.limit), (3, 2, 4));
}

#[test]
fn report_lists_findings_and_counts_them() {
    let plan = plan_reflect(&ReflectCriteria::default(), &ReflectConfig::default());
    let report = build_reflect_report(3, &plan, rows());
    assert_eq!(report.state, MemoryState::Nascent);
    assert!(report.guidance.is_some());
    assert_eq!(report.summary.total, 6);
    assert_eq!(report.findings.len(), 6);
    assert_eq!((report.summary.stale, report.summary.dead, report.summary.hot), (1, 2, 1));
    assert_eq!((report.summary.orphaned, report.summary.contradictions), (1, 1));
    let f = &report.findings;
    assert_eq!(f[0].category, "stale");
    assert_eq!(f[0].reason, "Not updated since 2025-01-01 00:00:00+00:00 (>30 days)");
    assert_eq!(f[1].reason, "Never accessed since creation (2025-02-02)");
    assert_eq!(f[3].category, "hot");
    assert_eq!(f[3].reason, "Accessed 9 times — consider reviewing for freshness");
    assert_eq!(f[4].reason, "Related entry 0000-gone no longer exists");
    assert_eq!(f[5].category, "contradictions");
    assert_eq!(f[5].reason, "Textually similar to: \"Other title\"");
    assert_eq!(f[5].title, "title c1");
}

#[test]
fn report_skips_checks_outside_the_focus() {
    let criteria = ReflectCriteria { focus: ReflectFocus::Dead, ..ReflectCriteria::default() };
    let plan = plan_reflect(&criteria, &ReflectConfig::default());
    let report = build_reflect_report(150, &plan, rows());
    assert_eq!(report.state, MemoryState::Mature);
    assert!(report.guidance.is_none());
    assert_eq!(report.summary.total, 2);
    assert_eq!(report.summary.stale, 0);
    assert!(report.findings.iter().all(|f| f.category == "dead"));
}

#[test]
fn report_is_cut_to_the_limit_in_total() {
    let many = |p: &str| -> Vec<FindingRow> { (0..20).map(|i| row(&format!("{p}{i}"), "x")).collect() };
    let full = ReflectRows {
        stale: many("s"),
        dead: many("d"),
        hot: (0..20)
            .map(|i| HotRow { id: format!("h{i}"), entry_type: "PLAN".into(), title: "hot".into(), count: 9 })
            .collect(),
        orphaned: many("o"),
        contradictions: many("c"),
    };
    let plan = plan_reflect(&ReflectCriteria::default(), &ReflectConfig::default());
    let report = build_reflect_report(200, &plan, full);
    assert_eq!(report.findings.len(), 20);
    assert_eq!(report.summary.total, 20);
    assert_eq!((report.summary.stale, report.summary.dead, report.summary.hot), (20, 0, 0));
    assert!(report.findings.iter().all(|f| f.category == "stale"));

    let criteria = ReflectCriteria { limit: Some(2), ..ReflectCriteria::default() };
    let plan = plan_reflect(&criteria, &ReflectConfig::default());
    let report = build_reflect_report(3, &plan, rows());
    assert_eq!(report.summary.total, 2);
    assert_eq!((report.summary.stale, report.summary.dead, report.summary.hot), (1, 1, 0));
    assert_eq!(report.findings[1].entry_id, "d1");

    let criteria = ReflectCriteria { limit: Some(0), ..ReflectCriteria::default() };
    let plan = plan_reflect(&criteria, &ReflectConfig::default());
    assert!(build_reflect_report(3, &plan, rows()).findings.is_empty());
}
