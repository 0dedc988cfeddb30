//! The memory-health analysis: which checks run with which thresholds, how the
//! size of the bank is classified, and how the rows the checks read become findings.

use crate::config::ReflectConfig;
use crate::model::types::{
    MemoryState, ReflectCriteria, ReflectFinding, ReflectFocus, ReflectReport, ReflectSummary,
};
use crate::text::{decimal, push_char, push_signed_decimal, signed_decimal};
use vstd::prelude::*;

verus! {

/// The checks to run and the thresholds they use.
#[derive(Debug, Clone, Copy, PartialEq, Eq, Structural)]
pub struct ReflectPlan {
    pub run_stale: bool,
    pub run_dead: bool,
    pub run_hot: bool,
    pub run_orphaned: bool,
    pub run_contradictions: bool,
    /// Days without an update after which an entry is stale.
    pub stale_days: i64,
    /// Accesses from which an entry is hot.
    pub hot_threshold: i64,
    /// Days since creation without access after which an entry is dead.
    pub dead_days: i64,
    /// The most findings the report lists (no check needs to read more rows).
    pub limit: i64,
}

/// The number of findings per check when the criteria set none.
pub const DEFAULT_REFLECT_LIMIT: u32 = 20;

/// The plan for `criteria` under `config`: a check runs when it is the focus
/// or the focus is `All`; thresholds given in the criteria override the configured ones.
pub fn plan_reflect(criteria: &ReflectCriteria, config: &ReflectConfig) -> (r: ReflectPlan)
    ensures
        r.run_stale == (criteria.focus == ReflectFocus::Stale || criteria.focus == ReflectFocus::All),
        r.run_dead == (criteria.focus == ReflectFocus::Dead || criteria.focus == ReflectFocus::All),
        r.run_hot == (criteria.focus == ReflectFocus::Hot || criteria.focus == ReflectFocus::All),
        r.run_orphaned == (criteria.focus == ReflectFocus::Orphaned || criteria.focus
            == ReflectFocus::All),
        r.run_contradictions == (criteria.focus == ReflectFocus::Contradictions || criteria.focus
            == ReflectFocus::All),
        r.stale_days == match criteria.stale_days {
            Some(d) => d,
            None => config.stale_days,
        },
        r.hot_threshold == match criteria.min_access_count {
            Some(d) => d,
            None => config.hot_access_threshold,
        },
        r.dead_days == config.dead_entry_days,
        r.limit == match criteria.limit {
            Some(d) => d,
            None => DEFAULT_REFLECT_LIMIT,
        },
{
    let all = criteria.focus == ReflectFocus::All;
    let limit = match criteria.limit {
        Some(d) => d,
        None => DEFAULT_REFLECT_LIMIT,
    };
    let stale_days = match criteria.stale_days {
        Some(d) => d,
        None => config.stale_days,
    };
    let hot_threshold = match criteria.min_access_count {
        Some(d) => d,
        None => config.hot_access_threshold,
    };
    ReflectPlan {
        run_stale: all || criteria.focus == ReflectFocus::Stale,
        run_dead: all || criteria.focus == ReflectFocus::Dead,
        run_hot: all || criteria.focus == ReflectFocus::Hot,
        run_orphaned: all || criteria.focus == ReflectFocus::Orphaned,
        run_contradictions: all || criteria.focus == ReflectFocus::Contradictions,
        stale_days: stale_days as i64,
        hot_threshold: hot_threshold as i64,
        dead_days: config.dead_entry_days as i64,
        limit: limit as i64,
    }
}

/// The maturity of a bank holding `total` live entries.
pub open spec fn state_of(total: int) -> MemoryState {
    if total == 0 {
        MemoryState::Empty
    } else if 1 <= total <= 4 {
        MemoryState::Nascent
    } else if 5 <= total <= 99 {
        MemoryState::Active
    } else {
        MemoryState::Mature
    }
}

/// Classifies a bank by its number of live entries: none is empty, fewer than
/// five nascent, fewer than a hundred active, more mature.
pub fn memory_state(total: i64) -> (r: MemoryState)
    ensures
        r == state_of(total as int),
{
    if total == 0 {
        MemoryState::Empty
    } else if 1 <= total && total <= 4 {
        MemoryState::Nascent
    } else if 5 <= total && total <= 99 {
        MemoryState::Active
    } else {
        MemoryState::Mature
    }
}

/// The guidance shown for an empty bank.
pub open spec fn empty_guidance() -> Seq<char> {
    "No entries yet. Store your first memory with lorekeeper_store to get started."@
}

/// The guidance shown for a nascent bank.
pub open spec fn nascent_guidance() -> Seq<char> {
    "Memory bank is nascent (<5 entries). Results may not be representative yet."@
}

/// The guidance for a bank in `state`: present only while it is empty or nascent.
pub fn guidance_for(state: MemoryState) -> (r: Option<String>)
    ensures
        state == MemoryState::Empty ==> (r matches Some(g) && g@ == empty_guidance()),
        state == MemoryState::Nascent ==> (r matches Some(g) && g@ == nascent_guidance()),
        (state == MemoryState::Active || state == MemoryState::Mature) ==> r is None,
{
    match state {
        MemoryState::Empty => Some(
            String::from_str(
                "No entries yet. Store your first memory with lorekeeper_store to get started.",
            ),
        ),
        MemoryState::Nascent => Some(
            String::from_str(
                "Memory bank is nascent (<5 entries). Results may not be representative yet.",
            ),
        ),
        _ => None,
    }
}

/// A row read by a check: the entry's id, type and title, and a detail (a
/// date, a link or a similar title, depending on the check).
#[derive(Debug, Clone)]
pub struct FindingRow {
    pub id: String,
    pub entry_type: String,
    pub title: String,
    pub detail: String,
}

/// A row read by the hot check: the entry's id, type, title and access count.
#[derive(Debug, Clone)]
pub struct HotRow {
    pub id: String,
    pub entry_type: String,
    pub title: String,
    pub count: i64,
}

/// The rows each check read (empty for checks that did not run).
#[derive(Debug, Clone)]
pub struct ReflectRows {
    pub stale: Vec<FindingRow>,
    pub dead: Vec<FindingRow>,
    pub hot: Vec<HotRow>,
    pub orphaned: Vec<FindingRow>,
    pub contradictions: Vec<FindingRow>,
}

/// A finding as plain text: category, id, type, title and reason.
pub type FindingView = (Seq<char>, Seq<char>, Seq<char>, Seq<char>, Seq<char>);

/// The plain text of a finding.
pub open spec fn finding_view(f: ReflectFinding) -> FindingView {
    (f.category@, f.entry_id@, f.entry_type@, f.title@, f.reason@)
}

/// The plain text of a list of findings.
pub open spec fn findings_view(s: Seq<ReflectFinding>) -> Seq<FindingView> {
    s.map_values(|f: ReflectFinding| finding_view(f))
}

/// The reason given for a stale entry last updated at `updated_at`.
pub open spec fn stale_reason(updated_at: Seq<char>, days: i64) -> Seq<char> {
    "Not updated since "@ + updated_at + " (>"@ + signed_decimal(days as int) + " days)"@
}

/// The reason given for a dead entry created at `created_at`.
pub open spec fn dead_reason(created_at: Seq<char>) -> Seq<char> {
    "Never accessed since creation ("@ + created_at + ")"@
}

/// The reason given for an entry accessed `count` times.
pub open spec fn hot_reason(count: i64) -> Seq<char> {
    "Accessed "@ + signed_decimal(count as int) + " times — consider reviewing for freshness"@
}

/// The reason given for an entry whose link `target` is broken.
pub open spec fn orphan_reason(target: Seq<char>) -> Seq<char> {
    "Related entry "@ + target + " no longer exists"@
}

/// The reason given for an entry textually similar to the entry titled `other`.
pub open spec fn similar_reason(other: Seq<char>) -> Seq<char> {
    "Textually similar to: \""@ + other + "\""@
}

/// The findings of a check from its rows.
pub open spec fn row_findings(
    rows: Seq<FindingRow>,
    category: Seq<char>,
    reason: spec_fn(Seq<char>) -> Seq<char>,
) -> Seq<FindingView> {
    rows.map_values(|r: FindingRow| (category, r.id@, r.entry_type@, r.title@, reason(r.detail@)))
}

/// The findings of the hot check from its rows.
pub open spec fn hot_findings(rows: Seq<HotRow>) -> Seq<FindingView> {
    rows.map_values(|r: HotRow| ("hot"@, r.id@, r.entry_type@, r.title@, hot_reason(r.count)))
}

/// The findings of the checks that `plan` runs, check by check in the order
/// stale, dead, hot, orphaned, contradictions.
pub open spec fn report_findings(plan: ReflectPlan, rows: ReflectRows) -> Seq<FindingView> {
    (if plan.run_stale {
        row_findings(rows.stale@, "stale"@, |d: Seq<char>| stale_reason(d, plan.stale_days))
    } else {
        Seq::empty()
    }) + (if plan.run_dead {
        row_findings(rows.dead@, "dead"@, |d: Seq<char>| dead_reason(d))
    } else {
        Seq::empty()
    }) + (if plan.run_hot {
        hot_findings(rows.hot@)
    } else {
        Seq::empty()
    }) + (if plan.run_orphaned {
        row_findings(rows.orphaned@, "orphaned"@, |d: Seq<char>| orphan_reason(d))
    } else {
        Seq::empty()
    }) + (if plan.run_contradictions {
        row_findings(rows.contradictions@, "contradictions"@, |d: Seq<char>| similar_reason(d))
    } else {
        Seq::empty()
    })
}

fn text_of(s: &str) -> (r: String)
    ensures
        r@ == s@,
{
    String::from_str(s)
}

fn stale_reason_text(updated_at: &str, days: i64) -> (r: String)
    ensures
        r@ == stale_reason(updated_at@, days),
{
    proof {
        reveal_strlit("Not updated since ");
        reveal_strlit(" (>");
        reveal_strlit(" days)");
    }
    let mut s = String::from_str("Not updated since ").concat(updated_at).concat(" (>");
    push_signed_decimal(&mut s, days);
    s.concat(" days)")
}

fn dead_reason_text(created_at: &str) -> (r: String)
    ensures
        r@ == dead_reason(created_at@),
{
    proof {
        reveal_strlit("Never accessed since creation (");
        reveal_strlit(")");
    }
    String::from_str("Never accessed since creation (").concat(created_at).concat(")")
}

fn hot_reason_text(count: i64) -> (r: String)
    ensures
        r@ == hot_reason(count),
{
    proof {
        reveal_strlit("Accessed ");
        reveal_strlit(" times — consider reviewing for freshness");
    }
    let mut s = String::from_str("Accessed ");
    push_signed_decimal(&mut s, count);
    s.concat(" times — consider reviewing for freshness")
}

fn orphan_reason_text(target: &str) -> (r: String)
    ensures
        r@ == orphan_reason(target@),
{
    proof {
        reveal_strlit("Related entry ");
        reveal_strlit(" no longer exists");
    }
    String::from_str("Related entry ").concat(target).concat(" no longer exists")
}

fn similar_reason_text(other: &str) -> (r: String)
    ensures
        r@ == similar_reason(other@),
{
    proof {
        reveal_strlit("Textually similar to: \"");
        reveal_strlit("\"");
    }
    String::from_str("Textually similar to: \"").concat(other).concat("\"")
}

/// Which reason a check gives.
#[derive(Debug, Clone, Copy, PartialEq, Eq, Structural)]
enum Check {
    Stale,
    Dead,
    Orphaned,
    Contradictions,
}

spec fn check_category(c: Check) -> Seq<char> {
    match c {
        Check::Stale => "stale"@,
        Check::Dead => "dead"@,
        Check::Orphaned => "orphaned"@,
        Check::Contradictions => "contradictions"@,
    }
}

spec fn check_reason(c: Check, days: i64, d: Seq<char>) -> Seq<char> {
    match c {
        Check::Stale => stale_reason(d, days),
        Check::Dead => dead_reason(d),
        Check::Orphaned => orphan_reason(d),
        Check::Contradictions => similar_reason(d),
    }
}

fn push_row_findings(out: &mut Vec<ReflectFinding>, rows: Vec<FindingRow>, check: Check, days: i64)
    ensures
        findings_view(final(out)@) == findings_view(old(out)@) + rows@.map_values(
            |r: FindingRow|
                (check_category(check), r.id@, r.entry_type@, r.title@, check_reason(
                    check,
                    days,
                    r.detail@,
                )),
        ),
{
    let ghost start = out@;
    let ghost expected = rows@.map_values(
        |r: FindingRow|
            (check_category(check), r.id@, r.entry_type@, r.title@, check_reason(
                check,
                days,
                r.detail@,
            )),
    );
    proof {
        reveal_strlit("stale");
        reveal_strlit("dead");
        reveal_strlit("orphaned");
        reveal_strlit("contradictions");
    }
    let mut i: usize = 0;
    while i < rows.len()
        invariant
            i <= rows@.len(),
            expected == rows@.map_values(
                |r: FindingRow|
                    (check_category(check), r.id@, r.entry_type@, r.title@, check_reason(
                        check,
                        days,
                        r.detail@,
                    )),
            ),
            out@.len() == start.len() + i,
            forall|j: int| 0 <= j < start.len() ==> out@[j] == start[j],
            forall|j: int|
                0 <= j < i ==> finding_view(#[trigger] out@[start.len() + j]) == expected[j],
        decreases rows@.len() - i,
    {
        let row = &rows[i];
        let category = match check {
            Check::Stale => text_of("stale"),
            Check::Dead => text_of("dead"),
            Check::Orphaned => text_of("orphaned"),
            Check::Contradictions => text_of("contradictions"),
        };
        let reason = match check {
            Check::Stale => stale_reason_text(row.detail.as_str(), days),
            Check::Dead => dead_reason_text(row.detail.as_str()),
            Check::Orphaned => orphan_reason_text(row.detail.as_str()),
            Check::Contradictions => similar_reason_text(row.detail.as_str()),
        };
        out.push(
            ReflectFinding {
                category,
                entry_id: row.id.clone(),
                entry_type: row.entry_type.clone(),
                title: row.title.clone(),
                reason,
            },
        );
        i = i + 1;
    }
    assert forall|k: int| 0 <= k < out@.len() implies findings_view(out@)[k] == (findings_view(
        start,
    ) + expected)[k] by {
        if k >= start.len() {
            assert(finding_view(out@[start.len() + (k - start.len())]) == expected[k - start.len()]);
        }
    }
    assert(findings_view(out@) =~= findings_view(start) + expected);
}

fn push_hot_findings(out: &mut Vec<ReflectFinding>, rows: Vec<HotRow>)
    ensures
        findings_view(final(out)@) == findings_view(old(out)@) + hot_findings(rows@),
{
    let ghost start = out@;
    let ghost expected = hot_findings(rows@);
    proof {
        reveal_strlit("hot");
    }
    let mut i: usize = 0;
    while i < rows.len()
        invariant
            i <= rows@.len(),
            expected == hot_findings(rows@),
            out@.len() == start.len() + i,
            forall|j: int| 0 <= j < start.len() ==> out@[j] == start[j],
            forall|j: int|
                0 <= j < i ==> finding_view(#[trigger] out@[start.len() + j]) == expected[j],
        decreases rows@.len() - i,
    {
        let row = &rows[i];
        out.push(
            ReflectFinding {
                category: text_of("hot"),
                entry_id: row.id.clone(),
                entry_type: row.entry_type.clone(),
                title: row.title.clone(),
                reason: hot_reason_text(row.count),
            },
        );
        i = i + 1;
    }
    assert forall|k: int| 0 <= k < out@.len() implies findings_view(out@)[k] == (findings_view(
        start,
    ) + expected)[k] by {
        if k >= start.len() {
            assert(finding_view(out@[start.len() + (k - start.len())]) == expected[k - start.len()]);
        }
    }
    assert(findings_view(out@) =~= findings_view(start) + expected);
}

/// How many findings a check contributes: its rows when it runs, none otherwise.
pub open spec fn used(run: bool, n: nat) -> nat {
    if run {
        n
    } else {
        0
    }
}

/// How many findings the report lists: all of them, cut to the plan's limit
/// (none when the limit is not positive).
pub open spec fn report_cap(plan: ReflectPlan, rows: ReflectRows) -> nat {
    let n = report_findings(plan, rows).len();
    if plan.limit <= 0 {
        0
    } else if plan.limit < n {
        plan.limit as nat
    } else {
        n
    }
}

/// How many of `n` findings fit in `room` places.
pub open spec fn share(n: nat, room: int) -> nat {
    if room <= 0 {
        0
    } else if n < room {
        n
    } else {
        room as nat
    }
}

/// How `room` places are shared among five groups of the given sizes taken
/// in order: each group takes what is left after the groups before it.
pub open spec fn share_chain(l1: nat, l2: nat, l3: nat, l4: nat, l5: nat, room: int) -> (nat, nat, nat, nat, nat) {
    let s1 = share(l1, room);
    let s2 = share(l2, room - s1);
    let s3 = share(l3, room - s1 - s2);
    let s4 = share(l4, room - s1 - s2 - s3);
    let s5 = share(l5, room - s1 - s2 - s3 - s4);
    (s1, s2, s3, s4, s5)
}

/// The per-check counts of the findings a report lists, in the order
/// stale, dead, hot, orphaned, contradictions: each check takes what is left
/// of the limit after the checks before it.
pub open spec fn listed_counts(plan: ReflectPlan, rows: ReflectRows) -> (nat, nat, nat, nat, nat) {
    share_chain(
        used(plan.run_stale, rows.stale@.len()),
        used(plan.run_dead, rows.dead@.len()),
        used(plan.run_hot, rows.hot@.len()),
        used(plan.run_orphaned, rows.orphaned@.len()),
        used(plan.run_contradictions, rows.contradictions@.len()),
        report_cap(plan, rows) as int,
    )
}

proof fn lemma_report_len(plan: ReflectPlan, rows: ReflectRows)
    ensures
        report_findings(plan, rows).len() == used(plan.run_stale, rows.stale@.len()) + used(
            plan.run_dead,
            rows.dead@.len(),
        ) + used(plan.run_hot, rows.hot@.len()) + used(plan.run_orphaned, rows.orphaned@.len())
            + used(plan.run_contradictions, rows.contradictions@.len()),
{
}

/// Cuts `findings` to the first `limit` (none when `limit` is not positive);
/// answers how many are left.
fn cut_findings(findings: &mut Vec<ReflectFinding>, limit: i64) -> (cap: usize)
    ensures
        cap == (if limit <= 0 {
            0
        } else if limit < old(findings)@.len() {
            limit as int
        } else {
            old(findings)@.len() as int
        }),
        final(findings)@ == old(findings)@.take(cap as int),
        findings_view(final(findings)@) == findings_view(old(findings)@).take(cap as int),
{
    let n = findings.len();
    let cap: usize = if limit <= 0 {
        0
    } else if (limit as u64) < (n as u64) {
        limit as usize
    } else {
        n
    };
    let ghost full = findings@;
    findings.truncate(cap);
    assert(findings@ =~= full.take(cap as int));
    assert(findings_view(findings@) =~= findings_view(full).take(cap as int));
    cap
}

/// The summary of `cap` listed findings taken in check order from checks that
/// contribute the given numbers.
fn listed_summary(cap: usize, n1: usize, n2: usize, n3: usize, n4: usize, n5: usize) -> (r: ReflectSummary)
    requires
        cap <= n1 + n2 + n3 + n4 + n5,
    ensures
        r.total == cap,
        r.stale == share(n1 as nat, cap as int),
        r.dead == share(n2 as nat, cap - r.stale),
        r.hot == share(n3 as nat, cap - r.stale - r.dead),
        r.orphaned == share(n4 as nat, cap - r.stale - r.dead - r.hot),
        r.contradictions == share(n5 as nat, cap - r.stale - r.dead - r.hot - r.orphaned),
        r.total == r.stale + r.dead + r.hot + r.orphaned + r.contradictions,
{
    let mut room: usize = cap;
    let stale = if n1 < room { n1 } else { room };
    room = room - stale;
    let dead = if n2 < room { n2 } else { room };
    room = room - dead;
    let hot = if n3 < room { n3 } else { room };
    room = room - hot;
    let orphaned = if n4 < room { n4 } else { room };
    room = room - orphaned;
    let contradictions = if n5 < room { n5 } else { room };
    ReflectSummary { total: cap, stale, dead, hot, orphaned, contradictions }
}

/// The findings of every check that `plan` runs, check by check.
fn collect_findings(plan: &ReflectPlan, rows: ReflectRows) -> (r: Vec<ReflectFinding>)
    ensures
        findings_view(r@) == report_findings(*plan, rows),
{
    let ReflectRows { stale, dead, hot, orphaned, contradictions } = rows;
    let ghost rows_v = rows;
    let mut findings: Vec<ReflectFinding> = Vec::new();
    assert(findings_view(findings@) =~= Seq::<FindingView>::empty());
    if plan.run_stale {
        push_row_findings(&mut findings, stale, Check::Stale, plan.stale_days);
    }
    let ghost p1 = findings_view(findings@);
    assert(p1 =~= (if plan.run_stale {
        row_findings(rows_v.stale@, "stale"@, |d: Seq<char>| stale_reason(d, plan.stale_days))
    } else {
        Seq::empty()
    }));
    if plan.run_dead {
        push_row_findings(&mut findings, dead, Check::Dead, 0);
    }
    let ghost p2 = findings_view(findings@);
    assert(p2 =~= p1 + (if plan.run_dead {
        row_findings(rows_v.dead@, "dead"@, |d: Seq<char>| dead_reason(d))
    } else {
        Seq::empty()
    }));
    if plan.run_hot {
        push_hot_findings(&mut findings, hot);
    }
    let ghost p3 = findings_view(findings@);
    assert(p3 =~= p2 + (if plan.run_hot {
        hot_findings(rows_v.hot@)
    } else {
        Seq::empty()
    }));
    if plan.run_orphaned {
        push_row_findings(&mut findings, orphaned, Check::Orphaned, 0);
    }
    let ghost p4 = findings_view(findings@);
    assert(p4 =~= p3 + (if plan.run_orphaned {
        row_findings(rows_v.orphaned@, "orphaned"@, |d: Seq<char>| orphan_reason(d))
    } else {
        Seq::empty()
    }));
    if plan.run_contradictions {
        push_row_findings(&mut findings, contradictions, Check::Contradictions, 0);
    }
    let ghost p5 = findings_view(findings@);
    assert(p5 =~= p4 + (if plan.run_contradictions {
        row_findings(rows_v.contradictions@, "contradictions"@, |d: Seq<char>| similar_reason(d))
    } else {
        Seq::empty()
    }));
    assert(p5 =~= report_findings(*plan, rows_v));
    findings
}

/// The report for a bank of `total_count` live entries, from the rows read by
/// the checks that `plan` runs (rows of other checks are ignored): the
/// findings check by check, cut to the plan's limit, the count of listed
/// findings per check, and their total.
pub fn build_reflect_report(total_count: i64, plan: &ReflectPlan, rows: ReflectRows) -> (r:
    ReflectReport)
    ensures
        r.state == state_of(total_count as int),
        findings_view(r.findings@) == report_findings(*plan, rows).take(
            report_cap(*plan, rows) as int,
        ),
        r.findings@.len() == report_cap(*plan, rows),
        plan.limit >= 0 ==> r.findings@.len() <= plan.limit,
        (r.summary.stale as nat, r.summary.dead as nat, r.summary.hot as nat, r.summary.orphaned as nat,
            r.summary.contradictions as nat) == listed_counts(*plan, rows),
        r.summary.stale == category_count(findings_view(r.findings@), "stale"@),
        r.summary.dead == category_count(findings_view(r.findings@), "dead"@),
        r.summary.hot == category_count(findings_view(r.findings@), "hot"@),
        r.summary.orphaned == category_count(findings_view(r.findings@), "orphaned"@),
        r.summary.contradictions == category_count(findings_view(r.findings@), "contradictions"@),
        r.summary.total == r.findings@.len(),
        r.summary.total == r.summary.stale + r.summary.dead + r.summary.hot + r.summary.orphaned
            + r.summary.contradictions,
        r.state == MemoryState::Empty ==> (r.guidance matches Some(g) && g@ == empty_guidance()),
        r.state == MemoryState::Nascent ==> (r.guidance matches Some(g) && g@
            == nascent_guidance()),
        (r.state == MemoryState::Active || r.state == MemoryState::Mature) ==> r.guidance is None,
{
    let state = memory_state(total_count);
    let guidance = guidance_for(state);
    let n_stale: usize = if plan.run_stale { rows.stale.len() } else { 0 };
    let n_dead: usize = if plan.run_dead { rows.dead.len() } else { 0 };
    let n_hot: usize = if plan.run_hot { rows.hot.len() } else { 0 };
    let n_orphaned: usize = if plan.run_orphaned { rows.orphaned.len() } else { 0 };
    let n_contradictions: usize = if plan.run_contradictions { rows.contradictions.len() } else { 0 };
    let ghost rows_v = rows;
    proof {
        lemma_report_len(*plan, rows_v);
        lemma_summary_counts_are_category_counts(*plan, rows_v);
    }
    let mut findings = collect_findings(plan, rows);
    let cap = cut_findings(&mut findings, plan.limit);
    let summary = listed_summary(cap, n_stale, n_dead, n_hot, n_orphaned, n_contradictions);
    assert(findings_view(findings@) =~= report_findings(*plan, rows_v).take(cap as int));
    ReflectReport { state, findings, summary, guidance }
}

/// A report never lists more findings than its limit allows, and its
/// per-check counts add up to the number it lists.
pub proof fn lemma_report_counts_add_up(plan: ReflectPlan, rows: ReflectRows)
    ensures
        report_cap(plan, rows) <= report_findings(plan, rows).len(),
        plan.limit >= 0 ==> report_cap(plan, rows) <= plan.limit,
        ({
            let (s, d, h, o, c) = listed_counts(plan, rows);
            s + d + h + o + c == report_cap(plan, rows)
        }),
{
    lemma_report_len(plan, rows);
}

/// How many findings of `s` have category `c`.
pub open spec fn category_count(s: Seq<FindingView>, c: Seq<char>) -> nat
    decreases s.len(),
{
    if s.len() == 0 {
        0
    } else {
        category_count(s.drop_last(), c) + (if s.last().0 == c {
            1nat
        } else {
            0nat
        })
    }
}

/// Whether every finding of `s` has category `c`.
pub open spec fn all_of_category(s: Seq<FindingView>, c: Seq<char>) -> bool {
    forall|i: int| 0 <= i < s.len() ==> (#[trigger] s[i]).0 == c
}

proof fn lemma_count_concat(x: Seq<FindingView>, y: Seq<FindingView>, c: Seq<char>)
    ensures
        category_count(x + y, c) == category_count(x, c) + category_count(y, c),
    decreases y.len(),
{
    if y.len() == 0 {
        assert(x + y =~= x);
    } else {
        lemma_count_concat(x, y.drop_last(), c);
        assert((x + y).drop_last() =~= x + y.drop_last());
    }
}

proof fn lemma_count_uniform(s: Seq<FindingView>, c0: Seq<char>, c: Seq<char>)
    requires
        all_of_category(s, c0),
    ensures
        category_count(s, c) == (if c == c0 { s.len() } else { 0 }),
    decreases s.len(),
{
    if s.len() > 0 {
        lemma_count_uniform(s.drop_last(), c0, c);
    }
}

proof fn lemma_take_split(x: Seq<FindingView>, y: Seq<FindingView>, n: int)
    requires
        0 <= n <= x.len() + y.len(),
    ensures
        0 <= n - share(x.len(), n) <= y.len(),
        (x + y).take(n) =~= x.take(share(x.len(), n) as int) + y.take(n - share(x.len(), n)),
{
}

/// Counts category `c` in `x.take(a) + rest`, where every finding of `x` has category `cx`.
proof fn lemma_count_piece(x: Seq<FindingView>, cx: Seq<char>, a: int, rest: Seq<FindingView>, c: Seq<char>)
    requires
        all_of_category(x, cx),
        0 <= a <= x.len(),
    ensures
        category_count(x.take(a) + rest, c) == (if c == cx { a } else { 0 }) + category_count(rest, c),
{
    lemma_count_concat(x.take(a), rest, c);
    lemma_count_uniform(x.take(a), cx, c);
}

/// Counts category `c` among the first `n` findings of `a + (b + (h + (o + e)))`,
/// where each part holds one category: each part contributes what is left
/// of `n` after the parts before it, if its category is `c`.
proof fn lemma_count_five(
    a: Seq<FindingView>,
    b: Seq<FindingView>,
    h: Seq<FindingView>,
    o: Seq<FindingView>,
    e: Seq<FindingView>,
    cats: (Seq<char>, Seq<char>, Seq<char>, Seq<char>, Seq<char>),
    n: int,
    c: Seq<char>,
)
    requires
        all_of_category(a, cats.0),
        all_of_category(b, cats.1),
        all_of_category(h, cats.2),
        all_of_category(o, cats.3),
        all_of_category(e, cats.4),
        0 <= n <= a.len() + b.len() + h.len() + o.len() + e.len(),
    ensures
        ({
            let (s1, s2, s3, s4, s5) = share_chain(a.len(), b.len(), h.len(), o.len(), e.len(), n);
            category_count((a + (b + (h + (o + e)))).take(n), c) == (if c == cats.0 { s1 } else { 0 })
                + (if c == cats.1 { s2 } else { 0 }) + (if c == cats.2 { s3 } else { 0 }) + (if c
                == cats.3 { s4 } else { 0 }) + (if c == cats.4 { s5 } else { 0 })
        }),
{
    let r4 = o + e;
    let r3 = h + r4;
    let r2 = b + r3;
    let n2 = n - share(a.len(), n);
    let n3 = n2 - share(b.len(), n2);
    let n4 = n3 - share(h.len(), n3);
    let n5 = n4 - share(o.len(), n4);
    lemma_take_split(a, r2, n);
    lemma_take_split(b, r3, n2);
    lemma_take_split(h, r4, n3);
    lemma_take_split(o, e, n4);
    assert(e.take(n5) =~= e.take(share(e.len(), n5) as int));
    let p4 = o.take(share(o.len(), n4) as int) + e.take(n5);
    let p3 = h.take(share(h.len(), n3) as int) + p4;
    let p2 = b.take(share(b.len(), n2) as int) + p3;
    lemma_count_uniform(e.take(n5), cats.4, c);
    lemma_count_piece(o, cats.3, share(o.len(), n4) as int, e.take(n5), c);
    lemma_count_piece(h, cats.2, share(h.len(), n3) as int, p4, c);
    lemma_count_piece(b, cats.1, share(b.len(), n2) as int, p3, c);
    lemma_count_piece(a, cats.0, share(a.len(), n) as int, p2, c);
}

/// Each per-check count of a report is the number of listed findings of that
/// check's category.
pub proof fn lemma_summary_counts_are_category_counts(plan: ReflectPlan, rows: ReflectRows)
    ensures
        ({
            let f = report_findings(plan, rows).take(report_cap(plan, rows) as int);
            let (s, d, h, o, c) = listed_counts(plan, rows);
            &&& s == category_count(f, "stale"@)
            &&& d == category_count(f, "dead"@)
            &&& h == category_count(f, "hot"@)
            &&& o == category_count(f, "orphaned"@)
            &&& c == category_count(f, "contradictions"@)
        }),
{
    let cats = ("stale"@, "dead"@, "hot"@, "orphaned"@, "contradictions"@);
    let (a, b, h, o, e) = report_parts(plan, rows);
    let n = report_cap(plan, rows) as int;
    assert(cats.0 != cats.1 && cats.0 != cats.2 && cats.0 != cats.3 && cats.0 != cats.4
        && cats.1 != cats.2 && cats.1 != cats.3 && cats.1 != cats.4 && cats.2 != cats.3
        && cats.2 != cats.4 && cats.3 != cats.4) by {
        reveal_strlit("stale");
        reveal_strlit("dead");
        reveal_strlit("hot");
        reveal_strlit("orphaned");
        reveal_strlit("contradictions");
        assert(cats.0.len() != cats.1.len());
        assert(cats.0.len() != cats.2.len());
        assert(cats.0.len() != cats.3.len());
        assert(cats.0.len() != cats.4.len());
        assert(cats.1.len() != cats.2.len());
        assert(cats.1.len() != cats.3.len());
        assert(cats.1.len() != cats.4.len());
        assert(cats.2.len() != cats.3.len());
        assert(cats.2.len() != cats.4.len());
        assert(cats.3.len() != cats.4.len());
    }
    lemma_count_five(a, b, h, o, e, cats, n, cats.0);
    lemma_count_five(a, b, h, o, e, cats, n, cats.1);
    lemma_count_five(a, b, h, o, e, cats, n, cats.2);
    lemma_count_five(a, b, h, o, e, cats, n, cats.3);
    lemma_count_five(a, b, h, o, e, cats, n, cats.4);
}

/// The findings of a report, check by check, each part holding one category.
proof fn report_parts(plan: ReflectPlan, rows: ReflectRows) -> (p: (
    Seq<FindingView>,
    Seq<FindingView>,
    Seq<FindingView>,
    Seq<FindingView>,
    Seq<FindingView>,
))
    ensures
        report_findings(plan, rows) == p.0 + (p.1 + (p.2 + (p.3 + p.4))),
        all_of_category(p.0, "stale"@),
        all_of_category(p.1, "dead"@),
        all_of_category(p.2, "hot"@),
        all_of_category(p.3, "orphaned"@),
        all_of_category(p.4, "contradictions"@),
        p.0.len() == used(plan.run_stale, rows.stale@.len()),
        p.1.len() == used(plan.run_dead, rows.dead@.len()),
        p.2.len() == used(plan.run_hot, rows.hot@.len()),
        p.3.len() == used(plan.run_orphaned, rows.orphaned@.len()),
        p.4.len() == used(plan.run_contradictions, rows.contradictions@.len()),
        forall|i: int|
            0 <= i < p.0.len() ==> (#[trigger] p.0[i]).1 == rows.stale@[i].id@ && p.0[i].2
                == rows.stale@[i].entry_type@ && p.0[i].3 == rows.stale@[i].title@,
        forall|i: int|
            0 <= i < p.1.len() ==> (#[trigger] p.1[i]).1 == rows.dead@[i].id@ && p.1[i].2
                == rows.dead@[i].entry_type@ && p.1[i].3 == rows.dead@[i].title@,
        forall|i: int|
            0 <= i < p.2.len() ==> (#[trigger] p.2[i]).1 == rows.hot@[i].id@ && p.2[i].2
                == rows.hot@[i].entry_type@ && p.2[i].3 == rows.hot@[i].title@,
        forall|i: int|
            0 <= i < p.3.len() ==> (#[trigger] p.3[i]).1 == rows.orphaned@[i].id@ && p.3[i].2
                == rows.orphaned@[i].entry_type@ && p.3[i].3 == rows.orphaned@[i].title@,
        forall|i: int|
            0 <= i < p.4.len() ==> (#[trigger] p.4[i]).1 == rows.contradictions@[i].id@ && p.4[i].2
                == rows.contradictions@[i].entry_type@ && p.4[i].3 == rows.contradictions@[i].title@,
{
    let a = if plan.run_stale {
        row_findings(rows.stale@, "stale"@, |d: Seq<char>| stale_reason(d, plan.stale_days))
    } else {
        Seq::empty()
    };
    let b = if plan.run_dead {
        row_findings(rows.dead@, "dead"@, |d: Seq<char>| dead_reason(d))
    } else {
        Seq::empty()
    };
    let h = if plan.run_hot {
        hot_findings(rows.hot@)
    } else {
        Seq::empty()
    };
    let o = if plan.run_orphaned {
        row_findings(rows.orphaned@, "orphaned"@, |d: Seq<char>| orphan_reason(d))
    } else {
        Seq::empty()
    };
    let e = if plan.run_contradictions {
        row_findings(rows.contradictions@, "contradictions"@, |d: Seq<char>| similar_reason(d))
    } else {
        Seq::empty()
    };
    assert(report_findings(plan, rows) =~= a + (b + (h + (o + e))));
    (a, b, h, o, e)
}

/// Every finding of the report carries the id, type and title of the row it
/// came from, under its check's category: the rows of the checks that run
/// follow one another in the order stale, dead, hot, orphaned,
/// contradictions, each check's rows in the order read.
pub proof fn lemma_findings_carry_their_rows(plan: ReflectPlan, rows: ReflectRows)
    ensures
        ({
            let f = report_findings(plan, rows);
            let n1 = used(plan.run_stale, rows.stale@.len());
            let n2 = n1 + used(plan.run_dead, rows.dead@.len());
            let n3 = n2 + used(plan.run_hot, rows.hot@.len());
            let n4 = n3 + used(plan.run_orphaned, rows.orphaned@.len());
            &&& forall|i: int|
                0 <= i < n1 ==> (#[trigger] f[i]).0 == "stale"@ && f[i].1 == rows.stale@[i].id@
                    && f[i].2 == rows.stale@[i].entry_type@ && f[i].3 == rows.stale@[i].title@
            &&& forall|i: int|
                n1 <= i < n2 ==> (#[trigger] f[i]).0 == "dead"@ && f[i].1 == rows.dead@[i - n1].id@
                    && f[i].2 == rows.dead@[i - n1].entry_type@ && f[i].3 == rows.dead@[i
                    - n1].title@
            &&& forall|i: int|
                n2 <= i < n3 ==> (#[trigger] f[i]).0 == "hot"@ && f[i].1 == rows.hot@[i - n2].id@
                    && f[i].2 == rows.hot@[i - n2].entry_type@ && f[i].3 == rows.hot@[i - n2].title@
            &&& forall|i: int|
                n3 <= i < n4 ==> (#[trigger] f[i]).0 == "orphaned"@ && f[i].1 == rows.orphaned@[i
                    - n3].id@ && f[i].2 == rows.orphaned@[i - n3].entry_type@ && f[i].3
                    == rows.orphaned@[i - n3].title@
            &&& forall|i: int|
                n4 <= i < f.len() ==> (#[trigger] f[i]).0 == "contradictions"@ && f[i].1
                    == rows.contradictions@[i - n4].id@ && f[i].2 == rows.contradictions@[i
                    - n4].entry_type@ && f[i].3 == rows.contradictions@[i - n4].title@
        }),
{
    let (a, b, h, o, e) = report_parts(plan, rows);
    lemma_report_len(plan, rows);
    let f = report_findings(plan, rows);
    let n1 = a.len() as int;
    let n2 = n1 + b.len();
    let n3 = n2 + h.len();
    let n4 = n3 + o.len();
    assert(f =~= a + b + h + o + e);
    assert forall|i: int| 0 <= i < n1 implies (#[trigger] f[i]).0 == "stale"@ && f[i].1
        == rows.stale@[i].id@ && f[i].2 == rows.stale@[i].entry_type@ && f[i].3
        == rows.stale@[i].title@ by {
        assert(f[i] == a[i]);
    }
    assert forall|i: int| n1 <= i < n2 implies (#[trigger] f[i]).0 == "dead"@ && f[i].1
        == rows.dead@[i - n1].id@ && f[i].2 == rows.dead@[i - n1].entry_type@ && f[i].3
        == rows.dead@[i - n1].title@ by {
        assert(f[i] == b[i - n1]);
    }
    assert forall|i: int| n2 <= i < n3 implies (#[trigger] f[i]).0 == "hot"@ && f[i].1
        == rows.hot@[i - n2].id@ && f[i].2 == rows.hot@[i - n2].entry_type@ && f[i].3
        == rows.hot@[i - n2].title@ by {
        assert(f[i] == h[i - n2]);
    }
    assert forall|i: int| n3 <= i < n4 implies (#[trigger] f[i]).0 == "orphaned"@ && f[i].1
        == rows.orphaned@[i - n3].id@ && f[i].2 == rows.orphaned@[i - n3].entry_type@ && f[i].3
        == rows.orphaned@[i - n3].title@ by {
        assert(f[i] == o[i - n3]);
    }
    assert forall|i: int| n4 <= i < f.len() implies (#[trigger] f[i]).0 == "contradictions"@
        && f[i].1 == rows.contradictions@[i - n4].id@ && f[i].2 == rows.contradictions@[i
        - n4].entry_type@ && f[i].3 == rows.contradictions@[i - n4].title@ by {
        assert(f[i] == e[i - n4]);
    }
}

} // verus!
