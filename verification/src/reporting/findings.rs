//! Aggregation of issues for reports: filters by severity and category,
//! groups of like issues with their affected resources, key finding lines
//! and priority recommendations.

use vstd::prelude::*;

use crate::inspections::types::{Issue, IssueSeverity};
use crate::reporting::generator::{
    affected_spec, display_issue_code, format_affected_resources, issue_short_title,
    issue_short_title_spec, opt_owned_view,
};
use crate::inspections::issue_codes::strip_prefix_spec;
use crate::utils::lang::Lang;
use crate::utils::text::{
    chars_of, contains, contains_vec, dec, lower_text, owned, push_dec, push_str, str_eq,
    to_lowercase,
};

verus! {

/// Issues of one kind: the same rule id, or without one the same category
/// and recommendation. Title and recommendation come from the first issue
/// of the kind; the resources are those of all of them, in order.
#[derive(Debug, Clone)]
pub struct IssueGroup {
    pub rule_id: Option<String>,
    pub category_key: String,
    pub recommendation_key: String,
    pub title: String,
    pub recommendation: String,
    pub resources: Vec<String>,
}

pub type GroupKey = (Option<Seq<char>>, Seq<char>, Seq<char>);

/// A group as plain values: key, title, recommendation, resources.
pub type GroupSpec = (GroupKey, Seq<char>, Seq<char>, Seq<Seq<char>>);

pub open spec fn key_of(i: Issue) -> GroupKey {
    match i.rule_id {
        Some(r) => (Some(r@), ""@, ""@),
        None => (None, i.category@, i.recommendation@),
    }
}

/// Title of an issue: the short title of its code, else its description.
pub open spec fn title_of(lang: Lang, i: Issue) -> Seq<char> {
    match i.rule_id {
        Some(c) => match issue_short_title_spec(lang, c@) {
            Some(t) => t,
            None => i.description@,
        },
        None => i.description@,
    }
}

pub open spec fn res_seq(r: Option<String>) -> Seq<Seq<char>> {
    match r {
        Some(s) => seq![s@],
        None => seq![],
    }
}

pub open spec fn group_view(g: IssueGroup) -> GroupSpec {
    (
        (opt_owned_view(g.rule_id), g.category_key@, g.recommendation_key@),
        g.title@,
        g.recommendation@,
        g.resources@.map_values(|s: String| s@),
    )
}

pub open spec fn group_views(gs: Seq<IssueGroup>) -> Seq<GroupSpec> {
    gs.map_values(|g: IssueGroup| group_view(g))
}

/// Position of the group with the key, or -1.
pub open spec fn group_index(gs: Seq<GroupSpec>, k: GroupKey) -> int
    decreases gs.len(),
{
    if gs.len() == 0 {
        -1
    } else if gs.last().0 == k {
        gs.len() - 1
    } else {
        group_index(gs.drop_last(), k)
    }
}

/// The groups of the issues of severity `sev`, in order of first
/// appearance.
pub open spec fn groups_of(lang: Lang, is: Seq<Issue>, sev: IssueSeverity) -> Seq<GroupSpec>
    decreases is.len(),
{
    if is.len() == 0 {
        seq![]
    } else {
        let g = groups_of(lang, is.drop_last(), sev);
        let i = is.last();
        if i.severity != sev {
            g
        } else {
            let k = group_index(g, key_of(i));
            if k >= 0 {
                g.update(k, (g[k].0, g[k].1, g[k].2, g[k].3 + res_seq(i.resource)))
            } else {
                g.push((key_of(i), title_of(lang, i), i.recommendation@, res_seq(i.resource)))
            }
        }
    }
}

proof fn lemma_group_index_range(gs: Seq<GroupSpec>, k: GroupKey)
    ensures
        -1 <= group_index(gs, k) < gs.len(),
        group_index(gs, k) >= 0 ==> gs[group_index(gs, k)].0 == k,
        group_index(gs, k) == -1 ==> forall|i: int| 0 <= i < gs.len() ==> (#[trigger] gs[i]).0 != k,
    decreases gs.len(),
{
    if gs.len() > 0 {
        lemma_group_index_range(gs.drop_last(), k);
        if gs.last().0 != k {
            assert forall|i: int| 0 <= i < gs.len() - 1 implies gs[i] == gs.drop_last()[i] by {}
        }
    }
}

fn opt_eq(a: &Option<String>, b: &Option<String>) -> (r: bool)
    ensures
        r == (opt_owned_view(*a) == opt_owned_view(*b)),
{
    match (a, b) {
        (Some(x), Some(y)) => str_eq(x.as_str(), y.as_str()),
        (None, None) => true,
        _ => false,
    }
}

fn find_group(gs: &Vec<IssueGroup>, i: &Issue) -> (r: Option<usize>)
    ensures
        match r {
            Some(k) => k == group_index(group_views(gs@), key_of(*i)),
            None => group_index(group_views(gs@), key_of(*i)) == -1,
        },
{
    let ghost gv = group_views(gs@);
    let ghost key = key_of(*i);
    let mut j: usize = gs.len();
    proof {
        assert(gv.take(j as int) =~= gv);
    }
    while j > 0
        invariant
            j <= gs.len(),
            gv == group_views(gs@),
            key == key_of(*i),
            group_index(gv, key) == group_index(gv.take(j as int), key),
        decreases j,
    {
        proof {
            assert(gv.take(j as int).drop_last() =~= gv.take(j - 1));
            assert(gv.take(j as int).last() == group_view(gs@[j - 1]));
        }
        let g = &gs[j - 1];
        let same = match &i.rule_id {
            Some(_) => opt_eq(&g.rule_id, &i.rule_id) && g.category_key.as_str().is_empty()
                && g.recommendation_key.as_str().is_empty(),
            None => g.rule_id.is_none() && str_eq(g.category_key.as_str(), i.category.as_str())
                && str_eq(g.recommendation_key.as_str(), i.recommendation.as_str()),
        };
        proof {
            reveal_strlit("");
            let gk = group_view(gs@[j - 1]).0;
            if g.category_key@.len() == 0 {
                assert(g.category_key@ =~= ""@);
            }
            if g.recommendation_key@.len() == 0 {
                assert(g.recommendation_key@ =~= ""@);
            }
            assert(same == (gk == key));
        }
        if same {
            return Some(j - 1);
        }
        j = j - 1;
    }
    None
}

fn title_exec(lang: Lang, i: &Issue) -> (r: String)
    ensures
        r@ == title_of(lang, *i),
{
    match &i.rule_id {
        Some(c) => match issue_short_title(lang, c.as_str()) {
            Some(t) => t,
            None => i.description.clone(),
        },
        None => i.description.clone(),
    }
}

/// Groups the issues of one severity by kind, in order of first appearance.
pub fn group_issues(lang: Lang, issues: &Vec<Issue>, sev: IssueSeverity) -> (r: Vec<IssueGroup>)
    ensures
        group_views(r@) == groups_of(lang, issues@, sev),
{
    let mut gs: Vec<IssueGroup> = Vec::new();
    let mut n: usize = 0;
    proof {
        assert(group_views(gs@) =~= groups_of(lang, issues@.take(0), sev));
    }
    while n < issues.len()
        invariant
            n <= issues.len(),
            group_views(gs@) == groups_of(lang, issues@.take(n as int), sev),
        decreases issues.len() - n,
    {
        proof {
            assert(issues@.take(n as int + 1).drop_last() =~= issues@.take(n as int));
        }
        let i = &issues[n];
        if i.severity == sev {
            let ghost before = group_views(gs@);
            proof {
                lemma_group_index_range(before, key_of(*i));
            }
            match find_group(&gs, i) {
                Some(k) => {
                    let mut g = gs.remove(k);
                    let ghost gv0 = group_view(g);
                    if let Some(r) = &i.resource {
                        let ghost rb = g.resources@;
                        g.resources.push(r.clone());
                        proof {
                            assert(g.resources@.map_values(|s: String| s@) =~= rb.map_values(|s: String| s@).push(r@));
                        }
                    }
                    proof {
                        assert(group_view(g) == (gv0.0, gv0.1, gv0.2, gv0.3 + res_seq(i.resource)));
                    }
                    gs.insert(k, g);
                    proof {
                        assert(group_views(gs@) =~= before.update(
                            k as int,
                            (before[k as int].0, before[k as int].1, before[k as int].2, before[k as int].3 + res_seq(i.resource)),
                        ));
                    }
                },
                None => {
                    let (rid, ck, rk) = match &i.rule_id {
                        Some(c) => (Some(c.clone()), String::new(), String::new()),
                        None => (None, i.category.clone(), i.recommendation.clone()),
                    };
                    let resources: Vec<String> = match &i.resource {
                        Some(r) => vec![r.clone()],
                        None => Vec::new(),
                    };
                    let g = IssueGroup {
                        rule_id: rid,
                        category_key: ck,
                        recommendation_key: rk,
                        title: title_exec(lang, i),
                        recommendation: i.recommendation.clone(),
                        resources,
                    };
                    proof {
                        reveal_strlit("");
                        assert(g.resources@.map_values(|s: String| s@) =~= res_seq(i.resource));
                        assert(group_view(g) == (key_of(*i), title_of(lang, *i), i.recommendation@, res_seq(i.resource)));
                    }
                    gs.push(g);
                    proof {
                        assert(group_views(gs@) =~= before.push(group_view(g)));
                    }
                },
            }
        }
        n = n + 1;
    }
    proof {
        assert(issues@.take(issues.len() as int) =~= issues@);
    }
    gs
}

// ---------------------------------------------------------------------------
// Ordering by count
// ---------------------------------------------------------------------------

/// Inserts `x` after every leading element whose count is at least its
/// own: repeated from an empty list, a stable sort by count, largest first.
pub open spec fn insert_by_count(s: Seq<GroupSpec>, x: GroupSpec) -> Seq<GroupSpec>
    decreases s.len(),
{
    if s.len() == 0 {
        seq![x]
    } else if s[0].3.len() >= x.3.len() {
        seq![s[0]] + insert_by_count(s.drop_first(), x)
    } else {
        seq![x] + s
    }
}

/// The groups ordered by number of resources, largest first; groups with
/// as many keep their order.
pub open spec fn sort_by_count(s: Seq<GroupSpec>) -> Seq<GroupSpec>
    decreases s.len(),
{
    if s.len() == 0 {
        seq![]
    } else {
        insert_by_count(sort_by_count(s.drop_last()), s.last())
    }
}

proof fn lemma_insert_at(s: Seq<GroupSpec>, x: GroupSpec, p: int)
    requires
        0 <= p <= s.len(),
        forall|j: int| 0 <= j < p ==> (#[trigger] s[j]).3.len() >= x.3.len(),
        p < s.len() ==> s[p].3.len() < x.3.len(),
    ensures
        insert_by_count(s, x) == s.take(p) + seq![x] + s.skip(p),
    decreases s.len(),
{
    if s.len() == 0 {
        assert(s.take(p) + seq![x] + s.skip(p) =~= seq![x]);
    } else if p == 0 {
        assert(s.take(0) + seq![x] + s.skip(0) =~= seq![x] + s);
    } else {
        let t = s.drop_first();
        assert forall|j: int| 0 <= j < p - 1 implies (#[trigger] t[j]).3.len() >= x.3.len() by {
            assert(t[j] == s[j + 1]);
        }
        lemma_insert_at(t, x, p - 1);
        assert(seq![s[0]] + (t.take(p - 1) + seq![x] + t.skip(p - 1)) =~= s.take(p) + seq![x] + s.skip(p));
    }
}

/// Orders groups by number of resources, largest first, keeping the order
/// of groups with as many.
pub fn sort_groups_by_count(gs: Vec<IssueGroup>) -> (r: Vec<IssueGroup>)
    ensures
        group_views(r@) == sort_by_count(group_views(gs@)),
{
    let ghost gv = group_views(gs@);
    let mut out: Vec<IssueGroup> = Vec::new();
    let mut rest = gs;
    let mut taken: usize = 0;
    let ghost total = gv.len();
    proof {
        assert(group_views(out@) =~= sort_by_count(gv.take(0)));
        assert(group_views(rest@) =~= gv.skip(0));
        assert(gv.len() == rest.len());
    }
    while rest.len() > 0
        invariant
            taken + rest.len() == total,
            total == gv.len(),
            gv.len() <= usize::MAX,
            group_views(rest@) == gv.skip(taken as int),
            group_views(out@) == sort_by_count(gv.take(taken as int)),
        decreases rest.len(),
    {
        let ghost old_rest = rest@;
        let g = rest.remove(0);
        let ghost x = group_view(g);
        proof {
            assert(g == old_rest[0]);
            assert(group_views(old_rest)[0] == group_view(old_rest[0]));
            assert(gv.skip(taken as int)[0] == gv[taken as int]);
            assert(x == gv[taken as int]);
            assert forall|j: int| 0 <= j < rest.len() implies #[trigger] group_views(rest@)[j] == gv.skip(
                taken as int + 1,
            )[j] by {
                assert(rest@[j] == old_rest[j + 1]);
                assert(group_views(old_rest)[j + 1] == gv.skip(taken as int)[j + 1]);
            }
            assert(group_views(rest@) =~= gv.skip(taken as int + 1));
            assert(gv.take(taken as int + 1).drop_last() =~= gv.take(taken as int));
            assert(gv.take(taken as int + 1).last() == x);
        }
        let c = g.resources.len();
        let mut p: usize = 0;
        let ghost ov = group_views(out@);
        while p < out.len() && out[p].resources.len() >= c
            invariant
                p <= out.len(),
                ov == group_views(out@),
                c == x.3.len(),
                forall|j: int| 0 <= j < p ==> (#[trigger] ov[j]).3.len() >= x.3.len(),
            decreases out.len() - p,
        {
            proof {
                assert(ov[p as int].3.len() == out@[p as int].resources@.len());
            }
            p = p + 1;
        }
        proof {
            if p < out.len() {
                assert(ov[p as int].3.len() == out@[p as int].resources@.len());
            }
            lemma_insert_at(ov, x, p as int);
        }
        out.insert(p, g);
        proof {
            assert(group_views(out@) =~= ov.take(p as int) + seq![x] + ov.skip(p as int));
        }
        taken = taken + 1;
    }
    proof {
        assert(gv.take(total as int) =~= gv);
    }
    out
}

// ---------------------------------------------------------------------------
// Key findings
// ---------------------------------------------------------------------------

/// The key finding line of a group, after its label.
pub open spec fn finding_line(label: Seq<char>, g: GroupSpec) -> Seq<char> {
    let n = dec(g.3.len());
    let list = affected_spec(g.3);
    match g.0.0 {
        Some(code) => if list.len() == 0 {
            label + " **"@ + strip_prefix_spec(code) + "** "@ + g.1 + " ("@ + n + ")."@
        } else {
            label + " **"@ + strip_prefix_spec(code) + "** "@ + g.1 + " ("@ + n + "). Affected: "@ + list
        },
        None => if list.len() == 0 {
            label + " "@ + g.1 + ": Recommendation: "@ + g.2
        } else {
            label + " "@ + g.1 + " ("@ + n + " issues): "@ + g.1 + ". Affected: "@ + list
                + ". Recommendation: "@ + g.2
        },
    }
}

fn finding_line_exec(label: &str, g: &IssueGroup) -> (r: String)
    ensures
        r@ == finding_line(label@, group_view(*g)),
{
    let ghost gv = group_view(*g);
    let list = format_affected_resources(g.resources.as_slice());
    let n = g.resources.len();
    proof {
        assert(gv.3.len() == n);
    }
    let s = match &g.rule_id {
        Some(code) => {
            let mut s = owned(label);
            push_str(&mut s, " **");
            let dc = display_issue_code(code.as_str());
            push_str(&mut s, dc.as_str());
            push_str(&mut s, "** ");
            push_str(&mut s, g.title.as_str());
            push_str(&mut s, " (");
            push_dec(&mut s, n as u64);
            if list.as_str().is_empty() {
                push_str(&mut s, ").");
            } else {
                push_str(&mut s, "). Affected: ");
                push_str(&mut s, list.as_str());
            }
            s
        },
        None => {
            let mut s = owned(label);
            push_str(&mut s, " ");
            push_str(&mut s, g.title.as_str());
            if list.as_str().is_empty() {
                push_str(&mut s, ": Recommendation: ");
                push_str(&mut s, g.recommendation.as_str());
            } else {
                push_str(&mut s, " (");
                push_dec(&mut s, n as u64);
                push_str(&mut s, " issues): ");
                push_str(&mut s, g.title.as_str());
                push_str(&mut s, ". Affected: ");
                push_str(&mut s, list.as_str());
                push_str(&mut s, ". Recommendation: ");
                push_str(&mut s, g.recommendation.as_str());
            }
            s
        },
    };
    proof {
        assert(s@ =~= finding_line(label@, gv));
    }
    s
}

/// Lines of the critical issues grouped by kind, groups with more
/// resources first, at most `max_items`, each after the label.
fn finding_lines(label: &str, issues: &Vec<Issue>, max_items: usize) -> (r: Vec<String>)
    ensures
        sort_by_count(groups_of(Lang::En, issues@, IssueSeverity::Critical)).len() <= usize::MAX,
        r@.map_values(|s: String| s@) == sort_by_count(groups_of(Lang::En, issues@, IssueSeverity::Critical)).take(
            min_len(max_items as int, sort_by_count(groups_of(Lang::En, issues@, IssueSeverity::Critical)).len() as int),
        ).map_values(|g: GroupSpec| finding_line(label@, g)),
{
    let groups = group_issues(Lang::En, issues, IssueSeverity::Critical);
    let sorted = sort_groups_by_count(groups);
    let ghost sv = group_views(sorted@);
    let n = if max_items < sorted.len() {
        max_items
    } else {
        sorted.len()
    };
    let mut out: Vec<String> = Vec::new();
    let mut i: usize = 0;
    while i < n
        invariant
            i <= n,
            n <= sorted.len(),
            sv == group_views(sorted@),
            out@.map_values(|s: String| s@) == sv.take(i as int).map_values(|g: GroupSpec| finding_line(label@, g)),
        decreases n - i,
    {
        let line = finding_line_exec(label, &sorted[i]);
        let ghost before = out@;
        out.push(line);
        proof {
            assert(sv[i as int] == group_view(sorted@[i as int]));
            assert(out@.map_values(|s: String| s@) =~= before.map_values(|s: String| s@).push(line@));
            assert(sv.take(i as int + 1) =~= sv.take(i as int).push(sv[i as int]));
            assert(out@.map_values(|s: String| s@) =~= sv.take(i as int + 1).map_values(
                |g: GroupSpec| finding_line(label@, g),
            ));
        }
        i = i + 1;
    }
    out
}

pub open spec fn min_len(a: int, b: int) -> int {
    if a < b {
        a
    } else {
        b
    }
}

/// Key findings of the executive summary: the critical issues grouped by
/// kind, groups with more resources first, one `[error]` line each.
pub fn findings_error_only(issues: &Vec<Issue>) -> (r: Vec<String>)
    ensures
        r@.map_values(|s: String| s@) == sort_by_count(groups_of(Lang::En, issues@, IssueSeverity::Critical)).map_values(
            |g: GroupSpec| finding_line("[error]"@, g),
        ),
{
    let r = finding_lines("[error]", issues, usize::MAX);
    proof {
        let s = sort_by_count(groups_of(Lang::En, issues@, IssueSeverity::Critical));
        assert(s.take(min_len(usize::MAX as int, s.len() as int)) =~= s);
    }
    r
}

/// Aggregated key findings: as `findings_error_only`, at most `max_items`
/// lines, each labelled `[Critical]`.
pub fn aggregated_findings(issues: &Vec<Issue>, max_items: usize) -> (r: Vec<String>)
    ensures
        r@.map_values(|s: String| s@) == sort_by_count(groups_of(Lang::En, issues@, IssueSeverity::Critical)).take(
            min_len(max_items as int, sort_by_count(groups_of(Lang::En, issues@, IssueSeverity::Critical)).len() as int),
        ).map_values(|g: GroupSpec| finding_line("[Critical]"@, g)),
{
    finding_lines("[Critical]", issues, max_items)
}

// ---------------------------------------------------------------------------
// Filters
// ---------------------------------------------------------------------------

pub open spec fn severity_rank(s: IssueSeverity) -> int {
    match s {
        IssueSeverity::Info => 0,
        IssueSeverity::Warning => 1,
        IssueSeverity::Critical => 2,
    }
}

/// The issues of at least the given severity, in order.
pub open spec fn at_least_spec(is: Seq<Issue>, min: IssueSeverity) -> Seq<Issue>
    decreases is.len(),
{
    if is.len() == 0 {
        seq![]
    } else {
        at_least_spec(is.drop_last(), min) + if severity_rank(is.last().severity) >= severity_rank(min) {
            seq![is.last()]
        } else {
            seq![]
        }
    }
}

/// Keeps the issues of at least the given severity.
pub fn filter_by_severity(issues: Vec<Issue>, min: IssueSeverity) -> (r: Vec<Issue>)
    ensures
        r@ == at_least_spec(issues@, min),
        r@ == issues@.filter(|i: Issue| i.severity.rank() >= min.rank()),
{
    proof {
        law_severity_filter_keeps_at_least_min(issues@, min);
    }
    let mut out: Vec<Issue> = Vec::new();
    let mut rest = issues;
    let ghost all = rest@;
    let mut taken: usize = 0;
    proof {
        assert(rest@ =~= all.skip(0));
        assert(all.len() == rest.len());
    }
    while rest.len() > 0
        invariant
            taken + rest.len() == all.len(),
            rest@ == all.skip(taken as int),
            all.len() <= usize::MAX,
            out@ == at_least_spec(all.take(taken as int), min),
        decreases rest.len(),
    {
        let ghost old_rest = rest@;
        let i = rest.remove(0);
        proof {
            assert(i == old_rest[0]);
            assert(all.skip(taken as int)[0] == all[taken as int]);
            assert(i == all[taken as int]);
            assert forall|j: int| 0 <= j < rest.len() implies #[trigger] rest@[j] == all.skip(taken as int + 1)[j] by {
                assert(rest@[j] == old_rest[j + 1]);
                assert(old_rest[j + 1] == all.skip(taken as int)[j + 1]);
            }
            assert(rest@ =~= all.skip(taken as int + 1));
            assert(all.take(taken as int + 1).drop_last() =~= all.take(taken as int));
            assert(all.take(taken as int + 1).last() == i);
        }
        let keep = match (i.severity, min) {
            (IssueSeverity::Critical, _) => true,
            (IssueSeverity::Warning, IssueSeverity::Critical) => false,
            (IssueSeverity::Warning, _) => true,
            (IssueSeverity::Info, IssueSeverity::Info) => true,
            (IssueSeverity::Info, _) => false,
        };
        if keep {
            out.push(i);
        }
        proof {
            assert(out@ =~= at_least_spec(all.take(taken as int + 1), min));
        }
        taken = taken + 1;
    }
    proof {
        assert(all.take(all.len() as int) =~= all);
    }
    out
}

/// Whether the category of an issue contains one of the filters, both
/// lower-cased.
pub open spec fn category_matches(i: Issue, filters: Seq<Seq<char>>) -> bool {
    exists|k: int| 0 <= k < filters.len() && contains(lower_text(i.category@), lower_text(#[trigger] filters[k]))
}

pub open spec fn in_categories(is: Seq<Issue>, filters: Seq<Seq<char>>) -> Seq<Issue>
    decreases is.len(),
{
    if is.len() == 0 {
        seq![]
    } else {
        in_categories(is.drop_last(), filters) + if category_matches(is.last(), filters) {
            seq![is.last()]
        } else {
            seq![]
        }
    }
}

/// Keeps the issues whose category contains one of the filter words (case
/// ignored).
pub fn filter_by_category(issues: Vec<Issue>, filters: &Vec<String>) -> (r: Vec<Issue>)
    ensures
        r@ == in_categories(issues@, filters@.map_values(|s: String| s@)),
{
    let ghost fv = filters@.map_values(|s: String| s@);
    let mut lowered: Vec<Vec<char>> = Vec::new();
    let mut k: usize = 0;
    while k < filters.len()
        invariant
            k <= filters.len(),
            fv == filters@.map_values(|s: String| s@),
            lowered.len() == k,
            forall|m: int| 0 <= m < k ==> (#[trigger] lowered@[m])@ == lower_text(fv[m]),
        decreases filters.len() - k,
    {
        let l = to_lowercase(filters[k].as_str());
        lowered.push(chars_of(l.as_str()));
        k = k + 1;
    }
    let mut out: Vec<Issue> = Vec::new();
    let mut rest = issues;
    let ghost all = rest@;
    let mut taken: usize = 0;
    proof {
        assert(rest@ =~= all.skip(0));
        assert(all.len() == rest.len());
    }
    while rest.len() > 0
        invariant
            taken + rest.len() == all.len(),
            rest@ == all.skip(taken as int),
            lowered.len() == fv.len(),
            forall|m: int| 0 <= m < lowered.len() ==> (#[trigger] lowered@[m])@ == lower_text(fv[m]),
            all.len() <= usize::MAX,
            out@ == in_categories(all.take(taken as int), fv),
        decreases rest.len(),
    {
        let ghost old_rest = rest@;
        let i = rest.remove(0);
        proof {
            assert(i == old_rest[0]);
            assert(all.skip(taken as int)[0] == all[taken as int]);
            assert(i == all[taken as int]);
            assert forall|j: int| 0 <= j < rest.len() implies #[trigger] rest@[j] == all.skip(taken as int + 1)[j] by {
                assert(rest@[j] == old_rest[j + 1]);
                assert(old_rest[j + 1] == all.skip(taken as int)[j + 1]);
            }
            assert(rest@ =~= all.skip(taken as int + 1));
            assert(all.take(taken as int + 1).drop_last() =~= all.take(taken as int));
            assert(all.take(taken as int + 1).last() == i);
        }
        let cat = to_lowercase(i.category.as_str());
        let cv = chars_of(cat.as_str());
        let mut hit = false;
        let mut m: usize = 0;
        while m < lowered.len()
            invariant
                m <= lowered.len(),
                cv@ == lower_text(i.category@),
                lowered.len() == fv.len(),
                forall|q: int| 0 <= q < lowered.len() ==> (#[trigger] lowered@[q])@ == lower_text(fv[q]),
                hit == exists|q: int| 0 <= q < m && contains(lower_text(i.category@), lower_text(#[trigger] fv[q])),
            decreases lowered.len() - m,
        {
            if contains_vec(&cv, &lowered[m]) {
                hit = true;
            }
            m = m + 1;
        }
        if hit {
            out.push(i);
        }
        proof {
            assert(out@ =~= in_categories(all.take(taken as int + 1), fv));
        }
        taken = taken + 1;
    }
    proof {
        assert(all.take(all.len() as int) =~= all);
    }
    out
}


// ---------------------------------------------------------------------------
// Priority recommendations
// ---------------------------------------------------------------------------

/// The recommendations of the critical issues, each once in order of first
/// appearance, with how many critical issues give it.
pub open spec fn rec_counts(is: Seq<Issue>) -> Seq<(Seq<char>, nat)>
    decreases is.len(),
{
    if is.len() == 0 {
        seq![]
    } else {
        let c = rec_counts(is.drop_last());
        let i = is.last();
        if i.severity != IssueSeverity::Critical {
            c
        } else {
            let k = rec_index(c, i.recommendation@);
            if k >= 0 {
                c.update(k, (c[k].0, c[k].1 + 1))
            } else {
                c.push((i.recommendation@, 1nat))
            }
        }
    }
}

pub open spec fn rec_index(c: Seq<(Seq<char>, nat)>, r: Seq<char>) -> int
    decreases c.len(),
{
    if c.len() == 0 {
        -1
    } else if c.last().0 == r {
        c.len() - 1
    } else {
        rec_index(c.drop_last(), r)
    }
}

pub open spec fn insert_rec(s: Seq<(Seq<char>, nat)>, x: (Seq<char>, nat)) -> Seq<(Seq<char>, nat)>
    decreases s.len(),
{
    if s.len() == 0 {
        seq![x]
    } else if s[0].1 >= x.1 {
        seq![s[0]] + insert_rec(s.drop_first(), x)
    } else {
        seq![x] + s
    }
}

/// Stable sort by count, largest first.
pub open spec fn sort_recs(s: Seq<(Seq<char>, nat)>) -> Seq<(Seq<char>, nat)>
    decreases s.len(),
{
    if s.len() == 0 {
        seq![]
    } else {
        insert_rec(sort_recs(s.drop_last()), s.last())
    }
}

proof fn lemma_rec_index_range(c: Seq<(Seq<char>, nat)>, r: Seq<char>)
    ensures
        -1 <= rec_index(c, r) < c.len(),
        rec_index(c, r) >= 0 ==> c[rec_index(c, r)].0 == r,
        rec_index(c, r) == -1 ==> forall|i: int| 0 <= i < c.len() ==> (#[trigger] c[i]).0 != r,
    decreases c.len(),
{
    if c.len() > 0 {
        lemma_rec_index_range(c.drop_last(), r);
        if c.last().0 != r {
            assert forall|i: int| 0 <= i < c.len() - 1 implies c[i] == c.drop_last()[i] by {}
        }
    }
}

proof fn lemma_rec_counts_bound(is: Seq<Issue>)
    ensures
        forall|k: int| 0 <= k < rec_counts(is).len() ==> (#[trigger] rec_counts(is)[k]).1 <= is.len(),
    decreases is.len(),
{
    if is.len() > 0 {
        let prev = is.drop_last();
        lemma_rec_counts_bound(prev);
        lemma_rec_index_range(rec_counts(prev), is.last().recommendation@);
        let c = rec_counts(prev);
        assert forall|k: int| 0 <= k < rec_counts(is).len() implies (#[trigger] rec_counts(is)[k]).1 <= is.len() by {
            if k < c.len() {
                assert(c[k].1 <= prev.len());
            }
        }
    }
}

proof fn lemma_insert_rec_at(s: Seq<(Seq<char>, nat)>, x: (Seq<char>, nat), p: int)
    requires
        0 <= p <= s.len(),
        forall|j: int| 0 <= j < p ==> (#[trigger] s[j]).1 >= x.1,
        p < s.len() ==> s[p].1 < x.1,
    ensures
        insert_rec(s, x) == s.take(p) + seq![x] + s.skip(p),
    decreases s.len(),
{
    if s.len() == 0 {
        assert(s.take(p) + seq![x] + s.skip(p) =~= seq![x]);
    } else if p == 0 {
        assert(s.take(0) + seq![x] + s.skip(0) =~= seq![x] + s);
    } else {
        let t = s.drop_first();
        assert forall|j: int| 0 <= j < p - 1 implies (#[trigger] t[j]).1 >= x.1 by {
            assert(t[j] == s[j + 1]);
        }
        lemma_insert_rec_at(t, x, p - 1);
        assert(seq![s[0]] + (t.take(p - 1) + seq![x] + t.skip(p - 1)) =~= s.take(p) + seq![x] + s.skip(p));
    }
}

pub open spec fn rec_views(v: Seq<(String, usize)>) -> Seq<(Seq<char>, nat)> {
    v.map_values(|e: (String, usize)| (e.0@, e.1 as nat))
}

/// Priority recommendations: those of the critical issues, each once, the
/// most frequent first (ties in order of first appearance), at most
/// `max_items`.
pub fn aggregated_recommendations(issues: &Vec<Issue>, max_items: usize) -> (r: Vec<String>)
    ensures
        r@.map_values(|s: String| s@) == sort_recs(rec_counts(issues@)).take(
            if max_items < sort_recs(rec_counts(issues@)).len() {
                max_items as int
            } else {
                sort_recs(rec_counts(issues@)).len() as int
            },
        ).map_values(|e: (Seq<char>, nat)| e.0),
{
    // counts in order of first appearance
    let mut counts: Vec<(String, usize)> = Vec::new();
    let mut n: usize = 0;
    proof {
        assert(rec_views(counts@) =~= rec_counts(issues@.take(0)));
    }
    while n < issues.len()
        invariant
            n <= issues.len(),
            rec_views(counts@) == rec_counts(issues@.take(n as int)),
        decreases issues.len() - n,
    {
        let ghost pre = issues@.take(n as int);
        proof {
            assert(issues@.take(n as int + 1).drop_last() =~= pre);
            lemma_rec_counts_bound(pre);
            lemma_rec_index_range(rec_counts(pre), issues@[n as int].recommendation@);
        }
        let i = &issues[n];
        if let IssueSeverity::Critical = i.severity {
            let ghost cv = rec_views(counts@);
            let mut k: usize = counts.len();
            let mut found: Option<usize> = None;
            proof {
                assert(cv.take(k as int) =~= cv);
            }
            while k > 0 && found.is_none()
                invariant
                    k <= counts.len(),
                    cv == rec_views(counts@),
                    found is None ==> rec_index(cv, i.recommendation@) == rec_index(cv.take(k as int), i.recommendation@),
                    found is Some ==> found->0 == rec_index(cv, i.recommendation@),
                decreases k + if found is None { 1int } else { 0int },
            {
                proof {
                    assert(cv.take(k as int).drop_last() =~= cv.take(k - 1));
                    assert(cv.take(k as int).last() == cv[k - 1]);
                }
                if str_eq(counts[k - 1].0.as_str(), i.recommendation.as_str()) {
                    found = Some(k - 1);
                } else {
                    k = k - 1;
                }
            }
            match found {
                Some(f) => {
                    proof {
                        assert(cv[f as int].1 <= pre.len());
                    }
                    let c = counts[f].1;
                    let name = counts[f].0.clone();
                    counts.set(f, (name, c + 1));
                    proof {
                        assert(rec_views(counts@) =~= cv.update(f as int, (cv[f as int].0, cv[f as int].1 + 1)));
                    }
                },
                None => {
                    proof {
                        assert(rec_index(cv.take(0), i.recommendation@) == -1);
                    }
                    counts.push((i.recommendation.clone(), 1));
                    proof {
                        assert(rec_views(counts@) =~= cv.push((i.recommendation@, 1nat)));
                    }
                },
            }
        }
        n = n + 1;
    }
    proof {
        assert(issues@.take(issues.len() as int) =~= issues@);
    }
    // stable sort by count, largest first
    let ghost cv = rec_views(counts@);
    let mut sorted: Vec<(String, usize)> = Vec::new();
    let mut j: usize = 0;
    proof {
        assert(rec_views(sorted@) =~= sort_recs(cv.take(0)));
    }
    while j < counts.len()
        invariant
            j <= counts.len(),
            cv == rec_views(counts@),
            rec_views(sorted@) == sort_recs(cv.take(j as int)),
        decreases counts.len() - j,
    {
        let ghost sv = rec_views(sorted@);
        let ghost x = cv[j as int];
        proof {
            assert(cv.take(j as int + 1).drop_last() =~= cv.take(j as int));
            assert(cv.take(j as int + 1).last() == x);
        }
        let c = counts[j].1;
        let mut p: usize = 0;
        while p < sorted.len() && sorted[p].1 >= c
            invariant
                p <= sorted.len(),
                sv == rec_views(sorted@),
                c as nat == x.1,
                forall|q: int| 0 <= q < p ==> (#[trigger] sv[q]).1 >= x.1,
            decreases sorted.len() - p,
        {
            p = p + 1;
        }
        proof {
            lemma_insert_rec_at(sv, x, p as int);
        }
        sorted.insert(p, (counts[j].0.clone(), c));
        proof {
            assert(rec_views(sorted@) =~= sv.take(p as int) + seq![x] + sv.skip(p as int));
        }
        j = j + 1;
    }
    proof {
        assert(cv.take(counts.len() as int) =~= cv);
    }
    let ghost fv = rec_views(sorted@);
    let limit = if max_items < sorted.len() {
        max_items
    } else {
        sorted.len()
    };
    let mut out: Vec<String> = Vec::new();
    let mut m: usize = 0;
    while m < limit
        invariant
            m <= limit <= sorted.len(),
            fv == rec_views(sorted@),
            out@.map_values(|s: String| s@) == fv.take(m as int).map_values(|e: (Seq<char>, nat)| e.0),
        decreases limit - m,
    {
        let ghost before = out@;
        let item = sorted[m].0.clone();
        out.push(item);
        proof {
            assert(fv[m as int] == (sorted@[m as int].0@, sorted@[m as int].1 as nat));
            assert(out@.map_values(|s: String| s@) =~= before.map_values(|s: String| s@).push(item@));
            assert(fv.take(m as int + 1) =~= fv.take(m as int).push(fv[m as int]));
            assert(out@.map_values(|s: String| s@) =~= fv.take(m as int + 1).map_values(
                |e: (Seq<char>, nat)| e.0,
            ));
        }
        m = m + 1;
    }
    out
}


// ---------------------------------------------------------------------------
// Laws
// ---------------------------------------------------------------------------

/// Filtering at the lowest severity keeps every issue.
pub proof fn law_info_filter_keeps_all(is: Seq<Issue>)
    ensures
        at_least_spec(is, IssueSeverity::Info) == is,
    decreases is.len(),
{
    if is.len() > 0 {
        law_info_filter_keeps_all(is.drop_last());
        assert(is.drop_last().push(is.last()) =~= is);
    }
}

/// Filtering twice at the same severity changes nothing more.
pub proof fn law_severity_filter_idempotent(is: Seq<Issue>, min: IssueSeverity)
    ensures
        at_least_spec(at_least_spec(is, min), min) == at_least_spec(is, min),
    decreases is.len(),
{
    if is.len() > 0 {
        let prev = is.drop_last();
        law_severity_filter_idempotent(prev, min);
        let f = at_least_spec(prev, min);
        if severity_rank(is.last().severity) >= severity_rank(min) {
            assert(f.push(is.last()).drop_last() =~= f);
            assert(at_least_spec(is, min) =~= f.push(is.last()));
        } else {
            assert(at_least_spec(is, min) =~= f + seq![]);
        }
    }
}

proof fn lemma_insert_sorted(s: Seq<GroupSpec>, x: GroupSpec)
    requires
        forall|i: int, j: int| 0 <= i < j < s.len() ==> (#[trigger] s[i]).3.len() >= (#[trigger] s[j]).3.len(),
    ensures
        insert_by_count(s, x).len() == s.len() + 1,
        forall|i: int, j: int|
            0 <= i < j < insert_by_count(s, x).len() ==> (#[trigger] insert_by_count(s, x)[i]).3.len()
                >= (#[trigger] insert_by_count(s, x)[j]).3.len(),
        forall|i: int| 0 <= i < insert_by_count(s, x).len() ==> (#[trigger] insert_by_count(s, x)[i] == x
            || s.contains(insert_by_count(s, x)[i])),
    decreases s.len(),
{
    if s.len() > 0 && s[0].3.len() >= x.3.len() {
        let t = s.drop_first();
        assert forall|i: int, j: int| 0 <= i < j < t.len() implies (#[trigger] t[i]).3.len() >= (#[trigger] t[j]).3.len() by {
            assert(t[i] == s[i + 1]);
            assert(t[j] == s[j + 1]);
        }
        lemma_insert_sorted(t, x);
        let r = insert_by_count(s, x);
        let rt = insert_by_count(t, x);
        assert(r == seq![s[0]] + rt);
        assert forall|i: int| 0 <= i < r.len() implies (#[trigger] r[i] == x || s.contains(r[i])) by {
            if i > 0 {
                assert(r[i] == rt[i - 1]);
                if rt[i - 1] != x {
                    let w = choose|w: int| 0 <= w < t.len() && t[w] == rt[i - 1];
                    assert(s[w + 1] == t[w]);
                }
            } else {
                assert(s[0] == r[0]);
            }
        }
        assert forall|i: int, j: int| 0 <= i < j < r.len() implies (#[trigger] r[i]).3.len() >= (#[trigger] r[j]).3.len() by {
            if i == 0 {
                assert(r[j] == rt[j - 1]);
                if rt[j - 1] == x {
                } else {
                    let w = choose|w: int| 0 <= w < t.len() && t[w] == rt[j - 1];
                    assert(t[w] == s[w + 1]);
                }
            } else {
                assert(r[i] == rt[i - 1]);
                assert(r[j] == rt[j - 1]);
            }
        }
    } else if s.len() > 0 {
        let r = insert_by_count(s, x);
        assert(r == seq![x] + s);
        assert forall|i: int| 0 <= i < r.len() implies (#[trigger] r[i] == x || s.contains(r[i])) by {
            if i > 0 {
                assert(r[i] == s[i - 1]);
            }
        }
        assert forall|i: int, j: int| 0 <= i < j < r.len() implies (#[trigger] r[i]).3.len() >= (#[trigger] r[j]).3.len() by {
            if i == 0 {
                assert(r[j] == s[j - 1]);
                assert(s[0].3.len() >= s[j - 1].3.len() || j - 1 == 0);
            } else {
                assert(r[i] == s[i - 1]);
                assert(r[j] == s[j - 1]);
            }
        }
    }
}

/// Groups ordered by count keep their number and come largest first.
pub proof fn law_sorted_groups_descending(s: Seq<GroupSpec>)
    ensures
        sort_by_count(s).len() == s.len(),
        forall|i: int, j: int|
            0 <= i < j < sort_by_count(s).len() ==> (#[trigger] sort_by_count(s)[i]).3.len()
                >= (#[trigger] sort_by_count(s)[j]).3.len(),
    decreases s.len(),
{
    if s.len() > 0 {
        law_sorted_groups_descending(s.drop_last());
        lemma_insert_sorted(sort_by_count(s.drop_last()), s.last());
    }
}


// ---------------------------------------------------------------------------
// Summary table
// ---------------------------------------------------------------------------

/// A row of the summary table: the issues with one code, category and
/// recommendation, how many there are and the first resource named.
#[derive(Debug, Clone)]
pub struct SummaryRow {
    pub rule_id: Option<String>,
    pub category: String,
    pub recommendation: String,
    pub count: usize,
    pub sample: String,
}

pub type SummaryKey = (Option<Seq<char>>, Seq<char>, Seq<char>);

pub type SummarySpec = (SummaryKey, nat, Seq<char>);

pub open spec fn summary_key(i: Issue) -> SummaryKey {
    (opt_owned_view(i.rule_id), i.category@, i.recommendation@)
}

pub open spec fn resource_or_empty(i: Issue) -> Seq<char> {
    match i.resource {
        Some(r) => r@,
        None => ""@,
    }
}

pub open spec fn summary_view(r: SummaryRow) -> SummarySpec {
    ((opt_owned_view(r.rule_id), r.category@, r.recommendation@), r.count as nat, r.sample@)
}

pub open spec fn summary_views(rs: Seq<SummaryRow>) -> Seq<SummarySpec> {
    rs.map_values(|r: SummaryRow| summary_view(r))
}

pub open spec fn summary_index(gs: Seq<SummarySpec>, k: SummaryKey) -> int
    decreases gs.len(),
{
    if gs.len() == 0 {
        -1
    } else if gs.last().0 == k {
        gs.len() - 1
    } else {
        summary_index(gs.drop_last(), k)
    }
}

/// The summary rows of the issues, in order of first appearance; the
/// sample is the first non-empty resource of the kind.
pub open spec fn summary_groups(is: Seq<Issue>) -> Seq<SummarySpec>
    decreases is.len(),
{
    if is.len() == 0 {
        seq![]
    } else {
        let g = summary_groups(is.drop_last());
        let i = is.last();
        let k = summary_index(g, summary_key(i));
        if k >= 0 {
            g.update(k, (g[k].0, g[k].1 + 1, if g[k].2.len() == 0 { resource_or_empty(i) } else { g[k].2 }))
        } else {
            g.push((summary_key(i), 1, resource_or_empty(i)))
        }
    }
}

proof fn lemma_summary_index_range(gs: Seq<SummarySpec>, k: SummaryKey)
    ensures
        -1 <= summary_index(gs, k) < gs.len(),
        summary_index(gs, k) >= 0 ==> gs[summary_index(gs, k)].0 == k,
        summary_index(gs, k) == -1 ==> forall|i: int| 0 <= i < gs.len() ==> (#[trigger] gs[i]).0 != k,
    decreases gs.len(),
{
    if gs.len() > 0 {
        lemma_summary_index_range(gs.drop_last(), k);
        if gs.last().0 != k {
            assert forall|i: int| 0 <= i < gs.len() - 1 implies gs[i] == gs.drop_last()[i] by {}
        }
    }
}

proof fn lemma_summary_counts_bound(is: Seq<Issue>)
    ensures
        forall|j: int| 0 <= j < summary_groups(is).len() ==> (#[trigger] summary_groups(is)[j]).1 <= is.len(),
    decreases is.len(),
{
    if is.len() > 0 {
        lemma_summary_counts_bound(is.drop_last());
        lemma_summary_index_range(summary_groups(is.drop_last()), summary_key(is.last()));
    }
}

fn find_summary_row(rs: &Vec<SummaryRow>, i: &Issue) -> (r: Option<usize>)
    ensures
        match r {
            Some(k) => k == summary_index(summary_views(rs@), summary_key(*i)),
            None => summary_index(summary_views(rs@), summary_key(*i)) == -1,
        },
{
    let ghost gv = summary_views(rs@);
    let ghost key = summary_key(*i);
    let mut j: usize = rs.len();
    proof {
        assert(gv.take(j as int) =~= gv);
    }
    while j > 0
        invariant
            j <= rs.len(),
            gv == summary_views(rs@),
            key == summary_key(*i),
            summary_index(gv, key) == summary_index(gv.take(j as int), key),
        decreases j,
    {
        proof {
            assert(gv.take(j as int).drop_last() =~= gv.take(j - 1));
            assert(gv.take(j as int).last() == summary_view(rs@[j - 1]));
        }
        let g = &rs[j - 1];
        if opt_eq(&g.rule_id, &i.rule_id) && str_eq(g.category.as_str(), i.category.as_str()) && str_eq(
            g.recommendation.as_str(),
            i.recommendation.as_str(),
        ) {
            return Some(j - 1);
        }
        j = j - 1;
    }
    None
}

/// The rows of the summary table of the issues.
pub fn summary_table_rows(issues: &Vec<Issue>) -> (r: Vec<SummaryRow>)
    ensures
        summary_views(r@) == summary_groups(issues@),
{
    let mut rs: Vec<SummaryRow> = Vec::new();
    let mut n: usize = 0;
    proof {
        assert(summary_views(rs@) =~= summary_groups(issues@.take(0)));
    }
    while n < issues.len()
        invariant
            n <= issues.len(),
            summary_views(rs@) == summary_groups(issues@.take(n as int)),
        decreases issues.len() - n,
    {
        proof {
            assert(issues@.take(n as int + 1).drop_last() =~= issues@.take(n as int));
            lemma_summary_counts_bound(issues@.take(n as int));
        }
        let i = &issues[n];
        let ghost before = summary_views(rs@);
        proof {
            lemma_summary_index_range(before, summary_key(*i));
        }
        let res = match &i.resource {
            Some(r) => r.clone(),
            None => String::new(),
        };
        proof {
            reveal_strlit("");
            assert(res@ =~= resource_or_empty(*i));
        }
        match find_summary_row(&rs, i) {
            Some(k) => {
                let mut g = rs.remove(k);
                proof {
                    assert(summary_view(g) == before[k as int]);
                }
                g.count = g.count + 1;
                if g.sample.as_str().is_empty() {
                    g.sample = res;
                }
                rs.insert(k, g);
                proof {
                    assert(summary_views(rs@) =~= before.update(
                        k as int,
                        (before[k as int].0, before[k as int].1 + 1, if before[k as int].2.len() == 0 {
                            resource_or_empty(*i)
                        } else {
                            before[k as int].2
                        }),
                    ));
                }
            },
            None => {
                let g = SummaryRow {
                    rule_id: i.rule_id.clone(),
                    category: i.category.clone(),
                    recommendation: i.recommendation.clone(),
                    count: 1,
                    sample: res,
                };
                rs.push(g);
                proof {
                    assert(summary_views(rs@) =~= before.push(summary_view(g)));
                }
            },
        }
        n = n + 1;
    }
    proof {
        assert(issues@.take(issues.len() as int) =~= issues@);
    }
    rs
}


/// The severity filter keeps exactly the issues whose severity is at least
/// the minimum in the order Info < Warning < Critical, in their order.
pub proof fn law_severity_filter_keeps_at_least_min(is: Seq<Issue>, min: IssueSeverity)
    ensures
        at_least_spec(is, min) == is.filter(|i: Issue| i.severity.rank() >= min.rank()),
        forall|k: int| 0 <= k < at_least_spec(is, min).len() ==> (#[trigger] at_least_spec(is, min)[k]).severity.rank() >= min.rank(),
        min == IssueSeverity::Critical ==> forall|k: int| 0 <= k < at_least_spec(is, min).len() ==> (#[trigger] at_least_spec(is, min)[k]).severity == IssueSeverity::Critical,
    decreases is.len(),
{
    reveal(Seq::filter);
    if is.len() > 0 {
        law_severity_filter_keeps_at_least_min(is.drop_last(), min);
    }
    let pred = |i: Issue| i.severity.rank() >= min.rank();
    let f = is.filter(pred);
    assert forall|k: int| 0 <= k < f.len() implies (#[trigger] f[k]).severity.rank() >= min.rank() by {
        is.lemma_filter_pred(pred, k);
    }
    if is.len() > 0 {
        assert(severity_rank(is.last().severity) == is.last().severity.rank());
    }
}

} // verus!
