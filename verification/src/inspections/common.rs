//! Building blocks shared by the inspection modules: issues as plain
//! values, defaults of optional fields, and the check summary.

use vstd::prelude::*;

use crate::inspections::types::{CheckStatus, InspectionSummary, Issue, IssueSeverity};
use crate::utils::lang::{pick, Lang};
use crate::utils::text::{owned, push_str};

verus! {

/// An issue as plain values: severity, category, description, resource,
/// recommendation and rule id.
pub type IssueSpec = (IssueSeverity, Seq<char>, Seq<char>, Option<Seq<char>>, Seq<char>, Option<Seq<char>>);

pub open spec fn issue_view(i: Issue) -> IssueSpec {
    (
        i.severity,
        i.category@,
        i.description@,
        match i.resource {
            Some(r) => Some(r@),
            None => None,
        },
        i.recommendation@,
        match i.rule_id {
            Some(r) => Some(r@),
            None => None,
        },
    )
}

pub open spec fn issue_views(s: Seq<Issue>) -> Seq<IssueSpec> {
    s.map_values(|i: Issue| issue_view(i))
}

pub open spec fn or_default(o: Option<String>, d: Seq<char>) -> Seq<char> {
    match o {
        Some(s) => s@,
        None => d,
    }
}

pub open spec fn opt_seq<T>(o: Option<Vec<T>>) -> Seq<T> {
    match o {
        Some(v) => v@,
        None => seq![],
    }
}

pub fn str_or<'a>(o: &'a Option<String>, d: &'a str) -> (r: &'a str)
    ensures
        r@ == or_default(*o, d@),
{
    match o {
        Some(s) => s.as_str(),
        None => d,
    }
}

pub fn join_ref(ns: &str, name: &str) -> (r: String)
    ensures
        r@ == ns@ + "/"@ + name@,
{
    let mut s = owned(ns);
    push_str(&mut s, "/");
    push_str(&mut s, name);
    s
}

pub fn make_issue(
    severity: IssueSeverity,
    category: &str,
    description: String,
    resource: String,
    recommendation: &str,
    rule: &str,
) -> (r: Issue)
    ensures
        issue_view(r) == (severity, category@, description@, Some(resource@), recommendation@, Some(
            rule@,
        )),
{
    Issue {
        severity,
        category: owned(category),
        description,
        resource: Some(resource),
        recommendation: owned(recommendation),
        rule_id: Some(owned(rule)),
    }
}

pub fn push_issue(out: &mut Vec<Issue>, i: Issue)
    ensures
        issue_views(final(out)@) == issue_views(old(out)@).push(issue_view(i)),
{
    let ghost before = out@;
    out.push(i);
    proof {
        assert(issue_views(out@) =~= issue_views(before).push(issue_view(i)));
    }
}

pub fn empty_or<'a, T>(o: &'a Option<Vec<T>>, empty: &'a Vec<T>) -> (r: &'a Vec<T>)
    requires
        empty@.len() == 0,
    ensures
        r@ == opt_seq(*o),
{
    match o {
        Some(v) => v,
        None => {
            proof {
                assert(empty@ =~= Seq::<T>::empty());
            }
            empty
        },
    }
}



/// What a check concludes, with its score out of 100.
#[derive(Debug, Clone)]
pub struct CheckOutcome {
    pub name: String,
    pub description: String,
    pub status: CheckStatus,
    pub score: u32,
    pub details: String,
    pub recommendations: Vec<String>,
}

/// A check outcome as plain values: name, description, status, score,
/// details and recommendations.
pub type OutcomeSpec = (Seq<char>, Seq<char>, CheckStatus, nat, Seq<char>, Seq<Seq<char>>);

pub open spec fn outcome_view(o: CheckOutcome) -> OutcomeSpec {
    (o.name@, o.description@, o.status, o.score as nat, o.details@, o.recommendations@.map_values(|s: String| s@))
}

/// Builds an outcome from its parts.
pub fn make_outcome(
    name: &str,
    description: &str,
    status: CheckStatus,
    score: u32,
    details: String,
    recommendations: Vec<String>,
) -> (r: CheckOutcome)
    ensures
        r.name@ == name@,
        r.description@ == description@,
        r.status == status,
        r.score == score,
        r.details@ == details@,
        r.recommendations@ == recommendations@,
{
    CheckOutcome { name: owned(name), description: owned(description), status, score, details, recommendations }
}

/// What a check concludes when its score is a ratio that the caller
/// computes: name, description, status, details and recommendations.
#[derive(Debug, Clone)]
pub struct CheckVerdict {
    pub name: String,
    pub description: String,
    pub status: CheckStatus,
    pub details: String,
    pub recommendations: Vec<String>,
}

pub type VerdictSpec = (Seq<char>, Seq<char>, CheckStatus, Seq<char>, Seq<Seq<char>>);

pub open spec fn verdict_view(v: CheckVerdict) -> VerdictSpec {
    (v.name@, v.description@, v.status, v.details@, v.recommendations@.map_values(|s: String| s@))
}

/// Builds a verdict with at most one recommendation, in the language.
pub fn make_verdict(
    lang: Lang,
    name: &str,
    desc_en: &str,
    desc_zh: &str,
    status: CheckStatus,
    details: String,
    rec: Option<(&str, &str)>,
) -> (r: CheckVerdict)
    ensures
        verdict_view(r) == (name@, pick(lang, desc_en@, desc_zh@), status, details@, match rec {
            Some((en, zh)) => seq![pick(lang, en@, zh@)],
            None => Seq::<Seq<char>>::empty(),
        }),
{
    let mut recommendations: Vec<String> = Vec::new();
    match rec {
        Some((en, zh)) => recommendations.push(owned(lang.t(en, zh))),
        None => {},
    }
    let r = CheckVerdict {
        name: owned(name),
        description: owned(lang.t(desc_en, desc_zh)),
        status,
        details,
        recommendations,
    };
    proof {
        assert(verdict_view(r).4 =~= match rec {
            Some((en, zh)) => seq![pick(lang, en@, zh@)],
            None => Seq::<Seq<char>>::empty(),
        });
    }
    r
}

/// An issue whose resource may be absent.
pub fn make_issue_opt(
    severity: IssueSeverity,
    category: &str,
    description: String,
    resource: Option<String>,
    recommendation: &str,
    rule: &str,
) -> (r: Issue)
    ensures
        issue_view(r) == (severity, category@, description@, match resource {
            Some(s) => Some(s@),
            None => None,
        }, recommendation@, Some(rule@)),
{
    Issue {
        severity,
        category: owned(category),
        description,
        resource,
        recommendation: owned(recommendation),
        rule_id: Some(owned(rule)),
    }
}

/// An issue about the cluster as a whole (no resource).
pub fn make_global_issue(
    severity: IssueSeverity,
    category: &str,
    description: String,
    recommendation: &str,
    rule: &str,
) -> (r: Issue)
    ensures
        issue_view(r) == (severity, category@, description@, None::<Seq<char>>, recommendation@, Some(
            rule@,
        )),
{
    Issue {
        severity,
        category: owned(category),
        description,
        resource: None,
        recommendation: owned(recommendation),
        rule_id: Some(owned(rule)),
    }
}

/// Number of checks with the given status.
pub open spec fn count_status(s: Seq<CheckStatus>, st: CheckStatus) -> nat
    decreases s.len(),
{
    if s.len() == 0 {
        0
    } else {
        count_status(s.drop_last(), st) + if s.last() == st {
            1nat
        } else {
            0nat
        }
    }
}

proof fn lemma_count_status_bound(s: Seq<CheckStatus>, st: CheckStatus)
    ensures
        count_status(s, st) <= s.len(),
    decreases s.len(),
{
    if s.len() > 0 {
        lemma_count_status_bound(s.drop_last(), st);
    }
}

/// Summary of an inspection module: how many of its checks passed, warned,
/// were critical or failed with an error, and its issues.
pub fn summarize_checks(statuses: &Vec<CheckStatus>, issues: Vec<Issue>) -> (r: InspectionSummary)
    requires
        statuses.len() <= u32::MAX,
    ensures
        r.total_checks == statuses.len(),
        r.passed_checks == count_status(statuses@, CheckStatus::Pass),
        r.warning_checks == count_status(statuses@, CheckStatus::Warning),
        r.critical_checks == count_status(statuses@, CheckStatus::Critical),
        r.error_checks == count_status(statuses@, CheckStatus::Error),
        r.issues@ == issues@,
{
    let mut passed: u32 = 0;
    let mut warning: u32 = 0;
    let mut critical: u32 = 0;
    let mut error: u32 = 0;
    let mut i: usize = 0;
    while i < statuses.len()
        invariant
            i <= statuses.len(),
            statuses.len() <= u32::MAX,
            passed == count_status(statuses@.take(i as int), CheckStatus::Pass),
            warning == count_status(statuses@.take(i as int), CheckStatus::Warning),
            critical == count_status(statuses@.take(i as int), CheckStatus::Critical),
            error == count_status(statuses@.take(i as int), CheckStatus::Error),
        decreases statuses.len() - i,
    {
        proof {
            assert(statuses@.take(i as int + 1).drop_last() =~= statuses@.take(i as int));
            lemma_count_status_bound(statuses@.take(i as int), CheckStatus::Pass);
            lemma_count_status_bound(statuses@.take(i as int), CheckStatus::Warning);
            lemma_count_status_bound(statuses@.take(i as int), CheckStatus::Critical);
            lemma_count_status_bound(statuses@.take(i as int), CheckStatus::Error);
        }
        match statuses[i] {
            CheckStatus::Pass => passed = passed + 1,
            CheckStatus::Warning => warning = warning + 1,
            CheckStatus::Critical => critical = critical + 1,
            CheckStatus::Error => error = error + 1,
        }
        i = i + 1;
    }
    proof {
        assert(statuses@.take(statuses.len() as int) =~= statuses@);
    }
    InspectionSummary {
        total_checks: statuses.len() as u32,
        passed_checks: passed,
        warning_checks: warning,
        critical_checks: critical,
        error_checks: error,
        issues,
    }
}


/// Every check is counted under exactly one status.
pub proof fn law_status_counts_partition(s: Seq<CheckStatus>)
    ensures
        count_status(s, CheckStatus::Pass) + count_status(s, CheckStatus::Warning) + count_status(
            s,
            CheckStatus::Critical,
        ) + count_status(s, CheckStatus::Error) == s.len(),
    decreases s.len(),
{
    if s.len() > 0 {
        law_status_counts_partition(s.drop_last());
    }
}

} // verus!
