//! Batch inspection: suspended, failing and never-run cron jobs, and jobs
//! with failed pods or running too long.

use vstd::prelude::*;

use crate::inspections::common::{issue_view, issue_views, make_issue, or_default, push_issue, str_or, IssueSpec};
use crate::inspections::types::{Issue, IssueSeverity};
use crate::utils::lang::{fill, lang_fmt1, pick, Lang};
use crate::utils::text::owned;

verus! {

/// A point in time: Unix seconds and nanoseconds.
pub type Instant = (i64, u32);

pub open spec fn before(a: Instant, b: Instant) -> bool {
    a.0 < b.0 || (a.0 == b.0 && a.1 < b.1)
}

/// What the inspection reads of a cron job.
#[derive(Debug, Clone)]
pub struct CronJobInfo {
    pub name: Option<String>,
    /// `spec.suspend`, when the cron job has a spec.
    pub suspend: Option<bool>,
    pub has_status: bool,
    pub last_schedule: Option<(i64, u32)>,
    pub last_success: Option<(i64, u32)>,
}

/// What the inspection reads of a job; the run time in minutes is measured
/// by the caller from the job's start time.
#[derive(Debug, Clone)]
pub struct JobInfo {
    pub name: Option<String>,
    pub has_status: bool,
    pub failed: Option<i32>,
    pub active: Option<i32>,
    pub succeeded: Option<i32>,
    pub running_minutes: Option<i64>,
}

/// Outcome of a batch scan: healthy objects and the issues.
#[derive(Debug, Clone)]
pub struct BatchScan {
    pub healthy: usize,
    pub issues: Vec<Issue>,
}

pub open spec fn cron_issue(lang: Lang, name: Seq<char>, sev: IssueSeverity, en: Seq<char>, zh: Seq<char>, rec_en: Seq<char>, rec_zh: Seq<char>, rule: Seq<char>) -> IssueSpec {
    (sev, "Batch"@, fill(pick(lang, en, zh), seq![name]), Some(name), pick(lang, rec_en, rec_zh), Some(rule))
}

/// The issue of a cron job (at most one): suspended (801); last run after
/// the last success, or without one (802); never run (803).
pub open spec fn cron_issues(lang: Lang, c: CronJobInfo) -> Seq<IssueSpec> {
    let name = or_default(c.name, "unknown"@);
    if c.suspend == Some(true) {
        seq![cron_issue(lang, name, IssueSeverity::Warning, "CronJob {} is suspended"@, "CronJob {} 已暂停"@,
            "Enable CronJob or remove if no longer needed."@, "启用 CronJob，如果不再需要则删除。"@, "801"@)]
    } else if c.has_status && c.last_schedule is Some && (c.last_success is None || before(c.last_success->0, c.last_schedule->0)) {
        seq![cron_issue(lang, name, IssueSeverity::Critical, "CronJob {} last run failed"@, "CronJob {} 上次运行失败"@,
            "Check CronJob job logs and fix failures before next schedule."@, "检查 CronJob 作业日志并在下次调度前修复失败。"@, "802"@)]
    } else if c.has_status && c.last_schedule is None {
        seq![cron_issue(lang, name, IssueSeverity::Warning, "CronJob {} never executed"@, "CronJob {} 从未执行"@,
            "Ensure CronJob schedule is correct and controller is running."@, "确保 CronJob 调度正确且控制器正在运行。"@, "803"@)]
    } else {
        seq![]
    }
}

pub open spec fn crons_issues(lang: Lang, cs: Seq<CronJobInfo>) -> Seq<IssueSpec>
    decreases cs.len(),
{
    if cs.len() == 0 {
        seq![]
    } else {
        crons_issues(lang, cs.drop_last()) + cron_issues(lang, cs.last())
    }
}

/// Cron jobs without an issue.
pub open spec fn healthy_crons(lang: Lang, cs: Seq<CronJobInfo>) -> nat
    decreases cs.len(),
{
    if cs.len() == 0 {
        0
    } else {
        healthy_crons(lang, cs.drop_last()) + if cron_issues(lang, cs.last()).len() == 0 {
            1nat
        } else {
            0nat
        }
    }
}

fn push_batch_issue(lang: Lang, name: &str, sev: IssueSeverity, en: &str, zh: &str, rec_en: &str, rec_zh: &str, rule: &str, out: &mut Vec<Issue>)
    ensures
        issue_views(final(out)@) == issue_views(old(out)@).push(cron_issue(lang, name@, sev, en@, zh@, rec_en@, rec_zh@, rule@)),
{
    let issue = make_issue(sev, "Batch", lang_fmt1(lang, en, zh, name), owned(name), lang.t(rec_en, rec_zh), rule);
    push_issue(out, issue);
}

fn instant_before(a: (i64, u32), b: (i64, u32)) -> (r: bool)
    ensures
        r == before(a, b),
{
    a.0 < b.0 || (a.0 == b.0 && a.1 < b.1)
}

/// Scans the cron jobs.
pub fn inspect_cron_jobs(lang: Lang, crons: &Vec<CronJobInfo>) -> (r: BatchScan)
    ensures
        r.healthy == healthy_crons(lang, crons@),
        issue_views(r.issues@) == crons_issues(lang, crons@),
{
    let mut issues: Vec<Issue> = Vec::new();
    let mut healthy: usize = 0;
    let mut i: usize = 0;
    proof {
        assert(issue_views(issues@) =~= crons_issues(lang, crons@.take(0)));
    }
    while i < crons.len()
        invariant
            i <= crons.len(),
            healthy == healthy_crons(lang, crons@.take(i as int)),
            healthy <= i,
            issue_views(issues@) == crons_issues(lang, crons@.take(i as int)),
        decreases crons.len() - i,
    {
        proof {
            assert(crons@.take(i as int + 1).drop_last() =~= crons@.take(i as int));
        }
        let c = &crons[i];
        let name = str_or(&c.name, "unknown");
        let ghost before_issues = issue_views(issues@);
        if c.suspend == Some(true) {
            push_batch_issue(lang, name, IssueSeverity::Warning, "CronJob {} is suspended", "CronJob {} 已暂停",
                "Enable CronJob or remove if no longer needed.", "启用 CronJob，如果不再需要则删除。", "801", &mut issues);
        } else if c.has_status && c.last_schedule.is_some() && match (c.last_success, c.last_schedule) {
            (Some(s), Some(t)) => instant_before(s, t),
            (None, _) => true,
            _ => false,
        } {
            push_batch_issue(lang, name, IssueSeverity::Critical, "CronJob {} last run failed", "CronJob {} 上次运行失败",
                "Check CronJob job logs and fix failures before next schedule.", "检查 CronJob 作业日志并在下次调度前修复失败。", "802", &mut issues);
        } else if c.has_status && c.last_schedule.is_none() {
            push_batch_issue(lang, name, IssueSeverity::Warning, "CronJob {} never executed", "CronJob {} 从未执行",
                "Ensure CronJob schedule is correct and controller is running.", "确保 CronJob 调度正确且控制器正在运行。", "803", &mut issues);
        } else {
            healthy = healthy + 1;
        }
        proof {
            assert(issue_views(issues@) =~= before_issues + cron_issues(lang, *c));
        }
        i = i + 1;
    }
    proof {
        assert(crons@.take(crons.len() as int) =~= crons@);
    }
    BatchScan { healthy, issues }
}

pub open spec fn or_zero(o: Option<i32>) -> int {
    match o {
        Some(v) => v as int,
        None => 0,
    }
}

/// The issue of a job (at most one): failed pods (804); running over 60
/// minutes with none succeeded (805).
pub open spec fn job_issues(lang: Lang, j: JobInfo) -> Seq<IssueSpec> {
    let name = or_default(j.name, "unknown"@);
    if j.has_status && or_zero(j.failed) > 0 {
        seq![cron_issue(lang, name, IssueSeverity::Warning, "Job {} has failed pods"@, "Job {} 有失败的 Pod"@,
            "Inspect job pod logs and adjust backoffLimit or resource requests."@, "检查 Job Pod 日志并调整 backoffLimit 或资源请求。"@, "804"@)]
    } else if j.has_status && or_zero(j.active) > 0 && or_zero(j.succeeded) == 0 && j.running_minutes is Some
        && j.running_minutes->0 > 60 {
        seq![cron_issue(lang, name, IssueSeverity::Warning, "Job {} running for over 60 minutes"@, "Job {} 已运行超过 60 分钟"@,
            "Check for stuck pods or adjust activeDeadlineSeconds."@, "检查是否有卡住的 Pod，或调整 activeDeadlineSeconds。"@, "805"@)]
    } else {
        seq![]
    }
}

pub open spec fn jobs_issues(lang: Lang, js: Seq<JobInfo>) -> Seq<IssueSpec>
    decreases js.len(),
{
    if js.len() == 0 {
        seq![]
    } else {
        jobs_issues(lang, js.drop_last()) + job_issues(lang, js.last())
    }
}

pub open spec fn healthy_jobs(lang: Lang, js: Seq<JobInfo>) -> nat
    decreases js.len(),
{
    if js.len() == 0 {
        0
    } else {
        healthy_jobs(lang, js.drop_last()) + if job_issues(lang, js.last()).len() == 0 {
            1nat
        } else {
            0nat
        }
    }
}

fn zero_or(o: Option<i32>) -> (r: i32)
    ensures
        r as int == or_zero(o),
{
    match o {
        Some(v) => v,
        None => 0,
    }
}

/// Scans the jobs.
pub fn inspect_jobs(lang: Lang, jobs: &Vec<JobInfo>) -> (r: BatchScan)
    ensures
        r.healthy == healthy_jobs(lang, jobs@),
        issue_views(r.issues@) == jobs_issues(lang, jobs@),
{
    let mut issues: Vec<Issue> = Vec::new();
    let mut healthy: usize = 0;
    let mut i: usize = 0;
    proof {
        assert(issue_views(issues@) =~= jobs_issues(lang, jobs@.take(0)));
    }
    while i < jobs.len()
        invariant
            i <= jobs.len(),
            healthy == healthy_jobs(lang, jobs@.take(i as int)),
            healthy <= i,
            issue_views(issues@) == jobs_issues(lang, jobs@.take(i as int)),
        decreases jobs.len() - i,
    {
        proof {
            assert(jobs@.take(i as int + 1).drop_last() =~= jobs@.take(i as int));
        }
        let j = &jobs[i];
        let name = str_or(&j.name, "unknown");
        let ghost before_issues = issue_views(issues@);
        let long_running = match j.running_minutes {
            Some(m) => m > 60,
            None => false,
        };
        if j.has_status && zero_or(j.failed) > 0 {
            push_batch_issue(lang, name, IssueSeverity::Warning, "Job {} has failed pods", "Job {} 有失败的 Pod",
                "Inspect job pod logs and adjust backoffLimit or resource requests.", "检查 Job Pod 日志并调整 backoffLimit 或资源请求。", "804", &mut issues);
        } else if j.has_status && zero_or(j.active) > 0 && zero_or(j.succeeded) == 0 && long_running {
            push_batch_issue(lang, name, IssueSeverity::Warning, "Job {} running for over 60 minutes", "Job {} 已运行超过 60 分钟",
                "Check for stuck pods or adjust activeDeadlineSeconds.", "检查是否有卡住的 Pod，或调整 activeDeadlineSeconds。", "805", &mut issues);
        } else {
            healthy = healthy + 1;
        }
        proof {
            assert(issue_views(issues@) =~= before_issues + job_issues(lang, *j));
        }
        i = i + 1;
    }
    proof {
        assert(jobs@.take(jobs.len() as int) =~= jobs@);
    }
    BatchScan { healthy, issues }
}

} // verus!
