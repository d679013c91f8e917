//! Certificate inspection: status of certificate signing requests, and the
//! expiry tiers of the TLS certificates found in secrets.

use vstd::prelude::*;

use crate::inspections::common::{issue_view, issue_views, make_issue, or_default, push_issue, str_or, CheckOutcome, IssueSpec};
use crate::inspections::observability::graded;
use crate::inspections::types::{CertificateExpiryRow, CheckStatus, Issue, IssueSeverity};
use crate::node_inspection::local::{days_between, remaining_days};
use crate::utils::format::utf8_size;
use crate::utils::lang::{fill, lang_fmt1, lang_fmt2, lang_fmt4, pick, Lang};
use crate::utils::text::{dec, owned, str_eq, string_of, trim, trim_str, u64_to_string};

verus! {

/// A certificate signing request: its name and conditions as
/// `(type, status)`.
#[derive(Debug, Clone)]
pub struct CsrInfo {
    pub name: Option<String>,
    pub conditions: Option<Vec<(String, String)>>,
}

/// Outcome of the CSR scan.
#[derive(Debug, Clone)]
pub struct CsrScan {
    pub total: usize,
    pub pending: usize,
    pub denied_or_failed: usize,
    pub issues: Vec<Issue>,
}

pub open spec fn csr_conds(c: CsrInfo) -> Seq<(String, String)> {
    match c.conditions {
        Some(v) => v@,
        None => seq![],
    }
}

pub open spec fn has_cond(cs: Seq<(String, String)>, t: Seq<char>, status: Option<Seq<char>>) -> bool {
    exists|i: int|
        0 <= i < cs.len() && (#[trigger] cs[i]).0@ == t && match status {
            Some(s) => cs[i].1@ == s,
            None => true,
        }
}

pub open spec fn csr_approved(c: CsrInfo) -> bool {
    has_cond(csr_conds(c), "Approved"@, Some("True"@))
}

pub open spec fn csr_denied(c: CsrInfo) -> bool {
    has_cond(csr_conds(c), "Denied"@, None)
}

pub open spec fn csr_failed(c: CsrInfo) -> bool {
    has_cond(csr_conds(c), "Failed"@, None)
}

/// Issue of a request: denied or failed (Warning), else not approved yet
/// (Info); both code B01.
pub open spec fn csr_issues(lang: Lang, c: CsrInfo) -> Seq<IssueSpec> {
    let name = or_default(c.name, "unknown"@);
    if csr_denied(c) || csr_failed(c) {
        seq![
            (
                IssueSeverity::Warning,
                "Certificates"@,
                fill(
                    pick(lang, "CSR {} is {}"@, "CSR {} 为 {}"@),
                    seq![
                        name,
                        if csr_denied(c) {
                            pick(lang, "Denied"@, "已拒绝"@)
                        } else {
                            pick(lang, "Failed"@, "已失败"@)
                        },
                    ],
                ),
                Some(name),
                pick(
                    lang,
                    "Review and clean up denied/failed CSRs; re-issue if needed."@,
                    "审查并清理已拒绝/失败的 CSR；如有需要请重新签发。"@,
                ),
                Some("B01"@),
            ),
        ]
    } else if !csr_approved(c) {
        seq![
            (
                IssueSeverity::Info,
                "Certificates"@,
                fill(pick(lang, "CSR {} is Pending approval"@, "CSR {} 正在等待审批"@), seq![name]),
                Some(name),
                pick(
                    lang,
                    "Approve or deny pending CSRs (e.g. kubectl certificate approve/deny). Cluster component cert expiry (apiserver/etcd/kubelet) must be checked on nodes (e.g. kubeadm cert check-expiry)."@,
                    "审批或拒绝待处理的 CSR（例如 kubectl certificate approve/deny）。集群组件证书过期（apiserver/etcd/kubelet）必须在节点上检查（例如 kubeadm cert check-expiry）。"@,
                ),
                Some("B01"@),
            ),
        ]
    } else {
        seq![]
    }
}

pub open spec fn csrs_issues(lang: Lang, cs: Seq<CsrInfo>) -> Seq<IssueSpec>
    decreases cs.len(),
{
    if cs.len() == 0 {
        seq![]
    } else {
        csrs_issues(lang, cs.drop_last()) + csr_issues(lang, cs.last())
    }
}

/// Requests denied or failed (`bad` true), or neither and not approved.
pub open spec fn count_csrs(cs: Seq<CsrInfo>, bad: bool) -> nat
    decreases cs.len(),
{
    if cs.len() == 0 {
        0
    } else {
        let c = cs.last();
        let is_bad = csr_denied(c) || csr_failed(c);
        count_csrs(cs.drop_last(), bad) + if (bad && is_bad) || (!bad && !is_bad && !csr_approved(c)) {
            1nat
        } else {
            0nat
        }
    }
}

fn find_cond(cs: &Vec<(String, String)>, t: &str, status: Option<&str>) -> (r: bool)
    ensures
        r == has_cond(cs@, t@, match status {
            Some(s) => Some(s@),
            None => None,
        }),
{
    let ghost st = match status {
        Some(s) => Some(s@),
        None => None::<Seq<char>>,
    };
    let mut i: usize = 0;
    while i < cs.len()
        invariant
            i <= cs.len(),
            st == match status {
                Some(s) => Some(s@),
                None => None::<Seq<char>>,
            },
            forall|k: int|
                0 <= k < i ==> !((#[trigger] cs@[k]).0@ == t@ && match st {
                    Some(s) => cs@[k].1@ == s,
                    None => true,
                }),
        decreases cs.len() - i,
    {
        let type_ok = str_eq(cs[i].0.as_str(), t);
        let status_ok = match status {
            Some(s) => str_eq(cs[i].1.as_str(), s),
            None => true,
        };
        if type_ok && status_ok {
            return true;
        }
        i = i + 1;
    }
    false
}

/// Scans the certificate signing requests: how many, how many pending, how
/// many denied or failed, and their issues.
pub fn inspect_csrs(lang: Lang, csrs: &Vec<CsrInfo>) -> (r: CsrScan)
    ensures
        r.total == csrs.len(),
        r.pending == count_csrs(csrs@, false),
        r.denied_or_failed == count_csrs(csrs@, true),
        issue_views(r.issues@) == csrs_issues(lang, csrs@),
{
    let mut issues: Vec<Issue> = Vec::new();
    let mut pending: usize = 0;
    let mut bad: usize = 0;
    let mut i: usize = 0;
    proof {
        assert(issue_views(issues@) =~= csrs_issues(lang, csrs@.take(0)));
    }
    while i < csrs.len()
        invariant
            i <= csrs.len(),
            pending == count_csrs(csrs@.take(i as int), false),
            bad == count_csrs(csrs@.take(i as int), true),
            pending <= i,
            bad <= i,
            issue_views(issues@) == csrs_issues(lang, csrs@.take(i as int)),
        decreases csrs.len() - i,
    {
        proof {
            assert(csrs@.take(i as int + 1).drop_last() =~= csrs@.take(i as int));
        }
        let c = &csrs[i];
        let empty: Vec<(String, String)> = Vec::new();
        let conds: &Vec<(String, String)> = match &c.conditions {
            Some(v) => v,
            None => &empty,
        };
        proof {
            assert(conds@ =~= csr_conds(*c));
        }
        let approved = find_cond(conds, "Approved", Some("True"));
        let denied = find_cond(conds, "Denied", None);
        let failed = find_cond(conds, "Failed", None);
        let name = str_or(&c.name, "unknown");
        if denied || failed {
            bad = bad + 1;
            let what = if denied {
                lang.t("Denied", "已拒绝")
            } else {
                lang.t("Failed", "已失败")
            };
            let issue = make_issue(
                IssueSeverity::Warning,
                "Certificates",
                lang_fmt2(lang, "CSR {} is {}", "CSR {} 为 {}", name, what),
                owned(name),
                lang.t(
                    "Review and clean up denied/failed CSRs; re-issue if needed.",
                    "审查并清理已拒绝/失败的 CSR；如有需要请重新签发。",
                ),
                "B01",
            );
            push_issue(&mut issues, issue);
        } else if !approved {
            pending = pending + 1;
            let issue = make_issue(
                IssueSeverity::Info,
                "Certificates",
                lang_fmt1(lang, "CSR {} is Pending approval", "CSR {} 正在等待审批", name),
                owned(name),
                lang.t(
                    "Approve or deny pending CSRs (e.g. kubectl certificate approve/deny). Cluster component cert expiry (apiserver/etcd/kubelet) must be checked on nodes (e.g. kubeadm cert check-expiry).",
                    "审批或拒绝待处理的 CSR（例如 kubectl certificate approve/deny）。集群组件证书过期（apiserver/etcd/kubelet）必须在节点上检查（例如 kubeadm cert check-expiry）。",
                ),
                "B01",
            );
            push_issue(&mut issues, issue);
        }
        proof {
            assert(issue_views(issues@) =~= csrs_issues(lang, csrs@.take(i as int + 1)));
        }
        i = i + 1;
    }
    proof {
        assert(csrs@.take(csrs.len() as int) =~= csrs@);
    }
    CsrScan { total: csrs.len(), pending, denied_or_failed: bad, issues }
}

// ---------------------------------------------------------------------------
// TLS certificate expiry
// ---------------------------------------------------------------------------

/// How many certificates have expired, expire within 30 days, and within
/// 31 to 90 days.
pub open spec fn expiry_tally(days: Seq<i64>) -> (nat, nat, nat)
    decreases days.len(),
{
    if days.len() == 0 {
        (0, 0, 0)
    } else {
        let (e, a, b) = expiry_tally(days.drop_last());
        let d = days.last();
        if d < 0 {
            (e + 1, a, b)
        } else if d <= 30 {
            (e, a + 1, b)
        } else if d <= 90 {
            (e, a, b + 1)
        } else {
            (e, a, b)
        }
    }
}

proof fn lemma_tally_bound(days: Seq<i64>)
    ensures
        expiry_tally(days).0 + expiry_tally(days).1 + expiry_tally(days).2 <= days.len(),
    decreases days.len(),
{
    if days.len() > 0 {
        lemma_tally_bound(days.drop_last());
    }
}

/// Counts expired, 30-day and 90-day certificates from days until expiry.
pub fn tally_expiry(days: &Vec<i64>) -> (r: (usize, usize, usize))
    ensures
        (r.0 as nat, r.1 as nat, r.2 as nat) == expiry_tally(days@),
{
    let mut e: usize = 0;
    let mut a: usize = 0;
    let mut b: usize = 0;
    let mut i: usize = 0;
    while i < days.len()
        invariant
            i <= days.len(),
            (e as nat, a as nat, b as nat) == expiry_tally(days@.take(i as int)),
        decreases days.len() - i,
    {
        proof {
            assert(days@.take(i as int + 1).drop_last() =~= days@.take(i as int));
            lemma_tally_bound(days@.take(i as int));
        }
        let d = days[i];
        if d < 0 {
            e = e + 1;
        } else if d <= 30 {
            a = a + 1;
        } else if d <= 90 {
            b = b + 1;
        }
        i = i + 1;
    }
    proof {
        assert(days@.take(days.len() as int) =~= days@);
    }
    (e, a, b)
}

/// Score (percent) and status of the TLS expiry check: 40 with an expired
/// certificate, else 70 with one expiring in 30 days, else 85 with one in
/// 90 days, else 100; Pass from 90, Warning from 70.
pub fn tls_expiry_grade(expired: usize, within_30: usize, within_90: usize) -> (r: (u32, CheckStatus))
    ensures
        r.0 == if expired > 0 {
            40u32
        } else if within_30 > 0 {
            70u32
        } else if within_90 > 0 {
            85u32
        } else {
            100u32
        },
        r.1 == if r.0 >= 90 {
            CheckStatus::Pass
        } else if r.0 >= 70 {
            CheckStatus::Warning
        } else {
            CheckStatus::Critical
        },
{
    let score: u32 = if expired > 0 {
        40
    } else if within_30 > 0 {
        70
    } else if within_90 > 0 {
        85
    } else {
        100
    };
    let status = if score >= 90 {
        CheckStatus::Pass
    } else if score >= 70 {
        CheckStatus::Warning
    } else {
        CheckStatus::Critical
    };
    (score, status)
}

/// A certificate subject as shown: kept when at most 60 bytes, else its
/// first 57 characters and `...`.
pub open spec fn short_subject_spec(s: Seq<char>) -> Seq<char> {
    if utf8_size(s) > 60 {
        s.take(if s.len() < 57 { s.len() as int } else { 57 }) + "..."@
    } else {
        s
    }
}

pub fn short_subject(s: &str) -> (r: String)
    ensures
        r@ == short_subject_spec(s@),
{
    let v = crate::utils::text::chars_of(s);
    if crate::utils::format::utf8_longer_than(&v, 60) {
        let n: usize = if v.len() < 57 {
            v.len()
        } else {
            57
        };
        let head = crate::utils::text::sub_vec(&v, 0, n);
        let mut out = crate::utils::text::string_of(&head);
        crate::utils::text::push_str(&mut out, "...");
        proof {
            assert(head@ =~= s@.take(n as int));
        }
        out
    } else {
        owned(s)
    }
}


/// What `x509_parser` reads from a DER certificate: the subject as it
/// prints it, and the `notAfter` time as it prints it and in Unix seconds;
/// `None` when the bytes do not parse as a certificate.
pub uninterp spec fn x509_summary(der: Seq<u8>) -> Option<(Seq<char>, Seq<char>, i64)>;

/// `x509_parser::parse_x509_certificate`, then the certificate's subject
/// and `validity().not_after` printed, and `not_after.timestamp()`: the
/// result is the named value of the bytes.
#[verifier::external_body]
pub(crate) fn parse_x509_summary(der: &[u8]) -> (r: Option<(String, String, i64)>)
    ensures
        match r {
            Some(t) => x509_summary(der@) == Some((t.0@, t.1@, t.2)),
            None => x509_summary(der@) is None,
        },
{
    match x509_parser::parse_x509_certificate(der) {
        Ok((_rest, cert)) => {
            let not_after = cert.validity().not_after;
            Some((cert.subject().to_string(), not_after.to_string(), not_after.timestamp()))
        },
        Err(_) => None,
    }
}

/// The decoded contents of the valid PEM blocks of a buffer, in order, as
/// `x509_parser` finds them.
pub uninterp spec fn pem_blocks(buf: Seq<u8>) -> Seq<Seq<u8>>;

/// `x509_parser::pem::Pem::iter_from_buffer`, keeping the contents of the
/// blocks that decode: the result is the named value of the bytes.
#[verifier::external_body]
fn pem_contents(buf: &[u8]) -> (r: Vec<Vec<u8>>)
    ensures
        r@.map_values(|b: Vec<u8>| b@) == pem_blocks(buf@),
{
    x509_parser::pem::Pem::iter_from_buffer(buf).flatten().map(|p| p.contents).collect()
}

/// What the TLS check reads of a secret: namespace, name, type, and the
/// bytes of its `tls.crt` entry when it has data with that key.
#[derive(Debug, Clone)]
pub struct TlsSecretInfo {
    pub namespace: Option<String>,
    pub name: Option<String>,
    pub secret_type: Option<String>,
    pub tls_crt: Option<Vec<u8>>,
}

/// A row of the expiry table as plain values.
pub type ExpiryRowSpec = (Seq<char>, Seq<char>, Seq<char>, Seq<char>, i64);

pub open spec fn row_view(r: CertificateExpiryRow) -> ExpiryRowSpec {
    (r.secret_namespace@, r.secret_name@, r.subject_or_cn@, r.expiry_utc@, r.days_until_expiry)
}

pub open spec fn rows_view(rs: Seq<CertificateExpiryRow>) -> Seq<ExpiryRowSpec> {
    rs.map_values(|r: CertificateExpiryRow| row_view(r))
}

/// The expiry row of a parsed certificate (subject, `notAfter` as printed,
/// `notAfter` in Unix seconds) held in a secret: the subject trimmed and
/// shortened, and the whole days from `now` to the expiry.
pub open spec fn summary_row(ns: Seq<char>, name: Seq<char>, f: (Seq<char>, Seq<char>, i64), now: i64) -> ExpiryRowSpec {
    (ns, name, short_subject_spec(trim(f.0)), f.1, days_between(f.2 as int, now as int) as i64)
}

/// The expiry row of a parsed certificate of a secret (see
/// [`summary_row`]).
pub fn certificate_row(ns: &str, name: &str, subject: &str, expiry_utc: String, not_after: i64, now: i64) -> (r:
    CertificateExpiryRow)
    ensures
        row_view(r) == summary_row(ns@, name@, (subject@, expiry_utc@, not_after), now),
{
    let trimmed = string_of(&trim_str(subject));
    CertificateExpiryRow {
        secret_namespace: owned(ns),
        secret_name: owned(name),
        subject_or_cn: short_subject(trimmed.as_str()),
        expiry_utc,
        days_until_expiry: remaining_days(not_after, now),
    }
}

/// One row per block that parses as a certificate.
pub open spec fn block_rows(ns: Seq<char>, name: Seq<char>, blocks: Seq<Seq<u8>>, now: i64) -> Seq<ExpiryRowSpec>
    decreases blocks.len(),
{
    if blocks.len() == 0 {
        seq![]
    } else {
        block_rows(ns, name, blocks.drop_last(), now) + match x509_summary(blocks.last()) {
            Some(f) => seq![summary_row(ns, name, f, now)],
            None => seq![],
        }
    }
}

/// A secret of type `kubernetes.io/tls` with a non-empty `tls.crt`.
pub open spec fn tls_secret(s: TlsSecretInfo) -> bool {
    or_default(s.secret_type, ""@) == "kubernetes.io/tls"@ && s.tls_crt is Some && s.tls_crt->0@.len() > 0
}

pub open spec fn secret_rows(s: TlsSecretInfo, now: i64) -> Seq<ExpiryRowSpec> {
    if tls_secret(s) {
        block_rows(or_default(s.namespace, "default"@), or_default(s.name, "unknown"@), pem_blocks(s.tls_crt->0@), now)
    } else {
        seq![]
    }
}

pub open spec fn secrets_rows(ss: Seq<TlsSecretInfo>, now: i64) -> Seq<ExpiryRowSpec>
    decreases ss.len(),
{
    if ss.len() == 0 {
        seq![]
    } else {
        secrets_rows(ss.drop_last(), now) + secret_rows(ss.last(), now)
    }
}

fn push_block_rows(ns: &str, name: &str, blocks: &Vec<Vec<u8>>, now: i64, out: &mut Vec<CertificateExpiryRow>)
    ensures
        rows_view(final(out)@) == rows_view(old(out)@) + block_rows(ns@, name@, blocks@.map_values(|b: Vec<u8>| b@), now),
{
    let ghost bv = blocks@.map_values(|b: Vec<u8>| b@);
    let ghost start = rows_view(out@);
    let mut i: usize = 0;
    proof {
        assert(bv.take(0) =~= Seq::<Seq<u8>>::empty());
        assert(rows_view(out@) =~= start + block_rows(ns@, name@, bv.take(0), now));
    }
    while i < blocks.len()
        invariant
            i <= blocks.len(),
            bv == blocks@.map_values(|b: Vec<u8>| b@),
            rows_view(out@) == start + block_rows(ns@, name@, bv.take(i as int), now),
        decreases blocks.len() - i,
    {
        proof {
            assert(bv.take(i as int + 1).drop_last() =~= bv.take(i as int));
            assert(bv.take(i as int + 1).last() == blocks@[i as int]@);
        }
        let ghost before = rows_view(out@);
        match parse_x509_summary(blocks[i].as_slice()) {
            Some((subject, expiry_utc, not_after)) => {
                let row = certificate_row(ns, name, subject.as_str(), expiry_utc, not_after, now);
                out.push(row);
                proof {
                    assert(rows_view(out@) =~= before.push(row_view(row)));
                }
            },
            None => {},
        }
        proof {
            assert(rows_view(out@) =~= start + block_rows(ns@, name@, bv.take(i as int + 1), now));
        }
        i = i + 1;
    }
    proof {
        assert(bv.take(blocks.len() as int) =~= bv);
    }
}

/// The expiry table of the TLS certificates held in secrets: one row per
/// certificate of each `kubernetes.io/tls` secret, with the days left from
/// `now` (Unix seconds).
pub fn tls_certificate_rows(secrets: &Vec<TlsSecretInfo>, now: i64) -> (r: Vec<CertificateExpiryRow>)
    ensures
        rows_view(r@) == secrets_rows(secrets@, now),
{
    let mut rows: Vec<CertificateExpiryRow> = Vec::new();
    let mut i: usize = 0;
    proof {
        assert(rows_view(rows@) =~= secrets_rows(secrets@.take(0), now));
    }
    while i < secrets.len()
        invariant
            i <= secrets.len(),
            rows_view(rows@) == secrets_rows(secrets@.take(i as int), now),
        decreases secrets.len() - i,
    {
        proof {
            assert(secrets@.take(i as int + 1).drop_last() =~= secrets@.take(i as int));
        }
        let s = &secrets[i];
        let ghost before = rows_view(rows@);
        let is_tls = str_eq(str_or(&s.secret_type, ""), "kubernetes.io/tls");
        if is_tls {
            match &s.tls_crt {
                Some(crt) => {
                    if crt.len() > 0 {
                        let blocks = pem_contents(crt.as_slice());
                        push_block_rows(str_or(&s.namespace, "default"), str_or(&s.name, "unknown"), &blocks, now, &mut rows);
                    }
                },
                None => {},
            }
        }
        proof {
            assert(rows_view(rows@) =~= before + secret_rows(*s, now));
        }
        i = i + 1;
    }
    proof {
        assert(secrets@.take(secrets.len() as int) =~= secrets@);
    }
    rows
}

pub open spec fn row_days(rs: Seq<ExpiryRowSpec>) -> Seq<i64> {
    rs.map_values(|r: ExpiryRowSpec| r.4)
}

/// The TLS expiry check over the table's rows: the counts of the expiry
/// tiers, the score and status of `tls_expiry_grade`, and a renewal
/// recommendation when a certificate expires within 30 days or has.
pub fn tls_expiry_check(lang: Lang, rows: &Vec<CertificateExpiryRow>) -> (r: CheckOutcome)
    ensures
        ({
            let t = expiry_tally(row_days(rows_view(rows@)));
            &&& r.name@ == "TLS certificate expiry"@
            &&& r.score == (if t.0 > 0 { 40nat } else if t.1 > 0 { 70nat } else if t.2 > 0 { 85nat } else { 100nat })
            &&& r.status == graded(r.score as int, 90, 70)
            &&& r.details@ == if rows.len() == 0 {
                pick(lang, "No TLS secrets found."@, "未找到 TLS Secret。"@)
            } else {
                fill(pick(lang, "{} certificate(s); {} expiring in 90 days, {} in 30 days, {} expired."@,
                    "{} 个证书；{} 个将在 90 天内过期，{} 个在 30 天内过期，{} 个已过期。"@),
                    seq![dec(rows.len() as nat), dec(t.2), dec(t.1), dec(t.0)])
            }
            &&& r.recommendations@.map_values(|s: String| s@) == if t.0 > 0 || t.1 > 0 {
                seq![pick(lang, "Renew expiring or expired TLS certificates. Update the Secret and restart workloads."@,
                    "续期即将过期或已过期的 TLS 证书。更新 Secret 并重启工作负载。"@)]
            } else {
                Seq::<Seq<char>>::empty()
            }
        }),
{
    let mut days: Vec<i64> = Vec::new();
    let mut i: usize = 0;
    while i < rows.len()
        invariant
            i <= rows.len(),
            days@ == row_days(rows_view(rows@)).take(i as int),
        decreases rows.len() - i,
    {
        days.push(rows[i].days_until_expiry);
        proof {
            assert(days@ =~= row_days(rows_view(rows@)).take(i as int + 1));
        }
        i = i + 1;
    }
    proof {
        assert(days@ =~= row_days(rows_view(rows@)));
    }
    let (expired, within_30, within_90) = tally_expiry(&days);
    let (score, status) = tls_expiry_grade(expired, within_30, within_90);
    let details = if rows.len() == 0 {
        owned(lang.t("No TLS secrets found.", "未找到 TLS Secret。"))
    } else {
        let n = u64_to_string(rows.len() as u64);
        let a = u64_to_string(within_90 as u64);
        let b = u64_to_string(within_30 as u64);
        let c = u64_to_string(expired as u64);
        lang_fmt4(lang, "{} certificate(s); {} expiring in 90 days, {} in 30 days, {} expired.",
            "{} 个证书；{} 个将在 90 天内过期，{} 个在 30 天内过期，{} 个已过期。", n.as_str(), a.as_str(), b.as_str(), c.as_str())
    };
    let mut recommendations: Vec<String> = Vec::new();
    if expired > 0 || within_30 > 0 {
        recommendations.push(owned(lang.t("Renew expiring or expired TLS certificates. Update the Secret and restart workloads.",
            "续期即将过期或已过期的 TLS 证书。更新 Secret 并重启工作负载。")));
    }
    proof {
        assert(recommendations@.map_values(|s: String| s@) =~= if expired > 0 || within_30 > 0 {
            seq![pick(lang, "Renew expiring or expired TLS certificates. Update the Secret and restart workloads."@,
                "续期即将过期或已过期的 TLS 证书。更新 Secret 并重启工作负载。"@)]
        } else {
            Seq::<Seq<char>>::empty()
        });
    }
    CheckOutcome {
        name: owned("TLS certificate expiry"),
        description: owned(lang.t(
            "Lists TLS certificates from Secrets (type kubernetes.io/tls) with expiry and days until expiry. Control-plane certs (apiserver/etcd/kubelet) require node-level checks (e.g. kubeadm cert check-expiry).",
            "列出 Secrets（类型 kubernetes.io/tls）中的 TLS 证书及其过期时间和剩余天数。控制平面证书（apiserver/etcd/kubelet）需要节点级检查（例如 kubeadm cert check-expiry）。",
        )),
        status,
        score,
        details,
        recommendations,
    }
}

} // verus!
