use kcc::cli::{InspectionType, ReportFormat};
use kcc::config::{authenticate, verify_password, Config, UserConfig};
use kcc::inspections::certificates::{certificate_row, tls_certificate_rows, tls_expiry_check, TlsSecretInfo};
use kcc::inspections::common::summarize_checks;
use kcc::inspections::events::{event_namespaces, recent_event_rows, EventInfo};
use kcc::inspections::middleware::{db_middleware_rows, is_db_image, MiddlewarePodInfo};
use kcc::inspections::runner::smallest_distinct;
use kcc::inspections::types::{CertificateExpiryRow, CheckStatus, Issue, IssueSeverity};
use kcc::jobs::{JobStatus, JobTable};
use kcc::node_inspection::local::{cert_expiry_days, remaining_days};
use kcc::reporting::findings::{aggregated_findings, filter_by_severity, findings_error_only, summary_table_rows};
use kcc::server::{
    download_content_type, failed_job_status, report_file_name, report_format_of, resolve_inspect_request,
    InspectRequest,
};
use kcc::utils::lang::Lang;
use kcc::config::hash_password;
use kcc::server::{login_token, request_allowed, token_subject, verify_token, JwtClaims, LoginError};
use kcc::reporting::report_index::positions_of;

fn s(v: &str) -> String {
    v.to_string()
}

fn issue(sev: IssueSeverity, rule: Option<&str>, res: Option<&str>, rec: &str) -> Issue {
    Issue {
        severity: sev,
        category: s("Pod"),
        description: s("desc"),
        resource: res.map(s),
        recommendation: s(rec),
        rule_id: rule.map(s),
    }
}

fn event(ty: &str, name: &str, secs: Option<i64>, msg: &str) -> EventInfo {
    EventInfo {
        namespace: Some(s("default")),
        event_type: Some(s(ty)),
        object_kind: Some(s("Pod")),
        object_name: Some(s(name)),
        reason: Some(s("BackOff")),
        message: Some(s(msg)),
        last_timestamp: secs.map(|t| (t, 0)),
        first_timestamp: None,
    }
}

fn row(days: i64) -> CertificateExpiryRow {
    CertificateExpiryRow {
        secret_namespace: s("ns"),
        secret_name: s("tls"),
        subject_or_cn: s("CN=x"),
        expiry_utc: s("-"),
        days_until_expiry: days,
    }
}

#[test]
fn tls_rows_skip_other_secrets_and_bad_bytes() {
    let secrets = vec![
        TlsSecretInfo { namespace: None, name: None, secret_type: Some(s("Opaque")), tls_crt: Some(b"x".to_vec()) },
        TlsSecretInfo {
            namespace: Some(s("web")),
            name: Some(s("cert")),
            secret_type: Some(s("kubernetes.io/tls")),
            tls_crt: Some(b"not a pem".to_vec()),
        },
        TlsSecretInfo { namespace: None, name: None, secret_type: Some(s("kubernetes.io/tls")), tls_crt: None },
    ];
    assert!(tls_certificate_rows(&secrets, 0).is_empty());
    let none = tls_expiry_check(Lang::En, &vec![]);
    assert_eq!(none.details, "No TLS secrets found.");
    assert_eq!((none.score, none.status), (100, CheckStatus::Pass));
}

#[test]
fn tls_expiry_tiers() {
    let c = tls_expiry_check(Lang::En, &vec![row(-1), row(10), row(60), row(200)]);
    assert_eq!((c.score, c.status), (40, CheckStatus::Critical));
    assert_eq!(c.details, "4 certificate(s); 1 expiring in 90 days, 1 in 30 days, 1 expired.");
    assert_eq!(c.recommendations.len(), 1);
    let soon = tls_expiry_check(Lang::En, &vec![row(45)]);
    assert_eq!((soon.score, soon.status), (85, CheckStatus::Warning));
    assert!(soon.recommendations.is_empty());
    let month = tls_expiry_check(Lang::Zh, &vec![row(30)]);
    assert_eq!((month.score, month.status), (70, CheckStatus::Warning));
}

#[test]
fn certificate_days_round_toward_zero() {
    assert_eq!(remaining_days(86_400 * 3 + 5, 0), 3);
    assert_eq!(remaining_days(0, 86_400 + 10), -1);
    assert_eq!(remaining_days(100, 100), 0);
    assert_eq!(cert_expiry_days(b"definitely not der", 0), None);
}

#[test]
fn events_newest_first_with_limit() {
    let events = vec![
        event("Warning", "a", Some(0), "first"),
        event("Normal", "b", Some(100), "ignored"),
        event("Error", "c", Some(86_400), "second"),
        event("Warning", "d", None, "no time"),
    ];
    let rows = recent_event_rows(&events, 10);
    assert_eq!(rows.len(), 3);
    assert_eq!(rows[0].last_seen, "1970-01-02 00:00:00");
    assert_eq!(rows[0].object_ref, "Pod/c");
    assert_eq!(rows[1].last_seen, "1970-01-01 00:00:00");
    assert_eq!(rows[2].last_seen, "-");
    assert_eq!(recent_event_rows(&events, 1).len(), 1);
    let long = "x".repeat(100);
    let rows = recent_event_rows(&vec![event("Warning", "e", None, &long)], 5);
    assert_eq!(rows[0].message, format!("{}...", "x".repeat(77)));
    let mut bare = event("Warning", "", None, "m");
    bare.object_kind = None;
    assert_eq!(recent_event_rows(&vec![bare], 5)[0].object_ref, "");
}

#[test]
fn event_namespaces_keep_first_twenty_named() {
    let mut names: Vec<Option<String>> = (0..30).map(|i| Some(format!("ns{}", i))).collect();
    names.insert(0, None);
    let picked = event_namespaces(&names);
    assert_eq!(picked.len(), 20);
    assert_eq!(picked[0], "ns0");
    assert_eq!(picked[19], "ns19");
}

#[test]
fn middleware_rows_sorted_with_restart_totals() {
    let pods = vec![
        MiddlewarePodInfo {
            namespace: Some(s("db")),
            name: Some(s("redis-1")),
            has_spec: true,
            images: vec![Some(s("busybox")), Some(s("docker.io/Bitnami/Redis:7"))],
            has_status: true,
            containers: Some(vec![(true, 2), (true, 3)]),
            init_restarts: Some(vec![1]),
        },
        MiddlewarePodInfo {
            namespace: Some(s("app")),
            name: Some(s("mysql-0")),
            has_spec: true,
            images: vec![Some(s("mysql:8"))],
            has_status: true,
            containers: Some(vec![(false, 0)]),
            init_restarts: None,
        },
        MiddlewarePodInfo {
            namespace: Some(s("app")),
            name: Some(s("web")),
            has_spec: true,
            images: vec![Some(s("nginx"))],
            has_status: false,
            containers: None,
            init_restarts: None,
        },
    ];
    let rows = db_middleware_rows(&pods);
    assert_eq!(rows.len(), 2);
    assert_eq!((rows[0].namespace.as_str(), rows[0].pod_name.as_str()), ("app", "mysql-0"));
    assert!(!rows[0].ready);
    assert_eq!(rows[1].image, "docker.io/Bitnami/Redis:7");
    assert!(rows[1].ready);
    assert_eq!(rows[1].restart_count, 6);
    assert!(is_db_image("POSTGRES:16"));
    assert!(!is_db_image("nginx:1.25"));
}

#[test]
fn key_findings_and_summary_rows() {
    let issues = vec![
        issue(IssueSeverity::Critical, Some("101"), Some("ns/a"), "fix"),
        issue(IssueSeverity::Critical, Some("107"), Some("ns/b"), "fix"),
        issue(IssueSeverity::Critical, Some("107"), Some("ns/c"), "fix"),
        issue(IssueSeverity::Warning, Some("102"), None, "later"),
    ];
    let all = findings_error_only(&issues);
    assert_eq!(all.len(), 2);
    assert!(all[0].starts_with("[error] **107**"));
    let top = aggregated_findings(&issues, 1);
    assert_eq!(top.len(), 1);
    assert!(top[0].starts_with("[Critical] **107**"));
    assert!(top[0].contains("(2)"));
    let rows = summary_table_rows(&issues);
    assert_eq!(rows.len(), 3);
    assert_eq!(rows[1].count, 2);
    assert_eq!(rows[1].sample, "ns/b");
    assert_eq!(rows[2].sample, "");
}

#[test]
fn severity_filter_applied_twice_is_the_same() {
    let issues = vec![
        issue(IssueSeverity::Info, None, None, "a"),
        issue(IssueSeverity::Critical, None, None, "b"),
        issue(IssueSeverity::Warning, None, None, "c"),
    ];
    let once = filter_by_severity(issues.clone(), IssueSeverity::Warning);
    let twice = filter_by_severity(once.clone(), IssueSeverity::Warning);
    assert_eq!(once.len(), 2);
    assert_eq!(twice.len(), once.len());
    assert_eq!(filter_by_severity(issues.clone(), IssueSeverity::Info).len(), issues.len());
}

#[test]
fn check_counts_partition_the_checks() {
    let statuses = vec![CheckStatus::Pass, CheckStatus::Warning, CheckStatus::Pass, CheckStatus::Error];
    let sum = summarize_checks(&statuses, vec![]);
    assert_eq!(sum.total_checks, 4);
    assert_eq!(
        sum.passed_checks + sum.warning_checks + sum.critical_checks + sum.error_checks,
        sum.total_checks
    );
    assert_eq!(sum.passed_checks, 2);
}

#[test]
fn sorted_distinct_keeps_every_item() {
    let items = vec![s("b"), s("a"), s("b"), s("c")];
    let r = smallest_distinct(&items, items.len());
    assert_eq!(r, vec![s("a"), s("b"), s("c")]);
    assert_eq!(smallest_distinct(&items, 2), vec![s("a"), s("b")]);
}

#[test]
fn job_logs_read_after_append() {
    let mut jobs: JobTable<()> = JobTable::new();
    jobs.insert(s("j1"), ());
    jobs.append_log("j1", "one\ntwo\n");
    let (lines, cursor) = jobs.logs_since("j1", 0);
    assert_eq!(lines, vec![s("one"), s("two")]);
    assert_eq!(cursor, 2);
    let (none, same) = jobs.logs_since("j1", cursor);
    assert!(none.is_empty());
    assert_eq!(same, 2);
    jobs.append_log("j1", "three");
    let (more, next) = jobs.logs_since("j1", cursor);
    assert_eq!(more, vec![s("three")]);
    assert_eq!(next, 3);
    assert!(jobs.request_cancel("j1"));
    assert!(jobs.is_cancelled("j1"));
    assert!(!jobs.request_cancel("missing"));
    assert!(jobs.set_status("j1", JobStatus::Cancelled));
}

#[test]
fn passwords_and_accounts() {
    assert!(verify_password("admin", "admin"));
    assert!(!verify_password("admin", "other"));
    assert!(!verify_password("admin", "$argon2id$broken"));
    let users = vec![UserConfig { username: s("admin"), password_hash: s("secret") }];
    assert!(authenticate(&users, "admin", "secret"));
    assert!(!authenticate(&users, "root", "secret"));
}

#[test]
fn inspect_requests_take_configured_defaults() {
    let cfg = Config::defaults_with(s("k"), vec![]);
    let req = InspectRequest {
        types: None,
        namespace: None,
        format: None,
        lang: Some(s("en")),
        level: None,
        node_inspector_namespace: None,
        cluster_name: None,
    };
    let job = resolve_inspect_request(&req, &cfg);
    assert_eq!(job.types, vec![s("all")]);
    assert_eq!(job.format, cfg.default_format);
    assert_eq!(job.lang, "en");
    assert_eq!(job.inspection_type, InspectionType::All);
    assert_eq!(job.node_namespace, cfg.node_inspector_namespace);
    let req = InspectRequest { types: Some(vec![s("pods"), s("nodes")]), ..req };
    assert_eq!(resolve_inspect_request(&req, &cfg).inspection_type, InspectionType::Pods);
    assert_eq!(failed_job_status(true), JobStatus::Cancelled);
    assert_eq!(failed_job_status(false), JobStatus::Failed);
}

#[test]
fn report_files_and_types() {
    assert_eq!(download_content_type("r.html"), "text/html; charset=utf-8");
    assert_eq!(download_content_type("a.b.csv"), "text/csv");
    assert_eq!(download_content_type("x.json"), "application/json");
    assert_eq!(download_content_type("md"), "text/markdown");
    assert_eq!(report_format_of("csv"), ReportFormat::Csv);
    assert_eq!(report_format_of("pdf"), ReportFormat::Md);
    assert_eq!(report_file_name("2024-01-01-000000", "html"), "kubernetes-inspection-report-2024-01-01-000000.html");
}

fn signed_token(sub: &str, exp: u64, secret: &str) -> String {
    let mut claims = serde_json::Map::new();
    claims.insert("sub".to_string(), serde_json::Value::String(sub.to_string()));
    claims.insert("exp".to_string(), serde_json::Value::from(exp));
    claims.insert("iat".to_string(), serde_json::Value::from(1_700_000_000u64));
    jsonwebtoken::encode(
        &jsonwebtoken::Header::default(),
        &serde_json::Value::Object(claims),
        &jsonwebtoken::EncodingKey::from_secret(secret.as_bytes()),
    )
    .unwrap()
}

#[test]
fn bearer_tokens_are_verified_with_the_secret() {
    let token = signed_token("admin", 4_000_000_000, "s3");
    assert_eq!(verify_token(&format!("Bearer {}", token), "s3"), Some("admin".to_string()));
    assert_eq!(verify_token(&format!("Bearer {}", token), "other"), None);
    assert_eq!(verify_token(&token, "s3"), None);
    assert_eq!(verify_token(&format!("bearer {}", token), "s3"), None);
    let expired = signed_token("admin", 1_000_000_000, "s3");
    assert_eq!(verify_token(&format!("Bearer {}", expired), "s3"), None);
    assert_eq!(verify_token("Bearer not-a-jwt", "s3"), None);
}

#[test]
fn hashed_password_verifies() {
    let h = hash_password("pw1");
    assert!(h.starts_with("$argon2"));
    assert!(verify_password("pw1", &h));
    assert!(!verify_password("pw2", &h));
}

#[test]
fn report_index_positions_of_an_id() {
    let ids: Vec<String> = vec!["a".to_string(), "b".to_string(), "a".to_string()];
    assert_eq!(positions_of(&ids, "a"), vec![0, 2]);
    assert_eq!(positions_of(&ids, "b"), vec![1]);
    assert_eq!(positions_of(&ids, "c"), Vec::<usize>::new());
}

#[test]
fn event_messages_are_cut_on_character_boundaries() {
    let long = "中".repeat(27);
    assert_eq!(long.len(), 81);
    let rows = recent_event_rows(&vec![event("Warning", "e", None, &long)], 5);
    let m = &rows[0].message;
    assert!(m.len() <= 80);
    assert!(m.ends_with("..."));
    assert!(long.starts_with(&m[..m.len() - 3]));
    assert_eq!(m, &format!("{}...", "中".repeat(25)));
}

fn token_without_iat(sub: &str, secret: &str) -> String {
    let mut claims = serde_json::Map::new();
    claims.insert("sub".to_string(), serde_json::Value::String(sub.to_string()));
    claims.insert("exp".to_string(), serde_json::Value::from(4_000_000_000u64));
    jsonwebtoken::encode(
        &jsonwebtoken::Header::default(),
        &serde_json::Value::Object(claims),
        &jsonwebtoken::EncodingKey::from_secret(secret.as_bytes()),
    )
    .unwrap()
}

#[test]
fn tokens_need_the_login_claims() {
    let t = token_without_iat("admin", "s3");
    assert_eq!(verify_token(&format!("Bearer {}", t), "s3"), None);
    assert_eq!(
        token_subject(Some(JwtClaims { sub: Some("u".to_string()), exp: Some(1), iat: Some(2) })),
        Some("u".to_string())
    );
    assert_eq!(token_subject(Some(JwtClaims { sub: Some("u".to_string()), exp: Some(1), iat: None })), None);
    assert_eq!(token_subject(Some(JwtClaims { sub: None, exp: Some(1), iat: Some(2) })), None);
    assert_eq!(token_subject(None), None);
}

#[test]
fn requests_need_a_token_only_under_the_api() {
    let good = format!("Bearer {}", signed_token("admin", 4_000_000_000, "s3"));
    assert!(request_allowed(true, "/kcc", "/kcc/index.html", "", "s3"));
    assert!(request_allowed(true, "/kcc", "/kcc/api/auth/login", "", "s3"));
    assert!(!request_allowed(true, "/kcc", "/kcc/api/reports", "", "s3"));
    assert!(request_allowed(true, "/kcc", "/kcc/api/reports", &good, "s3"));
    assert!(!request_allowed(true, "/kcc", "/kcc/api/reports", &good, "other"));
    assert!(request_allowed(false, "/kcc", "/kcc/api/reports", "", "s3"));
}

#[test]
fn certificate_row_from_parsed_summary() {
    let now = 1_700_000_000;
    let r = certificate_row("ns", "web", "  CN=example.com ", "Jan  1 00:00:00 2030 +00:00".to_string(), now + 86_400 * 10 + 5, now);
    assert_eq!(r.secret_namespace, "ns");
    assert_eq!(r.secret_name, "web");
    assert_eq!(r.subject_or_cn, "CN=example.com");
    assert_eq!(r.expiry_utc, "Jan  1 00:00:00 2030 +00:00");
    assert_eq!(r.days_until_expiry, 10);
    let long = "x".repeat(70);
    let r = certificate_row("ns", "web", &long, String::new(), now - 86_400 * 2, now);
    assert_eq!(r.subject_or_cn, format!("{}...", "x".repeat(57)));
    assert_eq!(r.days_until_expiry, -2);
}

#[test]
fn login_issues_a_token_that_names_the_user() {
    let users = vec![UserConfig { username: "admin".to_string(), password_hash: "pw".to_string() }];
    let now = std::time::SystemTime::now().duration_since(std::time::UNIX_EPOCH).unwrap().as_secs();
    let token = login_token(&users, "admin", "pw", now, 3600, "s3").unwrap();
    assert_eq!(verify_token(&format!("Bearer {}", token), "s3"), Some("admin".to_string()));
    assert_eq!(verify_token(&token, "s3"), None);
    assert_eq!(verify_token(&format!("Bearer {}", token), "other"), None);
    assert_eq!(login_token(&users, "admin", "bad", now, 3600, "s3"), Err(LoginError::Unauthorized));
    assert_eq!(login_token(&users, "nobody", "pw", now, 3600, "s3"), Err(LoginError::Unauthorized));
    let hashed = vec![UserConfig { username: "u".to_string(), password_hash: hash_password("p") }];
    assert!(login_token(&hashed, "u", "p", now, 60, "k").is_ok());
}
