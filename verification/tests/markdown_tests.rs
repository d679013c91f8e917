use kcc::inspections::types::{Issue, IssueSeverity, NodeConditionsRow};
use kcc::node_inspection::types::{NodeCertificate, NodeKernel, NodeSecurity, NodeServices};
use kcc::reporting::generator::{inspection_type_to_resource, parse_check_level_filter};
use kcc::reporting::markdown::{main_report, md_row, node_inspection_section, NodeSectionData, OverviewData, ReportData};
use kcc::reporting::tables::{CheckLine, NodeTableRow};
use kcc::utils::lang::Lang;
use kcc::utils::status::{CheckStatus, HealthStatus};

fn node(name: &str) -> NodeSectionData {
    NodeSectionData {
        table: NodeTableRow {
            node_name: name.to_string(),
            services: NodeServices {
                runtime: "containerd".to_string(),
                journald_active: Some(true),
                crontab_present: None,
                ntp_synced: Some(false),
                kubelet_running: Some(true),
                container_runtime_running: Some(true),
                status: "ok".to_string(),
                detail: String::new(),
            },
            security: NodeSecurity {
                selinux: None,
                firewalld_active: None,
                ipvs_loaded: None,
                br_netfilter_loaded: None,
                overlay_loaded: None,
                nf_conntrack_loaded: None,
                nf_conntrack_count: None,
                nf_conntrack_max: None,
                status: "ok".to_string(),
                detail: String::new(),
            },
            kernel: NodeKernel {
                net_ipv4_ip_forward: Some("1".to_string()),
                vm_swappiness: None,
                net_core_somaxconn: Some("4096".to_string()),
                status: "ok".to_string(),
                detail: String::new(),
            },
            certificates: Some(vec![NodeCertificate {
                path: "/host/etc/kubernetes/pki/apiserver.crt".to_string(),
                expiration_date: "2030-01-01".to_string(),
                days_remaining: 12,
                status: "Valid".to_string(),
            }]),
            running: 3,
            waiting: 1,
            exited: 0,
        },
        api_os: None,
        node_os: Some("Ubuntu 22.04".to_string()),
        address: Some("10.0.0.1".to_string()),
        api_kernel: None,
        node_kernel: None,
        uptime: None,
        timestamp: String::new(),
        resource_cells: vec!["4".to_string(), "1.50".to_string()],
        disk_rows: vec![],
        network_cells: vec!["-".to_string(), "3.0%".to_string()],
    }
}

fn empty_report(name: &str) -> ReportData {
    ReportData {
        cluster_name: name.to_string(),
        report_id: "r-1".to_string(),
        generated_at: "2024-01-01 08:00:00 CST".to_string(),
        health_status: HealthStatus::Good,
        overall_score: "87.5".to_string(),
        overview: None,
        nodes: None,
        events: None,
        middleware: None,
        checks: vec![],
        namespace_rows: None,
        issues: vec![],
        certificates: None,
    }
}

#[test]
fn md_row_joins_cells() {
    assert_eq!(md_row("n1", &vec!["a".to_string(), "b".to_string()]), "| n1 | a | b |\n");
    assert_eq!(md_row("n1", &vec![]), "| n1 |\n");
}

#[test]
fn node_section_lists_each_table() {
    let s = node_inspection_section(Lang::En, &vec![node("n1")]);
    assert!(s.starts_with("## 🔍 Node Inspection\n\nPer-node checks from kcc-inspector DaemonSet.\n\n### Node General Information\n\n"));
    assert!(s.contains("| n1 | Ubuntu 22.04 | 10.0.0.1 | - | - | - |\n"));
    assert!(s.contains("| n1 | 4 | 1.50 |\n"));
    assert!(s.contains("| n1 | - | - | - | - | - | - | - |\n"));
    assert!(s.contains("| n1 | 3 | 1 | 0 |\n"));
    assert!(s.contains("| n1 | - | 3.0% |\n"));
    assert!(s.contains("| n1 | 1 | - | 4096 |\n"));
    assert!(s.contains("| n1 | /etc/kubernetes/pki/apiserver.crt | No | 2030-01-01 | 12 | Warning | B02 |\n"));
    assert!(s.ends_with("|\n\n"));
}

#[test]
fn main_report_without_data_shows_the_notes() {
    let filter = parse_check_level_filter("warning,critical");
    let md = main_report(Lang::En, &empty_report("kubernetes"), &filter);
    assert!(md.starts_with(
        "# 《default》 Kubernetes Cluster Check Report\n\n**Report ID**: `r-1`\n\n**Cluster**: default\n\n**Generated At**: 2024-01-01 08:00:00 CST\n\n## 🖥️ Cluster Overview\n\nCluster overview is not available"
    ));
    assert!(md.contains("## 🔍 Node Inspection\n\nNo data"));
    assert!(md.contains("## 🗄️ Database Middleware\n\nNo database middleware pods detected.\n\n"));
    assert!(md.ends_with("---\n\n*Report generated by Limonergy.*\n"));
}

#[test]
fn main_report_filters_checks_and_info_issues() {
    let mut r = empty_report("prod");
    r.checks = vec![
        CheckLine {
            resource: "Pod".to_string(),
            name: "Pod Health".to_string(),
            status: CheckStatus::Pass,
            score: "100.0/100.0".to_string(),
            details: None,
        },
        CheckLine {
            resource: "Pod".to_string(),
            name: "Pod Stability".to_string(),
            status: CheckStatus::Warning,
            score: "50.0/100.0".to_string(),
            details: Some("2/4 pods".to_string()),
        },
    ];
    r.issues = vec![Issue {
        severity: IssueSeverity::Info,
        category: "Pod".to_string(),
        description: "note".to_string(),
        resource: Some("default/p".to_string()),
        recommendation: String::new(),
        rule_id: Some("POD-001".to_string()),
    }];
    let plain = main_report(Lang::En, &r, &parse_check_level_filter("warning,critical"));
    assert!(plain.starts_with("# 《prod》 Kubernetes Cluster Check Report\n\n"));
    assert!(plain.contains("| Pod | Pod Stability | "));
    assert!(!plain.contains("| Pod | Pod Health | "));
    assert!(!plain.contains("`default/p`"));
    let with_info = main_report(Lang::En, &r, &parse_check_level_filter("info,warning,critical"));
    assert!(with_info.contains("`default/p`"));
    let all = main_report(Lang::En, &r, &parse_check_level_filter("all"));
    assert!(all.contains("| Pod | Pod Health | "));
    assert!(all.contains("<a id=\"pod\"></a>\n\n### Pod\n\n"));
}

fn overview_of(nodes: u64, ready: u64) -> OverviewData {
    OverviewData {
        cluster_version: None,
        node_count: nodes,
        ready_node_count: ready,
        pod_count: None,
        namespace_count: None,
        cluster_age_days: None,
        runtimes: vec![],
        node_conditions: None,
        workload: None,
        storage: None,
        metrics_available: None,
        container_usage: None,
    }
}

fn report_with(name: &str, score: &str, health: HealthStatus) -> ReportData {
    let mut r = empty_report(name);
    r.report_id = "test-123".to_string();
    r.overall_score = score.to_string();
    r.health_status = health;
    r
}

fn node_issue(severity: IssueSeverity) -> Issue {
    Issue {
        severity,
        category: "Node".to_string(),
        description: "test issue".to_string(),
        resource: Some("node-1".to_string()),
        recommendation: "restart".to_string(),
        rule_id: Some("001".to_string()),
    }
}

#[test]
fn test_report_generation_english() {
    let mut r = report_with("test-cluster", "85.5", HealthStatus::Good);
    r.checks = vec![CheckLine {
        resource: inspection_type_to_resource("Node Health").to_string(),
        name: "Node Readiness".to_string(),
        status: CheckStatus::Warning,
        score: "80.0/100.0".to_string(),
        details: Some("Some nodes not ready".to_string()),
    }];
    r.issues = vec![node_issue(IssueSeverity::Warning)];
    r.overview = Some(overview_of(1, 1));
    let md = main_report(Lang::En, &r, &parse_check_level_filter(""));
    assert!(md.contains("Cluster Overview"));
    assert!(md.contains("Overall Health"));
    assert!(md.contains("Kubernetes Cluster Check Report"));
    assert!(!md.contains("集群概览"));
    assert!(md.contains("Node not ready"));
}

#[test]
fn test_report_generation_chinese_issue_titles() {
    let mut r = report_with("test-cluster", "70.0", HealthStatus::Fair);
    r.issues = vec![node_issue(IssueSeverity::Critical)];
    let md = main_report(Lang::Zh, &r, &parse_check_level_filter(""));
    assert!(md.contains("详细结果"));
    assert!(md.contains("严重"));
    assert!(md.contains("节点未就绪"));
    assert!(md.contains("`001`"));
}

#[test]
fn test_report_chinese_condition_values() {
    let mut r = report_with("c", "90.0", HealthStatus::Good);
    r.report_id = "r".to_string();
    let mut o = overview_of(1, 1);
    o.node_conditions = Some(vec![NodeConditionsRow {
        node_name: "node-1".to_string(),
        ready: "True".to_string(),
        memory_pressure: "False".to_string(),
        disk_pressure: "False".to_string(),
        pid_pressure: "Unknown".to_string(),
    }]);
    r.overview = Some(o);
    let md = main_report(Lang::Zh, &r, &parse_check_level_filter(""));
    assert!(md.contains("| node-1 | 是 | 否 | 否 | 未知 |"));
}

#[test]
fn test_report_cluster_kubernetes_displayed_as_default() {
    let filter = parse_check_level_filter("");
    let mut r = report_with("kubernetes", "85.0", HealthStatus::Good);
    let md = main_report(Lang::Zh, &r, &filter);
    assert!(md.contains("# 《default》 Kubernetes 集群巡检报告"));
    assert!(md.contains("**集群**：default"));
    assert!(!md.contains("《kubernetes》"));
    let md_en = main_report(Lang::En, &r, &filter);
    assert!(md_en.contains("# 《default》 Kubernetes Cluster Check Report"));
    assert!(md_en.contains("**Cluster**: default"));
    r.cluster_name = "Kubernetes".to_string();
    let md_ci = main_report(Lang::Zh, &r, &filter);
    assert!(md_ci.contains("# 《default》 Kubernetes 集群巡检报告"));
    r.cluster_name = "prod-cluster".to_string();
    let md_other = main_report(Lang::Zh, &r, &filter);
    assert!(md_other.contains("# 《prod-cluster》 Kubernetes 集群巡检报告"));
    assert!(md_other.contains("**集群**：prod-cluster"));
}
