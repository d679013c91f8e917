use kcc::inspections::autoscaling::{
    hpa_verdict, inspect_hpas, HpaBehaviorInfo, HpaInfo, HpaSpecInfo, MetricInfo, MetricSourceInfo, MetricTargetInfo,
    ScalingRulesInfo,
};
use kcc::inspections::control_plane::{
    component_status_skipped, component_verdict, control_plane_pod_verdict, eq_ignore_case,
    is_component_status_unavailable, scan_components, scan_control_plane_pods, ComponentInfo,
};
use kcc::inspections::observability::{
    alerting_check, count_component, coredns_check, find_first_ready, has_ready_component, is_pod_ready, logging_check,
    metrics_pipeline_check, Component, PodProbe,
};
use kcc::inspections::policies::{limit_range_check, pdb_check, resource_quota_check, PdbInfo};
use kcc::inspections::security::{check_service_accounts, network_policy_verdict, service_account_verdict, PodAccountInfo};
use kcc::inspections::types::{CheckStatus, Issue, IssueSeverity};
use kcc::inspections::upgrade::{deprecated_api_check, kubelet_version_check};
use kcc::utils::lang::Lang;
use kcc::inspections::pods::scan_pods;
use kcc::inspections::pods::{ContainerStatusInfo, PodInfo, PodStatusInfo};

fn s(v: &str) -> String {
    v.to_string()
}

fn rules(issues: &[Issue]) -> Vec<String> {
    issues.iter().map(|i| i.rule_id.clone().unwrap_or_default()).collect()
}

fn probe(name: &str, phase: &str, ready: Option<Vec<bool>>) -> PodProbe {
    PodProbe { name: Some(s(name)), phase: Some(s(phase)), containers_ready: ready }
}

fn target(util: Option<i32>) -> MetricTargetInfo {
    MetricTargetInfo { average_utilization: util, average_value: None, value: None }
}

#[test]
fn hpa_scan_reports_each_rule() {
    let bad = HpaInfo {
        name: Some(s("web")),
        spec: Some(HpaSpecInfo {
            min_replicas: Some(3),
            max_replicas: 3,
            metrics: None,
            behavior: Some(HpaBehaviorInfo {
                scale_up: Some(ScalingRulesInfo { select_policy: Some(s("Disabled")) }),
                scale_down: Some(ScalingRulesInfo { select_policy: Some(s("Max")) }),
            }),
        }),
        condition_statuses: Some(vec![s("True"), s("False")]),
    };
    let metric = MetricInfo {
        type_: s("Resource"),
        resource: Some(MetricSourceInfo { metric_name: s("cpu"), target: target(None) }),
        pods: None,
        object: None,
        external: None,
        container_resource: None,
    };
    let good = HpaInfo {
        name: None,
        spec: Some(HpaSpecInfo { min_replicas: None, max_replicas: 5, metrics: Some(vec![metric]), behavior: None }),
        condition_statuses: Some(vec![s("True")]),
    };
    let scan = inspect_hpas(Lang::En, &vec![bad, good]);
    assert_eq!(scan.healthy, 1);
    assert_eq!(rules(&scan.issues), vec!["701", "702", "704", "703", "705"]);
    assert_eq!(scan.issues[0].description, "HPA web has identical min/max replicas");
    assert_eq!(scan.issues[1].severity, IssueSeverity::Critical);
    assert_eq!(scan.issues[2].description, "HPA web has scale-up behavior disabled");
    assert_eq!(scan.issues[2].severity, IssueSeverity::Info);
    assert_eq!(scan.issues[4].description, "HPA unknown metric cpu missing scaling target");
    assert_eq!(scan.issues[4].resource, Some(s("unknown")));
}

#[test]
fn hpa_disabled_direction_is_localized() {
    let h = HpaInfo {
        name: Some(s("api")),
        spec: Some(HpaSpecInfo {
            min_replicas: Some(1),
            max_replicas: 4,
            metrics: Some(vec![]),
            behavior: Some(HpaBehaviorInfo {
                scale_up: None,
                scale_down: Some(ScalingRulesInfo { select_policy: Some(s("Disabled")) }),
            }),
        }),
        condition_statuses: None,
    };
    let scan = inspect_hpas(Lang::Zh, &vec![h]);
    assert_eq!(scan.healthy, 0);
    assert_eq!(scan.issues.len(), 1);
    assert_eq!(scan.issues[0].description, "HPA api 的 缩容 行为已禁用");
}

#[test]
fn hpa_verdict_grades_healthy_share() {
    let none = hpa_verdict(Lang::En, 0, 0);
    assert_eq!(none.status, CheckStatus::Warning);
    assert_eq!(none.details, "No HPAs detected in the target scope");
    assert_eq!(none.recommendations.len(), 1);
    assert_eq!(hpa_verdict(Lang::En, 9, 10).status, CheckStatus::Pass);
    assert_eq!(hpa_verdict(Lang::En, 7, 10).status, CheckStatus::Warning);
    assert_eq!(hpa_verdict(Lang::En, 6, 10).status, CheckStatus::Critical);
    let all = hpa_verdict(Lang::En, 4, 4);
    assert_eq!(all.details, "4/4 HPAs healthy");
    assert!(all.recommendations.is_empty());
    assert_eq!(hpa_verdict(Lang::Zh, 1, 2).details, "1/2 个 HPA 健康");
}

#[test]
fn pod_readiness_and_component_probes() {
    assert!(is_pod_ready(&probe("a", "Running", None)));
    assert!(is_pod_ready(&probe("a", "Running", Some(vec![true, true]))));
    assert!(!is_pod_ready(&probe("a", "Running", Some(vec![true, false]))));
    assert!(!is_pod_ready(&probe("a", "Pending", None)));
    let pods = vec![
        probe("metrics-server-6d9", "Running", Some(vec![true])),
        probe("coredns-1", "Running", Some(vec![true])),
        probe("coredns-2", "Running", Some(vec![false])),
        PodProbe { name: None, phase: Some(s("Running")), containers_ready: None },
    ];
    assert!(has_ready_component(&pods, Component::MetricsServer));
    assert!(!has_ready_component(&pods, Component::KubeStateMetrics));
    assert_eq!(count_component(&pods, Component::CoreDns), (1, 2));
    let logging = vec![
        probe("loki-0", "Pending", None),
        probe("openobserve-0", "Running", None),
        probe("fluent-bit-x", "Running", None),
    ];
    assert_eq!(find_first_ready(&logging, Component::Logging, Component::OpenObserve), Some(true));
    assert_eq!(find_first_ready(&logging[2..].to_vec(), Component::Logging, Component::OpenObserve), Some(false));
    assert_eq!(find_first_ready(&vec![], Component::Prometheus, Component::OpenObserve), None);
}

#[test]
fn metrics_pipeline_scores() {
    let mut issues = Vec::new();
    let both = metrics_pipeline_check(Lang::En, false, false, &mut issues);
    assert_eq!(both.score, 50);
    assert_eq!(both.status, CheckStatus::Critical);
    assert_eq!(rules(&issues), vec!["A01", "A02"]);
    assert_eq!(both.details, "metrics-server: missing, kube-state-metrics: missing");
    assert_eq!(both.recommendations.len(), 2);
    let mut issues = Vec::new();
    let one = metrics_pipeline_check(Lang::Zh, true, false, &mut issues);
    assert_eq!(one.score, 80);
    assert_eq!(one.status, CheckStatus::Warning);
    assert_eq!(one.details, "metrics-server：存在，kube-state-metrics：缺失");
    let mut issues = Vec::new();
    let ok = metrics_pipeline_check(Lang::En, true, true, &mut issues);
    assert_eq!((ok.score, ok.status), (100, CheckStatus::Pass));
    assert!(issues.is_empty());
}

#[test]
fn dns_logging_and_monitoring_checks() {
    let mut issues = Vec::new();
    assert_eq!(coredns_check(Lang::En, 0, 0, &mut issues), (CheckStatus::Critical, s("CoreDNS: not found")));
    assert_eq!(rules(&issues), vec!["305"]);
    assert_eq!(coredns_check(Lang::En, 1, 2, &mut issues), (CheckStatus::Warning, s("CoreDNS: 1/2 ready")));
    assert_eq!(coredns_check(Lang::En, 2, 2, &mut issues).0, CheckStatus::Pass);
    assert_eq!(issues.len(), 1);

    let mut issues = Vec::new();
    let found = logging_check(Lang::En, Some(false), "logging", &mut issues);
    assert_eq!(found.details, "Logging components detected in namespace logging");
    assert_eq!(found.score, 100);
    let missing = logging_check(Lang::En, None, "kube-system", &mut issues);
    assert_eq!((missing.score, missing.status), (90, CheckStatus::Warning));
    assert_eq!(issues[0].resource, Some(s("kube-system")));
    assert_eq!(rules(&issues), vec!["A03"]);

    let mut issues = Vec::new();
    assert_eq!(alerting_check(Lang::En, Some(true), &mut issues).details, "OpenObserve detected");
    let none = alerting_check(Lang::En, None, &mut issues);
    assert_eq!(none.description, "Checks for monitoring stacks");
    assert_eq!(rules(&issues), vec!["A04"]);
}

#[test]
fn policy_checks() {
    let mut issues = Vec::new();
    let q = resource_quota_check(Lang::En, Some("team-a"), 0, &mut issues);
    assert_eq!((q.status, q.score), (CheckStatus::Warning, 60));
    assert_eq!(q.details, "Namespace has no ResourceQuota");
    assert_eq!(rules(&issues), vec!["901"]);
    assert_eq!(issues[0].resource, Some(s("team-a")));
    let cluster = resource_quota_check(Lang::En, None, 0, &mut issues);
    assert_eq!(cluster.details, "No ResourceQuota objects found");
    assert_eq!(issues.len(), 1);
    let some = resource_quota_check(Lang::En, None, 3, &mut issues);
    assert_eq!((some.status, some.score), (CheckStatus::Pass, 100));
    assert_eq!(some.details, "3 quotas identified");

    let mut issues = Vec::new();
    let l = limit_range_check(Lang::En, None, 0, &mut issues);
    assert_eq!((l.status, l.score), (CheckStatus::Warning, 65));
    assert_eq!(issues[0].resource, Some(s("cluster")));
    assert_eq!(rules(&issues), vec!["902"]);
    assert_eq!(limit_range_check(Lang::Zh, None, 2, &mut issues).details, "找到 2 个 LimitRange 对象");

    let mut issues = Vec::new();
    let none = pdb_check(Lang::En, None, &vec![], &mut issues);
    assert_eq!((none.status, none.score), (CheckStatus::Warning, 70));
    assert_eq!(issues[0].resource, None);
    assert_eq!(rules(&issues), vec!["903"]);
    let mut issues = Vec::new();
    let pdbs = vec![
        PdbInfo { name: Some(s("db")), status: Some((0, 3)) },
        PdbInfo { name: Some(s("one")), status: Some((0, 1)) },
        PdbInfo { name: None, status: None },
    ];
    let blocked = pdb_check(Lang::En, Some("prod"), &pdbs, &mut issues);
    assert_eq!((blocked.status, blocked.score), (CheckStatus::Warning, 80));
    assert_eq!(blocked.details, "1 PDBs currently block disruption");
    assert_eq!(issues.len(), 1);
    assert_eq!(issues[0].description, "PDB db currently blocks disruptions");
    assert_eq!(rules(&issues), vec!["904"]);
}

#[test]
fn component_status_api_gone() {
    assert!(is_component_status_unavailable(404, "", ""));
    assert!(is_component_status_unavailable(410, "", ""));
    assert!(is_component_status_unavailable(500, "the server could not find the requested resource", ""));
    assert!(is_component_status_unavailable(500, "", "notfound"));
    assert!(!is_component_status_unavailable(500, "boom", "InternalError"));
    assert!(eq_ignore_case("NotFound", "NOTFOUND"));
    assert!(!eq_ignore_case("NotFound", "NotFoun"));
    let skipped = component_status_skipped(Lang::En);
    assert_eq!((skipped.status, skipped.score), (CheckStatus::Pass, 100));
}

#[test]
fn control_plane_scans() {
    let comps = vec![
        ComponentInfo { name: Some(s("scheduler")), conditions: Some(vec![(s("Healthy"), s("True"))]) },
        ComponentInfo { name: Some(s("etcd-0")), conditions: Some(vec![(s("Healthy"), s("False"))]) },
        ComponentInfo { name: None, conditions: None },
    ];
    let scan = scan_components(Lang::En, &comps);
    assert_eq!((scan.evaluated, scan.healthy), (3, 1));
    assert_eq!(scan.issues[0].description, "Component etcd-0 reports Healthy = False");
    assert_eq!(rules(&scan.issues), vec!["601"]);
    let v = component_verdict(Lang::En, 1, 3);
    assert_eq!(v.status, CheckStatus::Critical);
    assert_eq!(v.details, "1/3 components healthy");
    assert_eq!(component_verdict(Lang::En, 0, 0).status, CheckStatus::Critical);
    assert_eq!(component_verdict(Lang::En, 3, 3).status, CheckStatus::Pass);

    let pods = vec![
        probe("kube-apiserver-m1", "Running", Some(vec![true])),
        probe("etcd-m1", "Running", Some(vec![false])),
        probe("nginx", "Running", None),
    ];
    let scan = scan_control_plane_pods(Lang::En, &pods);
    assert_eq!((scan.evaluated, scan.healthy), (2, 1));
    assert_eq!(scan.issues[0].description, "Control plane pod etcd-m1 is not running");
    assert_eq!(rules(&scan.issues), vec!["602"]);
    assert_eq!(control_plane_pod_verdict(Lang::En, 1, 2).status, CheckStatus::Critical);
    let managed = control_plane_pod_verdict(Lang::En, 0, 0);
    assert_eq!(managed.status, CheckStatus::Pass);
    assert!(managed.recommendations.is_empty());
}

#[test]
fn service_accounts_and_network_policy_coverage() {
    let pods = vec![
        PodAccountInfo { name: Some(s("a")), namespace: Some(s("app")), has_spec: true, service_account: None },
        PodAccountInfo { name: Some(s("b")), namespace: Some(s("app")), has_spec: true, service_account: Some(s("b-sa")) },
        PodAccountInfo { name: Some(s("c")), namespace: Some(s("kube-system")), has_spec: true, service_account: Some(s("x")) },
        PodAccountInfo { name: Some(s("d")), namespace: None, has_spec: false, service_account: None },
    ];
    let scan = check_service_accounts(Lang::En, &pods);
    assert_eq!((scan.total, scan.custom), (3, 1));
    assert_eq!(scan.issues.len(), 1);
    assert_eq!(scan.issues[0].resource, Some(s("app/a")));
    assert_eq!(scan.issues[0].description, "Pod app/a uses default service account");
    let v = service_account_verdict(Lang::En, 1, 3);
    assert_eq!(v.status, CheckStatus::Warning);
    assert_eq!(v.details, "1/3 pods use custom service accounts");
    assert_eq!(service_account_verdict(Lang::En, 0, 0).status, CheckStatus::Pass);
    assert_eq!(service_account_verdict(Lang::En, 4, 5).status, CheckStatus::Pass);

    let mut issues = Vec::new();
    let none = network_policy_verdict(Lang::En, 0, 10, &mut issues);
    assert_eq!(none.status, CheckStatus::Warning);
    assert!(issues.is_empty());
    let low = network_policy_verdict(Lang::En, 2, 10, &mut issues);
    assert_eq!(low.status, CheckStatus::Warning);
    assert_eq!(rules(&issues), vec!["508"]);
    let good = network_policy_verdict(Lang::En, 7, 10, &mut issues);
    assert_eq!(good.status, CheckStatus::Pass);
    assert_eq!(good.details, "7/10 namespaces with network policies");
    assert_eq!(issues.len(), 1);
}

#[test]
fn upgrade_checks() {
    let none = kubelet_version_check(Lang::En, 0, &vec![]);
    assert_eq!((none.status, none.score), (CheckStatus::Warning, 60));
    assert_eq!(none.name, "Cluster Version");
    let mixed = kubelet_version_check(Lang::En, 3, &vec![s("v1.29.1"), s("v1.28.4"), s("v1.29.1")]);
    assert_eq!(mixed.score, 90);
    assert_eq!(mixed.status, CheckStatus::Pass);
    assert_eq!(mixed.details, "Detected kubelet versions: [\"v1.28.4\", \"v1.29.1\"]");
    assert_eq!(mixed.recommendations.len(), 1);
    let same = kubelet_version_check(Lang::En, 2, &vec![s("v1.30.0"), s("v1.30.0")]);
    assert_eq!(same.score, 100);
    assert!(same.recommendations.is_empty());
    let dep = deprecated_api_check(Lang::En, &None);
    assert!(dep.details.starts_with("Cluster version: unknown. "));
    assert_eq!(deprecated_api_check(Lang::En, &Some(s("v1.30.2"))).score, 100);
}

fn pod_in(ns: &str, phase: &str, restarts: i32) -> kcc::inspections::pods::PodInfo {
    PodInfo {
        name: Some(format!("{}-{}", ns, phase)),
        namespace: Some(ns.to_string()),
        status: Some(PodStatusInfo {
            phase: Some(phase.to_string()),
            conditions: None,
            init_container_statuses: None,
            container_statuses: Some(vec![ContainerStatusInfo {
                name: "app".to_string(),
                restart_count: restarts,
                waiting: None,
                terminated: None,
            }]),
        }),
    }
}

#[test]
fn system_namespace_pods_leave_pod_counts_unchanged() {
    let base = vec![pod_in("default", "Running", 0), pod_in("apps", "Pending", 5)];
    let mut more = base.clone();
    more.push(pod_in("kube-system", "Failed", 9));
    more.push(pod_in("cilium-secrets", "Running", 0));
    let a = scan_pods(Lang::En, &base);
    let b = scan_pods(Lang::En, &more);
    assert_eq!((a.total_pods, a.running_pods, a.failed_pods, a.pending_pods, a.pods_with_restarts), (2, 1, 0, 1, 1));
    assert_eq!((b.total_pods, b.running_pods, b.failed_pods, b.pending_pods, b.pods_with_restarts), (2, 1, 0, 1, 1));
    assert!(b.issues.len() > a.issues.len());
}

#[test]
fn storage_class_score_tiers() {
    assert_eq!(kcc::inspections::storage::storage_class_score(3, 1), 100);
    assert_eq!(kcc::inspections::storage::storage_class_score(3, 2), 80);
    assert_eq!(kcc::inspections::storage::storage_class_score(3, 0), 80);
    assert_eq!(kcc::inspections::storage::storage_class_score(0, 0), 60);
}
