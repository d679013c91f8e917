use kcc::inspections::types::{Issue, IssueSeverity};
use kcc::reporting::findings::{aggregated_recommendations, filter_by_category, filter_by_severity, findings_error_only, group_issues};
use kcc::reporting::generator::{mount_depth, node_inspection_status, normalize_device, readiness_label};
use kcc::reporting::{issue_to_resource_key, Lang, REPORT_RESOURCE_ORDER};
use kcc::utils::status::CheckStatus;
use kcc::reporting::generator::{parse_check_level_filter, CheckLevelFilter};
use kcc::reporting::generator::ReportGenerator;
use kcc::reporting::generator::host_path_display;
use kcc::reporting::disks::disk_row_order;

fn make_issue(category: &str, rule_id: Option<&str>) -> Issue {
    Issue {
        severity: IssueSeverity::Info,
        category: category.to_string(),
        description: String::new(),
        resource: None,
        recommendation: String::new(),
        rule_id: rule_id.map(String::from),
    }
}

fn critical(category: &str, rule: Option<&str>, desc: &str, res: Option<&str>, rec: &str) -> Issue {
    Issue {
        severity: IssueSeverity::Critical,
        category: category.to_string(),
        description: desc.to_string(),
        resource: res.map(String::from),
        recommendation: rec.to_string(),
        rule_id: rule.map(String::from),
    }
}

#[test]
fn normalize_device_groups_partitions_to_disks() {
    assert_eq!(normalize_device("/dev/sda1"), "/dev/sda");
    assert_eq!(normalize_device("/dev/sda"), "/dev/sda");
    assert_eq!(normalize_device("/dev/vdb2"), "/dev/vdb");
    assert_eq!(normalize_device("/dev/hdc1"), "/dev/hdc");
    assert_eq!(normalize_device("/dev/nvme0n1p1"), "/dev/nvme0n1");
    assert_eq!(normalize_device("/dev/mmcblk0p1"), "/dev/mmcblk0");
    assert_eq!(
        normalize_device("/dev/mapper/ubuntu--vg-ubuntu--lv"),
        "/dev/mapper/ubuntu--vg-ubuntu--lv"
    );
    assert_eq!(normalize_device("/dev/loop0"), "/dev/loop0");
    assert_eq!(normalize_device("tmpfs"), "tmpfs");
}

#[test]
fn mount_depth_orders_shallow_first() {
    assert_eq!(mount_depth("/"), 0);
    assert_eq!(mount_depth("/data"), 1);
    assert_eq!(mount_depth("/var/lib"), 2);
    assert_eq!(mount_depth("/data/disk1"), 2);
}

#[test]
fn test_issue_to_resource_key_mapping() {
    assert_eq!(issue_to_resource_key(&make_issue("Pod", None)), "Pod");
    assert_eq!(issue_to_resource_key(&make_issue("Container", None)), "Pod");
    assert_eq!(issue_to_resource_key(&make_issue("Node", None)), "Node");
    assert_eq!(issue_to_resource_key(&make_issue("Service", None)), "Service");
    assert_eq!(issue_to_resource_key(&make_issue("Certificates", None)), "Certificate");
    assert_eq!(issue_to_resource_key(&make_issue("ControlPlane", None)), "Control Plane");
    assert_eq!(issue_to_resource_key(&make_issue("Autoscaling", None)), "HPA");
    assert_eq!(issue_to_resource_key(&make_issue("Policy", None)), "Policy");
    assert_eq!(issue_to_resource_key(&make_issue("Observability", None)), "Observability");
    assert_eq!(issue_to_resource_key(&make_issue("Security", None)), "Security");
    assert_eq!(
        issue_to_resource_key(&make_issue("Resource Management", None)),
        "Resource Management"
    );
    assert_eq!(issue_to_resource_key(&make_issue("Batch", Some("801"))), "CronJob");
    assert_eq!(issue_to_resource_key(&make_issue("Batch", Some("803"))), "CronJob");
    assert_eq!(issue_to_resource_key(&make_issue("Batch", Some("804"))), "Job");
    assert_eq!(issue_to_resource_key(&make_issue("Batch", Some("805"))), "Job");
    assert_eq!(
        issue_to_resource_key(&make_issue("PersistentVolume", None)),
        "PersistentVolume"
    );
    assert_eq!(issue_to_resource_key(&make_issue("ClusterRole", None)), "ClusterRole");
}

#[test]
fn test_report_resource_order_non_empty() {
    assert!(!REPORT_RESOURCE_ORDER.is_empty());
    assert!(REPORT_RESOURCE_ORDER.contains(&"Pod"));
    assert!(REPORT_RESOURCE_ORDER.contains(&"Node"));
    assert!(REPORT_RESOURCE_ORDER.contains(&"Certificate"));
}

#[test]
fn groups_merge_issues_of_one_code() {
    let issues = vec![
        critical("Pod", Some("101"), "pod a failed", Some("ns/a"), "Check pod logs and events"),
        critical("Pod", Some("101"), "pod b failed", Some("ns/b"), "Check pod logs and events"),
        make_issue("Pod", Some("101")),
        critical("Storage", None, "pv lost", None, "restore"),
    ];
    let groups = group_issues(Lang::En, &issues, IssueSeverity::Critical);
    assert_eq!(groups.len(), 2);
    assert_eq!(groups[0].rule_id.as_deref(), Some("101"));
    assert_eq!(groups[0].resources, vec!["ns/a".to_string(), "ns/b".to_string()]);
    assert_eq!(groups[1].title, "pv lost");
    assert!(groups[1].resources.is_empty());
}

#[test]
fn key_findings_lines_largest_group_first() {
    let issues = vec![
        critical("Storage", None, "pv lost", None, "restore"),
        critical("Pod", Some("101"), "x", Some("ns/a"), "Check"),
        critical("Pod", Some("101"), "y", Some("ns/b"), "Check"),
    ];
    let lines = findings_error_only(&issues);
    assert_eq!(lines.len(), 2);
    assert!(lines[0].starts_with("[error] **101** "));
    assert!(lines[0].contains("(2). Affected: "));
    assert_eq!(lines[1], "[error] pv lost: Recommendation: restore");
}

#[test]
fn recommendations_by_frequency() {
    let issues = vec![
        critical("A", None, "a", None, "r1"),
        critical("B", None, "b", None, "r2"),
        critical("C", None, "c", None, "r2"),
        make_issue("D", None),
    ];
    assert_eq!(aggregated_recommendations(&issues, 5), vec!["r2".to_string(), "r1".to_string()]);
    assert_eq!(aggregated_recommendations(&issues, 1), vec!["r2".to_string()]);
}

#[test]
fn severity_and_category_filters() {
    let issues = vec![
        make_issue("Pod", None),
        critical("Storage", None, "s", None, "r"),
        Issue { severity: IssueSeverity::Warning, ..make_issue("Node", None) },
    ];
    let kept = filter_by_severity(issues.clone(), IssueSeverity::Warning);
    assert_eq!(kept.len(), 2);
    assert_eq!(filter_by_severity(issues.clone(), IssueSeverity::Info).len(), 3);
    let by_cat = filter_by_category(issues, &vec!["STOR".to_string()]);
    assert_eq!(by_cat.len(), 1);
    assert_eq!(by_cat[0].category, "Storage");
}

#[test]
fn node_status_and_readiness() {
    let ok = vec!["ok".to_string(), "ok".to_string()];
    assert_eq!(node_inspection_status(&ok, 0), "ok");
    assert_eq!(node_inspection_status(&ok, 2), "warning");
    let err = vec!["ok".to_string(), "error".to_string(), "warning".to_string()];
    assert_eq!(node_inspection_status(&err, 0), "error");
    assert_eq!(readiness_label("True"), "Ready");
    assert_eq!(readiness_label("False"), "NotReady");
    assert_eq!(readiness_label("x"), "Unknown");
}

#[test]
fn host_path_keeps_the_absolute_host_path() {
    assert_eq!(host_path_display("/host/boot"), "/boot");
    assert_eq!(host_path_display("/host"), "/");
    assert_eq!(host_path_display("/data"), "/data");
    assert_eq!(host_path_display("/hostdata"), "/hostdata");
}

#[test]
fn only_the_generic_cluster_name_is_shown_as_default() {
    let g = ReportGenerator::new();
    assert_eq!(g.cluster_display_name("kubernetes"), "default");
    assert_eq!(g.cluster_display_name("Kubernetes"), "default");
    assert_eq!(g.cluster_display_name("prod-kubernetes-01"), "prod-kubernetes-01");
    assert_eq!(g.cluster_display_name("prod"), "prod");
}

#[test]
fn level_list_keeps_info() {
    let with_info = parse_check_level_filter("info,warning,critical");
    let without = parse_check_level_filter("warning,critical");
    assert!(with_info.includes_info());
    assert!(!without.includes_info());
    match with_info {
        CheckLevelFilter::Only { statuses, info } => {
            assert!(info);
            assert_eq!(statuses, vec![CheckStatus::Warning, CheckStatus::Critical]);
        }
        CheckLevelFilter::All => panic!("not all"),
    }
    assert!(parse_check_level_filter(" ALL ").includes_info());
    match parse_check_level_filter("info") {
        CheckLevelFilter::Only { statuses, info } => {
            assert!(info);
            assert_eq!(statuses, vec![CheckStatus::Warning, CheckStatus::Critical, CheckStatus::Error]);
        }
        CheckLevelFilter::All => panic!("not all"),
    }
}

fn mount(device: &str, mount_point: &str, total_g: f64) -> kcc::reporting::disks::DiskMount {
    kcc::reporting::disks::DiskMount {
        device: device.to_string(),
        mount_point: mount_point.to_string(),
        size_key: total_g.to_bits(),
        usage_key: (-1.0f64).to_bits() as i64 ^ i64::MAX,
    }
}

fn shown_mounts(disks: &Vec<kcc::reporting::disks::DiskMount>) -> Vec<String> {
    disk_row_order(disks).into_iter().map(|i| host_path_display(&disks[i].mount_point)).collect()
}

#[test]
fn disk_rows_group_by_disk_and_keep_all_real_mounts() {
    let disks = vec![
        mount("/dev/sda2", "/", 100.0),
        mount("/dev/sdb1", "/data", 500.0),
        mount("/dev/sdc1", "/dbdata", 500.0),
        mount("/dev/sdd1", "/mount/upan", 1000.0),
    ];
    let order = disk_row_order(&disks);
    assert_eq!(shown_mounts(&disks), vec!["/", "/data", "/dbdata", "/mount/upan"]);
    assert_eq!(normalize_device(&disks[order[0]].device), "/dev/sda");
    assert_eq!(normalize_device(&disks[order[1]].device), "/dev/sdb");
}

#[test]
fn disk_rows_keep_subdirectory_mounts_on_different_disks() {
    let disks = vec![
        mount("/dev/sda2", "/", 100.0),
        mount("/dev/sdb1", "/data/disk1", 300.0),
        mount("/dev/sdc1", "/data/disk2", 400.0),
    ];
    assert_eq!(shown_mounts(&disks), vec!["/", "/data/disk1", "/data/disk2"]);
}

#[test]
fn disk_rows_dedupe_same_device_bind_mounts() {
    let disks = vec![
        mount("/dev/sda2", "/", 100.0),
        mount("/dev/sdb1", "/data", 500.0),
        mount("/dev/sdb1", "/var/lib/kubelet/pods/x/volumes/kubernetes.io~local-volume/mid-redis-1", 500.0),
    ];
    assert_eq!(shown_mounts(&disks), vec!["/", "/data"]);
}

#[test]
fn disk_rows_exclude_tmpfs_and_loop() {
    let disks = vec![
        mount("/dev/sda2", "/", 100.0),
        mount("tmpfs", "/dev/shm", 4.0),
        mount("/dev/loop0", "/snap/core", 1.0),
    ];
    assert_eq!(shown_mounts(&disks), vec!["/"]);
}

#[test]
fn disk_rows_keep_the_shallowest_bind_mount_and_order_by_usage() {
    let mut disks = vec![
        mount("/dev/sdb1", "/var/lib/data", 500.0),
        mount("/dev/sda2", "/", 100.0),
        mount("/dev/sdb1", "/data", 500.0),
        mount("/dev/sdc1", "/x", 200.0),
        mount("/dev/sdc2", "/y", 300.0),
    ];
    disks[3].usage_key = 10;
    disks[4].usage_key = 20;
    assert_eq!(shown_mounts(&disks), vec!["/", "/data", "/y", "/x"]);
}
