use kcc::inspections::overview::{
    cluster_age_days, node_resource_texts, ready_node_count, storage_summary, sum_quantities, NodeFacts, NodeStatusFacts,
};
use kcc::inspections::types::{CheckStatus, IssueSeverity};
use kcc::jobs::JobStatus;
use kcc::node_inspection::collector::{node_state_counts, state_count_entries, ContainerState, PodStates};
use kcc::scoring::ScoringEngine;
use kcc::server::{status_event_text, stream_step, StreamStep};
use kcc::utils::format::format_bytes;

#[test]
fn format_bytes_picks_the_largest_unit() {
    assert_eq!(format_bytes(0), "0 B");
    assert_eq!(format_bytes(1), "1.0 B");
    assert_eq!(format_bytes(1023), "1023.0 B");
    assert_eq!(format_bytes(1024), "1.0 KB");
    assert_eq!(format_bytes(1536), "1.5 KB");
    assert_eq!(format_bytes(1024 * 1024), "1.0 MB");
    assert_eq!(format_bytes(5 * 1024 * 1024 * 1024), "5.0 GB");
    assert_eq!(format_bytes(2 * 1024 * 1024 * 1024 * 1024), "2.0 TB");
    assert_eq!(format_bytes(3 * 1024 * 1024 * 1024 * 1024 * 1024), "3072.0 TB");
}

#[test]
fn format_bytes_matches_float_formatting() {
    // Halves round to the even tenth, as the float formatting does.
    assert_eq!(format_bytes(1280), "1.2 KB");
    assert_eq!(format_bytes(1280), format!("{:.1} KB", 1280f64 / 1024.0));
    for b in [1u64, 999, 1000, 1047, 1100, 1331, 1999, 123_456_789, 9_876_543_210, u64::MAX] {
        let mut size = b as f64;
        let mut k = 0;
        let units = ["B", "KB", "MB", "GB", "TB"];
        while size >= 1024.0 && k < 4 {
            size /= 1024.0;
            k += 1;
        }
        assert_eq!(format_bytes(b), format!("{:.1} {}", size, units[k]));
    }
    assert_eq!(format_bytes(u64::MAX), "16777216.0 TB");
}

#[test]
fn storage_summary_counts_what_was_listed() {
    let phases = vec![Some("Bound".to_string()), Some("Pending".to_string()), None, Some("Bound".to_string())];
    let defaults = vec![None, Some("false".to_string()), Some("true".to_string())];
    let s = storage_summary(Some(5), Some(&phases), Some(&defaults));
    assert_eq!((s.pv_total, s.pvc_total, s.pvc_bound, s.storage_class_count), (5, 4, 2, 3));
    assert!(s.has_default_storage_class);
    let none = storage_summary(None, None, Some(&vec![Some("false".to_string())]));
    assert_eq!((none.pv_total, none.pvc_total, none.pvc_bound, none.storage_class_count), (0, 0, 0, 1));
    assert!(!none.has_default_storage_class);
}

#[test]
fn node_resource_totals_as_text() {
    let cpu = sum_quantities(&vec![4000, 2500]);
    let mem = sum_quantities(&vec![8 * 1024 * 1024 * 1024, 8 * 1024 * 1024 * 1024]);
    assert_eq!((cpu, mem), (6500, 16 * 1024 * 1024 * 1024));
    let t = node_resource_texts(2, cpu, mem, 6000, 15 * 1024 * 1024 * 1024).unwrap();
    assert_eq!(t, ("6500m".to_string(), "16Gi".to_string(), "6".to_string(), "15Gi".to_string()));
    assert_eq!(node_resource_texts(0, cpu, mem, 1, 1), None);
    assert_eq!(node_resource_texts(3, 0, 0, 1, 1), None);
}

#[test]
fn cluster_age_from_the_oldest_node() {
    let day = 86_400;
    assert_eq!(cluster_age_days(&vec![10 * day, 3 * day + 5, 7 * day], 20 * day), Some(16));
    assert_eq!(cluster_age_days(&vec![30 * day], 20 * day), Some(0));
    assert_eq!(cluster_age_days(&vec![], 20 * day), None);
}

#[test]
fn stream_sends_status_once_then_closes() {
    assert_eq!(stream_step(false, Some(JobStatus::Running), true, true), StreamStep::SendLine);
    assert_eq!(stream_step(false, Some(JobStatus::Running), false, true), StreamStep::SendProgress);
    assert_eq!(stream_step(false, Some(JobStatus::Running), false, false), StreamStep::Wait);
    assert_eq!(stream_step(false, Some(JobStatus::Completed), true, true), StreamStep::SendStatus);
    assert_eq!(stream_step(true, Some(JobStatus::Completed), true, true), StreamStep::End);
    assert_eq!(stream_step(false, None, true, true), StreamStep::End);
    assert_eq!(status_event_text(JobStatus::Failed), "[状态] failed");
}

#[test]
fn container_states_counted_per_node() {
    let pod = |node: Option<&str>, has_status: bool, states: Vec<Option<ContainerState>>| PodStates {
        node_name: node.map(|s| s.to_string()),
        has_status,
        states,
    };
    let pods = vec![
        pod(Some("n1"), true, vec![Some(ContainerState::Terminated), Some(ContainerState::Running)]),
        pod(Some("n1"), true, vec![Some(ContainerState::Waiting), Some(ContainerState::Other), None]),
        pod(Some("n2"), true, vec![Some(ContainerState::Running)]),
        pod(Some("n1"), false, vec![Some(ContainerState::Running)]),
        pod(None, true, vec![Some(ContainerState::Running)]),
    ];
    assert_eq!(node_state_counts(&pods, "n1"), (1, 2, 1));
    assert_eq!(node_state_counts(&pods, "n2"), (1, 0, 0));
    assert_eq!(node_state_counts(&pods, ""), (0, 0, 0));
    assert_eq!(
        state_count_entries(1, 2, 1),
        vec![("running".to_string(), 1), ("exited".to_string(), 1), ("waiting".to_string(), 2)]
    );
    assert!(state_count_entries(0, 0, 0).is_empty());
}

#[test]
fn scoring_weights() {
    let e = ScoringEngine::new();
    assert_eq!(e.inspection_weight_tenths("Pod Status"), 25);
    assert_eq!(e.inspection_weight_tenths("Namespace"), 10);
    assert_eq!(e.check_weight_tenths("DNS Configuration"), 30);
    assert_eq!(e.check_weight_tenths("Other"), 10);
    assert_eq!(e.severity_multiplier_tenths(CheckStatus::Critical), 7);
    assert_eq!(e.improvement_points(IssueSeverity::Warning), 8);
}

#[test]
fn history_newest_first_stable() {
    let started: Vec<String> = ["2024-01-02 10:00:00", "2024-01-03 09:00:00", "2024-01-02 10:00:00", "2024-01-01 00:00:00"]
        .iter()
        .map(|s| s.to_string())
        .collect();
    assert_eq!(kcc::jobs::history_order(&started, 10), vec![1, 0, 2, 3]);
    assert_eq!(kcc::jobs::history_order(&started, 2), vec![1, 0]);
    assert!(kcc::jobs::history_order(&Vec::new(), 5).is_empty());
}

fn node_with(conds: Option<Vec<(&str, &str)>>) -> NodeFacts {
    NodeFacts {
        name: Some("n".to_string()),
        status: Some(NodeStatusFacts {
            conditions: conds.map(|cs| cs.into_iter().map(|(a, b)| (a.to_string(), b.to_string())).collect()),
            node_info: None,
            addresses: None,
        }),
    }
}

#[test]
fn ready_nodes_are_counted() {
    let nodes = vec![
        node_with(Some(vec![("MemoryPressure", "False"), ("Ready", "True")])),
        node_with(Some(vec![("Ready", "False")])),
        node_with(None),
        NodeFacts { name: None, status: None },
        node_with(Some(vec![("Ready", "True")])),
    ];
    assert_eq!(ready_node_count(&nodes), 2);
    assert_eq!(ready_node_count(&vec![]), 0);
}
