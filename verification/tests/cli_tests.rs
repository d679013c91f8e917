use kcc::cli::{output_path_with_extension, InspectionType, ReportFormat};
use kcc::server::{content_type, parse_inspection_type, parse_lang};
use kcc::reporting::Lang;
use kcc::inspections::issue_codes::{short_title, short_title_zh};
use kcc::reporting::generator::{check_level_filter_of, display_name_for, CheckLevelFilter};
use kcc::config::{access_mode_of_word, mode_of_word, switch_word_on, NodeAccessMode};
use kcc::server::lang_of_word;
use kcc::cli::inspection_type_of_word;

#[test]
fn test_inspection_type_variants() {
    let types = InspectionType::variants();
    assert!(types.len() >= 6);
    assert!(matches!(InspectionType::parse("all"), Ok(InspectionType::All)));
    assert!(matches!(InspectionType::parse("nodes"), Ok(InspectionType::Nodes)));
    assert!(matches!(InspectionType::parse("pods"), Ok(InspectionType::Pods)));
    assert!(matches!(InspectionType::parse("security"), Ok(InspectionType::Security)));
}

#[test]
fn inspection_type_aliases_and_errors() {
    assert_eq!(InspectionType::parse("HPA"), Ok(InspectionType::Autoscaling));
    assert_eq!(InspectionType::parse("csr"), Ok(InspectionType::Certificates));
    assert_eq!(InspectionType::parse("bogus"), Err("Unknown inspection type: bogus".to_string()));
    assert_eq!(parse_inspection_type("bogus"), InspectionType::All);
    assert_eq!(parse_inspection_type("Storage"), InspectionType::Storage);
}

#[test]
fn request_language() {
    assert_eq!(parse_lang(" EN "), Lang::En);
    assert_eq!(parse_lang("zh"), Lang::Zh);
    assert_eq!(parse_lang("fr"), Lang::Zh);
}

#[test]
fn output_paths_get_extensions() {
    assert_eq!(output_path_with_extension(None, "2024-01-02-030405", ReportFormat::Md), "kubernetes-inspection-report-2024-01-02-030405.md");
    assert_eq!(output_path_with_extension(Some("out".to_string()), "t", ReportFormat::Json), "out.json");
    assert_eq!(output_path_with_extension(Some("out..".to_string()), "t", ReportFormat::Csv), "out.csv");
    assert_eq!(output_path_with_extension(Some("r.html".to_string()), "t", ReportFormat::Md), "r.html");
}

#[test]
fn static_content_types() {
    assert_eq!(content_type("index.html"), "text/html; charset=utf-8");
    assert_eq!(content_type("app.js"), "application/javascript; charset=utf-8");
    assert_eq!(content_type("x.bin"), "application/octet-stream");
}

#[test]
fn lower_case_words_are_read_by_the_library() {
    assert_eq!(inspection_type_of_word("hpa"), Some(InspectionType::Autoscaling));
    assert_eq!(inspection_type_of_word("HPA"), None);
    assert_eq!(InspectionType::parse("HPA"), Ok(InspectionType::Autoscaling));
    assert_eq!(lang_of_word(" en "), Lang::En);
    assert_eq!(lang_of_word("zh"), Lang::Zh);
    assert_eq!(mode_of_word("podip"), Some(NodeAccessMode::PodIp));
    assert_eq!(mode_of_word("service"), Some(NodeAccessMode::ClusterIpService));
    assert_eq!(mode_of_word("x"), None);
    assert_eq!(access_mode_of_word("service"), NodeAccessMode::ClusterIpService);
    assert_eq!(access_mode_of_word("other"), NodeAccessMode::PodIp);
    assert!(switch_word_on("yes") && switch_word_on("1") && !switch_word_on("no"));
    assert_eq!(display_name_for("Kubernetes", "kubernetes"), "default");
    assert_eq!(display_name_for("prod", "prod"), "prod");
    assert!(matches!(check_level_filter_of("all"), CheckLevelFilter::All));
    assert_eq!(short_title_zh("001"), Some("节点未就绪"));
    assert!(short_title("B03").is_some() && short_title_zh("B03").is_some());
    assert!(short_title("B04").is_none() && short_title_zh("B04").is_none());
}
