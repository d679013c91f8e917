use kcc::reporting::{Lang, ReportGenerator};
use kcc::utils::format::{format_duration, truncate_string};
use kcc::utils::lang::{count_format_placeholders, fmt_dynamic, lang_fmt};
use kcc::utils::resource_quantity::{parse_memory_str, read_cpu_quantity, CpuQuantity};

#[test]
fn truncate_string_handles_utf8_boundaries() {
    let zh = "这是一个很长的中文事件消息用于测试截断是否安全不会崩溃";
    let t = truncate_string(zh, 60);
    assert!(t.ends_with("..."));
    assert!(t.len() <= 60);
    assert_eq!(truncate_string("短", 60), "短");
    let mixed = "abc中文def中文def中文def中文def中文def中文def";
    let t2 = truncate_string(mixed, 30);
    assert!(t2.len() <= 30);
    assert!(t2.ends_with("..."));
    assert_eq!(truncate_string("12345", 5), "12345");
    assert_eq!(truncate_string("", 10), "");
}

#[test]
fn count_placeholders_matches_expected() {
    assert_eq!(count_format_placeholders("Node {} is not ready"), 1);
    assert_eq!(count_format_placeholders("{}/{} nodes are ready"), 2);
    assert_eq!(count_format_placeholders("Detected kubelet versions: {:?}"), 1);
    assert_eq!(count_format_placeholders("no placeholders here"), 0);
    assert_eq!(count_format_placeholders("escaped {{ braces }}"), 0);
}

#[test]
fn lang_fmt_selects_language() {
    assert_eq!(lang_fmt(Lang::Zh, "{} ready", "{} 就绪", &["2"]), "2 就绪");
    assert_eq!(lang_fmt(Lang::En, "{} ready", "{} 就绪", &["2"]), "2 ready");
}

#[test]
fn fmt_dynamic_substitutes_placeholders() {
    assert_eq!(fmt_dynamic("x {} y", &["1"]), "x 1 y");
    assert_eq!(fmt_dynamic("a {} b {} c", &["A", "2"]), "a A b 2 c");
    assert_eq!(fmt_dynamic("no placeholders", &["1"]), "no placeholders");
    assert_eq!(fmt_dynamic("missing {} arg", &[]), "missing {} arg");
    assert_eq!(fmt_dynamic("extra {}", &["1", "2"]), "extra 1");
    assert_eq!(fmt_dynamic("{:.1}", &["87.5"]), "87.5");
}

#[test]
fn test_lang_default_is_chinese() {
    assert_eq!(Lang::default(), Lang::Zh);
    let generator = ReportGenerator::new();
    assert_eq!(generator.lang(), Lang::Zh);
}

#[test]
fn test_lang_t_data_layer_selection() {
    assert_eq!(Lang::Zh.t("Nodes ready", "节点就绪"), "节点就绪");
    assert_eq!(Lang::En.t("Nodes ready", "节点就绪"), "Nodes ready");
    assert_eq!(lang_fmt(Lang::Zh, "{}/{} ready", "{}/{} 就绪", &["2", "3"]), "2/3 就绪");
    assert_eq!(lang_fmt(Lang::En, "{}/{} ready", "{}/{} 就绪", &["2", "3"]), "2/3 ready");
    let zh_desc = lang_fmt(Lang::Zh, "Node {} is not ready", "节点 {} 未就绪", &["node-1"]);
    assert_eq!(zh_desc, "节点 node-1 未就绪");
    let en_desc = lang_fmt(Lang::En, "Node {} is not ready", "节点 {} 未就绪", &["node-1"]);
    assert_eq!(en_desc, "Node node-1 is not ready");
}

#[test]
fn fmt_dynamic_unclosed_brace_keeps_rest() {
    assert_eq!(fmt_dynamic("a {b", &["X"]), "a {b");
}

#[test]
fn format_duration_values() {
    assert_eq!(format_duration(0), "0s");
    assert_eq!(format_duration(59), "59s");
    assert_eq!(format_duration(61), "1m 1s");
    assert_eq!(format_duration(3661), "1h 1m");
    assert_eq!(format_duration(90061), "1d 1h");
}

#[test]
fn parse_memory_units() {
    assert_eq!(parse_memory_str("256Mi"), Some(256 * 1024 * 1024));
    assert_eq!(parse_memory_str("1Gi"), Some(1024 * 1024 * 1024));
    assert_eq!(parse_memory_str("2K"), Some(2048));
    assert_eq!(parse_memory_str("1000"), Some(1000));
    assert_eq!(parse_memory_str(""), None);
    assert_eq!(parse_memory_str("abc"), None);
}

#[test]
fn memory_quantity_out_of_range_is_none() {
    assert_eq!(parse_memory_str("8192Pi"), None);
    assert_eq!(parse_memory_str("8191Pi"), Some(8191 * 1024_i64.pow(5)));
    assert_eq!(parse_memory_str("-8192Pi"), Some(i64::MIN));
}

#[test]
fn cpu_quantities_are_read_before_floats() {
    assert!(matches!(read_cpu_quantity("  "), CpuQuantity::Empty));
    assert!(matches!(read_cpu_quantity(" 500m "), CpuQuantity::Millicores(500)));
    assert!(matches!(read_cpu_quantity("-5m"), CpuQuantity::Millicores(-5)));
    match read_cpu_quantity(" 1.5 ") {
        CpuQuantity::Cores(t) => assert_eq!(t, "1.5"),
        other => panic!("{:?}", other),
    }
    match read_cpu_quantity("1.5m") {
        CpuQuantity::Cores(t) => assert_eq!(t, "1.5m"),
        other => panic!("{:?}", other),
    }
}
