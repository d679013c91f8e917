use kcc::reporting::export::{md_to_csv, md_to_html};
use kcc::utils::lang::Lang;

const MD: &str = "# Title\n\n## 🔍 **Nodes**\n\n| Node | Note |\n|---|---|\n| `n1` | a, \"b\" |\n| n2 | x**y** |\n\ntext & <b>\n\n### Pods\n| P |\n|---|\n| p1 |\n---\n<a id=\"pod\"></a>\n";

#[test]
fn csv_holds_each_table_under_its_heading() {
    let csv = md_to_csv(MD);
    assert_eq!(csv, "🔍 Nodes\nNode,Note\nn1,\"a, \"\"b\"\"\"\nn2,xy\n\nPods\nP\np1\n");
}

#[test]
fn csv_of_text_without_tables_is_empty() {
    assert_eq!(md_to_csv("# only\n\nwords\n"), "");
    assert_eq!(md_to_csv(""), "");
}

#[test]
fn html_renders_headings_tables_rules_and_paragraphs() {
    let html = md_to_html(MD, Lang::En);
    assert!(html.starts_with("<!DOCTYPE html>\n<html lang=\"en\">\n<head>\n<meta charset=\"utf-8\"/>\n<title>kubernetes Report</title>\n"));
    assert!(html.contains("<h1>Title</h1>\n<h2>🔍 Nodes</h2>\n<table>\n<tr><th>Node</th><th>Note</th></tr>\n<tr><td>n1</td><td>a, \"b\"</td></tr>\n<tr><td>n2</td><td>xy</td></tr>\n</table>\n<p>text &amp; &lt;b&gt;</p>\n<h3>Pods</h3>\n"));
    assert!(html.contains("<table>\n<tr><th>P</th></tr>\n<tr><td>p1</td></tr>\n</table>\n<hr/>\n<a id=\"pod\"></a>\n</body>\n</html>\n"));
    assert!(md_to_html("# x", Lang::Zh).contains("<html lang=\"zh-CN\">"));
    assert!(md_to_html("######## deep", Lang::En).contains("<h6>## deep</h6>"));
}
