//! CSV and HTML forms of the Markdown report: the CSV holds the report's
//! tables, each under its heading; the HTML page renders headings, tables,
//! rules, anchors and paragraphs.

use vstd::prelude::*;

use crate::utils::lang::Lang;
use crate::utils::text::{
    chars_of, dec, join, lemma_push_deep_view, join_strings, owned, push_chars, push_str, split, split_vec, starts_with,
    starts_with_str, string_of, sub_vec, trim, trim_start_char, trim_vec, eq_str, u64_to_string,
};

verus! {

// ---------------------------------------------------------------------------
// Characters
// ---------------------------------------------------------------------------

/// The text without backticks.
pub open spec fn drop_ticks(s: Seq<char>) -> Seq<char>
    decreases s.len(),
{
    if s.len() == 0 {
        s
    } else if s.last() == '`' {
        drop_ticks(s.drop_last())
    } else {
        drop_ticks(s.drop_last()).push(s.last())
    }
}

/// The text with every `**` removed, scanning from the start.
pub open spec fn drop_stars(s: Seq<char>) -> Seq<char>
    decreases s.len(),
{
    if s.len() == 0 {
        s
    } else if s.len() >= 2 && s[0] == '*' && s[1] == '*' {
        drop_stars(s.skip(2))
    } else {
        seq![s[0]] + drop_stars(s.skip(1))
    }
}

/// Markdown emphasis marks taken out: backticks, then `**`.
pub open spec fn plain(s: Seq<char>) -> Seq<char> {
    drop_stars(drop_ticks(s))
}

/// HTML entities for `&`, `<` and `>`, backticks dropped.
pub open spec fn entities(s: Seq<char>) -> Seq<char>
    decreases s.len(),
{
    if s.len() == 0 {
        s
    } else {
        let c = s.last();
        entities(s.drop_last()) + if c == '&' {
            "&amp;"@
        } else if c == '<' {
            "&lt;"@
        } else if c == '>' {
            "&gt;"@
        } else if c == '`' {
            seq![]
        } else {
            seq![c]
        }
    }
}

/// Text as HTML: entities for `&`, `<`, `>`, emphasis marks taken out.
pub open spec fn escape_html(s: Seq<char>) -> Seq<char> {
    drop_stars(entities(s))
}

/// Every `"` doubled.
pub open spec fn double_quotes(s: Seq<char>) -> Seq<char>
    decreases s.len(),
{
    if s.len() == 0 {
        s
    } else if s.last() == '"' {
        double_quotes(s.drop_last()) + "\"\""@
    } else {
        double_quotes(s.drop_last()).push(s.last())
    }
}

/// A CSV field: the plain text, quoted (with quotes doubled) when it holds
/// a comma, a quote or a line break.
pub open spec fn csv_field(s: Seq<char>) -> Seq<char> {
    let p = plain(s);
    if p.contains(',') || p.contains('"') || p.contains('\n') {
        "\""@ + double_quotes(p) + "\""@
    } else {
        p
    }
}

fn drop_ticks_exec(s: &Vec<char>) -> (r: Vec<char>)
    ensures
        r@ == drop_ticks(s@),
{
    let mut out: Vec<char> = Vec::new();
    let mut i: usize = 0;
    while i < s.len()
        invariant
            i <= s.len(),
            out@ == drop_ticks(s@.take(i as int)),
        decreases s.len() - i,
    {
        proof {
            assert(s@.take(i as int + 1).drop_last() =~= s@.take(i as int));
        }
        if s[i] != '`' {
            out.push(s[i]);
        }
        i = i + 1;
    }
    proof {
        assert(s@.take(s.len() as int) =~= s@);
    }
    out
}

fn drop_stars_exec(s: &Vec<char>) -> (r: Vec<char>)
    ensures
        r@ == drop_stars(s@),
{
    let mut out: Vec<char> = Vec::new();
    let mut i: usize = 0;
    proof {
        assert(s@.skip(0) =~= s@);
    }
    while i < s.len()
        invariant
            i <= s.len(),
            drop_stars(s@) == out@ + drop_stars(s@.skip(i as int)),
        decreases s.len() - i,
    {
        let ghost rest = s@.skip(i as int);
        if i + 1 < s.len() && s[i] == '*' && s[i + 1] == '*' {
            proof {
                assert(rest.skip(2) =~= s@.skip(i as int + 2));
            }
            i = i + 2;
        } else {
            proof {
                assert(rest.skip(1) =~= s@.skip(i as int + 1));
                assert(out@.push(s@[i as int]) + drop_stars(s@.skip(i as int + 1)) =~= out@ + (seq![rest[0]]
                    + drop_stars(rest.skip(1))));
            }
            out.push(s[i]);
            i = i + 1;
        }
    }
    proof {
        assert(drop_stars(s@.skip(i as int)) =~= Seq::<char>::empty());
        assert(out@ + Seq::<char>::empty() =~= out@);
    }
    out
}

fn entities_exec(s: &Vec<char>) -> (r: Vec<char>)
    ensures
        r@ == entities(s@),
{
    let mut out: Vec<char> = Vec::new();
    let mut i: usize = 0;
    while i < s.len()
        invariant
            i <= s.len(),
            out@ == entities(s@.take(i as int)),
        decreases s.len() - i,
    {
        proof {
            assert(s@.take(i as int + 1).drop_last() =~= s@.take(i as int));
            reveal_strlit("&amp;");
            reveal_strlit("&lt;");
            reveal_strlit("&gt;");
        }
        let c = s[i];
        let ghost before = out@;
        if c == '&' {
            out.push('&');
            out.push('a');
            out.push('m');
            out.push('p');
            out.push(';');
        } else if c == '<' {
            out.push('&');
            out.push('l');
            out.push('t');
            out.push(';');
        } else if c == '>' {
            out.push('&');
            out.push('g');
            out.push('t');
            out.push(';');
        } else if c != '`' {
            out.push(c);
        }
        proof {
            assert(out@ =~= entities(s@.take(i as int + 1)));
        }
        i = i + 1;
    }
    proof {
        assert(s@.take(s.len() as int) =~= s@);
    }
    out
}

fn double_quotes_exec(s: &Vec<char>) -> (r: Vec<char>)
    ensures
        r@ == double_quotes(s@),
{
    let mut out: Vec<char> = Vec::new();
    let mut i: usize = 0;
    while i < s.len()
        invariant
            i <= s.len(),
            out@ == double_quotes(s@.take(i as int)),
        decreases s.len() - i,
    {
        proof {
            assert(s@.take(i as int + 1).drop_last() =~= s@.take(i as int));
            reveal_strlit("\"\"");
        }
        let ghost before = out@;
        if s[i] == '"' {
            out.push('"');
            out.push('"');
        } else {
            out.push(s[i]);
        }
        proof {
            assert(out@ =~= double_quotes(s@.take(i as int + 1)));
        }
        i = i + 1;
    }
    proof {
        assert(s@.take(s.len() as int) =~= s@);
    }
    out
}

fn has_char(s: &Vec<char>, c: char) -> (r: bool)
    ensures
        r == s@.contains(c),
{
    let mut i: usize = 0;
    while i < s.len()
        invariant
            i <= s.len(),
            forall|j: int| 0 <= j < i ==> s@[j] != c,
        decreases s.len() - i,
    {
        if s[i] == c {
            assert(s@[i as int] == c);
            return true;
        }
        i = i + 1;
    }
    false
}

fn csv_field_exec(s: &Vec<char>) -> (r: String)
    ensures
        r@ == csv_field(s@),
{
    let p = drop_stars_exec(&drop_ticks_exec(s));
    if has_char(&p, ',') || has_char(&p, '"') || has_char(&p, '\n') {
        let mut out = owned("\"");
        push_chars(&mut out, &double_quotes_exec(&p));
        push_str(&mut out, "\"");
        out
    } else {
        string_of(&p)
    }
}

fn escape_exec(s: &Vec<char>) -> (r: String)
    ensures
        r@ == escape_html(s@),
{
    string_of(&drop_stars_exec(&entities_exec(s)))
}


// ---------------------------------------------------------------------------
// Lines and table cells
// ---------------------------------------------------------------------------

/// The lines of a text, each trimmed.
pub open spec fn trimmed_lines(md: Seq<char>) -> Seq<Seq<char>> {
    split(md, '\n').map_values(|l: Seq<char>| trim(l))
}

pub open spec fn is_table_char(c: char) -> bool {
    c == '|' || c == '-' || c == ':' || c == ' '
}

/// A table's separator row: it starts with `|` and holds only `|`, `-`,
/// `:` and spaces.
pub open spec fn is_separator(t: Seq<char>) -> bool {
    t.len() > 0 && t[0] == '|' && forall|i: int| 0 <= i < t.len() ==> is_table_char(#[trigger] t[i])
}

/// The cells of a table row: without its outer bars, split at `|`, each
/// trimmed.
pub open spec fn row_cells(t: Seq<char>) -> Seq<Seq<char>> {
    let a = if t.len() > 0 && t[0] == '|' {
        t.skip(1)
    } else {
        t
    };
    let b = if a.len() > 0 && a.last() == '|' {
        a.drop_last()
    } else {
        a
    };
    split(b, '|').map_values(|c: Seq<char>| trim(c))
}

/// The text of a heading line: after its `#` marks, trimmed.
pub open spec fn heading_text(t: Seq<char>) -> Seq<char> {
    trim(trim_start_char(t.skip(1), '#'))
}

fn lines_exec(md: &str) -> (r: Vec<Vec<char>>)
    ensures
        r.deep_view() == trimmed_lines(md@),
{
    let parts = split_vec(&chars_of(md), '\n');
    let ghost pv = parts.deep_view();
    let mut out: Vec<Vec<char>> = Vec::new();
    let mut i: usize = 0;
    while i < parts.len()
        invariant
            i <= parts.len(),
            pv == parts.deep_view(),
            pv == split(md@, '\n'),
            out.deep_view() =~= pv.take(i as int).map_values(|l: Seq<char>| trim(l)),
        decreases parts.len() - i,
    {
        let t = trim_vec(&parts[i]);
        let ghost before = out;
        out.push(t);
        proof {
            lemma_push_deep_view(before, out, t);
            assert(pv[i as int] == parts@[i as int]@);
            assert(pv.take(i as int + 1).map_values(|l: Seq<char>| trim(l)) =~= pv.take(i as int).map_values(
                |l: Seq<char>| trim(l),
            ).push(trim(pv[i as int])));
        }
        i = i + 1;
    }
    proof {
        assert(pv.take(parts.len() as int) =~= pv);
    }
    out
}

fn is_separator_exec(t: &Vec<char>) -> (r: bool)
    ensures
        r == is_separator(t@),
{
    if t.len() == 0 || t[0] != '|' {
        return false;
    }
    let mut i: usize = 0;
    while i < t.len()
        invariant
            i <= t.len(),
            forall|j: int| 0 <= j < i ==> is_table_char(#[trigger] t@[j]),
        decreases t.len() - i,
    {
        let c = t[i];
        if !(c == '|' || c == '-' || c == ':' || c == ' ') {
            assert(!is_table_char(t@[i as int]));
            return false;
        }
        i = i + 1;
    }
    true
}

fn row_cells_exec(t: &Vec<char>) -> (r: Vec<Vec<char>>)
    ensures
        r.deep_view() == row_cells(t@),
{
    let a = if t.len() > 0 && t[0] == '|' {
        sub_vec(t, 1, t.len())
    } else {
        sub_vec(t, 0, t.len())
    };
    proof {
        if t.len() > 0 {
            assert(t@.subrange(1, t.len() as int) =~= t@.skip(1));
        }
        assert(t@.subrange(0, t.len() as int) =~= t@);
    }
    let b = if a.len() > 0 && a[a.len() - 1] == '|' {
        sub_vec(&a, 0, a.len() - 1)
    } else {
        sub_vec(&a, 0, a.len())
    };
    proof {
        assert(a.len() > 0 ==> a@.subrange(0, a.len() - 1) =~= a@.drop_last());
        assert(a@.subrange(0, a.len() as int) =~= a@);
    }
    let parts = split_vec(&b, '|');
    let ghost pv = parts.deep_view();
    let mut out: Vec<Vec<char>> = Vec::new();
    let mut i: usize = 0;
    while i < parts.len()
        invariant
            i <= parts.len(),
            pv == parts.deep_view(),
            pv == split(b@, '|'),
            out.deep_view() =~= pv.take(i as int).map_values(|c: Seq<char>| trim(c)),
        decreases parts.len() - i,
    {
        let c = trim_vec(&parts[i]);
        let ghost before = out;
        out.push(c);
        proof {
            lemma_push_deep_view(before, out, c);
            assert(pv[i as int] == parts@[i as int]@);
            assert(pv.take(i as int + 1).map_values(|c: Seq<char>| trim(c)) =~= pv.take(i as int).map_values(
                |c: Seq<char>| trim(c),
            ).push(trim(pv[i as int])));
        }
        i = i + 1;
    }
    proof {
        assert(pv.take(parts.len() as int) =~= pv);
    }
    out
}

fn heading_exec(t: &Vec<char>) -> (r: Vec<char>)
    requires
        t.len() > 0,
    ensures
        r@ == heading_text(t@),
{
    let mut k: usize = 1;
    proof {
        assert(t@.skip(1) =~= t@.skip(k as int));
    }
    while k < t.len() && t[k] == '#'
        invariant
            1 <= k <= t.len(),
            trim_start_char(t@.skip(1), '#') == trim_start_char(t@.skip(k as int), '#'),
        decreases t.len() - k,
    {
        proof {
            assert(t@.skip(k as int).drop_first() =~= t@.skip(k as int + 1));
        }
        k = k + 1;
    }
    proof {
        assert(trim_start_char(t@.skip(k as int), '#') == t@.skip(k as int));
        assert(t@.subrange(k as int, t.len() as int) =~= t@.skip(k as int));
    }
    trim_vec(&sub_vec(t, k, t.len()))
}


// ---------------------------------------------------------------------------
// CSV
// ---------------------------------------------------------------------------

/// A table row as CSV: its cells as fields, joined by commas.
pub open spec fn csv_row(t: Seq<char>) -> Seq<char> {
    join(row_cells(t).map_values(|c: Seq<char>| csv_field(c)), ","@) + "\n"@
}

/// What opens a table in the CSV: an empty line after earlier output, then
/// the heading the table stands under, when there is one.
pub open spec fn csv_table_start(out: Seq<char>, heading: Seq<char>) -> Seq<char> {
    (if out.len() > 0 {
        "\n"@
    } else {
        seq![]
    }) + (if heading.len() > 0 {
        csv_field(heading) + "\n"@
    } else {
        seq![]
    })
}

/// The CSV written for the lines so far, the last heading seen, and whether
/// the last line was a table row: headings are remembered, separator rows
/// skipped, table rows written (a new table under its heading), and other
/// lines end a table.
pub open spec fn csv_fold(ls: Seq<Seq<char>>) -> (Seq<char>, Seq<char>, bool)
    decreases ls.len(),
{
    if ls.len() == 0 {
        (seq![], seq![], false)
    } else {
        let (out, heading, in_table) = csv_fold(ls.drop_last());
        let t = ls.last();
        if t.len() > 0 && t[0] == '#' {
            (out, heading_text(t), in_table)
        } else if t.len() > 0 && t[0] == '|' {
            if is_separator(t) {
                (out, heading, in_table)
            } else {
                (
                    out + (if in_table {
                        seq![]
                    } else {
                        csv_table_start(out, heading)
                    }) + csv_row(t),
                    heading,
                    true,
                )
            }
        } else {
            (out, heading, false)
        }
    }
}

/// The tables of a Markdown text as CSV.
pub open spec fn md_to_csv_spec(md: Seq<char>) -> Seq<char> {
    csv_fold(trimmed_lines(md)).0
}

fn csv_row_exec(t: &Vec<char>) -> (r: String)
    ensures
        r@ == csv_row(t@),
{
    let cells = row_cells_exec(t);
    let ghost cv = cells.deep_view();
    let mut fields: Vec<String> = Vec::new();
    let mut i: usize = 0;
    while i < cells.len()
        invariant
            i <= cells.len(),
            cv == cells.deep_view(),
            fields@.map_values(|s: String| s@) =~= cv.take(i as int).map_values(|c: Seq<char>| csv_field(c)),
        decreases cells.len() - i,
    {
        let f = csv_field_exec(&cells[i]);
        fields.push(f);
        proof {
            assert(cv[i as int] == cells@[i as int]@);
            assert(cv.take(i as int + 1).map_values(|c: Seq<char>| csv_field(c)) =~= cv.take(i as int).map_values(
                |c: Seq<char>| csv_field(c),
            ).push(csv_field(cv[i as int])));
        }
        i = i + 1;
    }
    proof {
        assert(cv.take(cells.len() as int) =~= cv);
    }
    let mut out = join_strings(&fields, ",");
    push_str(&mut out, "\n");
    out
}

/// The tables of a Markdown text as CSV, each preceded by the heading it
/// stands under, separated by empty lines.
pub fn md_to_csv(md: &str) -> (r: String)
    ensures
        r@ == md_to_csv_spec(md@),
{
    let ls = lines_exec(md);
    let ghost lv = ls.deep_view();
    let mut out = String::new();
    let mut heading: Vec<char> = Vec::new();
    let mut in_table = false;
    let mut i: usize = 0;
    while i < ls.len()
        invariant
            i <= ls.len(),
            lv == ls.deep_view(),
            lv == trimmed_lines(md@),
            (out@, heading@, in_table) == csv_fold(lv.take(i as int)),
        decreases ls.len() - i,
    {
        proof {
            assert(lv.take(i as int + 1).drop_last() =~= lv.take(i as int));
            assert(lv[i as int] == ls@[i as int]@);
        }
        let t = &ls[i];
        if t.len() > 0 && t[0] == '#' {
            heading = heading_exec(t);
        } else if t.len() > 0 && t[0] == '|' {
            if !is_separator_exec(t) {
                if !in_table {
                    let ghost before = out@;
                    if out.unicode_len() > 0 {
                        push_str(&mut out, "\n");
                    }
                    if heading.len() > 0 {
                        push_str(&mut out, csv_field_exec(&heading).as_str());
                        push_str(&mut out, "\n");
                    }
                    proof {
                        reveal_strlit("");
                        assert(out@ =~= before + csv_table_start(before, heading@));
                    }
                    in_table = true;
                }
                push_str(&mut out, csv_row_exec(t).as_str());
            }
        } else {
            in_table = false;
        }
        i = i + 1;
    }
    proof {
        assert(lv.take(ls.len() as int) =~= lv);
    }
    out
}


// ---------------------------------------------------------------------------
// HTML
// ---------------------------------------------------------------------------

/// A table row as HTML with the given cell tag.
pub open spec fn cells_html(cells: Seq<Seq<char>>, tag: Seq<char>) -> Seq<char>
    decreases cells.len(),
{
    if cells.len() == 0 {
        seq![]
    } else {
        cells_html(cells.drop_last(), tag) + "<"@ + tag + ">"@ + escape_html(cells.last()) + "</"@ + tag + ">"@
    }
}

/// The rows of a table: the first as header cells, the others as data.
pub open spec fn rows_html(rows: Seq<Seq<Seq<char>>>) -> Seq<char>
    decreases rows.len(),
{
    if rows.len() == 0 {
        seq![]
    } else {
        rows_html(rows.drop_last()) + "<tr>"@ + cells_html(
            rows.last(),
            if rows.len() == 1 {
                "th"@
            } else {
                "td"@
            },
        ) + "</tr>\n"@
    }
}

/// A table, nothing without rows.
pub open spec fn table_html(rows: Seq<Seq<Seq<char>>>) -> Seq<char> {
    if rows.len() == 0 {
        seq![]
    } else {
        "<table>\n"@ + rows_html(rows) + "</table>\n"@
    }
}

/// The level of a heading line: its leading `#` marks, at most six.
pub open spec fn heading_level(t: Seq<char>) -> nat {
    let n = (t.len() - trim_start_char(t, '#').len()) as nat;
    if n < 6 {
        n
    } else {
        6
    }
}

/// The HTML of a line that is not a table row.
pub open spec fn line_html(t: Seq<char>) -> Seq<char> {
    if t.len() == 0 {
        seq![]
    } else if t == "---"@ {
        "<hr/>\n"@
    } else if starts_with(t, "<a id="@) {
        t + "\n"@
    } else if t[0] == '#' {
        let lv = heading_level(t);
        "<h"@ + dec(lv) + ">"@ + escape_html(trim(t.skip(lv as int))) + "</h"@ + dec(lv) + ">\n"@
    } else {
        "<p>"@ + escape_html(t) + "</p>\n"@
    }
}

/// The HTML body for the lines so far, and the table rows not yet
/// written: table rows are collected (separator rows skipped), and any
/// other line first writes the table collected before it.
pub open spec fn html_fold(ls: Seq<Seq<char>>) -> (Seq<char>, Seq<Seq<Seq<char>>>)
    decreases ls.len(),
{
    if ls.len() == 0 {
        (seq![], seq![])
    } else {
        let (body, rows) = html_fold(ls.drop_last());
        let t = ls.last();
        if t.len() > 0 && t[0] == '|' {
            if is_separator(t) {
                (body, rows)
            } else {
                (body, rows.push(row_cells(t)))
            }
        } else {
            (body + table_html(rows) + line_html(t), seq![])
        }
    }
}

pub open spec fn html_lang_spec(lang: Lang) -> Seq<char> {
    match lang {
        Lang::Zh => "zh-CN"@,
        Lang::En => "en"@,
    }
}

pub open spec fn html_title_spec(lang: Lang) -> Seq<char> {
    match lang {
        Lang::Zh => "kubernetes 巡检报告"@,
        Lang::En => "kubernetes Report"@,
    }
}

/// A standalone HTML page of a Markdown text.
pub open spec fn md_to_html_spec(md: Seq<char>, lang: Lang) -> Seq<char> {
    let (body, rows) = html_fold(trimmed_lines(md));
    "<!DOCTYPE html>\n<html lang=\""@ + html_lang_spec(lang) + "\">\n<head>\n<meta charset=\"utf-8\"/>\n<title>"@
        + html_title_spec(lang)
        + "</title>\n<style>\ntable{border-collapse:collapse;}th,td{border:1px solid #ccc;padding:4px 8px;}\n</style>\n</head>\n<body>\n"@
        + body + table_html(rows) + "</body>\n</html>\n"@
}

fn cells_html_exec(cells: &Vec<Vec<char>>, tag: &str) -> (r: String)
    ensures
        r@ == cells_html(cells.deep_view(), tag@),
{
    let ghost cv = cells.deep_view();
    let mut out = String::new();
    let mut i: usize = 0;
    while i < cells.len()
        invariant
            i <= cells.len(),
            cv == cells.deep_view(),
            out@ == cells_html(cv.take(i as int), tag@),
        decreases cells.len() - i,
    {
        proof {
            assert(cv.take(i as int + 1).drop_last() =~= cv.take(i as int));
            assert(cv[i as int] == cells@[i as int]@);
        }
        push_str(&mut out, "<");
        push_str(&mut out, tag);
        push_str(&mut out, ">");
        push_str(&mut out, escape_exec(&cells[i]).as_str());
        push_str(&mut out, "</");
        push_str(&mut out, tag);
        push_str(&mut out, ">");
        i = i + 1;
    }
    proof {
        assert(cv.take(cells.len() as int) =~= cv);
    }
    out
}

pub open spec fn rows_view(rows: Seq<Vec<Vec<char>>>) -> Seq<Seq<Seq<char>>> {
    rows.map_values(|r: Vec<Vec<char>>| r.deep_view())
}

fn table_html_exec(rows: &Vec<Vec<Vec<char>>>) -> (r: String)
    ensures
        r@ == table_html(rows_view(rows@)),
{
    if rows.len() == 0 {
        return String::new();
    }
    let ghost rv = rows_view(rows@);
    let mut out = owned("<table>\n");
    let ghost head = out@;
    let mut i: usize = 0;
    while i < rows.len()
        invariant
            i <= rows.len(),
            rv == rows_view(rows@),
            head == "<table>\n"@,
            out@ == head + rows_html(rv.take(i as int)),
        decreases rows.len() - i,
    {
        proof {
            assert(rv.take(i as int + 1).drop_last() =~= rv.take(i as int));
            assert(rv[i as int] == rows@[i as int].deep_view());
        }
        let tag = if i == 0 {
            "th"
        } else {
            "td"
        };
        push_str(&mut out, "<tr>");
        push_str(&mut out, cells_html_exec(&rows[i], tag).as_str());
        push_str(&mut out, "</tr>\n");
        i = i + 1;
    }
    proof {
        assert(rv.take(rows.len() as int) =~= rv);
    }
    push_str(&mut out, "</table>\n");
    out
}

fn line_html_exec(t: &Vec<char>) -> (r: String)
    ensures
        r@ == line_html(t@),
{
    if t.len() == 0 {
        return String::new();
    }
    if eq_str(t, "---") {
        return owned("<hr/>\n");
    }
    if starts_with_str(t, "<a id=") {
        let mut out = string_of(t);
        push_str(&mut out, "\n");
        return out;
    }
    if t[0] == '#' {
        let mut n: usize = 0;
        proof {
            assert(t@.skip(0) =~= t@);
        }
        while n < t.len() && t[n] == '#'
            invariant
                n <= t.len(),
                trim_start_char(t@, '#') == trim_start_char(t@.skip(n as int), '#'),
            decreases t.len() - n,
        {
            proof {
                assert(t@.skip(n as int).drop_first() =~= t@.skip(n as int + 1));
            }
            n = n + 1;
        }
        proof {
            assert(t@.skip(0) =~= t@);
            assert(trim_start_char(t@.skip(n as int), '#') == t@.skip(n as int));
        }
        let lv: usize = if n < 6 {
            n
        } else {
            6
        };
        let text = trim_vec(&sub_vec(t, lv, t.len()));
        proof {
            assert(t@.subrange(lv as int, t.len() as int) =~= t@.skip(lv as int));
        }
        let d = u64_to_string(lv as u64);
        let mut out = owned("<h");
        push_str(&mut out, d.as_str());
        push_str(&mut out, ">");
        push_str(&mut out, escape_exec(&text).as_str());
        push_str(&mut out, "</h");
        push_str(&mut out, d.as_str());
        push_str(&mut out, ">\n");
        return out;
    }
    let mut out = owned("<p>");
    push_str(&mut out, escape_exec(t).as_str());
    push_str(&mut out, "</p>\n");
    out
}

/// A standalone HTML page of a Markdown text: headings, tables, rules,
/// anchors and paragraphs.
pub fn md_to_html(md: &str, lang: Lang) -> (r: String)
    ensures
        r@ == md_to_html_spec(md@, lang),
{
    let ls = lines_exec(md);
    let ghost lv = ls.deep_view();
    let mut body = String::new();
    let mut rows: Vec<Vec<Vec<char>>> = Vec::new();
    let mut i: usize = 0;
    while i < ls.len()
        invariant
            i <= ls.len(),
            lv == ls.deep_view(),
            lv == trimmed_lines(md@),
            (body@, rows_view(rows@)) == html_fold(lv.take(i as int)),
        decreases ls.len() - i,
    {
        proof {
            assert(lv.take(i as int + 1).drop_last() =~= lv.take(i as int));
            assert(lv[i as int] == ls@[i as int]@);
        }
        let t = &ls[i];
        if t.len() > 0 && t[0] == '|' {
            if !is_separator_exec(t) {
                let cells = row_cells_exec(t);
                let ghost before = rows@;
                rows.push(cells);
                proof {
                    assert(rows_view(rows@) =~= rows_view(before).push(cells.deep_view()));
                }
            }
        } else {
            push_str(&mut body, table_html_exec(&rows).as_str());
            push_str(&mut body, line_html_exec(t).as_str());
            rows = Vec::new();
            proof {
                assert(rows_view(rows@) =~= Seq::<Seq<Seq<char>>>::empty());
            }
        }
        i = i + 1;
    }
    proof {
        assert(lv.take(ls.len() as int) =~= lv);
    }
    let mut out = owned("<!DOCTYPE html>\n<html lang=\"");
    push_str(&mut out, lang.html_lang());
    push_str(&mut out, "\">\n<head>\n<meta charset=\"utf-8\"/>\n<title>");
    push_str(&mut out, lang.html_title());
    push_str(
        &mut out,
        "</title>\n<style>\ntable{border-collapse:collapse;}th,td{border:1px solid #ccc;padding:4px 8px;}\n</style>\n</head>\n<body>\n",
    );
    push_str(&mut out, body.as_str());
    push_str(&mut out, table_html_exec(&rows).as_str());
    push_str(&mut out, "</body>\n</html>\n");
    out
}

} // verus!
