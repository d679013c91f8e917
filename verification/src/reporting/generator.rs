//! Pure parts of the report generator: level filters, issue-code cells,
//! resource naming, mount/device normalisation for the disk table, anchors,
//! and the generator's language-dependent labels.

use vstd::prelude::*;

use crate::inspections::issue_codes::{
    opt_str_view, short_title, short_title_spec, short_title_zh, short_title_zh_spec, strip_prefix,
    strip_prefix_spec,
};
use crate::scoring::ScoringEngine;
use crate::utils::lang::{health_label_spec, severity_label_spec, Lang};
use crate::utils::status::{CheckStatus, HealthStatus, IssueSeverity};
use crate::utils::text::{find_first, first_index_of, trim_end_char, trim_start_char, 
    all_digits, chars_of, contains, contains_str, eq_str, is_ascii_alnum, is_digit, lower_text,
    owned, push_char, push_chars, push_str, split, split_vec, starts_with, starts_with_str,
    str_eq, string_of, sub_vec, to_lowercase, trim, trim_str, trim_vec,
};

verus! {

// ---------------------------------------------------------------------------
// Check level filter
// ---------------------------------------------------------------------------

/// Which check statuses to include in the Check Results table, and whether
/// issues of Info severity are listed.
#[derive(Clone, Debug)]
pub enum CheckLevelFilter {
    All,
    Only { statuses: Vec<CheckStatus>, info: bool },
}

/// Whether the filter lists issues of Info severity.
pub open spec fn info_shown(filter: CheckLevelFilter) -> bool {
    match filter {
        CheckLevelFilter::All => true,
        CheckLevelFilter::Only { info, .. } => info,
    }
}

impl CheckLevelFilter {
    /// Whether issues of Info severity are listed: with "all", or when the
    /// level list names `info`.
    pub fn includes_info(&self) -> (r: bool)
        ensures
            r == info_shown(*self),
    {
        match self {
            CheckLevelFilter::All => true,
            CheckLevelFilter::Only { info, .. } => *info,
        }
    }
}

/// Whether one of the comma-separated parts is the word `info`.
pub open spec fn names_info(parts: Seq<Seq<char>>) -> bool {
    exists|i: int| 0 <= i < parts.len() && trim(#[trigger] parts[i]) == "info"@
}

/// Status named by one (trimmed, lower-case) word of a level list.
pub open spec fn level_of(w: Seq<char>) -> Option<CheckStatus> {
    if w == "pass"@ {
        Some(CheckStatus::Pass)
    } else if w == "warning"@ {
        Some(CheckStatus::Warning)
    } else if w == "critical"@ {
        Some(CheckStatus::Critical)
    } else if w == "error"@ {
        Some(CheckStatus::Error)
    } else {
        None
    }
}

/// Statuses named by the comma-separated parts, in order, unknown words skipped.
pub open spec fn levels(parts: Seq<Seq<char>>) -> Seq<CheckStatus>
    decreases parts.len(),
{
    if parts.len() == 0 {
        seq![]
    } else {
        let rest = levels(parts.drop_last());
        match level_of(trim(parts.last())) {
            Some(l) => rest.push(l),
            None => rest,
        }
    }
}

/// The default level list: Warning, Critical, Error.
pub open spec fn default_levels() -> Seq<CheckStatus> {
    seq![CheckStatus::Warning, CheckStatus::Critical, CheckStatus::Error]
}

/// Statuses that `parse_check_level_filter` keeps for a text that is not "all".
pub open spec fn parsed_levels(t: Seq<char>) -> Seq<CheckStatus> {
    let only = levels(split(t, ','));
    if only.len() == 0 {
        default_levels()
    } else {
        only
    }
}

/// What `parse_check_level_filter` gives for a level list.
pub open spec fn parsed_filter(s: Seq<char>, f: CheckLevelFilter) -> bool {
    filter_of_lower(lower_text(trim(s)), f)
}

/// The filter of a trimmed, lower-case level list: "all", or the status
/// words and whether `info` is among the comma-separated words.
pub open spec fn filter_of_lower(t: Seq<char>, f: CheckLevelFilter) -> bool {
    match f {
        CheckLevelFilter::All => t == "all"@,
        CheckLevelFilter::Only { statuses, info } => t != "all"@ && statuses@ == parsed_levels(t) && info
            == names_info(split(t, ',')),
    }
}

/// Issues of Info severity are listed exactly when the level list is
/// "all" or names `info`: "info,warning,critical" lists them,
/// "warning,critical" does not.
pub proof fn law_info_level_kept(s: Seq<char>, f: CheckLevelFilter)
    requires
        parsed_filter(s, f),
    ensures
        info_shown(f) <==> (lower_text(trim(s)) == "all"@ || names_info(split(lower_text(trim(s)), ','))),
{
}

fn level_word(w: &Vec<char>) -> (r: Option<CheckStatus>)
    ensures
        r == level_of(w@),
{
    if eq_str(w, "pass") {
        Some(CheckStatus::Pass)
    } else if eq_str(w, "warning") {
        Some(CheckStatus::Warning)
    } else if eq_str(w, "critical") {
        Some(CheckStatus::Critical)
    } else if eq_str(w, "error") {
        Some(CheckStatus::Error)
    } else {
        None
    }
}

/// Parses a level list: "all" (any case, surrounding white space ignored),
/// or comma-separated level words: the status words give the check
/// statuses shown (with none of them the default Warning, Critical, Error),
/// and the word `info` lists issues of Info severity.
pub fn parse_check_level_filter(s: &str) -> (r: CheckLevelFilter)
    ensures
        parsed_filter(s@, r),
{
    let tv = trim_str(s);
    let ts = string_of(&tv);
    let low = to_lowercase(ts.as_str());
    check_level_filter_of(low.as_str())
}

/// The filter of a trimmed, lower-case level list (see [`filter_of_lower`]).
pub fn check_level_filter_of(low: &str) -> (r: CheckLevelFilter)
    ensures
        filter_of_lower(low@, r),
{
    if str_eq(low, "all") {
        return CheckLevelFilter::All;
    }
    let lv = chars_of(low);
    let parts = split_vec(&lv, ',');
    let mut only: Vec<CheckStatus> = Vec::new();
    let mut info = false;
    let mut i: usize = 0;
    while i < parts.len()
        invariant
            i <= parts.len(),
            parts.deep_view() == split(lv@, ','),
            only@ == levels(parts.deep_view().take(i as int)),
            info == names_info(parts.deep_view().take(i as int)),
        decreases parts.len() - i,
    {
        proof {
            assert(parts.deep_view().take(i as int + 1).drop_last() =~= parts.deep_view().take(
                i as int,
            ));
            assert(parts.deep_view()[i as int] == parts@[i as int]@);
        }
        let w = trim_vec(&parts[i]);
        match level_word(&w) {
            Some(l) => only.push(l),
            None => {},
        }
        let is_info = eq_str(&w, "info");
        proof {
            let prev = parts.deep_view().take(i as int);
            let next = parts.deep_view().take(i as int + 1);
            if is_info {
                assert(trim(next[i as int]) == "info"@);
            }
            if names_info(prev) {
                let j = choose|j: int| 0 <= j < prev.len() && trim(#[trigger] prev[j]) == "info"@;
                assert(next[j] == prev[j]);
            }
            if names_info(next) && !is_info {
                let j = choose|j: int| 0 <= j < next.len() && trim(#[trigger] next[j]) == "info"@;
                assert(j != i);
                assert(prev[j] == next[j]);
            }
        }
        info = info || is_info;
        i = i + 1;
    }
    proof {
        assert(parts.deep_view().take(parts.len() as int) =~= parts.deep_view());
    }
    if only.len() == 0 {
        CheckLevelFilter::Only {
            statuses: vec![CheckStatus::Warning, CheckStatus::Critical, CheckStatus::Error],
            info,
        }
    } else {
        CheckLevelFilter::Only { statuses: only, info }
    }
}

// ---------------------------------------------------------------------------
// Issue codes
// ---------------------------------------------------------------------------

/// Short title of an issue code in a language, after stripping its prefix.
pub open spec fn issue_short_title_spec(lang: Lang, code: Seq<char>) -> Option<Seq<char>> {
    match lang {
        Lang::Zh => short_title_zh_spec(strip_prefix_spec(code)),
        Lang::En => short_title_spec(strip_prefix_spec(code)),
    }
}

pub open spec fn opt_owned_view(o: Option<String>) -> Option<Seq<char>> {
    match o {
        Some(s) => Some(s@),
        None => None,
    }
}

/// Short title for an issue code in the requested language.
pub fn issue_short_title(lang: Lang, code: &str) -> (r: Option<String>)
    ensures
        opt_owned_view(r) == issue_short_title_spec(lang, code@),
{
    let c = strip_prefix(code);
    let t = match lang {
        Lang::Zh => short_title_zh(c),
        Lang::En => short_title(c),
    };
    match t {
        Some(x) => Some(owned(x)),
        None => None,
    }
}

/// Issue code shown in the report: the code without its category prefix.
pub fn display_issue_code(code: &str) -> (r: String)
    ensures
        r@ == strip_prefix_spec(code@),
{
    owned(strip_prefix(code))
}

/// Issue code table cell: the code in backticks, or `-` when there is none.
pub fn code_cell(rule_id: Option<&str>) -> (r: String)
    ensures
        r@ == (match rule_id {
            Some(c) => "`"@ + strip_prefix_spec(c@) + "`"@,
            None => "-"@,
        }),
{
    match rule_id {
        Some(c) => {
            let mut out = String::new();
            push_str(&mut out, "`");
            push_str(&mut out, strip_prefix(c));
            push_str(&mut out, "`");
            out
        },
        None => owned("-"),
    }
}

// ---------------------------------------------------------------------------
// Resource naming
// ---------------------------------------------------------------------------

/// Resource object shown for an inspection module in the Check Results table.
pub open spec fn inspection_resource_spec(t: Seq<char>) -> Seq<char> {
    if t == "Node Health"@ || t == "Node Inspection"@ {
        "Node"@
    } else if t == "Control Plane"@ {
        "Control Plane"@
    } else if t == "Network Connectivity"@ {
        "Service"@
    } else if t == "Storage"@ {
        "PersistentVolume"@
    } else if t == "Resource Usage"@ || t == "Pod Status"@ {
        "Pod"@
    } else if t == "Autoscaling"@ {
        "HorizontalPodAutoscaler"@
    } else if t == "Batch Workloads"@ {
        "Job"@
    } else if t == "Security Configuration"@ {
        "NetworkPolicy"@
    } else if t == "Policy & Governance"@ {
        "ResourceQuota"@
    } else if t == "Observability"@ {
        "Observability"@
    } else if t == "Namespace"@ {
        "Namespace"@
    } else if t == "Certificates"@ {
        "Certificate"@
    } else if t == "Upgrade Readiness"@ {
        "Node"@
    } else {
        "Other"@
    }
}

/// Maps an inspection type name to the resource object for the Check Results table.
pub fn inspection_type_to_resource(inspection_type: &str) -> (r: &'static str)
    ensures
        r@ == inspection_resource_spec(inspection_type@),
{
    let t = inspection_type;
    if str_eq(t, "Node Health") || str_eq(t, "Node Inspection") {
        "Node"
    } else if str_eq(t, "Control Plane") {
        "Control Plane"
    } else if str_eq(t, "Network Connectivity") {
        "Service"
    } else if str_eq(t, "Storage") {
        "PersistentVolume"
    } else if str_eq(t, "Resource Usage") || str_eq(t, "Pod Status") {
        "Pod"
    } else if str_eq(t, "Autoscaling") {
        "HorizontalPodAutoscaler"
    } else if str_eq(t, "Batch Workloads") {
        "Job"
    } else if str_eq(t, "Security Configuration") {
        "NetworkPolicy"
    } else if str_eq(t, "Policy & Governance") {
        "ResourceQuota"
    } else if str_eq(t, "Observability") {
        "Observability"
    } else if str_eq(t, "Namespace") {
        "Namespace"
    } else if str_eq(t, "Certificates") {
        "Certificate"
    } else if str_eq(t, "Upgrade Readiness") {
        "Node"
    } else {
        "Other"
    }
}

/// A resource name in backticks.
pub open spec fn backticked(r: Seq<char>) -> Seq<char> {
    "`"@ + r + "`"@
}

/// Resources in backticks, one per line (Markdown line break `"  \n"`).
pub open spec fn affected_spec(rs: Seq<Seq<char>>) -> Seq<char>
    decreases rs.len(),
{
    if rs.len() == 0 {
        seq![]
    } else if rs.len() == 1 {
        backticked(rs[0])
    } else {
        affected_spec(rs.drop_last()) + "  \n"@ + backticked(rs.last())
    }
}

/// Formats affected resources for a table cell: one per line.
pub fn format_affected_resources(resources: &[String]) -> (r: String)
    ensures
        r@ == affected_spec(resources@.map_values(|s: String| s@)),
{
    let ghost rv = resources@.map_values(|s: String| s@);
    let mut out = String::new();
    let mut i: usize = 0;
    while i < resources.len()
        invariant
            rv == resources@.map_values(|s: String| s@),
            i <= resources.len(),
            out@ == affected_spec(rv.take(i as int)),
        decreases resources.len() - i,
    {
        proof {
            assert(rv.take(i as int + 1).drop_last() =~= rv.take(i as int));
            assert(rv.take(i as int + 1).last() == resources@[i as int]@);
        }
        if i > 0 {
            push_str(&mut out, "  \n");
        }
        push_str(&mut out, "`");
        push_str(&mut out, resources[i].as_str());
        push_str(&mut out, "`");
        proof {
            if i == 0 {
                assert(rv.take(1)[0] == resources@[0]@);
            }
            assert(out@ =~= affected_spec(rv.take(i as int + 1)));
        }
        i = i + 1;
    }
    proof {
        assert(rv.take(resources.len() as int) =~= rv);
    }
    out
}

// ---------------------------------------------------------------------------
// Mounts and devices
// ---------------------------------------------------------------------------

/// Host view of a pod-mounted path: `/host` is `/`, `/host/x` is `/x`.
pub open spec fn host_path_spec(p: Seq<char>) -> Seq<char> {
    if p == "/host"@ {
        "/"@
    } else if starts_with(p, "/host/"@) {
        p.skip(5)
    } else {
        p
    }
}

/// Converts a pod-mounted path to the host perspective.
pub fn host_path_display(path: &str) -> (r: String)
    ensures
        r@ == host_path_spec(path@),
{
    proof {
        reveal_strlit("/host/");
    }
    let v = chars_of(path);
    if eq_str(&v, "/host") {
        return owned("/");
    }
    if starts_with_str(&v, "/host/") {
        let rest = sub_vec(&v, 5, v.len());
        return string_of(&rest);
    }
    owned(path)
}

/// Directory depth of a mount point: `/` is 0, `/data` is 1, `/data/disk1` is 2.
pub open spec fn mount_depth_spec(mp: Seq<char>) -> nat {
    if mp == "/"@ {
        0
    } else {
        split(trim_start_char(mp, '/'), '/').len()
    }
}

/// Directory depth of a mount point (used for ordering only).
pub fn mount_depth(mp: &str) -> (r: usize)
    ensures
        r == mount_depth_spec(mp@),
{
    let v = chars_of(mp);
    if eq_str(&v, "/") {
        return 0;
    }
    let mut i: usize = 0;
    proof {
        assert(v@.skip(0) =~= v@);
    }
    while i < v.len() && v[i] == '/'
        invariant
            v@ == mp@,
            i <= v.len(),
            trim_start_char(mp@, '/') == trim_start_char(v@.skip(i as int), '/'),
        decreases v.len() - i,
    {
        proof {
            assert(v@.skip(i as int).drop_first() =~= v@.skip(i as int + 1));
        }
        i = i + 1;
    }
    let rest = sub_vec(&v, i, v.len());
    proof {
        assert(rest@ =~= v@.skip(i as int));
    }
    let parts = split_vec(&rest, '/');
    parts.len()
}

/// `s` without its trailing run of decimal digits.
pub open spec fn trim_end_digits(s: Seq<char>) -> Seq<char>
    decreases s.len(),
{
    if s.len() > 0 && is_digit(s.last()) {
        trim_end_digits(s.drop_last())
    } else {
        s
    }
}

/// Whether the part of a device name after `/dev/` is a partition written
/// `<disk>p<N>` with the disk name ending in a digit (nvme0n1p1, mmcblk0p1).
pub open spec fn is_p_partition(base: Seq<char>) -> bool {
    match first_index_of(base, 'p') {
        Some(i) => {
            let head = base.take(i as int);
            let tail = base.skip(i as int);
            head.len() > 0 && is_digit(head.last()) && tail.len() > 1 && all_digits(tail.skip(1))
        },
        None => false,
    }
}

/// Disk name of a partition device (keeping `/dev/`): `/dev/sda1` -> `/dev/sda`,
/// `/dev/nvme0n1p1` -> `/dev/nvme0n1`; other devices are kept.
pub open spec fn normalize_device_spec(dev: Seq<char>) -> Seq<char> {
    if !starts_with(dev, "/dev/"@) {
        dev
    } else {
        let base = dev.skip(5);
        if is_p_partition(base) {
            "/dev/"@ + base.take(first_index_of(base, 'p').unwrap() as int)
        } else {
            let trimmed = trim_end_digits(base);
            if trimmed.len() > 0 && trimmed != base && (starts_with(trimmed, "sd"@) || starts_with(
                trimmed,
                "vd"@,
            ) || starts_with(trimmed, "hd"@) || starts_with(trimmed, "xvd"@)) {
                "/dev/"@ + trimmed
            } else {
                dev
            }
        }
    }
}

fn all_digits_from(v: &Vec<char>, a: usize) -> (r: bool)
    requires
        a <= v.len(),
    ensures
        r == all_digits(v@.skip(a as int)),
{
    let mut i: usize = a;
    while i < v.len()
        invariant
            a <= i <= v.len(),
            forall|k: int| a <= k < i ==> is_digit(v@[k]),
        decreases v.len() - i,
    {
        if !('0' <= v[i] && v[i] <= '9') {
            proof {
                assert(v@.skip(a as int)[i - a] == v@[i as int]);
            }
            return false;
        }
        i = i + 1;
    }
    proof {
        assert forall|k: int| 0 <= k < v@.skip(a as int).len() implies is_digit(
            #[trigger] v@.skip(a as int)[k],
        ) by {
            assert(v@.skip(a as int)[k] == v@[a + k]);
        }
    }
    true
}

/// Normalises a partition device name to its disk name (keeping `/dev/`).
pub fn normalize_device(dev: &str) -> (r: String)
    ensures
        r@ == normalize_device_spec(dev@),
{
    proof {
        reveal_strlit("/dev/");
    }
    let v = chars_of(dev);
    if !starts_with_str(&v, "/dev/") {
        return owned(dev);
    }
    let base = sub_vec(&v, 5, v.len());
    proof {
        assert(base@ =~= dev@.skip(5));
    }
    match find_first(&base, 'p') {
        Some(idx) => {
            let head = sub_vec(&base, 0, idx);
            let tail_len = base.len() - idx;
            proof {
                assert(head@ =~= base@.take(idx as int));
                assert(base@.skip(idx as int).skip(1) =~= base@.skip(idx + 1));
            }
            if head.len() > 0 && '0' <= head[head.len() - 1] && head[head.len() - 1] <= '9'
                && tail_len > 1 && all_digits_from(&base, idx + 1) {
                let mut out = String::new();
                push_str(&mut out, "/dev/");
                push_chars(&mut out, &head);
                return out;
            }
        },
        None => {},
    }
    proof {
        assert(!is_p_partition(base@));
    }
    let mut j: usize = base.len();
    proof {
        assert(base@.take(j as int) =~= base@);
    }
    while j > 0 && '0' <= base[j - 1] && base[j - 1] <= '9'
        invariant
            j <= base.len(),
            trim_end_digits(base@) == trim_end_digits(base@.take(j as int)),
        decreases j,
    {
        proof {
            assert(base@.take(j as int).drop_last() =~= base@.take(j - 1));
        }
        j = j - 1;
    }
    let trimmed = sub_vec(&base, 0, j);
    proof {
        assert(trimmed@ =~= base@.take(j as int));
        assert(trim_end_digits(base@) == trimmed@);
    }
    if trimmed.len() > 0 && j != base.len() && (starts_with_str(&trimmed, "sd") || starts_with_str(
        &trimmed,
        "vd",
    ) || starts_with_str(&trimmed, "hd") || starts_with_str(&trimmed, "xvd")) {
        proof {
            assert(trimmed@ != base@);
        }
        let mut out = String::new();
        push_str(&mut out, "/dev/");
        push_chars(&mut out, &trimmed);
        return out;
    }
    proof {
        if trimmed.len() > 0 && j == base.len() {
            assert(trimmed@ =~= base@);
        }
    }
    owned(dev)
}

// ---------------------------------------------------------------------------
// Anchors
// ---------------------------------------------------------------------------

pub open spec fn ascii_lower(c: char) -> char {
    if 'A' <= c && c <= 'Z' {
        ((c as u32) + 32) as char
    } else {
        c
    }
}

/// Slug before stripping dashes at the ends: ASCII letters and digits
/// (lower-cased); a space or dash becomes `-` unless one was just written.
pub open spec fn slug_raw(s: Seq<char>) -> Seq<char>
    decreases s.len(),
{
    if s.len() == 0 {
        seq![]
    } else {
        let p = slug_raw(s.drop_last());
        let c = s.last();
        if is_ascii_alnum(c) {
            p.push(ascii_lower(c))
        } else if (c == ' ' || c == '-') && !(p.len() > 0 && p.last() == '-') {
            p.push('-')
        } else {
            p
        }
    }
}

/// `s` without dashes at either end.
pub open spec fn trim_dashes(s: Seq<char>) -> Seq<char> {
    trim_end_char(trim_start_char(s, '-'), '-')
}

/// Markdown anchor slug of a title ("Node Health" -> "node-health").
pub fn slugify(s: &str) -> (r: String)
    ensures
        r@ == trim_dashes(slug_raw(s@)),
{
    let v = chars_of(s);
    let mut raw: Vec<char> = Vec::new();
    let mut i: usize = 0;
    while i < v.len()
        invariant
            v@ == s@,
            i <= v.len(),
            raw@ == slug_raw(v@.take(i as int)),
        decreases v.len() - i,
    {
        proof {
            assert(v@.take(i as int + 1).drop_last() =~= v@.take(i as int));
            assert(v@.take(i as int + 1).last() == v@[i as int]);
        }
        let c = v[i];
        if ('0' <= c && c <= '9') || ('a' <= c && c <= 'z') || ('A' <= c && c <= 'Z') {
            let lower = if 'A' <= c && c <= 'Z' {
                ((c as u32 + 32) as u8) as char
            } else {
                c
            };
            proof {
                if 'A' <= c && c <= 'Z' {
                    assert(((c as u32 + 32) as u8) as char == ascii_lower(c));
                }
            }
            raw.push(lower);
        } else if (c == ' ' || c == '-') && !(raw.len() > 0 && raw[raw.len() - 1] == '-') {
            raw.push('-');
        }
        i = i + 1;
    }
    proof {
        assert(v@.take(v.len() as int) =~= v@);
    }
    // strip dashes at both ends
    let mut a: usize = 0;
    proof {
        assert(raw@.skip(0) =~= raw@);
    }
    while a < raw.len() && raw[a] == '-'
        invariant
            a <= raw.len(),
            trim_start_char(raw@, '-') == trim_start_char(raw@.skip(a as int), '-'),
        decreases raw.len() - a,
    {
        proof {
            assert(raw@.skip(a as int).drop_first() =~= raw@.skip(a as int + 1));
        }
        a = a + 1;
    }
    let mid = sub_vec(&raw, a, raw.len());
    proof {
        assert(mid@ =~= raw@.skip(a as int));
    }
    let mut b: usize = mid.len();
    proof {
        assert(mid@.take(b as int) =~= mid@);
    }
    while b > 0 && mid[b - 1] == '-'
        invariant
            b <= mid.len(),
            trim_end_char(mid@, '-') == trim_end_char(mid@.take(b as int), '-'),
        decreases b,
    {
        proof {
            assert(mid@.take(b as int).drop_last() =~= mid@.take(b - 1));
        }
        b = b - 1;
    }
    let res = sub_vec(&mid, 0, b);
    proof {
        assert(res@ =~= mid@.take(b as int));
    }
    string_of(&res)
}

// ---------------------------------------------------------------------------
// The generator's labels
// ---------------------------------------------------------------------------

/// Markdown report generator for a report language.
pub struct ReportGenerator {
    scoring_engine: ScoringEngine,
    lang: Lang,
}

impl ReportGenerator {
    /// The generator's report language.
    pub closed spec fn language(&self) -> Lang {
        self.lang
    }

    /// Creates a generator using the default report language (Chinese).
    pub fn new() -> (r: Self)
        ensures
            r.language() == Lang::Zh,
    {
        Self::with_lang(Lang::Zh)
    }

    /// Creates a generator for a specific report language.
    pub fn with_lang(lang: Lang) -> (r: Self)
        ensures
            r.language() == lang,
    {
        ReportGenerator { scoring_engine: ScoringEngine::new(), lang }
    }

    /// Report language in use.
    pub fn lang(&self) -> (r: Lang)
        ensures
            r == self.language(),
    {
        self.lang
    }

    /// Health status label in the configured language.
    pub fn health_label(&self, status: &HealthStatus) -> (r: &'static str)
        ensures
            r@ == health_label_spec(self.language(), *status),
    {
        self.lang.health_label(status)
    }

    /// Issue severity label in the configured language.
    pub fn severity_label(&self, severity: &IssueSeverity) -> (r: &'static str)
        ensures
            r@ == severity_label_spec(self.language(), *severity),
    {
        self.lang.severity_label(severity)
    }

    /// `enabled` / `disabled` / `None` cell for the node service table.
    pub fn service_status_label(&self, v: Option<bool>) -> (r: &'static str)
        ensures
            r@ == (match (self.language(), v) {
                (Lang::En, Some(true)) => "enabled"@,
                (Lang::En, Some(false)) => "disabled"@,
                (Lang::En, None) => "None"@,
                (Lang::Zh, Some(true)) => "已启用"@,
                (Lang::Zh, Some(false)) => "已禁用"@,
                (Lang::Zh, None) => "无"@,
            }),
    {
        match (self.lang, v) {
            (Lang::En, Some(true)) => "enabled",
            (Lang::En, Some(false)) => "disabled",
            (Lang::En, None) => "None",
            (Lang::Zh, Some(true)) => "已启用",
            (Lang::Zh, Some(false)) => "已禁用",
            (Lang::Zh, None) => "无",
        }
    }

    /// `Yes` / `No` / `-` cell for boolean columns.
    pub fn yes_no_label(&self, v: Option<bool>) -> (r: &'static str)
        ensures
            r@ == (match (self.language(), v) {
                (Lang::En, Some(true)) => "Yes"@,
                (Lang::En, Some(false)) => "No"@,
                (Lang::Zh, Some(true)) => "是"@,
                (Lang::Zh, Some(false)) => "否"@,
                (_, None) => "-"@,
            }),
    {
        match (self.lang, v) {
            (Lang::En, Some(true)) => "Yes",
            (Lang::En, Some(false)) => "No",
            (Lang::Zh, Some(true)) => "是",
            (Lang::Zh, Some(false)) => "否",
            (_, None) => "-",
        }
    }

    /// Cluster name as displayed: the generic name "kubernetes" (in any
    /// case; the kubeadm/minikube default) is shown as "default"; any other
    /// name is shown as it is.
    pub fn cluster_display_name(&self, cluster_name: &str) -> (r: String)
        ensures
            r@ == (if lower_text(cluster_name@) == "kubernetes"@ {
                "default"@
            } else {
                cluster_name@
            }),
    {
        let low = to_lowercase(cluster_name);
        display_name_for(cluster_name, low.as_str())
    }
}

/// The cluster name as displayed, given its lower-case form: "default" for
/// the generic name "kubernetes", the name itself otherwise.
pub fn display_name_for(name: &str, low: &str) -> (r: String)
    ensures
        r@ == (if low@ == "kubernetes"@ {
            "default"@
        } else {
            name@
        }),
{
    if str_eq(low, "kubernetes") {
        owned("default")
    } else {
        owned(name)
    }
}


// ---------------------------------------------------------------------------
// Node inspection section
// ---------------------------------------------------------------------------

/// Overall status of a node's inspection: `error` when one of its records
/// is in error, else `warning` when one warns or issues were counted, else
/// `ok`.
pub open spec fn node_status_spec(statuses: Seq<Seq<char>>, issue_count: u32) -> Seq<char> {
    if exists|i: int| 0 <= i < statuses.len() && #[trigger] statuses[i] == "error"@ {
        "error"@
    } else if (exists|i: int| 0 <= i < statuses.len() && #[trigger] statuses[i] == "warning"@) || issue_count > 0 {
        "warning"@
    } else {
        "ok"@
    }
}

/// Status of a node's inspection from the statuses of its resource,
/// service, security and kernel records and its issue count.
pub fn node_inspection_status(statuses: &Vec<String>, issue_count: u32) -> (r: &'static str)
    ensures
        r@ == node_status_spec(statuses@.map_values(|s: String| s@), issue_count),
{
    let ghost sv = statuses@.map_values(|s: String| s@);
    let mut err = false;
    let mut warn = false;
    let mut i: usize = 0;
    while i < statuses.len()
        invariant
            i <= statuses.len(),
            sv == statuses@.map_values(|s: String| s@),
            err == exists|k: int| 0 <= k < i && #[trigger] sv[k] == "error"@,
            warn == exists|k: int| 0 <= k < i && #[trigger] sv[k] == "warning"@,
        decreases statuses.len() - i,
    {
        proof {
            assert(sv[i as int] == statuses@[i as int]@);
        }
        if str_eq(statuses[i].as_str(), "error") {
            err = true;
        }
        if str_eq(statuses[i].as_str(), "warning") {
            warn = true;
        }
        i = i + 1;
    }
    if err {
        "error"
    } else if warn || issue_count > 0 {
        "warning"
    } else {
        "ok"
    }
}

/// Readiness shown for a `Ready` condition value.
pub fn readiness_label(ready: &str) -> (r: &'static str)
    ensures
        r@ == if ready@ == "True"@ {
            "Ready"@
        } else if ready@ == "False"@ {
            "NotReady"@
        } else {
            "Unknown"@
        },
{
    if str_eq(ready, "True") {
        "Ready"
    } else if str_eq(ready, "False") {
        "NotReady"
    } else {
        "Unknown"
    }
}

pub open spec fn first_some(a: Option<Seq<char>>, b: Option<Seq<char>>) -> Seq<char> {
    match a {
        Some(x) => x,
        None => match b {
            Some(y) => y,
            None => "-"@,
        },
    }
}

/// A row of the node general information table: node, OS version (from the
/// API, else from the node), address, kernel (likewise), uptime, collection
/// time; `-` for what is unknown.
pub fn general_info_row(
    node: &str,
    api_os: Option<&str>,
    node_os: Option<&str>,
    address: Option<&str>,
    api_kernel: Option<&str>,
    node_kernel: Option<&str>,
    uptime: Option<&str>,
    timestamp: &str,
) -> (r: String)
    ensures
        r@ == "| "@ + node@ + " | "@ + first_some(opt_str_view(api_os), opt_str_view(node_os)) + " | "@
            + first_some(opt_str_view(address), None) + " | "@ + first_some(
            opt_str_view(api_kernel),
            opt_str_view(node_kernel),
        ) + " | "@ + first_some(opt_str_view(uptime), None) + " | "@ + (if timestamp@.len() == 0 {
            "-"@
        } else {
            timestamp@
        }) + " |\n"@,
{
    let os = match api_os {
        Some(x) => x,
        None => match node_os {
            Some(y) => y,
            None => "-",
        },
    };
    let ip = match address {
        Some(x) => x,
        None => "-",
    };
    let kernel = match api_kernel {
        Some(x) => x,
        None => match node_kernel {
            Some(y) => y,
            None => "-",
        },
    };
    let up = match uptime {
        Some(x) => x,
        None => "-",
    };
    let ts = if timestamp.is_empty() {
        "-"
    } else {
        timestamp
    };
    let mut s = owned("| ");
    push_str(&mut s, node);
    push_str(&mut s, " | ");
    push_str(&mut s, os);
    push_str(&mut s, " | ");
    push_str(&mut s, ip);
    push_str(&mut s, " | ");
    push_str(&mut s, kernel);
    push_str(&mut s, " | ");
    push_str(&mut s, up);
    push_str(&mut s, " | ");
    push_str(&mut s, ts);
    push_str(&mut s, " |\n");
    s
}


/// Whether a filter shows checks of a status.
pub open spec fn filter_shows(f: CheckLevelFilter, s: CheckStatus) -> bool {
    match f {
        CheckLevelFilter::All => true,
        CheckLevelFilter::Only { statuses, .. } => statuses@.contains(s),
    }
}

proof fn lemma_levels_contain(parts: Seq<Seq<char>>, k: int, s: CheckStatus)
    requires
        0 <= k < parts.len(),
        level_of(trim(parts[k])) == Some(s),
    ensures
        levels(parts).contains(s),
    decreases parts.len(),
{
    if k == parts.len() - 1 {
        let prev = levels(parts.drop_last());
        assert(levels(parts) == prev.push(s));
        assert(levels(parts)[prev.len() as int] == s);
    } else {
        assert(parts.drop_last()[k] == parts[k]);
        lemma_levels_contain(parts.drop_last(), k, s);
        let prev = levels(parts.drop_last());
        let i = choose|i: int| 0 <= i < prev.len() && prev[i] == s;
        match level_of(trim(parts.last())) {
            Some(l) => {
                assert(levels(parts) == prev.push(l));
                assert(levels(parts)[i] == s);
            },
            None => {},
        }
    }
}

/// Each level word names its own status: a level list with the word
/// `pass` (`warning`, `critical`, `error`) gives a filter that shows
/// checks with status Pass (Warning, Critical, Error).
pub proof fn law_level_words_name_their_status(s: Seq<char>, f: CheckLevelFilter, k: int)
    requires
        parsed_filter(s, f),
        0 <= k < split(lower_text(trim(s)), ',').len(),
    ensures
        trim(split(lower_text(trim(s)), ',')[k]) == "pass"@ ==> filter_shows(f, CheckStatus::Pass),
        trim(split(lower_text(trim(s)), ',')[k]) == "warning"@ ==> filter_shows(f, CheckStatus::Warning),
        trim(split(lower_text(trim(s)), ',')[k]) == "critical"@ ==> filter_shows(f, CheckStatus::Critical),
        trim(split(lower_text(trim(s)), ',')[k]) == "error"@ ==> filter_shows(f, CheckStatus::Error),
{
    let t = lower_text(trim(s));
    let parts = split(t, ',');
    let w = trim(parts[k]);
    reveal_strlit("pass");
    reveal_strlit("warning");
    reveal_strlit("critical");
    reveal_strlit("error");
    assert("pass"@ != "warning"@ && "pass"@ != "critical"@ && "pass"@ != "error"@) by {
        assert("pass"@[0] != "warning"@[0] && "pass"@[0] != "critical"@[0] && "pass"@[0] != "error"@[0]);
    }
    assert("warning"@ != "critical"@ && "warning"@ != "error"@ && "critical"@ != "error"@) by {
        assert("warning"@[0] != "critical"@[0] && "warning"@[0] != "error"@[0] && "critical"@[0] != "error"@[0]);
    }
    match level_of(w) {
        Some(st) => {
            lemma_levels_contain(parts, k, st);
        },
        None => {},
    }
}


/// The level word of a status.
pub open spec fn word_of(st: CheckStatus) -> Seq<char> {
    match st {
        CheckStatus::Pass => "pass"@,
        CheckStatus::Warning => "warning"@,
        CheckStatus::Critical => "critical"@,
        CheckStatus::Error => "error"@,
    }
}

proof fn lemma_levels_from_words(parts: Seq<Seq<char>>)
    ensures
        forall|i: int|
            0 <= i < levels(parts).len() ==> exists|k: int|
                0 <= k < parts.len() && trim(#[trigger] parts[k]) == word_of(#[trigger] levels(parts)[i]),
    decreases parts.len(),
{
    if parts.len() > 0 {
        let prev = parts.drop_last();
        lemma_levels_from_words(prev);
        let lv = levels(parts);
        assert forall|i: int| 0 <= i < lv.len() implies exists|k: int|
            0 <= k < parts.len() && trim(#[trigger] parts[k]) == word_of(#[trigger] lv[i]) by {
            if i < levels(prev).len() {
                let k = choose|k: int| 0 <= k < prev.len() && trim(#[trigger] prev[k]) == word_of(levels(prev)[i]);
                match level_of(trim(parts.last())) {
                    Some(l) => assert(lv == levels(prev).push(l)),
                    None => assert(lv == levels(prev)),
                }
                assert(parts[k] == prev[k]);
            } else {
                let k = parts.len() - 1;
                assert(trim(parts[k]) == word_of(lv[i]));
            }
        }
    }
}

/// A filter parsed from a level list shows only what the list names: each
/// status it lists is named by a word of the list, or, when no word names
/// a status, it is the default Warning, Critical, Error.
pub proof fn law_level_filter_shows_only_named(s: Seq<char>, f: CheckLevelFilter)
    requires
        parsed_filter(s, f),
        f is Only,
    ensures
        ({
            let parts = split(lower_text(trim(s)), ',');
            let statuses = f->Only_statuses@;
            ||| statuses == seq![CheckStatus::Warning, CheckStatus::Critical, CheckStatus::Error]
            ||| forall|i: int|
                0 <= i < statuses.len() ==> exists|k: int|
                    0 <= k < parts.len() && trim(#[trigger] parts[k]) == word_of(#[trigger] statuses[i])
        }),
{
    lemma_levels_from_words(split(lower_text(trim(s)), ','));
}

} // verus!
