//! Command line and request vocabulary: commands, report formats,
//! inspection types, and the small decisions of the server around them.

use vstd::prelude::*;

use crate::utils::lang::Lang;
use crate::utils::text::{
    chars_of, ends_with, ends_with_str, has_char, lower_text, owned, push_str, str_eq, to_lowercase,
    trim_end_char,
};

verus! {

/// The parsed command line.
#[derive(Debug, Clone)]
pub struct Args {
    pub command: Commands,
}

/// The subcommands.
#[derive(Debug, Clone)]
pub enum Commands {
    /// Run an inspection and write a report.
    Check {
        cluster_name: Option<String>,
        namespace: Option<String>,
        node_inspector_namespace: String,
        output: Option<String>,
        format: ReportFormat,
        config_file: Option<String>,
        kubeconfig: Option<String>,
        level: String,
        lang: Lang,
        node_access_mode: String,
        node_inspector_port: u16,
    },
    /// Run the web server.
    Server {
        addr: String,
        web_base: String,
        config_file: Option<String>,
        kubeconfig: Option<String>,
        node_access_mode: Option<String>,
        node_inspector_port: Option<u16>,
    },
    /// Run the node inspector on a node.
    NodeInspector {
        addr: String,
    },
}

/// Report formats.
#[derive(Debug, Clone, Copy, PartialEq, Eq, Structural)]
pub enum ReportFormat {
    Md,
    Json,
    Csv,
    Html,
}

impl Default for ReportFormat {
    fn default() -> (r: Self)
        ensures
            r == ReportFormat::Md,
    {
        ReportFormat::Md
    }
}

pub open spec fn format_ext(f: ReportFormat) -> Seq<char> {
    match f {
        ReportFormat::Md => "md"@,
        ReportFormat::Json => "json"@,
        ReportFormat::Csv => "csv"@,
        ReportFormat::Html => "html"@,
    }
}

impl ReportFormat {
    /// File extension of the format.
    pub fn extension(&self) -> (r: &'static str)
        ensures
            r@ == format_ext(*self),
    {
        match self {
            ReportFormat::Md => "md",
            ReportFormat::Json => "json",
            ReportFormat::Csv => "csv",
            ReportFormat::Html => "html",
        }
    }
}

/// Inspection modules that can be asked for.
#[derive(Debug, Clone, Copy, PartialEq, Eq, Structural)]
pub enum InspectionType {
    All,
    Nodes,
    Pods,
    Resources,
    Network,
    Storage,
    Security,
    ControlPlane,
    Autoscaling,
    Batch,
    Policies,
    Observability,
    Upgrade,
    Certificates,
}

/// The inspection type named by a lower-cased word, with its aliases.
pub open spec fn type_of_word(t: Seq<char>) -> Option<InspectionType> {
    if t == "all"@ {
        Some(InspectionType::All)
    } else if t == "nodes"@ {
        Some(InspectionType::Nodes)
    } else if t == "pods"@ {
        Some(InspectionType::Pods)
    } else if t == "resources"@ {
        Some(InspectionType::Resources)
    } else if t == "network"@ {
        Some(InspectionType::Network)
    } else if t == "storage"@ {
        Some(InspectionType::Storage)
    } else if t == "security"@ {
        Some(InspectionType::Security)
    } else if t == "control"@ || t == "control-plane"@ {
        Some(InspectionType::ControlPlane)
    } else if t == "autoscaling"@ || t == "hpa"@ {
        Some(InspectionType::Autoscaling)
    } else if t == "batch"@ || t == "cron"@ {
        Some(InspectionType::Batch)
    } else if t == "policies"@ || t == "policy"@ {
        Some(InspectionType::Policies)
    } else if t == "observability"@ || t == "monitoring"@ {
        Some(InspectionType::Observability)
    } else if t == "upgrade"@ || t == "upgrade-readiness"@ {
        Some(InspectionType::Upgrade)
    } else if t == "certificates"@ || t == "certificate"@ || t == "csr"@ {
        Some(InspectionType::Certificates)
    } else {
        None
    }
}

/// The inspection type a lower-case word names (see [`type_of_word`]).
pub fn inspection_type_of_word(t: &str) -> (r: Option<InspectionType>)
    ensures
        r == type_of_word(t@),
{
    if str_eq(t, "all") {
        Some(InspectionType::All)
    } else if str_eq(t, "nodes") {
        Some(InspectionType::Nodes)
    } else if str_eq(t, "pods") {
        Some(InspectionType::Pods)
    } else if str_eq(t, "resources") {
        Some(InspectionType::Resources)
    } else if str_eq(t, "network") {
        Some(InspectionType::Network)
    } else if str_eq(t, "storage") {
        Some(InspectionType::Storage)
    } else if str_eq(t, "security") {
        Some(InspectionType::Security)
    } else if str_eq(t, "control") || str_eq(t, "control-plane") {
        Some(InspectionType::ControlPlane)
    } else if str_eq(t, "autoscaling") || str_eq(t, "hpa") {
        Some(InspectionType::Autoscaling)
    } else if str_eq(t, "batch") || str_eq(t, "cron") {
        Some(InspectionType::Batch)
    } else if str_eq(t, "policies") || str_eq(t, "policy") {
        Some(InspectionType::Policies)
    } else if str_eq(t, "observability") || str_eq(t, "monitoring") {
        Some(InspectionType::Observability)
    } else if str_eq(t, "upgrade") || str_eq(t, "upgrade-readiness") {
        Some(InspectionType::Upgrade)
    } else if str_eq(t, "certificates") || str_eq(t, "certificate") || str_eq(t, "csr") {
        Some(InspectionType::Certificates)
    } else {
        None
    }
}

impl InspectionType {
    /// Parses an inspection type (any case); the error names the unknown
    /// word.
    pub fn parse(s: &str) -> (r: Result<InspectionType, String>)
        ensures
            match type_of_word(lower_text(s@)) {
                Some(t) => r == Ok::<InspectionType, String>(t),
                None => r is Err && r->Err_0@ == "Unknown inspection type: "@ + s@,
            },
    {
        let low = to_lowercase(s);
        match inspection_type_of_word(low.as_str()) {
            Some(t) => Ok(t),
            None => {
                let mut e = owned("Unknown inspection type: ");
                push_str(&mut e, s);
                Err(e)
            },
        }
    }

    /// All inspection types, in declaration order.
    pub fn variants() -> (r: Vec<InspectionType>)
        ensures
            r@ == seq![
                InspectionType::All,
                InspectionType::Nodes,
                InspectionType::Pods,
                InspectionType::Resources,
                InspectionType::Network,
                InspectionType::Storage,
                InspectionType::Security,
                InspectionType::ControlPlane,
                InspectionType::Autoscaling,
                InspectionType::Batch,
                InspectionType::Policies,
                InspectionType::Observability,
                InspectionType::Upgrade,
                InspectionType::Certificates,
            ],
    {
        vec![
            InspectionType::All,
            InspectionType::Nodes,
            InspectionType::Pods,
            InspectionType::Resources,
            InspectionType::Network,
            InspectionType::Storage,
            InspectionType::Security,
            InspectionType::ControlPlane,
            InspectionType::Autoscaling,
            InspectionType::Batch,
            InspectionType::Policies,
            InspectionType::Observability,
            InspectionType::Upgrade,
            InspectionType::Certificates,
        ]
    }
}

/// Output path of a report: the given path, or
/// `kubernetes-inspection-report-<timestamp>.<ext>`; a path without an
/// extension (no `.`, or ending in `.`) gets the format's extension, after
/// its trailing dots are removed.
pub open spec fn output_path_spec(path: Option<Seq<char>>, timestamp: Seq<char>, ext: Seq<char>) -> Seq<char> {
    let p = match path {
        Some(p) => p,
        None => "kubernetes-inspection-report-"@ + timestamp + "."@ + ext,
    };
    if ends_with(p, "."@) || !p.contains('.') {
        trim_end_char(p, '.') + "."@ + ext
    } else {
        p
    }
}

pub fn output_path_with_extension(path: Option<String>, timestamp: &str, format: ReportFormat) -> (r: String)
    ensures
        r@ == output_path_spec(
            match path {
                Some(p) => Some(p@),
                None => None,
            },
            timestamp@,
            format_ext(format),
        ),
{
    let ext = format.extension();
    let p = match path {
        Some(p) => p,
        None => {
            let mut d = owned("kubernetes-inspection-report-");
            push_str(&mut d, timestamp);
            push_str(&mut d, ".");
            push_str(&mut d, ext);
            d
        },
    };
    let pv = chars_of(p.as_str());
    if ends_with_str(&pv, ".") || !has_char(&pv, '.') {
        let mut n: usize = pv.len();
        proof {
            assert(pv@.take(n as int) =~= pv@);
        }
        while n > 0 && pv[n - 1] == '.'
            invariant
                n <= pv.len(),
                trim_end_char(pv@, '.') == trim_end_char(pv@.take(n as int), '.'),
            decreases n,
        {
            proof {
                assert(pv@.take(n as int).drop_last() =~= pv@.take(n - 1));
            }
            n = n - 1;
        }
        let mut out = String::new();
        let mut i: usize = 0;
        while i < n
            invariant
                i <= n <= pv.len(),
                out@ == pv@.take(i as int),
            decreases n - i,
        {
            crate::utils::text::push_char(&mut out, pv[i]);
            proof {
                assert(pv@.take(i as int + 1) =~= pv@.take(i as int).push(pv@[i as int]));
            }
            i = i + 1;
        }
        push_str(&mut out, ".");
        push_str(&mut out, ext);
        out
    } else {
        p
    }
}

} // verus!
