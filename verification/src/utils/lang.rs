//! Report internationalization: English (`en`) and Chinese (`zh`, default).
//!
//! Label lookups, the language switch for paired message templates, and the
//! runtime template formatter used for localized report text.

use std::borrow::Cow;

use vstd::prelude::*;

use crate::utils::status::{CheckStatus, HealthStatus, IssueSeverity};
use crate::utils::text::{chars_of, push_char, push_chars, push_str, str_eq, sub_vec};

verus! {

/// Report language. Chinese is the default.
#[derive(Debug, Clone, Copy, PartialEq, Eq, Structural)]
pub enum Lang {
    /// Chinese (default)
    Zh,
    /// English
    En,
}

impl Default for Lang {
    fn default() -> (r: Lang)
        ensures
            r == Lang::Zh,
    {
        Lang::Zh
    }
}


impl Lang {
    /// Short code of the language (`zh` / `en`), as it is displayed.
    pub fn code(&self) -> (r: &'static str)
        ensures
            r@ == (match self {
                Lang::Zh => "zh"@,
                Lang::En => "en"@,
            }),
    {
        match self {
            Lang::Zh => "zh",
            Lang::En => "en",
        }
    }

    /// `lang` attribute for the HTML document.
    pub fn html_lang(&self) -> (r: &'static str)
        ensures
            r@ == (match self {
                Lang::Zh => "zh-CN"@,
                Lang::En => "en"@,
            }),
    {
        match self {
            Lang::Zh => "zh-CN",
            Lang::En => "en",
        }
    }

    /// HTML `<title>` text.
    pub fn html_title(&self) -> (r: &'static str)
        ensures
            r@ == (match self {
                Lang::Zh => "kubernetes 巡检报告"@,
                Lang::En => "kubernetes Report"@,
            }),
    {
        match self {
            Lang::Zh => "kubernetes 巡检报告",
            Lang::En => "kubernetes Report",
        }
    }

    /// Issue severity label.
    pub fn severity_label(&self, severity: &IssueSeverity) -> (r: &'static str)
        ensures
            r@ == severity_label_spec(*self, *severity),
    {
        match self {
            Lang::En => match severity {
                IssueSeverity::Critical => "Critical",
                IssueSeverity::Warning => "Warning",
                IssueSeverity::Info => "Info",
            },
            Lang::Zh => match severity {
                IssueSeverity::Critical => "严重",
                IssueSeverity::Warning => "警告",
                IssueSeverity::Info => "信息",
            },
        }
    }

    /// Health status label.
    pub fn health_label(&self, status: &HealthStatus) -> (r: &'static str)
        ensures
            r@ == health_label_spec(*self, *status),
    {
        match self {
            Lang::En => match status {
                HealthStatus::Excellent => "Excellent",
                HealthStatus::Good => "Good",
                HealthStatus::Fair => "Fair",
                HealthStatus::Poor => "Poor",
                HealthStatus::Critical => "Critical",
            },
            Lang::Zh => match status {
                HealthStatus::Excellent => "优秀",
                HealthStatus::Good => "良好",
                HealthStatus::Fair => "一般",
                HealthStatus::Poor => "较差",
                HealthStatus::Critical => "严重",
            },
        }
    }

    /// Check status cell text (emoji + label).
    pub fn check_status_text(&self, status: &CheckStatus) -> (r: &'static str)
        ensures
            r@ == check_status_text_spec(*self, *status),
    {
        match self {
            Lang::En => match status {
                CheckStatus::Pass => "✅ Pass",
                CheckStatus::Warning => "⚠️ Warning",
                CheckStatus::Critical => "❌ Critical",
                CheckStatus::Error => "💥 Error",
            },
            Lang::Zh => match status {
                CheckStatus::Pass => "✅ 通过",
                CheckStatus::Warning => "⚠️ 警告",
                CheckStatus::Critical => "❌ 严重",
                CheckStatus::Error => "💥 错误",
            },
        }
    }

    /// Picks the English or the Chinese variant of a message.
    pub fn t<'a>(&self, en: &'a str, zh: &'a str) -> (r: &'a str)
        ensures
            r@ == pick(*self, en@, zh@),
    {
        match self {
            Lang::En => en,
            Lang::Zh => zh,
        }
    }

    /// Localized container-usage "Note" cell for a `notable_reason` value.
    pub fn container_note<'a>(&self, reason: &'a str) -> (r: Cow<'a, str>)
        ensures
            r@ == (match self {
                Lang::En => reason@,
                Lang::Zh => container_note_zh(reason@),
            }),
    {
        if let Lang::En = self {
            return Cow::Borrowed(reason);
        }
        if str_eq(reason, "high_usage") {
            return Cow::Borrowed("高使用率");
        }
        if str_eq(reason, "low_usage") {
            return Cow::Borrowed("低使用率");
        }
        if str_eq(reason, "no_request_no_limit") {
            return Cow::Borrowed("无请求");
        }
        Cow::Borrowed(reason)
    }

    /// Localized node-condition cell ("True" / "False" / "Unknown").
    pub fn condition_value<'a>(&self, v: &'a str) -> (r: Cow<'a, str>)
        ensures
            r@ == (match self {
                Lang::En => v@,
                Lang::Zh => condition_value_zh(v@),
            }),
    {
        if let Lang::En = self {
            return Cow::Borrowed(v);
        }
        if str_eq(v, "True") {
            return Cow::Borrowed("是");
        }
        if str_eq(v, "False") {
            return Cow::Borrowed("否");
        }
        if str_eq(v, "Unknown") {
            return Cow::Borrowed("未知");
        }
        Cow::Borrowed(v)
    }

    /// Localized SELinux mode ("Enforcing" / "Permissive" / "Disabled").
    pub fn selinux_mode<'a>(&self, v: &'a str) -> (r: Cow<'a, str>)
        ensures
            r@ == (match self {
                Lang::En => v@,
                Lang::Zh => selinux_mode_zh(v@),
            }),
    {
        if let Lang::En = self {
            return Cow::Borrowed(v);
        }
        if str_eq(v, "Enforcing") {
            return Cow::Borrowed("强制模式");
        }
        if str_eq(v, "Permissive") {
            return Cow::Borrowed("宽容模式");
        }
        if str_eq(v, "Disabled") {
            return Cow::Borrowed("已禁用");
        }
        Cow::Borrowed(v)
    }

    /// Localized node condition type, used inside issue descriptions.
    pub fn condition_type_name<'a>(&self, t: &'a str) -> (r: Cow<'a, str>)
        ensures
            r@ == (match self {
                Lang::En => t@,
                Lang::Zh => condition_type_name_zh(t@),
            }),
    {
        if let Lang::En = self {
            return Cow::Borrowed(t);
        }
        if str_eq(t, "Ready") {
            return Cow::Borrowed("就绪");
        }
        if str_eq(t, "MemoryPressure") {
            return Cow::Borrowed("内存压力");
        }
        if str_eq(t, "DiskPressure") {
            return Cow::Borrowed("磁盘压力");
        }
        if str_eq(t, "PIDPressure") {
            return Cow::Borrowed("PID 压力");
        }
        Cow::Borrowed(t)
    }

    /// Localized check name; unknown names fall back to the original.
    pub fn check_name<'a>(&self, name: &'a str) -> (r: Cow<'a, str>)
        ensures
            r@ == (match self {
                Lang::En => name@,
                Lang::Zh => check_name_zh(name@),
            }),
    {
        if let Lang::En = self {
            return Cow::Borrowed(name);
        }
        if str_eq(name, "Node Readiness") {
            return Cow::Borrowed("节点就绪");
        }
        if str_eq(name, "Node Pressure") {
            return Cow::Borrowed("节点压力");
        }
        if str_eq(name, "Node process health") {
            return Cow::Borrowed("节点进程健康");
        }
        if str_eq(name, "Pod Health") {
            return Cow::Borrowed("Pod 健康");
        }
        if str_eq(name, "Pod Stability") {
            return Cow::Borrowed("Pod 稳定性");
        }
        if str_eq(name, "Resource Requests") {
            return Cow::Borrowed("资源请求");
        }
        if str_eq(name, "Resource Limits") {
            return Cow::Borrowed("资源限制");
        }
        if str_eq(name, "Complete Resource Configuration") {
            return Cow::Borrowed("完整资源配置");
        }
        if str_eq(name, "DNS Configuration") {
            return Cow::Borrowed("DNS 配置");
        }
        if str_eq(name, "Service Configuration") {
            return Cow::Borrowed("服务配置");
        }
        if str_eq(name, "Network Policy Coverage") {
            return Cow::Borrowed("网络策略覆盖率");
        }
        if str_eq(name, "Persistent Volume Health") {
            return Cow::Borrowed("持久卷健康");
        }
        if str_eq(name, "PVC Binding") {
            return Cow::Borrowed("PVC 绑定");
        }
        if str_eq(name, "Storage Class Configuration") {
            return Cow::Borrowed("存储类配置");
        }
        if str_eq(name, "RBAC Configuration") {
            return Cow::Borrowed("RBAC 配置");
        }
        if str_eq(name, "Pod Security Standards") {
            return Cow::Borrowed("Pod 安全标准");
        }
        if str_eq(name, "Service Account Usage") {
            return Cow::Borrowed("服务账号使用");
        }
        if str_eq(name, "Component Status") {
            return Cow::Borrowed("组件状态");
        }
        if str_eq(name, "Control Plane Pods") {
            return Cow::Borrowed("控制平面 Pod");
        }
        if str_eq(name, "Horizontal Pod Autoscalers") {
            return Cow::Borrowed("水平 Pod 自动伸缩");
        }
        if str_eq(name, "CronJobs") {
            return Cow::Borrowed("CronJobs");
        }
        if str_eq(name, "Jobs") {
            return Cow::Borrowed("Jobs");
        }
        if str_eq(name, "Resource Quotas") {
            return Cow::Borrowed("资源配额");
        }
        if str_eq(name, "Limit Ranges") {
            return Cow::Borrowed("LimitRange");
        }
        if str_eq(name, "Pod Disruption Budgets") {
            return Cow::Borrowed("Pod 中断预算 (PDB)");
        }
        if str_eq(name, "Metrics Pipeline") {
            return Cow::Borrowed("指标管道");
        }
        if str_eq(name, "Cluster DNS (CoreDNS)") {
            return Cow::Borrowed("集群 DNS (CoreDNS)");
        }
        if str_eq(name, "Logging Stack") {
            return Cow::Borrowed("日志栈");
        }
        if str_eq(name, "Monitoring & Alerting") {
            return Cow::Borrowed("监控与告警");
        }
        if str_eq(name, "TLS certificate expiry") {
            return Cow::Borrowed("TLS 证书过期");
        }
        if str_eq(name, "CertificateSigningRequests") {
            return Cow::Borrowed("证书签名请求 (CSR)");
        }
        if str_eq(name, "Namespace summary") {
            return Cow::Borrowed("命名空间摘要");
        }
        Cow::Borrowed(name)
    }

    /// Localized inspection module name.
    pub fn inspection_type_name<'a>(&self, name: &'a str) -> (r: Cow<'a, str>)
        ensures
            r@ == (match self {
                Lang::En => name@,
                Lang::Zh => inspection_type_name_zh(name@),
            }),
    {
        if let Lang::En = self {
            return Cow::Borrowed(name);
        }
        if str_eq(name, "Node Health") {
            return Cow::Borrowed("节点健康");
        }
        if str_eq(name, "Node Inspection") {
            return Cow::Borrowed("节点巡检");
        }
        if str_eq(name, "Pod Status") {
            return Cow::Borrowed("Pod 状态");
        }
        if str_eq(name, "Security Configuration") {
            return Cow::Borrowed("安全配置");
        }
        if str_eq(name, "Resource Usage") {
            return Cow::Borrowed("资源使用");
        }
        if str_eq(name, "Network Connectivity") {
            return Cow::Borrowed("网络连通性");
        }
        if str_eq(name, "Storage") {
            return Cow::Borrowed("存储");
        }
        if str_eq(name, "Control Plane") {
            return Cow::Borrowed("控制平面");
        }
        if str_eq(name, "Autoscaling") {
            return Cow::Borrowed("自动伸缩");
        }
        if str_eq(name, "Batch Workloads") {
            return Cow::Borrowed("批处理工作负载");
        }
        if str_eq(name, "Policy & Governance") {
            return Cow::Borrowed("策略与治理");
        }
        if str_eq(name, "Observability") {
            return Cow::Borrowed("可观测性");
        }
        if str_eq(name, "Upgrade Readiness") {
            return Cow::Borrowed("升级就绪");
        }
        if str_eq(name, "Namespace") {
            return Cow::Borrowed("命名空间");
        }
        if str_eq(name, "Certificates") {
            return Cow::Borrowed("证书");
        }
        Cow::Borrowed(name)
    }

    /// Localized issue category name; falls back to the original.
    pub fn category_name<'a>(&self, category: &'a str) -> (r: Cow<'a, str>)
        ensures
            r@ == (match self {
                Lang::En => category@,
                Lang::Zh => category_name_zh(category@),
            }),
    {
        if let Lang::En = self {
            return Cow::Borrowed(category);
        }
        if str_eq(category, "Container") {
            return Cow::Borrowed("容器");
        }
        if str_eq(category, "Pod") {
            return Cow::Borrowed("Pod");
        }
        if str_eq(category, "Node") {
            return Cow::Borrowed("节点");
        }
        if str_eq(category, "Service") {
            return Cow::Borrowed("服务");
        }
        if str_eq(category, "Deployment") {
            return Cow::Borrowed("Deployment");
        }
        if str_eq(category, "Namespace") {
            return Cow::Borrowed("命名空间");
        }
        if str_eq(category, "PersistentVolume") {
            return Cow::Borrowed("持久卷 (PV)");
        }
        if str_eq(category, "PersistentVolumeClaim") {
            return Cow::Borrowed("持久卷声明 (PVC)");
        }
        if str_eq(category, "StorageClass") {
            return Cow::Borrowed("存储类");
        }
        if str_eq(category, "ClusterRole") {
            return Cow::Borrowed("集群角色");
        }
        if str_eq(category, "ClusterRoleBinding") {
            return Cow::Borrowed("集群角色绑定");
        }
        if str_eq(category, "ServiceAccount") {
            return Cow::Borrowed("服务账号");
        }
        if str_eq(category, "NetworkPolicy") {
            return Cow::Borrowed("网络策略");
        }
        if str_eq(category, "Security") {
            return Cow::Borrowed("安全");
        }
        if str_eq(category, "Policy") {
            return Cow::Borrowed("策略");
        }
        if str_eq(category, "Batch") {
            return Cow::Borrowed("批处理");
        }
        if str_eq(category, "Autoscaling") {
            return Cow::Borrowed("自动伸缩");
        }
        if str_eq(category, "Certificates") {
            return Cow::Borrowed("证书");
        }
        if str_eq(category, "ControlPlane") {
            return Cow::Borrowed("控制平面");
        }
        if str_eq(category, "Observability") {
            return Cow::Borrowed("可观测性");
        }
        if str_eq(category, "Resource Management") {
            return Cow::Borrowed("资源管理");
        }
        Cow::Borrowed(category)
    }
}

/// The variant of a message pair for a language.
pub open spec fn pick(lang: Lang, en: Seq<char>, zh: Seq<char>) -> Seq<char> {
    match lang {
        Lang::En => en,
        Lang::Zh => zh,
    }
}

pub open spec fn severity_label_spec(lang: Lang, severity: IssueSeverity) -> Seq<char> {
    match lang {
        Lang::En => match severity {
            IssueSeverity::Critical => "Critical"@,
            IssueSeverity::Warning => "Warning"@,
            IssueSeverity::Info => "Info"@,
        },
        Lang::Zh => match severity {
            IssueSeverity::Critical => "严重"@,
            IssueSeverity::Warning => "警告"@,
            IssueSeverity::Info => "信息"@,
        },
    }
}

pub open spec fn health_label_spec(lang: Lang, status: HealthStatus) -> Seq<char> {
    match lang {
        Lang::En => match status {
            HealthStatus::Excellent => "Excellent"@,
            HealthStatus::Good => "Good"@,
            HealthStatus::Fair => "Fair"@,
            HealthStatus::Poor => "Poor"@,
            HealthStatus::Critical => "Critical"@,
        },
        Lang::Zh => match status {
            HealthStatus::Excellent => "优秀"@,
            HealthStatus::Good => "良好"@,
            HealthStatus::Fair => "一般"@,
            HealthStatus::Poor => "较差"@,
            HealthStatus::Critical => "严重"@,
        },
    }
}

pub open spec fn check_status_text_spec(lang: Lang, status: CheckStatus) -> Seq<char> {
    match lang {
        Lang::En => match status {
            CheckStatus::Pass => "✅ Pass"@,
            CheckStatus::Warning => "⚠️ Warning"@,
            CheckStatus::Critical => "❌ Critical"@,
            CheckStatus::Error => "💥 Error"@,
        },
        Lang::Zh => match status {
            CheckStatus::Pass => "✅ 通过"@,
            CheckStatus::Warning => "⚠️ 警告"@,
            CheckStatus::Critical => "❌ 严重"@,
            CheckStatus::Error => "💥 错误"@,
        },
    }
}

/// Chinese text of a container-usage note; unknown reasons are kept.
pub open spec fn container_note_zh(v: Seq<char>) -> Seq<char> {
    if v == "high_usage"@ {
        "高使用率"@
    } else if v == "low_usage"@ {
        "低使用率"@
    } else if v == "no_request_no_limit"@ {
        "无请求"@
    } else {
        v
    }
}

/// Chinese text of a node-condition value; other values are kept.
pub open spec fn condition_value_zh(v: Seq<char>) -> Seq<char> {
    if v == "True"@ {
        "是"@
    } else if v == "False"@ {
        "否"@
    } else if v == "Unknown"@ {
        "未知"@
    } else {
        v
    }
}

/// Chinese text of an SELinux mode; other values are kept.
pub open spec fn selinux_mode_zh(v: Seq<char>) -> Seq<char> {
    if v == "Enforcing"@ {
        "强制模式"@
    } else if v == "Permissive"@ {
        "宽容模式"@
    } else if v == "Disabled"@ {
        "已禁用"@
    } else {
        v
    }
}

/// Chinese name of a node condition type; other values are kept.
pub open spec fn condition_type_name_zh(v: Seq<char>) -> Seq<char> {
    if v == "Ready"@ {
        "就绪"@
    } else if v == "MemoryPressure"@ {
        "内存压力"@
    } else if v == "DiskPressure"@ {
        "磁盘压力"@
    } else if v == "PIDPressure"@ {
        "PID 压力"@
    } else {
        v
    }
}

/// Chinese name of a check; unknown names are kept.
pub open spec fn check_name_zh(v: Seq<char>) -> Seq<char> {
    if v == "Node Readiness"@ {
        "节点就绪"@
    } else if v == "Node Pressure"@ {
        "节点压力"@
    } else if v == "Node process health"@ {
        "节点进程健康"@
    } else if v == "Pod Health"@ {
        "Pod 健康"@
    } else if v == "Pod Stability"@ {
        "Pod 稳定性"@
    } else if v == "Resource Requests"@ {
        "资源请求"@
    } else if v == "Resource Limits"@ {
        "资源限制"@
    } else if v == "Complete Resource Configuration"@ {
        "完整资源配置"@
    } else if v == "DNS Configuration"@ {
        "DNS 配置"@
    } else if v == "Service Configuration"@ {
        "服务配置"@
    } else if v == "Network Policy Coverage"@ {
        "网络策略覆盖率"@
    } else if v == "Persistent Volume Health"@ {
        "持久卷健康"@
    } else if v == "PVC Binding"@ {
        "PVC 绑定"@
    } else if v == "Storage Class Configuration"@ {
        "存储类配置"@
    } else if v == "RBAC Configuration"@ {
        "RBAC 配置"@
    } else if v == "Pod Security Standards"@ {
        "Pod 安全标准"@
    } else if v == "Service Account Usage"@ {
        "服务账号使用"@
    } else if v == "Component Status"@ {
        "组件状态"@
    } else if v == "Control Plane Pods"@ {
        "控制平面 Pod"@
    } else if v == "Horizontal Pod Autoscalers"@ {
        "水平 Pod 自动伸缩"@
    } else if v == "CronJobs"@ {
        "CronJobs"@
    } else if v == "Jobs"@ {
        "Jobs"@
    } else if v == "Resource Quotas"@ {
        "资源配额"@
    } else if v == "Limit Ranges"@ {
        "LimitRange"@
    } else if v == "Pod Disruption Budgets"@ {
        "Pod 中断预算 (PDB)"@
    } else if v == "Metrics Pipeline"@ {
        "指标管道"@
    } else if v == "Cluster DNS (CoreDNS)"@ {
        "集群 DNS (CoreDNS)"@
    } else if v == "Logging Stack"@ {
        "日志栈"@
    } else if v == "Monitoring & Alerting"@ {
        "监控与告警"@
    } else if v == "TLS certificate expiry"@ {
        "TLS 证书过期"@
    } else if v == "CertificateSigningRequests"@ {
        "证书签名请求 (CSR)"@
    } else if v == "Namespace summary"@ {
        "命名空间摘要"@
    } else {
        v
    }
}

/// Chinese name of an inspection module; unknown names are kept.
pub open spec fn inspection_type_name_zh(v: Seq<char>) -> Seq<char> {
    if v == "Node Health"@ {
        "节点健康"@
    } else if v == "Node Inspection"@ {
        "节点巡检"@
    } else if v == "Pod Status"@ {
        "Pod 状态"@
    } else if v == "Security Configuration"@ {
        "安全配置"@
    } else if v == "Resource Usage"@ {
        "资源使用"@
    } else if v == "Network Connectivity"@ {
        "网络连通性"@
    } else if v == "Storage"@ {
        "存储"@
    } else if v == "Control Plane"@ {
        "控制平面"@
    } else if v == "Autoscaling"@ {
        "自动伸缩"@
    } else if v == "Batch Workloads"@ {
        "批处理工作负载"@
    } else if v == "Policy & Governance"@ {
        "策略与治理"@
    } else if v == "Observability"@ {
        "可观测性"@
    } else if v == "Upgrade Readiness"@ {
        "升级就绪"@
    } else if v == "Namespace"@ {
        "命名空间"@
    } else if v == "Certificates"@ {
        "证书"@
    } else {
        v
    }
}

/// Chinese name of an issue category; unknown categories are kept.
pub open spec fn category_name_zh(v: Seq<char>) -> Seq<char> {
    if v == "Container"@ {
        "容器"@
    } else if v == "Pod"@ {
        "Pod"@
    } else if v == "Node"@ {
        "节点"@
    } else if v == "Service"@ {
        "服务"@
    } else if v == "Deployment"@ {
        "Deployment"@
    } else if v == "Namespace"@ {
        "命名空间"@
    } else if v == "PersistentVolume"@ {
        "持久卷 (PV)"@
    } else if v == "PersistentVolumeClaim"@ {
        "持久卷声明 (PVC)"@
    } else if v == "StorageClass"@ {
        "存储类"@
    } else if v == "ClusterRole"@ {
        "集群角色"@
    } else if v == "ClusterRoleBinding"@ {
        "集群角色绑定"@
    } else if v == "ServiceAccount"@ {
        "服务账号"@
    } else if v == "NetworkPolicy"@ {
        "网络策略"@
    } else if v == "Security"@ {
        "安全"@
    } else if v == "Policy"@ {
        "策略"@
    } else if v == "Batch"@ {
        "批处理"@
    } else if v == "Autoscaling"@ {
        "自动伸缩"@
    } else if v == "Certificates"@ {
        "证书"@
    } else if v == "ControlPlane"@ {
        "控制平面"@
    } else if v == "Observability"@ {
        "可观测性"@
    } else if v == "Resource Management"@ {
        "资源管理"@
    } else {
        v
    }
}


// ---------------------------------------------------------------------------
// Runtime templates
// ---------------------------------------------------------------------------

/// Number of `format!` placeholders in a template: every `{` that is not part
/// of an escaped `{{` starts one; `}}` is an escaped brace.
pub open spec fn placeholder_count(s: Seq<char>) -> nat
    decreases s.len(),
{
    if s.len() == 0 {
        0
    } else if s[0] == '{' {
        if s.len() > 1 && s[1] == '{' {
            placeholder_count(s.skip(2))
        } else {
            1 + placeholder_count(s.drop_first())
        }
    } else if s[0] == '}' && s.len() > 1 && s[1] == '}' {
        placeholder_count(s.skip(2))
    } else {
        placeholder_count(s.drop_first())
    }
}

/// Counts the `format!` placeholders of a template.
pub fn count_format_placeholders(s: &str) -> (r: usize)
    ensures
        r == placeholder_count(s@),
{
    let v = chars_of(s);
    let mut count: usize = 0;
    let mut i: usize = 0;
    proof {
        assert(v@.skip(0) =~= v@);
    }
    while i < v.len()
        invariant
            v@ == s@,
            i <= v.len(),
            count <= i,
            count + placeholder_count(v@.skip(i as int)) == placeholder_count(s@),
        decreases v.len() - i,
    {
        proof {
            assert(v@.skip(i as int).drop_first() =~= v@.skip(i as int + 1));
            if i + 1 < v.len() {
                assert(v@.skip(i as int).skip(2) =~= v@.skip(i as int + 2));
            }
        }
        if v[i] == '{' {
            if i + 1 < v.len() && v[i + 1] == '{' {
                i = i + 2;
            } else {
                count = count + 1;
                i = i + 1;
            }
        } else if v[i] == '}' && i + 1 < v.len() && v[i + 1] == '}' {
            i = i + 2;
        } else {
            i = i + 1;
        }
    }
    proof {
        assert(v@.skip(i as int).len() == 0);
    }
    count
}

/// Offset of the first `}` in `t`.
pub open spec fn first_close(t: Seq<char>) -> Option<nat>
    decreases t.len(),
{
    if t.len() == 0 {
        None
    } else if t[0] == '}' {
        Some(0)
    } else {
        match first_close(t.drop_first()) {
            Some(k) => Some(k + 1),
            None => None,
        }
    }
}

/// Result of substituting `args` into the placeholders of `t`: each `{...}`
/// takes the next argument; once the arguments run out, placeholders stay as
/// they are; an unclosed `{` leaves the rest of the template unchanged.
pub open spec fn fill(t: Seq<char>, args: Seq<Seq<char>>) -> Seq<char>
    decreases t.len(),
{
    if t.len() == 0 {
        seq![]
    } else if t[0] != '{' {
        seq![t[0]] + fill(t.drop_first(), args)
    } else {
        match first_close(t) {
            None => t,
            Some(k) => {
                if k < t.len() {
                    if args.len() > 0 {
                        args[0] + fill(t.skip((k + 1) as int), args.drop_first())
                    } else {
                        t.take((k + 1) as int) + fill(t.skip((k + 1) as int), args)
                    }
                } else {
                    t
                }
            },
        }
    }
}

/// The views of a list of string slices.
pub open spec fn str_views(args: Seq<&str>) -> Seq<Seq<char>> {
    args.map_values(|a: &str| a@)
}

/// First `}` at or after position `i`.
fn find_close(v: &Vec<char>, i: usize) -> (r: Option<usize>)
    requires
        i <= v.len(),
    ensures
        match first_close(v@.skip(i as int)) {
            Some(k) => r == Some((i + k) as usize) && i + k < v.len(),
            None => r is None,
        },
{
    let mut j: usize = i;
    while j < v.len()
        invariant
            i <= j <= v.len(),
            first_close(v@.skip(i as int)) == (match first_close(v@.skip(j as int)) {
                Some(k) => Some((k + (j - i)) as nat),
                None => None,
            }),
        decreases v.len() - j,
    {
        if v[j] == '}' {
            proof {
                assert(v@.skip(j as int)[0] == '}');
            }
            return Some(j);
        }
        proof {
            assert(v@.skip(j as int).drop_first() =~= v@.skip(j as int + 1));
        }
        j = j + 1;
    }
    proof {
        assert(v@.skip(j as int).len() == 0);
    }
    None
}

/// Substitutes `{...}` placeholders of a runtime template with the given
/// arguments, in order. Missing arguments leave the placeholder literal and
/// extra arguments are ignored.
pub fn fmt_dynamic(template: &str, args: &[&str]) -> (r: String)
    ensures
        r@ == fill(template@, str_views(args@)),
{
    let t = chars_of(template);
    let ghost av = str_views(args@);
    let mut out = String::new();
    let mut i: usize = 0;
    let mut idx: usize = 0;
    proof {
        assert(t@.skip(0) =~= t@);
        assert(av.skip(0) =~= av);
    }
    while i < t.len()
        invariant
            t@ == template@,
            av == str_views(args@),
            i <= t.len(),
            idx <= args.len(),
            out@ + fill(t@.skip(i as int), av.skip(idx as int)) == fill(template@, av),
        decreases t.len() - i,
    {
        let ghost rest = t@.skip(i as int);
        proof {
            assert(rest[0] == t@[i as int]);
        }
        if t[i] != '{' {
            proof {
                assert(rest.drop_first() =~= t@.skip(i as int + 1));
                assert(out@.push(t@[i as int]) + fill(t@.skip(i as int + 1), av.skip(idx as int))
                    =~= out@ + fill(rest, av.skip(idx as int)));
            }
            push_char(&mut out, t[i]);
            i = i + 1;
        } else {
            match find_close(&t, i) {
                None => {
                    let tail = sub_vec(&t, i, t.len());
                    proof {
                        assert(tail@ =~= rest);
                        assert(fill(t@.skip(t.len() as int), av.skip(idx as int)) =~= seq![]);
                        assert(out@ + tail@ + fill(t@.skip(t.len() as int), av.skip(idx as int))
                            =~= out@ + fill(rest, av.skip(idx as int)));
                    }
                    push_chars(&mut out, &tail);
                    i = t.len();
                },
                Some(c) => {
                    proof {
                        assert(rest.skip((c - i) + 1) =~= t@.skip(c + 1));
                        assert(rest.take((c - i) + 1) =~= t@.subrange(i as int, c + 1));
                    }
                    if idx < args.len() {
                        let a = args[idx];
                        proof {
                            assert(av.skip(idx as int)[0] == a@);
                            assert(av.skip(idx as int).drop_first() =~= av.skip(idx + 1));
                            assert(out@ + a@ + fill(t@.skip(c + 1), av.skip(idx + 1)) =~= out@
                                + fill(rest, av.skip(idx as int)));
                        }
                        push_str(&mut out, a);
                        idx = idx + 1;
                    } else {
                        let lit = sub_vec(&t, i, c + 1);
                        proof {
                            assert(av.skip(idx as int).len() == 0);
                            assert(out@ + lit@ + fill(t@.skip(c + 1), av.skip(idx as int)) =~= out@
                                + fill(rest, av.skip(idx as int)));
                        }
                        push_chars(&mut out, &lit);
                    }
                    i = c + 1;
                },
            }
        }
    }
    proof {
        assert(t@.skip(i as int).len() == 0);
        assert(out@ =~= fill(template@, av));
    }
    out
}

/// Localized formatting: substitutes the arguments into the English or the
/// Chinese template, chosen by the language.
pub fn lang_fmt(lang: Lang, en: &str, zh: &str, args: &[&str]) -> (r: String)
    ensures
        r@ == fill(pick(lang, en@, zh@), str_views(args@)),
{
    let t = lang.t(en, zh);
    fmt_dynamic(t, args)
}

/// `lang_fmt` with two arguments.
pub fn lang_fmt2(lang: Lang, en: &str, zh: &str, a: &str, b: &str) -> (r: String)
    ensures
        r@ == fill(pick(lang, en@, zh@), seq![a@, b@]),
{
    let v: Vec<&str> = vec![a, b];
    proof {
        assert(str_views(v@) =~= seq![a@, b@]);
    }
    lang_fmt(lang, en, zh, v.as_slice())
}

/// `lang_fmt` with three arguments.
pub fn lang_fmt3(lang: Lang, en: &str, zh: &str, a: &str, b: &str, c: &str) -> (r: String)
    ensures
        r@ == fill(pick(lang, en@, zh@), seq![a@, b@, c@]),
{
    let v: Vec<&str> = vec![a, b, c];
    proof {
        assert(str_views(v@) =~= seq![a@, b@, c@]);
    }
    lang_fmt(lang, en, zh, v.as_slice())
}

/// `lang_fmt` with four arguments.
pub fn lang_fmt4(lang: Lang, en: &str, zh: &str, a: &str, b: &str, c: &str, d: &str) -> (r:
    String)
    ensures
        r@ == fill(pick(lang, en@, zh@), seq![a@, b@, c@, d@]),
{
    let v: Vec<&str> = vec![a, b, c, d];
    proof {
        assert(str_views(v@) =~= seq![a@, b@, c@, d@]);
    }
    lang_fmt(lang, en, zh, v.as_slice())
}

/// `lang_fmt` with five arguments.
pub fn lang_fmt5(lang: Lang, en: &str, zh: &str, a: &str, b: &str, c: &str, d: &str, e: &str) -> (r:
    String)
    ensures
        r@ == fill(pick(lang, en@, zh@), seq![a@, b@, c@, d@, e@]),
{
    let v: Vec<&str> = vec![a, b, c, d, e];
    proof {
        assert(str_views(v@) =~= seq![a@, b@, c@, d@, e@]);
    }
    lang_fmt(lang, en, zh, v.as_slice())
}

/// `lang_fmt` with one argument.
pub fn lang_fmt1(lang: Lang, en: &str, zh: &str, a: &str) -> (r: String)
    ensures
        r@ == fill(pick(lang, en@, zh@), seq![a@]),
{
    let v: Vec<&str> = vec![a];
    proof {
        assert(str_views(v@) =~= seq![a@]);
    }
    lang_fmt(lang, en, zh, v.as_slice())
}

} // verus!
