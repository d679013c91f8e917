//! Display text of the report, per language: headings, table headers and
//! labels, each a Markdown fragment; some hold `{}` placeholders that
//! `fmt_dynamic` fills.

use vstd::prelude::*;

use crate::utils::lang::Lang;

verus! {

/// All display text of the report in one language.
#[derive(Debug, Clone, Copy)]
pub struct ReportText {
    pub title_fmt: &'static str,
    pub report_id_label: &'static str,
    pub cluster_label: &'static str,
    pub generated_at_label: &'static str,
    pub cluster_overview_title: &'static str,
    pub metric_value_header: &'static str,
    pub overview_unavailable: &'static str,
    pub cluster_version_label: &'static str,
    pub node_count_label: &'static str,
    pub ready_nodes_label: &'static str,
    pub pod_count_label: &'static str,
    pub namespace_count_label: &'static str,
    pub cluster_age_label: &'static str,
    pub container_runtime_label: &'static str,
    pub overall_health_fmt: &'static str,
    pub node_conditions_title: &'static str,
    pub node_conditions_header: &'static str,
    pub workload_title: &'static str,
    pub workload_header: &'static str,
    pub storage_title: &'static str,
    pub pv_total_label: &'static str,
    pub pvc_total_label: &'static str,
    pub pvc_bound_label: &'static str,
    pub storage_class_count_label: &'static str,
    pub default_storage_class_label: &'static str,
    pub container_usage_title: &'static str,
    pub container_usage_desc: &'static str,
    pub container_usage_header: &'static str,
    pub node_inspection_title: &'static str,
    pub node_inspection_desc: &'static str,
    pub node_inspection_no_data: &'static str,
    pub node_general_info_title: &'static str,
    pub node_general_info_header: &'static str,
    pub node_resources_title: &'static str,
    pub node_resources_header: &'static str,
    pub node_disk_usage_title: &'static str,
    pub node_disk_usage_desc: &'static str,
    pub node_disk_usage_header: &'static str,
    pub node_container_state_title: &'static str,
    pub node_container_state_header: &'static str,
    pub node_service_status_title: &'static str,
    pub node_service_status_header: &'static str,
    pub node_security_title: &'static str,
    pub node_security_desc: &'static str,
    pub node_security_header: &'static str,
    pub yes_label: &'static str,
    pub no_label: &'static str,
    pub firewalld_active: &'static str,
    pub firewalld_inactive: &'static str,
    pub node_network_title: &'static str,
    pub node_network_desc: &'static str,
    pub node_network_header: &'static str,
    pub node_kernel_title: &'static str,
    pub node_kernel_desc: &'static str,
    pub node_kernel_header: &'static str,
    pub node_certificate_title: &'static str,
    pub node_certificate_header: &'static str,
    pub events_title: &'static str,
    pub events_header: &'static str,
    pub db_middleware_title: &'static str,
    pub db_middleware_desc: &'static str,
    pub db_middleware_header: &'static str,
    pub db_middleware_none: &'static str,
    pub detailed_results_title: &'static str,
    pub check_results_title: &'static str,
    pub check_results_header: &'static str,
    pub namespace_summary_title: &'static str,
    pub namespace_summary_header: &'static str,
    pub tls_cert_expiry_title: &'static str,
    pub tls_cert_header: &'static str,
    pub issue_table_header: &'static str,
    pub footer: &'static str,
}

/// The English text. Its fields are revealed with `reveal(english_text)`.
#[verifier::opaque]
pub open spec fn english_text() -> ReportText {
    ReportText {
        title_fmt: "# 《{}》 Kubernetes Cluster Check Report\n\n",
        report_id_label: "**Report ID**: `{}`\n\n",
        cluster_label: "**Cluster**: {}\n\n",
        generated_at_label: "**Generated At**: {}\n\n",
        cluster_overview_title: "## 🖥️ Cluster Overview\n\n",
        metric_value_header: "| Metric | Value |\n",
        overview_unavailable: "Cluster overview is not available (ensure cluster is reachable and the tool has been rebuilt).\n\n",
        cluster_version_label: "| Cluster Version | {} |\n",
        node_count_label: "| Node Count | {} |\n",
        ready_nodes_label: "| Ready Nodes | {} |\n",
        pod_count_label: "| Pod Count | {} |\n",
        namespace_count_label: "| Namespace Count | {} |\n",
        cluster_age_label: "| Cluster Age (days) | {} |\n",
        container_runtime_label: "| Container Runtime | {} |\n",
        overall_health_fmt: "| Overall Health | {} {} (Score: {:.1}) |\n",
        node_conditions_title: "### Node conditions\n\n",
        node_conditions_header: "| Node | Ready | MemoryPressure | DiskPressure | PIDPressure |\n",
        workload_title: "### Workload summary\n\n",
        workload_header: "| Controller | Total | Ready |\n",
        storage_title: "### Storage summary\n\n",
        pv_total_label: "| PV total | {} |\n",
        pvc_total_label: "| PVC total | {} |\n",
        pvc_bound_label: "| PVC Bound | {} |\n",
        storage_class_count_label: "| StorageClass count | {} |\n",
        default_storage_class_label: "| Default StorageClass | {} |\n\n",
        container_usage_title: "### Container resource usage (top 20 high usage)\n\n",
        container_usage_desc: "Top 20 containers by usage vs limit (CPU or memory ≥ 80% of limit). Data from **metrics-server** (Pod metrics API) and **Pod spec** (limits). This section is **omitted when metrics-server is unavailable**.\n\n",
        container_usage_header: "| Namespace | Pod | Container | CPU used (m) | CPU request (m) | CPU limit (m) | Mem used (Mi) | Mem request (Mi) | Mem limit (Mi) | Note |\n",
        node_inspection_title: "## 🔍 Node Inspection\n\n",
        node_inspection_desc: "Per-node checks from kcc-inspector DaemonSet.\n\n",
        node_inspection_no_data: "No data (kcc-inspector DaemonSet not deployed or collection failed / no pods ready).\n\n",
        node_general_info_title: "### Node General Information\n\n",
        node_general_info_header: "| Node | OS Version | IP Address | Kernel Version | Uptime | Collection time |\n",
        node_resources_title: "### Node resources\n\n",
        node_resources_header: "| Node | CPU (cores) | CPU Used | CPU % | Mem Total (Gi) | Mem Used (Gi) | Mem % | Swap Total (Gi) | Swap Used (Gi) | Swap % | Load (1m, 5m, 15m) |\n",
        node_disk_usage_title: "### Node disk usage\n\n",
        node_disk_usage_desc: "",
        node_disk_usage_header: "| Node | Mount Point | Device | FSType | Total (Gi) | Used (Gi) | Used % | Status |\n",
        node_container_state_title: "### Node container state counts\n\n",
        node_container_state_header: "| Node | Running | Waiting | Exited |\n",
        node_service_status_title: "## ⚙️ Node component and service status\n\n",
        node_service_status_header: "| Node/Service | Kubelet | Container runtime | NTP synced | Journald | Crontab |\n",
        node_security_title: "### Node security and kernel modules\n\n",
        node_security_desc: "SELinux, firewalld, IPVS, br_netfilter, overlay, and nf_conntrack status; helps troubleshoot network and security policy.\n\n",
        node_security_header: "| Node | SELinux | Firewalld | IPVS | br_netfilter | overlay | nf_conntrack |\n",
        yes_label: "Yes",
        no_label: "No",
        firewalld_active: "Active",
        firewalld_inactive: "Inactive",
        node_network_title: "### Node network and stability\n\n",
        node_network_desc: "Conntrack usage, inode usage, OOM count, open FDs, and zombie count; used to assess node stability and resource pressure.\n\n",
        node_network_header: "| Node | Conntrack usage % | Inode usage % | OOM count | FD (open/max) | Zombie count |\n",
        node_kernel_title: "### Node kernel parameters\n\n",
        node_kernel_desc: "ip_forward, swappiness, and somaxconn; affects network forwarding, memory swapping, and connection queue.\n\n",
        node_kernel_header: "| Node | net.ipv4.ip_forward | vm.swappiness | net.core.somaxconn |\n",
        node_certificate_title: "### Node Certificate Status\n\n",
        node_certificate_header: "| Node | Path | Expired | Expiration Date (node local) | Days to Expiry | Level | Issue Code |\n",
        events_title: "## 📢 Recent cluster events\n\n",
        events_header: "| Namespace | Object | Level | Reason | Message | Last seen |\n",
        db_middleware_title: "## 🗄️ Database Middleware\n\n",
        db_middleware_desc: "Database middleware pods detected by container image.\n\n",
        db_middleware_header: "| Namespace | Pod | Image | Ready | Restarts |\n",
        db_middleware_none: "No database middleware pods detected.\n\n",
        detailed_results_title: "## 📋 Detailed Results\n\n",
        check_results_title: "### Check Results\n\n",
        check_results_header: "| Resource | Check Item | Status | Score | Details |\n",
        namespace_summary_title: "### Namespace summary\n\n",
        namespace_summary_header: "| Namespace | Pods | Deployments | NetworkPolicy | ResourceQuota | LimitRange |\n",
        tls_cert_expiry_title: "#### TLS Certificate Expiry\n\n",
        tls_cert_header: "| Secret (namespace/name) | Expired | Expiry (UTC) | Days to Expiry | Level | Issue Code |\n",
        issue_table_header: "| Resource | Level | Issue Code | Short Title |\n",
        footer: "*Report generated by Limonergy.*\n",
    }
}

/// The Chinese text. Its fields are revealed with `reveal(chinese_text)`.
#[verifier::opaque]
pub open spec fn chinese_text() -> ReportText {
    ReportText {
        title_fmt: "# 《{}》 Kubernetes 集群巡检报告\n\n",
        report_id_label: "**报告 ID**：`{}`\n\n",
        cluster_label: "**集群**：{}\n\n",
        generated_at_label: "**生成时间**：{}\n\n",
        cluster_overview_title: "## 🖥️ 集群概览\n\n",
        metric_value_header: "| 指标 | 值 |\n",
        overview_unavailable: "集群概览不可用（请确保集群可达且工具已重新构建）。\n\n",
        cluster_version_label: "| 集群版本 | {} |\n",
        node_count_label: "| 节点数 | {} |\n",
        ready_nodes_label: "| 就绪节点数 | {} |\n",
        pod_count_label: "| Pod 数 | {} |\n",
        namespace_count_label: "| 命名空间数 | {} |\n",
        cluster_age_label: "| 集群年龄（天） | {} |\n",
        container_runtime_label: "| 容器运行时 | {} |\n",
        overall_health_fmt: "| 总体健康状态 | {} {}（得分：{:.1}） |\n",
        node_conditions_title: "### 节点状态\n\n",
        node_conditions_header: "| 节点 | 就绪 | 内存压力 | 磁盘压力 | PID 压力 |\n",
        workload_title: "### 工作负载摘要\n\n",
        workload_header: "| 控制器 | 总数 | 就绪 |\n",
        storage_title: "### 存储摘要\n\n",
        pv_total_label: "| PV 总数 | {} |\n",
        pvc_total_label: "| PVC 总数 | {} |\n",
        pvc_bound_label: "| PVC 已绑定 | {} |\n",
        storage_class_count_label: "| StorageClass 数量 | {} |\n",
        default_storage_class_label: "| 默认 StorageClass | {} |\n\n",
        container_usage_title: "### 容器资源使用（按使用率排名前 20）\n\n",
        container_usage_desc: "按使用率排名前 20 的容器（使用量 vs 限制，CPU 或内存 ≥ 限制的 80%）。数据来自 **metrics-server**（Pod 指标 API）和 **Pod spec**（限制）。当 **metrics-server 不可用**时，此部分将被**省略**。\n\n",
        container_usage_header: "| 命名空间 | Pod | 容器 | CPU 使用 (m) | CPU 请求 (m) | CPU 限制 (m) | 内存使用 (Mi) | 内存请求 (Mi) | 内存限制 (Mi) | 备注 |\n",
        node_inspection_title: "## 🔍 节点巡检\n\n",
        node_inspection_desc: "来自 kcc-inspector DaemonSet 的每个节点检查。\n\n",
        node_inspection_no_data: "无数据（kcc-inspector DaemonSet 未部署，或采集失败 / 无就绪 Pod）。\n\n",
        node_general_info_title: "### 节点基本信息\n\n",
        node_general_info_header: "| 节点 | 操作系统版本 | IP 地址 | 内核版本 | 运行时间 | 采集时间 |\n",
        node_resources_title: "### 节点资源\n\n",
        node_resources_header: "| 节点 | CPU (核心) | CPU 已用 | CPU 百分比 | 内存总量 (Gi) | 内存已用 (Gi) | 内存百分比 | Swap 总量 (Gi) | Swap 已用 (Gi) | Swap 百分比 | 负载 (1m, 5m, 15m) |\n",
        node_disk_usage_title: "### 节点磁盘使用\n\n",
        node_disk_usage_desc: "",
        node_disk_usage_header: "| 节点 | 挂载点 | 设备 | 文件系统类型 | 总量 (Gi) | 已用 (Gi) | 已用百分比 | 状态 |\n",
        node_container_state_title: "### 节点容器状态统计\n\n",
        node_container_state_header: "| 节点 | 运行中 | 等待中 | 已退出 |\n",
        node_service_status_title: "## ⚙️ 节点组件与服务状态\n\n",
        node_service_status_header: "| 节点/服务 | Kubelet | 容器运行时 | NTP 同步 | Journald | Crontab |\n",
        node_security_title: "### 节点安全与内核模块\n\n",
        node_security_desc: "SELinux、firewalld、IPVS、br_netfilter、overlay 和 nf_conntrack 状态；用于排查网络和安全策略问题。\n\n",
        node_security_header: "| 节点 | SELinux | Firewalld | IPVS | br_netfilter | overlay | nf_conntrack |\n",
        yes_label: "是",
        no_label: "否",
        firewalld_active: "已激活",
        firewalld_inactive: "未激活",
        node_network_title: "### 节点网络与稳定性\n\n",
        node_network_desc: "Conntrack 使用率、Inode 使用率、OOM 次数、已打开 FD 数和僵尸进程数；用于评估节点稳定性和资源压力。\n\n",
        node_network_header: "| 节点 | Conntrack 使用率 | Inode 使用率 | OOM 次数 | FD (已开/最大) | 僵尸进程数 |\n",
        node_kernel_title: "### 节点内核参数\n\n",
        node_kernel_desc: "ip_forward、swappiness 和 somaxconn；影响网络转发、内存交换和连接队列。\n\n",
        node_kernel_header: "| 节点 | net.ipv4.ip_forward | vm.swappiness | net.core.somaxconn |\n",
        node_certificate_title: "### 节点证书状态\n\n",
        node_certificate_header: "| 节点 | 路径 | 已过期 | 过期时间（节点本地） | 剩余天数 | 级别 | 问题代码 |\n",
        events_title: "## 📢 近期集群事件\n\n",
        events_header: "| 命名空间 | 对象 | 级别 | 原因 | 消息 | 最后出现 |\n",
        db_middleware_title: "## 🗄️ 数据库中间件\n\n",
        db_middleware_desc: "按容器镜像名检测到的数据库中间件 Pod。\n\n",
        db_middleware_header: "| 命名空间 | Pod | 镜像 | 就绪 | 重启次数 |\n",
        db_middleware_none: "未检测到数据库中间件 Pod。\n\n",
        detailed_results_title: "## 📋 详细结果\n\n",
        check_results_title: "### 检查结果\n\n",
        check_results_header: "| 资源 | 检查项 | 状态 | 得分 | 详情 |\n",
        namespace_summary_title: "### 命名空间摘要\n\n",
        namespace_summary_header: "| 命名空间 | Pod 数 | Deployment 数 | 网络策略 | 资源配额 | LimitRange |\n",
        tls_cert_expiry_title: "#### TLS 证书过期\n\n",
        tls_cert_header: "| Secret（命名空间/名称） | 已过期 | 过期时间 (UTC) | 剩余天数 | 级别 | 问题代码 |\n",
        issue_table_header: "| 资源 | 级别 | 问题代码 | 简要描述 |\n",
        footer: "*报告由 Limonergy 生成。*\n",
    }
}

/// The text of a language.
pub open spec fn report_text_spec(lang: Lang) -> ReportText {
    match lang {
        Lang::En => english_text(),
        Lang::Zh => chinese_text(),
    }
}

/// The report text of a language.
pub fn report_text(lang: Lang) -> (t: ReportText)
    ensures
        t == report_text_spec(lang),
{
    proof {
        reveal(english_text);
        reveal(chinese_text);
    }
    match lang {
        Lang::En => ReportText {
                title_fmt: "# 《{}》 Kubernetes Cluster Check Report\n\n",
                report_id_label: "**Report ID**: `{}`\n\n",
                cluster_label: "**Cluster**: {}\n\n",
                generated_at_label: "**Generated At**: {}\n\n",
                cluster_overview_title: "## 🖥️ Cluster Overview\n\n",
                metric_value_header: "| Metric | Value |\n",
                overview_unavailable: "Cluster overview is not available (ensure cluster is reachable and the tool has been rebuilt).\n\n",
                cluster_version_label: "| Cluster Version | {} |\n",
                node_count_label: "| Node Count | {} |\n",
                ready_nodes_label: "| Ready Nodes | {} |\n",
                pod_count_label: "| Pod Count | {} |\n",
                namespace_count_label: "| Namespace Count | {} |\n",
                cluster_age_label: "| Cluster Age (days) | {} |\n",
                container_runtime_label: "| Container Runtime | {} |\n",
                overall_health_fmt: "| Overall Health | {} {} (Score: {:.1}) |\n",
                node_conditions_title: "### Node conditions\n\n",
                node_conditions_header: "| Node | Ready | MemoryPressure | DiskPressure | PIDPressure |\n",
                workload_title: "### Workload summary\n\n",
                workload_header: "| Controller | Total | Ready |\n",
                storage_title: "### Storage summary\n\n",
                pv_total_label: "| PV total | {} |\n",
                pvc_total_label: "| PVC total | {} |\n",
                pvc_bound_label: "| PVC Bound | {} |\n",
                storage_class_count_label: "| StorageClass count | {} |\n",
                default_storage_class_label: "| Default StorageClass | {} |\n\n",
                container_usage_title: "### Container resource usage (top 20 high usage)\n\n",
                container_usage_desc: "Top 20 containers by usage vs limit (CPU or memory ≥ 80% of limit). Data from **metrics-server** (Pod metrics API) and **Pod spec** (limits). This section is **omitted when metrics-server is unavailable**.\n\n",
                container_usage_header: "| Namespace | Pod | Container | CPU used (m) | CPU request (m) | CPU limit (m) | Mem used (Mi) | Mem request (Mi) | Mem limit (Mi) | Note |\n",
                node_inspection_title: "## 🔍 Node Inspection\n\n",
                node_inspection_desc: "Per-node checks from kcc-inspector DaemonSet.\n\n",
                node_inspection_no_data: "No data (kcc-inspector DaemonSet not deployed or collection failed / no pods ready).\n\n",
                node_general_info_title: "### Node General Information\n\n",
                node_general_info_header: "| Node | OS Version | IP Address | Kernel Version | Uptime | Collection time |\n",
                node_resources_title: "### Node resources\n\n",
                node_resources_header: "| Node | CPU (cores) | CPU Used | CPU % | Mem Total (Gi) | Mem Used (Gi) | Mem % | Swap Total (Gi) | Swap Used (Gi) | Swap % | Load (1m, 5m, 15m) |\n",
                node_disk_usage_title: "### Node disk usage\n\n",
                node_disk_usage_desc: "",
                node_disk_usage_header: "| Node | Mount Point | Device | FSType | Total (Gi) | Used (Gi) | Used % | Status |\n",
                node_container_state_title: "### Node container state counts\n\n",
                node_container_state_header: "| Node | Running | Waiting | Exited |\n",
                node_service_status_title: "## ⚙️ Node component and service status\n\n",
                node_service_status_header: "| Node/Service | Kubelet | Container runtime | NTP synced | Journald | Crontab |\n",
                node_security_title: "### Node security and kernel modules\n\n",
                node_security_desc: "SELinux, firewalld, IPVS, br_netfilter, overlay, and nf_conntrack status; helps troubleshoot network and security policy.\n\n",
                node_security_header: "| Node | SELinux | Firewalld | IPVS | br_netfilter | overlay | nf_conntrack |\n",
                yes_label: "Yes",
                no_label: "No",
                firewalld_active: "Active",
                firewalld_inactive: "Inactive",
                node_network_title: "### Node network and stability\n\n",
                node_network_desc: "Conntrack usage, inode usage, OOM count, open FDs, and zombie count; used to assess node stability and resource pressure.\n\n",
                node_network_header: "| Node | Conntrack usage % | Inode usage % | OOM count | FD (open/max) | Zombie count |\n",
                node_kernel_title: "### Node kernel parameters\n\n",
                node_kernel_desc: "ip_forward, swappiness, and somaxconn; affects network forwarding, memory swapping, and connection queue.\n\n",
                node_kernel_header: "| Node | net.ipv4.ip_forward | vm.swappiness | net.core.somaxconn |\n",
                node_certificate_title: "### Node Certificate Status\n\n",
                node_certificate_header: "| Node | Path | Expired | Expiration Date (node local) | Days to Expiry | Level | Issue Code |\n",
                events_title: "## 📢 Recent cluster events\n\n",
                events_header: "| Namespace | Object | Level | Reason | Message | Last seen |\n",
                db_middleware_title: "## 🗄️ Database Middleware\n\n",
                db_middleware_desc: "Database middleware pods detected by container image.\n\n",
                db_middleware_header: "| Namespace | Pod | Image | Ready | Restarts |\n",
                db_middleware_none: "No database middleware pods detected.\n\n",
                detailed_results_title: "## 📋 Detailed Results\n\n",
                check_results_title: "### Check Results\n\n",
                check_results_header: "| Resource | Check Item | Status | Score | Details |\n",
                namespace_summary_title: "### Namespace summary\n\n",
                namespace_summary_header: "| Namespace | Pods | Deployments | NetworkPolicy | ResourceQuota | LimitRange |\n",
                tls_cert_expiry_title: "#### TLS Certificate Expiry\n\n",
                tls_cert_header: "| Secret (namespace/name) | Expired | Expiry (UTC) | Days to Expiry | Level | Issue Code |\n",
                issue_table_header: "| Resource | Level | Issue Code | Short Title |\n",
                footer: "*Report generated by Limonergy.*\n",
            },
        Lang::Zh => ReportText {
                title_fmt: "# 《{}》 Kubernetes 集群巡检报告\n\n",
                report_id_label: "**报告 ID**：`{}`\n\n",
                cluster_label: "**集群**：{}\n\n",
                generated_at_label: "**生成时间**：{}\n\n",
                cluster_overview_title: "## 🖥️ 集群概览\n\n",
                metric_value_header: "| 指标 | 值 |\n",
                overview_unavailable: "集群概览不可用（请确保集群可达且工具已重新构建）。\n\n",
                cluster_version_label: "| 集群版本 | {} |\n",
                node_count_label: "| 节点数 | {} |\n",
                ready_nodes_label: "| 就绪节点数 | {} |\n",
                pod_count_label: "| Pod 数 | {} |\n",
                namespace_count_label: "| 命名空间数 | {} |\n",
                cluster_age_label: "| 集群年龄（天） | {} |\n",
                container_runtime_label: "| 容器运行时 | {} |\n",
                overall_health_fmt: "| 总体健康状态 | {} {}（得分：{:.1}） |\n",
                node_conditions_title: "### 节点状态\n\n",
                node_conditions_header: "| 节点 | 就绪 | 内存压力 | 磁盘压力 | PID 压力 |\n",
                workload_title: "### 工作负载摘要\n\n",
                workload_header: "| 控制器 | 总数 | 就绪 |\n",
                storage_title: "### 存储摘要\n\n",
                pv_total_label: "| PV 总数 | {} |\n",
                pvc_total_label: "| PVC 总数 | {} |\n",
                pvc_bound_label: "| PVC 已绑定 | {} |\n",
                storage_class_count_label: "| StorageClass 数量 | {} |\n",
                default_storage_class_label: "| 默认 StorageClass | {} |\n\n",
                container_usage_title: "### 容器资源使用（按使用率排名前 20）\n\n",
                container_usage_desc: "按使用率排名前 20 的容器（使用量 vs 限制，CPU 或内存 ≥ 限制的 80%）。数据来自 **metrics-server**（Pod 指标 API）和 **Pod spec**（限制）。当 **metrics-server 不可用**时，此部分将被**省略**。\n\n",
                container_usage_header: "| 命名空间 | Pod | 容器 | CPU 使用 (m) | CPU 请求 (m) | CPU 限制 (m) | 内存使用 (Mi) | 内存请求 (Mi) | 内存限制 (Mi) | 备注 |\n",
                node_inspection_title: "## 🔍 节点巡检\n\n",
                node_inspection_desc: "来自 kcc-inspector DaemonSet 的每个节点检查。\n\n",
                node_inspection_no_data: "无数据（kcc-inspector DaemonSet 未部署，或采集失败 / 无就绪 Pod）。\n\n",
                node_general_info_title: "### 节点基本信息\n\n",
                node_general_info_header: "| 节点 | 操作系统版本 | IP 地址 | 内核版本 | 运行时间 | 采集时间 |\n",
                node_resources_title: "### 节点资源\n\n",
                node_resources_header: "| 节点 | CPU (核心) | CPU 已用 | CPU 百分比 | 内存总量 (Gi) | 内存已用 (Gi) | 内存百分比 | Swap 总量 (Gi) | Swap 已用 (Gi) | Swap 百分比 | 负载 (1m, 5m, 15m) |\n",
                node_disk_usage_title: "### 节点磁盘使用\n\n",
                node_disk_usage_desc: "",
                node_disk_usage_header: "| 节点 | 挂载点 | 设备 | 文件系统类型 | 总量 (Gi) | 已用 (Gi) | 已用百分比 | 状态 |\n",
                node_container_state_title: "### 节点容器状态统计\n\n",
                node_container_state_header: "| 节点 | 运行中 | 等待中 | 已退出 |\n",
                node_service_status_title: "## ⚙️ 节点组件与服务状态\n\n",
                node_service_status_header: "| 节点/服务 | Kubelet | 容器运行时 | NTP 同步 | Journald | Crontab |\n",
                node_security_title: "### 节点安全与内核模块\n\n",
                node_security_desc: "SELinux、firewalld、IPVS、br_netfilter、overlay 和 nf_conntrack 状态；用于排查网络和安全策略问题。\n\n",
                node_security_header: "| 节点 | SELinux | Firewalld | IPVS | br_netfilter | overlay | nf_conntrack |\n",
                yes_label: "是",
                no_label: "否",
                firewalld_active: "已激活",
                firewalld_inactive: "未激活",
                node_network_title: "### 节点网络与稳定性\n\n",
                node_network_desc: "Conntrack 使用率、Inode 使用率、OOM 次数、已打开 FD 数和僵尸进程数；用于评估节点稳定性和资源压力。\n\n",
                node_network_header: "| 节点 | Conntrack 使用率 | Inode 使用率 | OOM 次数 | FD (已开/最大) | 僵尸进程数 |\n",
                node_kernel_title: "### 节点内核参数\n\n",
                node_kernel_desc: "ip_forward、swappiness 和 somaxconn；影响网络转发、内存交换和连接队列。\n\n",
                node_kernel_header: "| 节点 | net.ipv4.ip_forward | vm.swappiness | net.core.somaxconn |\n",
                node_certificate_title: "### 节点证书状态\n\n",
                node_certificate_header: "| 节点 | 路径 | 已过期 | 过期时间（节点本地） | 剩余天数 | 级别 | 问题代码 |\n",
                events_title: "## 📢 近期集群事件\n\n",
                events_header: "| 命名空间 | 对象 | 级别 | 原因 | 消息 | 最后出现 |\n",
                db_middleware_title: "## 🗄️ 数据库中间件\n\n",
                db_middleware_desc: "按容器镜像名检测到的数据库中间件 Pod。\n\n",
                db_middleware_header: "| 命名空间 | Pod | 镜像 | 就绪 | 重启次数 |\n",
                db_middleware_none: "未检测到数据库中间件 Pod。\n\n",
                detailed_results_title: "## 📋 详细结果\n\n",
                check_results_title: "### 检查结果\n\n",
                check_results_header: "| 资源 | 检查项 | 状态 | 得分 | 详情 |\n",
                namespace_summary_title: "### 命名空间摘要\n\n",
                namespace_summary_header: "| 命名空间 | Pod 数 | Deployment 数 | 网络策略 | 资源配额 | LimitRange |\n",
                tls_cert_expiry_title: "#### TLS 证书过期\n\n",
                tls_cert_header: "| Secret（命名空间/名称） | 已过期 | 过期时间 (UTC) | 剩余天数 | 级别 | 问题代码 |\n",
                issue_table_header: "| 资源 | 级别 | 问题代码 | 简要描述 |\n",
                footer: "*报告由 Limonergy 生成。*\n",
            },
    }
}

} // verus!
