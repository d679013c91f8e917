//! Issue code registry: stable codes and short titles for report grouping.
//!
//! Codes are grouped by number range: Node 001-005, Pod 101-112,
//! Resource 201-205, Network 301-305, Storage 401-410, Security 501-509,
//! Control plane 601-602, Autoscaling 701-705, Batch 801-805,
//! Policy 901-904, Observability A01-A04, Certificates B01-B03.

use vstd::prelude::*;
use vstd::string::*;

use crate::utils::text::{chars_of, str_eq};

verus! {

/// Position of the last occurrence of `c` in `s`.
pub open spec fn last_index_of(s: Seq<char>, c: char) -> Option<nat>
    decreases s.len(),
{
    if s.len() == 0 {
        None
    } else if s.last() == c {
        Some((s.len() - 1) as nat)
    } else {
        last_index_of(s.drop_last(), c)
    }
}

/// The code without its category prefix: what follows the last `-`, or the
/// whole code when it has none ("POD-105" -> "105").
pub open spec fn strip_prefix_spec(code: Seq<char>) -> Seq<char> {
    match last_index_of(code, '-') {
        Some(k) => code.subrange((k + 1) as int, code.len() as int),
        None => code,
    }
}

/// `Some` of the view of a static string, or `None`.
pub open spec fn opt_str_view(o: Option<&str>) -> Option<Seq<char>> {
    match o {
        Some(s) => Some(s@),
        None => None,
    }
}

/// Strips the category prefix from a rule id: "POD-105" -> "105",
/// "OBS-A01" -> "A01". Codes without a prefix are returned unchanged.
pub fn strip_prefix(code: &str) -> (r: &str)
    ensures
        r@ == strip_prefix_spec(code@),
{
    let v = chars_of(code);
    let mut j: usize = v.len();
    proof {
        assert(code@.take(j as int) =~= code@);
    }
    while j > 0 && v[j - 1] != '-'
        invariant
            v@ == code@,
            j <= v.len(),
            last_index_of(code@, '-') == last_index_of(code@.take(j as int), '-'),
        decreases j,
    {
        proof {
            assert(code@.take(j as int).drop_last() =~= code@.take(j - 1));
        }
        j = j - 1;
    }
    if j == 0 {
        proof {
            assert(code@.take(0).len() == 0);
        }
        code
    } else {
        proof {
            assert(code@.take(j as int).last() == '-');
        }
        code.substring_char(j, v.len())
    }
}

/// English short title of each known issue code.
pub open spec fn short_title_spec(code: Seq<char>) -> Option<Seq<char>> {
    if code == "001"@ {
        Some("Node not ready"@)
    } else if code == "002"@ {
        Some("Node has resource pressure"@)
    } else if code == "003"@ {
        Some("Zombie processes on node"@)
    } else if code == "004"@ {
        Some("Node disk usage high (Warning)"@)
    } else if code == "005"@ {
        Some("Node disk usage critical"@)
    } else if code == "101"@ {
        Some("Pod in Failed state"@)
    } else if code == "102"@ {
        Some("Pod cannot be scheduled"@)
    } else if code == "103"@ {
        Some("Container restart count too high"@)
    } else if code == "104"@ {
        Some("Container in abnormal state"@)
    } else if code == "105"@ {
        Some("ImagePullBackOff"@)
    } else if code == "106"@ {
        Some("ErrImagePull"@)
    } else if code == "107"@ {
        Some("CrashLoopBackOff"@)
    } else if code == "108"@ {
        Some("ContainerCreating"@)
    } else if code == "109"@ {
        Some("CreateContainerConfigError"@)
    } else if code == "110"@ {
        Some("OOMKilled"@)
    } else if code == "111"@ {
        Some("Container terminated (non-zero exit)"@)
    } else if code == "112"@ {
        Some("Pod Running but not Ready"@)
    } else if code == "201"@ {
        Some("Container has no resource requests"@)
    } else if code == "202"@ {
        Some("Container has no resource limits"@)
    } else if code == "203"@ {
        Some("Namespace has no resource quota"@)
    } else if code == "204"@ {
        Some("CPU limit below request"@)
    } else if code == "205"@ {
        Some("Memory limit below request"@)
    } else if code == "301"@ {
        Some("LoadBalancer has no external IP"@)
    } else if code == "302"@ {
        Some("NodePort outside recommended range"@)
    } else if code == "303"@ {
        Some("Service has no selector or endpoints"@)
    } else if code == "304"@ {
        Some("DNS deployment not ready"@)
    } else if code == "305"@ {
        Some("DNS service not found"@)
    } else if code == "401"@ {
        Some("PV config or backing storage issue"@)
    } else if code == "402"@ {
        Some("PV Released, needs cleanup"@)
    } else if code == "403"@ {
        Some("PV Retained, manual action needed"@)
    } else if code == "404"@ {
        Some("PV has no reclaim policy"@)
    } else if code == "405"@ {
        Some("PVC storage class or capacity issue"@)
    } else if code == "406"@ {
        Some("PVC has data loss risk"@)
    } else if code == "407"@ {
        Some("PVC has no storage class"@)
    } else if code == "408"@ {
        Some("StorageClass has no provisioner"@)
    } else if code == "409"@ {
        Some("No default StorageClass"@)
    } else if code == "410"@ {
        Some("Multiple StorageClasses marked default"@)
    } else if code == "501"@ {
        Some("ClusterRole has excessive permissions"@)
    } else if code == "502"@ {
        Some("User has cluster-admin"@)
    } else if code == "503"@ {
        Some("ServiceAccount has cluster-admin"@)
    } else if code == "504"@ {
        Some("Pod runs as root"@)
    } else if code == "505"@ {
        Some("Container runs privileged"@)
    } else if code == "506"@ {
        Some("Container runs as root"@)
    } else if code == "507"@ {
        Some("Container allows privilege escalation"@)
    } else if code == "508"@ {
        Some("Insufficient network policy coverage"@)
    } else if code == "509"@ {
        Some("Uses default ServiceAccount"@)
    } else if code == "601"@ {
        Some("Control plane component not ready"@)
    } else if code == "602"@ {
        Some("Static Pod not ready"@)
    } else if code == "701"@ {
        Some("HPA replica range too narrow"@)
    } else if code == "702"@ {
        Some("HPA has no metrics configured"@)
    } else if code == "703"@ {
        Some("HPA target workload or metrics issue"@)
    } else if code == "704"@ {
        Some("HPA behavior limits scaling"@)
    } else if code == "705"@ {
        Some("HPA metric target not configured"@)
    } else if code == "801"@ {
        Some("CronJob suspended"@)
    } else if code == "802"@ {
        Some("CronJob job failed"@)
    } else if code == "803"@ {
        Some("CronJob schedule or controller issue"@)
    } else if code == "804"@ {
        Some("Job needs backoffLimit or resource check"@)
    } else if code == "805"@ {
        Some("Job Pod stuck or timeout adjustment needed"@)
    } else if code == "901"@ {
        Some("No ResourceQuota configured"@)
    } else if code == "902"@ {
        Some("No LimitRange configured"@)
    } else if code == "903"@ {
        Some("Critical workload has no PDB"@)
    } else if code == "904"@ {
        Some("Replica count does not satisfy PDB"@)
    } else if code == "A01"@ {
        Some("metrics-server not deployed"@)
    } else if code == "A02"@ {
        Some("kube-state-metrics not deployed"@)
    } else if code == "A03"@ {
        Some("Log aggregation not deployed"@)
    } else if code == "A04"@ {
        Some("Prometheus/monitoring not deployed"@)
    } else if code == "B01"@ {
        Some("CSR long Pending or abnormal"@)
    } else if code == "B02"@ {
        Some("Certificate expiring soon"@)
    } else if code == "B03"@ {
        Some("Certificate expired"@)
    } else {
        None
    }
}

/// Returns the short title for an issue code, or None if unknown.
pub fn short_title(code: &str) -> (r: Option<&'static str>)
    ensures
        opt_str_view(r) == short_title_spec(code@),
{
    if str_eq(code, "001") {
        return Some("Node not ready");
    }
    if str_eq(code, "002") {
        return Some("Node has resource pressure");
    }
    if str_eq(code, "003") {
        return Some("Zombie processes on node");
    }
    if str_eq(code, "004") {
        return Some("Node disk usage high (Warning)");
    }
    if str_eq(code, "005") {
        return Some("Node disk usage critical");
    }
    if str_eq(code, "101") {
        return Some("Pod in Failed state");
    }
    if str_eq(code, "102") {
        return Some("Pod cannot be scheduled");
    }
    if str_eq(code, "103") {
        return Some("Container restart count too high");
    }
    if str_eq(code, "104") {
        return Some("Container in abnormal state");
    }
    if str_eq(code, "105") {
        return Some("ImagePullBackOff");
    }
    if str_eq(code, "106") {
        return Some("ErrImagePull");
    }
    if str_eq(code, "107") {
        return Some("CrashLoopBackOff");
    }
    if str_eq(code, "108") {
        return Some("ContainerCreating");
    }
    if str_eq(code, "109") {
        return Some("CreateContainerConfigError");
    }
    if str_eq(code, "110") {
        return Some("OOMKilled");
    }
    if str_eq(code, "111") {
        return Some("Container terminated (non-zero exit)");
    }
    if str_eq(code, "112") {
        return Some("Pod Running but not Ready");
    }
    if str_eq(code, "201") {
        return Some("Container has no resource requests");
    }
    if str_eq(code, "202") {
        return Some("Container has no resource limits");
    }
    if str_eq(code, "203") {
        return Some("Namespace has no resource quota");
    }
    if str_eq(code, "204") {
        return Some("CPU limit below request");
    }
    if str_eq(code, "205") {
        return Some("Memory limit below request");
    }
    if str_eq(code, "301") {
        return Some("LoadBalancer has no external IP");
    }
    if str_eq(code, "302") {
        return Some("NodePort outside recommended range");
    }
    if str_eq(code, "303") {
        return Some("Service has no selector or endpoints");
    }
    if str_eq(code, "304") {
        return Some("DNS deployment not ready");
    }
    if str_eq(code, "305") {
        return Some("DNS service not found");
    }
    if str_eq(code, "401") {
        return Some("PV config or backing storage issue");
    }
    if str_eq(code, "402") {
        return Some("PV Released, needs cleanup");
    }
    if str_eq(code, "403") {
        return Some("PV Retained, manual action needed");
    }
    if str_eq(code, "404") {
        return Some("PV has no reclaim policy");
    }
    if str_eq(code, "405") {
        return Some("PVC storage class or capacity issue");
    }
    if str_eq(code, "406") {
        return Some("PVC has data loss risk");
    }
    if str_eq(code, "407") {
        return Some("PVC has no storage class");
    }
    if str_eq(code, "408") {
        return Some("StorageClass has no provisioner");
    }
    if str_eq(code, "409") {
        return Some("No default StorageClass");
    }
    if str_eq(code, "410") {
        return Some("Multiple StorageClasses marked default");
    }
    if str_eq(code, "501") {
        return Some("ClusterRole has excessive permissions");
    }
    if str_eq(code, "502") {
        return Some("User has cluster-admin");
    }
    if str_eq(code, "503") {
        return Some("ServiceAccount has cluster-admin");
    }
    if str_eq(code, "504") {
        return Some("Pod runs as root");
    }
    if str_eq(code, "505") {
        return Some("Container runs privileged");
    }
    if str_eq(code, "506") {
        return Some("Container runs as root");
    }
    if str_eq(code, "507") {
        return Some("Container allows privilege escalation");
    }
    if str_eq(code, "508") {
        return Some("Insufficient network policy coverage");
    }
    if str_eq(code, "509") {
        return Some("Uses default ServiceAccount");
    }
    if str_eq(code, "601") {
        return Some("Control plane component not ready");
    }
    if str_eq(code, "602") {
        return Some("Static Pod not ready");
    }
    if str_eq(code, "701") {
        return Some("HPA replica range too narrow");
    }
    if str_eq(code, "702") {
        return Some("HPA has no metrics configured");
    }
    if str_eq(code, "703") {
        return Some("HPA target workload or metrics issue");
    }
    if str_eq(code, "704") {
        return Some("HPA behavior limits scaling");
    }
    if str_eq(code, "705") {
        return Some("HPA metric target not configured");
    }
    if str_eq(code, "801") {
        return Some("CronJob suspended");
    }
    if str_eq(code, "802") {
        return Some("CronJob job failed");
    }
    if str_eq(code, "803") {
        return Some("CronJob schedule or controller issue");
    }
    if str_eq(code, "804") {
        return Some("Job needs backoffLimit or resource check");
    }
    if str_eq(code, "805") {
        return Some("Job Pod stuck or timeout adjustment needed");
    }
    if str_eq(code, "901") {
        return Some("No ResourceQuota configured");
    }
    if str_eq(code, "902") {
        return Some("No LimitRange configured");
    }
    if str_eq(code, "903") {
        return Some("Critical workload has no PDB");
    }
    if str_eq(code, "904") {
        return Some("Replica count does not satisfy PDB");
    }
    if str_eq(code, "A01") {
        return Some("metrics-server not deployed");
    }
    if str_eq(code, "A02") {
        return Some("kube-state-metrics not deployed");
    }
    if str_eq(code, "A03") {
        return Some("Log aggregation not deployed");
    }
    if str_eq(code, "A04") {
        return Some("Prometheus/monitoring not deployed");
    }
    if str_eq(code, "B01") {
        return Some("CSR long Pending or abnormal");
    }
    if str_eq(code, "B02") {
        return Some("Certificate expiring soon");
    }
    if str_eq(code, "B03") {
        return Some("Certificate expired");
    }
    None
}

/// Chinese short title of each known issue code.
pub open spec fn short_title_zh_spec(code: Seq<char>) -> Option<Seq<char>> {
    if code == "001"@ {
        Some("节点未就绪"@)
    } else if code == "002"@ {
        Some("节点存在资源压力"@)
    } else if code == "003"@ {
        Some("节点存在僵尸进程"@)
    } else if code == "004"@ {
        Some("节点磁盘使用率过高（警告）"@)
    } else if code == "005"@ {
        Some("节点磁盘使用率严重"@)
    } else if code == "101"@ {
        Some("Pod 处于失败状态"@)
    } else if code == "102"@ {
        Some("Pod 无法调度"@)
    } else if code == "103"@ {
        Some("容器重启次数过高"@)
    } else if code == "104"@ {
        Some("容器处于异常状态"@)
    } else if code == "105"@ {
        Some("镜像拉取失败（ImagePullBackOff）"@)
    } else if code == "106"@ {
        Some("镜像拉取错误（ErrImagePull）"@)
    } else if code == "107"@ {
        Some("崩溃循环（CrashLoopBackOff）"@)
    } else if code == "108"@ {
        Some("容器创建中"@)
    } else if code == "109"@ {
        Some("创建容器配置错误"@)
    } else if code == "110"@ {
        Some("OOM 被杀"@)
    } else if code == "111"@ {
        Some("容器已终止（非零退出码）"@)
    } else if code == "112"@ {
        Some("Pod 运行中但未就绪"@)
    } else if code == "201"@ {
        Some("容器未设置资源请求"@)
    } else if code == "202"@ {
        Some("容器未设置资源限制"@)
    } else if code == "203"@ {
        Some("命名空间未设置资源配额"@)
    } else if code == "204"@ {
        Some("CPU 限制低于请求"@)
    } else if code == "205"@ {
        Some("内存限制低于请求"@)
    } else if code == "301"@ {
        Some("负载均衡器无外部 IP"@)
    } else if code == "302"@ {
        Some("NodePort 超出推荐范围"@)
    } else if code == "303"@ {
        Some("服务无选择器或端点"@)
    } else if code == "304"@ {
        Some("DNS 部署未就绪"@)
    } else if code == "305"@ {
        Some("DNS 服务未找到"@)
    } else if code == "401"@ {
        Some("PV 配置或后端存储问题"@)
    } else if code == "402"@ {
        Some("PV 处于 Released，需要清理"@)
    } else if code == "403"@ {
        Some("PV 处于 Retained，需要手动处理"@)
    } else if code == "404"@ {
        Some("PV 未设置回收策略"@)
    } else if code == "405"@ {
        Some("PVC 存储类或容量问题"@)
    } else if code == "406"@ {
        Some("PVC 存在数据丢失风险"@)
    } else if code == "407"@ {
        Some("PVC 未指定存储类"@)
    } else if code == "408"@ {
        Some("StorageClass 未配置供应器"@)
    } else if code == "409"@ {
        Some("没有默认 StorageClass"@)
    } else if code == "410"@ {
        Some("多个 StorageClass 被标记为默认"@)
    } else if code == "501"@ {
        Some("ClusterRole 权限过大"@)
    } else if code == "502"@ {
        Some("用户具有 cluster-admin 权限"@)
    } else if code == "503"@ {
        Some("ServiceAccount 具有 cluster-admin 权限"@)
    } else if code == "504"@ {
        Some("Pod 以 root 用户运行"@)
    } else if code == "505"@ {
        Some("容器以特权模式运行"@)
    } else if code == "506"@ {
        Some("容器以 root 用户运行"@)
    } else if code == "507"@ {
        Some("容器允许权限提升"@)
    } else if code == "508"@ {
        Some("网络策略覆盖不足"@)
    } else if code == "509"@ {
        Some("使用默认 ServiceAccount"@)
    } else if code == "601"@ {
        Some("控制平面组件未就绪"@)
    } else if code == "602"@ {
        Some("静态 Pod 未就绪"@)
    } else if code == "701"@ {
        Some("HPA 副本范围过窄"@)
    } else if code == "702"@ {
        Some("HPA 未配置指标"@)
    } else if code == "703"@ {
        Some("HPA 目标工作负载或指标问题"@)
    } else if code == "704"@ {
        Some("HPA 行为限制伸缩"@)
    } else if code == "705"@ {
        Some("HPA 指标目标未配置"@)
    } else if code == "801"@ {
        Some("CronJob 被挂起"@)
    } else if code == "802"@ {
        Some("CronJob 任务失败"@)
    } else if code == "803"@ {
        Some("CronJob 调度或控制器问题"@)
    } else if code == "804"@ {
        Some("Job 需要 backoffLimit 或资源检查"@)
    } else if code == "805"@ {
        Some("Job Pod 卡住或需要调整超时"@)
    } else if code == "901"@ {
        Some("未配置 ResourceQuota"@)
    } else if code == "902"@ {
        Some("未配置 LimitRange"@)
    } else if code == "903"@ {
        Some("关键工作负载没有 PDB"@)
    } else if code == "904"@ {
        Some("副本数不满足 PDB"@)
    } else if code == "A01"@ {
        Some("未部署 metrics-server"@)
    } else if code == "A02"@ {
        Some("未部署 kube-state-metrics"@)
    } else if code == "A03"@ {
        Some("未部署日志聚合"@)
    } else if code == "A04"@ {
        Some("未部署 Prometheus/监控"@)
    } else if code == "B01"@ {
        Some("CSR 长时间 Pending 或异常"@)
    } else if code == "B02"@ {
        Some("证书即将过期"@)
    } else if code == "B03"@ {
        Some("证书已过期"@)
    } else {
        None
    }
}

/// Returns the Chinese short title for an issue code, or None if unknown.
pub fn short_title_zh(code: &str) -> (r: Option<&'static str>)
    ensures
        opt_str_view(r) == short_title_zh_spec(code@),
{
    if str_eq(code, "001") {
        return Some("节点未就绪");
    }
    if str_eq(code, "002") {
        return Some("节点存在资源压力");
    }
    if str_eq(code, "003") {
        return Some("节点存在僵尸进程");
    }
    if str_eq(code, "004") {
        return Some("节点磁盘使用率过高（警告）");
    }
    if str_eq(code, "005") {
        return Some("节点磁盘使用率严重");
    }
    if str_eq(code, "101") {
        return Some("Pod 处于失败状态");
    }
    if str_eq(code, "102") {
        return Some("Pod 无法调度");
    }
    if str_eq(code, "103") {
        return Some("容器重启次数过高");
    }
    if str_eq(code, "104") {
        return Some("容器处于异常状态");
    }
    if str_eq(code, "105") {
        return Some("镜像拉取失败（ImagePullBackOff）");
    }
    if str_eq(code, "106") {
        return Some("镜像拉取错误（ErrImagePull）");
    }
    if str_eq(code, "107") {
        return Some("崩溃循环（CrashLoopBackOff）");
    }
    if str_eq(code, "108") {
        return Some("容器创建中");
    }
    if str_eq(code, "109") {
        return Some("创建容器配置错误");
    }
    if str_eq(code, "110") {
        return Some("OOM 被杀");
    }
    if str_eq(code, "111") {
        return Some("容器已终止（非零退出码）");
    }
    if str_eq(code, "112") {
        return Some("Pod 运行中但未就绪");
    }
    if str_eq(code, "201") {
        return Some("容器未设置资源请求");
    }
    if str_eq(code, "202") {
        return Some("容器未设置资源限制");
    }
    if str_eq(code, "203") {
        return Some("命名空间未设置资源配额");
    }
    if str_eq(code, "204") {
        return Some("CPU 限制低于请求");
    }
    if str_eq(code, "205") {
        return Some("内存限制低于请求");
    }
    if str_eq(code, "301") {
        return Some("负载均衡器无外部 IP");
    }
    if str_eq(code, "302") {
        return Some("NodePort 超出推荐范围");
    }
    if str_eq(code, "303") {
        return Some("服务无选择器或端点");
    }
    if str_eq(code, "304") {
        return Some("DNS 部署未就绪");
    }
    if str_eq(code, "305") {
        return Some("DNS 服务未找到");
    }
    if str_eq(code, "401") {
        return Some("PV 配置或后端存储问题");
    }
    if str_eq(code, "402") {
        return Some("PV 处于 Released，需要清理");
    }
    if str_eq(code, "403") {
        return Some("PV 处于 Retained，需要手动处理");
    }
    if str_eq(code, "404") {
        return Some("PV 未设置回收策略");
    }
    if str_eq(code, "405") {
        return Some("PVC 存储类或容量问题");
    }
    if str_eq(code, "406") {
        return Some("PVC 存在数据丢失风险");
    }
    if str_eq(code, "407") {
        return Some("PVC 未指定存储类");
    }
    if str_eq(code, "408") {
        return Some("StorageClass 未配置供应器");
    }
    if str_eq(code, "409") {
        return Some("没有默认 StorageClass");
    }
    if str_eq(code, "410") {
        return Some("多个 StorageClass 被标记为默认");
    }
    if str_eq(code, "501") {
        return Some("ClusterRole 权限过大");
    }
    if str_eq(code, "502") {
        return Some("用户具有 cluster-admin 权限");
    }
    if str_eq(code, "503") {
        return Some("ServiceAccount 具有 cluster-admin 权限");
    }
    if str_eq(code, "504") {
        return Some("Pod 以 root 用户运行");
    }
    if str_eq(code, "505") {
        return Some("容器以特权模式运行");
    }
    if str_eq(code, "506") {
        return Some("容器以 root 用户运行");
    }
    if str_eq(code, "507") {
        return Some("容器允许权限提升");
    }
    if str_eq(code, "508") {
        return Some("网络策略覆盖不足");
    }
    if str_eq(code, "509") {
        return Some("使用默认 ServiceAccount");
    }
    if str_eq(code, "601") {
        return Some("控制平面组件未就绪");
    }
    if str_eq(code, "602") {
        return Some("静态 Pod 未就绪");
    }
    if str_eq(code, "701") {
        return Some("HPA 副本范围过窄");
    }
    if str_eq(code, "702") {
        return Some("HPA 未配置指标");
    }
    if str_eq(code, "703") {
        return Some("HPA 目标工作负载或指标问题");
    }
    if str_eq(code, "704") {
        return Some("HPA 行为限制伸缩");
    }
    if str_eq(code, "705") {
        return Some("HPA 指标目标未配置");
    }
    if str_eq(code, "801") {
        return Some("CronJob 被挂起");
    }
    if str_eq(code, "802") {
        return Some("CronJob 任务失败");
    }
    if str_eq(code, "803") {
        return Some("CronJob 调度或控制器问题");
    }
    if str_eq(code, "804") {
        return Some("Job 需要 backoffLimit 或资源检查");
    }
    if str_eq(code, "805") {
        return Some("Job Pod 卡住或需要调整超时");
    }
    if str_eq(code, "901") {
        return Some("未配置 ResourceQuota");
    }
    if str_eq(code, "902") {
        return Some("未配置 LimitRange");
    }
    if str_eq(code, "903") {
        return Some("关键工作负载没有 PDB");
    }
    if str_eq(code, "904") {
        return Some("副本数不满足 PDB");
    }
    if str_eq(code, "A01") {
        return Some("未部署 metrics-server");
    }
    if str_eq(code, "A02") {
        return Some("未部署 kube-state-metrics");
    }
    if str_eq(code, "A03") {
        return Some("未部署日志聚合");
    }
    if str_eq(code, "A04") {
        return Some("未部署 Prometheus/监控");
    }
    if str_eq(code, "B01") {
        return Some("CSR 长时间 Pending 或异常");
    }
    if str_eq(code, "B02") {
        return Some("证书即将过期");
    }
    if str_eq(code, "B03") {
        return Some("证书已过期");
    }
    None
}


/// The documented issue codes: 001–005, 101–112, 201–205, 301–305,
/// 401–410, 501–509, 601–602, 701–705, 801–805, 901–904, A01–A04 and
/// B01–B03.
pub open spec fn documented_code(code: Seq<char>) -> bool {
        code == "001"@ || code == "002"@ || code == "003"@ || code == "004"@ || code == "005"@ || code == "101"@ ||
        code == "102"@ || code == "103"@ || code == "104"@ || code == "105"@ || code == "106"@ || code == "107"@ ||
        code == "108"@ || code == "109"@ || code == "110"@ || code == "111"@ || code == "112"@ || code == "201"@ ||
        code == "202"@ || code == "203"@ || code == "204"@ || code == "205"@ || code == "301"@ || code == "302"@ ||
        code == "303"@ || code == "304"@ || code == "305"@ || code == "401"@ || code == "402"@ || code == "403"@ ||
        code == "404"@ || code == "405"@ || code == "406"@ || code == "407"@ || code == "408"@ || code == "409"@ ||
        code == "410"@ || code == "501"@ || code == "502"@ || code == "503"@ || code == "504"@ || code == "505"@ ||
        code == "506"@ || code == "507"@ || code == "508"@ || code == "509"@ || code == "601"@ || code == "602"@ ||
        code == "701"@ || code == "702"@ || code == "703"@ || code == "704"@ || code == "705"@ || code == "801"@ ||
        code == "802"@ || code == "803"@ || code == "804"@ || code == "805"@ || code == "901"@ || code == "902"@ ||
        code == "903"@ || code == "904"@ || code == "A01"@ || code == "A02"@ || code == "A03"@ || code == "A04"@ ||
        code == "B01"@ || code == "B02"@ || code == "B03"@
}

/// The English and the Chinese title tables know the same codes, and these
/// are exactly the documented ones.
pub proof fn law_title_tables_cover_documented_codes(code: Seq<char>)
    ensures
        short_title_spec(code) is Some <==> documented_code(code),
        short_title_zh_spec(code) is Some <==> documented_code(code),
{
}

} // verus!
