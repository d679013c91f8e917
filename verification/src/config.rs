//! Configuration of server, node inspector, node collection, reports and
//! authentication: defaults, environment overrides, and password checks.

use argon2::password_hash::rand_core::OsRng;
use argon2::password_hash::SaltString;
use argon2::{Argon2, PasswordHash, PasswordHasher, PasswordVerifier};
use vstd::prelude::*;

use crate::utils::text::{
    chars_of, lower_text, owned, parse_u16, parse_u16_vec, push_str, starts_with, starts_with_str,
    str_eq, string_of, to_lowercase, trim, trim_end_char, trim_str,
};

verus! {

/// How the main program reaches the node inspector pods.
#[derive(Debug, Clone, Copy, PartialEq, Eq, Structural)]
pub enum NodeAccessMode {
    /// The pod IP of each node inspector (the default).
    PodIp,
    /// Reserved: through a service (handled as pod IP for now).
    ClusterIpService,
}

impl Default for NodeAccessMode {
    fn default() -> (r: Self)
        ensures
            r == NodeAccessMode::PodIp,
    {
        NodeAccessMode::PodIp
    }
}

pub open spec fn mode_name(m: NodeAccessMode) -> Seq<char> {
    match m {
        NodeAccessMode::PodIp => "pod_ip"@,
        NodeAccessMode::ClusterIpService => "cluster_ip_service"@,
    }
}

/// The mode named by a configuration value (trimmed, any case), with its
/// aliases.
pub open spec fn mode_of(s: Seq<char>) -> Option<NodeAccessMode> {
    mode_word(lower_text(trim(s)))
}

/// The access mode a lower-case word names.
pub open spec fn mode_word(t: Seq<char>) -> Option<NodeAccessMode> {
    if t == "pod_ip"@ || t == "podip"@ || t == "pod"@ {
        Some(NodeAccessMode::PodIp)
    } else if t == "cluster_ip_service"@ || t == "service"@ {
        Some(NodeAccessMode::ClusterIpService)
    } else {
        None
    }
}

/// The access mode a lower-case word names: `pod_ip`, `podip` or `pod`
/// for the pod IP mode, `cluster_ip_service` or `service` for the service
/// mode.
pub fn mode_of_word(l: &str) -> (r: Option<NodeAccessMode>)
    ensures
        r == mode_word(l@),
{
    if str_eq(l, "pod_ip") || str_eq(l, "podip") || str_eq(l, "pod") {
        Some(NodeAccessMode::PodIp)
    } else if str_eq(l, "cluster_ip_service") || str_eq(l, "service") {
        Some(NodeAccessMode::ClusterIpService)
    } else {
        None
    }
}

impl NodeAccessMode {
    /// The configuration name of the mode.
    pub fn name(&self) -> (r: &'static str)
        ensures
            r@ == mode_name(*self),
    {
        match self {
            NodeAccessMode::PodIp => "pod_ip",
            NodeAccessMode::ClusterIpService => "cluster_ip_service",
        }
    }

    /// Parses `pod_ip` / `cluster_ip_service` and their aliases, ignoring
    /// case and surrounding white space.
    pub fn parse(s: &str) -> (r: Option<NodeAccessMode>)
        ensures
            r == mode_of(s@),
    {
        let t = trim_str(s);
        let ts = string_of(&t);
        let low = to_lowercase(ts.as_str());
        mode_of_word(low.as_str())
    }
}

/// The access mode given on the command line: a service mode by its names
/// (any case), the pod IP mode otherwise.
pub open spec fn access_mode_arg(s: Seq<char>) -> NodeAccessMode {
    access_mode_word(lower_text(s))
}

/// The access mode a lower-case command-line word gives.
pub open spec fn access_mode_word(t: Seq<char>) -> NodeAccessMode {
    if t == "cluster_ip_service"@ || t == "service"@ {
        NodeAccessMode::ClusterIpService
    } else {
        NodeAccessMode::PodIp
    }
}

/// The access mode a lower-case command-line word gives: the service mode
/// for `cluster_ip_service` or `service`, the pod IP mode otherwise.
pub fn access_mode_of_word(l: &str) -> (r: NodeAccessMode)
    ensures
        r == access_mode_word(l@),
{
    if str_eq(l, "cluster_ip_service") || str_eq(l, "service") {
        NodeAccessMode::ClusterIpService
    } else {
        NodeAccessMode::PodIp
    }
}

pub fn parse_access_mode(s: &str) -> (r: NodeAccessMode)
    ensures
        r == access_mode_arg(s@),
{
    let low = to_lowercase(s);
    access_mode_of_word(low.as_str())
}

/// Options of node collection.
#[derive(Debug, Clone)]
pub struct NodeAccess {
    pub mode: NodeAccessMode,
    /// Port of the node inspector.
    pub port: u16,
    /// Timeout of a request to a node inspector pod, in seconds.
    pub timeout_secs: u64,
}

impl Default for NodeAccess {
    fn default() -> (r: Self)
        ensures
            r.mode == NodeAccessMode::PodIp,
            r.port == 9090,
            r.timeout_secs == 30,
    {
        NodeAccess { mode: NodeAccessMode::PodIp, port: 9090, timeout_secs: 30 }
    }
}

/// An account: user name and password hash.
#[derive(Debug, Clone)]
pub struct UserConfig {
    pub username: String,
    pub password_hash: String,
}

/// Authentication settings.
#[derive(Debug, Clone)]
pub struct AuthConfig {
    /// Whether login is required (when off every API is public).
    pub enabled: bool,
    /// Key that tokens are signed with.
    pub secret: String,
    /// Token lifetime in seconds.
    pub token_ttl_secs: u64,
    pub users: Vec<UserConfig>,
}

impl Default for AuthConfig {
    fn default() -> (r: Self)
        ensures
            r.enabled,
            r.secret@.len() == 0,
            r.token_ttl_secs == 28800,
            r.users@.len() == 0,
    {
        AuthConfig { enabled: true, secret: String::new(), token_ttl_secs: 28800, users: Vec::new() }
    }
}

/// The whole configuration.
#[derive(Debug, Clone)]
pub struct Config {
    pub server_addr: String,
    pub web_base: String,
    pub node_inspector_addr: String,
    pub node_host_root: String,
    pub node_inspector_namespace: String,
    pub node_inspector_label: String,
    pub node_access: NodeAccess,
    pub reports_dir: String,
    pub default_format: String,
    pub default_lang: String,
    pub default_level: String,
    pub kubeconfig: Option<String>,
    pub logs_dir: String,
    pub auth: AuthConfig,
}

/// Environment values that override the configuration (`KCC_*`), each
/// present when the variable is set.
#[derive(Debug, Clone)]
pub struct EnvOverrides {
    pub server_addr: Option<String>,
    pub web_base: Option<String>,
    pub node_inspector_addr: Option<String>,
    pub host_root: Option<String>,
    pub inspector_namespace: Option<String>,
    pub inspector_label: Option<String>,
    pub node_access_port: Option<String>,
    pub node_access_mode: Option<String>,
    pub reports_dir: Option<String>,
    pub logs_dir: Option<String>,
    pub default_format: Option<String>,
    pub default_lang: Option<String>,
    pub default_level: Option<String>,
    pub kubeconfig: Option<String>,
    pub auth_enabled: Option<String>,
}

/// A setting after an override: the override when present.
pub open spec fn overridden(cur: Seq<char>, o: Option<String>) -> Seq<char> {
    match o {
        Some(v) => v@,
        None => cur,
    }
}

/// Whether a value turns a switch on: `1`, `true`, `yes` or `on` (trimmed,
/// any case).
pub open spec fn is_on(v: Seq<char>) -> bool {
    on_word(lower_text(trim(v)))
}

/// Whether a lower-case word switches a setting on.
pub open spec fn on_word(t: Seq<char>) -> bool {
    t == "1"@ || t == "true"@ || t == "yes"@ || t == "on"@
}

/// Whether a lower-case word switches a setting on: `1`, `true`, `yes` or
/// `on`.
pub fn switch_word_on(l: &str) -> (r: bool)
    ensures
        r == on_word(l@),
{
    str_eq(l, "1") || str_eq(l, "true") || str_eq(l, "yes") || str_eq(l, "on")
}

fn set_if(cur: &mut String, o: &Option<String>)
    ensures
        final(cur)@ == overridden(old(cur)@, *o),
{
    if let Some(v) = o {
        *cur = owned(v.as_str());
    }
}

/// Removes every trailing `/`.
pub fn trim_trailing_slashes(s: &str) -> (r: String)
    ensures
        r@ == trim_end_char(s@, '/'),
{
    let v = chars_of(s);
    let mut n: usize = v.len();
    proof {
        assert(v@.take(n as int) =~= v@);
    }
    while n > 0 && v[n - 1] == '/'
        invariant
            n <= v.len(),
            trim_end_char(s@, '/') == trim_end_char(v@.take(n as int), '/'),
        decreases n,
    {
        proof {
            assert(v@.take(n as int).drop_last() =~= v@.take(n - 1));
        }
        n = n - 1;
    }
    let mut out = String::new();
    let mut i: usize = 0;
    while i < n
        invariant
            i <= n <= v.len(),
            out@ == v@.take(i as int),
        decreases n - i,
    {
        crate::utils::text::push_char(&mut out, v[i]);
        proof {
            assert(v@.take(i as int + 1) =~= v@.take(i as int).push(v@[i as int]));
        }
        i = i + 1;
    }
    out
}

fn switch_on(v: &str) -> (r: bool)
    ensures
        r == is_on(v@),
{
    let t = trim_str(v);
    let ts = string_of(&t);
    let low = to_lowercase(ts.as_str());
    switch_word_on(low.as_str())
}

impl Config {
    /// The built-in defaults, with the signing secret and the initial
    /// accounts given.
    pub fn defaults_with(secret: String, users: Vec<UserConfig>) -> (r: Config)
        ensures
            r.server_addr@ == "0.0.0.0:5005"@,
            r.web_base@ == "/kcc"@,
            r.node_inspector_addr@ == "0.0.0.0:9090"@,
            r.node_host_root@ == "/host"@,
            r.node_inspector_namespace@ == "kube-system"@,
            r.node_inspector_label@ == "app=kcc-inspector"@,
            r.node_access.mode == NodeAccessMode::PodIp,
            r.node_access.port == 9090,
            r.node_access.timeout_secs == 30,
            r.reports_dir@ == "./reports"@,
            r.default_format@ == "html"@,
            r.default_lang@ == "zh"@,
            r.default_level@ == "warning,critical"@,
            r.kubeconfig is None,
            r.logs_dir@ == "./logs"@,
            r.auth.enabled,
            r.auth.secret == secret,
            r.auth.token_ttl_secs == 28800,
            r.auth.users == users,
    {
        Config {
            server_addr: owned("0.0.0.0:5005"),
            web_base: owned("/kcc"),
            node_inspector_addr: owned("0.0.0.0:9090"),
            node_host_root: owned("/host"),
            node_inspector_namespace: owned("kube-system"),
            node_inspector_label: owned("app=kcc-inspector"),
            node_access: NodeAccess::default(),
            reports_dir: owned("./reports"),
            default_format: owned("html"),
            default_lang: owned("zh"),
            default_level: owned("warning,critical"),
            kubeconfig: None,
            logs_dir: owned("./logs"),
            auth: AuthConfig { enabled: true, secret, token_ttl_secs: 28800, users },
        }
    }

    /// Applies the environment overrides: each variable that is set
    /// replaces its setting; the web base loses trailing slashes; the port
    /// and the access mode are taken only when they parse; the auth switch
    /// is on exactly for `1`, `true`, `yes`, `on`.
    pub fn apply_env(&mut self, env: &EnvOverrides)
        ensures
            final(self).server_addr@ == overridden(old(self).server_addr@, env.server_addr),
            final(self).web_base@ == match env.web_base {
                Some(v) => trim_end_char(v@, '/'),
                None => old(self).web_base@,
            },
            final(self).node_inspector_addr@ == overridden(
                old(self).node_inspector_addr@,
                env.node_inspector_addr,
            ),
            final(self).node_host_root@ == overridden(old(self).node_host_root@, env.host_root),
            final(self).node_inspector_namespace@ == overridden(
                old(self).node_inspector_namespace@,
                env.inspector_namespace,
            ),
            final(self).node_inspector_label@ == overridden(
                old(self).node_inspector_label@,
                env.inspector_label,
            ),
            final(self).node_access.port == match env.node_access_port {
                Some(v) => match parse_u16(v@) {
                    Some(p) => p,
                    None => old(self).node_access.port,
                },
                None => old(self).node_access.port,
            },
            final(self).node_access.mode == match env.node_access_mode {
                Some(v) => match mode_of(v@) {
                    Some(m) => m,
                    None => old(self).node_access.mode,
                },
                None => old(self).node_access.mode,
            },
            final(self).node_access.timeout_secs == old(self).node_access.timeout_secs,
            final(self).reports_dir@ == overridden(old(self).reports_dir@, env.reports_dir),
            final(self).logs_dir@ == overridden(old(self).logs_dir@, env.logs_dir),
            final(self).default_format@ == overridden(old(self).default_format@, env.default_format),
            final(self).default_lang@ == overridden(old(self).default_lang@, env.default_lang),
            final(self).default_level@ == overridden(old(self).default_level@, env.default_level),
            final(self).kubeconfig == match env.kubeconfig {
                Some(v) => Some(v),
                None => old(self).kubeconfig,
            },
            final(self).auth.enabled == match env.auth_enabled {
                Some(v) => is_on(v@),
                None => old(self).auth.enabled,
            },
            final(self).auth.secret == old(self).auth.secret,
            final(self).auth.token_ttl_secs == old(self).auth.token_ttl_secs,
            final(self).auth.users == old(self).auth.users,
    {
        set_if(&mut self.server_addr, &env.server_addr);
        if let Some(v) = &env.web_base {
            self.web_base = trim_trailing_slashes(v.as_str());
        }
        set_if(&mut self.node_inspector_addr, &env.node_inspector_addr);
        set_if(&mut self.node_host_root, &env.host_root);
        set_if(&mut self.node_inspector_namespace, &env.inspector_namespace);
        set_if(&mut self.node_inspector_label, &env.inspector_label);
        if let Some(v) = &env.node_access_port {
            let pv = chars_of(v.as_str());
            if let Some(p) = parse_u16_vec(&pv) {
                self.node_access.port = p;
            }
        }
        if let Some(v) = &env.node_access_mode {
            if let Some(m) = NodeAccessMode::parse(v.as_str()) {
                self.node_access.mode = m;
            }
        }
        set_if(&mut self.reports_dir, &env.reports_dir);
        set_if(&mut self.logs_dir, &env.logs_dir);
        set_if(&mut self.default_format, &env.default_format);
        set_if(&mut self.default_lang, &env.default_lang);
        set_if(&mut self.default_level, &env.default_level);
        if let Some(v) = &env.kubeconfig {
            self.kubeconfig = Some(v.clone());
        }
        if let Some(v) = &env.auth_enabled {
            self.auth.enabled = switch_on(v.as_str());
        }
    }
}

// ---------------------------------------------------------------------------
// Passwords
// ---------------------------------------------------------------------------

/// `argon2::Argon2::default().hash_password` with a fresh random salt from
/// `OsRng`, as a PHC string. The salt is random, so the hash itself is not
/// named; what holds of every salt is stated: the PHC string starts with
/// `$` and the algorithm name (`argon2id` for the default hasher), and
/// verifying the same password against it succeeds, since verification
/// hashes again with the salt and parameters that the string records.
/// Hashing fails only for a password over `MAX_PWD_LEN` (2^32 - 1) bytes;
/// fewer than 2^30 characters make at most 2^32 - 4 bytes.
#[verifier::external_body]
fn argon2_hash(plain: &str) -> (r: Option<String>)
    ensures
        plain@.len() < 0x4000_0000 ==> r is Some,
        match r {
            Some(h) => starts_with(h@, "$argon2"@) && argon2_accepts(plain@, h@),
            None => true,
        },
{
    let salt = SaltString::generate(&mut OsRng);
    match Argon2::default().hash_password(plain.as_bytes(), &salt) {
        Ok(h) => Some(h.to_string()),
        Err(_) => None,
    }
}

/// Hashes a password with argon2 (PHC string) that argon2 then accepts for
/// this password; should hashing fail (only for a password of 2^32 bytes
/// or more), the password is kept as `$<password>$`.
pub fn hash_password(plain: &str) -> (r: String)
    ensures
        (starts_with(r@, "$argon2"@) && argon2_accepts(plain@, r@))
            || r@ == "$"@ + plain@ + "$"@,
        plain@.len() < 0x4000_0000 ==> starts_with(r@, "$argon2"@) && argon2_accepts(plain@, r@),
{
    match argon2_hash(plain) {
        Some(h) => h,
        None => {
            let mut s = owned("$");
            push_str(&mut s, plain);
            push_str(&mut s, "$");
            s
        },
    }
}

/// Whether argon2 accepts the password for the PHC hash
/// (`PasswordHash::new`, then `Argon2::default().verify_password`).
pub uninterp spec fn argon2_accepts(plain: Seq<char>, hash: Seq<char>) -> bool;

/// `argon2::PasswordHash::new` on the hash, then
/// `Argon2::default().verify_password`; a hash that does not parse is
/// refused.
#[verifier::external_body]
fn argon2_verify(plain: &str, hash: &str) -> (r: bool)
    ensures
        r == argon2_accepts(plain@, hash@),
{
    match PasswordHash::new(hash) {
        Ok(parsed) => Argon2::default().verify_password(plain.as_bytes(), &parsed).is_ok(),
        Err(_) => false,
    }
}

/// Checks a password against a stored hash: an argon2 PHC hash is verified
/// by argon2; anything else is compared as plain text.
pub fn verify_password(plain: &str, hash: &str) -> (r: bool)
    ensures
        r == if starts_with(hash@, "$argon2"@) {
            argon2_accepts(plain@, hash@)
        } else {
            plain@ == hash@
        },
{
    let hv = chars_of(hash);
    if !starts_with_str(&hv, "$argon2") {
        return str_eq(plain, hash);
    }
    argon2_verify(plain, hash)
}

/// Whether the password is accepted for the user.
pub open spec fn accepts(u: UserConfig, username: Seq<char>, password: Seq<char>) -> bool {
    u.username@ == username && if starts_with(u.password_hash@, "$argon2"@) {
        argon2_accepts(password, u.password_hash@)
    } else {
        password == u.password_hash@
    }
}

/// Whether some account has this user name and accepts the password.
pub fn authenticate(users: &Vec<UserConfig>, username: &str, password: &str) -> (r: bool)
    ensures
        r == exists|i: int| 0 <= i < users.len() && accepts(#[trigger] users@[i], username@, password@),
{
    let mut i: usize = 0;
    while i < users.len()
        invariant
            i <= users.len(),
            forall|k: int| 0 <= k < i ==> !accepts(#[trigger] users@[k], username@, password@),
        decreases users.len() - i,
    {
        let u = &users[i];
        if str_eq(u.username.as_str(), username) && verify_password(password, u.password_hash.as_str()) {
            proof {
                assert(accepts(users@[i as int], username@, password@));
            }
            return true;
        }
        i = i + 1;
    }
    false
}

} // verus!
