//! Node-local inspection: the parsing and decisions of the node collector.
//!
//! The collector reads files under the host root (mounted into the inspector
//! pod) and the process table; what it reads is handed to these functions as
//! text, and they compute the node's records from it.

use vstd::prelude::*;

use crate::inspections::certificates::{parse_x509_summary, x509_summary};
use crate::node_inspection::types::{NodeKernel, NodeSecurity, NodeServices};
use crate::inspections::runner::{lemma_smallest_distinct_keeps_all, smallest_distinct, views};
use crate::utils::text::{
    chars_of, contains, contains_str, dec, ends_with, ends_with_str, eq_str, eq_vec, lines, lines_str,
    owned, parse_u64, parse_u64_vec, push_chars, push_dec, push_str, split_vec, starts_with,
    starts_with_str, str_eq, string_of, sub_vec, trim, trim_end_char, trim_start_char, trim_vec,
    words, words_str, words_vec, lemma_push_deep_view,
};

verus! {

// ---------------------------------------------------------------------------
// Paths
// ---------------------------------------------------------------------------

/// `Path::join` on Unix: an absolute `p` replaces the base; otherwise `p` is
/// appended, with a `/` in between unless the base is empty or ends in one.
pub open spec fn path_join(base: Seq<char>, p: Seq<char>) -> Seq<char> {
    if p.len() > 0 && p[0] == '/' {
        p
    } else if base.len() == 0 || base.last() == '/' {
        base + p
    } else {
        base + "/"@ + p
    }
}

pub fn path_join_exec(base: &str, p: &str) -> (r: String)
    ensures
        r@ == path_join(base@, p@),
{
    let pv = chars_of(p);
    let bv = chars_of(base);
    if pv.len() > 0 && pv[0] == '/' {
        return owned(p);
    }
    let mut out = owned(base);
    if !(bv.len() == 0 || bv[bv.len() - 1] == '/') {
        push_str(&mut out, "/");
    }
    push_str(&mut out, p);
    out
}

/// Collector of node-local data rooted at the host filesystem mount.
#[derive(Clone)]
pub struct LocalCollector {
    root: String,
    node_name: String,
}

impl LocalCollector {
    pub closed spec fn root_view(&self) -> Seq<char> {
        self.root@
    }

    pub closed spec fn node_name_view(&self) -> Seq<char> {
        self.node_name@
    }

    /// A collector for the host root directory and the node's name.
    pub fn new(root: String, node_name: String) -> (r: Self)
        ensures
            r.root_view() == root@,
            r.node_name_view() == node_name@,
    {
        LocalCollector { root, node_name }
    }

    /// The node name (no collection is done).
    pub fn node_name(&self) -> (r: &str)
        ensures
            r@ == self.node_name_view(),
    {
        self.node_name.as_str()
    }

    /// The host root directory.
    pub fn root(&self) -> (r: &str)
        ensures
            r@ == self.root_view(),
    {
        self.root.as_str()
    }

    /// `<root>/proc`.
    pub fn proc(&self) -> (r: String)
        ensures
            r@ == path_join(self.root_view(), "proc"@),
    {
        path_join_exec(self.root.as_str(), "proc")
    }

    /// `<root>/sys`.
    pub fn sys(&self) -> (r: String)
        ensures
            r@ == path_join(self.root_view(), "sys"@),
    {
        path_join_exec(self.root.as_str(), "sys")
    }

    /// `<root>/etc`.
    pub fn etc(&self) -> (r: String)
        ensures
            r@ == path_join(self.root_view(), "etc"@),
    {
        path_join_exec(self.root.as_str(), "etc")
    }

    /// Maps a host mount point to the path seen inside the pod (`/` is the root).
    pub fn mapped_path(&self, mount: &str) -> (r: String)
        ensures
            r@ == (if mount@ == "/"@ {
                self.root_view()
            } else {
                path_join(self.root_view(), trim_start_char(mount@, '/'))
            }),
    {
        if str_eq(mount, "/") {
            return owned(self.root.as_str());
        }
        let rel = strip_leading_slashes(mount);
        path_join_exec(self.root.as_str(), rel.as_str())
    }

    /// Path of a host file: the path itself when it exists as given,
    /// otherwise the path under the root.
    pub fn mapped_path_abs(&self, p: &str, exists_as_given: bool) -> (r: String)
        ensures
            r@ == (if exists_as_given {
                p@
            } else {
                path_join(self.root_view(), trim_start_char(p@, '/'))
            }),
    {
        if exists_as_given {
            return owned(p);
        }
        let rel = strip_leading_slashes(p);
        path_join_exec(self.root.as_str(), rel.as_str())
    }
}

/// `p.trim_start_matches('/')`.
pub fn strip_leading_slashes(p: &str) -> (r: String)
    ensures
        r@ == trim_start_char(p@, '/'),
{
    let v = chars_of(p);
    let mut i: usize = 0;
    proof {
        assert(v@.skip(0) =~= v@);
    }
    while i < v.len() && v[i] == '/'
        invariant
            v@ == p@,
            i <= v.len(),
            trim_start_char(p@, '/') == trim_start_char(v@.skip(i as int), '/'),
        decreases v.len() - i,
    {
        proof {
            assert(v@.skip(i as int).drop_first() =~= v@.skip(i as int + 1));
        }
        i = i + 1;
    }
    let rest = sub_vec(&v, i, v.len());
    proof {
        assert(rest@ =~= v@.skip(i as int));
    }
    string_of(&rest)
}

// ---------------------------------------------------------------------------
// Durations
// ---------------------------------------------------------------------------

/// Uptime text: days and hours, hours and minutes, or seconds.
pub open spec fn uptime_text(secs: nat) -> Seq<char> {
    if secs >= 86400 {
        let hours = (secs % 86400) / 3600;
        if hours > 0 {
            dec(secs / 86400) + " day(s) "@ + dec(hours) + " hour(s)"@
        } else {
            dec(secs / 86400) + " day(s)"@
        }
    } else if secs >= 3600 {
        dec(secs / 3600) + " hour(s) "@ + dec((secs % 3600) / 60) + " min"@
    } else {
        dec(secs) + " sec"@
    }
}

/// Formats an uptime in seconds.
pub fn format_duration(secs: u64) -> (r: String)
    ensures
        r@ == uptime_text(secs as nat),
{
    let mut out = String::new();
    if secs >= 86400 {
        let days = secs / 86400;
        let hours = (secs % 86400) / 3600;
        push_dec(&mut out, days);
        if hours > 0 {
            push_str(&mut out, " day(s) ");
            push_dec(&mut out, hours);
            push_str(&mut out, " hour(s)");
        } else {
            push_str(&mut out, " day(s)");
        }
    } else if secs >= 3600 {
        push_dec(&mut out, secs / 3600);
        push_str(&mut out, " hour(s) ");
        push_dec(&mut out, (secs % 3600) / 60);
        push_str(&mut out, " min");
    } else {
        push_dec(&mut out, secs);
        push_str(&mut out, " sec");
    }
    proof {
        assert(out@ =~= uptime_text(secs as nat));
    }
    out
}

// ---------------------------------------------------------------------------
// Line-oriented lookups
// ---------------------------------------------------------------------------

/// The first line that starts with `key`.
pub open spec fn first_with_prefix(ls: Seq<Seq<char>>, key: Seq<char>) -> Option<Seq<char>>
    decreases ls.len(),
{
    if ls.len() == 0 {
        None
    } else if starts_with(ls[0], key) {
        Some(ls[0])
    } else {
        first_with_prefix(ls.drop_first(), key)
    }
}

/// Index of the first line that starts with `key`.
pub fn find_with_prefix(ls: &Vec<Vec<char>>, key: &str) -> (r: Option<usize>)
    ensures
        match first_with_prefix(ls.deep_view(), key@) {
            Some(l) => r is Some && r->0 < ls.len() && ls.deep_view()[r->0 as int] == l
                && starts_with(l, key@),
            None => r is None,
        },
{
    let kv = chars_of(key);
    let mut i: usize = 0;
    proof {
        assert(ls.deep_view().skip(0) =~= ls.deep_view());
    }
    while i < ls.len()
        invariant
            kv@ == key@,
            i <= ls.len(),
            first_with_prefix(ls.deep_view(), key@) == first_with_prefix(
                ls.deep_view().skip(i as int),
                key@,
            ),
        decreases ls.len() - i,
    {
        proof {
            assert(ls.deep_view()[i as int] == ls@[i as int]@);
            assert(ls.deep_view().skip(i as int)[0] == ls.deep_view()[i as int]);
            assert(ls.deep_view().skip(i as int).drop_first() =~= ls.deep_view().skip(
                i as int + 1,
            ));
        }
        if crate::utils::text::starts_with_vec(&ls[i], &kv) {
            return Some(i);
        }
        i = i + 1;
    }
    None
}

/// Value of a `/proc/meminfo` field: the second word of the first line that
/// starts with `key`, as a `u64`.
pub open spec fn meminfo_value(content: Seq<char>, key: Seq<char>) -> Option<u64> {
    match first_with_prefix(lines(content), key) {
        Some(l) => {
            let w = words(l);
            if w.len() > 1 {
                parse_u64(w[1])
            } else {
                None
            }
        },
        None => None,
    }
}

/// Reads a numeric field (kB) of `/proc/meminfo` text.
pub fn meminfo_field(content: &Option<String>, key: &str) -> (r: Option<u64>)
    ensures
        r == (match content {
            Some(c) => meminfo_value(c@, key@),
            None => None,
        }),
{
    let c = match content {
        Some(c) => c,
        None => return None,
    };
    let ls = lines_str(c.as_str());
    match find_with_prefix(&ls, key) {
        Some(i) => {
            proof {
                assert(ls.deep_view()[i as int] == ls@[i as int]@);
            }
            let w = words_vec(&ls[i]);
            if w.len() > 1 {
                proof {
                    assert(w.deep_view()[1] == w@[1]@);
                }
                parse_u64_vec(&w[1])
            } else {
                None
            }
        },
        None => None,
    }
}

/// The words that parse as `u64`, in order.
pub open spec fn parsed_numbers(ws: Seq<Seq<char>>) -> Seq<u64>
    decreases ws.len(),
{
    if ws.len() == 0 {
        seq![]
    } else {
        let rest = parsed_numbers(ws.drop_last());
        match parse_u64(ws.last()) {
            Some(n) => rest.push(n),
            None => rest,
        }
    }
}

pub open spec fn sum_of(s: Seq<u64>) -> nat
    decreases s.len(),
{
    if s.len() == 0 {
        0
    } else {
        sum_of(s.drop_last()) + s.last() as nat
    }
}

/// `(total, idle)` of the aggregate `cpu ` line of `/proc/stat`: the numbers
/// after the label (words that are not numbers skipped) must be at least
/// four; the total is their sum (modulo 2^64) and idle the fourth.
pub open spec fn cpu_idle_spec(content: Seq<char>) -> (Option<u64>, Option<u64>) {
    match first_with_prefix(lines(content), "cpu "@) {
        Some(l) => {
            let ws = words(l);
            let nums = if ws.len() == 0 {
                seq![]
            } else {
                parsed_numbers(ws.drop_first())
            };
            if nums.len() < 4 {
                (None, None)
            } else {
                (Some((sum_of(nums) % 0x1_0000_0000_0000_0000) as u64), Some(nums[3]))
            }
        },
        None => (None, None),
    }
}

/// Parses `(total, idle)` jiffies from `/proc/stat` text.
pub fn cpu_line_idle(content: &str) -> (r: (Option<u64>, Option<u64>))
    ensures
        r == cpu_idle_spec(content@),
{
    let ls = lines_str(content);
    let i = match find_with_prefix(&ls, "cpu ") {
        Some(i) => i,
        None => return (None, None),
    };
    proof {
        assert(ls.deep_view()[i as int] == ls@[i as int]@);
    }
    let w = words_vec(&ls[i]);
    if w.len() == 0 {
        proof {
        }
        return (None, None);
    }
    let ghost ws = w.deep_view().drop_first();
    let mut nums: Vec<u64> = Vec::new();
    let mut total: u64 = 0;
    let mut k: usize = 1;
    while k < w.len()
        invariant
            1 <= k <= w.len(),
            ws == w.deep_view().drop_first(),
            nums@ == parsed_numbers(ws.take(k - 1)),
            total == sum_of(nums@) % 0x1_0000_0000_0000_0000,
        decreases w.len() - k,
    {
        proof {
            assert(ws.take(k as int).drop_last() =~= ws.take(k - 1));
            assert(ws.take(k as int).last() == w@[k as int]@);
        }
        match parse_u64_vec(&w[k]) {
            Some(n) => {
                let ghost before = nums@;
                nums.push(n);
                proof {
                    assert(nums@.drop_last() =~= before);
                }
                total = total.wrapping_add(n);
            },
            None => {},
        }
        k = k + 1;
    }
    proof {
        assert(ws.take(k - 1) =~= ws);
    }
    if nums.len() < 4 {
        (None, None)
    } else {
        (Some(total), Some(nums[3]))
    }
}

/// Number of OOM kills: the second word of the first `oom_kill ` line of
/// `/proc/vmstat`.
pub open spec fn oom_kill_spec(vmstat: Seq<char>) -> Option<u64> {
    match first_with_prefix(lines(vmstat), "oom_kill "@) {
        Some(l) => {
            let w = words(l);
            if w.len() > 1 {
                parse_u64(w[1])
            } else {
                None
            }
        },
        None => None,
    }
}

/// Reads the OOM kill count from `/proc/vmstat` text.
pub fn parse_oom_kill(vmstat: &str) -> (r: Option<u64>)
    ensures
        r == oom_kill_spec(vmstat@),
{
    let ls = lines_str(vmstat);
    match find_with_prefix(&ls, "oom_kill ") {
        Some(i) => {
            proof {
                assert(ls.deep_view()[i as int] == ls@[i as int]@);
            }
            let w = words_vec(&ls[i]);
            if w.len() > 1 {
                proof {
                    assert(w.deep_view()[1] == w@[1]@);
                }
                parse_u64_vec(&w[1])
            } else {
                None
            }
        },
        None => None,
    }
}

/// Open and maximum file handles from `/proc/sys/fs/file-nr` (first and
/// third words).
pub open spec fn file_nr_spec(s: Seq<char>) -> (Option<u64>, Option<u64>) {
    let w = words(s);
    (
        if w.len() > 0 {
            parse_u64(w[0])
        } else {
            None
        },
        if w.len() > 2 {
            parse_u64(w[2])
        } else {
            None
        },
    )
}

pub fn parse_file_nr(s: &str) -> (r: (Option<u64>, Option<u64>))
    ensures
        r == file_nr_spec(s@),
{
    let w = words_str(s);
    proof {
        if w.len() > 0 {
            assert(w.deep_view()[0] == w@[0]@);
        }
        if w.len() > 2 {
            assert(w.deep_view()[2] == w@[2]@);
        }
    }
    let open = if w.len() > 0 {
        parse_u64_vec(&w[0])
    } else {
        None
    };
    let max = if w.len() > 2 {
        parse_u64_vec(&w[2])
    } else {
        None
    };
    (open, max)
}

/// Load averages: the first three words of `/proc/loadavg`.
pub fn load_averages(loadavg: &str) -> (r: (Option<String>, Option<String>, Option<String>))
    ensures
        ({
            let w = words(loadavg@);
            &&& r.0 is Some == (w.len() > 0)
            &&& r.0 is Some ==> r.0->0@ == w[0]
            &&& r.1 is Some == (w.len() > 1)
            &&& r.1 is Some ==> r.1->0@ == w[1]
            &&& r.2 is Some == (w.len() > 2)
            &&& r.2 is Some ==> r.2->0@ == w[2]
        }),
{
    let w = words_str(loadavg);
    proof {
        assert forall|k: int| 0 <= k < w.len() implies w.deep_view()[k] == w@[k]@ by {}
    }
    let a = if w.len() > 0 {
        Some(string_of(&w[0]))
    } else {
        None
    };
    let b = if w.len() > 1 {
        Some(string_of(&w[1]))
    } else {
        None
    };
    let c = if w.len() > 2 {
        Some(string_of(&w[2]))
    } else {
        None
    };
    (a, b, c)
}

/// Number of `processor` lines of `/proc/cpuinfo`, `None` when there are none.
pub open spec fn processor_count(ls: Seq<Seq<char>>) -> nat
    decreases ls.len(),
{
    if ls.len() == 0 {
        0
    } else {
        processor_count(ls.drop_last()) + (if starts_with(ls.last(), "processor"@) {
            1nat
        } else {
            0nat
        })
    }
}

/// CPU cores counted from `/proc/cpuinfo` text: the number of `processor`
/// lines taken as a `u32` (wrapping), `None` when that is zero.
pub fn cpu_cores(cpuinfo: &str) -> (r: Option<u32>)
    ensures
        ({
            let n = processor_count(lines(cpuinfo@)) % 0x1_0000_0000;
            r == (if n > 0 {
                Some(n as u32)
            } else {
                None
            })
        }),
{
    let ls = lines_str(cpuinfo);
    let mut n: u32 = 0;
    let mut i: usize = 0;
    while i < ls.len()
        invariant
            i <= ls.len(),
            n == processor_count(ls.deep_view().take(i as int)) % 0x1_0000_0000,
        decreases ls.len() - i,
    {
        proof {
            assert(ls.deep_view().take(i as int + 1).drop_last() =~= ls.deep_view().take(i as int));
            assert(ls.deep_view().take(i as int + 1).last() == ls@[i as int]@);
        }
        if starts_with_str(&ls[i], "processor") {
            n = n.wrapping_add(1);
        }
        i = i + 1;
    }
    proof {
        assert(ls.deep_view().take(ls.len() as int) =~= ls.deep_view());
    }
    if n > 0 {
        Some(n)
    } else {
        None
    }
}

// ---------------------------------------------------------------------------
// OS release
// ---------------------------------------------------------------------------

/// `s` without `c` at either end.
pub open spec fn trim_char_both(s: Seq<char>, c: char) -> Seq<char> {
    trim_end_char(trim_start_char(s, c), c)
}

/// Value of `PRETTY_NAME=` in one os-release text: unquoted, at most 200
/// characters.
pub open spec fn pretty_name_in(content: Seq<char>) -> Option<Seq<char>> {
    match first_with_prefix(lines(content), "PRETTY_NAME="@) {
        Some(l) => {
            let v = trim_char_both(l.skip(12), '"');
            Some(if v.len() > 200 {
                v.take(200)
            } else {
                v
            })
        },
        None => None,
    }
}

/// The pretty name from the first os-release text (in order, absent files
/// skipped) that has one.
pub open spec fn os_version_spec(contents: Seq<Option<Seq<char>>>) -> Option<Seq<char>>
    decreases contents.len(),
{
    if contents.len() == 0 {
        None
    } else {
        match contents[0] {
            Some(c) => match pretty_name_in(c) {
                Some(v) => Some(v),
                None => os_version_spec(contents.drop_first()),
            },
            None => os_version_spec(contents.drop_first()),
        }
    }
}

pub open spec fn opt_views(v: Seq<Option<String>>) -> Seq<Option<Seq<char>>> {
    v.map_values(
        |o: Option<String>|
            match o {
                Some(s) => Some(s@),
                None => None,
            },
    )
}

fn strip_quotes(v: &Vec<char>) -> (r: Vec<char>)
    ensures
        r@ == trim_char_both(v@, '"'),
{
    let mut a: usize = 0;
    proof {
        assert(v@.skip(0) =~= v@);
    }
    while a < v.len() && v[a] == '"'
        invariant
            a <= v.len(),
            trim_start_char(v@, '"') == trim_start_char(v@.skip(a as int), '"'),
        decreases v.len() - a,
    {
        proof {
            assert(v@.skip(a as int).drop_first() =~= v@.skip(a as int + 1));
        }
        a = a + 1;
    }
    let mid = sub_vec(v, a, v.len());
    proof {
        assert(mid@ =~= v@.skip(a as int));
    }
    let mut b: usize = mid.len();
    proof {
        assert(mid@.take(b as int) =~= mid@);
    }
    while b > 0 && mid[b - 1] == '"'
        invariant
            b <= mid.len(),
            trim_end_char(mid@, '"') == trim_end_char(mid@.take(b as int), '"'),
        decreases b,
    {
        proof {
            assert(mid@.take(b as int).drop_last() =~= mid@.take(b - 1));
        }
        b = b - 1;
    }
    let r = sub_vec(&mid, 0, b);
    proof {
        assert(r@ =~= mid@.take(b as int));
    }
    r
}

fn pretty_name_of(content: &str) -> (r: Option<String>)
    ensures
        match r {
            Some(s) => pretty_name_in(content@) == Some(s@),
            None => pretty_name_in(content@) is None,
        },
{
    let ls = lines_str(content);
    match find_with_prefix(&ls, "PRETTY_NAME=") {
        Some(i) => {
            proof {
                assert(ls.deep_view()[i as int] == ls@[i as int]@);
                reveal_strlit("PRETTY_NAME=");
            }
            let l = &ls[i];
            let rest = sub_vec(l, 12, l.len());
            let v = strip_quotes(&rest);
            let cut = if v.len() > 200 {
                sub_vec(&v, 0, 200)
            } else {
                sub_vec(&v, 0, v.len())
            };
            proof {
                assert(v@.take(v.len() as int) =~= v@);
                assert(rest@ =~= l@.skip(12));
            }
            Some(string_of(&cut))
        },
        None => None,
    }
}

/// OS version from the os-release texts, tried in order.
pub fn os_version_from(contents: &Vec<Option<String>>) -> (r: Option<String>)
    ensures
        match r {
            Some(s) => os_version_spec(opt_views(contents@)) == Some(s@),
            None => os_version_spec(opt_views(contents@)) is None,
        },
{
    let ghost cv = opt_views(contents@);
    let mut i: usize = 0;
    proof {
        assert(cv.skip(0) =~= cv);
    }
    while i < contents.len()
        invariant
            cv == opt_views(contents@),
            i <= contents.len(),
            os_version_spec(cv) == os_version_spec(cv.skip(i as int)),
        decreases contents.len() - i,
    {
        proof {
            assert(cv.skip(i as int)[0] == cv[i as int]);
            assert(cv.skip(i as int).drop_first() =~= cv.skip(i as int + 1));
        }
        match &contents[i] {
            Some(c) => {
                match pretty_name_of(c.as_str()) {
                    Some(v) => return Some(v),
                    None => {},
                }
            },
            None => {},
        }
        i = i + 1;
    }
    proof {
        assert(cv.skip(i as int).len() == 0);
    }
    None
}

// ---------------------------------------------------------------------------
// Services, security and kernel
// ---------------------------------------------------------------------------

/// Whether some process name contains `name`.
pub open spec fn any_contains(present: Seq<Seq<char>>, name: Seq<char>) -> bool {
    exists|i: int| 0 <= i < present.len() && contains(#[trigger] present[i], name)
}

pub fn any_contains_exec(present: &Vec<String>, name: &str) -> (r: bool)
    ensures
        r == any_contains(present@.map_values(|s: String| s@), name@),
{
    let ghost pv = present@.map_values(|s: String| s@);
    let mut i: usize = 0;
    while i < present.len()
        invariant
            pv == present@.map_values(|s: String| s@),
            i <= present.len(),
            forall|k: int| 0 <= k < i ==> !contains(#[trigger] pv[k], name@),
        decreases present.len() - i,
    {
        let v = chars_of(present[i].as_str());
        if contains_str(&v, name) {
            proof {
                assert(pv[i as int] == present@[i as int]@);
            }
            return true;
        }
        i = i + 1;
    }
    false
}

/// Service presence from the names of running processes: NTP (chronyd,
/// ntpd, systemd-timesyncd), journald, crond, kubelet and a container runtime
/// (containerd, dockerd, crio).
pub open spec fn services_spec(present: Seq<Seq<char>>, s: NodeServices) -> bool {
    &&& s.runtime@ == Seq::<char>::empty()
    &&& s.ntp_synced == Some(
        any_contains(present, "chronyd"@) || any_contains(present, "ntpd"@) || any_contains(
            present,
            "systemd-timesyncd"@,
        ),
    )
    &&& s.journald_active == Some(any_contains(present, "systemd-journald"@))
    &&& s.crontab_present == Some(any_contains(present, "crond"@))
    &&& s.kubelet_running == Some(any_contains(present, "kubelet"@))
    &&& s.container_runtime_running == Some(
        any_contains(present, "containerd"@) || any_contains(present, "dockerd"@) || any_contains(
            present,
            "crio"@,
        ),
    )
    &&& s.status@ == "ok"@
    &&& s.detail@ == Seq::<char>::empty()
}

/// Node services from the running processes' names.
pub fn gather_services(present: &Vec<String>) -> (r: NodeServices)
    ensures
        services_spec(present@.map_values(|s: String| s@), r),
{
    let ntp = any_contains_exec(present, "chronyd") || any_contains_exec(present, "ntpd")
        || any_contains_exec(present, "systemd-timesyncd");
    let journald = any_contains_exec(present, "systemd-journald");
    let crontab = any_contains_exec(present, "crond");
    let kubelet = any_contains_exec(present, "kubelet");
    let runtime = any_contains_exec(present, "containerd") || any_contains_exec(present, "dockerd")
        || any_contains_exec(present, "crio");
    NodeServices {
        runtime: String::new(),
        journald_active: Some(journald),
        crontab_present: Some(crontab),
        ntp_synced: Some(ntp),
        kubelet_running: Some(kubelet),
        container_runtime_running: Some(runtime),
        status: owned("ok"),
        detail: String::new(),
    }
}

/// Whether some line starts with `p`.
pub open spec fn any_line_starts(ls: Seq<Seq<char>>, p: Seq<char>) -> bool {
    exists|i: int| 0 <= i < ls.len() && starts_with(#[trigger] ls[i], p)
}

fn any_line_starts_exec(ls: &Vec<Vec<char>>, p: &str) -> (r: bool)
    ensures
        r == any_line_starts(ls.deep_view(), p@),
{
    let mut i: usize = 0;
    while i < ls.len()
        invariant
            i <= ls.len(),
            forall|k: int| 0 <= k < i ==> !starts_with(#[trigger] ls.deep_view()[k], p@),
        decreases ls.len() - i,
    {
        proof {
            assert(ls.deep_view()[i as int] == ls@[i as int]@);
        }
        if starts_with_str(&ls[i], p) {
            return true;
        }
        i = i + 1;
    }
    false
}

/// SELinux mode from `/sys/fs/selinux/enforce`, `/sys/fs/selinux/status`, the
/// existence of `/sys/fs/selinux`, and `/etc/selinux/config` (texts trimmed).
pub open spec fn selinux_spec(
    enforce: Option<Seq<char>>,
    status: Option<Seq<char>>,
    dir_exists: bool,
    config: Option<Seq<char>>,
) -> Option<Seq<char>> {
    match enforce {
        Some(e) => if e == "1"@ {
            Some("Enforcing"@)
        } else if e == "0"@ {
            Some("Permissive"@)
        } else {
            None
        },
        None => {
            if status is Some && contains(status->0, "SELinux status:"@) && contains(
                status->0,
                "disabled"@,
            ) {
                Some("Disabled"@)
            } else if !dir_exists {
                Some("Disabled"@)
            } else if config is Some && exists|i: int|
                0 <= i < lines(config->0).len() && starts_with(
                    trim_start_ws(#[trigger] lines(config->0)[i]),
                    "SELINUX=disabled"@,
                ) {
                Some("Disabled"@)
            } else {
                None
            }
        },
    }
}

pub open spec fn trim_start_ws(s: Seq<char>) -> Seq<char> {
    crate::utils::text::trim_start(s)
}

pub open spec fn opt_str_views(o: Option<&str>) -> Option<Seq<char>> {
    match o {
        Some(s) => Some(s@),
        None => None,
    }
}

/// Decides the SELinux mode from what the node's files hold.
#[verifier::loop_isolation(false)]
pub fn read_selinux(
    enforce: Option<&str>,
    status: Option<&str>,
    dir_exists: bool,
    config: Option<&str>,
) -> (r: Option<String>)
    ensures
        match r {
            Some(s) => selinux_spec(
                opt_str_views(enforce),
                opt_str_views(status),
                dir_exists,
                opt_str_views(config),
            ) == Some(s@),
            None => selinux_spec(
                opt_str_views(enforce),
                opt_str_views(status),
                dir_exists,
                opt_str_views(config),
            ) is None,
        },
{
    if let Some(e) = enforce {
        if str_eq(e, "1") {
            return Some(owned("Enforcing"));
        } else if str_eq(e, "0") {
            return Some(owned("Permissive"));
        } else {
            return None;
        }
    }
    if let Some(st) = status {
        let sv = chars_of(st);
        if contains_str(&sv, "SELinux status:") && contains_str(&sv, "disabled") {
            return Some(owned("Disabled"));
        }
    }
    if !dir_exists {
        return Some(owned("Disabled"));
    }
    if let Some(conf) = config {
        let ls = lines_str(conf);
        let mut i: usize = 0;
        while i < ls.len()
            invariant
                i <= ls.len(),
                ls.deep_view() == lines(conf@),
                forall|k: int|
                    0 <= k < i ==> !starts_with(
                        trim_start_ws(#[trigger] ls.deep_view()[k]),
                        "SELINUX=disabled"@,
                    ),
            decreases ls.len() - i,
        {
            proof {
                assert(ls.deep_view()[i as int] == ls@[i as int]@);
            }
            let t = trim_start_vec(&ls[i]);
            if starts_with_str(&t, "SELINUX=disabled") {
                proof {
                    assert(t@ == trim_start_ws(lines(conf@)[i as int]));
                    let cfg = opt_str_views(config);
                    assert(cfg is Some);
                    assert(exists|j: int|
                        0 <= j < lines(cfg->0).len() && starts_with(
                            trim_start_ws(#[trigger] lines(cfg->0)[j]),
                            "SELINUX=disabled"@,
                        ));
                    assert(selinux_spec(opt_str_views(enforce), opt_str_views(status), dir_exists, cfg) == Some("Disabled"@));
                }
                return Some(owned("Disabled"));
            }
            i = i + 1;
        }
    }
    None
}

fn trim_start_vec(v: &Vec<char>) -> (r: Vec<char>)
    ensures
        r@ == crate::utils::text::trim_start(v@),
{
    let mut i: usize = 0;
    proof {
        assert(v@.skip(0) =~= v@);
    }
    while i < v.len() && crate::utils::text::is_ws_char(v[i])
        invariant
            i <= v.len(),
            crate::utils::text::trim_start(v@) == crate::utils::text::trim_start(
                v@.skip(i as int),
            ),
        decreases v.len() - i,
    {
        proof {
            assert(v@.skip(i as int).drop_first() =~= v@.skip(i as int + 1));
        }
        i = i + 1;
    }
    let r = sub_vec(v, i, v.len());
    proof {
        assert(r@ =~= v@.skip(i as int));
    }
    r
}

/// Node security state: SELinux mode, firewalld among the processes, and
/// the kernel modules loaded according to `/proc/modules`; conntrack counts
/// are read only when `nf_conntrack` is loaded. Status is `warning` when the
/// SELinux mode is unknown.
pub open spec fn security_spec(
    selinux: Option<Seq<char>>,
    modules: Seq<char>,
    count_text: Option<Seq<char>>,
    max_text: Option<Seq<char>>,
    present: Seq<Seq<char>>,
    s: NodeSecurity,
) -> bool {
    let ls = lines(modules);
    let nf = any_line_starts(ls, "nf_conntrack"@);
    &&& (match s.selinux {
        Some(x) => selinux == Some(x@),
        None => selinux is None,
    })
    &&& s.firewalld_active == Some(any_contains(present, "firewalld"@))
    &&& s.ipvs_loaded == Some(any_line_starts(ls, "ip_vs"@))
    &&& s.br_netfilter_loaded == Some(any_line_starts(ls, "br_netfilter"@))
    &&& s.overlay_loaded == Some(any_line_starts(ls, "overlay"@) || any_line_starts(ls, "overlayfs"@))
    &&& s.nf_conntrack_loaded == Some(nf)
    &&& s.nf_conntrack_count == (if nf && count_text is Some {
        parse_u64(count_text->0)
    } else {
        None
    })
    &&& s.nf_conntrack_max == (if nf && max_text is Some {
        parse_u64(max_text->0)
    } else {
        None
    })
    &&& s.status@ == (if selinux is None {
        "warning"@
    } else {
        "ok"@
    })
    &&& s.detail@ == Seq::<char>::empty()
}

pub open spec fn opt_string_views(o: Option<String>) -> Option<Seq<char>> {
    match o {
        Some(s) => Some(s@),
        None => None,
    }
}

/// Node security record from the SELinux mode, `/proc/modules`, the
/// conntrack count/max files (trimmed) and the running processes' names.
pub fn gather_security(
    selinux: Option<String>,
    modules: &str,
    conntrack_count: Option<String>,
    conntrack_max: Option<String>,
    present: &Vec<String>,
) -> (r: NodeSecurity)
    ensures
        security_spec(
            opt_string_views(selinux),
            modules@,
            opt_string_views(conntrack_count),
            opt_string_views(conntrack_max),
            present@.map_values(|s: String| s@),
            r,
        ),
{
    let ls = lines_str(modules);
    let ipvs = any_line_starts_exec(&ls, "ip_vs");
    let br = any_line_starts_exec(&ls, "br_netfilter");
    let overlay = any_line_starts_exec(&ls, "overlay") || any_line_starts_exec(&ls, "overlayfs");
    let nf = any_line_starts_exec(&ls, "nf_conntrack");
    let count = if nf {
        match &conntrack_count {
            Some(t) => {
                let v = chars_of(t.as_str());
                parse_u64_vec(&v)
            },
            None => None,
        }
    } else {
        None
    };
    let max = if nf {
        match &conntrack_max {
            Some(t) => {
                let v = chars_of(t.as_str());
                parse_u64_vec(&v)
            },
            None => None,
        }
    } else {
        None
    };
    let firewalld = any_contains_exec(present, "firewalld");
    let status = if selinux.is_none() {
        owned("warning")
    } else {
        owned("ok")
    };
    NodeSecurity {
        selinux,
        firewalld_active: Some(firewalld),
        ipvs_loaded: Some(ipvs),
        br_netfilter_loaded: Some(br),
        overlay_loaded: Some(overlay),
        nf_conntrack_loaded: Some(nf),
        nf_conntrack_count: count,
        nf_conntrack_max: max,
        status,
        detail: String::new(),
    }
}

/// Kernel parameters record from the three sysctl files (texts trimmed).
pub fn gather_kernel(
    ip_forward: Option<String>,
    swappiness: Option<String>,
    somaxconn: Option<String>,
) -> (r: NodeKernel)
    ensures
        r.net_ipv4_ip_forward == ip_forward,
        r.vm_swappiness == swappiness,
        r.net_core_somaxconn == somaxconn,
        r.status@ == "ok"@,
        r.detail@ == Seq::<char>::empty(),
{
    NodeKernel {
        net_ipv4_ip_forward: ip_forward,
        vm_swappiness: swappiness,
        net_core_somaxconn: somaxconn,
        status: owned("ok"),
        detail: String::new(),
    }
}

/// Number of problem areas on a node: each of resources, services, security
/// and kernel whose status is not `ok`, and zombie processes.
pub open spec fn issue_count_spec(
    resources_status: Seq<char>,
    services_status: Seq<char>,
    security_status: Seq<char>,
    kernel_status: Seq<char>,
    zombie_count: u32,
) -> nat {
    (if resources_status != "ok"@ {
        1nat
    } else {
        0nat
    }) + (if services_status != "ok"@ {
        1nat
    } else {
        0nat
    }) + (if security_status != "ok"@ {
        1nat
    } else {
        0nat
    }) + (if kernel_status != "ok"@ {
        1nat
    } else {
        0nat
    }) + (if zombie_count > 0 {
        1nat
    } else {
        0nat
    })
}

pub fn compute_issue_count(
    resources_status: &str,
    s: &NodeServices,
    sec: &NodeSecurity,
    k: &NodeKernel,
    zombie_count: u32,
) -> (r: u32)
    ensures
        r == issue_count_spec(resources_status@, s.status@, sec.status@, k.status@, zombie_count),
{
    let mut count: u32 = 0;
    if !str_eq(resources_status, "ok") {
        count += 1;
    }
    if !str_eq(s.status.as_str(), "ok") {
        count += 1;
    }
    if !str_eq(sec.status.as_str(), "ok") {
        count += 1;
    }
    if !str_eq(k.status.as_str(), "ok") {
        count += 1;
    }
    if zombie_count > 0 {
        count += 1;
    }
    count
}

/// Whether a process's `stat` line reports a zombie: its third word is `Z`.
pub open spec fn is_zombie_stat(stat: Seq<char>) -> bool {
    let w = words(stat);
    w.len() > 2 && w[2] == "Z"@
}

pub fn is_zombie(stat: &str) -> (r: bool)
    ensures
        r == is_zombie_stat(stat@),
{
    let w = words_str(stat);
    if w.len() > 2 {
        proof {
            assert(w.deep_view()[2] == w@[2]@);
        }
        eq_str(&w[2], "Z")
    } else {
        false
    }
}

/// Whether a directory entry name is a process id (all ASCII digits).
pub fn is_pid_name(name: &str) -> (r: bool)
    ensures
        r == crate::utils::text::all_digits(name@),
{
    let v = chars_of(name);
    let mut i: usize = 0;
    while i < v.len()
        invariant
            v@ == name@,
            i <= v.len(),
            forall|k: int| 0 <= k < i ==> crate::utils::text::is_digit(v@[k]),
        decreases v.len() - i,
    {
        if !('0' <= v[i] && v[i] <= '9') {
            return false;
        }
        i = i + 1;
    }
    true
}

// ---------------------------------------------------------------------------
// Certificates
// ---------------------------------------------------------------------------

/// Status of a certificate by days remaining.
pub open spec fn cert_status_spec(days: int) -> Seq<char> {
    if days < 0 {
        "Expired"@
    } else if days < 30 {
        "Expiring soon"@
    } else {
        "Valid"@
    }
}

pub fn cert_status(days: i64) -> (r: &'static str)
    ensures
        r@ == cert_status_spec(days as int),
{
    if days < 0 {
        "Expired"
    } else if days < 30 {
        "Expiring soon"
    } else {
        "Valid"
    }
}

/// Command-line flags whose value names a certificate file.
pub open spec fn is_cert_flag(f: Seq<char>) -> bool {
    f == "client-ca-file"@ || f == "tls-cert-file"@ || f == "etcd-certfile"@ || f
        == "etcd-cafile"@ || f == "cert-file"@ || f == "trusted-ca-file"@ || f == "peer-cert-file"@
        || f == "peer-trusted-ca-file"@
}

fn is_cert_flag_exec(f: &Vec<char>) -> (r: bool)
    ensures
        r == is_cert_flag(f@),
{
    eq_str(f, "client-ca-file") || eq_str(f, "tls-cert-file") || eq_str(f, "etcd-certfile")
        || eq_str(f, "etcd-cafile") || eq_str(f, "cert-file") || eq_str(f, "trusted-ca-file")
        || eq_str(f, "peer-cert-file") || eq_str(f, "peer-trusted-ca-file")
}

/// Whether a process (by its first argument) is a Kubernetes control-plane
/// component, kubelet or etcd.
pub open spec fn is_cert_process(first: Seq<char>) -> bool {
    contains(first, "kube-apiserver"@) || contains(first, "kubelet"@) || contains(first, "etcd"@)
        || contains(first, "kube-controller"@) || contains(first, "kube-scheduler"@)
}

/// Certificate path named by argument `i` of a command line, if any:
/// `--flag=value` or `--flag value` for a certificate flag.
pub open spec fn cert_path_at(args: Seq<Seq<char>>, i: int) -> Option<Seq<char>> {
    let a = args[i];
    if starts_with(a, "--"@) {
        let rest = a.skip(2);
        match crate::utils::text::first_index_of(rest, '=') {
            Some(k) => if is_cert_flag(rest.take(k as int)) {
                Some(rest.skip(k as int + 1))
            } else {
                None
            },
            None => if is_cert_flag(rest) {
                if i + 1 < args.len() {
                    Some(args[i + 1])
                } else {
                    None
                }
            } else {
                None
            },
        }
    } else {
        None
    }
}

/// All certificate paths named on a command line (empty when the process is
/// not one that holds certificates).
pub open spec fn cert_paths_of(args: Seq<Seq<char>>) -> Seq<Seq<char>> {
    if args.len() == 0 || !is_cert_process(args[0]) {
        seq![]
    } else {
        cert_paths_upto(args, args.len() as int)
    }
}

pub open spec fn cert_paths_upto(args: Seq<Seq<char>>, n: int) -> Seq<Seq<char>>
    decreases n,
{
    if n <= 0 {
        seq![]
    } else {
        let rest = cert_paths_upto(args, n - 1);
        match cert_path_at(args, n - 1) {
            Some(p) => rest.push(p),
            None => rest,
        }
    }
}

fn cert_path_at_exec(args: &Vec<String>, i: usize) -> (r: Option<String>)
    requires
        i < args.len(),
    ensures
        opt_string_views(r) == cert_path_at(args@.map_values(|s: String| s@), i as int),
{
    let ghost av = args@.map_values(|s: String| s@);
    proof {
        reveal_strlit("--");
        assert(av[i as int] == args@[i as int]@);
    }
    let a = chars_of(args[i].as_str());
    if !starts_with_str(&a, "--") {
        return None;
    }
    let rest = sub_vec(&a, 2, a.len());
    proof {
        assert(rest@ =~= av[i as int].skip(2));
    }
    match crate::utils::text::find_first(&rest, '=') {
        Some(k) => {
            let flag = sub_vec(&rest, 0, k);
            proof {
                assert(flag@ =~= rest@.take(k as int));
            }
            if is_cert_flag_exec(&flag) {
                let v = sub_vec(&rest, k + 1, rest.len());
                proof {
                    assert(v@ =~= rest@.skip(k + 1));
                }
                Some(string_of(&v))
            } else {
                None
            }
        },
        None => {
            if is_cert_flag_exec(&rest) {
                if i + 1 < args.len() {
                    proof {
                        assert(av[i + 1] == args@[i + 1]@);
                    }
                    Some(args[i + 1].clone())
                } else {
                    None
                }
            } else {
                None
            }
        },
    }
}

/// Certificate paths named on one process's command line.
pub fn cert_paths_from_args(args: &Vec<String>) -> (r: Vec<String>)
    ensures
        r@.map_values(|s: String| s@) == cert_paths_of(args@.map_values(|s: String| s@)),
{
    let ghost av = args@.map_values(|s: String| s@);
    let mut out: Vec<String> = Vec::new();
    if args.len() == 0 {
        proof {
            assert(out@.map_values(|s: String| s@) =~= seq![]);
        }
        return out;
    }
    let first = chars_of(args[0].as_str());
    proof {
        assert(av[0] == args@[0]@);
    }
    let is_proc = contains_str(&first, "kube-apiserver") || contains_str(&first, "kubelet")
        || contains_str(&first, "etcd") || contains_str(&first, "kube-controller")
        || contains_str(&first, "kube-scheduler");
    if !is_proc {
        proof {
            assert(out@.map_values(|s: String| s@) =~= seq![]);
        }
        return out;
    }
    let mut i: usize = 0;
    while i < args.len()
        invariant
            av == args@.map_values(|s: String| s@),
            i <= args.len(),
            out@.map_values(|s: String| s@) == cert_paths_upto(av, i as int),
        decreases args.len() - i,
    {
        match cert_path_at_exec(args, i) {
            Some(p) => {
                let ghost before = out@;
                out.push(p);
                proof {
                    assert(out@.map_values(|s: String| s@) =~= before.map_values(|s: String| s@).push(
                        p@,
                    ));
                }
            },
            None => {},
        }
        i = i + 1;
    }
    out
}

/// The certificate paths of all processes: named by certificate flags of
/// control-plane, kubelet and etcd processes, without `.key` files,
/// sorted and without duplicates.
pub open spec fn all_cert_paths(cmdlines: Seq<Seq<Seq<char>>>) -> Seq<Seq<char>>
    decreases cmdlines.len(),
{
    if cmdlines.len() == 0 {
        seq![]
    } else {
        all_cert_paths(cmdlines.drop_last()) + cert_paths_of(cmdlines.last())
    }
}

pub open spec fn not_key_file(p: Seq<char>) -> bool {
    !ends_with(p, ".key"@)
}

/// Certificate files to check, from the argument lists of all processes:
/// sorted, without duplicates, `.key` files left out.
pub fn cert_paths_from_cmdlines(cmdlines: &Vec<Vec<String>>) -> (r: Vec<String>)
    ensures
        ({
            let all = all_cert_paths(
                cmdlines@.map_values(|a: Vec<String>| a@.map_values(|s: String| s@)),
            );
            &&& forall|i: int|
                0 <= i < r.len() ==> all.contains(#[trigger] r@[i]@) && not_key_file(r@[i]@)
            &&& forall|k: int|
                0 <= k < all.len() && not_key_file(all[k]) ==> r@.map_values(|s: String| s@).contains(
                    #[trigger] all[k],
                )
            &&& forall|i: int, j: int|
                0 <= i < j < r.len() ==> crate::utils::text::seq_lt(r@[i]@, r@[j]@)
        }),
{
    let ghost cv = cmdlines@.map_values(|a: Vec<String>| a@.map_values(|s: String| s@));
    let mut all: Vec<String> = Vec::new();
    let mut i: usize = 0;
    while i < cmdlines.len()
        invariant
            cv == cmdlines@.map_values(|a: Vec<String>| a@.map_values(|s: String| s@)),
            i <= cmdlines.len(),
            all@.map_values(|s: String| s@) == all_cert_paths(cv.take(i as int)),
        decreases cmdlines.len() - i,
    {
        let ps = cert_paths_from_args(&cmdlines[i]);
        let ghost before = all@;
        let mut k: usize = 0;
        while k < ps.len()
            invariant
                k <= ps.len(),
                all@ == before + ps@.take(k as int),
            decreases ps.len() - k,
        {
            all.push(ps[k].clone());
            proof {
                assert(ps@.take(k as int + 1) =~= ps@.take(k as int).push(ps@[k as int]));
            }
            k = k + 1;
        }
        proof {
            assert(ps@.take(ps.len() as int) =~= ps@);
            assert(cv.take(i as int + 1).drop_last() =~= cv.take(i as int));
            assert(cv.take(i as int + 1).last() == cmdlines@[i as int]@.map_values(
                |s: String| s@,
            ));
            assert(all@.map_values(|s: String| s@) =~= before.map_values(|s: String| s@)
                + ps@.map_values(|s: String| s@));
        }
        i = i + 1;
    }
    proof {
        assert(cv.take(cmdlines.len() as int) =~= cv);
    }
    // drop `.key` files, then sort and deduplicate
    let mut certs: Vec<String> = Vec::new();
    let mut j: usize = 0;
    while j < all.len()
        invariant
            j <= all.len(),
            forall|m: int|
                0 <= m < certs.len() ==> all@.map_values(|s: String| s@).contains(
                    #[trigger] certs@[m]@,
                ) && not_key_file(certs@[m]@),
            forall|m: int|
                0 <= m < j && not_key_file(all@[m]@) ==> certs@.map_values(|s: String| s@).contains(
                    #[trigger] all@[m]@,
                ),
        decreases all.len() - j,
    {
        let v = chars_of(all[j].as_str());
        if !ends_with_str(&v, ".key") {
            let ghost before = certs@;
            certs.push(all[j].clone());
            proof {
                assert(all@.map_values(|s: String| s@)[j as int] == all@[j as int]@);
                assert forall|m: int|
                    0 <= m <= j && not_key_file(all@[m]@) implies certs@.map_values(
                    |s: String| s@,
                ).contains(#[trigger] all@[m]@) by {
                    if m == j {
                        assert(certs@.map_values(|s: String| s@)[before.len() as int] == all@[m]@);
                    } else {
                        let bv = before.map_values(|s: String| s@);
                        let w = choose|w: int| 0 <= w < bv.len() && bv[w] == all@[m]@;
                        assert(certs@.map_values(|s: String| s@)[w] == all@[m]@);
                    }
                }
            }
        }
        j = j + 1;
    }
    let r = smallest_distinct(&certs, certs.len());
    proof {
        lemma_smallest_distinct_keeps_all(views(certs@), views(r@));
        let av = all@.map_values(|s: String| s@);
        let kv = certs@.map_values(|s: String| s@);
        let rv = r@.map_values(|s: String| s@);
        assert forall|i2: int| 0 <= i2 < r.len() implies av.contains(#[trigger] r@[i2]@)
            && not_key_file(r@[i2]@) by {
            assert(rv[i2] == r@[i2]@);
            assert(kv.contains(rv[i2]));
            let w = choose|w: int| 0 <= w < kv.len() && kv[w] == rv[i2];
            assert(kv[w] == certs@[w]@);
        }
        assert forall|k2: int| 0 <= k2 < av.len() && not_key_file(av[k2]) implies rv.contains(
            #[trigger] av[k2],
        ) by {
            assert(av[k2] == all@[k2]@);
            assert(kv.contains(all@[k2]@));
            let w = choose|w: int| 0 <= w < kv.len() && kv[w] == all@[k2]@;
            assert(kv[w] == all@[k2]@);
        }
        assert forall|i2: int, j2: int| 0 <= i2 < j2 < r.len() implies crate::utils::text::seq_lt(
            r@[i2]@,
            r@[j2]@,
        ) by {
            assert(rv[i2] == r@[i2]@);
            assert(rv[j2] == r@[j2]@);
        }
    }
    r
}


// ---------------------------------------------------------------------------
// Disk mounts
// ---------------------------------------------------------------------------

/// A mount table line names a mount under the host root (`/host` or
/// `/host/...`): the table is then seen from inside the pod.
pub open spec fn host_prefixed(w: Seq<Seq<char>>) -> bool {
    w.len() >= 2 && (w[1] == "/host"@ || starts_with(w[1], "/host/"@))
}

pub open spec fn is_pod_view(ls: Seq<Seq<char>>) -> bool {
    exists|i: int| 0 <= i < ls.len() && host_prefixed(#[trigger] words(ls[i]))
}

/// The host path of a mount point: in the pod's view only mounts under
/// `/host` count, with that prefix taken off.
pub open spec fn host_mount(mount: Seq<char>, pod_view: bool) -> Option<Seq<char>> {
    if pod_view {
        if mount == "/host"@ {
            Some("/"@)
        } else if starts_with(mount, "/host/"@) {
            Some("/"@ + mount.skip(6))
        } else {
            None
        }
    } else {
        Some(mount)
    }
}

/// Directories of container runtimes and system data, left out.
pub open spec fn is_noise_dir(h: Seq<char>) -> bool {
    starts_with(h, "/var/lib/containerd"@) || starts_with(h, "/var/lib/docker"@) || starts_with(
        h,
        "/var/lib/etcd"@,
    ) || starts_with(h, "/var/lib/cni"@) || starts_with(h, "/run/containerd"@) || starts_with(
        h,
        "/run/user"@,
    )
}

/// Under the kubelet's pod directory only local volumes are kept, and not
/// their sub-paths.
pub open spec fn is_kubelet_transient(h: Seq<char>) -> bool {
    starts_with(h, "/var/lib/kubelet/pods"@) && (!contains(h, "kubernetes.io~local-volume"@)
        || contains(h, "/volume-subpaths/"@))
}

/// `(device, host mount point, fstype)` of a mount line that is kept.
pub open spec fn mount_entry(line: Seq<char>, pod_view: bool) -> Option<(Seq<char>, Seq<char>, Seq<char>)> {
    let w = words(line);
    if w.len() < 3 {
        None
    } else {
        match host_mount(w[1], pod_view) {
            Some(h) => if is_noise_dir(h) || is_kubelet_transient(h) {
                None
            } else {
                Some((w[0], h, w[2]))
            },
            None => None,
        }
    }
}

pub open spec fn mount_entries(ls: Seq<Seq<char>>, pod_view: bool) -> Seq<(Seq<char>, Seq<char>, Seq<char>)>
    decreases ls.len(),
{
    if ls.len() == 0 {
        seq![]
    } else {
        mount_entries(ls.drop_last(), pod_view) + match mount_entry(ls.last(), pod_view) {
            Some(e) => seq![e],
            None => seq![],
        }
    }
}

pub open spec fn has_mount(es: Seq<(Seq<char>, Seq<char>, Seq<char>)>, h: Seq<char>) -> bool {
    exists|j: int| 0 <= j < es.len() && (#[trigger] es[j]).1 == h
}

/// The first entry of each mount point, kept when it is the root or a
/// block device.
pub open spec fn disk_candidates(es: Seq<(Seq<char>, Seq<char>, Seq<char>)>) -> Seq<(Seq<char>, Seq<char>, Seq<char>)>
    decreases es.len(),
{
    if es.len() == 0 {
        seq![]
    } else {
        let e = es.last();
        disk_candidates(es.drop_last()) + if !has_mount(es.drop_last(), e.1) && (e.1 == "/"@
            || starts_with(e.0, "/dev/"@)) {
            seq![e]
        } else {
            seq![]
        }
    }
}

pub open spec fn mount_table_candidates(mounts: Seq<char>) -> Seq<(Seq<char>, Seq<char>, Seq<char>)> {
    let ls = lines(mounts);
    disk_candidates(mount_entries(ls, is_pod_view(ls)))
}

fn is_pod_view_exec(ls: &Vec<Vec<char>>) -> (r: bool)
    ensures
        r == is_pod_view(ls.deep_view()),
{
    let mut i: usize = 0;
    while i < ls.len()
        invariant
            i <= ls.len(),
            forall|k: int| 0 <= k < i ==> !host_prefixed(#[trigger] words(ls.deep_view()[k])),
        decreases ls.len() - i,
    {
        proof {
            assert(ls.deep_view()[i as int] == ls@[i as int]@);
        }
        let w = words_vec(&ls[i]);
        if w.len() >= 2 {
            proof {
                assert(w.deep_view()[1] == w@[1]@);
            }
            if eq_str(&w[1], "/host") || starts_with_str(&w[1], "/host/") {
                return true;
            }
        }
        i = i + 1;
    }
    false
}

fn mount_entry_exec(line: &Vec<char>, pod_view: bool) -> (r: Option<(Vec<char>, Vec<char>, Vec<char>)>)
    ensures
        match r {
            Some(e) => mount_entry(line@, pod_view) == Some((e.0@, e.1@, e.2@)),
            None => mount_entry(line@, pod_view) is None,
        },
{
    let w = words_vec(line);
    if w.len() < 3 {
        return None;
    }
    proof {
        assert(w.deep_view()[0] == w@[0]@);
        assert(w.deep_view()[1] == w@[1]@);
        assert(w.deep_view()[2] == w@[2]@);
        reveal_strlit("/host/");
    }
    let m = &w[1];
    let h: Vec<char> = if pod_view {
        if eq_str(m, "/host") {
            chars_of("/")
        } else if starts_with_str(m, "/host/") {
            let mut v = chars_of("/");
            let rest = sub_vec(m, 6, m.len());
            let ghost before = v@;
            let mut k: usize = 0;
            while k < rest.len()
                invariant
                    k <= rest.len(),
                    v@ == before + rest@.take(k as int),
                decreases rest.len() - k,
            {
                v.push(rest[k]);
                proof {
                    assert(rest@.take(k as int + 1) =~= rest@.take(k as int).push(rest@[k as int]));
                }
                k = k + 1;
            }
            proof {
                assert(rest@.take(rest.len() as int) =~= rest@);
                assert(rest@ =~= m@.skip(6));
            }
            v
        } else {
            return None;
        }
    } else {
        sub_vec(m, 0, m.len())
    };
    proof {
        assert(m@.subrange(0, m.len() as int) =~= m@);
    }
    let noise = starts_with_str(&h, "/var/lib/containerd") || starts_with_str(&h, "/var/lib/docker")
        || starts_with_str(&h, "/var/lib/etcd") || starts_with_str(&h, "/var/lib/cni")
        || starts_with_str(&h, "/run/containerd") || starts_with_str(&h, "/run/user");
    let transient = starts_with_str(&h, "/var/lib/kubelet/pods") && (!contains_str(
        &h,
        "kubernetes.io~local-volume",
    ) || contains_str(&h, "/volume-subpaths/"));
    if noise || transient {
        return None;
    }
    let dev = sub_vec(&w[0], 0, w[0].len());
    let fs = sub_vec(&w[2], 0, w[2].len());
    proof {
        assert(w@[0]@.subrange(0, w@[0].len() as int) =~= w@[0]@);
        assert(w@[2]@.subrange(0, w@[2].len() as int) =~= w@[2]@);
    }
    Some((dev, h, fs))
}

/// Mount points of the node's mount table whose usage is to be reported:
/// `(device, host mount point, fstype)`, in table order. The view of the
/// table (the pod's, with mounts under `/host`, or the host's) is detected;
/// runtime and system directories and transient kubelet volumes are left
/// out; each mount point counts once, at its first entry; only the root and
/// block devices are kept.
pub fn disk_mount_candidates(mounts: &str) -> (r: Vec<(String, String, String)>)
    ensures
        r@.map_values(|e: (String, String, String)| (e.0@, e.1@, e.2@)) == mount_table_candidates(
            mounts@,
        ),
{
    let ls = lines_str(mounts);
    let ghost lv = ls.deep_view();
    let pv = is_pod_view_exec(&ls);
    let mut seen: Vec<Vec<char>> = Vec::new();
    let mut out: Vec<(String, String, String)> = Vec::new();
    let mut i: usize = 0;
    while i < ls.len()
        invariant
            i <= ls.len(),
            lv == ls.deep_view(),
            lv == lines(mounts@),
            pv == is_pod_view(lv),
            forall|h: Seq<char>| #[trigger] seen.deep_view().contains(h) <==> has_mount(
                mount_entries(lv.take(i as int), pv),
                h,
            ),
            out@.map_values(|e: (String, String, String)| (e.0@, e.1@, e.2@)) == disk_candidates(
                mount_entries(lv.take(i as int), pv),
            ),
        decreases ls.len() - i,
    {
        let ghost pre = mount_entries(lv.take(i as int), pv);
        proof {
            assert(lv.take(i as int + 1).drop_last() =~= lv.take(i as int));
            assert(lv.take(i as int + 1).last() == ls@[i as int]@);
        }
        match mount_entry_exec(&ls[i], pv) {
            Some((dev, h, fs)) => {
                let ghost e = (dev@, h@, fs@);
                let ghost cur = pre.push(e);
                assert(mount_entries(lv.take(i as int + 1), pv) == cur);
                // already seen?
                let mut k: usize = 0;
                let mut found = false;
                while k < seen.len()
                    invariant
                        k <= seen.len(),
                        found == exists|m: int| 0 <= m < k && #[trigger] seen.deep_view()[m] == h@,
                    decreases seen.len() - k,
                {
                    proof {
                        assert(seen.deep_view()[k as int] == seen@[k as int]@);
                    }
                    if eq_vec(&seen[k], &h) {
                        found = true;
                    }
                    k = k + 1;
                }
                proof {
                    assert(found == seen.deep_view().contains(h@));
                    assert(cur.drop_last() =~= pre);
                    assert(cur.last() == e);
                }
                if !found {
                    let is_root = eq_str(&h, "/");
                    let is_block = starts_with_str(&dev, "/dev/");
                    let ghost seen_before = seen.deep_view();
                    let ghost seen_vec = seen;
                    let hs = string_of(&h);
                    seen.push(h);
                    proof {
                        assert(seen@ == seen_vec@.push(seen@.last()));
                        lemma_push_deep_view(seen_vec, seen, seen@.last());
                        assert(seen.deep_view() =~= seen_before.push(e.1));
                        assert forall|x: Seq<char>| #[trigger] seen.deep_view().contains(x) <==> has_mount(cur, x) by {
                            if seen.deep_view().contains(x) {
                                let m = choose|m: int| 0 <= m < seen.deep_view().len() && seen.deep_view()[m] == x;
                                if m < seen_before.len() {
                                    assert(seen_before[m] == x);
                                    assert(seen_before.contains(x));
                                    let j = choose|j: int| 0 <= j < pre.len() && (#[trigger] pre[j]).1 == x;
                                    assert(cur[j] == pre[j]);
                                } else {
                                    assert(cur[pre.len() as int].1 == x);
                                }
                            }
                            if has_mount(cur, x) {
                                let j = choose|j: int| 0 <= j < cur.len() && (#[trigger] cur[j]).1 == x;
                                if j < pre.len() {
                                    assert(cur[j] == pre[j]);
                                    assert(has_mount(pre, x));
                                    assert(seen_before.contains(x));
                                    let m = choose|m: int| 0 <= m < seen_before.len() && seen_before[m] == x;
                                    assert(seen.deep_view()[m] == x);
                                } else {
                                    assert(seen.deep_view()[seen_before.len() as int] == x);
                                }
                            }
                        }
                    }
                    if is_root || is_block {
                        let ghost before = out@;
                        out.push((string_of(&dev), hs, string_of(&fs)));
                        proof {
                            assert(out@.map_values(|e: (String, String, String)| (e.0@, e.1@, e.2@))
                                =~= before.map_values(|e: (String, String, String)| (e.0@, e.1@, e.2@)).push(e));
                        }
                    }
                } else {
                    proof {
                        assert forall|x: Seq<char>| #[trigger] seen.deep_view().contains(x) <==> has_mount(cur, x) by {
                            if has_mount(cur, x) {
                                let j = choose|j: int| 0 <= j < cur.len() && (#[trigger] cur[j]).1 == x;
                                if j < pre.len() {
                                    assert(cur[j] == pre[j]);
                                    assert(has_mount(pre, x));
                                }
                            }
                            if has_mount(pre, x) {
                                let j = choose|j: int| 0 <= j < pre.len() && (#[trigger] pre[j]).1 == x;
                                assert(cur[j] == pre[j]);
                            }
                        }
                    }
                }
            },
            None => {
                proof {
                    assert(mount_entries(lv.take(i as int + 1), pv) =~= pre);
                }
            },
        }
        i = i + 1;
    }
    proof {
        assert(lv.take(ls.len() as int) =~= lv);
    }
    out
}


// ---------------------------------------------------------------------------
// Certificate expiry
// ---------------------------------------------------------------------------

/// Whole days from `now` to `expiry` (seconds), rounded toward zero.
pub open spec fn days_between(expiry: int, now: int) -> int {
    let d = expiry - now;
    if d >= 0 {
        d / 86400
    } else {
        -((-d) / 86400)
    }
}

/// Days left until a certificate expires, from Unix seconds; negative once
/// it has expired.
pub fn remaining_days(expiry: i64, now: i64) -> (r: i64)
    ensures
        r == days_between(expiry as int, now as int),
{
    let d: i128 = expiry as i128 - now as i128;
    let days: i128 = if d >= 0 {
        d / 86400
    } else {
        -((-d) / 86400)
    };
    proof {
        assert(-0x8000_0000_0000_0000 <= days <= 0x7fff_ffff_ffff_ffff) by (nonlinear_arith)
            requires
                d == expiry as i128 - now as i128,
                days == (if d >= 0 {
                    d / 86400
                } else {
                    -((-d) / 86400)
                }),
                -0x8000_0000_0000_0000 <= expiry <= 0x7fff_ffff_ffff_ffff,
                -0x8000_0000_0000_0000 <= now <= 0x7fff_ffff_ffff_ffff,
        ;
    }
    days as i64
}

/// The expiry of a DER certificate and the days left from `now`, `None`
/// when the bytes do not parse as a certificate.
pub fn cert_expiry_days(der: &[u8], now: i64) -> (r: Option<(i64, i64)>)
    ensures
        match x509_summary(der@) {
            Some(f) => match r {
                Some(pair) => pair.0 == f.2 && pair.1 == days_between(f.2 as int, now as int),
                None => false,
            },
            None => r is None,
        },
{
    match parse_x509_summary(der) {
        Some((_subject, _printed, t)) => Some((t, remaining_days(t, now))),
        None => None,
    }
}


// ---------------------------------------------------------------------------
// Resource summary
// ---------------------------------------------------------------------------

/// Status and detail of the node's resource record: `error` when the CPU
/// core count or the memory total is unknown, naming what is unknown.
pub open spec fn resources_status_spec(cpu_known: bool, mem_known: bool) -> (Seq<char>, Seq<char>) {
    if cpu_known && mem_known {
        ("ok"@, ""@)
    } else if !cpu_known && mem_known {
        ("error"@, "cpu cores unknown"@)
    } else if cpu_known && !mem_known {
        ("error"@, "memory unknown"@)
    } else {
        ("error"@, "cpu cores unknown; memory unknown"@)
    }
}

pub fn resources_status(cpu_known: bool, mem_known: bool) -> (r: (String, String))
    ensures
        (r.0@, r.1@) == resources_status_spec(cpu_known, mem_known),
{
    let mut status = owned("ok");
    let mut detail = String::new();
    if !cpu_known {
        status = owned("error");
        detail = owned("cpu cores unknown");
    }
    if !mem_known {
        status = owned("error");
        if !cpu_known {
            push_str(&mut detail, "; memory unknown");
        } else {
            detail = owned("memory unknown");
        }
    }
    proof {
        reveal_strlit("cpu cores unknown");
        reveal_strlit("; memory unknown");
        reveal_strlit("cpu cores unknown; memory unknown");
        reveal_strlit("");
        assert(!cpu_known && !mem_known ==> detail@ =~= "cpu cores unknown; memory unknown"@);
    }
    (status, detail)
}

/// Memory use from `MemTotal` and `MemAvailable` (kB): used kB (never below
/// zero), total MiB and used MiB.
pub fn memory_usage(total_kb: u64, avail_kb: u64) -> (r: (u64, u64, u64))
    ensures
        r.0 == (if avail_kb <= total_kb { total_kb - avail_kb } else { 0 }),
        r.1 == total_kb / 1024,
        r.2 == r.0 / 1024,
{
    let used = total_kb.saturating_sub(avail_kb);
    (used, total_kb / 1024, used / 1024)
}

} // verus!
