//! Which mounts of a node the disk table shows, and in what order.

use vstd::prelude::*;

use crate::reporting::generator::{
    host_path_display, host_path_spec, mount_depth, mount_depth_spec, normalize_device, normalize_device_spec,
};
use crate::utils::sorting::{insertion_sort, lemma_insert_sorted_at};
use crate::utils::text::{chars_of, seq_lt, starts_with, starts_with_str, str_eq, str_lt};

verus! {

/// A mount of a node as the disk table orders it. The measured amounts are
/// carried as order keys: `size_key` is equal for equal sizes (the same key
/// for every mount of unknown size), and `usage_key` is greater for a more
/// used mount (the least for an unknown usage).
#[derive(Debug, Clone)]
pub struct DiskMount {
    pub device: String,
    pub mount_point: String,
    pub size_key: u64,
    pub usage_key: i64,
}

/// The root mount and mounts of real block devices are shown (not tmpfs
/// and the like, nor loop devices).
pub open spec fn shown(d: DiskMount) -> bool {
    d.mount_point@ == "/"@ || (starts_with(d.device@, "/dev/"@) && !starts_with(d.device@, "/dev/loop"@))
}

/// Mount point as shown on the host.
pub open spec fn shown_path(d: DiskMount) -> Seq<char> {
    host_path_spec(d.mount_point@)
}

/// The disk of a mount: its device with any partition suffix removed.
pub open spec fn disk_of(d: DiskMount) -> Seq<char> {
    normalize_device_spec(d.device@)
}

pub open spec fn depth_of(d: DiskMount) -> nat {
    mount_depth_spec(shown_path(d))
}

/// Mounts of one device with one size: views of one file system.
pub open spec fn same_group(a: DiskMount, b: DiskMount) -> bool {
    a.device@ == b.device@ && a.size_key == b.size_key
}

/// Position in `kept` of a mount in the group of `d`, or -1.
pub open spec fn group_pos(ds: Seq<DiskMount>, kept: Seq<usize>, d: DiskMount) -> int
    decreases kept.len(),
{
    if kept.len() == 0 {
        -1
    } else {
        let p = group_pos(ds, kept.drop_last(), d);
        if p >= 0 {
            p
        } else if same_group(ds[kept.last() as int], d) {
            kept.len() - 1
        } else {
            -1
        }
    }
}

/// The mounts among the first `n` that the table shows, by index: one per
/// group, the shallowest (the first of equally shallow ones), in the order
/// their groups first appear.
pub open spec fn kept_mounts(ds: Seq<DiskMount>, n: nat) -> Seq<usize>
    decreases n,
{
    if n == 0 {
        seq![]
    } else {
        let prev = kept_mounts(ds, (n - 1) as nat);
        let i = n - 1;
        let d = ds[i];
        if !shown(d) {
            prev
        } else {
            let p = group_pos(ds, prev, d);
            if p < 0 {
                prev.push(i as usize)
            } else if depth_of(ds[prev[p] as int]) > depth_of(d) {
                prev.update(p, i as usize)
            } else {
                prev
            }
        }
    }
}

/// The disk of the first kept mount shown as `/`.
pub open spec fn root_disk(ds: Seq<DiskMount>, kept: Seq<usize>) -> Option<Seq<char>>
    decreases kept.len(),
{
    if kept.len() == 0 {
        None
    } else {
        match root_disk(ds, kept.drop_last()) {
            Some(r) => Some(r),
            None => if shown_path(ds[kept.last() as int]) == "/"@ {
                Some(disk_of(ds[kept.last() as int]))
            } else {
                None
            },
        }
    }
}

/// The least depth of the kept mounts on a disk.
pub open spec fn min_depth(ds: Seq<DiskMount>, kept: Seq<usize>, disk: Seq<char>) -> Option<nat>
    decreases kept.len(),
{
    if kept.len() == 0 {
        None
    } else {
        let rest = min_depth(ds, kept.drop_last(), disk);
        let d = ds[kept.last() as int];
        if disk_of(d) == disk {
            match rest {
                Some(m) => if depth_of(d) < m {
                    Some(depth_of(d))
                } else {
                    Some(m)
                },
                None => Some(depth_of(d)),
            }
        } else {
            rest
        }
    }
}

pub open spec fn opt_nat_lt(a: Option<nat>, b: Option<nat>) -> bool {
    match (a, b) {
        (Some(x), Some(y)) => x < y,
        (None, Some(_)) => true,
        _ => false,
    }
}

/// Whether mount `a` stays before mount `b`: the root disk first, then by
/// the disks' least depth, disk name, depth, usage (most used first) and
/// mount point.
pub open spec fn disk_before(ds: Seq<DiskMount>, kept: Seq<usize>, a: usize, b: usize) -> bool {
    let da = ds[a as int];
    let db = ds[b as int];
    let root = root_disk(ds, kept);
    let ra = root == Some(disk_of(da));
    let rb = root == Some(disk_of(db));
    let ma = min_depth(ds, kept, disk_of(da));
    let mb = min_depth(ds, kept, disk_of(db));
    if ra != rb {
        ra
    } else if ma != mb {
        opt_nat_lt(ma, mb)
    } else if disk_of(da) != disk_of(db) {
        seq_lt(disk_of(da), disk_of(db))
    } else if depth_of(da) != depth_of(db) {
        depth_of(da) < depth_of(db)
    } else if da.usage_key != db.usage_key {
        da.usage_key > db.usage_key
    } else {
        !seq_lt(shown_path(db), shown_path(da))
    }
}

/// The order of the disk table's rows, as indices of `ds`.
pub open spec fn disk_order(ds: Seq<DiskMount>) -> Seq<usize> {
    let kept = kept_mounts(ds, ds.len());
    insertion_sort(kept, |a: usize, b: usize| disk_before(ds, kept, a, b))
}


fn is_shown(d: &DiskMount) -> (r: bool)
    ensures
        r == shown(*d),
{
    let dv = chars_of(d.device.as_str());
    str_eq(d.mount_point.as_str(), "/") || (starts_with_str(&dv, "/dev/") && !starts_with_str(&dv, "/dev/loop"))
}

fn depth(d: &DiskMount) -> (r: usize)
    ensures
        r == depth_of(*d),
{
    let p = host_path_display(d.mount_point.as_str());
    mount_depth(p.as_str())
}

proof fn lemma_group_pos_prefix(ds: Seq<DiskMount>, kept: Seq<usize>, d: DiskMount, j: int)
    requires
        0 <= j <= kept.len(),
        group_pos(ds, kept.take(j), d) >= 0,
    ensures
        group_pos(ds, kept, d) == group_pos(ds, kept.take(j), d),
    decreases kept.len(),
{
    if j == kept.len() {
        assert(kept.take(j) =~= kept);
    } else {
        assert(kept.drop_last().take(j) =~= kept.take(j));
        lemma_group_pos_prefix(ds, kept.drop_last(), d, j);
    }
}

fn find_group(ds: &Vec<DiskMount>, kept: &Vec<usize>, d: &DiskMount) -> (r: Option<usize>)
    requires
        forall|k: int| 0 <= k < kept.len() ==> #[trigger] kept@[k] < ds.len(),
    ensures
        match r {
            Some(p) => p < kept.len() && p as int == group_pos(ds@, kept@, *d),
            None => group_pos(ds@, kept@, *d) == -1,
        },
{
    let mut j: usize = 0;
    while j < kept.len()
        invariant
            j <= kept.len(),
            forall|k: int| 0 <= k < kept.len() ==> #[trigger] kept@[k] < ds.len(),
            group_pos(ds@, kept@.take(j as int), *d) == -1,
        decreases kept.len() - j,
    {
        let e = &ds[kept[j]];
        proof {
            assert(kept@.take(j as int + 1).drop_last() =~= kept@.take(j as int));
        }
        if str_eq(e.device.as_str(), d.device.as_str()) && e.size_key == d.size_key {
            proof {
                assert(group_pos(ds@, kept@.take(j as int + 1), *d) == j);
                lemma_group_pos_prefix(ds@, kept@, *d, j as int + 1);
            }
            return Some(j);
        }
        j = j + 1;
    }
    proof {
        assert(kept@.take(kept.len() as int) =~= kept@);
    }
    None
}

fn kept_rows(ds: &Vec<DiskMount>) -> (r: Vec<usize>)
    ensures
        r@ == kept_mounts(ds@, ds.len() as nat),
        forall|k: int| 0 <= k < r.len() ==> #[trigger] r@[k] < ds.len(),
{
    let mut kept: Vec<usize> = Vec::new();
    let mut i: usize = 0;
    while i < ds.len()
        invariant
            i <= ds.len(),
            kept@ == kept_mounts(ds@, i as nat),
            forall|k: int| 0 <= k < kept.len() ==> #[trigger] kept@[k] < i,
        decreases ds.len() - i,
    {
        let d = &ds[i];
        if is_shown(d) {
            match find_group(ds, &kept, d) {
                None => {
                    kept.push(i);
                },
                Some(p) => {
                    let prev = kept[p];
                    if depth(&ds[prev]) > depth(d) {
                        kept.set(p, i);
                    }
                },
            }
        }
        i = i + 1;
    }
    kept
}

pub open spec fn root_view(r: Option<String>) -> Option<Seq<char>> {
    match r {
        Some(s) => Some(s@),
        None => None,
    }
}

fn root_of(ds: &Vec<DiskMount>, kept: &Vec<usize>) -> (r: Option<String>)
    requires
        forall|k: int| 0 <= k < kept.len() ==> #[trigger] kept@[k] < ds.len(),
    ensures
        root_view(r) == root_disk(ds@, kept@),
{
    let mut j: usize = 0;
    while j < kept.len()
        invariant
            j <= kept.len(),
            forall|k: int| 0 <= k < kept.len() ==> #[trigger] kept@[k] < ds.len(),
            root_disk(ds@, kept@.take(j as int)) is None,
        decreases kept.len() - j,
    {
        proof {
            assert(kept@.take(j as int + 1).drop_last() =~= kept@.take(j as int));
        }
        let e = &ds[kept[j]];
        let p = host_path_display(e.mount_point.as_str());
        if str_eq(p.as_str(), "/") {
            let r = normalize_device(e.device.as_str());
            proof {
                lemma_root_prefix(ds@, kept@, j as int + 1);
            }
            return Some(r);
        }
        j = j + 1;
    }
    proof {
        assert(kept@.take(kept.len() as int) =~= kept@);
    }
    None
}

proof fn lemma_root_prefix(ds: Seq<DiskMount>, kept: Seq<usize>, j: int)
    requires
        0 <= j <= kept.len(),
        root_disk(ds, kept.take(j)) is Some,
    ensures
        root_disk(ds, kept) == root_disk(ds, kept.take(j)),
    decreases kept.len(),
{
    if j == kept.len() {
        assert(kept.take(j) =~= kept);
    } else {
        assert(kept.drop_last().take(j) =~= kept.take(j));
        lemma_root_prefix(ds, kept.drop_last(), j);
    }
}

fn min_depth_of(ds: &Vec<DiskMount>, kept: &Vec<usize>, disk: &str) -> (r: Option<usize>)
    requires
        forall|k: int| 0 <= k < kept.len() ==> #[trigger] kept@[k] < ds.len(),
    ensures
        match r {
            Some(m) => min_depth(ds@, kept@, disk@) == Some(m as nat),
            None => min_depth(ds@, kept@, disk@) is None,
        },
{
    let mut best: Option<usize> = None;
    let mut j: usize = 0;
    while j < kept.len()
        invariant
            j <= kept.len(),
            forall|k: int| 0 <= k < kept.len() ==> #[trigger] kept@[k] < ds.len(),
            match best {
                Some(m) => min_depth(ds@, kept@.take(j as int), disk@) == Some(m as nat),
                None => min_depth(ds@, kept@.take(j as int), disk@) is None,
            },
        decreases kept.len() - j,
    {
        proof {
            assert(kept@.take(j as int + 1).drop_last() =~= kept@.take(j as int));
        }
        let e = &ds[kept[j]];
        let dk = normalize_device(e.device.as_str());
        if str_eq(dk.as_str(), disk) {
            let de = depth(e);
            best = match best {
                Some(m) => if de < m {
                    Some(de)
                } else {
                    Some(m)
                },
                None => Some(de),
            };
        }
        j = j + 1;
    }
    proof {
        assert(kept@.take(kept.len() as int) =~= kept@);
    }
    best
}

fn before(ds: &Vec<DiskMount>, kept: &Vec<usize>, root: &Option<String>, a: usize, b: usize) -> (r: bool)
    requires
        forall|k: int| 0 <= k < kept.len() ==> #[trigger] kept@[k] < ds.len(),
        root_view(*root) == root_disk(ds@, kept@),
        a < ds.len(),
        b < ds.len(),
    ensures
        r == disk_before(ds@, kept@, a, b),
{
    let da = &ds[a];
    let db = &ds[b];
    let ka = normalize_device(da.device.as_str());
    let kb = normalize_device(db.device.as_str());
    let ra = match root {
        Some(x) => str_eq(x.as_str(), ka.as_str()),
        None => false,
    };
    let rb = match root {
        Some(x) => str_eq(x.as_str(), kb.as_str()),
        None => false,
    };
    if ra != rb {
        return ra;
    }
    let ma = min_depth_of(ds, kept, ka.as_str());
    let mb = min_depth_of(ds, kept, kb.as_str());
    let same_min = match (ma, mb) {
        (Some(x), Some(y)) => x == y,
        (None, None) => true,
        _ => false,
    };
    if !same_min {
        return match (ma, mb) {
            (Some(x), Some(y)) => x < y,
            (None, Some(_)) => true,
            _ => false,
        };
    }
    if !str_eq(ka.as_str(), kb.as_str()) {
        return str_lt(ka.as_str(), kb.as_str());
    }
    let pa = depth(da);
    let pb = depth(db);
    if pa != pb {
        return pa < pb;
    }
    if da.usage_key != db.usage_key {
        return da.usage_key > db.usage_key;
    }
    let sa = host_path_display(da.mount_point.as_str());
    let sb = host_path_display(db.mount_point.as_str());
    !str_lt(sb.as_str(), sa.as_str())
}

/// The rows of a node's disk table, as indices of the mounts: the root
/// mount and mounts of real block devices, one per device and size (the
/// shallowest mount point), the root disk first, then ordered by the
/// disks' shallowest mount, disk, depth, usage (most used first) and mount
/// point.
pub fn disk_row_order(ds: &Vec<DiskMount>) -> (r: Vec<usize>)
    ensures
        r@ == disk_order(ds@),
{
    let kept = kept_rows(ds);
    let root = root_of(ds, &kept);
    let ghost f = |a: usize, b: usize| disk_before(ds@, kept@, a, b);
    let mut out: Vec<usize> = Vec::new();
    let mut k: usize = 0;
    proof {
        assert(out@ =~= insertion_sort(kept@.take(0), f));
    }
    while k < kept.len()
        invariant
            k <= kept.len(),
            forall|j: int| 0 <= j < kept.len() ==> #[trigger] kept@[j] < ds.len(),
            root_view(root) == root_disk(ds@, kept@),
            f == (|a: usize, b: usize| disk_before(ds@, kept@, a, b)),
            out@ == insertion_sort(kept@.take(k as int), f),
            forall|j: int| 0 <= j < out.len() ==> #[trigger] out@[j] < ds.len(),
        decreases kept.len() - k,
    {
        let x = kept[k];
        let ghost ov = out@;
        proof {
            assert(kept@.take(k as int + 1).drop_last() =~= kept@.take(k as int));
            assert(kept@.take(k as int + 1).last() == x);
        }
        let mut p: usize = 0;
        while p < out.len() && before(ds, &kept, &root, out[p], x)
            invariant
                p <= out.len(),
                ov == out@,
                x < ds.len(),
                forall|j: int| 0 <= j < kept.len() ==> #[trigger] kept@[j] < ds.len(),
                root_view(root) == root_disk(ds@, kept@),
                forall|j: int| 0 <= j < out.len() ==> #[trigger] out@[j] < ds.len(),
                f == (|a: usize, b: usize| disk_before(ds@, kept@, a, b)),
                forall|j: int| 0 <= j < p ==> f(#[trigger] ov[j], x),
            decreases out.len() - p,
        {
            p = p + 1;
        }
        proof {
            lemma_insert_sorted_at(ov, x, f, p as int);
        }
        out.insert(p, x);
        proof {
            assert(out@ =~= ov.take(p as int) + seq![x] + ov.skip(p as int));
            assert forall|j: int| 0 <= j < out.len() implies #[trigger] out@[j] < ds.len() by {
                if j < p {
                    assert(out@[j] == ov[j]);
                } else if j > p {
                    assert(out@[j] == ov[j - 1]);
                }
            }
        }
        k = k + 1;
    }
    proof {
        assert(kept@.take(kept.len() as int) =~= kept@);
    }
    out
}

} // verus!
