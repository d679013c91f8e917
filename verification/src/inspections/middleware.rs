//! Database and middleware pods, recognised by their container images.

use vstd::prelude::*;

use crate::inspections::common::{or_default, str_or};
use crate::inspections::types::DbMiddlewareRow;
use crate::utils::sorting::{insertion_sort, lemma_insert_sorted_at, lemma_insertion_sort_len};
use crate::utils::text::{chars_of, contains, contains_str, lower_text, owned, seq_lt, str_eq, str_lt, to_lowercase};

verus! {

/// Whether an image, lowercased, names a database or middleware product.
pub open spec fn db_image(lower: Seq<char>) -> bool {
    contains(lower, "mongodb"@) || contains(lower, "mysql"@) || contains(lower, "mariadb"@) || contains(lower, "etcd"@)
        || contains(lower, "minio"@) || contains(lower, "kafka"@) || contains(lower, "emqx"@) || contains(lower, "redis"@)
        || contains(lower, "rocketmq"@) || contains(lower, "postgres"@) || contains(lower, "clickhouse"@) || contains(
        lower,
        "doris"@,
    ) || contains(lower, "rustfs"@)
}

/// Whether a container image belongs to a database or middleware.
pub fn is_db_image(image: &str) -> (r: bool)
    ensures
        r == db_image(lower_text(image@)),
{
    let lower = to_lowercase(image);
    let v = chars_of(lower.as_str());
    contains_str(&v, "mongodb") || contains_str(&v, "mysql") || contains_str(&v, "mariadb") || contains_str(&v, "etcd")
        || contains_str(&v, "minio") || contains_str(&v, "kafka") || contains_str(&v, "emqx") || contains_str(&v, "redis")
        || contains_str(&v, "rocketmq") || contains_str(&v, "postgres") || contains_str(&v, "clickhouse")
        || contains_str(&v, "doris") || contains_str(&v, "rustfs")
}

/// What the middleware table reads of a pod: namespace and name, whether it
/// has a spec, its containers' images, and, when it has a status, the
/// containers' readiness and restarts and the init containers' restarts.
#[derive(Debug, Clone)]
pub struct MiddlewarePodInfo {
    pub namespace: Option<String>,
    pub name: Option<String>,
    pub has_spec: bool,
    pub images: Vec<Option<String>>,
    pub has_status: bool,
    pub containers: Option<Vec<(bool, i32)>>,
    pub init_restarts: Option<Vec<i32>>,
}

/// Position of the first container whose image matches, or -1.
pub open spec fn first_db_image(images: Seq<Option<String>>) -> int
    decreases images.len(),
{
    if images.len() == 0 {
        -1
    } else if first_db_image(images.drop_last()) >= 0 {
        first_db_image(images.drop_last())
    } else if images.last() is Some && db_image(lower_text(images.last()->0@)) {
        images.len() - 1
    } else {
        -1
    }
}

pub open spec fn all_ready(cs: Seq<(bool, i32)>) -> bool {
    forall|i: int| 0 <= i < cs.len() ==> #[trigger] cs[i].0
}

pub open spec fn restart_sum(cs: Seq<(bool, i32)>) -> int
    decreases cs.len(),
{
    if cs.len() == 0 {
        0
    } else {
        restart_sum(cs.drop_last()) + cs.last().1
    }
}

pub open spec fn int_sum(xs: Seq<i32>) -> int
    decreases xs.len(),
{
    if xs.len() == 0 {
        0
    } else {
        int_sum(xs.drop_last()) + xs.last()
    }
}

pub open spec fn two_pow_32() -> int {
    0x1_0000_0000
}

/// Restarts of all containers, init containers included, modulo 2^32 (the
/// sums wrap around as 32-bit integers do); 0 without a status.
pub open spec fn restarts_spec(p: MiddlewarePodInfo) -> int {
    if !p.has_status {
        0
    } else {
        let main = match p.containers {
            Some(cs) => restart_sum(cs@),
            None => 0,
        };
        let init = match p.init_restarts {
            Some(xs) => int_sum(xs@),
            None => 0,
        };
        (main + init) % two_pow_32()
    }
}

pub type MiddlewareRowSpec = (Seq<char>, Seq<char>, Seq<char>, bool, int);

pub open spec fn middleware_row_view(r: DbMiddlewareRow) -> MiddlewareRowSpec {
    (r.namespace@, r.pod_name@, r.image@, r.ready, r.restart_count as int)
}

pub open spec fn middleware_rows_view(rs: Seq<DbMiddlewareRow>) -> Seq<MiddlewareRowSpec> {
    rs.map_values(|r: DbMiddlewareRow| middleware_row_view(r))
}

/// The row of a pod with a spec and a matching image: ready when it has a
/// status with container statuses that are all ready.
pub open spec fn middleware_row_spec(p: MiddlewarePodInfo) -> MiddlewareRowSpec {
    (or_default(p.namespace, "default"@), or_default(p.name, "unknown"@), p.images@[first_db_image(p.images@)]->0@,
        p.has_status && p.containers is Some && all_ready(p.containers->0@), restarts_spec(p))
}

pub open spec fn listed_pod(p: MiddlewarePodInfo) -> bool {
    p.has_spec && first_db_image(p.images@) >= 0
}

pub open spec fn middleware_rows(ps: Seq<MiddlewarePodInfo>) -> Seq<MiddlewareRowSpec>
    decreases ps.len(),
{
    if ps.len() == 0 {
        seq![]
    } else {
        middleware_rows(ps.drop_last()) + if listed_pod(ps.last()) {
            seq![middleware_row_spec(ps.last())]
        } else {
            seq![]
        }
    }
}

/// By namespace, then pod name: a row stays before another unless the
/// other comes first.
pub open spec fn by_namespace_and_name() -> spec_fn(MiddlewareRowSpec, MiddlewareRowSpec) -> bool {
    |a: MiddlewareRowSpec, x: MiddlewareRowSpec| !(seq_lt(x.0, a.0) || (x.0 == a.0 && seq_lt(x.1, a.1)))
}

proof fn lemma_first_db_image(images: Seq<Option<String>>)
    ensures
        -1 <= first_db_image(images) < images.len(),
        first_db_image(images) >= 0 ==> images[first_db_image(images)] is Some && db_image(
            lower_text(images[first_db_image(images)]->0@),
        ),
        first_db_image(images) >= 0 ==> forall|j: int| 0 <= j < first_db_image(images) ==> !(#[trigger] images[j] is Some
            && db_image(lower_text(images[j]->0@))),
        first_db_image(images) == -1 ==> forall|j: int| 0 <= j < images.len() ==> !(#[trigger] images[j] is Some && db_image(
            lower_text(images[j]->0@),
        )),
    decreases images.len(),
{
    if images.len() > 0 {
        lemma_first_db_image(images.drop_last());
        assert forall|j: int| 0 <= j < images.len() - 1 implies images[j] == images.drop_last()[j] by {}
    }
}

fn find_db_image(images: &Vec<Option<String>>) -> (r: Option<usize>)
    ensures
        match r {
            Some(k) => k == first_db_image(images@),
            None => first_db_image(images@) == -1,
        },
{
    proof {
        lemma_first_db_image(images@);
    }
    let mut i: usize = 0;
    while i < images.len()
        invariant
            i <= images.len(),
            forall|j: int| 0 <= j < i ==> !(#[trigger] images@[j] is Some && db_image(lower_text(images@[j]->0@))),
        decreases images.len() - i,
    {
        let hit = match &images[i] {
            Some(img) => is_db_image(img.as_str()),
            None => false,
        };
        if hit {
            proof {
                lemma_first_db_image(images@);
                if first_db_image(images@) != i {
                    if first_db_image(images@) == -1 || first_db_image(images@) > i {
                        assert(images@[i as int] is Some && db_image(lower_text(images@[i as int]->0@)));
                    }
                }
            }
            return Some(i);
        }
        i = i + 1;
    }
    None
}

fn to_u32_wrapping(x: i32) -> (r: u32)
    ensures
        r as int == (x as int) % two_pow_32(),
{
    if x >= 0 {
        x as u32
    } else {
        let y: i64 = x as i64 + 0x1_0000_0000i64;
        y as u32
    }
}

fn add_wrapping(a: u32, b: u32) -> (r: u32)
    ensures
        r as int == (a as int + b as int) % two_pow_32(),
{
    let s: u64 = a as u64 + b as u64;
    if s >= 0x1_0000_0000u64 {
        (s - 0x1_0000_0000u64) as u32
    } else {
        s as u32
    }
}

proof fn lemma_mod_step(acc: int, sum: int, x: int)
    requires
        acc == sum % two_pow_32(),
    ensures
        (acc + x % two_pow_32()) % two_pow_32() == (sum + x) % two_pow_32(),
{
    vstd::arithmetic::div_mod::lemma_add_mod_noop(sum, x, two_pow_32());
}

fn container_restarts(cs: &Vec<(bool, i32)>) -> (r: u32)
    ensures
        r as int == restart_sum(cs@) % two_pow_32(),
{
    let mut acc: u32 = 0;
    let mut i: usize = 0;
    while i < cs.len()
        invariant
            i <= cs.len(),
            acc as int == restart_sum(cs@.take(i as int)) % two_pow_32(),
        decreases cs.len() - i,
    {
        proof {
            assert(cs@.take(i as int + 1).drop_last() =~= cs@.take(i as int));
            lemma_mod_step(acc as int, restart_sum(cs@.take(i as int)), cs@[i as int].1 as int);
        }
        acc = add_wrapping(acc, to_u32_wrapping(cs[i].1));
        i = i + 1;
    }
    proof {
        assert(cs@.take(cs.len() as int) =~= cs@);
    }
    acc
}

fn init_restarts(xs: &Vec<i32>) -> (r: u32)
    ensures
        r as int == int_sum(xs@) % two_pow_32(),
{
    let mut acc: u32 = 0;
    let mut i: usize = 0;
    while i < xs.len()
        invariant
            i <= xs.len(),
            acc as int == int_sum(xs@.take(i as int)) % two_pow_32(),
        decreases xs.len() - i,
    {
        proof {
            assert(xs@.take(i as int + 1).drop_last() =~= xs@.take(i as int));
            lemma_mod_step(acc as int, int_sum(xs@.take(i as int)), xs@[i as int] as int);
        }
        acc = add_wrapping(acc, to_u32_wrapping(xs[i]));
        i = i + 1;
    }
    proof {
        assert(xs@.take(xs.len() as int) =~= xs@);
    }
    acc
}

fn middleware_row(p: &MiddlewarePodInfo, k: usize) -> (r: DbMiddlewareRow)
    requires
        listed_pod(*p),
        k == first_db_image(p.images@),
    ensures
        middleware_row_view(r) == middleware_row_spec(*p),
{
    proof {
        lemma_first_db_image(p.images@);
    }
    let image = match &p.images[k] {
        Some(img) => img.clone(),
        None => String::new(),
    };
    let ready = if p.has_status {
        match &p.containers {
            Some(cs) => {
                let mut all = true;
                let mut i: usize = 0;
                while i < cs.len()
                    invariant
                        i <= cs.len(),
                        all == all_ready(cs@.take(i as int)),
                    decreases cs.len() - i,
                {
                    proof {
                        let t = cs@.take(i as int + 1);
                        if all && cs@[i as int].0 {
                            assert forall|j: int| 0 <= j < t.len() implies #[trigger] t[j].0 by {
                                if j < i {
                                    assert(t[j] == cs@.take(i as int)[j]);
                                }
                            }
                        }
                        if !all {
                            let w = choose|j: int| 0 <= j < i && !(#[trigger] cs@.take(i as int)[j]).0;
                            assert(t[w] == cs@.take(i as int)[w]);
                        }
                        if !cs@[i as int].0 {
                            assert(t[i as int] == cs@[i as int]);
                        }
                    }
                    all = all && cs[i].0;
                    i = i + 1;
                }
                proof {
                    assert(cs@.take(cs.len() as int) =~= cs@);
                }
                all
            },
            None => false,
        }
    } else {
        false
    };
    let restart_count = if p.has_status {
        let main: u32 = match &p.containers {
            Some(cs) => container_restarts(cs),
            None => 0,
        };
        let init: u32 = match &p.init_restarts {
            Some(xs) => init_restarts(xs),
            None => 0,
        };
        proof {
            let m = match &p.containers {
                Some(cs) => restart_sum(cs@),
                None => 0,
            };
            let n = match &p.init_restarts {
                Some(xs) => int_sum(xs@),
                None => 0,
            };
            vstd::arithmetic::div_mod::lemma_add_mod_noop(m, n, two_pow_32());
        }
        add_wrapping(main, init)
    } else {
        0
    };
    DbMiddlewareRow {
        namespace: owned(str_or(&p.namespace, "default")),
        pod_name: owned(str_or(&p.name, "unknown")),
        image,
        ready,
        restart_count,
    }
}

fn row_before(x: &DbMiddlewareRow, a: &DbMiddlewareRow) -> (r: bool)
    ensures
        r == (seq_lt(x.namespace@, a.namespace@) || (x.namespace@ == a.namespace@ && seq_lt(x.pod_name@, a.pod_name@))),
{
    str_lt(x.namespace.as_str(), a.namespace.as_str()) || (str_eq(x.namespace.as_str(), a.namespace.as_str()) && str_lt(
        x.pod_name.as_str(),
        a.pod_name.as_str(),
    ))
}

/// The database and middleware pods: those with a spec and a container
/// whose lowercased image names a known product, each with the first such
/// image; ordered by namespace, then name.
pub fn db_middleware_rows(pods: &Vec<MiddlewarePodInfo>) -> (r: Vec<DbMiddlewareRow>)
    ensures
        middleware_rows_view(r@) == insertion_sort(middleware_rows(pods@), by_namespace_and_name()),
{
    let mut rows: Vec<DbMiddlewareRow> = Vec::new();
    let mut i: usize = 0;
    proof {
        assert(middleware_rows_view(rows@) =~= middleware_rows(pods@.take(0)));
    }
    while i < pods.len()
        invariant
            i <= pods.len(),
            middleware_rows_view(rows@) == middleware_rows(pods@.take(i as int)),
        decreases pods.len() - i,
    {
        proof {
            assert(pods@.take(i as int + 1).drop_last() =~= pods@.take(i as int));
        }
        let p = &pods[i];
        let ghost before = rows@;
        if p.has_spec {
            match find_db_image(&p.images) {
                Some(k) => {
                    let row = middleware_row(p, k);
                    rows.push(row);
                    proof {
                        assert(middleware_rows_view(rows@) =~= middleware_rows_view(before).push(middleware_row_view(row)));
                    }
                },
                None => {},
            }
        }
        proof {
            assert(middleware_rows_view(rows@) =~= middleware_rows(pods@.take(i as int + 1)));
        }
        i = i + 1;
    }
    proof {
        assert(pods@.take(pods.len() as int) =~= pods@);
    }
    let ghost rv = middleware_rows_view(rows@);
    let ghost total = rv.len();
    let mut out: Vec<DbMiddlewareRow> = Vec::new();
    let mut rest = rows;
    let mut taken: usize = 0;
    proof {
        assert(middleware_rows_view(out@) =~= insertion_sort(rv.take(0), by_namespace_and_name()));
        assert(middleware_rows_view(rest@) =~= rv.skip(0));
        assert(rv.len() == rest.len());
    }
    while rest.len() > 0
        invariant
            taken + rest.len() == total,
            total == rv.len(),
            total <= usize::MAX,
            middleware_rows_view(rest@) == rv.skip(taken as int),
            middleware_rows_view(out@) == insertion_sort(rv.take(taken as int), by_namespace_and_name()),
        decreases rest.len(),
    {
        let ghost old_rest = rest@;
        let row = rest.remove(0);
        let ghost x = middleware_row_view(row);
        proof {
            assert(middleware_rows_view(old_rest)[0] == x);
            assert(x == rv[taken as int]);
            assert(middleware_rows_view(rest@) =~= rv.skip(taken as int + 1)) by {
                assert forall|j: int| 0 <= j < rest.len() implies #[trigger] middleware_rows_view(rest@)[j] == rv.skip(
                    taken as int + 1,
                )[j] by {
                    assert(rest@[j] == old_rest[j + 1]);
                    assert(middleware_rows_view(old_rest)[j + 1] == rv.skip(taken as int)[j + 1]);
                }
            }
            assert(rv.take(taken as int + 1).drop_last() =~= rv.take(taken as int));
            assert(rv.take(taken as int + 1).last() == x);
        }
        let ghost ov = middleware_rows_view(out@);
        let mut p: usize = 0;
        while p < out.len() && !row_before(&row, &out[p])
            invariant
                p <= out.len(),
                ov == middleware_rows_view(out@),
                x == middleware_row_view(row),
                forall|j: int| 0 <= j < p ==> (by_namespace_and_name())(#[trigger] ov[j], x),
            decreases out.len() - p,
        {
            p = p + 1;
        }
        proof {
            lemma_insert_sorted_at(ov, x, by_namespace_and_name(), p as int);
        }
        out.insert(p, row);
        proof {
            assert(middleware_rows_view(out@) =~= ov.take(p as int) + seq![x] + ov.skip(p as int));
        }
        taken = taken + 1;
    }
    proof {
        assert(rv.take(total as int) =~= rv);
    }
    out
}

} // verus!
