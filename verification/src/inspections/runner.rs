//! Pure parts of the inspection runner: quantity display and the executive
//! summary's lists of findings and recommendations.

use vstd::prelude::*;

use crate::inspections::types::{Issue, IssueSeverity};
use crate::utils::text::{
    dec, dec_int, lemma_seq_lt_asymmetric, lemma_seq_lt_irreflexive, lemma_seq_lt_total,
    lemma_seq_lt_transitive, push_dec, push_dec_i64, push_str, seq_lt, str_lt,
};

verus! {

/// Quotient of integer division rounding toward zero (as Rust's `/`).
pub open spec fn tdiv(a: int, b: int) -> int {
    if a >= 0 {
        a / b
    } else {
        0 - ((0 - a) / b)
    }
}

/// Text of a CPU quantity in millicores: whole cores when divisible by 1000,
/// otherwise the millicores with an `m` suffix.
pub open spec fn format_cpu_millis_spec(m: int) -> Seq<char> {
    let a = if m >= 0 {
        m
    } else {
        0 - m
    };
    if a % 1000 == 0 {
        dec_int(tdiv(m, 1000))
    } else {
        dec_int(m) + "m"@
    }
}

pub fn format_cpu_millis(millis: i64) -> (r: String)
    ensures
        r@ == format_cpu_millis_spec(millis as int),
{
    let a: u64 = if millis >= 0 {
        millis as u64
    } else {
        (0i128 - millis as i128) as u64
    };
    let mut out = String::new();
    if a % 1000 == 0 {
        let q: i64 = if millis >= 0 {
            (a / 1000) as i64
        } else {
            (0i128 - (a / 1000) as i128) as i64
        };
        push_dec_i64(&mut out, q);
    } else {
        push_dec_i64(&mut out, millis);
        push_str(&mut out, "m");
    }
    proof {
        assert(out@ =~= format_cpu_millis_spec(millis as int));
    }
    out
}

/// Text of a memory quantity in bytes: the largest of Gi, Mi, Ki that the
/// value (at least one unit) is a multiple of, or plain bytes.
pub open spec fn format_memory_bytes_spec(b: int) -> Seq<char> {
    let gib = 1073741824int;
    let mib = 1048576int;
    let kib = 1024int;
    if b >= gib && b % gib == 0 {
        dec_int(b / gib) + "Gi"@
    } else if b >= mib && b % mib == 0 {
        dec_int(b / mib) + "Mi"@
    } else if b >= kib && b % kib == 0 {
        dec_int(b / kib) + "Ki"@
    } else {
        dec_int(b)
    }
}

pub fn format_memory_bytes(b: i64) -> (r: String)
    ensures
        r@ == format_memory_bytes_spec(b as int),
{
    let gib: i64 = 1073741824;
    let mib: i64 = 1048576;
    let kib: i64 = 1024;
    let mut out = String::new();
    if b >= gib && b % gib == 0 {
        push_dec(&mut out, (b / gib) as u64);
        push_str(&mut out, "Gi");
    } else if b >= mib && b % mib == 0 {
        push_dec(&mut out, (b / mib) as u64);
        push_str(&mut out, "Mi");
    } else if b >= kib && b % kib == 0 {
        push_dec(&mut out, (b / kib) as u64);
        push_str(&mut out, "Ki");
    } else {
        push_dec_i64(&mut out, b);
    }
    proof {
        assert(out@ =~= format_memory_bytes_spec(b as int));
    }
    out
}

/// Views of a sequence of strings.
pub open spec fn views(v: Seq<String>) -> Seq<Seq<char>> {
    v.map_values(|s: String| s@)
}

/// `r` is what sorting `items`, removing duplicates and keeping the first
/// `n` gives: strictly increasing, drawn from `items`, and every item is
/// either kept or greater than all kept ones when `n` of them are kept.
pub open spec fn is_smallest_distinct(items: Seq<Seq<char>>, n: nat, r: Seq<Seq<char>>) -> bool {
    &&& r.len() <= n
    &&& forall|i: int, j: int| 0 <= i < j < r.len() ==> seq_lt(r[i], r[j])
    &&& forall|i: int| 0 <= i < r.len() ==> items.contains(#[trigger] r[i])
    &&& forall|k: int|
        0 <= k < items.len() ==> r.contains(#[trigger] items[k]) || (r.len() == n && (r.len()
            == 0 || seq_lt(r.last(), items[k])))
}

/// Keeping as many as there are items loses none: a strictly increasing
/// selection of `items` as long as `items` holds every item.
pub proof fn lemma_smallest_distinct_keeps_all(items: Seq<Seq<char>>, r: Seq<Seq<char>>)
    requires
        is_smallest_distinct(items, items.len(), r),
    ensures
        forall|k: int| 0 <= k < items.len() ==> r.contains(#[trigger] items[k]),
{
    if r.len() == items.len() {
        assert(r.no_duplicates()) by {
            assert forall|i: int, j: int| 0 <= i < r.len() && 0 <= j < r.len() && i != j implies r[i]
                != r[j] by {
                lemma_seq_lt_irreflexive(r[i]);
            }
        }
        r.unique_seq_to_set();
        items.lemma_cardinality_of_set();
        vstd::seq_lib::seq_to_set_is_finite(items);
        assert(r.to_set().subset_of(items.to_set()));
        assert forall|k: int| 0 <= k < items.len() implies r.contains(#[trigger] items[k]) by {
            if !r.contains(items[k]) {
                assert(items.to_set().contains(items[k]));
                assert(r.to_set().subset_of(items.to_set().remove(items[k])));
                vstd::set_lib::lemma_len_subset(r.to_set(), items.to_set().remove(items[k]));
            }
        }
    }
}

/// Sorts, removes duplicates and keeps the first `n` strings.
pub fn smallest_distinct(items: &Vec<String>, n: usize) -> (r: Vec<String>)
    ensures
        is_smallest_distinct(views(items@), n as nat, views(r@)),
{
    let ghost iv = views(items@);
    let mut out: Vec<String> = Vec::new();
    let mut done = false;
    while out.len() < n && !done
        invariant
            iv == views(items@),
            out.len() <= n,
            forall|i: int, j: int|
                0 <= i < j < out.len() ==> seq_lt(views(out@)[i], views(out@)[j]),
            forall|i: int| 0 <= i < out.len() ==> iv.contains(#[trigger] views(out@)[i]),
            forall|k: int|
                0 <= k < iv.len() ==> views(out@).contains(#[trigger] iv[k]) || out.len() == 0
                    || seq_lt(views(out@).last(), iv[k]),
            done ==> forall|k: int| 0 <= k < iv.len() ==> views(out@).contains(#[trigger] iv[k]),
        decreases n - out.len(), (if done { 0int } else { 1int }),
    {
        // find the smallest item greater than the last kept one
        let mut best: Option<usize> = None;
        let mut k: usize = 0;
        while k < items.len()
            invariant
                iv == views(items@),
                k <= items.len(),
                best is Some ==> best->0 < k && (out.len() == 0 || seq_lt(
                    views(out@).last(),
                    iv[best->0 as int],
                )),
                best is Some ==> forall|m: int|
                    0 <= m < k && (out.len() == 0 || seq_lt(views(out@).last(), iv[m]))
                        ==> !seq_lt(#[trigger] iv[m], iv[best->0 as int]),
                best is None ==> forall|m: int|
                    0 <= m < k ==> !(out.len() == 0 || seq_lt(views(out@).last(), #[trigger] iv[m])),
            decreases items.len() - k,
        {
            let cand = out.len() == 0 || str_lt(out[out.len() - 1].as_str(), items[k].as_str());
            if cand {
                let better = match best {
                    Some(b) => str_lt(items[k].as_str(), items[b].as_str()),
                    None => true,
                };
                if better {
                    proof {
                        if let Some(b) = best {
                            lemma_seq_lt_asymmetric(iv[k as int], iv[b as int]);
                            assert forall|m: int|
                                0 <= m < k && (out.len() == 0 || seq_lt(views(out@).last(), iv[m]))
                                implies !seq_lt(iv[m], iv[k as int]) by {
                                assert(!seq_lt(iv[m], iv[b as int]));
                                lemma_seq_lt_total(iv[m], iv[b as int]);
                                if seq_lt(iv[m], iv[k as int]) {
                                    if iv[m] == iv[b as int] {
                                    } else {
                                        lemma_seq_lt_transitive(iv[b as int], iv[m], iv[k as int]);
                                        lemma_seq_lt_asymmetric(iv[k as int], iv[b as int]);
                                    }
                                }
                            }
                        }
                        lemma_seq_lt_irreflexive(iv[k as int]);
                    }
                    best = Some(k);
                }
            }
            k = k + 1;
        }
        match best {
            None => {
                proof {
                    assert forall|k2: int| 0 <= k2 < iv.len() implies views(out@).contains(
                        #[trigger] iv[k2],
                    ) by {
                        if !views(out@).contains(iv[k2]) {
                            assert(!(out.len() == 0 || seq_lt(views(out@).last(), iv[k2])));
                        }
                    }
                }
                done = true;
            },
            Some(b) => {
                let ghost old_out = views(out@);
                let x = items[b].clone();
                proof {
                    assert(x@ == iv[b as int]);
                }
                out.push(x);
                proof {
                    let nv = views(out@);
                    assert(nv =~= old_out.push(iv[b as int]));
                    assert forall|i: int, j: int| 0 <= i < j < nv.len() implies seq_lt(
                        nv[i],
                        nv[j],
                    ) by {
                        if j == nv.len() - 1 && i < j {
                            if i < old_out.len() - 1 {
                                lemma_seq_lt_transitive(old_out[i], old_out.last(), iv[b as int]);
                            }
                        }
                    }
                    assert forall|i: int| 0 <= i < nv.len() implies iv.contains(#[trigger] nv[i]) by {
                        if i == nv.len() - 1 {
                            assert(iv[b as int] == nv[i]);
                        } else {
                            assert(nv[i] == old_out[i]);
                        }
                    }
                    assert forall|k2: int| 0 <= k2 < iv.len() implies nv.contains(#[trigger] iv[k2]) || (
                    nv.len() > 0 && seq_lt(nv.last(), iv[k2])) by {
                        if old_out.contains(iv[k2]) {
                            let w = choose|w: int| 0 <= w < old_out.len() && old_out[w] == iv[k2];
                            assert(nv[w] == iv[k2]);
                        } else {
                            assert(old_out.len() == 0 || seq_lt(old_out.last(), iv[k2]));
                            assert(!seq_lt(iv[k2], iv[b as int]));
                            lemma_seq_lt_irreflexive(iv[k2]);
                            lemma_seq_lt_total(iv[k2], iv[b as int]);
                            if iv[k2] == iv[b as int] {
                                assert(nv[nv.len() - 1] == iv[k2]);
                            }
                        }
                    }
                }
            },
        }
    }
    proof {
        let ov = views(out@);
        assert forall|k2: int| 0 <= k2 < iv.len() implies ov.contains(#[trigger] iv[k2]) || (ov.len()
            == n && (ov.len() == 0 || seq_lt(ov.last(), iv[k2]))) by {
            if !done {
                assert(out.len() == n);
            }
        }
    }
    out
}

/// Descriptions and recommendations of the critical issues, in order.
pub open spec fn critical_descriptions(issues: Seq<Issue>) -> Seq<Seq<char>>
    decreases issues.len(),
{
    if issues.len() == 0 {
        seq![]
    } else {
        let rest = critical_descriptions(issues.drop_last());
        if issues.last().severity == IssueSeverity::Critical {
            rest.push(issues.last().description@)
        } else {
            rest
        }
    }
}

pub open spec fn critical_recommendations(issues: Seq<Issue>) -> Seq<Seq<char>>
    decreases issues.len(),
{
    if issues.len() == 0 {
        seq![]
    } else {
        let rest = critical_recommendations(issues.drop_last());
        if issues.last().severity == IssueSeverity::Critical {
            rest.push(issues.last().recommendation@)
        } else {
            rest
        }
    }
}

/// Key findings and priority recommendations of the executive summary: the
/// descriptions and recommendations of the critical issues, each sorted,
/// without duplicates, at most five.
pub fn summarize_critical_issues(issues: &Vec<Issue>) -> (r: (Vec<String>, Vec<String>))
    ensures
        is_smallest_distinct(critical_descriptions(issues@), 5, views(r.0@)),
        is_smallest_distinct(critical_recommendations(issues@), 5, views(r.1@)),
{
    let mut descs: Vec<String> = Vec::new();
    let mut recs: Vec<String> = Vec::new();
    let mut i: usize = 0;
    while i < issues.len()
        invariant
            i <= issues.len(),
            views(descs@) == critical_descriptions(issues@.take(i as int)),
            views(recs@) == critical_recommendations(issues@.take(i as int)),
        decreases issues.len() - i,
    {
        proof {
            assert(issues@.take(i as int + 1).drop_last() =~= issues@.take(i as int));
        }
        if let IssueSeverity::Critical = issues[i].severity {
            let d = issues[i].description.clone();
            let c = issues[i].recommendation.clone();
            let ghost od = views(descs@);
            let ghost oc = views(recs@);
            descs.push(d);
            recs.push(c);
            proof {
                assert(views(descs@) =~= od.push(d@));
                assert(views(recs@) =~= oc.push(c@));
            }
        }
        i = i + 1;
    }
    proof {
        assert(issues@.take(issues.len() as int) =~= issues@);
    }
    (smallest_distinct(&descs, 5), smallest_distinct(&recs, 5))
}

} // verus!
