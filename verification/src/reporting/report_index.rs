//! The report index: which entries a report ID names.

use vstd::prelude::*;

use crate::utils::text::str_eq;

verus! {

/// Positions of the entries whose ID is `id`, in order.
pub open spec fn id_positions(ids: Seq<Seq<char>>, id: Seq<char>) -> Seq<usize>
    decreases ids.len(),
{
    if ids.len() == 0 {
        seq![]
    } else {
        let prev = id_positions(ids.drop_last(), id);
        if ids.last() == id {
            prev.push((ids.len() - 1) as usize)
        } else {
            prev
        }
    }
}

/// Positions of the index entries with the given report ID, in order: the
/// entries that a lookup finds (the first) and that removing the report
/// deletes, with their files.
pub fn positions_of(ids: &Vec<String>, id: &str) -> (r: Vec<usize>)
    ensures
        r@ == id_positions(ids.deep_view(), id@),
{
    let ghost iv = ids.deep_view();
    let mut out: Vec<usize> = Vec::new();
    let mut i: usize = 0;
    while i < ids.len()
        invariant
            i <= ids.len(),
            iv == ids.deep_view(),
            out@ == id_positions(iv.take(i as int), id@),
        decreases ids.len() - i,
    {
        proof {
            assert(iv.take(i as int + 1).drop_last() =~= iv.take(i as int));
            assert(iv[i as int] == ids@[i as int]@);
        }
        if str_eq(ids[i].as_str(), id) {
            out.push(i);
        }
        i = i + 1;
    }
    proof {
        assert(iv.take(ids.len() as int) =~= iv);
    }
    out
}

} // verus!
