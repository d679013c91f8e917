//! Recent warning and error events of the cluster, newest first.

use vstd::prelude::*;

use crate::inspections::common::or_default;
use crate::inspections::types::EventRow;
use crate::utils::format::{truncate_spec, truncate_string};
use crate::utils::sorting::{insert_sorted, insertion_sort, lemma_insert_sorted_at, lemma_insertion_sort_len};
use crate::utils::text::{owned, push_str, seq_lt, str_eq, str_lt};
use crate::inspections::common::str_or;

verus! {

/// How `chrono` prints the UTC instant given by Unix seconds and
/// nanoseconds with a `strftime` pattern; `None` when the instant is out of
/// its range.
pub uninterp spec fn utc_text(secs: i64, nanos: u32, pattern: Seq<char>) -> Option<Seq<char>>;

/// `chrono::DateTime::<Utc>::from_timestamp`, then `format` with the
/// pattern: the result is the named value of the arguments. Printing a
/// pattern that chrono cannot read panics, so only the date-and-time
/// pattern the event table uses is admitted.
#[verifier::external_body]
fn format_utc(secs: i64, nanos: u32, pattern: &str) -> (r: Option<String>)
    requires
        pattern@ == "%Y-%m-%d %H:%M:%S"@,
    ensures
        match r {
            Some(s) => utc_text(secs, nanos, pattern@) == Some(s@),
            None => utc_text(secs, nanos, pattern@) is None,
        },
{
    match chrono::DateTime::<chrono::Utc>::from_timestamp(secs, nanos) {
        Some(t) => Some(t.format(pattern).to_string()),
        None => None,
    }
}

/// At most this many namespaces are searched for events.
pub const MAX_EVENT_NAMESPACES: usize = 20;

pub open spec fn somes(names: Seq<Option<String>>) -> Seq<Seq<char>>
    decreases names.len(),
{
    if names.len() == 0 {
        seq![]
    } else {
        somes(names.drop_last()) + match names.last() {
            Some(n) => seq![n@],
            None => seq![],
        }
    }
}

/// The namespaces whose events are read: the first 20 that have a name.
pub fn event_namespaces(names: &Vec<Option<String>>) -> (r: Vec<String>)
    ensures
        r@.map_values(|s: String| s@) == somes(names@).take(
            if somes(names@).len() < MAX_EVENT_NAMESPACES { somes(names@).len() as int } else { MAX_EVENT_NAMESPACES as int },
        ),
{
    let mut out: Vec<String> = Vec::new();
    let mut i: usize = 0;
    while i < names.len()
        invariant
            i <= names.len(),
            out@.map_values(|s: String| s@) == somes(names@.take(i as int)),
        decreases names.len() - i,
    {
        proof {
            assert(names@.take(i as int + 1).drop_last() =~= names@.take(i as int));
        }
        let ghost before = out@;
        match &names[i] {
            Some(n) => {
                out.push(n.clone());
            },
            None => {},
        }
        proof {
            assert(out@.map_values(|s: String| s@) =~= somes(names@.take(i as int + 1)));
        }
        i = i + 1;
    }
    proof {
        assert(names@.take(names.len() as int) =~= names@);
    }
    if out.len() > MAX_EVENT_NAMESPACES {
        out.truncate(MAX_EVENT_NAMESPACES);
    }
    proof {
        let s = somes(names@);
        assert(out@.map_values(|s: String| s@) =~= s.take(
            if s.len() < MAX_EVENT_NAMESPACES { s.len() as int } else { MAX_EVENT_NAMESPACES as int },
        ));
    }
    out
}

/// What the events table reads of an event.
#[derive(Debug, Clone)]
pub struct EventInfo {
    pub namespace: Option<String>,
    pub event_type: Option<String>,
    pub object_kind: Option<String>,
    pub object_name: Option<String>,
    pub reason: Option<String>,
    pub message: Option<String>,
    pub last_timestamp: Option<(i64, u32)>,
    pub first_timestamp: Option<(i64, u32)>,
}

pub type EventRowSpec = (Seq<char>, Seq<char>, Seq<char>, Seq<char>, Seq<char>, Seq<char>);

pub open spec fn event_row_view(r: EventRow) -> EventRowSpec {
    (r.namespace@, r.object_ref@, r.event_type@, r.reason@, r.message@, r.last_seen@)
}

pub open spec fn event_rows_view(rs: Seq<EventRow>) -> Seq<EventRowSpec> {
    rs.map_values(|r: EventRow| event_row_view(r))
}

/// Only warnings and errors are listed.
pub open spec fn listed_event(e: EventInfo) -> bool {
    or_default(e.event_type, ""@) == "Warning"@ || or_default(e.event_type, ""@) == "Error"@
}

/// `Kind/name` of the involved object, or only the name when either is
/// empty.
pub open spec fn object_ref_spec(e: EventInfo) -> Seq<char> {
    let k = or_default(e.object_kind, ""@);
    let n = or_default(e.object_name, ""@);
    if k.len() == 0 || n.len() == 0 {
        n
    } else {
        k + "/"@ + n
    }
}

/// When the event was last seen (else first seen), printed in UTC; `-`
/// without either time.
pub open spec fn last_seen_spec(e: EventInfo) -> Seq<char> {
    let t = if e.last_timestamp is Some {
        e.last_timestamp
    } else {
        e.first_timestamp
    };
    match t {
        Some(p) => match utc_text(p.0, p.1, "%Y-%m-%d %H:%M:%S"@) {
            Some(s) => s,
            None => "-"@,
        },
        None => "-"@,
    }
}

pub open spec fn event_row_spec(e: EventInfo) -> EventRowSpec {
    (or_default(e.namespace, ""@), object_ref_spec(e), or_default(e.event_type, ""@), or_default(e.reason, ""@),
        truncate_spec(or_default(e.message, ""@), 80), last_seen_spec(e))
}

pub open spec fn events_rows(es: Seq<EventInfo>) -> Seq<EventRowSpec>
    decreases es.len(),
{
    if es.len() == 0 {
        seq![]
    } else {
        events_rows(es.drop_last()) + if listed_event(es.last()) {
            seq![event_row_spec(es.last())]
        } else {
            seq![]
        }
    }
}

/// Newest first: a row stays before another unless it was seen earlier.
pub open spec fn newest_first() -> spec_fn(EventRowSpec, EventRowSpec) -> bool {
    |a: EventRowSpec, x: EventRowSpec| !seq_lt(a.5, x.5)
}

fn event_row(e: &EventInfo) -> (r: EventRow)
    ensures
        event_row_view(r) == event_row_spec(*e),
{
    let kind = str_or(&e.object_kind, "");
    let name = str_or(&e.object_name, "");
    let object_ref = if kind.is_empty() || name.is_empty() {
        owned(name)
    } else {
        let mut s = owned(kind);
        push_str(&mut s, "/");
        push_str(&mut s, name);
        s
    };
    let t = if e.last_timestamp.is_some() {
        e.last_timestamp
    } else {
        e.first_timestamp
    };
    let last_seen = match t {
        Some((secs, nanos)) => match format_utc(secs, nanos, "%Y-%m-%d %H:%M:%S") {
            Some(s) => s,
            None => owned("-"),
        },
        None => owned("-"),
    };
    proof {
        reveal_strlit("");
        if kind@.len() == 0 {
            assert(kind@ =~= ""@);
        }
    }
    EventRow {
        namespace: owned(str_or(&e.namespace, "")),
        object_ref,
        event_type: owned(str_or(&e.event_type, "")),
        reason: owned(str_or(&e.reason, "")),
        message: truncate_string(str_or(&e.message, ""), 80),
        last_seen,
    }
}

/// The rows of the recent warning and error events: newest first (events
/// seen at the same time keep their order), at most `limit` of them.
pub fn recent_event_rows(events: &Vec<EventInfo>, limit: usize) -> (r: Vec<EventRow>)
    ensures
        ({
            let sorted = insertion_sort(events_rows(events@), newest_first());
            event_rows_view(r@) == sorted.take(if limit < sorted.len() { limit as int } else { sorted.len() as int })
        }),
{
    let mut rows: Vec<EventRow> = Vec::new();
    let mut i: usize = 0;
    proof {
        assert(event_rows_view(rows@) =~= events_rows(events@.take(0)));
    }
    while i < events.len()
        invariant
            i <= events.len(),
            event_rows_view(rows@) == events_rows(events@.take(i as int)),
        decreases events.len() - i,
    {
        proof {
            assert(events@.take(i as int + 1).drop_last() =~= events@.take(i as int));
        }
        let e = &events[i];
        let ty = str_or(&e.event_type, "");
        if str_eq(ty, "Warning") || str_eq(ty, "Error") {
            let row = event_row(e);
            let ghost before = rows@;
            rows.push(row);
            proof {
                assert(event_rows_view(rows@) =~= event_rows_view(before).push(event_row_view(row)));
            }
        }
        proof {
            assert(event_rows_view(rows@) =~= events_rows(events@.take(i as int + 1)));
        }
        i = i + 1;
    }
    proof {
        assert(events@.take(events.len() as int) =~= events@);
    }
    let ghost rv = event_rows_view(rows@);
    let ghost total = rv.len();
    let mut out: Vec<EventRow> = Vec::new();
    let mut rest = rows;
    let mut taken: usize = 0;
    proof {
        assert(event_rows_view(out@) =~= insertion_sort(rv.take(0), newest_first()));
        assert(event_rows_view(rest@) =~= rv.skip(0));
        assert(rv.len() == rest.len());
    }
    while rest.len() > 0
        invariant
            taken + rest.len() == total,
            total == rv.len(),
            total <= usize::MAX,
            event_rows_view(rest@) == rv.skip(taken as int),
            event_rows_view(out@) == insertion_sort(rv.take(taken as int), newest_first()),
        decreases rest.len(),
    {
        let ghost old_rest = rest@;
        let row = rest.remove(0);
        let ghost x = event_row_view(row);
        proof {
            assert(event_rows_view(old_rest)[0] == x);
            assert(x == rv[taken as int]);
            assert(event_rows_view(rest@) =~= rv.skip(taken as int + 1)) by {
                assert forall|j: int| 0 <= j < rest.len() implies #[trigger] event_rows_view(rest@)[j] == rv.skip(
                    taken as int + 1,
                )[j] by {
                    assert(rest@[j] == old_rest[j + 1]);
                    assert(event_rows_view(old_rest)[j + 1] == rv.skip(taken as int)[j + 1]);
                }
            }
            assert(rv.take(taken as int + 1).drop_last() =~= rv.take(taken as int));
            assert(rv.take(taken as int + 1).last() == x);
        }
        let ghost ov = event_rows_view(out@);
        let mut p: usize = 0;
        while p < out.len() && !str_lt(out[p].last_seen.as_str(), row.last_seen.as_str())
            invariant
                p <= out.len(),
                ov == event_rows_view(out@),
                x == event_row_view(row),
                forall|j: int| 0 <= j < p ==> (newest_first())(#[trigger] ov[j], x),
            decreases out.len() - p,
        {
            p = p + 1;
        }
        proof {
            lemma_insert_sorted_at(ov, x, newest_first(), p as int);
        }
        out.insert(p, row);
        proof {
            assert(event_rows_view(out@) =~= ov.take(p as int) + seq![x] + ov.skip(p as int));
        }
        taken = taken + 1;
    }
    proof {
        assert(rv.take(total as int) =~= rv);
        lemma_insertion_sort_len(rv, newest_first());
    }
    if limit < out.len() {
        out.truncate(limit);
    }
    proof {
        let sorted = insertion_sort(events_rows(events@), newest_first());
        assert(event_rows_view(out@) =~= sorted.take(if limit < sorted.len() { limit as int } else { sorted.len() as int }));
    }
    out
}

} // verus!
