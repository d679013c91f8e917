//! Inspection jobs: their status, their append-only log buffer with
//! cursor-based reads, cancellation, and the table of jobs by id.

use vstd::prelude::*;

use crate::utils::sorting::{insertion_sort, lemma_insert_sorted_at, lemma_insertion_sort_len};
use crate::utils::text::{
    chars_of, scan_split, seq_lt, split, split_vec, str_eq, str_lt, string_of, trim_end, trim_end_vec,
};

verus! {

/// Status of a job.
#[derive(Debug, Clone, Copy, PartialEq, Eq, Structural)]
pub enum JobStatus {
    Queued,
    Running,
    Completed,
    Failed,
    Cancelled,
}

pub open spec fn status_str(s: JobStatus) -> Seq<char> {
    match s {
        JobStatus::Queued => "queued"@,
        JobStatus::Running => "running"@,
        JobStatus::Completed => "completed"@,
        JobStatus::Failed => "failed"@,
        JobStatus::Cancelled => "cancelled"@,
    }
}

pub open spec fn finished(s: JobStatus) -> bool {
    s == JobStatus::Completed || s == JobStatus::Failed || s == JobStatus::Cancelled
}

impl JobStatus {
    /// Lower-case name of the status.
    pub fn as_str(&self) -> (r: &'static str)
        ensures
            r@ == status_str(*self),
    {
        match self {
            JobStatus::Queued => "queued",
            JobStatus::Running => "running",
            JobStatus::Completed => "completed",
            JobStatus::Failed => "failed",
            JobStatus::Cancelled => "cancelled",
        }
    }

    /// Whether the job has ended (completed, failed or cancelled).
    pub fn is_finished(&self) -> (r: bool)
        ensures
            r == finished(*self),
    {
        match self {
            JobStatus::Completed | JobStatus::Failed | JobStatus::Cancelled => true,
            _ => false,
        }
    }
}

// ---------------------------------------------------------------------------
// Log lines
// ---------------------------------------------------------------------------

/// The pieces kept of a log message: each line, trailing whitespace cut,
/// empty ones dropped.
pub open spec fn kept_lines(pieces: Seq<Seq<char>>) -> Seq<Seq<char>>
    decreases pieces.len(),
{
    if pieces.len() == 0 {
        seq![]
    } else {
        let rest = kept_lines(pieces.drop_last());
        let t = trim_end(pieces.last());
        if t.len() == 0 {
            rest
        } else {
            rest.push(t)
        }
    }
}

/// The lines a log message adds to a job's log.
pub open spec fn log_lines(msg: Seq<char>) -> Seq<Seq<char>> {
    kept_lines(split(msg, '\n'))
}

/// Splits a log message into the lines kept in the log.
pub fn split_log_lines(msg: &str) -> (r: Vec<String>)
    ensures
        r@.map_values(|s: String| s@) == log_lines(msg@),
{
    let v = chars_of(msg);
    let pieces = split_vec(&v, '\n');
    let ghost pv = pieces.deep_view();
    let mut out: Vec<String> = Vec::new();
    let mut i: usize = 0;
    while i < pieces.len()
        invariant
            i <= pieces.len(),
            pv == pieces.deep_view(),
            pv == split(msg@, '\n'),
            out@.map_values(|s: String| s@) == kept_lines(pv.take(i as int)),
        decreases pieces.len() - i,
    {
        proof {
            assert(pv.take(i as int + 1).drop_last() =~= pv.take(i as int));
            assert(pv.take(i as int + 1).last() == pieces@[i as int]@);
        }
        let t = trim_end_vec(&pieces[i]);
        if t.len() > 0 {
            let ghost before = out@;
            out.push(string_of(&t));
            proof {
                assert(out@.map_values(|s: String| s@) =~= before.map_values(|s: String| s@).push(
                    t@,
                ));
            }
        }
        i = i + 1;
    }
    proof {
        assert(pv.take(pieces.len() as int) =~= pv);
    }
    out
}

// ---------------------------------------------------------------------------
// One job
// ---------------------------------------------------------------------------

/// The state of a job that the job logic decides on: status, log lines,
/// cancellation, step counts and the id of its report.
#[derive(Debug, Clone)]
pub struct JobState {
    pub status: JobStatus,
    pub logs: Vec<String>,
    pub cancelled: bool,
    pub current: usize,
    pub total: usize,
    pub report_id: Option<String>,
}

pub open spec fn log_view(s: JobState) -> Seq<Seq<char>> {
    s.logs@.map_values(|l: String| l@)
}

/// The lines from `cursor` on (none when the cursor is past the end).
pub open spec fn logs_after(logs: Seq<Seq<char>>, cursor: nat) -> Seq<Seq<char>> {
    if cursor <= logs.len() {
        logs.skip(cursor as int)
    } else {
        seq![]
    }
}

/// A fresh job: queued, no logs, not cancelled, no progress.
pub open spec fn is_fresh(s: JobState) -> bool {
    &&& s.status == JobStatus::Queued
    &&& s.logs@.len() == 0
    &&& !s.cancelled
    &&& s.current == 0
    &&& s.total == 0
    &&& s.report_id is None
}

impl JobState {
    pub fn new() -> (r: JobState)
        ensures
            is_fresh(r),
    {
        JobState {
            status: JobStatus::Queued,
            logs: Vec::new(),
            cancelled: false,
            current: 0,
            total: 0,
            report_id: None,
        }
    }

    /// Appends the lines of a message to the log.
    pub fn append_log(&mut self, msg: &str)
        ensures
            log_view(*final(self)) == log_view(*old(self)) + log_lines(msg@),
            final(self).status == old(self).status,
            final(self).cancelled == old(self).cancelled,
            final(self).current == old(self).current,
            final(self).total == old(self).total,
            final(self).report_id == old(self).report_id,
    {
        let lines = split_log_lines(msg);
        let ghost start = log_view(*self);
        let mut i: usize = 0;
        while i < lines.len()
            invariant
                i <= lines.len(),
                log_view(*self) == start + lines@.map_values(|s: String| s@).take(i as int),
                self.status == old(self).status,
                self.cancelled == old(self).cancelled,
                self.current == old(self).current,
                self.total == old(self).total,
                self.report_id == old(self).report_id,
                start == log_view(*old(self)),
            decreases lines.len() - i,
        {
            let ghost before = self.logs@;
            self.logs.push(lines[i].clone());
            proof {
                assert(self.logs@.map_values(|l: String| l@) =~= before.map_values(|l: String| l@).push(
                    lines@[i as int]@,
                ));
                assert(lines@.map_values(|s: String| s@).take(i as int + 1) =~= lines@.map_values(
                    |s: String| s@,
                ).take(i as int).push(lines@[i as int]@));
            }
            i = i + 1;
        }
        proof {
            assert(lines@.map_values(|s: String| s@).take(lines.len() as int) =~= lines@.map_values(
                |s: String| s@,
            ));
        }
    }

    /// Sets the status; returns whether the job has now ended (and its end
    /// time is to be recorded).
    pub fn set_status(&mut self, status: JobStatus) -> (ended: bool)
        ensures
            final(self).status == status,
            ended == finished(status),
            log_view(*final(self)) == log_view(*old(self)),
            final(self).cancelled == old(self).cancelled,
            final(self).current == old(self).current,
            final(self).total == old(self).total,
            final(self).report_id == old(self).report_id,
    {
        self.status = status;
        status.is_finished()
    }

    /// The log lines from `cursor` on and the new cursor (the log length).
    pub fn logs_since(&self, cursor: usize) -> (r: (Vec<String>, usize))
        ensures
            r.0@.map_values(|s: String| s@) == logs_after(log_view(*self), cursor as nat),
            r.1 == self.logs.len(),
    {
        let total = self.logs.len();
        let start = if cursor < total {
            cursor
        } else {
            total
        };
        let mut out: Vec<String> = Vec::new();
        let mut i: usize = start;
        while i < total
            invariant
                start <= i <= total,
                total == self.logs.len(),
                out@.map_values(|s: String| s@) == log_view(*self).subrange(start as int, i as int),
            decreases total - i,
        {
            let ghost before = out@;
            out.push(self.logs[i].clone());
            proof {
                assert(out@.map_values(|s: String| s@) =~= before.map_values(|s: String| s@).push(
                    self.logs@[i as int]@,
                ));
                assert(log_view(*self)[i as int] == self.logs@[i as int]@);
                assert(out@.map_values(|s: String| s@) =~= log_view(*self).subrange(
                    start as int,
                    i as int + 1,
                ));
            }
            i = i + 1;
        }
        proof {
            assert(log_view(*self).subrange(start as int, total as int) =~= logs_after(
                log_view(*self),
                cursor as nat,
            ));
        }
        (out, total)
    }
}


// ---------------------------------------------------------------------------
// The job table
// ---------------------------------------------------------------------------

/// A job in the table: its id, its state and what else the caller keeps
/// with it.
#[derive(Debug, Clone)]
pub struct JobEntry<T> {
    pub id: String,
    pub state: JobState,
    pub extra: T,
}

/// Jobs by id, in order of first insertion; inserting an id again replaces
/// that job.
#[derive(Debug, Clone)]
pub struct JobTable<T> {
    entries: Vec<JobEntry<T>>,
}

/// Position of the job with the given id (the last one, though ids are
/// never repeated), or -1.
pub open spec fn index_of<T>(es: Seq<JobEntry<T>>, id: Seq<char>) -> int
    decreases es.len(),
{
    if es.len() == 0 {
        -1
    } else if es.last().id@ == id {
        es.len() - 1
    } else {
        index_of(es.drop_last(), id)
    }
}

/// The job with the given id.
pub open spec fn lookup<T>(es: Seq<JobEntry<T>>, id: Seq<char>) -> Option<JobEntry<T>> {
    let k = index_of(es, id);
    if k >= 0 {
        Some(es[k])
    } else {
        None
    }
}

proof fn lemma_index_of_range<T>(es: Seq<JobEntry<T>>, id: Seq<char>)
    ensures
        -1 <= index_of(es, id) < es.len(),
        index_of(es, id) >= 0 ==> es[index_of(es, id)].id@ == id,
        index_of(es, id) == -1 ==> forall|i: int| 0 <= i < es.len() ==> (#[trigger] es[i]).id@ != id,
    decreases es.len(),
{
    if es.len() > 0 {
        lemma_index_of_range(es.drop_last(), id);
        if es.last().id@ != id {
            assert forall|i: int| 0 <= i < es.len() - 1 implies es[i] == es.drop_last()[i] by {}
        }
    }
}

impl<T> JobTable<T> {
    pub closed spec fn view(&self) -> Seq<JobEntry<T>> {
        self.entries@
    }

    /// The job with the given id.
    pub open spec fn job(&self, id: Seq<char>) -> Option<JobEntry<T>> {
        lookup(self.view(), id)
    }

    pub fn new() -> (r: Self)
        ensures
            r.view().len() == 0,
    {
        JobTable { entries: Vec::new() }
    }

    pub fn len(&self) -> (r: usize)
        ensures
            r == self.view().len(),
    {
        self.entries.len()
    }

    /// The job at a position (in order of insertion).
    pub fn entry_at(&self, i: usize) -> (r: &JobEntry<T>)
        requires
            i < self.view().len(),
        ensures
            *r == self.view()[i as int],
    {
        &self.entries[i]
    }

    /// Position of the job with the given id.
    pub fn find(&self, id: &str) -> (r: Option<usize>)
        ensures
            match r {
                Some(k) => k == index_of(self.view(), id@),
                None => index_of(self.view(), id@) == -1,
            },
    {
        let mut i: usize = self.entries.len();
        proof {
            assert(self.entries@.take(i as int) =~= self.entries@);
        }
        while i > 0
            invariant
                i <= self.entries.len(),
                index_of(self.view(), id@) == index_of(self.entries@.take(i as int), id@),
            decreases i,
        {
            proof {
                assert(self.entries@.take(i as int).drop_last() =~= self.entries@.take(i - 1));
                assert(self.entries@.take(i as int).last() == self.entries@[i - 1]);
            }
            if str_eq(self.entries[i - 1].id.as_str(), id) {
                return Some(i - 1);
            }
            i = i - 1;
        }
        None
    }

    /// Adds a fresh job under `id`; a job already under `id` is replaced.
    pub fn insert(&mut self, id: String, extra: T)
        ensures
            old(self).job(id@) is Some ==> final(self).view().len() == old(self).view().len(),
            old(self).job(id@) is None ==> final(self).view().len() == old(self).view().len() + 1,
            final(self).job(id@) is Some,
            is_fresh(final(self).job(id@)->0.state),
            final(self).job(id@)->0.extra == extra,
            forall|other: Seq<char>| other != id@ ==> #[trigger] final(self).job(other) == old(self).job(other),
    {
        proof {
            lemma_index_of_range(self.entries@, id@);
        }
        let ghost ids = id@;
        match self.find(id.as_str()) {
            Some(k) => {
                let ghost before = self.entries@;
                self.entries.set(k, JobEntry { id, state: JobState::new(), extra });
                proof {
                    lemma_index_after_set(before, k as int, self.entries@);
                }
            },
            None => {
                let ghost before = self.entries@;
                self.entries.push(JobEntry { id, state: JobState::new(), extra });
                proof {
                    assert(self.entries@ == before.push(self.entries@.last()));
                    lemma_lookup_after_push(before, self.entries@.last());
                }
            },
        }
    }

    /// Appends the lines of a message to the log of the job, if there is one.
    pub fn append_log(&mut self, id: &str, msg: &str)
        ensures
            match old(self).job(id@) {
                Some(e) => final(self).job(id@) is Some && log_view(final(self).job(id@)->0.state) == log_view(e.state) + log_lines(msg@)
                    && final(self).job(id@)->0.state.status == e.state.status
                    && final(self).job(id@)->0.state.cancelled == e.state.cancelled,
                None => final(self).view() == old(self).view(),
            },
            forall|other: Seq<char>| other != id@ ==> #[trigger] final(self).job(other) == old(self).job(other),
    {
        proof {
            lemma_index_of_range(self.entries@, id@);
        }
        if let Some(k) = self.find(id) {
            let ghost before = self.entries@;
            let mut e = self.entries.remove(k);
            e.state.append_log(msg);
            self.entries.insert(k, e);
            proof {
                assert(self.entries@ =~= before.update(k as int, self.entries@[k as int]));
                lemma_index_after_set(before, k as int, self.entries@);
            }
        }
    }

    /// Sets the status of the job, if there is one; returns whether there
    /// is one and it has now ended.
    pub fn set_status(&mut self, id: &str, status: JobStatus) -> (ended: bool)
        ensures
            match old(self).job(id@) {
                Some(e) => final(self).job(id@) is Some && final(self).job(id@)->0.state.status == status
                    && log_view(final(self).job(id@)->0.state) == log_view(e.state)
                    && final(self).job(id@)->0.state.cancelled == e.state.cancelled
                    && ended == finished(status),
                None => final(self).view() == old(self).view() && !ended,
            },
            forall|other: Seq<char>| other != id@ ==> #[trigger] final(self).job(other) == old(self).job(other),
    {
        proof {
            lemma_index_of_range(self.entries@, id@);
        }
        if let Some(k) = self.find(id) {
            let ghost before = self.entries@;
            let mut e = self.entries.remove(k);
            let ended = e.state.set_status(status);
            self.entries.insert(k, e);
            proof {
                assert(self.entries@ =~= before.update(k as int, self.entries@[k as int]));
                lemma_index_after_set(before, k as int, self.entries@);
            }
            ended
        } else {
            false
        }
    }

    /// Sets the step counts of the job, if there is one.
    pub fn set_progress(&mut self, id: &str, current: usize, total: usize)
        ensures
            match old(self).job(id@) {
                Some(e) => final(self).job(id@) is Some && final(self).job(id@)->0.state.current == current
                    && final(self).job(id@)->0.state.total == total
                    && final(self).job(id@)->0.state.status == e.state.status
                    && log_view(final(self).job(id@)->0.state) == log_view(e.state),
                None => final(self).view() == old(self).view(),
            },
            forall|other: Seq<char>| other != id@ ==> #[trigger] final(self).job(other) == old(self).job(other),
    {
        proof {
            lemma_index_of_range(self.entries@, id@);
        }
        if let Some(k) = self.find(id) {
            let ghost before = self.entries@;
            let mut e = self.entries.remove(k);
            e.state.current = current;
            e.state.total = total;
            self.entries.insert(k, e);
            proof {
                assert(self.entries@ =~= before.update(k as int, self.entries@[k as int]));
                lemma_index_after_set(before, k as int, self.entries@);
            }
        }
    }

    /// Records the report of the job, if there is one.
    pub fn set_report_id(&mut self, id: &str, report_id: String)
        ensures
            match old(self).job(id@) {
                Some(e) => final(self).job(id@) is Some && final(self).job(id@)->0.state.report_id == Some(report_id)
                    && final(self).job(id@)->0.state.status == e.state.status,
                None => final(self).view() == old(self).view(),
            },
            forall|other: Seq<char>| other != id@ ==> #[trigger] final(self).job(other) == old(self).job(other),
    {
        proof {
            lemma_index_of_range(self.entries@, id@);
        }
        if let Some(k) = self.find(id) {
            let ghost before = self.entries@;
            let mut e = self.entries.remove(k);
            e.state.report_id = Some(report_id);
            self.entries.insert(k, e);
            proof {
                assert(self.entries@ =~= before.update(k as int, self.entries@[k as int]));
                lemma_index_after_set(before, k as int, self.entries@);
            }
        }
    }

    /// Replaces the caller's data kept with the job; returns whether there
    /// is such a job. The job's state is left as it was.
    pub fn set_extra(&mut self, id: &str, extra: T) -> (found: bool)
        ensures
            found == (old(self).job(id@) is Some),
            match old(self).job(id@) {
                Some(e) => final(self).job(id@) is Some && final(self).job(id@)->0.extra == extra
                    && final(self).job(id@)->0.state == e.state,
                None => final(self).view() == old(self).view(),
            },
            forall|other: Seq<char>| other != id@ ==> #[trigger] final(self).job(other) == old(self).job(other),
    {
        proof {
            lemma_index_of_range(self.entries@, id@);
        }
        if let Some(k) = self.find(id) {
            let ghost before = self.entries@;
            let mut e = self.entries.remove(k);
            e.extra = extra;
            self.entries.insert(k, e);
            proof {
                assert(self.entries@ =~= before.update(k as int, self.entries@[k as int]));
                lemma_index_after_set(before, k as int, self.entries@);
            }
            true
        } else {
            false
        }
    }

    /// Marks the job cancelled; returns whether there is such a job.
    pub fn request_cancel(&mut self, id: &str) -> (found: bool)
        ensures
            found == (old(self).job(id@) is Some),
            match old(self).job(id@) {
                Some(e) => final(self).job(id@) is Some && final(self).job(id@)->0.state.cancelled
                    && final(self).job(id@)->0.state.status == e.state.status
                    && log_view(final(self).job(id@)->0.state) == log_view(e.state),
                None => final(self).view() == old(self).view(),
            },
            forall|other: Seq<char>| other != id@ ==> #[trigger] final(self).job(other) == old(self).job(other),
    {
        proof {
            lemma_index_of_range(self.entries@, id@);
        }
        if let Some(k) = self.find(id) {
            let ghost before = self.entries@;
            let mut e = self.entries.remove(k);
            e.state.cancelled = true;
            self.entries.insert(k, e);
            proof {
                assert(self.entries@ =~= before.update(k as int, self.entries@[k as int]));
                lemma_index_after_set(before, k as int, self.entries@);
            }
            true
        } else {
            false
        }
    }

    /// Whether the job exists and was cancelled.
    pub fn is_cancelled(&self, id: &str) -> (r: bool)
        ensures
            r == (self.job(id@) is Some && self.job(id@)->0.state.cancelled),
    {
        proof {
            lemma_index_of_range(self.entries@, id@);
        }
        match self.find(id) {
            Some(k) => self.entries[k].state.cancelled,
            None => false,
        }
    }

    /// The log lines of the job from `cursor` on and the new cursor; for an
    /// unknown job, nothing and the cursor unchanged.
    pub fn logs_since(&self, id: &str, cursor: usize) -> (r: (Vec<String>, usize))
        ensures
            match self.job(id@) {
                Some(e) => r.0@.map_values(|s: String| s@) == logs_after(log_view(e.state), cursor as nat)
                    && r.1 == e.state.logs.len(),
                None => r.0@.len() == 0 && r.1 == cursor,
            },
    {
        proof {
            lemma_index_of_range(self.entries@, id@);
        }
        match self.find(id) {
            Some(k) => self.entries[k].state.logs_since(cursor),
            None => (Vec::new(), cursor),
        }
    }
}

/// Replacing the entry at `k` by one with the same id keeps every lookup
/// of another id.
proof fn lemma_index_after_set<T>(before: Seq<JobEntry<T>>, k: int, after: Seq<JobEntry<T>>)
    requires
        0 <= k < before.len(),
        after.len() == before.len(),
        after[k].id@ == before[k].id@,
        forall|i: int| 0 <= i < before.len() && i != k ==> after[i] == before[i],
        index_of(before, before[k].id@) == k,
    ensures
        forall|id: Seq<char>| #[trigger] index_of(after, id) == index_of(before, id),
        forall|other: Seq<char>| other != before[k].id@ ==> #[trigger] lookup(after, other) == lookup(before, other),
{
    assert forall|id: Seq<char>| #[trigger] index_of(after, id) == index_of(before, id) by {
        lemma_index_same(before, after, k, id);
    }
    assert forall|other: Seq<char>| other != before[k].id@ implies #[trigger] lookup(after, other) == lookup(before, other) by {
        lemma_index_same(before, after, k, other);
        lemma_index_of_range(before, other);
    }
}

/// Appending an entry keeps every lookup of another id.
proof fn lemma_lookup_after_push<T>(before: Seq<JobEntry<T>>, e: JobEntry<T>)
    ensures
        forall|other: Seq<char>| other != e.id@ ==> #[trigger] lookup(before.push(e), other) == lookup(before, other),
        index_of(before.push(e), e.id@) == before.len(),
{
    assert forall|other: Seq<char>| other != e.id@ implies #[trigger] lookup(before.push(e), other) == lookup(before, other) by {
        assert(before.push(e).drop_last() =~= before);
        lemma_index_of_range(before, other);
    }
}

proof fn lemma_index_same<T>(before: Seq<JobEntry<T>>, after: Seq<JobEntry<T>>, k: int, id: Seq<char>)
    requires
        0 <= k < before.len(),
        after.len() == before.len(),
        after[k].id@ == before[k].id@,
        forall|i: int| 0 <= i < before.len() && i != k ==> after[i] == before[i],
    ensures
        index_of(after, id) == index_of(before, id),
    decreases before.len(),
{
    if before.len() > 0 {
        if k < before.len() - 1 {
            assert(after.last() == before.last());
            lemma_index_same(before.drop_last(), after.drop_last(), k, id);
        } else {
            assert(after.drop_last() =~= before.drop_last());
        }
    }
}


// ---------------------------------------------------------------------------
// Laws of the log
// ---------------------------------------------------------------------------

/// A reader whose cursor is at the end of the log sees, after an append,
/// exactly the lines that the append added.
pub proof fn law_read_after_append(logs: Seq<Seq<char>>, msg: Seq<char>)
    ensures
        logs_after(logs + log_lines(msg), logs.len()) == log_lines(msg),
{
    assert((logs + log_lines(msg)).skip(logs.len() as int) =~= log_lines(msg));
}

/// Reading from the cursor that a read returned gives nothing until more is
/// appended.
pub proof fn law_read_at_cursor_is_empty(logs: Seq<Seq<char>>)
    ensures
        logs_after(logs, logs.len()) == Seq::<Seq<char>>::empty(),
{
    assert(logs.skip(logs.len() as int) =~= Seq::<Seq<char>>::empty());
}

/// Reading from a cursor and then from the cursor returned gives, together,
/// everything from the first cursor on: no line is lost or repeated.
pub proof fn law_reads_concatenate(logs: Seq<Seq<char>>, more: Seq<Seq<char>>, cursor: nat)
    requires
        cursor <= logs.len(),
    ensures
        logs_after(logs, cursor) + logs_after(logs + more, logs.len()) == logs_after(logs + more, cursor),
{
    assert(logs_after(logs, cursor) + logs_after(logs + more, logs.len()) =~= logs_after(
        logs + more,
        cursor,
    ));
}

proof fn lemma_trim_end_idempotent(s: Seq<char>)
    ensures
        trim_end(trim_end(s)) == trim_end(s),
    decreases s.len(),
{
    if s.len() > 0 && crate::utils::text::is_ws(s.last()) {
        lemma_trim_end_idempotent(s.drop_last());
    }
}

proof fn lemma_trim_end_prefix(s: Seq<char>)
    ensures
        trim_end(s).len() <= s.len(),
        trim_end(s) == s.take(trim_end(s).len() as int),
    decreases s.len(),
{
    if s.len() > 0 && crate::utils::text::is_ws(s.last()) {
        lemma_trim_end_prefix(s.drop_last());
        assert(s.drop_last().take(trim_end(s).len() as int) =~= s.take(trim_end(s).len() as int));
    } else {
        assert(s.take(s.len() as int) =~= s);
    }
}

proof fn lemma_split_pieces_have_no_sep(s: Seq<char>, sep: char)
    ensures
        forall|i: int| 0 <= i < scan_split(s, sep).0.len() ==> !(#[trigger] scan_split(s, sep).0[i]).contains(sep),
        !scan_split(s, sep).1.contains(sep),
    decreases s.len(),
{
    if s.len() > 0 {
        lemma_split_pieces_have_no_sep(s.drop_last(), sep);
        let (done, cur) = scan_split(s.drop_last(), sep);
        if s.last() != sep {
            assert forall|c: int| 0 <= c < cur.push(s.last()).len() implies cur.push(s.last())[c] != sep by {
                if c < cur.len() {
                    assert(cur.push(s.last())[c] == cur[c]);
                }
            }
        }
    }
}

proof fn lemma_kept_lines_clean(pieces: Seq<Seq<char>>)
    requires
        forall|i: int| 0 <= i < pieces.len() ==> !(#[trigger] pieces[i]).contains('\n'),
    ensures
        forall|i: int| 0 <= i < kept_lines(pieces).len() ==> {
            let l = #[trigger] kept_lines(pieces)[i];
            l.len() > 0 && trim_end(l) == l && !l.contains('\n')
        },
    decreases pieces.len(),
{
    if pieces.len() > 0 {
        let rest = pieces.drop_last();
        assert forall|i: int| 0 <= i < rest.len() implies !(#[trigger] rest[i]).contains('\n') by {
            assert(rest[i] == pieces[i]);
        }
        lemma_kept_lines_clean(rest);
        let p = pieces.last();
        let t = trim_end(p);
        lemma_trim_end_idempotent(p);
        lemma_trim_end_prefix(p);
        assert(!p.contains('\n'));
        assert(!t.contains('\n')) by {
            if t.contains('\n') {
                let c = choose|c: int| 0 <= c < t.len() && t[c] == '\n';
                assert(p[c] == t[c]);
            }
        }
        let kr = kept_lines(rest);
        assert forall|i: int| 0 <= i < kept_lines(pieces).len() implies {
            let l = #[trigger] kept_lines(pieces)[i];
            l.len() > 0 && trim_end(l) == l && !l.contains('\n')
        } by {
            if i < kr.len() {
                assert(kept_lines(pieces)[i] == kr[i]);
            } else {
                assert(kept_lines(pieces)[i] == t);
            }
        }
    }
}

/// Every line a message adds to a log is non-empty, has no trailing
/// whitespace and no line break.
pub proof fn law_log_lines_are_clean(msg: Seq<char>)
    ensures
        forall|i: int| 0 <= i < log_lines(msg).len() ==> {
            let l = #[trigger] log_lines(msg)[i];
            l.len() > 0 && trim_end(l) == l && !l.contains('\n')
        },
{
    lemma_split_pieces_have_no_sep(msg, '\n');
    let pieces = split(msg, '\n');
    let (done, cur) = scan_split(msg, '\n');
    assert forall|i: int| 0 <= i < pieces.len() implies !(#[trigger] pieces[i]).contains('\n') by {
        if i < done.len() {
            assert(pieces[i] == done[i]);
        } else {
            assert(pieces[i] == cur);
        }
    }
    lemma_kept_lines_clean(pieces);
}

/// Progress consumer that ignores everything and is never cancelled.
#[derive(Debug, Clone, Copy)]
pub struct NoopSink;

impl NoopSink {
    /// Never cancelled.
    pub fn cancelled(&self) -> (r: bool)
        ensures
            !r,
    {
        false
    }
}


// ---------------------------------------------------------------------------
// History
// ---------------------------------------------------------------------------

/// Newest first by start time text: an entry stays before another unless
/// it started earlier.
pub open spec fn started_newest_first() -> spec_fn((Seq<char>, nat), (Seq<char>, nat)) -> bool {
    |a: (Seq<char>, nat), x: (Seq<char>, nat)| !seq_lt(a.0, x.0)
}

/// Each start time with its position.
pub open spec fn indexed(started: Seq<String>) -> Seq<(Seq<char>, nat)> {
    Seq::new(started.len(), |i: int| (started[i]@, i as nat))
}

/// The entries that positions name, as start time and position.
pub open spec fn entries_at(started: Seq<String>, order: Seq<usize>) -> Seq<(Seq<char>, nat)> {
    order.map_values(|i: usize| (started[i as int]@, i as nat))
}

/// Order of the run history: positions of the runs, newest start first
/// (runs started at the same time keep their order), at most `limit`.
pub fn history_order(started: &Vec<String>, limit: usize) -> (r: Vec<usize>)
    ensures
        ({
            let sorted = insertion_sort(indexed(started@), started_newest_first());
            &&& forall|k: int| 0 <= k < r.len() ==> r@[k] < started.len()
            &&& entries_at(started@, r@) == sorted.take(
                if limit < sorted.len() { limit as int } else { sorted.len() as int },
            )
        }),
{
    let ghost all = indexed(started@);
    let mut out: Vec<usize> = Vec::new();
    let mut k: usize = 0;
    proof {
        assert(entries_at(started@, out@) =~= insertion_sort(all.take(0), started_newest_first()));
    }
    while k < started.len()
        invariant
            k <= started.len(),
            all == indexed(started@),
            out.len() == k,
            forall|j: int| 0 <= j < out.len() ==> out@[j] < started.len(),
            entries_at(started@, out@) == insertion_sort(all.take(k as int), started_newest_first()),
        decreases started.len() - k,
    {
        let ghost ov = entries_at(started@, out@);
        let ghost x = (started@[k as int]@, k as nat);
        proof {
            assert(all.take(k as int + 1).drop_last() =~= all.take(k as int));
            assert(all.take(k as int + 1).last() == x);
        }
        let mut p: usize = 0;
        while p < out.len() && !str_lt(started[out[p]].as_str(), started[k].as_str())
            invariant
                p <= out.len(),
                k < started.len(),
                ov == entries_at(started@, out@),
                x == (started@[k as int]@, k as nat),
                forall|j: int| 0 <= j < out.len() ==> out@[j] < started.len(),
                forall|j: int| 0 <= j < p ==> (started_newest_first())(#[trigger] ov[j], x),
            decreases out.len() - p,
        {
            p = p + 1;
        }
        proof {
            lemma_insert_sorted_at(ov, x, started_newest_first(), p as int);
            lemma_insertion_sort_len(all.take(k as int), started_newest_first());
        }
        out.insert(p, k);
        proof {
            assert(entries_at(started@, out@) =~= ov.take(p as int) + seq![x] + ov.skip(p as int));
        }
        k = k + 1;
    }
    proof {
        assert(all.take(started.len() as int) =~= all);
        lemma_insertion_sort_len(all, started_newest_first());
    }
    if limit < out.len() {
        out.truncate(limit);
    }
    proof {
        let sorted = insertion_sort(all, started_newest_first());
        assert(entries_at(started@, out@) =~= sorted.take(
            if limit < sorted.len() { limit as int } else { sorted.len() as int },
        ));
    }
    out
}

} // verus!
