//! Searching a process snapshot and the `ProcessFilter` builder: which
//! records a filter accepts and in which order it returns them.
use vstd::prelude::*;
use crate::processes::info::{ProcessInfo, ProcessPriority};
use crate::text::{lowered_contains, to_lowercase};
use crate::time::Duration;

verus! {

broadcast use vstd::seq_lib::group_seq_properties;

// ─── Searching a snapshot ────────────────────────────────────────────────────

/// The record has the given PID.
pub open spec fn has_pid(pid: u32) -> spec_fn(ProcessInfo) -> bool {
    |p: ProcessInfo| p.pid == pid
}

/// The record's name contains `lowered_name` case-insensitively.
pub open spec fn name_matches(lowered_name: Seq<char>) -> spec_fn(ProcessInfo) -> bool {
    |p: ProcessInfo| crate::text::contains_lowered(p.name@, lowered_name)
}

/// The first element of `s`, if any.
pub open spec fn first_of<A>(s: Seq<A>) -> Option<A> {
    if s.len() == 0 {
        None
    } else {
        Some(s[0])
    }
}

/// What a search finds is a record of the snapshot that satisfies the search.
pub proof fn lemma_found_satisfies(s: Seq<ProcessInfo>, pred: spec_fn(ProcessInfo) -> bool)
    ensures
        first_of(s.filter(pred)) matches Some(x) ==> pred(x) && s.contains(x),
{
    if s.filter(pred).len() > 0 {
        let x = s.filter(pred)[0];
        s.lemma_filter_pred(pred, 0);
        assert(s.filter(pred).contains(x));
        s.lemma_filter_contains_rev(pred, x);
    }
}

/// A search finds nothing only when no record of the snapshot satisfies it.
pub proof fn lemma_nothing_found_means_none(s: Seq<ProcessInfo>, pred: spec_fn(ProcessInfo) -> bool)
    ensures
        first_of(s.filter(pred)) is None ==> forall|i: int| 0 <= i < s.len() ==> !pred(#[trigger] s[i]),
{
    assert forall|i: int| 0 <= i < s.len() && first_of(s.filter(pred)) is None implies !pred(
        #[trigger] s[i],
    ) by {
        if pred(s[i]) {
            s.lemma_filter_contains(pred, i);
        }
    }
}

/// Searching by PID finds a record of the snapshot with that PID, and finds
/// nothing only when no record has it.
pub proof fn lemma_pid_search(s: Seq<ProcessInfo>, pid: u32)
    ensures
        first_of(s.filter(has_pid(pid))) matches Some(x) ==> x.pid == pid && s.contains(x),
        first_of(s.filter(has_pid(pid))) is None ==> forall|i: int| 0 <= i < s.len() ==> #[trigger] s[i].pid
            != pid,
{
    lemma_found_satisfies(s, has_pid(pid));
    lemma_nothing_found_means_none(s, has_pid(pid));
}

/// Searching by name finds a record of the snapshot whose name contains the
/// lower-cased text, ignoring case, and finds nothing only when no record's
/// name does.
pub proof fn lemma_name_search(s: Seq<ProcessInfo>, lowered: Seq<char>)
    ensures
        first_of(s.filter(name_matches(lowered))) matches Some(x) ==> crate::text::contains_lowered(
            x.name@,
            lowered,
        ) && s.contains(x),
        first_of(s.filter(name_matches(lowered))) is None ==> forall|i: int|
            0 <= i < s.len() ==> !crate::text::contains_lowered(#[trigger] s[i].name@, lowered),
{
    lemma_found_satisfies(s, name_matches(lowered));
    lemma_nothing_found_means_none(s, name_matches(lowered));
}

/// The first record of the snapshot with the given PID.
pub fn process_by_pid(processes: Vec<ProcessInfo>, pid: u32) -> (r: Option<ProcessInfo>)
    ensures
        r == first_of(processes@.filter(has_pid(pid))),
{
    let ghost orig = processes@;
    let mut rest = processes;
    let mut i: usize = 0;
    let n = rest.len();
    while i < n
        invariant
            n == orig.len(),
            i <= n,
            orig == processes@,
            rest@ == orig.subrange(i as int, n as int),
            orig.take(i as int).filter(has_pid(pid)).len() == 0,
        decreases n - i,
    {
        let p = rest.remove(0);
        proof {
            assert(orig.take(i + 1) == orig.take(i as int).push(orig[i as int]));
            orig.take(i as int).lemma_filter_push(orig[i as int], has_pid(pid));
        }
        if p.pid == pid {
            proof {
                assert(orig.take(i as int).filter(has_pid(pid)) =~= Seq::<ProcessInfo>::empty());
                assert(orig.take(i + 1).filter(has_pid(pid)) =~= seq![p]);
                lemma_filter_of_prefix(orig, (i + 1) as int, has_pid(pid));
                let ghost tail = orig.skip(i + 1).filter(has_pid(pid));
                assert(orig.filter(has_pid(pid)) == seq![p] + tail);
                assert((seq![p] + tail)[0] == p);
                assert(first_of(orig.filter(has_pid(pid))) == Some(p));
            }
            return Some(p);
        }
        i = i + 1;
    }
    proof {
        assert(orig.take(n as int) == orig);
    }
    None
}

/// `orig.filter(pred)` starts with `orig.take(i).filter(pred)`.
pub proof fn lemma_filter_of_prefix<A>(orig: Seq<A>, i: int, pred: spec_fn(A) -> bool)
    requires
        0 <= i <= orig.len(),
    ensures
        orig.filter(pred) == orig.take(i).filter(pred) + orig.skip(i).filter(pred),
{
    assert(orig == orig.take(i) + orig.skip(i));
    Seq::filter_distributes_over_add(orig.take(i), orig.skip(i), pred);
}

/// All records of the snapshot whose name contains `name`, case-insensitively,
/// in snapshot order.
pub fn processes_by_name(processes: Vec<ProcessInfo>, name: &str) -> (r: Vec<ProcessInfo>)
    ensures
        r@ == processes@.filter(name_matches(crate::text::lowercase(name@))),
        name@.len() == 0 ==> r@ == processes@,
{
    let lowered = to_lowercase(name);
    proof {
        if name@.len() == 0 {
            lemma_empty_name_matches_all(processes@);
        }
    }
    let ghost pred = name_matches(lowered@);
    let ghost orig = processes@;
    let mut rest = processes;
    let mut out: Vec<ProcessInfo> = Vec::new();
    let mut i: usize = 0;
    let n = rest.len();
    while i < n
        invariant
            n == orig.len(),
            i <= n,
            rest@ == orig.subrange(i as int, n as int),
            out@ == orig.take(i as int).filter(pred),
            pred == name_matches(lowered@),
        decreases n - i,
    {
        let p = rest.remove(0);
        proof {
            assert(orig.take(i + 1) == orig.take(i as int).push(orig[i as int]));
            orig.take(i as int).lemma_filter_push(orig[i as int], pred);
        }
        if lowered_contains(p.name.as_str(), lowered.as_str()) {
            out.push(p);
        }
        i = i + 1;
    }
    proof {
        assert(orig.take(n as int) == orig);
    }
    out
}

/// Every name contains the empty name: searching for it finds every record.
pub proof fn lemma_empty_name_matches_all(processes: Seq<ProcessInfo>)
    ensures
        processes.filter(name_matches(Seq::<char>::empty())) == processes,
{
    assert forall|j: int| 0 <= j < processes.len() implies #[trigger] name_matches(
        Seq::<char>::empty(),
    )(processes[j]) by {
        crate::text::lemma_empty_occurs_in(crate::text::lowercase(processes[j].name@));
    }
    lemma_filter_all(processes, name_matches(Seq::<char>::empty()));
}

/// Filtering a sequence all of whose elements satisfy the predicate gives
/// the sequence itself.
pub proof fn lemma_filter_all<A>(s: Seq<A>, pred: spec_fn(A) -> bool)
    requires
        forall|j: int| 0 <= j < s.len() ==> #[trigger] pred(s[j]),
    ensures
        s.filter(pred) == s,
    decreases s.len(),
{
    reveal(Seq::filter);
    if s.len() > 0 {
        lemma_filter_all(s.drop_last(), pred);
        assert(pred(s[s.len() - 1]));
        assert(s.drop_last().push(s.last()) =~= s);
    }
}

/// The first record of the snapshot whose name contains `name`,
/// case-insensitively.
pub fn process_by_name(processes: Vec<ProcessInfo>, name: &str) -> (r: Option<ProcessInfo>)
    ensures
        r == first_of(processes@.filter(name_matches(crate::text::lowercase(name@)))),
{
    let mut found = processes_by_name(processes, name);
    if found.len() == 0 {
        None
    } else {
        Some(found.remove(0))
    }
}

// ─── Sort order ──────────────────────────────────────────────────────────────

/// How `ProcessFilter` orders its results.
#[derive(Debug, Clone, Copy, PartialEq, Eq, Structural)]
pub enum SortOrder {
    /// Keep snapshot order (default).
    Unsorted,
    /// Sort ascending by PID.
    Pid,
    /// Sort descending by working-set memory.
    MemoryDesc,
    /// Sort descending by total CPU time.
    CpuDesc,
}

impl Default for SortOrder {
    fn default() -> (s: Self)
        ensures
            s == SortOrder::Unsorted,
    {
        SortOrder::Unsorted
    }
}

/// The key by which a sort order arranges records, ascending: the PID, or
/// the negated memory or CPU time (missing values count as zero), or one
/// key for all when the order keeps the snapshot order.
pub open spec fn sort_key(order: SortOrder, p: ProcessInfo) -> int {
    match order {
        SortOrder::Unsorted => 0,
        SortOrder::Pid => p.pid as int,
        SortOrder::MemoryDesc => -(match p.memory_usage {
            Some(m) => m as int,
            None => 0,
        }),
        SortOrder::CpuDesc => -(match crate::processes::info::total_cpu_nanos(p) {
            Some(t) => t as int,
            None => 0,
        }),
    }
}

/// The records whose sort key is `k`.
pub open spec fn key_class(order: SortOrder, k: int) -> spec_fn(ProcessInfo) -> bool {
    |p: ProcessInfo| sort_key(order, p) == k
}

/// `s` is arranged by ascending sort key.
pub open spec fn sorted_by(order: SortOrder, s: Seq<ProcessInfo>) -> bool {
    forall|i: int, j: int| 0 <= i < j < s.len() ==> sort_key(order, s[i]) <= sort_key(order, s[j])
}

/// `out` is the stable sort of `input`: arranged by key, and records with
/// equal keys keep their relative order.
pub open spec fn stably_sorted(order: SortOrder, input: Seq<ProcessInfo>, out: Seq<ProcessInfo>) -> bool {
    &&& sorted_by(order, out)
    &&& forall|k: int| #[trigger] out.filter(key_class(order, k)) == input.filter(key_class(order, k))
}

// ─── ProcessFilter ───────────────────────────────────────────────────────────

/// What a process filter holds: each criterion, when set, and the order.
pub struct ProcessFilterView {
    pub name_contains: Option<Seq<char>>,
    pub min_memory_bytes: Option<u64>,
    pub max_memory_bytes: Option<u64>,
    pub min_threads: Option<u32>,
    pub parent_pid: Option<u32>,
    pub priority: Option<ProcessPriority>,
    pub min_cpu_time: Option<nat>,
    pub max_cpu_time: Option<nat>,
    pub sort: SortOrder,
}

/// The filter with no criterion and snapshot order.
pub open spec fn empty_filter() -> ProcessFilterView {
    ProcessFilterView {
        name_contains: None,
        min_memory_bytes: None,
        max_memory_bytes: None,
        min_threads: None,
        parent_pid: None,
        priority: None,
        min_cpu_time: None,
        max_cpu_time: None,
        sort: SortOrder::Unsorted,
    }
}

/// A record satisfies every criterion that the filter sets. A criterion on
/// a value that the record lacks rejects it, except the maxima on memory
/// and CPU time, which treat a missing value as passing.
pub open spec fn accepts(f: ProcessFilterView, p: ProcessInfo) -> bool {
    &&& (f.name_contains matches Some(n) ==> crate::text::contains_lowered(p.name@, n))
    &&& (f.min_memory_bytes matches Some(m) ==> (p.memory_usage matches Some(u) && u >= m))
    &&& (f.max_memory_bytes matches Some(m) ==> !(p.memory_usage matches Some(u) && u > m))
    &&& (f.min_threads matches Some(t) ==> (p.thread_count matches Some(c) && c >= t))
    &&& (f.parent_pid matches Some(pp) ==> p.parent_pid == Some(pp))
    &&& (f.priority matches Some(pr) ==> p.priority_class == Some(pr))
    &&& (f.min_cpu_time matches Some(m) ==> (crate::processes::info::total_cpu_nanos(p) matches Some(
        t,
    ) && t >= m))
    &&& (f.max_cpu_time matches Some(m) ==> !(crate::processes::info::total_cpu_nanos(p) matches Some(
        t,
    ) && t > m))
}

/// The records the filter accepts.
pub open spec fn accepted_by(f: ProcessFilterView) -> spec_fn(ProcessInfo) -> bool {
    |p: ProcessInfo| accepts(f, p)
}

/// The record satisfies the criteria checked before the CPU-time ones: name,
/// memory, threads, parent and priority.
pub open spec fn accepts_before_cpu(f: ProcessFilterView, p: ProcessInfo) -> bool {
    &&& (f.name_contains matches Some(n) ==> crate::text::contains_lowered(p.name@, n))
    &&& (f.min_memory_bytes matches Some(m) ==> (p.memory_usage matches Some(u) && u >= m))
    &&& (f.max_memory_bytes matches Some(m) ==> !(p.memory_usage matches Some(u) && u > m))
    &&& (f.min_threads matches Some(t) ==> (p.thread_count matches Some(c) && c >= t))
    &&& (f.parent_pid matches Some(pp) ==> p.parent_pid == Some(pp))
    &&& (f.priority matches Some(pr) ==> p.priority_class == Some(pr))
}

/// Evaluating the filter on the record reads its total CPU time only where it
/// can be computed: a CPU-time criterion reached after the other criteria
/// accepted the record, or the CPU order on an accepted record, needs the two
/// times to add up without overflow.
pub open spec fn cpu_time_readable(f: ProcessFilterView, p: ProcessInfo) -> bool {
    &&& ((f.min_cpu_time is Some || f.max_cpu_time is Some) && accepts_before_cpu(f, p))
        ==> crate::processes::info::cpu_time_fits(p)
    &&& (f.sort == SortOrder::CpuDesc && accepts(f, p)) ==> crate::processes::info::cpu_time_fits(p)
}

/// Builder for filtering processes with multiple criteria.
#[derive(Debug, Clone)]
pub struct ProcessFilter {
    name_contains: Option<String>,
    min_memory_bytes: Option<u64>,
    max_memory_bytes: Option<u64>,
    min_threads: Option<u32>,
    parent_pid: Option<u32>,
    priority: Option<ProcessPriority>,
    min_cpu_time: Option<Duration>,
    max_cpu_time: Option<Duration>,
    sort: SortOrder,
}

impl View for ProcessFilter {
    type V = ProcessFilterView;

    closed spec fn view(&self) -> ProcessFilterView {
        ProcessFilterView {
            name_contains: match self.name_contains {
                Some(s) => Some(s@),
                None => None,
            },
            min_memory_bytes: self.min_memory_bytes,
            max_memory_bytes: self.max_memory_bytes,
            min_threads: self.min_threads,
            parent_pid: self.parent_pid,
            priority: self.priority,
            min_cpu_time: match self.min_cpu_time {
                Some(d) => Some(d@),
                None => None,
            },
            max_cpu_time: match self.max_cpu_time {
                Some(d) => Some(d@),
                None => None,
            },
            sort: self.sort,
        }
    }
}

impl Default for ProcessFilter {
    fn default() -> (f: Self)
        ensures
            f@ == empty_filter(),
    {
        ProcessFilter::new()
    }
}

impl ProcessFilter {
    /// Create a new, empty process filter.
    pub fn new() -> (f: Self)
        ensures
            f@ == empty_filter(),
    {
        ProcessFilter {
            name_contains: None,
            min_memory_bytes: None,
            max_memory_bytes: None,
            min_threads: None,
            parent_pid: None,
            priority: None,
            min_cpu_time: None,
            max_cpu_time: None,
            sort: SortOrder::Unsorted,
        }
    }

    /// Filter by name substring (case-insensitive).
    pub fn name_contains(self, name: &str) -> (f: Self)
        ensures
            f@ == (ProcessFilterView { name_contains: Some(crate::text::lowercase(name@)), ..self@ }),
    {
        ProcessFilter { name_contains: Some(to_lowercase(name)), ..self }
    }

    /// Filter by minimum memory usage in bytes.
    pub fn min_memory(self, bytes: u64) -> (f: Self)
        ensures
            f@ == (ProcessFilterView { min_memory_bytes: Some(bytes), ..self@ }),
    {
        ProcessFilter { min_memory_bytes: Some(bytes), ..self }
    }

    /// Filter by maximum memory usage in bytes.
    pub fn max_memory(self, bytes: u64) -> (f: Self)
        ensures
            f@ == (ProcessFilterView { max_memory_bytes: Some(bytes), ..self@ }),
    {
        ProcessFilter { max_memory_bytes: Some(bytes), ..self }
    }

    /// Filter by minimum thread count.
    pub fn min_threads(self, count: u32) -> (f: Self)
        ensures
            f@ == (ProcessFilterView { min_threads: Some(count), ..self@ }),
    {
        ProcessFilter { min_threads: Some(count), ..self }
    }

    /// Filter by parent process ID.
    pub fn parent_pid(self, pid: u32) -> (f: Self)
        ensures
            f@ == (ProcessFilterView { parent_pid: Some(pid), ..self@ }),
    {
        ProcessFilter { parent_pid: Some(pid), ..self }
    }

    /// Filter by exact priority class; records without a priority class are
    /// excluded while this criterion is set.
    pub fn priority(self, p: ProcessPriority) -> (f: Self)
        ensures
            f@ == (ProcessFilterView { priority: Some(p), ..self@ }),
    {
        ProcessFilter { priority: Some(p), ..self }
    }

    /// Only include processes whose total CPU time is at least `d`; records
    /// without CPU time are excluded while this criterion is set.
    pub fn min_cpu_time(self, d: Duration) -> (f: Self)
        ensures
            f@ == (ProcessFilterView { min_cpu_time: Some(d@), ..self@ }),
    {
        ProcessFilter { min_cpu_time: Some(d), ..self }
    }

    /// Only include processes whose total CPU time is at most `d`; records
    /// without CPU time are included (treated as zero).
    pub fn max_cpu_time(self, d: Duration) -> (f: Self)
        ensures
            f@ == (ProcessFilterView { max_cpu_time: Some(d@), ..self@ }),
    {
        ProcessFilter { max_cpu_time: Some(d), ..self }
    }

    /// Sort results ascending by PID.
    pub fn sort_by_pid(self) -> (f: Self)
        ensures
            f@ == (ProcessFilterView { sort: SortOrder::Pid, ..self@ }),
    {
        ProcessFilter { sort: SortOrder::Pid, ..self }
    }

    /// Sort results descending by working-set memory (largest first).
    pub fn sort_by_memory(self) -> (f: Self)
        ensures
            f@ == (ProcessFilterView { sort: SortOrder::MemoryDesc, ..self@ }),
    {
        ProcessFilter { sort: SortOrder::MemoryDesc, ..self }
    }

    /// Sort results descending by total CPU time (highest first).
    pub fn sort_by_cpu(self) -> (f: Self)
        ensures
            f@ == (ProcessFilterView { sort: SortOrder::CpuDesc, ..self@ }),
    {
        ProcessFilter { sort: SortOrder::CpuDesc, ..self }
    }

    /// The order the filter arranges its results in.
    pub fn sort_order(&self) -> (s: SortOrder)
        ensures
            s == self@.sort,
    {
        self.sort
    }

    /// Whether `process` satisfies the criteria checked before the CPU-time
    /// ones.
    fn passes_before_cpu(&self, process: &ProcessInfo) -> (b: bool)
        ensures
            b == accepts_before_cpu(self@, *process),
    {
        if let Some(name) = &self.name_contains {
            if !lowered_contains(process.name.as_str(), name.as_str()) {
                return false;
            }
        }
        if let Some(min_mem) = self.min_memory_bytes {
            match process.memory_usage {
                Some(m) => {
                    if m < min_mem {
                        return false;
                    }
                },
                None => {
                    return false;
                },
            }
        }
        if let Some(max_mem) = self.max_memory_bytes {
            if let Some(m) = process.memory_usage {
                if m > max_mem {
                    return false;
                }
            }
        }
        if let Some(min_threads) = self.min_threads {
            match process.thread_count {
                Some(t) => {
                    if t < min_threads {
                        return false;
                    }
                },
                None => {
                    return false;
                },
            }
        }
        if let Some(parent) = self.parent_pid {
            match process.parent_pid {
                Some(pp) => {
                    if pp != parent {
                        return false;
                    }
                },
                None => {
                    return false;
                },
            }
        }
        if let Some(priority) = self.priority {
            match process.priority_class {
                Some(pc) => {
                    if pc != priority {
                        return false;
                    }
                },
                None => {
                    return false;
                },
            }
        }
        true
    }

    /// Returns `true` when `process` satisfies all active criteria.
    pub fn matches(&self, process: &ProcessInfo) -> (b: bool)
        requires
            ((self@.min_cpu_time is Some || self@.max_cpu_time is Some) && accepts_before_cpu(
                self@,
                *process,
            )) ==> crate::processes::info::cpu_time_fits(*process),
        ensures
            b == accepts(self@, *process),
    {
        if !self.passes_before_cpu(process) {
            return false;
        }
        if let Some(min_cpu) = self.min_cpu_time {
            match process.total_cpu_time() {
                Some(t) => {
                    if t.is_shorter_than(&min_cpu) {
                        return false;
                    }
                },
                None => {
                    return false;
                },
            }
        }
        if let Some(max_cpu) = self.max_cpu_time {
            if let Some(t) = process.total_cpu_time() {
                if max_cpu.is_shorter_than(&t) {
                    return false;
                }
            }
        }
        true
    }

    /// Whether evaluating the filter on `process` can read its total CPU time
    /// wherever it needs it (the condition `apply` places on each record).
    pub fn can_read_cpu_time(&self, process: &ProcessInfo) -> (b: bool)
        ensures
            b == cpu_time_readable(self@, *process),
    {
        if process.cpu_time_fits() {
            return true;
        }
        let cpu_criterion = self.min_cpu_time.is_some() || self.max_cpu_time.is_some();
        if cpu_criterion && self.passes_before_cpu(process) {
            return false;
        }
        if self.sort == SortOrder::CpuDesc {
            return !self.matches(process);
        }
        true
    }

    /// Whether `a` belongs no later than `b` in the filter's order.
    fn key_le(&self, a: &ProcessInfo, b: &ProcessInfo) -> (r: bool)
        requires
            self@.sort == SortOrder::CpuDesc ==> crate::processes::info::cpu_time_fits(*a)
                && crate::processes::info::cpu_time_fits(*b),
        ensures
            r == (sort_key(self@.sort, *a) <= sort_key(self@.sort, *b)),
    {
        match self.sort {
            SortOrder::Unsorted => true,
            SortOrder::Pid => a.pid <= b.pid,
            SortOrder::MemoryDesc => {
                let ma = match a.memory_usage {
                    Some(m) => m,
                    None => 0,
                };
                let mb = match b.memory_usage {
                    Some(m) => m,
                    None => 0,
                };
                mb <= ma
            },
            SortOrder::CpuDesc => {
                let ca = a.total_cpu_nanos_or_zero();
                let cb = b.total_cpu_nanos_or_zero();
                cb <= ca
            },
        }
    }

    /// The records of the snapshot that the filter accepts, arranged by its
    /// order: a stable sort, so records with equal keys keep snapshot order.
    pub fn apply(&self, processes: Vec<ProcessInfo>) -> (r: Vec<ProcessInfo>)
        requires
            forall|i: int|
                0 <= i < processes@.len() ==> #[trigger] cpu_time_readable(self@, processes@[i]),
        ensures
            stably_sorted(self@.sort, processes@.filter(accepted_by(self@)), r@),
            r@.to_multiset() == processes@.filter(accepted_by(self@)).to_multiset(),
            r@.len() == processes@.filter(accepted_by(self@)).len(),
            forall|j: int| 0 <= j < r@.len() ==> accepts(self@, #[trigger] r@[j]),
    {
        let ghost orig = processes@;
        let ghost order = self@.sort;
        let ghost acc = accepted_by(self@);
        let mut rest = processes;
        let mut out: Vec<ProcessInfo> = Vec::new();
        let mut i: usize = 0;
        let n = rest.len();
        proof {
            reveal(Seq::filter);
            assert(orig.take(0) =~= Seq::<ProcessInfo>::empty());
            assert(orig.take(0).filter(acc) =~= Seq::<ProcessInfo>::empty());
            assert(out@ =~= Seq::<ProcessInfo>::empty());
        }
        while i < n
            invariant
                n == orig.len(),
                i <= n,
                rest@ == orig.subrange(i as int, n as int),
                order == self@.sort,
                acc == accepted_by(self@),
                forall|j: int| 0 <= j < orig.len() ==> #[trigger] cpu_time_readable(self@, orig[j]),
                forall|j: int|
                    0 <= j < out@.len() ==> accepts(self@, #[trigger] out@[j]) && (order
                        == SortOrder::CpuDesc ==> crate::processes::info::cpu_time_fits(out@[j])),
                stably_sorted(order, orig.take(i as int).filter(acc), out@),
                out@.len() == orig.take(i as int).filter(acc).len(),
            decreases n - i,
        {
            let p = rest.remove(0);
            assert(p == orig[i as int]);
            assert(cpu_time_readable(self@, orig[i as int]));
            proof {
                assert(orig.take(i + 1) == orig.take(i as int).push(orig[i as int]));
                orig.take(i as int).lemma_filter_push(orig[i as int], acc);
            }
            if self.matches(&p) {
                let mut pos: usize = 0;
                while pos < out.len() && self.key_le(&out[pos], &p)
                    invariant
                        pos <= out@.len(),
                        order == self@.sort,
                        sorted_by(order, out@),
                        accepts(self@, p),
                        order == SortOrder::CpuDesc ==> crate::processes::info::cpu_time_fits(p),
                        forall|j: int|
                            0 <= j < out@.len() ==> (order == SortOrder::CpuDesc
                                ==> crate::processes::info::cpu_time_fits(#[trigger] out@[j])),
                        forall|j: int|
                            0 <= j < pos ==> sort_key(order, #[trigger] out@[j]) <= sort_key(order, p),
                    decreases out@.len() - pos,
                {
                    pos = pos + 1;
                }
                let ghost before = out@;
                let ghost prefix = orig.take(i as int).filter(acc);
                proof {
                    assert forall|j: int| pos <= j < before.len() implies sort_key(
                        order,
                        #[trigger] before[j],
                    ) > sort_key(order, p) by {
                        if pos < before.len() {
                            assert(sort_key(order, before[pos as int]) > sort_key(order, p));
                            assert(sort_key(order, before[pos as int]) <= sort_key(order, before[j]));
                        }
                    }
                    lemma_insert_sorted(order, before, pos as int, p);
                    assert forall|k: int| #[trigger] before.insert(pos as int, p).filter(key_class(order, k))
                        == prefix.push(p).filter(key_class(order, k)) by {
                        lemma_insert_key_class(order, before, pos as int, p, k);
                        prefix.lemma_filter_push(p, key_class(order, k));
                        assert(before.filter(key_class(order, k)) == prefix.filter(key_class(order, k)));
                    }
                }
                out.insert(pos, p);
                proof {
                    assert(out@ == before.insert(pos as int, p));
                    assert forall|j: int| 0 <= j < out@.len() implies accepts(self@, #[trigger] out@[j])
                        && (order == SortOrder::CpuDesc ==> crate::processes::info::cpu_time_fits(out@[j])) by {
                        if j < pos {
                            assert(out@[j] == before[j]);
                        } else if j > pos {
                            assert(out@[j] == before[j - 1]);
                        }
                    }
                }
            }
            i = i + 1;
        }
        proof {
            assert(orig.take(n as int) == orig);
            lemma_stable_sort_permutes(order, orig.filter(acc), out@);
        }
        out
    }
}

// ─── Laws of the process filter ──────────────────────────────────────────────

/// The total CPU time of a record as the CPU-time criteria read it: user plus
/// kernel time when both are known, whichever one is known otherwise, and
/// nothing when neither is.
pub open spec fn known_cpu_total(p: ProcessInfo) -> Option<nat> {
    match p.user_cpu_time {
        Some(u) => match p.kernel_cpu_time {
            Some(k) => Some(u@ + k@),
            None => Some(u@),
        },
        None => match p.kernel_cpu_time {
            Some(k) => Some(k@),
            None => None,
        },
    }
}

/// The total CPU time of a record is user plus kernel time when both are
/// known, whichever is known otherwise, and unknown when neither is.
pub proof fn lemma_total_cpu_is_user_plus_kernel(p: ProcessInfo)
    ensures
        crate::processes::info::total_cpu_nanos(p) == known_cpu_total(p),
        p.user_cpu_time matches Some(u) ==> (p.kernel_cpu_time matches Some(k)
            ==> crate::processes::info::total_cpu_nanos(p) == Some(u@ + k@)),
        p.user_cpu_time is None && p.kernel_cpu_time is None ==> crate::processes::info::total_cpu_nanos(
            p,
        ) is None,
{
}

/// A minimum CPU time admits a record only when its total CPU time (user
/// plus kernel) is known and at least the minimum; as the filter's only
/// criterion it admits exactly those records.
pub proof fn lemma_min_cpu_time_reads_the_total(f: ProcessFilterView, p: ProcessInfo, m: nat)
    requires
        f.min_cpu_time == Some(m),
    ensures
        accepts(f, p) ==> (known_cpu_total(p) matches Some(t) && t >= m),
        accepts(ProcessFilterView { min_cpu_time: Some(m), ..empty_filter() }, p) <==> (known_cpu_total(
            p,
        ) matches Some(t) && t >= m),
{
}

/// A maximum CPU time rejects a record exactly when its total CPU time (user
/// plus kernel) is known and above the maximum.
pub proof fn lemma_max_cpu_time_reads_the_total(f: ProcessFilterView, p: ProcessInfo, m: nat)
    requires
        f.max_cpu_time == Some(m),
    ensures
        (known_cpu_total(p) matches Some(t) && t > m) ==> !accepts(f, p),
        accepts(ProcessFilterView { max_cpu_time: Some(m), ..empty_filter() }, p) <==> !(known_cpu_total(
            p,
        ) matches Some(t) && t > m),
{
}

/// A minimum memory admits a record only when its working set is known and
/// at least the minimum; a maximum rejects it exactly when the working set
/// is known and above the maximum.
pub proof fn lemma_memory_bounds(f: ProcessFilterView, p: ProcessInfo, lo: u64, hi: u64)
    ensures
        accepts(f, p) ==> (f.min_memory_bytes matches Some(m) ==> (p.memory_usage matches Some(u)
            && u >= m)),
        accepts(f, p) ==> (f.max_memory_bytes matches Some(m) ==> !(p.memory_usage matches Some(u)
            && u > m)),
        accepts(ProcessFilterView { min_memory_bytes: Some(lo), ..empty_filter() }, p) <==> (
        p.memory_usage matches Some(u) && u >= lo),
        accepts(ProcessFilterView { max_memory_bytes: Some(hi), ..empty_filter() }, p) <==> !(
        p.memory_usage matches Some(u) && u > hi),
{
}

/// A minimum thread count admits a record only when its thread count is
/// known and at least the minimum; a parent or a priority admits it only
/// when the record's own is known and equal.
pub proof fn lemma_threads_parent_priority(
    f: ProcessFilterView,
    p: ProcessInfo,
    t: u32,
    pp: u32,
    pr: ProcessPriority,
)
    ensures
        accepts(f, p) ==> (f.min_threads matches Some(least) ==> (p.thread_count matches Some(c) && c
            >= least)),
        accepts(f, p) ==> (f.parent_pid matches Some(parent) ==> p.parent_pid == Some(parent)),
        accepts(f, p) ==> (f.priority matches Some(class) ==> p.priority_class == Some(class)),
        accepts(ProcessFilterView { min_threads: Some(t), ..empty_filter() }, p) <==> (
        p.thread_count matches Some(c) && c >= t),
        accepts(ProcessFilterView { parent_pid: Some(pp), ..empty_filter() }, p) <==> p.parent_pid
            == Some(pp),
        accepts(ProcessFilterView { priority: Some(pr), ..empty_filter() }, p) <==> p.priority_class
            == Some(pr),
{
}

/// A name criterion admits a record only when its name contains the
/// (lower-cased) text, ignoring case.
pub proof fn lemma_name_criterion(f: ProcessFilterView, p: ProcessInfo, n: Seq<char>)
    ensures
        accepts(f, p) ==> (f.name_contains matches Some(text) ==> crate::text::contains_lowered(
            p.name@,
            text,
        )),
        accepts(ProcessFilterView { name_contains: Some(n), ..empty_filter() }, p)
            <==> crate::text::contains_lowered(p.name@, n),
{
}

/// A record that every criterion the filter sets admits is accepted: the
/// filter asks nothing beyond its criteria.
pub proof fn lemma_criteria_suffice(f: ProcessFilterView, p: ProcessInfo)
    requires
        f.name_contains matches Some(n) ==> crate::text::contains_lowered(p.name@, n),
        f.min_memory_bytes matches Some(m) ==> (p.memory_usage matches Some(u) && u >= m),
        f.max_memory_bytes matches Some(m) ==> !(p.memory_usage matches Some(u) && u > m),
        f.min_threads matches Some(t) ==> (p.thread_count matches Some(c) && c >= t),
        f.parent_pid matches Some(pp) ==> p.parent_pid == Some(pp),
        f.priority matches Some(pr) ==> p.priority_class == Some(pr),
        f.min_cpu_time matches Some(m) ==> (known_cpu_total(p) matches Some(t) && t >= m),
        f.max_cpu_time matches Some(m) ==> !(known_cpu_total(p) matches Some(t) && t > m),
    ensures
        accepts(f, p),
{
}

/// A new filter accepts every record.
pub proof fn lemma_new_filter_accepts_all(p: ProcessInfo)
    ensures
        accepts(empty_filter(), p),
{
}

/// With the snapshot order, the records come back exactly as the snapshot
/// holds them, the rejected ones left out.
pub proof fn lemma_unsorted_keeps_order(input: Seq<ProcessInfo>, out: Seq<ProcessInfo>)
    requires
        stably_sorted(SortOrder::Unsorted, input, out),
    ensures
        out == input,
{
    let kc = key_class(SortOrder::Unsorted, 0);
    assert(out.filter(kc) == input.filter(kc));
    lemma_filter_all(out, kc);
    lemma_filter_all(input, kc);
}

/// The filter's result is determined: two arrangements that both are the
/// stable sort of the same records are the same sequence.
pub proof fn lemma_stable_sort_is_unique(
    order: SortOrder,
    input: Seq<ProcessInfo>,
    a: Seq<ProcessInfo>,
    b: Seq<ProcessInfo>,
)
    requires
        stably_sorted(order, input, a),
        stably_sorted(order, input, b),
    ensures
        a == b,
{
    assert forall|k: int| #[trigger] a.filter(key_class(order, k)) == b.filter(key_class(order, k)) by {
        assert(a.filter(key_class(order, k)) == input.filter(key_class(order, k)));
        assert(b.filter(key_class(order, k)) == input.filter(key_class(order, k)));
    }
    lemma_same_classes_same_sequence(order, a, b);
}

/// A record occurs in a sequence as often as in its filter by any predicate
/// that the record satisfies.
proof fn lemma_count_in_filter(s: Seq<ProcessInfo>, pred: spec_fn(ProcessInfo) -> bool, x: ProcessInfo)
    requires
        pred(x),
    ensures
        s.to_multiset().count(x) == s.filter(pred).to_multiset().count(x),
    decreases s.len(),
{
    broadcast use vstd::seq_lib::group_to_multiset_ensures;
    broadcast use vstd::multiset::group_multiset_axioms;

    if s.len() == 0 {
        reveal(Seq::filter);
        assert(!s.contains(x));
        assert(!s.filter(pred).contains(x));
    } else {
        let t = s.drop_last();
        lemma_count_in_filter(t, pred, x);
        assert(s == t.push(s.last()));
        t.lemma_filter_push(s.last(), pred);
    }
}

/// The stable sort of a sequence holds the same records, each as often.
pub proof fn lemma_stable_sort_permutes(order: SortOrder, input: Seq<ProcessInfo>, out: Seq<ProcessInfo>)
    requires
        stably_sorted(order, input, out),
    ensures
        out.to_multiset() == input.to_multiset(),
{
    assert forall|x: ProcessInfo| out.to_multiset().count(x) == input.to_multiset().count(x) by {
        let pred = key_class(order, sort_key(order, x));
        lemma_count_in_filter(out, pred, x);
        lemma_count_in_filter(input, pred, x);
        assert(out.filter(pred) == input.filter(pred));
    }
    assert(out.to_multiset() =~= input.to_multiset());
}

/// The order of a filter never changes which processes come back: two
/// filters that differ only in their order accept the same records, and
/// what they return for one snapshot holds the same records, each as often,
/// arranged by each one's order.
pub proof fn lemma_order_keeps_results(
    f: ProcessFilterView,
    g: ProcessFilterView,
    processes: Seq<ProcessInfo>,
    a: Seq<ProcessInfo>,
    b: Seq<ProcessInfo>,
)
    requires
        g == (ProcessFilterView { sort: g.sort, ..f }),
        stably_sorted(f.sort, processes.filter(accepted_by(f)), a),
        stably_sorted(g.sort, processes.filter(accepted_by(g)), b),
    ensures
        forall|p: ProcessInfo| accepts(f, p) == accepts(g, p),
        a.to_multiset() == b.to_multiset(),
        sorted_by(f.sort, a),
        sorted_by(g.sort, b),
{
    assert(accepted_by(f) =~= accepted_by(g));
    lemma_stable_sort_permutes(f.sort, processes.filter(accepted_by(f)), a);
    lemma_stable_sort_permutes(g.sort, processes.filter(accepted_by(g)), b);
}

/// An element of a sequence is in the filter by any predicate it satisfies.
proof fn lemma_in_own_class(order: SortOrder, s: Seq<ProcessInfo>, i: int)
    requires
        0 <= i < s.len(),
    ensures
        s.filter(key_class(order, sort_key(order, s[i]))).len() > 0,
{
    let pred = key_class(order, sort_key(order, s[i]));
    assert(pred(s[i]));
    s.lemma_filter_contains(pred, i);
}

/// The first element of a sequence, when it satisfies the predicate, is the
/// first element of the filter, and the rest of the filter is the filter of
/// the rest.
proof fn lemma_filter_front(s: Seq<ProcessInfo>, pred: spec_fn(ProcessInfo) -> bool)
    requires
        s.len() > 0,
    ensures
        s.filter(pred) == (if pred(s[0]) {
            seq![s[0]]
        } else {
            Seq::empty()
        }) + s.drop_first().filter(pred),
{
    assert(s == seq![s[0]] + s.drop_first());
    s.drop_first().lemma_filter_prepend(s[0], pred);
}

/// In a sorted sequence, the first key is at most any key whose class is not
/// empty.
proof fn lemma_least_key_present(order: SortOrder, s: Seq<ProcessInfo>, k: int)
    requires
        sorted_by(order, s),
        s.filter(key_class(order, k)).len() > 0,
    ensures
        s.len() > 0,
        sort_key(order, s[0]) <= k,
{
    let pred = key_class(order, k);
    let x = s.filter(pred)[0];
    s.lemma_filter_pred(pred, 0);
    assert(s.filter(pred).contains(x));
    s.lemma_filter_contains_rev(pred, x);
    let j = choose|j: int| 0 <= j < s.len() && s[j] == x;
    assert(sort_key(order, s[j]) == k);
    if j > 0 {
        assert(sort_key(order, s[0]) <= sort_key(order, s[j]));
    }
}

/// Two sorted sequences with the same key classes are equal.
proof fn lemma_same_classes_same_sequence(order: SortOrder, a: Seq<ProcessInfo>, b: Seq<ProcessInfo>)
    requires
        sorted_by(order, a),
        sorted_by(order, b),
        forall|k: int| #[trigger] a.filter(key_class(order, k)) == b.filter(key_class(order, k)),
    ensures
        a == b,
    decreases a.len() + b.len(),
{
    if a.len() == 0 && b.len() == 0 {
        assert(a =~= b);
    } else if a.len() == 0 {
        lemma_in_own_class(order, b, 0);
        let k = sort_key(order, b[0]);
        assert(a.filter(key_class(order, k)) == b.filter(key_class(order, k)));
        reveal(Seq::filter);
    } else if b.len() == 0 {
        lemma_in_own_class(order, a, 0);
        let k = sort_key(order, a[0]);
        assert(a.filter(key_class(order, k)) == b.filter(key_class(order, k)));
        reveal(Seq::filter);
    } else {
        let ka = sort_key(order, a[0]);
        let kb = sort_key(order, b[0]);
        // The least key of `a` occurs in `b`, so `b` starts no higher, and
        // conversely.
        lemma_in_own_class(order, a, 0);
        assert(a.filter(key_class(order, ka)) == b.filter(key_class(order, ka)));
        lemma_least_key_present(order, b, ka);
        assert(kb <= ka);
        lemma_in_own_class(order, b, 0);
        assert(a.filter(key_class(order, kb)) == b.filter(key_class(order, kb)));
        lemma_least_key_present(order, a, kb);
        assert(ka <= kb);
        // Both start with the first element of that class.
        lemma_filter_front(a, key_class(order, ka));
        lemma_filter_front(b, key_class(order, ka));
        assert(a[0] == a.filter(key_class(order, ka))[0]);
        assert(b[0] == b.filter(key_class(order, ka))[0]);
        assert(a[0] == b[0]);
        let a1 = a.drop_first();
        let b1 = b.drop_first();
        assert forall|k: int| #[trigger] a1.filter(key_class(order, k)) == b1.filter(key_class(order, k)) by {
            lemma_filter_front(a, key_class(order, k));
            lemma_filter_front(b, key_class(order, k));
            let head = if key_class(order, k)(a[0]) {
                seq![a[0]]
            } else {
                Seq::empty()
            };
            assert(head + a1.filter(key_class(order, k)) == head + b1.filter(key_class(order, k)));
            assert(a1.filter(key_class(order, k)) =~= (head + a1.filter(key_class(order, k))).subrange(
                head.len() as int,
                (head + a1.filter(key_class(order, k))).len() as int,
            ));
            assert(b1.filter(key_class(order, k)) =~= (head + b1.filter(key_class(order, k))).subrange(
                head.len() as int,
                (head + b1.filter(key_class(order, k))).len() as int,
            ));
        }
        assert(sorted_by(order, a1));
        assert(sorted_by(order, b1));
        lemma_same_classes_same_sequence(order, a1, b1);
        assert(a =~= seq![a[0]] + a1);
        assert(b =~= seq![b[0]] + b1);
    }
}

/// Sorting by PID yields ascending PIDs.
pub proof fn lemma_pid_order_ascends(out: Seq<ProcessInfo>, i: int, j: int)
    requires
        sorted_by(SortOrder::Pid, out),
        0 <= i < j < out.len(),
    ensures
        out[i].pid <= out[j].pid,
{
}

/// Sorting by memory yields descending working sets (a missing figure
/// counting as zero).
pub proof fn lemma_memory_order_descends(out: Seq<ProcessInfo>, i: int, j: int)
    requires
        sorted_by(SortOrder::MemoryDesc, out),
        0 <= i < j < out.len(),
    ensures
        (match out[i].memory_usage {
            Some(m) => m as int,
            None => 0,
        }) >= (match out[j].memory_usage {
            Some(m) => m as int,
            None => 0,
        }),
{
}

/// Sorting by CPU yields descending total CPU times (a missing figure
/// counting as zero).
pub proof fn lemma_cpu_order_descends(out: Seq<ProcessInfo>, i: int, j: int)
    requires
        sorted_by(SortOrder::CpuDesc, out),
        0 <= i < j < out.len(),
    ensures
        (match known_cpu_total(out[i]) {
            Some(t) => t as int,
            None => 0,
        }) >= (match known_cpu_total(out[j]) {
            Some(t) => t as int,
            None => 0,
        }),
{
}

/// Inserting a record at the boundary between the keys not above its own
/// and the keys above it keeps the sequence sorted.
proof fn lemma_insert_sorted(order: SortOrder, s: Seq<ProcessInfo>, pos: int, x: ProcessInfo)
    requires
        0 <= pos <= s.len(),
        sorted_by(order, s),
        forall|j: int| 0 <= j < pos ==> sort_key(order, #[trigger] s[j]) <= sort_key(order, x),
        forall|j: int| pos <= j < s.len() ==> sort_key(order, #[trigger] s[j]) > sort_key(order, x),
    ensures
        sorted_by(order, s.insert(pos, x)),
{
    let t = s.insert(pos, x);
    assert forall|a: int, b: int| 0 <= a < b < t.len() implies sort_key(order, t[a]) <= sort_key(
        order,
        t[b],
    ) by {
        if a < pos {
            assert(t[a] == s[a]);
            if b < pos {
                assert(t[b] == s[b]);
            } else if b > pos {
                assert(t[b] == s[b - 1]);
            }
        } else if a == pos {
            assert(t[b] == s[b - 1]);
        } else {
            assert(t[a] == s[a - 1]);
            assert(t[b] == s[b - 1]);
        }
    }
}

/// Inserting a record at that boundary adds it at the end of its key class
/// and leaves the other key classes unchanged.
proof fn lemma_insert_key_class(order: SortOrder, s: Seq<ProcessInfo>, pos: int, x: ProcessInfo, k: int)
    requires
        0 <= pos <= s.len(),
        forall|j: int| 0 <= j < pos ==> sort_key(order, #[trigger] s[j]) <= sort_key(order, x),
        forall|j: int| pos <= j < s.len() ==> sort_key(order, #[trigger] s[j]) > sort_key(order, x),
    ensures
        s.insert(pos, x).filter(key_class(order, k)) == (if sort_key(order, x) == k {
            s.filter(key_class(order, k)).push(x)
        } else {
            s.filter(key_class(order, k))
        }),
{
    let pred = key_class(order, k);
    let a = s.take(pos);
    let b = s.skip(pos);
    assert(s == a + b);
    assert(s.insert(pos, x) == a.push(x) + b);
    Seq::filter_distributes_over_add(a, b, pred);
    Seq::filter_distributes_over_add(a.push(x), b, pred);
    a.lemma_filter_push(x, pred);
    if sort_key(order, x) == k {
        assert forall|j: int| 0 <= j < b.len() implies !pred(#[trigger] b[j]) by {
            assert(b[j] == s[pos + j]);
        }
        lemma_filter_none(b, pred);
    }
}

/// Filtering a sequence none of whose elements satisfies the predicate gives
/// the empty sequence.
proof fn lemma_filter_none<A>(s: Seq<A>, pred: spec_fn(A) -> bool)
    requires
        forall|j: int| 0 <= j < s.len() ==> !pred(#[trigger] s[j]),
    ensures
        s.filter(pred) == Seq::<A>::empty(),
    decreases s.len(),
{
    reveal(Seq::filter);
    if s.len() > 0 {
        lemma_filter_none(s.drop_last(), pred);
        assert(!pred(s[s.len() - 1]));
    }
}

} // verus!
