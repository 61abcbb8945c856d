//! Turning what a process snapshot and the per-process queries report into
//! `ProcessInfo` records: Win32 `FILETIME` values, memory counters, priority
//! classes, UTF-16 names, and which snapshot entries are listed.
use vstd::prelude::*;
use crate::processes::info::{CpuTimes, MemoryInfo, ProcessInfo, ProcessPriority};
use crate::time::{unix_time, Duration};

verus! {

broadcast use vstd::seq_lib::group_seq_properties;

// ─── UTF-16 text ─────────────────────────────────────────────────────────────

/// The scalar value of a character.
pub open spec fn scalar_value(c: char) -> nat {
    c as nat
}

/// The character whose scalar value is `v`.
pub open spec fn char_of(v: nat) -> char {
    choose|c: char| #[trigger] scalar_value(c) == v
}

/// The text that lossy UTF-16 decoding gives for `units`: a unit outside the
/// surrogate range is its own character, a high surrogate followed by a low
/// one is the character they encode together, and any other surrogate
/// becomes U+FFFD on its own (the unit after it is decoded afresh).
pub open spec fn utf16_lossy(units: Seq<u16>) -> Seq<char>
    decreases units.len(),
{
    if units.len() == 0 {
        Seq::empty()
    } else {
        let u = units[0] as nat;
        if u < 0xD800 || u >= 0xE000 {
            seq![char_of(u)] + utf16_lossy(units.drop_first())
        } else if u < 0xDC00 && units.len() >= 2 && 0xDC00 <= units[1] < 0xE000 {
            let v = 0x10000 + (u - 0xD800) * 0x400 + (units[1] - 0xDC00);
            seq![char_of(v as nat)] + utf16_lossy(units.subrange(2, units.len() as int))
        } else {
            seq![char_of(0xFFFD)] + utf16_lossy(units.drop_first())
        }
    }
}

/// `String::from_utf16_lossy`: decodes UTF-16, replacing each unpaired
/// surrogate with U+FFFD, as `utf16_lossy` states.
#[verifier::external_body]
pub(crate) fn decode_utf16_lossy(units: &[u16]) -> (s: String)
    ensures
        s@ == utf16_lossy(units@),
{
    String::from_utf16_lossy(units)
}

/// The number of units before the first zero unit (all of them when there is
/// none).
pub open spec fn nul_terminated_len(s: Seq<u16>) -> nat
    decreases s.len(),
{
    if s.len() == 0 {
        0
    } else if s[0] == 0 {
        0
    } else {
        1 + nul_terminated_len(s.drop_first())
    }
}

/// The units before `nul_terminated_len` are not zero, and the unit there,
/// if any, is.
pub proof fn lemma_nul_terminated_len_facts(s: Seq<u16>)
    ensures
        nul_terminated_len(s) <= s.len(),
        forall|j: int| 0 <= j < nul_terminated_len(s) ==> s[j] != 0,
        nul_terminated_len(s) < s.len() ==> s[nul_terminated_len(s) as int] == 0,
    decreases s.len(),
{
    if s.len() > 0 && s[0] != 0 {
        lemma_nul_terminated_len_facts(s.drop_first());
        assert forall|j: int| 0 <= j < nul_terminated_len(s) implies s[j] != 0 by {
            if j > 0 {
                assert(s[j] == s.drop_first()[j - 1]);
            }
        }
    }
}

proof fn lemma_nul_terminated_len(s: Seq<u16>, k: int)
    requires
        0 <= k <= s.len(),
        forall|j: int| 0 <= j < k ==> s[j] != 0,
        k < s.len() ==> s[k] == 0,
    ensures
        nul_terminated_len(s) == k,
    decreases k,
{
    if k > 0 {
        lemma_nul_terminated_len(s.drop_first(), k - 1);
    }
}

/// The first `k` units of `s`.
pub fn copy_prefix(s: &[u16], k: usize) -> (r: Vec<u16>)
    requires
        k <= s@.len(),
    ensures
        r@ == s@.take(k as int),
{
    let mut r: Vec<u16> = Vec::new();
    let mut i: usize = 0;
    while i < k
        invariant
            i <= k,
            k <= s@.len(),
            r@ == s@.take(i as int),
        decreases k - i,
    {
        r.push(s[i]);
        i = i + 1;
        assert(r@ =~= s@.take(i as int));
    }
    r
}

/// The executable name of a snapshot entry: its fixed-size UTF-16 buffer,
/// decoded up to the first zero unit.
pub open spec fn exe_name_of(exe_file: Seq<u16>) -> Seq<char> {
    utf16_lossy(exe_file.take(nul_terminated_len(exe_file) as int))
}

/// The executable name is the decoding of the units before the first zero
/// unit (all of them when there is none).
pub proof fn lemma_exe_name_stops_at_first_nul(units: Seq<u16>, k: int)
    requires
        0 <= k <= units.len(),
        forall|j: int| 0 <= j < k ==> units[j] != 0,
        k < units.len() ==> units[k] == 0,
    ensures
        exe_name_of(units) == utf16_lossy(units.take(k)),
{
    lemma_nul_terminated_len_facts(units);
    let n = nul_terminated_len(units) as int;
    if n < k {
        assert(units[n] == 0);
    } else if n > k {
        assert(units[k] != 0);
    }
}

/// Decode the executable name held in a snapshot entry's buffer.
pub fn exe_name_from_entry(exe_file: &[u16]) -> (name: String)
    ensures
        name@ == exe_name_of(exe_file@),
{
    let n = exe_file.len();
    let mut k: usize = 0;
    while k < n && exe_file[k] != 0
        invariant
            k <= n,
            n == exe_file@.len(),
            forall|j: int| 0 <= j < k ==> exe_file@[j] != 0,
        decreases n - k,
    {
        k = k + 1;
    }
    proof {
        lemma_nul_terminated_len(exe_file@, k as int);
    }
    let prefix = copy_prefix(exe_file, k);
    decode_utf16_lossy(prefix.as_slice())
}

/// The executable path reported by `QueryFullProcessImageNameW`: none when
/// the query failed or wrote nothing, else the first `size` units decoded.
pub open spec fn executable_path_of(succeeded: bool, buffer: Seq<u16>, size: u32) -> Option<Seq<char>> {
    if !succeeded || size == 0 {
        None
    } else {
        Some(utf16_lossy(buffer.take(size as int)))
    }
}

/// Interpret the result of an executable-path query.
pub fn executable_path_from_query(succeeded: bool, buffer: &[u16], size: u32) -> (path: Option<String>)
    requires
        size as nat <= buffer@.len(),
    ensures
        path is Some == executable_path_of(succeeded, buffer@, size) is Some,
        path matches Some(p) ==> executable_path_of(succeeded, buffer@, size) == Some(p@),
{
    if !succeeded || size == 0 {
        None
    } else {
        let prefix = copy_prefix(buffer, size as usize);
        Some(decode_utf16_lossy(prefix.as_slice()))
    }
}

// ─── FILETIME ────────────────────────────────────────────────────────────────

/// A Win32 `FILETIME`: a count of 100-nanosecond intervals split in two
/// 32-bit halves.
#[derive(Debug, Clone, Copy, PartialEq, Eq, Structural)]
pub struct FileTime {
    pub low: u32,
    pub high: u32,
}

/// The number of 100-nanosecond intervals a `FILETIME` holds.
pub open spec fn intervals(ft: FileTime) -> nat {
    (ft.high as nat) * 0x1_0000_0000 + ft.low as nat
}

/// Seconds from 1601-01-01 (the `FILETIME` epoch) to 1970-01-01.
pub const FILETIME_TO_UNIX_EPOCH_SECS: u64 = 11644473600;

/// The number of intervals in a `FILETIME`.
pub fn filetime_intervals(ft: &FileTime) -> (n: u64)
    ensures
        n as nat == intervals(*ft),
{
    let high = ft.high as u64;
    let low = ft.low as u64;
    let n = (high << 32u64) | low;
    assert(n == high * 0x1_0000_0000 + low) by (bit_vector)
        requires
            high < 0x1_0000_0000,
            low < 0x1_0000_0000,
            n == (high << 32u64) | low,
    ;
    n
}

/// A `FILETIME` that counts a span (such as a CPU time) as a duration.
pub fn filetime_to_duration(ft: &FileTime) -> (d: Duration)
    requires
        intervals(*ft) * 100 <= u64::MAX,
    ensures
        d@ == intervals(*ft) * 100,
{
    let n = filetime_intervals(ft);
    Duration::from_nanos(n * 100)
}

/// The nanoseconds after the Unix epoch of the point in time a `FILETIME`
/// names; points before the Unix epoch count as the epoch itself.
pub open spec fn unix_nanos_of(ft: FileTime) -> nat {
    let secs = intervals(ft) / 10_000_000;
    let sub = (intervals(ft) % 10_000_000) * 100;
    if secs >= FILETIME_TO_UNIX_EPOCH_SECS {
        ((secs - FILETIME_TO_UNIX_EPOCH_SECS) as nat) * 1_000_000_000 + sub
    } else {
        0
    }
}

/// A `FILETIME` that names a point in time, as a `SystemTime`.
pub fn filetime_to_system_time(ft: &FileTime) -> (t: std::time::SystemTime)
    requires
        unix_nanos_of(*ft) <= crate::time::max_unix_nanos(),
    ensures
        t == crate::time::unix_epoch_plus(unix_nanos_of(*ft)),
{
    let n = filetime_intervals(ft);
    let secs = n / 10_000_000;
    let sub = ((n % 10_000_000) * 100) as u32;
    if secs >= FILETIME_TO_UNIX_EPOCH_SECS {
        let d = Duration::new(secs - FILETIME_TO_UNIX_EPOCH_SECS, sub);
        unix_time(d)
    } else {
        let d = Duration::from_secs(0);
        unix_time(d)
    }
}

/// Whether the point in time a `FILETIME` names can be represented as a
/// `SystemTime` on every platform.
pub fn representable_filetime(ft: &FileTime) -> (b: bool)
    ensures
        b == (unix_nanos_of(*ft) <= crate::time::max_unix_nanos()),
{
    let n = filetime_intervals(ft);
    let secs = n / 10_000_000;
    let sub = (n % 10_000_000) * 100;
    if secs >= FILETIME_TO_UNIX_EPOCH_SECS {
        let whole: u128 = (secs - FILETIME_TO_UNIX_EPOCH_SECS) as u128;
        whole * 1_000_000_000 + (sub as u128) <= 910692730085477580700u128
    } else {
        true
    }
}

/// A `FILETIME` pair of zeros means "no such time" (a process that has not
/// exited).
pub open spec fn is_zero_filetime(ft: FileTime) -> bool {
    ft.low == 0 && ft.high == 0
}

/// The CPU times that `GetProcessTimes` reports.
pub open spec fn cpu_times_match(
    t: CpuTimes,
    creation: FileTime,
    exit: FileTime,
    kernel: FileTime,
    user: FileTime,
) -> bool {
    &&& t.user_time@ == intervals(user) * 100
    &&& t.kernel_time@ == intervals(kernel) * 100
    &&& t.creation_time == crate::time::unix_epoch_plus(unix_nanos_of(creation))
    &&& t.exit_time == if is_zero_filetime(exit) {
        None
    } else {
        Some(crate::time::unix_epoch_plus(unix_nanos_of(exit)))
    }
}

/// Build the CPU times of a process from the four `FILETIME`s that
/// `GetProcessTimes` fills.
pub fn cpu_times_from_filetimes(
    creation: &FileTime,
    exit: &FileTime,
    kernel: &FileTime,
    user: &FileTime,
) -> (t: CpuTimes)
    requires
        intervals(*kernel) * 100 <= u64::MAX,
        intervals(*user) * 100 <= u64::MAX,
        unix_nanos_of(*creation) <= crate::time::max_unix_nanos(),
        !is_zero_filetime(*exit) ==> unix_nanos_of(*exit) <= crate::time::max_unix_nanos(),
    ensures
        cpu_times_match(t, *creation, *exit, *kernel, *user),
{
    CpuTimes {
        user_time: filetime_to_duration(user),
        kernel_time: filetime_to_duration(kernel),
        creation_time: filetime_to_system_time(creation),
        exit_time: if exit.low == 0 && exit.high == 0 {
            None
        } else {
            Some(filetime_to_system_time(exit))
        },
    }
}

// ─── Counters and priority ───────────────────────────────────────────────────

/// Build the memory statistics from the `PROCESS_MEMORY_COUNTERS` fields.
pub fn memory_info_from_counters(
    working_set_size: usize,
    peak_working_set_size: usize,
    page_file_usage: usize,
    peak_page_file_usage: usize,
) -> (m: MemoryInfo)
    ensures
        m.working_set_size == working_set_size,
        m.peak_working_set_size == peak_working_set_size,
        m.page_file_usage == page_file_usage,
        m.peak_page_file_usage == peak_page_file_usage,
{
    MemoryInfo {
        working_set_size: working_set_size as u64,
        peak_working_set_size: peak_working_set_size as u64,
        page_file_usage: page_file_usage as u64,
        peak_page_file_usage: peak_page_file_usage as u64,
    }
}

/// The priority that a `GetPriorityClass` result names: none for the failure
/// value zero or an unknown class.
pub fn priority_from_class(value: u32) -> (p: Option<ProcessPriority>)
    ensures
        p == (if value == 0 {
            None
        } else {
            crate::processes::info::priority_from_class_value(value)
        }),
{
    if value == 0 {
        None
    } else {
        ProcessPriority::from_windows_constant(value)
    }
}

// ─── Snapshot entries ────────────────────────────────────────────────────────

/// What the per-process queries found out about one process; every part is
/// absent when the process could not be opened.
#[derive(Debug, Clone)]
pub struct ProcessDetails {
    pub executable_path: Option<String>,
    pub memory: Option<MemoryInfo>,
    pub cpu_times: Option<CpuTimes>,
    pub priority: Option<ProcessPriority>,
}

impl ProcessDetails {
    /// The details of a process that could not be opened.
    pub fn unavailable() -> (d: ProcessDetails)
        ensures
            d.executable_path is None,
            d.memory is None,
            d.cpu_times is None,
            d.priority is None,
    {
        ProcessDetails { executable_path: None, memory: None, cpu_times: None, priority: None }
    }
}

/// One entry of a process snapshot (`PROCESSENTRY32W`) with the details
/// queried for it.
#[derive(Debug, Clone)]
pub struct ProcessEntry {
    pub pid: u32,
    pub parent_pid: u32,
    pub thread_count: u32,
    pub exe_file: Vec<u16>,
    pub details: ProcessDetails,
}

/// `p` is the record of snapshot entry `e`: its PID, parent PID and thread
/// count, the name decoded from the entry's buffer, and what the queries
/// found (the working set as memory usage, the CPU times and the creation
/// time from the process times).
pub open spec fn is_info_of(p: ProcessInfo, e: ProcessEntry) -> bool {
    &&& p.pid == e.pid
    &&& p.name@ == exe_name_of(e.exe_file@)
    &&& p.executable_path == e.details.executable_path
    &&& p.parent_pid == Some(e.parent_pid)
    &&& p.memory_usage == match e.details.memory {
        Some(m) => Some(m.working_set_size),
        None => None,
    }
    &&& p.user_cpu_time == match e.details.cpu_times {
        Some(t) => Some(t.user_time),
        None => None,
    }
    &&& p.kernel_cpu_time == match e.details.cpu_times {
        Some(t) => Some(t.kernel_time),
        None => None,
    }
    &&& p.thread_count == Some(e.thread_count)
    &&& p.priority_class == e.details.priority
    &&& p.creation_time == match e.details.cpu_times {
        Some(t) => Some(t.creation_time),
        None => None,
    }
}

/// The record of a snapshot entry keeps what the entry reports: its PID,
/// parent, thread count, path, priority and working set, and its CPU times
/// field by field (user time as user time, kernel time as kernel time,
/// creation time as creation time), so that its total CPU time is the
/// entry's user plus kernel time; an entry without CPU times gives a record
/// with none.
pub proof fn lemma_record_keeps_entry(p: ProcessInfo, e: ProcessEntry)
    requires
        is_info_of(p, e),
    ensures
        p.pid == e.pid && p.parent_pid == Some(e.parent_pid) && p.thread_count == Some(e.thread_count),
        p.executable_path == e.details.executable_path && p.priority_class == e.details.priority,
        e.details.memory matches Some(m) ==> p.memory_usage == Some(m.working_set_size),
        e.details.memory is None ==> p.memory_usage is None,
        e.details.cpu_times matches Some(t) ==> {
            &&& p.user_cpu_time == Some(t.user_time)
            &&& p.kernel_cpu_time == Some(t.kernel_time)
            &&& p.creation_time == Some(t.creation_time)
            &&& crate::processes::filter::known_cpu_total(p) == Some(t.user_time@ + t.kernel_time@)
        },
        e.details.cpu_times is None ==> {
            &&& p.user_cpu_time is None
            &&& p.kernel_cpu_time is None
            &&& p.creation_time is None
            &&& crate::processes::filter::known_cpu_total(p) is None
        },
{
}

/// Build the record of one snapshot entry.
pub fn process_info_from_entry(entry: ProcessEntry) -> (p: ProcessInfo)
    ensures
        is_info_of(p, entry),
{
    let name = exe_name_from_entry(entry.exe_file.as_slice());
    let details = entry.details;
    ProcessInfo {
        pid: entry.pid,
        name,
        executable_path: details.executable_path,
        parent_pid: Some(entry.parent_pid),
        memory_usage: match details.memory {
            Some(m) => Some(m.working_set_size),
            None => None,
        },
        user_cpu_time: match details.cpu_times {
            Some(t) => Some(t.user_time),
            None => None,
        },
        kernel_cpu_time: match details.cpu_times {
            Some(t) => Some(t.kernel_time),
            None => None,
        },
        thread_count: Some(entry.thread_count),
        priority_class: details.priority,
        creation_time: match details.cpu_times {
            Some(t) => Some(t.creation_time),
            None => None,
        },
    }
}

/// Snapshot entries that are listed: every process but the idle process,
/// whose PID is 0.
pub open spec fn is_listed(e: ProcessEntry) -> bool {
    e.pid != 0
}

/// The point in time a `FILETIME` names, in nanoseconds after the Unix
/// epoch: its 100-nanosecond intervals since 1601 less those up to 1970,
/// times 100; a point before 1970 counts as the epoch itself.
pub proof fn lemma_unix_nanos_is_interval_difference(ft: FileTime)
    ensures
        intervals(ft) >= 116444736000000000 ==> unix_nanos_of(ft) == (intervals(ft)
            - 116444736000000000) * 100,
        intervals(ft) < 116444736000000000 ==> unix_nanos_of(ft) == 0,
        intervals(ft) == (ft.high as nat) * 4294967296 + (ft.low as nat),
{
    let n = intervals(ft);
    let secs = n / 10_000_000;
    let sub = n % 10_000_000;
    assert(n == secs * 10_000_000 + sub) by (nonlinear_arith)
        requires
            secs == n / 10_000_000,
            sub == n % 10_000_000,
    ;
    if n >= 116444736000000000 {
        assert(secs >= 11644473600) by (nonlinear_arith)
            requires
                n == secs * 10_000_000 + sub,
                sub < 10_000_000,
                n >= 116444736000000000,
        ;
    } else {
        assert(secs < 11644473600) by (nonlinear_arith)
            requires
                n == secs * 10_000_000 + sub,
                n < 116444736000000000,
        ;
    }
}

/// Every record of a snapshot has a PID other than 0: the idle process is
/// never listed.
pub proof fn lemma_snapshot_skips_pid_zero(entries: Seq<ProcessEntry>, r: Seq<ProcessInfo>)
    requires
        r.len() == entries.filter(|e: ProcessEntry| is_listed(e)).len(),
        forall|i: int|
            0 <= i < r.len() ==> is_info_of(#[trigger] r[i], entries.filter(|e: ProcessEntry| is_listed(e))[i]),
    ensures
        forall|i: int| 0 <= i < r.len() ==> #[trigger] r[i].pid != 0,
{
    let listed = entries.filter(|e: ProcessEntry| is_listed(e));
    assert forall|i: int| 0 <= i < r.len() implies #[trigger] r[i].pid != 0 by {
        entries.lemma_filter_pred(|e: ProcessEntry| is_listed(e), i);
        assert(is_info_of(r[i], listed[i]));
    }
}

/// Whether a snapshot entry with this PID is listed (and so worth querying).
pub fn is_listed_pid(pid: u32) -> (b: bool)
    ensures
        b == (pid != 0),
{
    pid != 0
}

/// The records of a snapshot: one per listed entry, in snapshot order.
pub fn processes_from_snapshot(entries: Vec<ProcessEntry>) -> (r: Vec<ProcessInfo>)
    ensures
        r@.len() == entries@.filter(|e: ProcessEntry| is_listed(e)).len(),
        forall|i: int|
            0 <= i < r@.len() ==> is_info_of(
                #[trigger] r@[i],
                entries@.filter(|e: ProcessEntry| is_listed(e))[i],
            ),
{
    let ghost listed = |e: ProcessEntry| is_listed(e);
    let ghost orig = entries@;
    let mut rest = entries;
    let mut out: Vec<ProcessInfo> = Vec::new();
    let mut i: usize = 0;
    let n = rest.len();
    proof {
        reveal(Seq::filter);
        assert(orig.take(0) =~= Seq::<ProcessEntry>::empty());
    }
    while i < n
        invariant
            n == orig.len(),
            i <= n,
            rest@ == orig.subrange(i as int, n as int),
            listed == (|e: ProcessEntry| is_listed(e)),
            out@.len() == orig.take(i as int).filter(listed).len(),
            forall|j: int|
                0 <= j < out@.len() ==> is_info_of(
                    #[trigger] out@[j],
                    orig.take(i as int).filter(listed)[j],
                ),
        decreases n - i,
    {
        let e = rest.remove(0);
        proof {
            assert(orig.take(i + 1) == orig.take(i as int).push(orig[i as int]));
            orig.take(i as int).lemma_filter_push(orig[i as int], listed);
        }
        if is_listed_pid(e.pid) {
            let p = process_info_from_entry(e);
            out.push(p);
        }
        i = i + 1;
    }
    proof {
        assert(orig.take(n as int) == orig);
    }
    out
}

} // verus!
