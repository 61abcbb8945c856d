//! An opened process and the decisions of its operations: which access
//! rights to ask for, how a failed open is reported, what a wait result
//! means, and how per-thread failures of suspend and resume are reported.
use vstd::prelude::*;
use crate::error::{CrosswinError, OsFailure, Result};
use crate::processes::info::{MemoryInfo, ProcessPriority};
use crate::windows::handles::ProcessHandle;
use crate::windows::thread::{thread_ids, threads_of_process, ThreadInfo};

verus! {

/// Access rights for opening a process.
#[derive(Debug, Clone, Copy, PartialEq, Eq, Structural)]
pub enum ProcessAccess {
    /// Query limited information.
    QueryLimitedInformation,
    /// Query full information.
    QueryInformation,
    /// Terminate the process.
    Terminate,
    /// Set process information.
    SetInformation,
    /// Suspend/resume threads.
    SuspendResume,
    /// All access rights.
    AllAccess,
}

/// The Win32 access-right mask of each access kind (`PROCESS_TERMINATE` and
/// its siblings).
pub open spec fn access_mask(a: ProcessAccess) -> u32 {
    match a {
        ProcessAccess::QueryLimitedInformation => 0x1000,
        ProcessAccess::QueryInformation => 0x0400,
        ProcessAccess::Terminate => 0x0001,
        ProcessAccess::SetInformation => 0x0200,
        ProcessAccess::SuspendResume => 0x0800,
        ProcessAccess::AllAccess => 0x001F_FFFF,
    }
}

impl ProcessAccess {
    /// The Win32 access-right mask to open a process with.
    pub fn to_windows_flags(&self) -> (m: u32)
        ensures
            m == access_mask(*self),
    {
        match self {
            ProcessAccess::QueryLimitedInformation => 0x1000,
            ProcessAccess::QueryInformation => 0x0400,
            ProcessAccess::Terminate => 0x0001,
            ProcessAccess::SetInformation => 0x0200,
            ProcessAccess::SuspendResume => 0x0800,
            ProcessAccess::AllAccess => 0x001F_FFFF,
        }
    }
}

/// What a process value holds: its handle, when it has one, and its PID.
pub struct ProcessView {
    pub handle: Option<isize>,
    pub pid: u32,
}

/// An opened process.
#[derive(Debug)]
pub struct Process {
    handle: Option<ProcessHandle>,
    pid: u32,
}

impl View for Process {
    type V = ProcessView;

    closed spec fn view(&self) -> ProcessView {
        ProcessView {
            handle: match self.handle {
                Some(h) => Some(h@),
                None => None,
            },
            pid: self.pid,
        }
    }
}

/// `HRESULT_FROM_WIN32(ERROR_ACCESS_DENIED)` read as unsigned.
pub const E_ACCESS_DENIED: u32 = 0x8007_0005;

/// `HRESULT_FROM_WIN32(ERROR_INVALID_PARAMETER)` read as unsigned; `OpenProcess`
/// reports it for a PID that names no process.
pub const E_INVALID_PARAMETER: u32 = 0x8007_0057;

/// `WAIT_OBJECT_0`: the awaited process has exited.
pub const WAIT_OBJECT_0: u32 = 0;

/// `WAIT_TIMEOUT`: the wait ended before the process exited.
pub const WAIT_TIMEOUT: u32 = 0x102;

/// `INFINITE`: a wait without time limit.
pub const INFINITE: u32 = 0xFFFF_FFFF;

/// `STILL_ACTIVE`: the exit code of a process that is still running.
pub const STILL_ACTIVE: u32 = 259;

/// The error reported when `OpenProcess` fails for `pid` with `failure`.
pub open spec fn is_open_error(e: CrosswinError, pid: u32, failure: OsFailure) -> bool {
    if failure.code == E_ACCESS_DENIED {
        e matches CrosswinError::AccessDenied { resource, pid: p } && resource@ == "process"@ && p
            == Some(pid)
    } else if failure.code == E_INVALID_PARAMETER {
        e == CrosswinError::ProcessNotFound { pid }
    } else {
        crate::error::is_win32_failure(e, "OpenProcess"@, failure)
    }
}

/// A refused open is reported as access denied exactly for the code
/// `E_ACCESSDENIED` (0x80070005), as a missing process exactly for
/// `E_INVALIDARG` (0x80070057), and otherwise as the Win32 error of
/// `OpenProcess` with the code and text the platform gave.
pub proof fn lemma_open_error_by_code(e: CrosswinError, pid: u32, f: OsFailure)
    requires
        is_open_error(e, pid, f),
    ensures
        (e is AccessDenied) <==> f.code == 0x8007_0005u32,
        (e is ProcessNotFound) <==> f.code == 0x8007_0057u32,
        e is AccessDenied ==> (e matches CrosswinError::AccessDenied { pid: p, .. } && p == Some(pid)),
        e is ProcessNotFound ==> (e matches CrosswinError::ProcessNotFound { pid: p } && p == pid),
        f.code != 0x8007_0005u32 && f.code != 0x8007_0057u32 ==> (e matches CrosswinError::Win32 {
            operation,
            code,
            message,
        } && operation@ == "OpenProcess"@ && code == f.code && message@ == f.message@),
{
}

/// The error to report when `OpenProcess` fails for `pid`: access denied,
/// process not found, or the Win32 error itself.
pub fn open_error(pid: u32, failure: &OsFailure) -> (e: CrosswinError)
    ensures
        is_open_error(e, pid, *failure),
{
    if failure.code == E_ACCESS_DENIED {
        CrosswinError::access_denied("process", Some(pid))
    } else if failure.code == E_INVALID_PARAMETER {
        CrosswinError::process_not_found(pid)
    } else {
        CrosswinError::from_failure("OpenProcess", failure)
    }
}

/// The time limit to wait with: the given milliseconds, or no limit.
pub fn wait_timeout(timeout_ms: Option<u32>) -> (t: u32)
    ensures
        t == match timeout_ms {
            Some(ms) => ms,
            None => INFINITE,
        },
{
    match timeout_ms {
        Some(ms) => ms,
        None => INFINITE,
    }
}

/// What to do after `WaitForSingleObject` returned.
#[derive(Debug)]
pub enum WaitStep {
    /// The process exited: its exit code is to be read.
    ReadExitCode,
    /// The wait is over with this result.
    Finished(Result<Option<u32>>),
}

/// The step that a wait result calls for: read the exit code when the
/// process exited, report no exit code on a timeout, else report the
/// failed wait.
pub open spec fn is_wait_step(s: WaitStep, wait_result: u32) -> bool {
    if wait_result == WAIT_OBJECT_0 {
        s is ReadExitCode
    } else if wait_result == WAIT_TIMEOUT {
        s matches WaitStep::Finished(Ok(None))
    } else {
        s matches WaitStep::Finished(Err(CrosswinError::Win32 { operation, code, message }))
            && operation@ == "WaitForSingleObject"@ && code == wait_result && message@
            == "Wait failed"@
    }
}

/// After a wait, the exit code is read exactly when the wait reported the
/// process signalled (0); a timeout (0x102) ends the wait with no exit code;
/// any other result is the Win32 error of `WaitForSingleObject` carrying that
/// result as its code.
pub proof fn lemma_wait_step_by_result(s: WaitStep, w: u32)
    requires
        is_wait_step(s, w),
    ensures
        (s is ReadExitCode) <==> w == 0,
        (s matches WaitStep::Finished(Ok(None))) <==> w == 0x102,
        w != 0 && w != 0x102 ==> (s matches WaitStep::Finished(Err(CrosswinError::Win32 { code, .. }))
            && code == w),
{
}

/// Interpret the result of `WaitForSingleObject`.
pub fn wait_step(wait_result: u32) -> (s: WaitStep)
    ensures
        is_wait_step(s, wait_result),
{
    if wait_result == WAIT_OBJECT_0 {
        WaitStep::ReadExitCode
    } else if wait_result == WAIT_TIMEOUT {
        WaitStep::Finished(Ok(None))
    } else {
        WaitStep::Finished(Err(CrosswinError::win32("WaitForSingleObject", wait_result, "Wait failed")))
    }
}

/// The result of reading the exit code of a process that has exited.
pub fn exit_code_result(read: std::result::Result<u32, OsFailure>) -> (r: Result<Option<u32>>)
    ensures
        match read {
            Ok(code) => r matches Ok(Some(c)) && c == code,
            Err(f) => r matches Err(e) && crate::error::is_win32_failure(e, "GetExitCodeProcess"@, f),
        },
{
    match read {
        Ok(code) => Ok(Some(code)),
        Err(f) => Err(CrosswinError::from_failure("GetExitCodeProcess", &f)),
    }
}

/// A process is running when its exit code could be read and is
/// `STILL_ACTIVE`.
pub fn still_active(exit_code: Option<u32>) -> (b: bool)
    ensures
        b == (exit_code == Some(STILL_ACTIVE)),
{
    match exit_code {
        Some(c) => c == STILL_ACTIVE,
        None => false,
    }
}

/// A zero-timeout wait that times out means the process still runs.
pub fn running_from_wait(wait_result: u32) -> (b: bool)
    ensures
        b == (wait_result == WAIT_TIMEOUT),
{
    wait_result == WAIT_TIMEOUT
}

/// The priority that `GetPriorityClass` reported: its failure value zero is
/// reported with the thread's last error, an unknown class as an invalid
/// parameter.
pub open spec fn is_priority_result(r: Result<ProcessPriority>, value: u32, last_error: u32) -> bool {
    if value == 0 {
        r matches Err(CrosswinError::Win32 { operation, code, message }) && operation@
            == "GetPriorityClass"@ && code == last_error && message@ == "Failed to get priority class"@
    } else {
        match crate::processes::info::priority_from_class_value(value) {
            Some(p) => r == Ok::<ProcessPriority, CrosswinError>(p),
            None => r matches Err(CrosswinError::InvalidParameter { parameter, reason }) && parameter@
                == "priority"@ && reason@ == "Unknown priority class: "@ + crate::text::decimal(
                value as nat,
            ),
        }
    }
}

/// The priority read back from the platform is the one whose class value it
/// reported: the class value of any priority gives that priority, a nonzero
/// value gives a priority only when it is that priority's class value, and
/// any other nonzero value is an invalid parameter.
pub proof fn lemma_priority_result_inverts_class_value(
    r: Result<ProcessPriority>,
    p: ProcessPriority,
    value: u32,
    last_error: u32,
)
    ensures
        is_priority_result(r, crate::processes::info::priority_class_value(p), last_error) ==> r
            == Ok::<ProcessPriority, CrosswinError>(p),
        is_priority_result(r, value, last_error) && value != 0 && r == Ok::<ProcessPriority, CrosswinError>(p)
            ==> crate::processes::info::priority_class_value(p) == value,
        is_priority_result(r, value, last_error) && value != 0 && (forall|q: ProcessPriority|
            crate::processes::info::priority_class_value(q) != value) ==> (r matches Err(
            CrosswinError::InvalidParameter { parameter, reason },
        ) && parameter@ == "priority"@),
        is_priority_result(r, 0, last_error) ==> (r matches Err(CrosswinError::Win32 { code, .. })
            && code == last_error),
{
    crate::processes::info::lemma_priority_class_round_trip(p, p, value);
    if value != 0 {
        match crate::processes::info::priority_from_class_value(value) {
            Some(q) => {
                crate::processes::info::lemma_priority_class_round_trip(q, q, value);
            },
            None => {},
        }
    }
}

/// Interpret the result of `GetPriorityClass`.
pub fn priority_result(value: u32, last_error: u32) -> (r: Result<ProcessPriority>)
    ensures
        is_priority_result(r, value, last_error),
{
    if value == 0 {
        return Err(CrosswinError::win32("GetPriorityClass", last_error, "Failed to get priority class"));
    }
    match ProcessPriority::from_windows_constant(value) {
        Some(p) => Ok(p),
        None => {
            let mut reason = String::from_str("Unknown priority class: ");
            crate::text::push_decimal(&mut reason, value as u64);
            Err(CrosswinError::invalid_parameter("priority", reason.as_str()))
        },
    }
}

/// Suspending or resuming a process touches every thread; it succeeds when
/// every thread was handled, and otherwise reports the first thread's
/// failure as the Win32 error of `operation`.
pub fn combine_thread_outcomes(operation: &str, outcomes: &Vec<Option<OsFailure>>) -> (r: Result<()>)
    ensures
        (forall|i: int| 0 <= i < outcomes@.len() ==> outcomes@[i] is None) ==> r is Ok,
        forall|i: int|
            0 <= i < outcomes@.len() && #[trigger] outcomes@[i] is Some && (forall|j: int|
                0 <= j < i ==> outcomes@[j] is None) ==> (r matches Err(e)
                && crate::error::is_win32_failure(e, operation@, outcomes@[i]->0)),
{
    let mut i: usize = 0;
    while i < outcomes.len()
        invariant
            i <= outcomes@.len(),
            forall|j: int| 0 <= j < i ==> outcomes@[j] is None,
        decreases outcomes@.len() - i,
    {
        match &outcomes[i] {
            Some(f) => {
                let e = CrosswinError::from_failure(operation, f);
                proof {
                    assert forall|k: int|
                        0 <= k < outcomes@.len() && #[trigger] outcomes@[k] is Some && (forall|j: int|
                            0 <= j < k ==> outcomes@[j] is None) implies k == i by {
                        if k < i {
                        } else if k > i {
                            assert(outcomes@[i as int] is Some);
                        }
                    }
                }
                return Err(e);
            },
            None => {},
        }
        i = i + 1;
    }
    Ok(())
}

impl Process {
    /// A process value from the handle the platform opened and its PID.
    pub fn from_parts(handle: Option<ProcessHandle>, pid: u32) -> (p: Process)
        ensures
            p@.pid == pid,
            p@.handle == match handle {
                Some(h) => Some(h@),
                None => None::<isize>,
            },
    {
        Process { handle, pid }
    }

    /// The current process: the pseudo-handle that stands for the calling
    /// process (-1) and its PID as the platform reports it.
    pub fn current(current_pid: u32) -> (r: Result<Self>)
        ensures
            r matches Ok(p) && p@.pid == current_pid && p@.handle == Some(CURRENT_PROCESS_HANDLE),
    {
        Ok(Process { handle: Some(ProcessHandle::from_raw(CURRENT_PROCESS_HANDLE)), pid: current_pid })
    }

    /// Open a process: `os_open` asks the platform for a handle to `pid`
    /// with the access mask of `access`; a refusal is classified by
    /// `open_error`.
    pub fn open<F>(pid: u32, access: ProcessAccess, os_open: F) -> (r: Result<Self>) where
        F: FnOnce(u32, u32) -> std::result::Result<isize, OsFailure>,
        requires
            forall|mask: u32, id: u32| #[trigger] call_requires(os_open, (mask, id)),
        ensures
            exists|ans: std::result::Result<isize, OsFailure>|
                #[trigger] call_ensures(os_open, (access_mask(access), pid), ans) && match ans {
                    Ok(h) => r matches Ok(p) && p@.pid == pid && p@.handle == Some(h),
                    Err(f) => r matches Err(e) && is_open_error(e, pid, f),
                },
    {
        let mask = access.to_windows_flags();
        let ans = os_open(mask, pid);
        match ans {
            Ok(h) => Ok(Process { handle: Some(ProcessHandle::from_raw(h)), pid }),
            Err(f) => Err(open_error(pid, &f)),
        }
    }

    /// Get the process ID.
    pub fn pid(&self) -> (pid: u32)
        ensures
            pid == self@.pid,
    {
        self.pid
    }

    /// Get the process handle (if available).
    pub fn handle(&self) -> (h: Option<&ProcessHandle>)
        ensures
            h is Some == self@.handle is Some,
            h matches Some(x) ==> self@.handle == Some(x@),
    {
        match &self.handle {
            Some(h) => Some(h),
            None => None,
        }
    }

    /// The handle an operation needs, or the error that it is missing.
    pub fn require_handle(&self) -> (r: Result<&ProcessHandle>)
        ensures
            self@.handle is None ==> (r matches Err(e) && crate::error::is_missing_handle(e)),
            self@.handle matches Some(raw) ==> (r matches Ok(h) && h@ == raw),
    {
        match &self.handle {
            Some(h) => Ok(h),
            None => Err(CrosswinError::missing_handle()),
        }
    }

    /// Terminate the process with the given exit code: `os_terminate` asks
    /// the platform to end the process behind the handle.
    pub fn terminate<F>(&self, exit_code: u32, os_terminate: F) -> (r: Result<()>) where
        F: FnOnce(isize, u32) -> std::result::Result<(), OsFailure>,
        requires
            forall|h: isize, c: u32| #[trigger] call_requires(os_terminate, (h, c)),
        ensures
            self@.handle is None ==> (r matches Err(e) && crate::error::is_missing_handle(e)),
            self@.handle matches Some(h) ==> exists|ans: std::result::Result<(), OsFailure>|
                #[trigger] call_ensures(os_terminate, (h, exit_code), ans) && unit_outcome(
                    r,
                    "TerminateProcess"@,
                    ans,
                ),
    {
        let h = self.require_handle()?;
        let ans = os_terminate(h.as_handle().raw().0, exit_code);
        unit_result("TerminateProcess", ans)
    }

    /// Suspend every thread of the process: `os_snapshot` lists the threads
    /// of the system, and `os_suspend` is handed the IDs of the threads of
    /// the process, each once and in snapshot order, suspends each one and
    /// reports its outcome. The first failure is reported.
    pub fn suspend<S, T>(&self, os_snapshot: S, os_suspend: T) -> (r: Result<()>) where
        S: FnOnce() -> std::result::Result<Vec<ThreadInfo>, OsFailure>,
        T: FnOnce(Vec<u32>) -> Vec<Option<OsFailure>>,
        requires
            call_requires(os_snapshot, ()),
            forall|ids: Vec<u32>| #[trigger] call_requires(os_suspend, (ids,)),
        ensures
            touched_every_thread(r, self@.pid, os_snapshot, os_suspend, "SuspendThread"@),
    {
        touch_threads(self.pid, os_snapshot, os_suspend, "SuspendThread")
    }

    /// Resume every thread of the process: `os_snapshot` lists the threads of
    /// the system, and `os_resume` is handed the IDs of the threads of the
    /// process, each once and in snapshot order, resumes each one and reports
    /// its outcome. The first failure is reported.
    pub fn resume<S, T>(&self, os_snapshot: S, os_resume: T) -> (r: Result<()>) where
        S: FnOnce() -> std::result::Result<Vec<ThreadInfo>, OsFailure>,
        T: FnOnce(Vec<u32>) -> Vec<Option<OsFailure>>,
        requires
            call_requires(os_snapshot, ()),
            forall|ids: Vec<u32>| #[trigger] call_requires(os_resume, (ids,)),
        ensures
            touched_every_thread(r, self@.pid, os_snapshot, os_resume, "ResumeThread"@),
    {
        touch_threads(self.pid, os_snapshot, os_resume, "ResumeThread")
    }

    /// Wait for the process to exit, at most `timeout_ms` milliseconds (no
    /// limit when `None`): `os_wait` waits on the handle with a time limit,
    /// and `os_exit_code` reads the exit code once the process has exited.
    pub fn wait_for_exit<W, X>(&self, timeout_ms: Option<u32>, os_wait: W, os_exit_code: X) -> (r: Result<Option<u32>>) where
        W: FnOnce(isize, u32) -> u32,
        X: FnOnce(isize) -> std::result::Result<u32, OsFailure>,
        requires
            forall|h: isize, t: u32| #[trigger] call_requires(os_wait, (h, t)),
            forall|h: isize| #[trigger] call_requires(os_exit_code, (h,)),
        ensures
            self@.handle is None ==> (r matches Err(e) && crate::error::is_missing_handle(e)),
            self@.handle matches Some(h) ==> exists|w: u32|
                #[trigger] call_ensures(os_wait, (h, timeout_value(timeout_ms)), w) && if w
                    == WAIT_OBJECT_0 {
                    exists|read: std::result::Result<u32, OsFailure>|
                        #[trigger] call_ensures(os_exit_code, (h,), read) && exit_code_outcome(r, read)
                } else {
                    is_wait_step(WaitStep::Finished(r), w)
                },
    {
        let h = self.require_handle()?.as_handle().raw().0;
        let w = os_wait(h, wait_timeout(timeout_ms));
        match wait_step(w) {
            WaitStep::ReadExitCode => {
                let read = os_exit_code(h);
                exit_code_result(read)
            },
            WaitStep::Finished(result) => result,
        }
    }

    /// Whether the process still runs: a wait on its handle with no time
    /// allowed (`os_wait`) times out. A process without a handle does not
    /// count as running.
    pub fn is_running<W>(&self, os_wait: W) -> (b: bool) where
        W: FnOnce(isize, u32) -> u32,
        requires
            forall|h: isize, t: u32| #[trigger] call_requires(os_wait, (h, t)),
        ensures
            self@.handle is None ==> !b,
            self@.handle matches Some(h) ==> exists|w: u32|
                #[trigger] call_ensures(os_wait, (h, 0u32), w) && b == (w == WAIT_TIMEOUT),
    {
        match &self.handle {
            Some(h) => {
                let w = os_wait(h.as_handle().raw().0, 0);
                running_from_wait(w)
            },
            None => false,
        }
    }

    /// Get memory information for the process: `os_counters` reads the
    /// working set, peak working set, page-file usage and peak page-file
    /// usage of the process behind the handle.
    pub fn get_memory_info<F>(&self, os_counters: F) -> (r: Result<MemoryInfo>) where
        F: FnOnce(isize) -> std::result::Result<(usize, usize, usize, usize), OsFailure>,
        requires
            forall|h: isize| #[trigger] call_requires(os_counters, (h,)),
        ensures
            self@.handle is None ==> (r matches Err(e) && crate::error::is_missing_handle(e)),
            self@.handle matches Some(h) ==> exists|ans: std::result::Result<(usize, usize, usize, usize), OsFailure>|
                #[trigger] call_ensures(os_counters, (h,), ans) && match ans {
                    Ok(c) => r matches Ok(m) && m.working_set_size == c.0
                        && m.peak_working_set_size == c.1 && m.page_file_usage == c.2
                        && m.peak_page_file_usage == c.3,
                    Err(f) => r matches Err(e) && crate::error::is_win32_failure(
                        e,
                        "GetProcessMemoryInfo"@,
                        f,
                    ),
                },
    {
        let h = self.require_handle()?.as_handle().raw().0;
        match os_counters(h) {
            Ok(c) => Ok(crate::processes::list::memory_info_from_counters(c.0, c.1, c.2, c.3)),
            Err(f) => Err(CrosswinError::from_failure("GetProcessMemoryInfo", &f)),
        }
    }

    /// Get the priority class of the process: `os_priority` reads the class
    /// value of the process behind the handle, and with it the thread's last
    /// error (read when the value is the failure value zero).
    pub fn get_priority<F>(&self, os_priority: F) -> (r: Result<ProcessPriority>) where
        F: FnOnce(isize) -> (u32, u32),
        requires
            forall|h: isize| #[trigger] call_requires(os_priority, (h,)),
        ensures
            self@.handle is None ==> (r matches Err(e) && crate::error::is_missing_handle(e)),
            self@.handle matches Some(h) ==> exists|ans: (u32, u32)|
                #[trigger] call_ensures(os_priority, (h,), ans) && is_priority_result(
                    r,
                    ans.0,
                    ans.1,
                ),
    {
        let h = self.require_handle()?.as_handle().raw().0;
        let (value, last_error) = os_priority(h);
        priority_result(value, last_error)
    }

    /// Set the priority class of the process: `os_set` hands the Win32 class
    /// value of `priority` to the platform for the process behind the handle.
    pub fn set_priority<F>(&self, priority: ProcessPriority, os_set: F) -> (r: Result<()>) where
        F: FnOnce(isize, u32) -> std::result::Result<(), OsFailure>,
        requires
            forall|h: isize, v: u32| #[trigger] call_requires(os_set, (h, v)),
        ensures
            self@.handle is None ==> (r matches Err(e) && crate::error::is_missing_handle(e)),
            self@.handle matches Some(h) ==> exists|ans: std::result::Result<(), OsFailure>|
                #[trigger] call_ensures(
                    os_set,
                    (h, crate::processes::info::priority_class_value(priority)),
                    ans,
                ) && unit_outcome(r, "SetPriorityClass"@, ans),
    {
        let h = self.require_handle()?.as_handle().raw().0;
        let ans = os_set(h, priority.to_windows_constant());
        unit_result("SetPriorityClass", ans)
    }
}

/// The pseudo-handle by which a process names itself (`GetCurrentProcess`).
pub const CURRENT_PROCESS_HANDLE: isize = -1;

/// The time limit a wait uses for an optional timeout.
pub open spec fn timeout_value(timeout_ms: Option<u32>) -> u32 {
    match timeout_ms {
        Some(ms) => ms,
        None => INFINITE,
    }
}

/// The result of a call that reports only success or a failure: `Ok`, or the
/// Win32 error of `operation`.
pub open spec fn unit_outcome(r: Result<()>, operation: Seq<char>, ans: std::result::Result<(), OsFailure>) -> bool {
    match ans {
        Ok(()) => r is Ok,
        Err(f) => r matches Err(e) && crate::error::is_win32_failure(e, operation, f),
    }
}

/// Report the answer of a call that succeeds or fails.
pub fn unit_result(operation: &str, ans: std::result::Result<(), OsFailure>) -> (r: Result<()>)
    ensures
        unit_outcome(r, operation@, ans),
{
    match ans {
        Ok(()) => Ok(()),
        Err(f) => Err(CrosswinError::from_failure(operation, &f)),
    }
}

/// The result of reading the exit code of a process that has exited.
pub open spec fn exit_code_outcome(r: Result<Option<u32>>, read: std::result::Result<u32, OsFailure>) -> bool {
    match read {
        Ok(code) => r matches Ok(Some(c)) && c == code,
        Err(f) => r matches Err(e) && crate::error::is_win32_failure(e, "GetExitCodeProcess"@, f),
    }
}

/// The result of touching the threads `ids` with the given outcomes: `Ok`
/// when none failed, else the Win32 error of `operation` for the first
/// failure.
pub open spec fn threads_outcome(r: Result<()>, operation: Seq<char>, outcomes: Seq<Option<OsFailure>>) -> bool {
    &&& (forall|i: int| 0 <= i < outcomes.len() ==> outcomes[i] is None) ==> r is Ok
    &&& forall|i: int|
        0 <= i < outcomes.len() && #[trigger] outcomes[i] is Some && (forall|j: int|
            0 <= j < i ==> outcomes[j] is None) ==> (r matches Err(e)
            && crate::error::is_win32_failure(e, operation, outcomes[i]->0))
}

/// Where some outcome failed, a first failed outcome exists.
proof fn lemma_first_failure_exists(outcomes: Seq<Option<OsFailure>>, j: int) -> (k: int)
    requires
        0 <= j < outcomes.len(),
        outcomes[j] is Some,
    ensures
        0 <= k <= j,
        outcomes[k] is Some,
        forall|m: int| 0 <= m < k ==> #[trigger] outcomes[m] is None,
    decreases j,
{
    if exists|m: int| 0 <= m < j && #[trigger] outcomes[m] is Some {
        let m = choose|m: int| 0 <= m < j && #[trigger] outcomes[m] is Some;
        lemma_first_failure_exists(outcomes, m)
    } else {
        j
    }
}

/// Touching threads succeeds exactly when no thread failed, and otherwise
/// reports the code and text of the first thread that failed.
pub proof fn lemma_first_thread_failure(r: Result<()>, operation: Seq<char>, outcomes: Seq<Option<OsFailure>>, i: int)
    requires
        threads_outcome(r, operation, outcomes),
    ensures
        r is Ok ==> forall|j: int| 0 <= j < outcomes.len() ==> #[trigger] outcomes[j] is None,
        (0 <= i < outcomes.len() && outcomes[i] is Some && forall|j: int|
            0 <= j < i ==> #[trigger] outcomes[j] is None) ==> (r matches Err(CrosswinError::Win32 {
            code,
            message,
            ..
        }) && code == outcomes[i]->0.code && message@ == outcomes[i]->0.message@),
{
    if r is Ok {
        assert forall|j: int| 0 <= j < outcomes.len() implies #[trigger] outcomes[j] is None by {
            if outcomes[j] is Some {
                let k = lemma_first_failure_exists(outcomes, j);
                assert(outcomes[k] is Some);
            }
        }
    }
}

/// The IDs of the threads of process `pid` in a thread snapshot, in order.
pub open spec fn thread_ids_of(entries: Seq<ThreadInfo>, pid: u32) -> Seq<u32> {
    entries.filter(crate::windows::thread::owned_by(pid)).map_values(|t: ThreadInfo| t.thread_id)
}

/// Suspending or resuming the threads of `pid`: a failed snapshot is the
/// Win32 error of `CreateToolhelp32Snapshot`; otherwise `os_touch` was handed
/// the IDs of the threads of `pid`, in snapshot order, and the result is
/// `threads_outcome` of the outcomes it reported.
pub open spec fn touched_every_thread<S, T>(
    r: Result<()>,
    pid: u32,
    os_snapshot: S,
    os_touch: T,
    operation: Seq<char>,
) -> bool where
    S: FnOnce() -> std::result::Result<Vec<ThreadInfo>, OsFailure>,
    T: FnOnce(Vec<u32>) -> Vec<Option<OsFailure>>,
 {
    exists|snap: std::result::Result<Vec<ThreadInfo>, OsFailure>|
        #[trigger] call_ensures(os_snapshot, (), snap) && match snap {
            Err(f) => r matches Err(e) && crate::error::is_win32_failure(
                e,
                "CreateToolhelp32Snapshot"@,
                f,
            ),
            Ok(entries) => exists|ids: Vec<u32>, outcomes: Vec<Option<OsFailure>>|
                ids@ == thread_ids_of(entries@, pid) && #[trigger] call_ensures(
                    os_touch,
                    (ids,),
                    outcomes,
                ) && threads_outcome(r, operation, outcomes@),
        }
}

fn touch_threads<S, T>(pid: u32, os_snapshot: S, os_touch: T, operation: &str) -> (r: Result<()>) where
    S: FnOnce() -> std::result::Result<Vec<ThreadInfo>, OsFailure>,
    T: FnOnce(Vec<u32>) -> Vec<Option<OsFailure>>,
    requires
        call_requires(os_snapshot, ()),
        forall|ids: Vec<u32>| #[trigger] call_requires(os_touch, (ids,)),
    ensures
        touched_every_thread(r, pid, os_snapshot, os_touch, operation@),
{
    let snap = os_snapshot();
    match snap {
        Err(f) => Err(CrosswinError::from_failure("CreateToolhelp32Snapshot", &f)),
        Ok(entries) => {
            let ghost all = entries@;
            let mine = threads_of_process(entries, pid);
            let ids = thread_ids(&mine);
            assert(ids@ == thread_ids_of(all, pid));
            let ghost handed = ids;
            let outcomes = os_touch(ids);
            assert(call_ensures(os_touch, (handed,), outcomes));
            let r = combine_thread_outcomes(operation, &outcomes);
            assert(threads_outcome(r, operation@, outcomes@));
            r
        },
    }
}

/// What suspending or resuming one thread reports: a thread that could not
/// be opened fails with the failure of the open; a touch that returned the
/// failure value `u32::MAX` fails with the thread's last error and a text
/// naming the thread; any other previous suspend count is success.
pub fn thread_touch_outcome(opened: std::result::Result<u32, OsFailure>, last_error: u32, thread_id: u32) -> (o: Option<OsFailure>)
    ensures
        match opened {
            Err(f) => o == Some(f),
            Ok(previous) => if previous == u32::MAX {
                o matches Some(f) && f.code == last_error && f.message@ == "thread "@
                    + crate::text::decimal(thread_id as nat)
            } else {
                o is None
            },
        },
{
    match opened {
        Err(f) => Some(f),
        Ok(previous) => {
            if previous == u32::MAX {
                let mut message = String::from_str("thread ");
                crate::text::push_decimal(&mut message, thread_id as u64);
                Some(OsFailure { code: last_error, message })
            } else {
                None
            }
        },
    }
}

} // verus!
