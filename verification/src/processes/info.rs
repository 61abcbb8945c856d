//! What the library knows about a process: the snapshot record, its priority
//! class, its memory counters and its CPU times.
use vstd::prelude::*;
use crate::time::Duration;

verus! {

/// Process priority class.
#[derive(Debug, Clone, Copy, PartialEq, Eq, Structural)]
pub enum ProcessPriority {
    Idle,
    BelowNormal,
    Normal,
    AboveNormal,
    High,
    Realtime,
}

/// The Win32 priority-class value of each priority (`IDLE_PRIORITY_CLASS`
/// and its siblings).
pub open spec fn priority_class_value(p: ProcessPriority) -> u32 {
    match p {
        ProcessPriority::Idle => 0x40,
        ProcessPriority::BelowNormal => 0x4000,
        ProcessPriority::Normal => 0x20,
        ProcessPriority::AboveNormal => 0x8000,
        ProcessPriority::High => 0x80,
        ProcessPriority::Realtime => 0x100,
    }
}

/// The priority whose Win32 priority-class value is `value`, if any.
pub open spec fn priority_from_class_value(value: u32) -> Option<ProcessPriority> {
    if value == 0x40 {
        Some(ProcessPriority::Idle)
    } else if value == 0x4000 {
        Some(ProcessPriority::BelowNormal)
    } else if value == 0x20 {
        Some(ProcessPriority::Normal)
    } else if value == 0x8000 {
        Some(ProcessPriority::AboveNormal)
    } else if value == 0x80 {
        Some(ProcessPriority::High)
    } else if value == 0x100 {
        Some(ProcessPriority::Realtime)
    } else {
        None
    }
}

/// Reading a priority back from its class value gives the same priority,
/// and a class value names a priority only when it is that priority's
/// value: the two tables are inverse, and no two priorities share a value.
pub proof fn lemma_priority_class_round_trip(p: ProcessPriority, q: ProcessPriority, v: u32)
    ensures
        priority_from_class_value(priority_class_value(p)) == Some(p),
        priority_from_class_value(v) == Some(p) ==> priority_class_value(p) == v,
        priority_class_value(p) == priority_class_value(q) ==> p == q,
{
}

/// The human-readable name of a priority.
pub open spec fn priority_name(p: ProcessPriority) -> Seq<char> {
    match p {
        ProcessPriority::Idle => "Idle"@,
        ProcessPriority::BelowNormal => "BelowNormal"@,
        ProcessPriority::Normal => "Normal"@,
        ProcessPriority::AboveNormal => "AboveNormal"@,
        ProcessPriority::High => "High"@,
        ProcessPriority::Realtime => "Realtime"@,
    }
}

impl ProcessPriority {
    /// Get the Windows priority class constant.
    pub fn to_windows_constant(&self) -> (v: u32)
        ensures
            v == priority_class_value(*self),
    {
        match self {
            ProcessPriority::Idle => 0x40,
            ProcessPriority::BelowNormal => 0x4000,
            ProcessPriority::Normal => 0x20,
            ProcessPriority::AboveNormal => 0x8000,
            ProcessPriority::High => 0x80,
            ProcessPriority::Realtime => 0x100,
        }
    }

    /// Create from a Windows priority class constant.
    pub fn from_windows_constant(value: u32) -> (p: Option<Self>)
        ensures
            p == priority_from_class_value(value),
    {
        if value == 0x40 {
            Some(ProcessPriority::Idle)
        } else if value == 0x4000 {
            Some(ProcessPriority::BelowNormal)
        } else if value == 0x20 {
            Some(ProcessPriority::Normal)
        } else if value == 0x8000 {
            Some(ProcessPriority::AboveNormal)
        } else if value == 0x80 {
            Some(ProcessPriority::High)
        } else if value == 0x100 {
            Some(ProcessPriority::Realtime)
        } else {
            None
        }
    }

    /// The human-readable name of the priority.
    pub fn name(&self) -> (s: &'static str)
        ensures
            s@ == priority_name(*self),
    {
        match self {
            ProcessPriority::Idle => "Idle",
            ProcessPriority::BelowNormal => "BelowNormal",
            ProcessPriority::Normal => "Normal",
            ProcessPriority::AboveNormal => "AboveNormal",
            ProcessPriority::High => "High",
            ProcessPriority::Realtime => "Realtime",
        }
    }

    /// The human-readable name of the priority, as an owned string.
    pub fn to_string(&self) -> (s: String)
        ensures
            s@ == priority_name(*self),
    {
        String::from_str(self.name())
    }
}

/// Converting a priority to its Win32 value and back gives the priority
/// again, and only the six priority values convert to a priority.
pub proof fn lemma_priority_round_trip(p: ProcessPriority, value: u32)
    ensures
        priority_from_class_value(priority_class_value(p)) == Some(p),
        priority_from_class_value(value) matches Some(q) ==> priority_class_value(q) == value,
{
}

/// Comprehensive information about a running process.
#[derive(Debug, Clone)]
pub struct ProcessInfo {
    /// Process ID.
    pub pid: u32,
    /// Process name (executable name).
    pub name: String,
    /// Full path to the executable.
    pub executable_path: Option<String>,
    /// Parent process ID.
    pub parent_pid: Option<u32>,
    /// Memory usage in bytes (working set size).
    pub memory_usage: Option<u64>,
    /// User mode CPU time.
    pub user_cpu_time: Option<Duration>,
    /// Kernel mode CPU time.
    pub kernel_cpu_time: Option<Duration>,
    /// Number of threads.
    pub thread_count: Option<u32>,
    /// Process priority class.
    pub priority_class: Option<ProcessPriority>,
    /// Process creation time.
    pub creation_time: Option<std::time::SystemTime>,
}

/// Total CPU time of a process in nanoseconds: the sum of the times that are
/// known, or `None` when neither is.
pub open spec fn total_cpu_nanos(p: ProcessInfo) -> Option<nat> {
    match (p.user_cpu_time, p.kernel_cpu_time) {
        (Some(u), Some(k)) => Some(u@ + k@),
        (Some(u), None) => Some(u@),
        (None, Some(k)) => Some(k@),
        (None, None) => None,
    }
}

/// The CPU times of the process can be added without overflow.
pub open spec fn cpu_time_fits(p: ProcessInfo) -> bool {
    match (p.user_cpu_time, p.kernel_cpu_time) {
        (Some(u), Some(k)) => u@ + k@ <= crate::time::max_duration_nanos(),
        _ => true,
    }
}

/// A record with only a PID and a name.
pub open spec fn is_basic(p: ProcessInfo, pid: u32, name: Seq<char>) -> bool {
    &&& p.pid == pid
    &&& p.name@ == name
    &&& p.executable_path is None
    &&& p.parent_pid is None
    &&& p.memory_usage is None
    &&& p.user_cpu_time is None
    &&& p.kernel_cpu_time is None
    &&& p.thread_count is None
    &&& p.priority_class is None
    &&& p.creation_time is None
}

impl ProcessInfo {
    /// Create a basic `ProcessInfo` with just PID and name.
    pub fn basic(pid: u32, name: String) -> (p: Self)
        ensures
            is_basic(p, pid, name@),
    {
        ProcessInfo {
            pid,
            name,
            executable_path: None,
            parent_pid: None,
            memory_usage: None,
            user_cpu_time: None,
            kernel_cpu_time: None,
            thread_count: None,
            priority_class: None,
            creation_time: None,
        }
    }

    /// Get total CPU time (user + kernel).
    pub fn total_cpu_time(&self) -> (t: Option<Duration>)
        requires
            cpu_time_fits(*self),
        ensures
            t is Some == total_cpu_nanos(*self) is Some,
            t matches Some(d) ==> total_cpu_nanos(*self) == Some(d@),
    {
        match (self.user_cpu_time, self.kernel_cpu_time) {
            (Some(user), Some(kernel)) => Some(user.plus(&kernel)),
            (Some(user), None) => Some(user),
            (None, Some(kernel)) => Some(kernel),
            (None, None) => None,
        }
    }

    /// Whether the user and kernel CPU times add up without overflow.
    pub fn cpu_time_fits(&self) -> (b: bool)
        ensures
            b == cpu_time_fits(*self),
    {
        match (self.user_cpu_time, self.kernel_cpu_time) {
            (Some(user), Some(kernel)) => user.checked_add(&kernel).is_some(),
            _ => true,
        }
    }

    /// Whether the process still runs: `os_exit_code` opens the process by
    /// its PID with limited query access and reads its exit code (`None` when
    /// either step fails); the process runs when that code is `STILL_ACTIVE`.
    pub fn is_alive<F>(&self, os_exit_code: F) -> (b: bool) where F: FnOnce(u32, u32) -> Option<u32>,
        requires
            call_requires(os_exit_code, (self.pid, 0x1000u32)),
        ensures
            exists|code: Option<u32>|
                #[trigger] call_ensures(os_exit_code, (self.pid, 0x1000u32), code) && b == (code
                    == Some(crate::windows::process::STILL_ACTIVE)),
    {
        let code = os_exit_code(self.pid, 0x1000);
        crate::windows::process::still_active(code)
    }

    /// Total CPU time in nanoseconds, zero when unknown.
    pub fn total_cpu_nanos_or_zero(&self) -> (n: u128)
        requires
            cpu_time_fits(*self),
        ensures
            n as nat == match total_cpu_nanos(*self) {
                Some(t) => t,
                None => 0,
            },
    {
        match self.total_cpu_time() {
            Some(d) => d.as_nanos(),
            None => 0,
        }
    }
}

/// Detailed memory statistics for a process.
#[derive(Debug, Clone, Copy)]
pub struct MemoryInfo {
    /// Current working set size in bytes.
    pub working_set_size: u64,
    /// Peak working set size in bytes.
    pub peak_working_set_size: u64,
    /// Page file usage in bytes.
    pub page_file_usage: u64,
    /// Peak page file usage in bytes.
    pub peak_page_file_usage: u64,
}

/// CPU time information for a process.
#[derive(Debug, Clone, Copy)]
pub struct CpuTimes {
    /// Time spent in user mode.
    pub user_time: Duration,
    /// Time spent in kernel mode.
    pub kernel_time: Duration,
    /// Process creation time.
    pub creation_time: std::time::SystemTime,
    /// Process exit time (if terminated).
    pub exit_time: Option<std::time::SystemTime>,
}

impl CpuTimes {
    /// Get total CPU time.
    pub fn total(&self) -> (t: Duration)
        requires
            self.user_time@ + self.kernel_time@ <= crate::time::max_duration_nanos(),
        ensures
            t@ == self.user_time@ + self.kernel_time@,
    {
        self.user_time.plus(&self.kernel_time)
    }
}

} // verus!
