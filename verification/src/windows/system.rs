//! System-wide information: CPU count, page size, memory status, uptime and
//! boot time.
use vstd::prelude::*;
use crate::error::{CrosswinError, OsFailure, Result};
use crate::time::time_minus;
use crate::time::Duration;

verus! {

/// `num_cpus::get`: the number of logical CPUs available to the process. The
/// count depends on the machine, its affinity mask and its cgroup limits;
/// the crate documents that it is never less than one, and nothing more is
/// claimed.
#[verifier::external_body]
fn logical_cpu_count() -> (n: usize)
    ensures
        n >= 1,
{
    num_cpus::get()
}

/// System-wide hardware and memory information.
#[derive(Debug, Clone)]
pub struct SystemInfo {
    /// Logical CPU count.
    pub cpu_count: usize,
    /// Virtual memory page size in bytes.
    pub page_size: usize,
    /// Total installed physical memory in bytes.
    pub total_physical_bytes: Option<u64>,
    /// Currently available physical memory in bytes.
    pub available_physical_bytes: Option<u64>,
    /// Memory load as a percentage (0–100).
    pub memory_load_percent: Option<u32>,
    /// Total virtual address space in bytes.
    pub total_virtual_bytes: Option<u64>,
    /// Available virtual address space in bytes.
    pub available_virtual_bytes: Option<u64>,
}

/// The fields of `MEMORYSTATUSEX` that the library reports.
#[derive(Debug, Clone, Copy)]
pub struct MemoryStatus {
    pub total_phys: u64,
    pub avail_phys: u64,
    pub memory_load: u32,
    pub total_virtual: u64,
    pub avail_virtual: u64,
}

/// The page size assumed where the platform does not report one.
pub const DEFAULT_PAGE_SIZE: usize = 4096;

/// `info` carries the CPU count and page size given and the memory status,
/// when there is one (else no memory figure at all).
pub open spec fn describes(info: SystemInfo, cpu_count: usize, page_size: usize, mem: Option<MemoryStatus>) -> bool {
    &&& info.cpu_count == cpu_count
    &&& info.page_size == page_size
    &&& match mem {
        Some(m) => {
            &&& info.total_physical_bytes == Some(m.total_phys)
            &&& info.available_physical_bytes == Some(m.avail_phys)
            &&& info.memory_load_percent == Some(m.memory_load)
            &&& info.total_virtual_bytes == Some(m.total_virtual)
            &&& info.available_virtual_bytes == Some(m.avail_virtual)
        },
        None => {
            &&& info.total_physical_bytes is None
            &&& info.available_physical_bytes is None
            &&& info.memory_load_percent is None
            &&& info.total_virtual_bytes is None
            &&& info.available_virtual_bytes is None
        },
    }
}

/// Assemble system information from the CPU layout and, when the memory
/// query succeeded, the memory status.
pub fn system_info_from(cpu_count: usize, page_size: usize, mem: Option<MemoryStatus>) -> (info: SystemInfo)
    ensures
        describes(info, cpu_count, page_size, mem),
{
    match mem {
        Some(m) => SystemInfo {
            cpu_count,
            page_size,
            total_physical_bytes: Some(m.total_phys),
            available_physical_bytes: Some(m.avail_phys),
            memory_load_percent: Some(m.memory_load),
            total_virtual_bytes: Some(m.total_virtual),
            available_virtual_bytes: Some(m.avail_virtual),
        },
        None => SystemInfo {
            cpu_count,
            page_size,
            total_physical_bytes: None,
            available_physical_bytes: None,
            memory_load_percent: None,
            total_virtual_bytes: None,
            available_virtual_bytes: None,
        },
    }
}

/// System information from what the platform reports: `os_system` gives
/// the processor count and the page size, `os_memory` the memory status.
/// The memory figures are present when the memory query succeeded, and all
/// absent when it failed; the result is never an error.
pub fn get_system_info<S, M>(os_system: S, os_memory: M) -> (r: Result<SystemInfo>) where
    S: FnOnce() -> (u32, u32),
    M: FnOnce() -> std::result::Result<MemoryStatus, OsFailure>,
    requires
        call_requires(os_system, ()),
        call_requires(os_memory, ()),
    ensures
        exists|layout: (u32, u32), mem: std::result::Result<MemoryStatus, OsFailure>|
            #[trigger] call_ensures(os_system, (), layout) && #[trigger] call_ensures(
                os_memory,
                (),
                mem,
            ) && (r matches Ok(info) && describes(
                info,
                layout.0 as usize,
                layout.1 as usize,
                match mem {
                    Ok(m) => Some(m),
                    Err(_) => None,
                },
            )),
{
    let (processors, page_size) = os_system();
    let mem = os_memory();
    let status = match mem {
        Ok(m) => Some(m),
        Err(_) => None,
    };
    Ok(system_info_from(processors as usize, page_size as usize, status))
}

/// System information where no platform query is available: the logical
/// CPU count (at least one), the default page size and no memory figures.
pub fn portable_system_info() -> (r: Result<SystemInfo>)
    ensures
        r matches Ok(info) && info.cpu_count >= 1 && describes(info, info.cpu_count, DEFAULT_PAGE_SIZE, None),
{
    let cpus = logical_cpu_count();
    Ok(system_info_from(cpus, DEFAULT_PAGE_SIZE, None))
}

/// The information a memory-status poll reports: the memory status with
/// the logical CPU count (at least one) and the default page size.
pub fn memory_status_info(mem: MemoryStatus) -> (info: SystemInfo)
    ensures
        info.cpu_count >= 1,
        describes(info, info.cpu_count, DEFAULT_PAGE_SIZE, Some(mem)),
{
    let cpus = logical_cpu_count();
    system_info_from(cpus, DEFAULT_PAGE_SIZE, Some(mem))
}

/// Poll the memory status alone: `os_memory` queries it, and its failure
/// is reported as the Win32 error of `GlobalMemoryStatusEx`.
pub fn get_memory_status<M>(os_memory: M) -> (r: Result<SystemInfo>) where
    M: FnOnce() -> std::result::Result<MemoryStatus, OsFailure>,
    requires
        call_requires(os_memory, ()),
    ensures
        exists|mem: std::result::Result<MemoryStatus, OsFailure>|
            #[trigger] call_ensures(os_memory, (), mem) && match mem {
                Ok(m) => r matches Ok(info) && info.cpu_count >= 1 && describes(
                    info,
                    info.cpu_count,
                    DEFAULT_PAGE_SIZE,
                    Some(m),
                ),
                Err(f) => r matches Err(e) && crate::error::is_win32_failure(
                    e,
                    "GlobalMemoryStatusEx"@,
                    f,
                ),
            },
{
    match os_memory() {
        Ok(m) => Ok(memory_status_info(m)),
        Err(f) => Err(CrosswinError::from_failure("GlobalMemoryStatusEx", &f)),
    }
}

/// The uptime that a millisecond tick count reports.
pub fn uptime_from_ticks(ms: u64) -> (d: Duration)
    ensures
        d@ == (ms as nat) * 1_000_000,
{
    Duration::from_millis(ms)
}

/// The system uptime: the milliseconds since boot that `os_ticks` reports.
pub fn get_system_uptime<T>(os_ticks: T) -> (r: Result<Duration>) where T: FnOnce() -> u64,
    requires
        call_requires(os_ticks, ()),
    ensures
        exists|ms: u64|
            #[trigger] call_ensures(os_ticks, (), ms) && (r matches Ok(d) && d@ == (ms as nat)
                * 1_000_000),
{
    let ms = os_ticks();
    Ok(uptime_from_ticks(ms))
}

/// The error for a boot time before the earliest point in time the platform
/// can represent.
pub open spec fn is_unrepresentable_boot_time(e: CrosswinError) -> bool {
    e matches CrosswinError::InvalidParameter { parameter, reason } && parameter@ == "uptime"@
        && reason@ == "boot time is not representable"@
}

/// The boot time seen at `now`: the point in time `uptime` before it, or the
/// error that the platform cannot represent that point.
pub fn boot_time_at(now: std::time::SystemTime, uptime: Duration) -> (r: Result<std::time::SystemTime>)
    ensures
        match time_minus(now, uptime@) {
            Some(t) => r == Ok::<std::time::SystemTime, CrosswinError>(t),
            None => r matches Err(e) && is_unrepresentable_boot_time(e),
        },
{
    match crate::time::system_time_checked_sub(now, uptime) {
        Some(t) => Ok(t),
        None => Err(CrosswinError::invalid_parameter("uptime", "boot time is not representable")),
    }
}

/// The boot time: the current time minus the uptime. The current time
/// comes from the clock, so the point in time is stated through it: the
/// result is `boot_time_at` of some current time and the uptime.
pub fn boot_time_from_uptime(uptime: Duration) -> (r: Result<std::time::SystemTime>)
    ensures
        exists|now: std::time::SystemTime|
            match #[trigger] time_minus(now, uptime@) {
                Some(t) => r == Ok::<std::time::SystemTime, CrosswinError>(t),
                None => r matches Err(e) && is_unrepresentable_boot_time(e),
            },
{
    let now = crate::time::system_time_now();
    boot_time_at(now, uptime)
}

/// Return the approximate system boot time: the current time minus the
/// uptime that `os_ticks` reports.
pub fn get_boot_time<T>(os_ticks: T) -> (r: Result<std::time::SystemTime>) where T: FnOnce() -> u64,
    requires
        call_requires(os_ticks, ()),
    ensures
        exists|ms: u64, now: std::time::SystemTime|
            #[trigger] call_ensures(os_ticks, (), ms) && match #[trigger] time_minus(
                now,
                (ms as nat) * 1_000_000,
            ) {
                Some(t) => r == Ok::<std::time::SystemTime, CrosswinError>(t),
                None => r matches Err(e) && is_unrepresentable_boot_time(e),
            },
{
    let ms = os_ticks();
    let uptime = uptime_from_ticks(ms);
    boot_time_from_uptime(uptime)
}

} // verus!
