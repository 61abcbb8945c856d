//! The items most programs using the library need.
pub use crate::error::{CrosswinError, Result};
pub use crate::processes::{
    process_by_name, process_by_pid, processes_by_name, CpuTimes, MemoryInfo, ProcessFilter,
    ProcessInfo, ProcessPriority, SortOrder,
};
pub use crate::time::Duration;
pub use crate::windows::process::{Process, ProcessAccess};
pub use crate::windows::system::{
    get_boot_time, get_memory_status, get_system_info, get_system_uptime, SystemInfo,
};
pub use crate::windows::thread::{threads_of_process, Thread, ThreadInfo};
pub use crate::windows::window::{
    get_window_text, windows_by_class, windows_by_process, windows_by_title, Window, WindowFilter,
    WindowInfo,
};
