//! Handles, processes, threads, windows and system information.
pub mod handles;
pub mod process;
pub mod system;
pub mod thread;
pub mod window;

pub use process::{Process, ProcessAccess};
pub use system::{get_boot_time, get_memory_status, get_system_info, get_system_uptime, SystemInfo};
pub use thread::{threads_of_process, Thread, ThreadInfo};
pub use window::{
    get_window_text, windows_by_class, windows_by_process, windows_by_title, Window, WindowFilter,
    WindowInfo,
};
