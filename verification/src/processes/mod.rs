//! Process records, their filters and the snapshot logic.
pub mod filter;
pub mod info;
pub mod list;

pub use filter::{process_by_name, process_by_pid, processes_by_name, ProcessFilter, SortOrder};
pub use info::{CpuTimes, MemoryInfo, ProcessInfo, ProcessPriority};
