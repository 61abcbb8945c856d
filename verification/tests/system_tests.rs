use crosswin::error::{CrosswinError, OsFailure};
use crosswin::processes::list::{
    cpu_times_from_filetimes, exe_name_from_entry, executable_path_from_query,
    filetime_intervals, filetime_to_duration, representable_filetime, filetime_to_system_time, memory_info_from_counters,
    priority_from_class, process_info_from_entry, processes_from_snapshot, FileTime,
    ProcessDetails, ProcessEntry,
};
use crosswin::processes::ProcessPriority;
use crosswin::time::Duration;
use crosswin::windows::system::{
    boot_time_at, boot_time_from_uptime, get_boot_time, portable_system_info, get_memory_status, get_system_info, get_system_uptime,
    memory_status_info, system_info_from, uptime_from_ticks, MemoryStatus,
};
use crosswin::windows::thread::{thread_ids, threads_of_process, Thread, ThreadInfo};
use std::time::{SystemTime, UNIX_EPOCH};

fn sample_status() -> MemoryStatus {
    MemoryStatus {
        total_phys: 16 << 30,
        avail_phys: 4 << 30,
        memory_load: 75,
        total_virtual: 128 << 40,
        avail_virtual: 100 << 40,
    }
}

#[test]
fn system_info_from_the_platform() {
    let info = get_system_info(|| (12, 4096), || Ok(sample_status())).unwrap();
    assert_eq!((info.cpu_count, info.page_size), (12, 4096));
    assert_eq!(info.total_physical_bytes, Some(16 << 30));
    assert_eq!(info.memory_load_percent, Some(75));
    let no_memory = get_system_info(|| (2, 65536), || Err(OsFailure { code: 87, message: "bad".to_string() }));
    let no_memory = no_memory.unwrap();
    assert_eq!((no_memory.cpu_count, no_memory.page_size), (2, 65536));
    assert!(no_memory.total_physical_bytes.is_none() && no_memory.available_virtual_bytes.is_none());
    let portable = portable_system_info().unwrap();
    assert!(portable.cpu_count >= 1);
    assert_eq!(portable.page_size, 4096);
    assert!(portable.total_physical_bytes.is_none() && portable.memory_load_percent.is_none());
}

#[test]
fn memory_status_and_uptime_from_the_platform() {
    let polled = get_memory_status(|| Ok(sample_status())).unwrap();
    assert!(polled.cpu_count >= 1);
    assert_eq!(polled.page_size, 4096);
    assert_eq!(polled.available_physical_bytes, Some(4 << 30));
    assert_eq!(
        get_memory_status(|| Err(OsFailure { code: 8, message: "no memory".to_string() })).unwrap_err(),
        CrosswinError::win32("GlobalMemoryStatusEx", 8, "no memory")
    );
    assert_eq!(get_system_uptime(|| 90_500).unwrap(), Duration::from_millis(90_500));
    let boot = get_boot_time(|| 120_000).unwrap();
    let age = SystemTime::now().duration_since(boot).unwrap();
    assert!(age.as_secs() >= 120 && age.as_secs() < 3600);
}

#[test]
fn system_info_from_memory_status() {
    let mem = MemoryStatus {
        total_phys: 16 << 30,
        avail_phys: 4 << 30,
        memory_load: 75,
        total_virtual: 128 << 40,
        avail_virtual: 100 << 40,
    };
    let info = system_info_from(8, 65536, Some(mem));
    assert_eq!((info.cpu_count, info.page_size), (8, 65536));
    assert_eq!(info.total_physical_bytes, Some(16 << 30));
    assert_eq!(info.available_physical_bytes, Some(4 << 30));
    assert_eq!(info.memory_load_percent, Some(75));
    assert_eq!(info.total_virtual_bytes, Some(128 << 40));
    assert_eq!(info.available_virtual_bytes, Some(100 << 40));
    let polled = memory_status_info(mem);
    assert_eq!(polled.page_size, 4096);
    assert_eq!(polled.memory_load_percent, Some(75));
    let none = system_info_from(2, 4096, None);
    assert!(none.available_virtual_bytes.is_none());
}

#[test]
fn uptime_and_boot_time() {
    assert_eq!(uptime_from_ticks(1500), Duration::from_millis(1500));
    let boot = boot_time_from_uptime(Duration::from_secs(60)).unwrap();
    let now = SystemTime::now();
    let age = now.duration_since(boot).unwrap();
    assert!(age.as_secs() >= 60 && age.as_secs() < 3600);
    let fixed = UNIX_EPOCH + std::time::Duration::from_secs(1_000);
    assert_eq!(
        boot_time_at(fixed, Duration::from_secs(400)).unwrap(),
        UNIX_EPOCH + std::time::Duration::from_secs(600)
    );
}

#[test]
fn durations() {
    assert_eq!(Duration::new(1, 1_500_000_000), Duration::new(2, 500_000_000));
    assert_eq!(Duration::from_millis(2500).as_secs(), 2);
    assert_eq!(Duration::from_millis(2500).subsec_nanos(), 500_000_000);
    assert_eq!(Duration::from_nanos(7).as_nanos(), 7);
    assert_eq!(Duration::from_secs(u64::MAX).checked_add(&Duration::from_secs(1)), None);
    assert_eq!(
        Duration::new(1, 600_000_000).checked_add(&Duration::new(0, 600_000_000)),
        Some(Duration::new(2, 200_000_000))
    );
    assert!(Duration::from_millis(999).is_shorter_than(&Duration::from_secs(1)));
    assert!(!Duration::from_secs(1).is_shorter_than(&Duration::from_secs(1)));
}

#[test]
fn filetimes() {
    let ft = FileTime { low: 0x0000_0001, high: 0x0000_0002 };
    assert_eq!(filetime_intervals(&ft), 0x2_0000_0001);
    // 1.5 s of CPU time is 15,000,000 intervals of 100 ns.
    let cpu = FileTime { low: 15_000_000, high: 0 };
    assert_eq!(filetime_to_duration(&cpu), Duration::from_millis(1500));
    // 2021-01-01T00:00:00Z is 132539328000000000 intervals after 1601.
    let n: u64 = 132_539_328_000_000_000 + 1234;
    let when = FileTime { low: n as u32, high: (n >> 32) as u32 };
    let t = filetime_to_system_time(&when);
    let since = t.duration_since(UNIX_EPOCH).unwrap();
    assert_eq!(since.as_secs(), 1_609_459_200);
    assert_eq!(since.subsec_nanos(), 123_400);
    // Points before 1970 count as the epoch.
    assert_eq!(filetime_to_system_time(&FileTime { low: 5, high: 0 }), UNIX_EPOCH);
    let zero = FileTime { low: 0, high: 0 };
    let times = cpu_times_from_filetimes(&when, &zero, &cpu, &FileTime { low: 10, high: 0 });
    assert_eq!(times.kernel_time, Duration::from_millis(1500));
    assert_eq!(times.user_time, Duration::from_nanos(1000));
    assert!(times.exit_time.is_none());
    assert_eq!(times.creation_time, t);
    let exited = cpu_times_from_filetimes(&when, &when, &zero, &zero);
    assert_eq!(exited.exit_time, Some(t));
    assert!(representable_filetime(&when));
    assert!(representable_filetime(&FileTime { low: 5, high: 0 }));
    assert!(!representable_filetime(&FileTime { low: u32::MAX, high: u32::MAX }));
    // The last interval count a signed 64-bit 100-ns clock can name.
    let last = FileTime { low: u32::MAX, high: 0x7FFF_FFFF };
    assert!(representable_filetime(&last));
    assert!(filetime_to_system_time(&last) > filetime_to_system_time(&when));
    assert!(!representable_filetime(&FileTime { low: 0, high: 0x8000_0000 }));
}

#[test]
fn counters_priorities_and_names() {
    let m = memory_info_from_counters(10, 20, 30, 40);
    assert_eq!(
        (m.working_set_size, m.peak_working_set_size, m.page_file_usage, m.peak_page_file_usage),
        (10, 20, 30, 40)
    );
    assert_eq!(priority_from_class(0), None);
    assert_eq!(priority_from_class(0x80), Some(ProcessPriority::High));
    assert_eq!(priority_from_class(3), None);
    let mut raw = [0u16; 260];
    for (i, u) in "notepad.exe".encode_utf16().enumerate() {
        raw[i] = u;
    }
    raw[20] = 0x41;
    assert_eq!(exe_name_from_entry(&raw), "notepad.exe");
    let full: Vec<u16> = "ab".encode_utf16().collect();
    assert_eq!(exe_name_from_entry(&full), "ab");
    assert_eq!(exe_name_from_entry(&[0xD800u16, 0x61]), "\u{FFFD}a");
    let path: Vec<u16> = "C:\\x.exe\0junk".encode_utf16().collect();
    assert_eq!(executable_path_from_query(true, &path, 8), Some("C:\\x.exe".to_string()));
    assert_eq!(executable_path_from_query(false, &path, 8), None);
    assert_eq!(executable_path_from_query(true, &path, 0), None);
}

fn entry(pid: u32, name: &str) -> ProcessEntry {
    let mut exe_file: Vec<u16> = name.encode_utf16().collect();
    exe_file.resize(260, 0);
    ProcessEntry { pid, parent_pid: 4, thread_count: 3, exe_file, details: ProcessDetails::unavailable() }
}

#[test]
fn snapshot_entries_become_records() {
    let mut with_details = entry(8, "svc.exe");
    with_details.details.memory = Some(memory_info_from_counters(1, 2, 3, 4));
    with_details.details.priority = Some(ProcessPriority::Normal);
    with_details.details.executable_path = Some("C:\\svc.exe".to_string());
    let p = process_info_from_entry(with_details.clone());
    assert_eq!((p.pid, p.name.as_str()), (8, "svc.exe"));
    assert_eq!((p.parent_pid, p.thread_count, p.memory_usage), (Some(4), Some(3), Some(1)));
    assert_eq!(p.priority_class, Some(ProcessPriority::Normal));
    assert_eq!(p.executable_path.as_deref(), Some("C:\\svc.exe"));
    assert!(p.user_cpu_time.is_none() && p.creation_time.is_none());
    let list = processes_from_snapshot(vec![entry(0, "[System Process]"), entry(4, "System"), with_details]);
    let pids: Vec<u32> = list.iter().map(|p| p.pid).collect();
    assert_eq!(pids, vec![4, 8]);
    assert_eq!(list[0].name, "System");
}

#[test]
fn threads_of_a_process() {
    let t = |thread_id, process_id| ThreadInfo { thread_id, process_id, base_priority: 8 };
    let all = vec![t(1, 10), t(2, 20), t(3, 10)];
    let mine = threads_of_process(all.clone(), 10);
    assert_eq!(thread_ids(&mine), vec![1, 3]);
    assert!(threads_of_process(all, 0xFFFF_FF00).is_empty());
    let current = Thread::current().unwrap();
    assert_eq!(current.handle().map(|h| h.raw().0), Some(-2));
}
