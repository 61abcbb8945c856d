use crosswin::processes::{ProcessFilter, ProcessInfo, ProcessPriority, SortOrder};
use crosswin::time::Duration;

fn make_process(pid: u32, name: &str) -> ProcessInfo {
    ProcessInfo::basic(pid, name.to_string())
}

#[test]
fn test_filter_builder_name() {
    let filter = ProcessFilter::new().name_contains("test");

    let mut p = make_process(1, "test.exe");
    p.memory_usage = Some(2048);
    p.thread_count = Some(3);
    assert!(filter.matches(&p));

    let p2 = make_process(2, "other.exe");
    assert!(!filter.matches(&p2));
}

#[test]
fn test_filter_memory_range() {
    let filter = ProcessFilter::new().min_memory(1024).max_memory(4096);

    let mut p = make_process(1, "a.exe");
    p.memory_usage = Some(2048);
    assert!(filter.matches(&p));

    let mut too_small = make_process(2, "b.exe");
    too_small.memory_usage = Some(512);
    assert!(!filter.matches(&too_small));

    let mut too_large = make_process(3, "c.exe");
    too_large.memory_usage = Some(8192);
    assert!(!filter.matches(&too_large));
}

#[test]
fn test_filter_priority() {
    let filter = ProcessFilter::new().priority(ProcessPriority::Normal);

    let mut p_normal = make_process(1, "a.exe");
    p_normal.priority_class = Some(ProcessPriority::Normal);
    assert!(filter.matches(&p_normal));

    let mut p_high = make_process(2, "b.exe");
    p_high.priority_class = Some(ProcessPriority::High);
    assert!(!filter.matches(&p_high));

    let p_unknown = make_process(3, "c.exe");
    assert!(!filter.matches(&p_unknown));
}

#[test]
fn test_filter_cpu_time() {
    let min = Duration::from_secs(5);
    let filter = ProcessFilter::new().min_cpu_time(min);

    let mut p_long = make_process(1, "a.exe");
    p_long.user_cpu_time = Some(Duration::from_secs(10));
    p_long.kernel_cpu_time = Some(Duration::from_secs(0));
    assert!(filter.matches(&p_long));

    let mut p_short = make_process(2, "b.exe");
    p_short.user_cpu_time = Some(Duration::from_secs(2));
    p_short.kernel_cpu_time = Some(Duration::from_secs(1));
    assert!(!filter.matches(&p_short));

    let p_none = make_process(3, "c.exe");
    assert!(!filter.matches(&p_none));
}

#[test]
fn test_filter_max_cpu_time_no_data_passes() {
    let max = Duration::from_secs(10);
    let filter = ProcessFilter::new().max_cpu_time(max);

    let p_none = make_process(1, "a.exe");
    assert!(filter.matches(&p_none));
}

#[test]
fn test_sort_order_default() {
    let filter = ProcessFilter::new();
    assert_eq!(filter.sort_order(), SortOrder::Unsorted);
}

// ─── Further scenarios ───────────────────────────────────────────────────────

#[test]
fn name_filter_is_case_insensitive() {
    let filter = ProcessFilter::new().name_contains("CHROME");
    assert!(filter.matches(&make_process(1, "chrome.exe")));
    assert!(filter.matches(&make_process(2, "GoogleChrome.EXE")));
    assert!(!filter.matches(&make_process(3, "firefox.exe")));
    // The empty name is contained in every name.
    assert!(ProcessFilter::new().name_contains("").matches(&make_process(4, "x")));
}

#[test]
fn missing_values_fail_minimum_and_pass_maximum() {
    let p = make_process(1, "a.exe");
    assert!(!ProcessFilter::new().min_memory(0).matches(&p));
    assert!(ProcessFilter::new().max_memory(0).matches(&p));
    assert!(!ProcessFilter::new().min_threads(0).matches(&p));
    assert!(!ProcessFilter::new().parent_pid(0).matches(&p));
}

#[test]
fn bounds_are_inclusive() {
    let mut p = make_process(1, "a.exe");
    p.memory_usage = Some(100);
    p.thread_count = Some(4);
    p.parent_pid = Some(9);
    p.user_cpu_time = Some(Duration::from_millis(1500));
    assert!(ProcessFilter::new().min_memory(100).max_memory(100).matches(&p));
    assert!(ProcessFilter::new().min_threads(4).matches(&p));
    assert!(!ProcessFilter::new().min_threads(5).matches(&p));
    assert!(ProcessFilter::new().parent_pid(9).matches(&p));
    assert!(!ProcessFilter::new().parent_pid(8).matches(&p));
    let exact = Duration::new(1, 500_000_000);
    assert!(ProcessFilter::new().min_cpu_time(exact).max_cpu_time(exact).matches(&p));
    assert!(!ProcessFilter::new().max_cpu_time(Duration::from_secs(1)).matches(&p));
}

fn snapshot() -> Vec<ProcessInfo> {
    let specs: [(u32, &str, Option<u64>, Option<u64>); 5] = [
        (30, "c.exe", Some(300), Some(1)),
        (10, "a.exe", None, Some(5)),
        (20, "b.exe", Some(300), None),
        (50, "e.exe", Some(100), Some(5)),
        (40, "d.exe", Some(900), Some(2)),
    ];
    specs
        .iter()
        .map(|(pid, name, mem, cpu)| {
            let mut p = make_process(*pid, name);
            p.memory_usage = *mem;
            p.user_cpu_time = cpu.map(Duration::from_secs);
            p
        })
        .collect()
}

fn pids(v: &[ProcessInfo]) -> Vec<u32> {
    v.iter().map(|p| p.pid).collect()
}

#[test]
fn apply_keeps_snapshot_order_by_default() {
    let out = ProcessFilter::new().apply(snapshot());
    assert_eq!(pids(&out), vec![30, 10, 20, 50, 40]);
}

#[test]
fn apply_sorts_by_pid() {
    let out = ProcessFilter::new().sort_by_pid().apply(snapshot());
    assert_eq!(pids(&out), vec![10, 20, 30, 40, 50]);
}

#[test]
fn apply_sorts_by_memory_descending_and_stably() {
    let out = ProcessFilter::new().sort_by_memory().apply(snapshot());
    // 30 and 20 share 300 bytes and keep their snapshot order; no data counts as zero.
    assert_eq!(pids(&out), vec![40, 30, 20, 50, 10]);
}

#[test]
fn apply_sorts_by_cpu_descending_and_stably() {
    let out = ProcessFilter::new().sort_by_cpu().apply(snapshot());
    assert_eq!(pids(&out), vec![10, 50, 40, 30, 20]);
}

#[test]
fn apply_filters_before_sorting() {
    let out = ProcessFilter::new().min_memory(200).sort_by_pid().apply(snapshot());
    assert_eq!(pids(&out), vec![20, 30, 40]);
    let none = ProcessFilter::new().name_contains("zzz").apply(snapshot());
    assert!(none.is_empty());
    assert!(ProcessFilter::new().sort_by_cpu().apply(Vec::new()).is_empty());
}

#[test]
fn sort_order_never_changes_which_processes_come_back() {
    let base = ProcessFilter::new().min_memory(1);
    let mut expected = pids(&base.clone().apply(snapshot()));
    expected.sort();
    for sorted in [base.clone().sort_by_pid(), base.clone().sort_by_memory(), base.clone().sort_by_cpu()] {
        for p in snapshot() {
            assert_eq!(sorted.matches(&p), base.matches(&p));
        }
        let mut got = pids(&sorted.apply(snapshot()));
        got.sort();
        assert_eq!(got, expected);
    }
}

#[test]
fn cpu_time_is_read_only_after_the_other_criteria_accept() {
    let mut huge = make_process(9, "other.exe");
    huge.user_cpu_time = Some(Duration::from_secs(u64::MAX));
    huge.kernel_cpu_time = Some(Duration::from_secs(u64::MAX));
    let rejected_by_name = ProcessFilter::new().name_contains("test").min_cpu_time(Duration::from_secs(1));
    assert!(rejected_by_name.can_read_cpu_time(&huge));
    assert!(!rejected_by_name.matches(&huge));
    assert!(rejected_by_name.apply(vec![huge.clone()]).is_empty());
    let reaches_cpu = ProcessFilter::new().name_contains("other").min_cpu_time(Duration::from_secs(1));
    assert!(!reaches_cpu.can_read_cpu_time(&huge));
}
