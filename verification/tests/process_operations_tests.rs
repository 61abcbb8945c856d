use crosswin::error::{CrosswinError, OsFailure};
use crosswin::prelude::{Process, ProcessAccess, ProcessPriority};
use windows::Win32::System::Threading as t;
use crosswin::windows::handles::ProcessHandle;
use crosswin::windows::thread::ThreadInfo;
use crosswin::windows::process::{
    combine_thread_outcomes, exit_code_result, thread_touch_outcome, open_error, priority_result, still_active,
    wait_step, wait_timeout, WaitStep,
};

#[test]
fn test_process_priority_conversion() {
    let priorities = [
        ProcessPriority::Idle,
        ProcessPriority::BelowNormal,
        ProcessPriority::Normal,
        ProcessPriority::AboveNormal,
        ProcessPriority::High,
        ProcessPriority::Realtime,
    ];

    for priority in &priorities {
        let constant = priority.to_windows_constant();
        let restored = ProcessPriority::from_windows_constant(constant);
        assert_eq!(restored, Some(*priority), "Priority should round-trip: {:?}", priority);
    }
}

#[test]
fn priority_constants_are_the_win32_values() {
    assert_eq!(ProcessPriority::Idle.to_windows_constant(), t::IDLE_PRIORITY_CLASS.0);
    assert_eq!(ProcessPriority::BelowNormal.to_windows_constant(), t::BELOW_NORMAL_PRIORITY_CLASS.0);
    assert_eq!(ProcessPriority::Normal.to_windows_constant(), t::NORMAL_PRIORITY_CLASS.0);
    assert_eq!(ProcessPriority::AboveNormal.to_windows_constant(), t::ABOVE_NORMAL_PRIORITY_CLASS.0);
    assert_eq!(ProcessPriority::High.to_windows_constant(), t::HIGH_PRIORITY_CLASS.0);
    assert_eq!(ProcessPriority::Realtime.to_windows_constant(), t::REALTIME_PRIORITY_CLASS.0);
    assert_eq!(ProcessPriority::from_windows_constant(0), None);
    assert_eq!(ProcessPriority::from_windows_constant(0x21), None);
}

#[test]
fn access_masks_are_the_win32_values() {
    assert_eq!(ProcessAccess::QueryLimitedInformation.to_windows_flags(), t::PROCESS_QUERY_LIMITED_INFORMATION.0);
    assert_eq!(ProcessAccess::QueryInformation.to_windows_flags(), t::PROCESS_QUERY_INFORMATION.0);
    assert_eq!(ProcessAccess::Terminate.to_windows_flags(), t::PROCESS_TERMINATE.0);
    assert_eq!(ProcessAccess::SetInformation.to_windows_flags(), t::PROCESS_SET_INFORMATION.0);
    assert_eq!(ProcessAccess::SuspendResume.to_windows_flags(), t::PROCESS_SUSPEND_RESUME.0);
    assert_eq!(ProcessAccess::AllAccess.to_windows_flags(), t::PROCESS_ALL_ACCESS.0);
    assert_eq!(wait_timeout(None), t::INFINITE);
}

fn not_found(_mask: u32, _pid: u32) -> Result<isize, OsFailure> {
    Err(OsFailure { code: 0x8007_0057, message: "The parameter is incorrect.".to_string() })
}

#[test]
fn test_open_current_process() {
    let process = Process::current(4321).unwrap();
    assert!(process.pid() > 0);
    assert_eq!(process.handle().unwrap().as_handle().raw().0, -1);
}

#[test]
fn test_open_process_by_pid() {
    let current_pid = 4321;
    let process = Process::open(current_pid, ProcessAccess::QueryLimitedInformation, |mask, pid| {
        assert_eq!((mask, pid), (0x1000, current_pid));
        Ok(0x1c4)
    })
    .unwrap();
    assert_eq!(process.pid(), current_pid);
    assert_eq!(process.handle().unwrap().as_handle().raw().0, 0x1c4);
}

#[test]
fn test_open_invalid_process() {
    let result = Process::open(9999999, ProcessAccess::QueryLimitedInformation, not_found);
    assert!(result.is_err(), "Should fail to open non-existent process");
    assert_eq!(result.unwrap_err(), CrosswinError::process_not_found(9999999));
    let denied = Process::open(4, ProcessAccess::AllAccess, |mask, _| {
        assert_eq!(mask, 0x001F_FFFF);
        Err(failure(0x8007_0005, "Access is denied."))
    });
    assert_eq!(denied.unwrap_err(), CrosswinError::access_denied("process", Some(4)));
}

#[test]
fn test_get_memory_info() {
    let current_pid = 4321;
    let process = Process::open(current_pid, ProcessAccess::QueryInformation, |_, _| Ok(0x20)).unwrap();
    let mem_info = process.get_memory_info(|h| {
        assert_eq!(h, 0x20);
        Ok((8 << 20, 9 << 20, 4 << 20, 5 << 20))
    })
    .unwrap();
    assert!(mem_info.working_set_size > 0, "Working set should be positive");
    assert!(mem_info.peak_working_set_size >= mem_info.working_set_size);
    assert_eq!((mem_info.page_file_usage, mem_info.peak_page_file_usage), (4 << 20, 5 << 20));
    let failed = process.get_memory_info(|_| Err(failure(6, "The handle is invalid.")));
    assert_eq!(failed.unwrap_err(), CrosswinError::win32("GetProcessMemoryInfo", 6, "The handle is invalid."));
}

#[test]
fn test_get_priority() {
    let process = Process::current(4321).unwrap();
    let priority = process.get_priority(|h| {
        assert_eq!(h, -1);
        (0x20, 0)
    });
    assert_eq!(priority.unwrap(), ProcessPriority::Normal);
    assert_eq!(
        process.get_priority(|_| (0, 5)).unwrap_err(),
        CrosswinError::win32("GetPriorityClass", 5, "Failed to get priority class")
    );
}

#[test]
fn test_set_priority() {
    let process = Process::current(4321).unwrap();
    let current_priority = process.get_priority(|_| (0x80, 0)).unwrap_or(ProcessPriority::Normal);
    assert_eq!(current_priority, ProcessPriority::High);
    process
        .set_priority(current_priority, |h, class| {
            assert_eq!((h, class), (-1, 0x80));
            Ok(())
        })
        .unwrap();
    assert_eq!(
        process.set_priority(ProcessPriority::Realtime, |_, _| Err(failure(5, "denied"))).unwrap_err(),
        CrosswinError::win32("SetPriorityClass", 5, "denied")
    );
}

#[test]
fn operations_without_a_handle_report_it() {
    let process = Process::from_parts(None, 77);
    let missing = CrosswinError::missing_handle();
    assert_eq!(process.terminate(0, |_, _| Ok(())).unwrap_err(), missing);
    assert_eq!(process.wait_for_exit(Some(10), |_, _| 0, |_| Ok(0)).unwrap_err(), missing);
    assert_eq!(process.get_memory_info(|_| Ok((1, 1, 1, 1))).unwrap_err(), missing);
    assert_eq!(process.get_priority(|_| (0x20, 0)).unwrap_err(), missing);
    assert_eq!(process.set_priority(ProcessPriority::High, |_, _| Ok(())).unwrap_err(), missing);
    assert!(!process.is_running(|_, _| 0x102));
}

#[test]
fn terminate_hands_over_the_exit_code() {
    let process = Process::from_parts(Some(ProcessHandle::from_raw(0x30)), 9);
    process
        .terminate(3, |h, code| {
            assert_eq!((h, code), (0x30, 3));
            Ok(())
        })
        .unwrap();
    assert_eq!(
        process.terminate(1, |_, _| Err(failure(5, "denied"))).unwrap_err(),
        CrosswinError::win32("TerminateProcess", 5, "denied")
    );
}

#[test]
fn wait_for_exit_outcomes() {
    let process = Process::from_parts(Some(ProcessHandle::from_raw(0x40)), 9);
    let exited = process.wait_for_exit(
        None,
        |h, t| {
            assert_eq!((h, t), (0x40, 0xFFFF_FFFF));
            0
        },
        |_| Ok(7),
    );
    assert_eq!(exited.unwrap(), Some(7));
    let timed_out = process.wait_for_exit(Some(25), |_, t| {
        assert_eq!(t, 25);
        0x102
    }, |_| panic!("no exit code is read after a timeout"));
    assert_eq!(timed_out.unwrap(), None);
    assert_eq!(
        process.wait_for_exit(Some(1), |_, _| 0xFFFF_FFFF, |_| Ok(0)).unwrap_err(),
        CrosswinError::win32("WaitForSingleObject", 0xFFFF_FFFF, "Wait failed")
    );
    assert_eq!(
        process.wait_for_exit(Some(1), |_, _| 0, |_| Err(failure(6, "bad"))).unwrap_err(),
        CrosswinError::win32("GetExitCodeProcess", 6, "bad")
    );
    assert!(process.is_running(|_, t| {
        assert_eq!(t, 0);
        0x102
    }));
    assert!(!process.is_running(|_, _| 0));
}

#[test]
fn suspend_tries_every_thread_and_reports_the_first_failure() {
    let process = Process::from_parts(Some(ProcessHandle::from_raw(0x50)), 10);
    let snapshot = || {
        Ok(vec![
            ThreadInfo { thread_id: 1, process_id: 10, base_priority: 8 },
            ThreadInfo { thread_id: 2, process_id: 20, base_priority: 8 },
            ThreadInfo { thread_id: 3, process_id: 10, base_priority: 8 },
            ThreadInfo { thread_id: 4, process_id: 10, base_priority: 8 },
        ])
    };
    let handed = std::cell::RefCell::new(Vec::new());
    let result = process.suspend(snapshot, |ids: Vec<u32>| {
        handed.borrow_mut().extend(ids.iter().copied());
        ids.iter().map(|&id| if id == 1 { None } else { Some(failure(id, "failed")) }).collect()
    });
    assert_eq!(result.unwrap_err(), CrosswinError::win32("SuspendThread", 3, "failed"));
    assert_eq!(*handed.borrow(), vec![1, 3, 4]);
    assert!(process.resume(snapshot, |ids: Vec<u32>| ids.iter().map(|_| None).collect()).is_ok());
    assert_eq!(
        process.resume(|| Err(failure(8, "no snapshot")), |_: Vec<u32>| Vec::new()).unwrap_err(),
        CrosswinError::win32("CreateToolhelp32Snapshot", 8, "no snapshot")
    );
}

#[test]
fn one_thread_touch_is_classified() {
    assert!(thread_touch_outcome(Ok(0), 0, 12).is_none());
    assert!(thread_touch_outcome(Ok(3), 0, 12).is_none());
    let failed = thread_touch_outcome(Ok(u32::MAX), 5, 12).unwrap();
    assert_eq!((failed.code, failed.message.as_str()), (5, "thread 12"));
    let unopened = thread_touch_outcome(Err(failure(87, "bad thread")), 0, 12).unwrap();
    assert_eq!((unopened.code, unopened.message.as_str()), (87, "bad thread"));
}

#[test]
fn handle_is_required_for_operations() {
    let without = Process::from_parts(None, 5);
    assert_eq!(without.require_handle().unwrap_err(), CrosswinError::missing_handle());
    let with = Process::from_parts(Some(ProcessHandle::from_raw(44)), 5);
    assert_eq!(with.handle().unwrap().as_handle().raw().0, 44);
    assert!(with.require_handle().is_ok());
}

fn failure(code: u32, message: &str) -> OsFailure {
    OsFailure { code, message: message.to_string() }
}

#[test]
fn open_failures_are_classified() {
    assert_eq!(
        open_error(12, &failure(0x8007_0005, "denied")),
        CrosswinError::access_denied("process", Some(12))
    );
    assert_eq!(open_error(12, &failure(0x8007_0057, "bad")), CrosswinError::process_not_found(12));
    assert_eq!(
        open_error(12, &failure(0x8000_4005, "unspecified")),
        CrosswinError::win32("OpenProcess", 0x8000_4005, "unspecified")
    );
}

#[test]
fn wait_results_are_interpreted() {
    assert!(matches!(wait_step(0), WaitStep::ReadExitCode));
    assert!(matches!(wait_step(0x102), WaitStep::Finished(Ok(None))));
    match wait_step(0xFFFF_FFFF) {
        WaitStep::Finished(Err(e)) => {
            assert_eq!(e, CrosswinError::win32("WaitForSingleObject", 0xFFFF_FFFF, "Wait failed"))
        }
        _ => panic!("a failed wait is an error"),
    }
    assert_eq!(wait_timeout(Some(250)), 250);
    assert_eq!(exit_code_result(Ok(3)).unwrap(), Some(3));
    assert_eq!(
        exit_code_result(Err(failure(6, "invalid handle"))).unwrap_err(),
        CrosswinError::win32("GetExitCodeProcess", 6, "invalid handle")
    );
    assert!(still_active(Some(259)));
    assert!(!still_active(Some(0)));
    assert!(!still_active(None));
}

#[test]
fn priority_results_are_interpreted() {
    assert_eq!(priority_result(0x20, 0).unwrap(), ProcessPriority::Normal);
    assert_eq!(
        priority_result(0, 5).unwrap_err(),
        CrosswinError::win32("GetPriorityClass", 5, "Failed to get priority class")
    );
    assert_eq!(
        priority_result(7, 0).unwrap_err(),
        CrosswinError::invalid_parameter("priority", "Unknown priority class: 7")
    );
}

#[test]
fn thread_failures_report_the_first() {
    assert!(combine_thread_outcomes("SuspendThread", &vec![None, None]).is_ok());
    assert!(combine_thread_outcomes("SuspendThread", &Vec::new()).is_ok());
    let outcomes = vec![None, Some(failure(5, "first")), Some(failure(6, "second"))];
    assert_eq!(
        combine_thread_outcomes("ResumeThread", &outcomes).unwrap_err(),
        CrosswinError::win32("ResumeThread", 5, "first")
    );
}
