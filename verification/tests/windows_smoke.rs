use crosswin::windows::handles::{Handle, ProcessHandle, RawHandle, ThreadHandle};

#[test]
fn construct_handle_from_raw() {
    let handle = Handle::from_raw(0);
    assert_eq!(handle.raw().0, 0);
    assert!(!handle.is_valid());
}

#[test]
fn test_invalid_handle_detection() {
    let null_handle = Handle::from_raw(0);
    assert!(!null_handle.is_valid());

    let invalid_handle = Handle::from_raw(-1);
    assert!(!invalid_handle.is_valid());

    let valid_handle = Handle::from_raw(100);
    assert!(valid_handle.is_valid());
}

#[test]
fn typed_handles_keep_their_value() {
    assert!(RawHandle(-2).is_valid());
    assert_eq!(Handle::from_raw(77).into_raw(), 77);
    let p = ProcessHandle::from_raw(12);
    assert_eq!(p.as_handle().raw(), RawHandle(12));
    assert_eq!(p.into_raw(), 12);
    let t = ThreadHandle::from_raw(-1);
    assert!(!t.as_handle().is_valid());
    assert_eq!(t.into_raw(), -1);
}

#[test]
fn windows_handle_conversions() {
    let h = Handle::from_windows_handle(windows::Win32::Foundation::HANDLE(0x44));
    assert_eq!(h.raw().0, 0x44);
    assert_eq!(h.as_windows_handle().0, 0x44);
    assert_eq!(RawHandle(7).as_windows_handle().0, 7);
    assert_eq!(ProcessHandle::from_windows_handle(windows::Win32::Foundation::HANDLE(9)).into_raw(), 9);
    assert_eq!(ThreadHandle::from_windows_handle(windows::Win32::Foundation::HANDLE(10)).into_raw(), 10);
}
