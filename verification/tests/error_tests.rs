use crosswin::error::CrosswinError;

#[test]
fn test_error_display() {
    let err = CrosswinError::win32("test_op", 0x5, "Access denied");
    let display = err.to_string();
    assert!(display.contains("test_op"));
    assert!(display.contains("0x00000005"));
}

#[test]
fn test_access_denied_error() {
    let err = CrosswinError::access_denied("process", Some(1234));
    let display = err.to_string();
    assert!(display.contains("Access denied"));
    assert!(display.contains("1234"));
}

#[test]
fn test_process_not_found_error() {
    let err = CrosswinError::process_not_found(5678);
    let display = err.to_string();
    assert!(display.contains("Process not found"));
    assert!(display.contains("5678"));
}

#[test]
fn test_invalid_parameter_error() {
    let err = CrosswinError::invalid_parameter("timeout", "must be positive");
    let display = err.to_string();
    assert!(display.contains("timeout"));
    assert!(display.contains("must be positive"));
}

#[test]
fn test_timeout_error() {
    let err = CrosswinError::timeout("wait_for_exit", 5000);
    let display = err.to_string();
    assert!(display.contains("Timeout"));
    assert!(display.contains("5000"));
}

#[test]
fn test_io_error_conversion() {
    let io_err = std::io::Error::new(std::io::ErrorKind::NotFound, "file not found");
    let err: CrosswinError = io_err.into();

    match err {
        CrosswinError::Io(_) => (),
        _ => panic!("Should convert to Io error"),
    }
}

#[test]
fn test_process_not_found_equality() {
    let a = CrosswinError::process_not_found(42);
    let b = CrosswinError::process_not_found(42);
    assert_eq!(a, b);
}

#[test]
fn test_process_not_found_different_pid() {
    let a = CrosswinError::process_not_found(42);
    let b = CrosswinError::process_not_found(99);
    assert_ne!(a, b);
}

#[test]
fn test_timeout_equality() {
    let a = CrosswinError::timeout("op", 1000);
    let b = CrosswinError::timeout("op", 1000);
    assert_eq!(a, b);
}

#[test]
fn test_access_denied_equality() {
    let a = CrosswinError::access_denied("resource", Some(10));
    let b = CrosswinError::access_denied("resource", Some(10));
    assert_eq!(a, b);
}

#[test]
fn test_io_errors_compare_by_kind() {
    let e1: CrosswinError = std::io::Error::new(std::io::ErrorKind::NotFound, "a").into();
    let e2: CrosswinError = std::io::Error::new(std::io::ErrorKind::NotFound, "b").into();
    assert_eq!(e1, e2);

    let e3: CrosswinError = std::io::Error::new(std::io::ErrorKind::PermissionDenied, "a").into();
    assert_ne!(e1, e3);
}

#[test]
fn test_non_exhaustive_match_requires_wildcard() {
    let err = CrosswinError::process_not_found(1);
    let _description = match err {
        CrosswinError::ProcessNotFound { pid } => format!("pid {}", pid),
        CrosswinError::Win32 { operation, .. } => format!("win32 {}", operation),
        CrosswinError::Io(_) => "io".to_string(),
        CrosswinError::AccessDenied { .. } => "access denied".to_string(),
        CrosswinError::InvalidParameter { .. } => "invalid param".to_string(),
        CrosswinError::Timeout { .. } => "timeout".to_string(),
        _ => "unknown".to_string(),
    };
}

// ─── Exact renderings and equality laws ──────────────────────────────────────

#[test]
fn error_texts_are_exact() {
    assert_eq!(
        CrosswinError::win32("OpenProcess", 0x8007_0005, "denied").to_string(),
        "Win32 error in OpenProcess: denied (code: 0x80070005)"
    );
    assert_eq!(
        CrosswinError::access_denied("process", Some(7)).to_string(),
        "Access denied to process (PID: 7)"
    );
    assert_eq!(CrosswinError::access_denied("file", None).to_string(), "Access denied to file");
    assert_eq!(CrosswinError::process_not_found(0).to_string(), "Process not found (PID: 0)");
    assert_eq!(
        CrosswinError::invalid_parameter("hwnd", "stale").to_string(),
        "Invalid parameter 'hwnd': stale"
    );
    assert_eq!(
        CrosswinError::timeout("wait", 18446744073709551615).to_string(),
        "Timeout in wait after 18446744073709551615ms"
    );
    let io: CrosswinError = std::io::Error::new(std::io::ErrorKind::Other, "boom").into();
    assert_eq!(io.to_string(), "IO error: boom");
}

#[test]
fn error_equality_distinguishes_variants_and_fields() {
    assert_ne!(CrosswinError::timeout("op", 1), CrosswinError::timeout("op", 2));
    assert_ne!(CrosswinError::timeout("op", 1), CrosswinError::timeout("other", 1));
    assert_ne!(
        CrosswinError::access_denied("r", Some(1)),
        CrosswinError::access_denied("r", None)
    );
    assert_ne!(
        CrosswinError::invalid_parameter("a", "b"),
        CrosswinError::invalid_parameter("a", "c")
    );
    assert_eq!(CrosswinError::win32("op", 3, "m"), CrosswinError::win32("op", 3, "m"));
    assert_ne!(CrosswinError::win32("op", 3, "m"), CrosswinError::win32("op", 4, "m"));
    assert_ne!(CrosswinError::process_not_found(1), CrosswinError::timeout("op", 1));
    let e = CrosswinError::invalid_parameter("x", "y");
    assert_eq!(e, e);
}

#[test]
fn platform_and_handle_errors() {
    assert_eq!(
        CrosswinError::platform_unsupported(),
        CrosswinError::invalid_parameter("platform", "Not supported on this platform")
    );
    assert_eq!(
        CrosswinError::missing_handle(),
        CrosswinError::invalid_parameter("handle", "Process handle is not available")
    );
}

#[test]
fn io_error_keeps_its_source() {
    let err = CrosswinError::from(std::io::Error::new(std::io::ErrorKind::NotFound, "gone"));
    match err {
        CrosswinError::Io(io) => {
            assert_eq!(io.kind, std::io::ErrorKind::NotFound);
            assert_eq!(io.message, "gone");
            assert_eq!(io.source.kind(), std::io::ErrorKind::NotFound);
            assert_eq!(io.source.to_string(), "gone");
        }
        _ => panic!("an I/O error converts to Io"),
    }
}
