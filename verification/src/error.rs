//! The library's error type, its constructors, its equality and its
//! human-readable rendering.
use vstd::prelude::*;
use crate::text::{push_decimal, push_hex_fixed};

verus! {

/// `std::io::Error`, carried opaquely.
#[verifier::external_type_specification]
#[verifier::external_body]
pub struct ExIoError(std::io::Error);

/// `std::io::ErrorKind`, carried opaquely.
#[verifier::external_type_specification]
#[verifier::external_body]
pub struct ExIoErrorKind(std::io::ErrorKind);

/// `std::io::Error::kind`: the category of an I/O error. Nothing is claimed
/// of the result: the error is opaque here.
#[verifier::external_body]
fn io_error_kind(err: &std::io::Error) -> std::io::ErrorKind {
    err.kind()
}

/// `ToString::to_string` on a `std::io::Error`: its `Display` text. Nothing is
/// claimed of the result: for an operating-system error the text comes from
/// the platform's message tables.
#[verifier::external_body]
fn io_error_text(err: &std::io::Error) -> String {
    err.to_string()
}

/// `PartialEq::eq` on `std::io::ErrorKind`. The type is a field-less enum
/// whose equality is derived, so two kinds compare equal exactly when they
/// are the same variant, that is the same value.
#[verifier::external_body]
fn error_kind_eq(a: &std::io::ErrorKind, b: &std::io::ErrorKind) -> (r: bool)
    ensures
        r == (*a == *b),
{
    *a == *b
}

/// An I/O error: its kind, by which two I/O errors compare, its text, and
/// the error itself, kept as the source of the library's error.
#[derive(Debug)]
pub struct IoError {
    pub kind: std::io::ErrorKind,
    pub message: String,
    pub source: std::io::Error,
}

/// The result type of the library's operations.
pub type Result<T> = std::result::Result<T, CrosswinError>;

/// The errors that the library reports.
#[derive(Debug)]
#[non_exhaustive]
pub enum CrosswinError {
    Win32 { operation: String, code: u32, message: String },
    Io(IoError),
    AccessDenied { resource: String, pid: Option<u32> },
    ProcessNotFound { pid: u32 },
    InvalidParameter { parameter: String, reason: String },
    Timeout { operation: String, duration_ms: u64 },
}

/// Two errors are the same when they are the same variant with equal fields;
/// I/O errors are compared by kind alone.
pub open spec fn same_error(a: CrosswinError, b: CrosswinError) -> bool {
    match (a, b) {
        (
            CrosswinError::Win32 { operation: o1, code: c1, message: m1 },
            CrosswinError::Win32 { operation: o2, code: c2, message: m2 },
        ) => o1@ == o2@ && c1 == c2 && m1@ == m2@,
        (CrosswinError::Io(e1), CrosswinError::Io(e2)) => e1.kind == e2.kind,
        (
            CrosswinError::AccessDenied { resource: r1, pid: p1 },
            CrosswinError::AccessDenied { resource: r2, pid: p2 },
        ) => r1@ == r2@ && p1 == p2,
        (CrosswinError::ProcessNotFound { pid: p1 }, CrosswinError::ProcessNotFound { pid: p2 }) => p1
            == p2,
        (
            CrosswinError::InvalidParameter { parameter: p1, reason: r1 },
            CrosswinError::InvalidParameter { parameter: p2, reason: r2 },
        ) => p1@ == p2@ && r1@ == r2@,
        (
            CrosswinError::Timeout { operation: o1, duration_ms: d1 },
            CrosswinError::Timeout { operation: o2, duration_ms: d2 },
        ) => o1@ == o2@ && d1 == d2,
        _ => false,
    }
}

/// The text that the error renders as.
pub open spec fn error_text(e: CrosswinError) -> Seq<char> {
    match e {
        CrosswinError::Win32 { operation, code, message } => "Win32 error in "@ + operation@ + ": "@
            + message@ + " (code: 0x"@ + crate::text::hex_fixed(code as nat, 8) + ")"@,
        CrosswinError::Io(err) => "IO error: "@ + err.message@,
        CrosswinError::AccessDenied { resource, pid } => match pid {
            Some(p) => "Access denied to "@ + resource@ + " (PID: "@ + crate::text::decimal(p as nat) + ")"@,
            None => "Access denied to "@ + resource@,
        },
        CrosswinError::ProcessNotFound { pid } => "Process not found (PID: "@ + crate::text::decimal(pid as nat)
            + ")"@,
        CrosswinError::InvalidParameter { parameter, reason } => "Invalid parameter '"@
            + parameter@ + "': "@ + reason@,
        CrosswinError::Timeout { operation, duration_ms } => "Timeout in "@ + operation@
            + " after "@ + crate::text::decimal(duration_ms as nat) + "ms"@,
    }
}

/// The error that every operation which needs the Win32 platform reports
/// when the library runs elsewhere.
pub open spec fn is_platform_unsupported(e: CrosswinError) -> bool {
    e matches CrosswinError::InvalidParameter { parameter, reason } && parameter@ == "platform"@
        && reason@ == "Not supported on this platform"@
}

/// The error reported when an operation needs a process handle that the
/// value does not hold.
pub open spec fn is_missing_handle(e: CrosswinError) -> bool {
    e matches CrosswinError::InvalidParameter { parameter, reason } && parameter@ == "handle"@
        && reason@ == "Process handle is not available"@
}

fn copy_str(s: &str) -> (r: String)
    ensures
        r@ == s@,
{
    String::from_str(s)
}

impl CrosswinError {
    /// Create a Win32 error with operation context.
    pub fn win32(operation: &str, code: u32, message: &str) -> (e: Self)
        ensures
            e matches CrosswinError::Win32 { operation: o, code: c, message: m } && o@
                == operation@ && c == code && m@ == message@,
    {
        CrosswinError::Win32 { operation: copy_str(operation), code, message: copy_str(message) }
    }

    /// Create an access denied error.
    pub fn access_denied(resource: &str, pid: Option<u32>) -> (e: Self)
        ensures
            e matches CrosswinError::AccessDenied { resource: r, pid: p } && r@ == resource@ && p
                == pid,
    {
        CrosswinError::AccessDenied { resource: copy_str(resource), pid }
    }

    /// Create a process not found error.
    pub fn process_not_found(pid: u32) -> (e: Self)
        ensures
            e == (CrosswinError::ProcessNotFound { pid }),
    {
        CrosswinError::ProcessNotFound { pid }
    }

    /// Create an invalid parameter error.
    pub fn invalid_parameter(parameter: &str, reason: &str) -> (e: Self)
        ensures
            e matches CrosswinError::InvalidParameter { parameter: p, reason: r } && p@
                == parameter@ && r@ == reason@,
    {
        CrosswinError::InvalidParameter { parameter: copy_str(parameter), reason: copy_str(reason) }
    }

    /// Create a timeout error.
    pub fn timeout(operation: &str, duration_ms: u64) -> (e: Self)
        ensures
            e matches CrosswinError::Timeout { operation: o, duration_ms: d } && o@ == operation@
                && d == duration_ms,
    {
        CrosswinError::Timeout { operation: copy_str(operation), duration_ms }
    }

    /// The error reported by operations that need the Win32 platform when the
    /// library runs on another one.
    pub fn platform_unsupported() -> (e: Self)
        ensures
            is_platform_unsupported(e),
    {
        Self::invalid_parameter("platform", "Not supported on this platform")
    }

    /// The error reported when an operation needs a process handle that is
    /// not available.
    pub fn missing_handle() -> (e: Self)
        ensures
            is_missing_handle(e),
    {
        Self::invalid_parameter("handle", "Process handle is not available")
    }

    /// The human-readable text of the error.
    pub fn to_string(&self) -> (s: String)
        ensures
            s@ == error_text(*self),
    {
        let mut s = String::new();
        match self {
            CrosswinError::Win32 { operation, code, message } => {
                s.append("Win32 error in ");
                s.append(operation.as_str());
                s.append(": ");
                s.append(message.as_str());
                s.append(" (code: 0x");
                push_hex_fixed(&mut s, *code as u64, 8);
                s.append(")");
            },
            CrosswinError::Io(err) => {
                s.append("IO error: ");
                s.append(err.message.as_str());
            },
            CrosswinError::AccessDenied { resource, pid } => {
                s.append("Access denied to ");
                s.append(resource.as_str());
                match pid {
                    Some(p) => {
                        s.append(" (PID: ");
                        push_decimal(&mut s, *p as u64);
                        s.append(")");
                    },
                    None => {},
                }
            },
            CrosswinError::ProcessNotFound { pid } => {
                s.append("Process not found (PID: ");
                push_decimal(&mut s, *pid as u64);
                s.append(")");
            },
            CrosswinError::InvalidParameter { parameter, reason } => {
                s.append("Invalid parameter '");
                s.append(parameter.as_str());
                s.append("': ");
                s.append(reason.as_str());
            },
            CrosswinError::Timeout { operation, duration_ms } => {
                s.append("Timeout in ");
                s.append(operation.as_str());
                s.append(" after ");
                push_decimal(&mut s, *duration_ms);
                s.append("ms");
            },
        }
        assert(s@ =~= error_text(*self));
        s
    }
}

/// A failed Win32 call as the platform reports it: the error code (an
/// `HRESULT` read as unsigned, or a `GetLastError` value) and its message.
#[derive(Debug, Clone)]
pub struct OsFailure {
    pub code: u32,
    pub message: String,
}

/// `e` is the Win32 error of `operation` that carries the failure's code and
/// message.
pub open spec fn is_win32_failure(e: CrosswinError, operation: Seq<char>, f: OsFailure) -> bool {
    e matches CrosswinError::Win32 { operation: o, code: c, message: m } && o@ == operation
        && c == f.code && m@ == f.message@
}

impl CrosswinError {
    /// The Win32 error of `operation` that a failed call reported.
    pub fn from_failure(operation: &str, failure: &OsFailure) -> (e: Self)
        ensures
            is_win32_failure(e, operation@, *failure),
    {
        Self::win32(operation, failure.code, failure.message.as_str())
    }
}

fn option_u32_eq(a: &Option<u32>, b: &Option<u32>) -> (r: bool)
    ensures
        r == (*a == *b),
{
    match (a, b) {
        (Some(x), Some(y)) => *x == *y,
        (None, None) => true,
        _ => false,
    }
}

impl PartialEq for CrosswinError {
    fn eq(&self, other: &Self) -> (r: bool) {
        match (self, other) {
            (
                CrosswinError::Win32 { operation: o1, code: c1, message: m1 },
                CrosswinError::Win32 { operation: o2, code: c2, message: m2 },
            ) => *o1 == *o2 && *c1 == *c2 && *m1 == *m2,
            (CrosswinError::Io(e1), CrosswinError::Io(e2)) => error_kind_eq(&e1.kind, &e2.kind),
            (
                CrosswinError::AccessDenied { resource: r1, pid: p1 },
                CrosswinError::AccessDenied { resource: r2, pid: p2 },
            ) => *r1 == *r2 && option_u32_eq(p1, p2),
            (
                CrosswinError::ProcessNotFound { pid: p1 },
                CrosswinError::ProcessNotFound { pid: p2 },
            ) => *p1 == *p2,
            (
                CrosswinError::InvalidParameter { parameter: p1, reason: r1 },
                CrosswinError::InvalidParameter { parameter: p2, reason: r2 },
            ) => *p1 == *p2 && *r1 == *r2,
            (
                CrosswinError::Timeout { operation: o1, duration_ms: d1 },
                CrosswinError::Timeout { operation: o2, duration_ms: d2 },
            ) => *o1 == *o2 && *d1 == *d2,
            _ => false,
        }
    }
}

impl vstd::std_specs::cmp::PartialEqSpecImpl for CrosswinError {
    open spec fn obeys_eq_spec() -> bool {
        true
    }

    open spec fn eq_spec(&self, other: &Self) -> bool {
        same_error(*self, *other)
    }
}

impl From<std::io::Error> for CrosswinError {
    /// An I/O error becomes the `Io` variant, which holds the error itself as
    /// its source, with its kind and text.
    fn from(err: std::io::Error) -> (e: Self)
        ensures
            e matches CrosswinError::Io(io) && io.source == err,
    {
        let kind = io_error_kind(&err);
        let message = io_error_text(&err);
        CrosswinError::Io(IoError { kind, message, source: err })
    }
}

impl vstd::std_specs::convert::FromSpecImpl<std::io::Error> for CrosswinError {
    /// The kind and text of an I/O error are opaque here, so no single value
    /// is named; `from` itself states that the result is an `Io` error.
    open spec fn obeys_from_spec() -> bool {
        false
    }

    open spec fn from_spec(v: std::io::Error) -> Self {
        CrosswinError::Io(vstd::pervasive::arbitrary())
    }
}

/// Equality of errors is an equivalence relation.
pub proof fn lemma_error_eq_is_equivalence(a: CrosswinError, b: CrosswinError, c: CrosswinError)
    ensures
        same_error(a, a),
        same_error(a, b) ==> same_error(b, a),
        same_error(a, b) && same_error(b, c) ==> same_error(a, c),
{
}

/// Two "process not found" errors are equal exactly when their PIDs are.
pub proof fn lemma_process_not_found_eq(a: u32, b: u32)
    ensures
        same_error(CrosswinError::ProcessNotFound { pid: a }, CrosswinError::ProcessNotFound { pid: b })
            <==> a == b,
{
}

/// Two I/O errors are equal exactly when their kinds are, whatever their
/// texts.
pub proof fn lemma_io_errors_compare_by_kind(a: IoError, b: IoError)
    ensures
        same_error(CrosswinError::Io(a), CrosswinError::Io(b)) <==> a.kind == b.kind,
{
}

} // verus!
