//! Typed values for Windows handles.
use vstd::prelude::*;

verus! {

/// `windows::Win32::Foundation::HANDLE`, carried opaquely.
#[verifier::external_type_specification]
#[verifier::external_body]
pub struct ExWinHandle(::windows::Win32::Foundation::HANDLE);

/// The raw value that a Win32 `HANDLE` carries in its one field.
pub uninterp spec fn win_handle_value(h: ::windows::Win32::Foundation::HANDLE) -> isize;

/// `HANDLE(raw)`: the Win32 handle whose field is `raw`.
#[verifier::external_body]
fn win_handle_of(raw: isize) -> (h: ::windows::Win32::Foundation::HANDLE)
    ensures
        win_handle_value(h) == raw,
{
    ::windows::Win32::Foundation::HANDLE(raw)
}

/// `handle.0`: the field of a Win32 `HANDLE`.
#[verifier::external_body]
fn raw_of_win_handle(handle: ::windows::Win32::Foundation::HANDLE) -> (raw: isize)
    ensures
        raw == win_handle_value(handle),
{
    handle.0
}

/// A raw Windows handle value.
#[derive(Debug, Clone, Copy, PartialEq, Eq, Structural)]
pub struct RawHandle(pub isize);

/// A handle value names an object unless it is null or
/// `INVALID_HANDLE_VALUE` (-1).
pub open spec fn is_valid_handle_value(raw: isize) -> bool {
    raw != 0 && raw != -1
}

impl RawHandle {
    /// Check if the handle is valid (not null or INVALID_HANDLE_VALUE).
    pub fn is_valid(&self) -> (b: bool)
        ensures
            b == is_valid_handle_value(self.0),
    {
        self.0 != 0 && self.0 != -1
    }

    /// Get the handle as a Win32 `HANDLE`.
    pub fn as_windows_handle(&self) -> (h: ::windows::Win32::Foundation::HANDLE)
        ensures
            win_handle_value(h) == self.0,
    {
        win_handle_of(self.0)
    }
}

/// An owned Windows handle. It is not `Clone`, so that one handle is never
/// closed twice; closing it is the platform layer's work.
#[derive(Debug)]
pub struct Handle {
    raw: RawHandle,
}

impl View for Handle {
    type V = isize;

    closed spec fn view(&self) -> isize {
        self.raw.0
    }
}

impl Handle {
    /// Create a handle from a raw value; the caller owns the handle it names.
    pub fn from_raw(raw: isize) -> (h: Self)
        ensures
            h@ == raw,
    {
        Handle { raw: RawHandle(raw) }
    }

    /// Create a handle from a Win32 `HANDLE`; the caller owns the handle it
    /// names.
    pub fn from_windows_handle(handle: ::windows::Win32::Foundation::HANDLE) -> (h: Self)
        ensures
            h@ == win_handle_value(handle),
    {
        Handle { raw: RawHandle(raw_of_win_handle(handle)) }
    }

    /// Convert to a Win32 `HANDLE`.
    pub fn as_windows_handle(&self) -> (h: ::windows::Win32::Foundation::HANDLE)
        ensures
            win_handle_value(h) == self@,
    {
        self.raw.as_windows_handle()
    }

    /// Get the raw handle value.
    pub fn raw(&self) -> (r: RawHandle)
        ensures
            r.0 == self@,
    {
        self.raw
    }

    /// Check if the handle is valid.
    pub fn is_valid(&self) -> (b: bool)
        ensures
            b == is_valid_handle_value(self@),
    {
        self.raw.is_valid()
    }

    /// Take the raw value out of the handle, giving up ownership.
    pub fn into_raw(self) -> (r: isize)
        ensures
            r == self@,
    {
        self.raw.0
    }
}

/// Type-safe wrapper for process handles.
#[derive(Debug)]
pub struct ProcessHandle(Handle);

impl View for ProcessHandle {
    type V = isize;

    closed spec fn view(&self) -> isize {
        self.0@
    }
}

impl ProcessHandle {
    /// Create a process handle from a raw value.
    pub fn from_raw(raw: isize) -> (h: Self)
        ensures
            h@ == raw,
    {
        ProcessHandle(Handle::from_raw(raw))
    }

    /// Create a process handle from a Win32 `HANDLE`.
    pub fn from_windows_handle(handle: ::windows::Win32::Foundation::HANDLE) -> (h: Self)
        ensures
            h@ == win_handle_value(handle),
    {
        ProcessHandle(Handle::from_windows_handle(handle))
    }

    /// Get the underlying handle.
    pub fn as_handle(&self) -> (h: &Handle)
        ensures
            h@ == self@,
    {
        &self.0
    }

    /// Convert to raw handle value.
    pub fn into_raw(self) -> (r: isize)
        ensures
            r == self@,
    {
        self.0.into_raw()
    }
}

/// Type-safe wrapper for thread handles.
#[derive(Debug)]
pub struct ThreadHandle(Handle);

impl View for ThreadHandle {
    type V = isize;

    closed spec fn view(&self) -> isize {
        self.0@
    }
}

impl ThreadHandle {
    /// Create a thread handle from a raw value.
    pub fn from_raw(raw: isize) -> (h: Self)
        ensures
            h@ == raw,
    {
        ThreadHandle(Handle::from_raw(raw))
    }

    /// Create a thread handle from a Win32 `HANDLE`.
    pub fn from_windows_handle(handle: ::windows::Win32::Foundation::HANDLE) -> (h: Self)
        ensures
            h@ == win_handle_value(handle),
    {
        ThreadHandle(Handle::from_windows_handle(handle))
    }

    /// Get the underlying handle.
    pub fn as_handle(&self) -> (h: &Handle)
        ensures
            h@ == self@,
    {
        &self.0
    }

    /// Convert to raw handle value.
    pub fn into_raw(self) -> (r: isize)
        ensures
            r == self@,
    {
        self.0.into_raw()
    }
}

} // verus!
