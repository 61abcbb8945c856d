//! Top-level windows: the snapshot record, the window handle type, the
//! `WindowFilter` builder, searching a window list, and reading what the
//! window queries report.
use vstd::prelude::*;
use crate::error::{CrosswinError, OsFailure, Result};
use crate::windows::process::{unit_outcome, unit_result};
use crate::processes::list::decode_utf16_lossy;
use crate::text::{lowered_contains, lowered_equals, push_decimal, push_hex_upper, push_signed_decimal, to_lowercase};

verus! {

broadcast use vstd::seq_lib::group_seq_properties;

// ─── WindowInfo ──────────────────────────────────────────────────────────────

/// A snapshot of information about a top-level window. Equality is keyed
/// on the raw `hwnd` value.
#[derive(Debug, Clone)]
pub struct WindowInfo {
    /// Raw HWND handle value.
    pub hwnd: u64,
    /// Window title text.
    pub title: String,
    /// Window class name.
    pub class_name: Option<String>,
    /// Width in screen pixels.
    pub width: Option<u32>,
    /// Height in screen pixels.
    pub height: Option<u32>,
    /// Left edge of the window in screen coordinates.
    pub x: Option<i32>,
    /// Top edge of the window in screen coordinates.
    pub y: Option<i32>,
    /// Whether the window is currently visible.
    pub is_visible: Option<bool>,
    /// PID of the process that owns this window.
    pub process_id: Option<u32>,
}

/// Two window records name the same window when their handles are equal.
pub open spec fn same_window(a: WindowInfo, b: WindowInfo) -> bool {
    a.hwnd == b.hwnd
}

impl PartialEq for WindowInfo {
    fn eq(&self, other: &Self) -> (r: bool) {
        self.hwnd == other.hwnd
    }
}

impl vstd::std_specs::cmp::PartialEqSpecImpl for WindowInfo {
    open spec fn obeys_eq_spec() -> bool {
        true
    }

    open spec fn eq_spec(&self, other: &Self) -> bool {
        same_window(*self, *other)
    }
}

impl Eq for WindowInfo {}

/// `Hash::hash` for `u64`: feeds the value to the hasher. Nothing is claimed:
/// what a hasher does with its input is its own affair.
pub assume_specification<H: core::hash::Hasher>[ <u64 as core::hash::Hash>::hash::<H> ](
    data: &u64,
    state: &mut H,
);

impl core::hash::Hash for WindowInfo {
    fn hash<H: core::hash::Hasher>(&self, state: &mut H) {
        self.hwnd.hash(state);
    }
}

/// The text a window record renders as: handle and title, then the size
/// (and position) when known, then the owning PID when known.
pub open spec fn window_text(w: WindowInfo) -> Seq<char> {
    let head = "[HWND:0x"@ + crate::text::hex_upper(w.hwnd as nat) + "] \""@ + w.title@ + "\""@;
    let geometry = match (w.width, w.height) {
        (Some(width), Some(height)) => " ("@ + crate::text::decimal(width as nat) + "×"@
            + crate::text::decimal(height as nat) + match (w.x, w.y) {
            (Some(x), Some(y)) => " @ "@ + crate::text::signed_decimal(x as int) + ","@
                + crate::text::signed_decimal(y as int),
            _ => Seq::empty(),
        } + ")"@,
        _ => Seq::empty(),
    };
    let owner = match w.process_id {
        Some(pid) => "  PID="@ + crate::text::decimal(pid as nat),
        None => Seq::empty(),
    };
    head + geometry + owner
}

impl WindowInfo {
    /// The human-readable one-line summary of the window.
    pub fn to_string(&self) -> (s: String)
        ensures
            s@ == window_text(*self),
    {
        let mut s = String::from_str("[HWND:0x");
        push_hex_upper(&mut s, self.hwnd);
        s.append("] \"");
        s.append(self.title.as_str());
        s.append("\"");
        match (self.width, self.height) {
            (Some(w), Some(h)) => {
                s.append(" (");
                push_decimal(&mut s, w as u64);
                s.append("×");
                push_decimal(&mut s, h as u64);
                match (self.x, self.y) {
                    (Some(x), Some(y)) => {
                        s.append(" @ ");
                        push_signed_decimal(&mut s, x as i64);
                        s.append(",");
                        push_signed_decimal(&mut s, y as i64);
                    },
                    _ => {},
                }
                s.append(")");
            },
            _ => {},
        }
        match self.process_id {
            Some(pid) => {
                s.append("  PID=");
                push_decimal(&mut s, pid as u64);
            },
            None => {},
        }
        assert(s@ =~= window_text(*self));
        s
    }
}

// ─── Window geometry and text queries ────────────────────────────────────────

/// A Win32 `RECT`: screen coordinates of a window's edges.
#[derive(Debug, Clone, Copy, PartialEq, Eq, Structural)]
pub struct Rect {
    pub left: i32,
    pub top: i32,
    pub right: i32,
    pub bottom: i32,
}

/// The extent from `low` to `high`: their difference, saturated to the
/// `i32` range and read as unsigned (a negative extent wraps around).
pub open spec fn extent(low: i32, high: i32) -> u32 {
    let d = high as int - low as int;
    let sat = if d > i32::MAX { i32::MAX as int } else if d < i32::MIN { i32::MIN as int } else { d };
    if sat >= 0 {
        sat as u32
    } else {
        (sat + 0x1_0000_0000) as u32
    }
}

/// The extent from `low` to `high` is their difference where it is neither
/// negative nor beyond `i32::MAX`; a negative difference reads as that much
/// below 2^32, and a difference beyond the `i32` range stops at its bound.
pub proof fn lemma_extent_is_difference(low: i32, high: i32)
    ensures
        0 <= high - low <= i32::MAX ==> extent(low, high) == high - low,
        i32::MIN <= high - low < 0 ==> extent(low, high) == high - low + 0x1_0000_0000,
        high - low > i32::MAX ==> extent(low, high) == i32::MAX,
        high - low < i32::MIN ==> extent(low, high) == 0x8000_0000,
{
}

/// The extent between two edges, as `high.saturating_sub(low) as u32`.
pub fn edge_extent(low: i32, high: i32) -> (e: u32)
    ensures
        e == extent(low, high),
{
    let wide: i64 = high as i64 - low as i64;
    let d: i64 = if wide > i32::MAX as i64 {
        i32::MAX as i64
    } else if wide < i32::MIN as i64 {
        i32::MIN as i64
    } else {
        wide
    };
    if d >= 0 {
        d as u32
    } else {
        (d + 0x1_0000_0000i64) as u32
    }
}

/// The width and height of a window rectangle.
pub fn size_of_rect(rect: &Rect) -> (wh: (u32, u32))
    ensures
        wh == (extent(rect.left, rect.right), extent(rect.top, rect.bottom)),
{
    (edge_extent(rect.left, rect.right), edge_extent(rect.top, rect.bottom))
}

/// The buffer length for reading a title of `len` units: none when the
/// title is empty (or its length could not be read), else room for the
/// units and the terminating zero.
pub fn title_buffer_len(len: i32) -> (n: Option<usize>)
    requires
        len < i32::MAX,
    ensures
        len <= 0 ==> n is None,
        len > 0 ==> n == Some((len + 1) as usize),
{
    if len <= 0 {
        None
    } else {
        Some((len + 1) as usize)
    }
}

/// The text that `GetWindowTextW` wrote: the first `read` units decoded, or
/// the empty text when it read nothing.
pub open spec fn read_text(read: i32, buffer: Seq<u16>) -> Seq<char> {
    if read > 0 {
        crate::processes::list::utf16_lossy(buffer.take(read as int))
    } else {
        Seq::empty()
    }
}

/// Decode the units a text query wrote into its buffer.
pub fn text_from_buffer(read: i32, buffer: &[u16]) -> (s: String)
    requires
        read <= buffer@.len(),
    ensures
        s@ == read_text(read, buffer@),
{
    if read > 0 {
        let prefix = crate::processes::list::copy_prefix(buffer, read as usize);
        decode_utf16_lossy(prefix.as_slice())
    } else {
        String::new()
    }
}

/// The class name that `GetClassNameW` wrote, if it wrote any.
pub fn class_name_from_buffer(len: i32, buffer: &[u16]) -> (c: Option<String>)
    requires
        len <= buffer@.len(),
    ensures
        len <= 0 ==> c is None,
        len > 0 ==> (c matches Some(s) && s@ == read_text(len, buffer@)),
{
    if len > 0 {
        Some(text_from_buffer(len, buffer))
    } else {
        None
    }
}

/// The record of a window built from what the window queries reported.
pub fn window_info_from_parts(
    hwnd: u64,
    title: String,
    class_name: Option<String>,
    rect: &Rect,
    visible: bool,
    pid: u32,
) -> (w: WindowInfo)
    ensures
        w.hwnd == hwnd,
        w.title == title,
        w.class_name == class_name,
        w.width == Some(extent(rect.left, rect.right)),
        w.height == Some(extent(rect.top, rect.bottom)),
        w.x == Some(rect.left),
        w.y == Some(rect.top),
        w.is_visible == Some(visible),
        w.process_id == Some(pid),
{
    let (width, height) = size_of_rect(rect);
    WindowInfo {
        hwnd,
        title,
        class_name,
        width: Some(width),
        height: Some(height),
        x: Some(rect.left),
        y: Some(rect.top),
        is_visible: Some(visible),
        process_id: Some(pid),
    }
}

/// Read the text of a window by handle: `os_length` reports the title's
/// length in UTF-16 units; an empty (or unreadable) title is the empty text,
/// else `os_read` reads the title into a buffer with room for the units and
/// the terminating zero, and the units it reports are decoded.
pub fn get_window_text<L, R>(hwnd: u64, os_length: L, os_read: R) -> (r: Result<String>) where
    L: FnOnce(u64) -> i32,
    R: FnOnce(u64, usize) -> (Vec<u16>, i32),
    requires
        call_requires(os_length, (hwnd,)),
        forall|len: i32| call_ensures(os_length, (hwnd,), len) ==> len < i32::MAX,
        forall|n: usize| #[trigger] call_requires(os_read, (hwnd, n)),
        forall|n: usize, ans: (Vec<u16>, i32)|
            #[trigger] call_ensures(os_read, (hwnd, n), ans) ==> ans.1 <= ans.0@.len(),
    ensures
        exists|len: i32|
            #[trigger] call_ensures(os_length, (hwnd,), len) && if len <= 0 {
                r matches Ok(s) && s@ == Seq::<char>::empty()
            } else {
                exists|ans: (Vec<u16>, i32)|
                    #[trigger] call_ensures(os_read, (hwnd, (len + 1) as usize), ans) && (r matches Ok(
                        s,
                    ) && s@ == read_text(ans.1, ans.0@))
            },
{
    let len = os_length(hwnd);
    match title_buffer_len(len) {
        None => Ok(String::new()),
        Some(n) => {
            let (buffer, read) = os_read(hwnd, n);
            Ok(text_from_buffer(read, buffer.as_slice()))
        },
    }
}

// ─── Wide strings for the Win32 text calls ───────────────────────────────────

/// The UTF-16 code units of one character.
pub open spec fn utf16_of_char(c: char) -> Seq<u16> {
    let v = c as nat;
    if v < 0x10000 {
        seq![v as u16]
    } else {
        let w = (v - 0x10000) as nat;
        seq![(0xD800 + w / 0x400) as u16, (0xDC00 + w % 0x400) as u16]
    }
}

/// The UTF-16 encoding of a text.
pub open spec fn utf16_of(s: Seq<char>) -> Seq<u16>
    decreases s.len(),
{
    if s.len() == 0 {
        Seq::empty()
    } else {
        utf16_of(s.drop_last()) + utf16_of_char(s.last())
    }
}

/// What `U16CString::from_str` makes of a text: its UTF-16 units, with one
/// terminating zero unit added unless the last unit already is zero; or,
/// when a zero unit occurs anywhere else, the position of the first one.
pub open spec fn wide_c_string_of(s: Seq<char>) -> std::result::Result<Seq<u16>, nat> {
    let u = utf16_of(s);
    let k = crate::processes::list::nul_terminated_len(u);
    if k == u.len() {
        Ok(u.push(0))
    } else if k + 1 == u.len() {
        Ok(u)
    } else {
        Err(k)
    }
}

/// A wide C string holds exactly one zero unit, at its end.
pub proof fn lemma_wide_c_string_is_terminated(s: Seq<char>)
    ensures
        wide_c_string_of(s) matches Ok(u) ==> u.len() > 0 && u.last() == 0 && forall|j: int|
            0 <= j < u.len() - 1 ==> u[j] != 0,
{
    let u = utf16_of(s);
    crate::processes::list::lemma_nul_terminated_len_facts(u);
    let k = crate::processes::list::nul_terminated_len(u);
    if k == u.len() {
        assert forall|j: int| 0 <= j < u.push(0).len() - 1 implies u.push(0)[j] != 0 by {
            assert(u.push(0)[j] == u[j]);
        }
    }
}

/// `widestring::U16CString::from_str`, then `into_vec_with_nul` on success or
/// the error's `Display` text ("invalid nul value found at position N") on
/// failure.
#[verifier::external_body]
fn wide_c_string(s: &str) -> (r: std::result::Result<Vec<u16>, String>)
    ensures
        match wide_c_string_of(s@) {
            Ok(units) => r matches Ok(v) && v@ == units,
            Err(pos) => r matches Err(m) && m@ == "invalid nul value found at position "@
                + crate::text::decimal(pos),
        },
{
    match widestring::U16CString::from_str(s) {
        Ok(w) => Ok(w.into_vec_with_nul()),
        Err(e) => Err(e.to_string()),
    }
}

/// The zero-terminated UTF-16 form of a window title, or the invalid
/// parameter error that a title with an interior zero character gets.
pub fn title_to_wide(title: &str) -> (r: Result<Vec<u16>>)
    ensures
        match wide_c_string_of(title@) {
            Ok(units) => r matches Ok(v) && v@ == units,
            Err(pos) => r matches Err(CrosswinError::InvalidParameter { parameter, reason })
                && parameter@ == "title"@ && reason@ == "invalid unicode: "@
                + "invalid nul value found at position "@ + crate::text::decimal(pos),
        },
{
    match wide_c_string(title) {
        Ok(v) => Ok(v),
        Err(m) => {
            let mut reason = String::from_str("invalid unicode: ");
            reason.append(m.as_str());
            proof {
                assert(reason@ =~= "invalid unicode: "@ + m@);
            }
            Err(CrosswinError::invalid_parameter("title", reason.as_str()))
        },
    }
}

// ─── Window ──────────────────────────────────────────────────────────────────

/// A handle to a window. Not `Clone`: `try_clone` checks the handle first.
#[derive(Debug)]
pub struct Window {
    hwnd: u64,
}

impl View for Window {
    type V = u64;

    closed spec fn view(&self) -> u64 {
        self.hwnd
    }
}

/// The error for a handle that no longer names a window.
pub open spec fn is_stale_window(e: CrosswinError) -> bool {
    e matches CrosswinError::InvalidParameter { parameter, reason } && parameter@ == "hwnd"@
        && reason@ == "Window handle is no longer valid"@
}

impl Window {
    /// Create a `Window` from a raw platform handle value.
    pub fn from_raw(hwnd: u64) -> (w: Self)
        ensures
            w@ == hwnd,
    {
        Window { hwnd }
    }

    /// Return the raw HWND value.
    pub fn hwnd(&self) -> (h: u64)
        ensures
            h == self@,
    {
        self.hwnd
    }

    /// Whether the handle still names a live window, as `os_is_window`
    /// reports it for the handle.
    pub fn is_valid<F>(&self, os_is_window: F) -> (b: bool) where F: FnOnce(u64) -> bool,
        requires
            call_requires(os_is_window, (self@,)),
        ensures
            call_ensures(os_is_window, (self@,), b),
    {
        os_is_window(self.hwnd)
    }

    /// A second value for the same window when the handle is still live
    /// (`valid`), else the stale-handle error.
    pub fn clone_if_valid(&self, valid: bool) -> (r: Result<Window>)
        ensures
            valid ==> (r matches Ok(w) && w@ == self@),
            !valid ==> (r matches Err(e) && is_stale_window(e)),
    {
        if valid {
            Ok(Window { hwnd: self.hwnd })
        } else {
            Err(CrosswinError::invalid_parameter("hwnd", "Window handle is no longer valid"))
        }
    }

    /// Clone this handle only when the HWND is still valid, as
    /// `os_is_window` reports it; a stale handle is an error.
    pub fn try_clone<F>(&self, os_is_window: F) -> (r: Result<Window>) where F: FnOnce(u64) -> bool,
        requires
            call_requires(os_is_window, (self@,)),
        ensures
            exists|valid: bool|
                #[trigger] call_ensures(os_is_window, (self@,), valid) && (valid ==> (r matches Ok(
                    w,
                ) && w@ == self@)) && (!valid ==> (r matches Err(e) && is_stale_window(e))),
    {
        let valid = self.is_valid(os_is_window);
        self.clone_if_valid(valid)
    }

    /// Show the window: `os_show` hands the handle and `SW_SHOW` to the
    /// platform, whose answer (the previous visibility) is not an error.
    pub fn show<F>(&self, os_show: F) -> (r: Result<()>) where F: FnOnce(u64, i32),
        requires
            call_requires(os_show, (self@, SW_SHOW)),
        ensures
            call_ensures(os_show, (self@, SW_SHOW), ()),
            r is Ok,
    {
        os_show(self.hwnd, SW_SHOW);
        Ok(())
    }

    /// Hide the window: `os_show` hands the handle and `SW_HIDE` to the
    /// platform, whose answer is not an error.
    pub fn hide_window<F>(&self, os_show: F) -> (r: Result<()>) where F: FnOnce(u64, i32),
        requires
            call_requires(os_show, (self@, SW_HIDE)),
        ensures
            call_ensures(os_show, (self@, SW_HIDE), ()),
            r is Ok,
    {
        os_show(self.hwnd, SW_HIDE);
        Ok(())
    }

    /// Bring the window to the foreground: `os_front` asks the platform to
    /// make it the foreground window (whose refusal is not an error) and to
    /// bring it to the top, whose failure is reported.
    pub fn bring_to_front<F>(&self, os_front: F) -> (r: Result<()>) where
        F: FnOnce(u64) -> std::result::Result<(), OsFailure>,
        requires
            call_requires(os_front, (self@,)),
        ensures
            exists|ans: std::result::Result<(), OsFailure>|
                #[trigger] call_ensures(os_front, (self@,), ans) && unit_outcome(
                    r,
                    "BringWindowToTop"@,
                    ans,
                ),
    {
        let ans = os_front(self.hwnd);
        unit_result("BringWindowToTop", ans)
    }

    /// Move the window to (`x`, `y`) keeping its size and z-order:
    /// `os_set_pos` hands the handle, the position, a zero size and
    /// `SWP_NOSIZE | SWP_NOZORDER` to the platform.
    pub fn move_to<F>(&self, x: i32, y: i32, os_set_pos: F) -> (r: Result<()>) where
        F: FnOnce(u64, i32, i32, i32, i32, u32) -> std::result::Result<(), OsFailure>,
        requires
            call_requires(os_set_pos, (self@, x, y, 0i32, 0i32, SWP_NOSIZE | SWP_NOZORDER)),
        ensures
            exists|ans: std::result::Result<(), OsFailure>|
                #[trigger] call_ensures(
                    os_set_pos,
                    (self@, x, y, 0i32, 0i32, SWP_NOSIZE | SWP_NOZORDER),
                    ans,
                ) && unit_outcome(r, "SetWindowPos"@, ans),
    {
        let ans = os_set_pos(self.hwnd, x, y, 0, 0, SWP_NOSIZE | SWP_NOZORDER);
        unit_result("SetWindowPos", ans)
    }

    /// Resize the window to `width` × `height` keeping its position and
    /// z-order: `os_set_pos` hands the handle, a zero position, the size
    /// (each read as `i32`) and `SWP_NOMOVE | SWP_NOZORDER` to the platform.
    pub fn resize<F>(&self, width: u32, height: u32, os_set_pos: F) -> (r: Result<()>) where
        F: FnOnce(u64, i32, i32, i32, i32, u32) -> std::result::Result<(), OsFailure>,
        requires
            call_requires(
                os_set_pos,
                (self@, 0i32, 0i32, width as i32, height as i32, SWP_NOMOVE | SWP_NOZORDER),
            ),
        ensures
            exists|ans: std::result::Result<(), OsFailure>|
                #[trigger] call_ensures(
                    os_set_pos,
                    (self@, 0i32, 0i32, width as i32, height as i32, SWP_NOMOVE | SWP_NOZORDER),
                    ans,
                ) && unit_outcome(r, "SetWindowPos"@, ans),
    {
        let ans = os_set_pos(self.hwnd, 0, 0, width as i32, height as i32, SWP_NOMOVE | SWP_NOZORDER);
        unit_result("SetWindowPos", ans)
    }

    /// The top-left corner of the window, from the rectangle that `os_rect`
    /// reads for the handle.
    pub fn position<F>(&self, os_rect: F) -> (r: Result<(i32, i32)>) where
        F: FnOnce(u64) -> std::result::Result<Rect, OsFailure>,
        requires
            call_requires(os_rect, (self@,)),
        ensures
            exists|ans: std::result::Result<Rect, OsFailure>|
                #[trigger] call_ensures(os_rect, (self@,), ans) && match ans {
                    Ok(rect) => r == Ok::<(i32, i32), CrosswinError>((rect.left, rect.top)),
                    Err(f) => r matches Err(e) && crate::error::is_win32_failure(e, "GetWindowRect"@, f),
                },
    {
        match os_rect(self.hwnd) {
            Ok(rect) => Ok((rect.left, rect.top)),
            Err(f) => Err(CrosswinError::from_failure("GetWindowRect", &f)),
        }
    }

    /// The width and height of the window, from the rectangle that `os_rect`
    /// reads for the handle.
    pub fn size<F>(&self, os_rect: F) -> (r: Result<(u32, u32)>) where
        F: FnOnce(u64) -> std::result::Result<Rect, OsFailure>,
        requires
            call_requires(os_rect, (self@,)),
        ensures
            exists|ans: std::result::Result<Rect, OsFailure>|
                #[trigger] call_ensures(os_rect, (self@,), ans) && match ans {
                    Ok(rect) => r == Ok::<(u32, u32), CrosswinError>(
                        (extent(rect.left, rect.right), extent(rect.top, rect.bottom)),
                    ),
                    Err(f) => r matches Err(e) && crate::error::is_win32_failure(e, "GetWindowRect"@, f),
                },
    {
        match os_rect(self.hwnd) {
            Ok(rect) => Ok(size_of_rect(&rect)),
            Err(f) => Err(CrosswinError::from_failure("GetWindowRect", &f)),
        }
    }

    /// Set the window title. A title with an interior zero character is an
    /// invalid parameter and the platform is not asked; otherwise
    /// `os_set_text` hands the handle and the zero-terminated UTF-16 title to
    /// the platform, whose failure is reported.
    pub fn set_title<F>(&self, title: &str, os_set_text: F) -> (r: Result<()>) where
        F: FnOnce(u64, Vec<u16>) -> std::result::Result<(), OsFailure>,
        requires
            forall|h: u64, units: Vec<u16>| #[trigger] call_requires(os_set_text, (h, units)),
        ensures
            match wide_c_string_of(title@) {
                Err(pos) => r matches Err(CrosswinError::InvalidParameter { parameter, reason })
                    && parameter@ == "title"@ && reason@ == "invalid unicode: "@
                    + "invalid nul value found at position "@ + crate::text::decimal(pos),
                Ok(units) => exists|wide: Vec<u16>, ans: std::result::Result<(), OsFailure>|
                    wide@ == units && #[trigger] call_ensures(os_set_text, (self@, wide), ans)
                        && unit_outcome(r, "SetWindowTextW"@, ans),
            },
    {
        match title_to_wide(title) {
            Err(e) => Err(e),
            Ok(wide) => {
                let ans = os_set_text(self.hwnd, wide);
                assert(call_ensures(os_set_text, (self@, wide), ans));
                unit_result("SetWindowTextW", ans)
            },
        }
    }
}

/// `SW_HIDE`: the show command that hides a window.
pub const SW_HIDE: i32 = 0;

/// `SW_SHOW`: the show command that shows a window as it was.
pub const SW_SHOW: i32 = 5;

/// `SWP_NOSIZE`: keep the window's size.
pub const SWP_NOSIZE: u32 = 0x1;

/// `SWP_NOMOVE`: keep the window's position.
pub const SWP_NOMOVE: u32 = 0x2;

/// `SWP_NOZORDER`: keep the window's place in the z-order.
pub const SWP_NOZORDER: u32 = 0x4;

// ─── Searching a window list ─────────────────────────────────────────────────

/// The window's title contains `lowered` case-insensitively.
pub open spec fn title_matches(lowered: Seq<char>) -> spec_fn(WindowInfo) -> bool {
    |w: WindowInfo| crate::text::contains_lowered(w.title@, lowered)
}

/// The window has a class name equal to `lowered` case-insensitively.
pub open spec fn class_is(w: WindowInfo, lowered: Seq<char>) -> bool {
    w.class_name matches Some(c) && crate::text::lowercase(c@) == lowered
}

/// The window has the class name `lowered`, case-insensitively.
pub open spec fn class_matches(lowered: Seq<char>) -> spec_fn(WindowInfo) -> bool {
    |w: WindowInfo| class_is(w, lowered)
}

/// The window belongs to process `pid`.
pub open spec fn owned_by(pid: u32) -> spec_fn(WindowInfo) -> bool {
    |w: WindowInfo| w.process_id == Some(pid)
}

/// The windows whose title contains `title`, case-insensitively.
pub fn windows_by_title(windows: Vec<WindowInfo>, title: &str) -> (r: Vec<WindowInfo>)
    ensures
        r@ == windows@.filter(title_matches(crate::text::lowercase(title@))),
{
    let filter = WindowFilter::new().title_contains(title);
    proof {
        assert forall|w: WindowInfo| #[trigger] window_accepts(filter@, w) == title_matches(
            crate::text::lowercase(title@),
        )(w) by {}
        assert(accepted_windows(filter@) =~= title_matches(crate::text::lowercase(title@)));
    }
    filter.apply(windows)
}

/// The windows whose class name is `class`, case-insensitively.
pub fn windows_by_class(windows: Vec<WindowInfo>, class: &str) -> (r: Vec<WindowInfo>)
    ensures
        r@ == windows@.filter(class_matches(crate::text::lowercase(class@))),
{
    let filter = WindowFilter::new().class_name(class);
    proof {
        assert(accepted_windows(filter@) =~= class_matches(crate::text::lowercase(class@)));
    }
    filter.apply(windows)
}

/// The windows owned by process `pid`.
pub fn windows_by_process(windows: Vec<WindowInfo>, pid: u32) -> (r: Vec<WindowInfo>)
    ensures
        r@ == windows@.filter(owned_by(pid)),
{
    let filter = WindowFilter::new().process_id(pid);
    proof {
        assert(accepted_windows(filter@) =~= owned_by(pid));
    }
    filter.apply(windows)
}

/// Searching by class gives the same windows for any two class names that
/// lower-case alike.
pub proof fn lemma_class_search_ignores_case(windows: Seq<WindowInfo>, a: Seq<char>, b: Seq<char>)
    requires
        crate::text::lowercase(a) == crate::text::lowercase(b),
    ensures
        windows.filter(class_matches(crate::text::lowercase(a))) == windows.filter(
            class_matches(crate::text::lowercase(b)),
        ),
{
}

/// Every window a search returns satisfies the search, and every window of
/// the list that satisfies it is returned.
pub proof fn lemma_search_is_exact(windows: Seq<WindowInfo>, pred: spec_fn(WindowInfo) -> bool, w: WindowInfo)
    ensures
        windows.filter(pred).contains(w) <==> (windows.contains(w) && pred(w)),
{
    if windows.filter(pred).contains(w) {
        windows.lemma_filter_contains_rev(pred, w);
        let i = choose|i: int| 0 <= i < windows.filter(pred).len() && windows.filter(pred)[i] == w;
        windows.lemma_filter_pred(pred, i);
    }
    if windows.contains(w) && pred(w) {
        let i = choose|i: int| 0 <= i < windows.len() && windows[i] == w;
        windows.lemma_filter_contains(pred, i);
    }
}

/// The window searches return exactly the windows of the list that own the
/// searched title text, class name or owner: by title, those whose title
/// contains the lower-cased text ignoring case; by class, those whose class
/// name is known and lower-cases to it; by process, those the process owns.
pub proof fn lemma_window_searches(windows: Seq<WindowInfo>, w: WindowInfo, title: Seq<char>, class: Seq<char>, pid: u32)
    ensures
        windows.filter(title_matches(title)).contains(w) <==> (windows.contains(w)
            && crate::text::contains_lowered(w.title@, title)),
        windows.filter(class_matches(class)).contains(w) <==> (windows.contains(w) && (
        w.class_name matches Some(c) && crate::text::lowercase(c@) == class)),
        windows.filter(owned_by(pid)).contains(w) <==> (windows.contains(w) && w.process_id == Some(
            pid,
        )),
{
    lemma_search_is_exact(windows, title_matches(title), w);
    lemma_search_is_exact(windows, class_matches(class), w);
    lemma_search_is_exact(windows, owned_by(pid), w);
}

/// Window equality is an equivalence keyed on the handle alone.
pub proof fn lemma_window_eq_by_hwnd(a: WindowInfo, b: WindowInfo, c: WindowInfo)
    ensures
        same_window(a, a),
        same_window(a, b) <==> a.hwnd == b.hwnd,
        same_window(a, b) ==> same_window(b, a),
        same_window(a, b) && same_window(b, c) ==> same_window(a, c),
{
}

/// A new window filter accepts every window, so applying it returns the
/// list unchanged.
pub proof fn lemma_new_window_filter_accepts_all(windows: Seq<WindowInfo>)
    ensures
        windows.filter(accepted_windows(empty_window_filter())) == windows,
{
    crate::processes::filter::lemma_filter_all(windows, accepted_windows(empty_window_filter()));
}

// ─── WindowFilter ────────────────────────────────────────────────────────────

/// What a window filter holds: each criterion, when set.
pub struct WindowFilterView {
    pub title_contains: Option<Seq<char>>,
    pub class_name: Option<Seq<char>>,
    pub visible_only: Option<bool>,
    pub process_id: Option<u32>,
    pub min_width: Option<u32>,
    pub min_height: Option<u32>,
}

/// The window filter with no criterion.
pub open spec fn empty_window_filter() -> WindowFilterView {
    WindowFilterView {
        title_contains: None,
        class_name: None,
        visible_only: None,
        process_id: None,
        min_width: None,
        min_height: None,
    }
}

/// A window satisfies every criterion the filter sets; a missing value
/// fails a criterion on it (visibility counts as not visible).
pub open spec fn window_accepts(f: WindowFilterView, w: WindowInfo) -> bool {
    &&& (f.title_contains matches Some(t) ==> crate::text::contains_lowered(w.title@, t))
    &&& (f.class_name matches Some(c) ==> class_is(w, c))
    &&& (f.visible_only == Some(true) ==> w.is_visible == Some(true))
    &&& (f.process_id matches Some(pid) ==> w.process_id == Some(pid))
    &&& (f.min_width matches Some(m) ==> (w.width matches Some(width) && width >= m))
    &&& (f.min_height matches Some(m) ==> (w.height matches Some(height) && height >= m))
}

/// With visibility required, only a window reported visible is accepted: a
/// hidden window, or one whose visibility is unknown, is rejected; as the
/// filter's only criterion it admits exactly the visible windows.
pub proof fn lemma_visible_only_admits_visible(f: WindowFilterView, w: WindowInfo)
    requires
        f.visible_only == Some(true),
    ensures
        window_accepts(f, w) ==> w.is_visible == Some(true),
        w.is_visible == Some(false) ==> !window_accepts(f, w),
        window_accepts(WindowFilterView { visible_only: Some(true), ..empty_window_filter() }, w) <==> w.is_visible
            == Some(true),
{
}

/// A minimum width admits a window only when its width is known and at
/// least the minimum, and a minimum height only when its height is known and
/// at least the minimum, whatever the other dimension; as the filter's only
/// criterion each admits exactly those windows.
pub proof fn lemma_minimum_sizes(f: WindowFilterView, w: WindowInfo, min_w: u32, min_h: u32)
    ensures
        window_accepts(f, w) ==> (f.min_width matches Some(m) ==> (w.width matches Some(width)
            && width >= m)),
        window_accepts(f, w) ==> (f.min_height matches Some(m) ==> (w.height matches Some(height)
            && height >= m)),
        window_accepts(WindowFilterView { min_width: Some(min_w), ..empty_window_filter() }, w) <==> (
        w.width matches Some(width) && width >= min_w),
        window_accepts(WindowFilterView { min_height: Some(min_h), ..empty_window_filter() }, w) <==> (
        w.height matches Some(height) && height >= min_h),
{
}

/// A title criterion admits a window only when its title contains the
/// lower-cased text, ignoring case; a class only when the window's class
/// name is known and equal to it ignoring case; a process only when the
/// window's owner is known and is that process.
pub proof fn lemma_title_class_owner(f: WindowFilterView, w: WindowInfo, t: Seq<char>, c: Seq<char>, pid: u32)
    ensures
        window_accepts(f, w) ==> (f.title_contains matches Some(text) ==> crate::text::contains_lowered(
            w.title@,
            text,
        )),
        window_accepts(f, w) ==> (f.class_name matches Some(class) ==> (w.class_name matches Some(
            name,
        ) && crate::text::lowercase(name@) == class)),
        window_accepts(f, w) ==> (f.process_id matches Some(owner) ==> w.process_id == Some(owner)),
        window_accepts(WindowFilterView { title_contains: Some(t), ..empty_window_filter() }, w)
            <==> crate::text::contains_lowered(w.title@, t),
        window_accepts(WindowFilterView { class_name: Some(c), ..empty_window_filter() }, w) <==> (
        w.class_name matches Some(name) && crate::text::lowercase(name@) == c),
        window_accepts(WindowFilterView { process_id: Some(pid), ..empty_window_filter() }, w) <==> w.process_id
            == Some(pid),
{
}

/// A window that every criterion the filter sets admits is accepted.
pub proof fn lemma_window_criteria_suffice(f: WindowFilterView, w: WindowInfo)
    requires
        f.title_contains matches Some(t) ==> crate::text::contains_lowered(w.title@, t),
        f.class_name matches Some(c) ==> (w.class_name matches Some(name) && crate::text::lowercase(
            name@,
        ) == c),
        f.visible_only == Some(true) ==> w.is_visible == Some(true),
        f.process_id matches Some(pid) ==> w.process_id == Some(pid),
        f.min_width matches Some(m) ==> (w.width matches Some(width) && width >= m),
        f.min_height matches Some(m) ==> (w.height matches Some(height) && height >= m),
    ensures
        window_accepts(f, w),
{
}

/// The windows the filter accepts.
pub open spec fn accepted_windows(f: WindowFilterView) -> spec_fn(WindowInfo) -> bool {
    |w: WindowInfo| window_accepts(f, w)
}

/// Builder for filtering windows with multiple criteria.
#[derive(Debug, Clone)]
pub struct WindowFilter {
    title_contains: Option<String>,
    class_name: Option<String>,
    visible_only: Option<bool>,
    process_id: Option<u32>,
    min_width: Option<u32>,
    min_height: Option<u32>,
}

impl View for WindowFilter {
    type V = WindowFilterView;

    closed spec fn view(&self) -> WindowFilterView {
        WindowFilterView {
            title_contains: match self.title_contains {
                Some(s) => Some(s@),
                None => None,
            },
            class_name: match self.class_name {
                Some(s) => Some(s@),
                None => None,
            },
            visible_only: self.visible_only,
            process_id: self.process_id,
            min_width: self.min_width,
            min_height: self.min_height,
        }
    }
}

impl Default for WindowFilter {
    fn default() -> (f: Self)
        ensures
            f@ == empty_window_filter(),
    {
        WindowFilter::new()
    }
}

impl WindowFilter {
    /// Create a new, empty window filter.
    pub fn new() -> (f: Self)
        ensures
            f@ == empty_window_filter(),
    {
        WindowFilter {
            title_contains: None,
            class_name: None,
            visible_only: None,
            process_id: None,
            min_width: None,
            min_height: None,
        }
    }

    /// Filter by title substring (case-insensitive).
    pub fn title_contains(self, s: &str) -> (f: Self)
        ensures
            f@ == (WindowFilterView { title_contains: Some(crate::text::lowercase(s@)), ..self@ }),
    {
        WindowFilter { title_contains: Some(to_lowercase(s)), ..self }
    }

    /// Filter by exact class name (case-insensitive).
    pub fn class_name(self, s: &str) -> (f: Self)
        ensures
            f@ == (WindowFilterView { class_name: Some(crate::text::lowercase(s@)), ..self@ }),
    {
        WindowFilter { class_name: Some(to_lowercase(s)), ..self }
    }

    /// When `true`, only include windows that are visible.
    pub fn visible_only(self, v: bool) -> (f: Self)
        ensures
            f@ == (WindowFilterView { visible_only: Some(v), ..self@ }),
    {
        WindowFilter { visible_only: Some(v), ..self }
    }

    /// Only include windows owned by the given PID.
    pub fn process_id(self, pid: u32) -> (f: Self)
        ensures
            f@ == (WindowFilterView { process_id: Some(pid), ..self@ }),
    {
        WindowFilter { process_id: Some(pid), ..self }
    }

    /// Only include windows at least this many pixels wide.
    pub fn min_width(self, w: u32) -> (f: Self)
        ensures
            f@ == (WindowFilterView { min_width: Some(w), ..self@ }),
    {
        WindowFilter { min_width: Some(w), ..self }
    }

    /// Only include windows at least this many pixels tall.
    pub fn min_height(self, h: u32) -> (f: Self)
        ensures
            f@ == (WindowFilterView { min_height: Some(h), ..self@ }),
    {
        WindowFilter { min_height: Some(h), ..self }
    }

    /// Returns `true` when the window satisfies all active criteria.
    pub fn matches(&self, w: &WindowInfo) -> (b: bool)
        ensures
            b == window_accepts(self@, *w),
    {
        if let Some(title) = &self.title_contains {
            if !lowered_contains(w.title.as_str(), title.as_str()) {
                return false;
            }
        }
        if let Some(class) = &self.class_name {
            match &w.class_name {
                Some(c) => {
                    if !lowered_equals(c.as_str(), class.as_str()) {
                        return false;
                    }
                },
                None => {
                    return false;
                },
            }
        }
        if let Some(vis) = self.visible_only {
            if vis {
                match w.is_visible {
                    Some(v) => {
                        if !v {
                            return false;
                        }
                    },
                    None => {
                        return false;
                    },
                }
            }
        }
        if let Some(pid) = self.process_id {
            match w.process_id {
                Some(p) => {
                    if p != pid {
                        return false;
                    }
                },
                None => {
                    return false;
                },
            }
        }
        if let Some(min_w) = self.min_width {
            match w.width {
                Some(width) => {
                    if width < min_w {
                        return false;
                    }
                },
                None => {
                    return false;
                },
            }
        }
        if let Some(min_h) = self.min_height {
            match w.height {
                Some(height) => {
                    if height < min_h {
                        return false;
                    }
                },
                None => {
                    return false;
                },
            }
        }
        true
    }

    /// The windows of the list that the filter accepts, in list order.
    pub fn apply(&self, windows: Vec<WindowInfo>) -> (r: Vec<WindowInfo>)
        ensures
            r@ == windows@.filter(accepted_windows(self@)),
    {
        let ghost orig = windows@;
        let ghost acc = accepted_windows(self@);
        let mut rest = windows;
        let mut out: Vec<WindowInfo> = Vec::new();
        let mut i: usize = 0;
        let n = rest.len();
        proof {
            reveal(Seq::filter);
            assert(orig.take(0) =~= Seq::<WindowInfo>::empty());
        }
        while i < n
            invariant
                n == orig.len(),
                i <= n,
                rest@ == orig.subrange(i as int, n as int),
                acc == accepted_windows(self@),
                out@ == orig.take(i as int).filter(acc),
            decreases n - i,
        {
            let w = rest.remove(0);
            proof {
                assert(orig.take(i + 1) == orig.take(i as int).push(orig[i as int]));
                orig.take(i as int).lemma_filter_push(orig[i as int], acc);
            }
            if self.matches(&w) {
                out.push(w);
            }
            i = i + 1;
        }
        proof {
            assert(orig.take(n as int) == orig);
        }
        out
    }
}

} // verus!
