use crosswin::error::{CrosswinError, OsFailure};
use crosswin::prelude::{get_window_text, windows_by_class, windows_by_process, windows_by_title, Window};
use crosswin::windows::window::{
    class_name_from_buffer, edge_extent, size_of_rect, text_from_buffer, title_buffer_len,
    title_to_wide, window_info_from_parts, Rect, WindowFilter, WindowInfo,
};

fn make_window(hwnd: u64, title: &str, class: &str, visible: bool, pid: u32) -> WindowInfo {
    WindowInfo {
        hwnd,
        title: title.to_string(),
        class_name: Some(class.to_string()),
        width: Some(800),
        height: Some(600),
        x: Some(0),
        y: Some(0),
        is_visible: Some(visible),
        process_id: Some(pid),
    }
}

#[test]
fn window_info_eq_by_hwnd() {
    let a = make_window(0x100, "Foo", "FooClass", true, 1);
    let b = make_window(0x100, "Bar", "OtherClass", false, 2);
    assert_eq!(a, b, "WindowInfo equality is keyed on hwnd");
}

#[test]
fn window_info_ne_different_hwnd() {
    let a = make_window(0x100, "Foo", "FooClass", true, 1);
    let b = make_window(0x200, "Foo", "FooClass", true, 1);
    assert_ne!(a, b);
}

#[test]
fn window_filter_builder_compiles() {
    let _f = WindowFilter::new()
        .title_contains("Visual Studio")
        .visible_only(true)
        .min_width(800)
        .min_height(600)
        .process_id(1234);
}

#[test]
fn try_clone_stale_hwnd_returns_err() {
    let w = Window::from_raw(0xDEAD_BEEF_u64);
    let no_such_window = |_hwnd: u64| false;
    assert!(w.try_clone(no_such_window).is_err(), "try_clone on a stale hwnd must return Err");
}

// ─── Further scenarios ───────────────────────────────────────────────────────

#[test]
fn window_hash_follows_hwnd() {
    let mut set = std::collections::HashSet::new();
    set.insert(make_window(1, "a", "A", true, 1));
    set.insert(make_window(1, "b", "B", false, 2));
    set.insert(make_window(2, "a", "A", true, 1));
    assert_eq!(set.len(), 2);
}

#[test]
fn window_text_rendering() {
    let w = make_window(0x1A04, "Visual Studio Code", "Chrome_WidgetWin_1", true, 5678);
    assert_eq!(w.to_string(), "[HWND:0x1A04] \"Visual Studio Code\" (800×600 @ 0,0)  PID=5678");
    let mut bare = make_window(0xff, "t", "c", true, 1);
    bare.width = None;
    bare.process_id = None;
    assert_eq!(bare.to_string(), "[HWND:0xFF] \"t\"");
    let mut neg = make_window(0, "", "c", true, 3);
    neg.x = Some(-8);
    neg.y = None;
    assert_eq!(neg.to_string(), "[HWND:0x0] \"\" (800×600)  PID=3");
    neg.y = Some(-2147483648);
    assert_eq!(neg.to_string(), "[HWND:0x0] \"\" (800×600 @ -8,-2147483648)  PID=3");
}

fn fail(code: u32, message: &str) -> OsFailure {
    OsFailure { code, message: message.to_string() }
}

#[test]
fn window_operations_hand_the_handle_to_the_platform() {
    let w = Window::from_raw(42);
    assert_eq!(w.hwnd(), 42);
    assert!(!w.is_valid(|_| false));
    assert!(w.is_valid(|h| h == 42));
    assert_eq!(w.try_clone(|_| true).unwrap().hwnd(), 42);
    assert_eq!(
        w.try_clone(|_| false).unwrap_err(),
        CrosswinError::invalid_parameter("hwnd", "Window handle is no longer valid")
    );
    assert_eq!(w.clone_if_valid(true).unwrap().hwnd(), 42);
    w.show(|h, cmd| assert_eq!((h, cmd), (42, 5))).unwrap();
    w.hide_window(|h, cmd| assert_eq!((h, cmd), (42, 0))).unwrap();
    assert!(w.bring_to_front(|_| Ok(())).is_ok());
    assert_eq!(
        w.bring_to_front(|_| Err(fail(5, "denied"))).unwrap_err(),
        CrosswinError::win32("BringWindowToTop", 5, "denied")
    );
    w.move_to(1, 2, |h, x, y, cx, cy, flags| {
        assert_eq!((h, x, y, cx, cy, flags), (42, 1, 2, 0, 0, 0x5));
        Ok(())
    })
    .unwrap();
    w.resize(3, 4, |h, x, y, cx, cy, flags| {
        assert_eq!((h, x, y, cx, cy, flags), (42, 0, 0, 3, 4, 0x6));
        Ok(())
    })
    .unwrap();
    assert_eq!(
        w.resize(3, 4, |_, _, _, _, _, _| Err(fail(1400, "Invalid window handle."))).unwrap_err(),
        CrosswinError::win32("SetWindowPos", 1400, "Invalid window handle.")
    );
    let rect = Rect { left: -10, top: 20, right: 790, bottom: 620 };
    assert_eq!(w.position(|_| Ok(rect)).unwrap(), (-10, 20));
    assert_eq!(w.size(|_| Ok(rect)).unwrap(), (800, 600));
    assert_eq!(
        w.size(|_| Err(fail(1400, "gone"))).unwrap_err(),
        CrosswinError::win32("GetWindowRect", 1400, "gone")
    );
}

#[test]
fn set_title_encodes_the_title() {
    let w = Window::from_raw(7);
    w.set_title("Hi", |h, units| {
        assert_eq!((h, units), (7, vec![0x48, 0x69, 0]));
        Ok(())
    })
    .unwrap();
    let rejected = w.set_title("a\0b", |_, _| panic!("an interior zero is never handed over"));
    assert_eq!(
        rejected.unwrap_err(),
        CrosswinError::invalid_parameter("title", "invalid unicode: invalid nul value found at position 1")
    );
    assert_eq!(
        w.set_title("x", |_, _| Err(fail(5, "denied"))).unwrap_err(),
        CrosswinError::win32("SetWindowTextW", 5, "denied")
    );
}

#[test]
fn window_text_is_read_through_the_platform() {
    let text = get_window_text(42, |_| 2, |h, n| {
        assert_eq!((h, n), (42, 3));
        (vec![0x4F, 0x4B, 0], 2)
    });
    assert_eq!(text.unwrap(), "OK");
    assert_eq!(get_window_text(42, |_| 0, |_, _| panic!("nothing to read")).unwrap(), "");
    assert_eq!(get_window_text(42, |_| 3, |_, _| (vec![0, 0, 0, 0], 0)).unwrap(), "");
}

fn list() -> Vec<WindowInfo> {
    let mut small = make_window(3, "Notes", "Notepad", true, 20);
    small.width = Some(300);
    small.height = None;
    let mut hidden = make_window(4, "Hidden Tool", "TOOL", false, 10);
    hidden.is_visible = None;
    vec![
        make_window(1, "Visual Studio Code", "Chrome_WidgetWin_1", true, 10),
        make_window(2, "Untitled - Notepad", "Notepad", true, 20),
        small,
        hidden,
    ]
}

fn hwnds(v: &[WindowInfo]) -> Vec<u64> {
    v.iter().map(|w| w.hwnd).collect()
}

#[test]
fn window_filter_criteria() {
    assert_eq!(hwnds(&WindowFilter::new().apply(list())), vec![1, 2, 3, 4]);
    assert_eq!(hwnds(&WindowFilter::new().title_contains("NOTE").apply(list())), vec![2, 3]);
    assert_eq!(hwnds(&WindowFilter::new().class_name("notepad").apply(list())), vec![2, 3]);
    assert_eq!(hwnds(&WindowFilter::new().class_name("note").apply(list())), Vec::<u64>::new());
    assert_eq!(hwnds(&WindowFilter::new().visible_only(true).apply(list())), vec![1, 2, 3]);
    assert_eq!(hwnds(&WindowFilter::new().visible_only(false).apply(list())), vec![1, 2, 3, 4]);
    assert_eq!(hwnds(&WindowFilter::new().process_id(10).apply(list())), vec![1, 4]);
    assert_eq!(hwnds(&WindowFilter::new().min_width(800).apply(list())), vec![1, 2, 4]);
    assert_eq!(hwnds(&WindowFilter::new().min_height(1).apply(list())), vec![1, 2, 4]);
}

#[test]
fn find_by_class_is_case_insensitive() {
    assert_eq!(windows_by_class(list(), "NOTEPAD").len(), windows_by_class(list(), "notepad").len());
    assert_eq!(hwnds(&windows_by_class(list(), "tool")), vec![4]);
    assert_eq!(hwnds(&windows_by_title(list(), "studio")), vec![1]);
    assert_eq!(hwnds(&windows_by_process(list(), 20)), vec![2, 3]);
}

#[test]
fn geometry_and_text_queries() {
    assert_eq!(edge_extent(10, 110), 100);
    assert_eq!(edge_extent(110, 10), 4294967196);
    assert_eq!(edge_extent(i32::MIN, i32::MAX), i32::MAX as u32);
    let rect = Rect { left: -8, top: 0, right: 1928, bottom: 1040 };
    assert_eq!(size_of_rect(&rect), (1936, 1040));
    let w = window_info_from_parts(9, "T".to_string(), None, &rect, false, 77);
    assert_eq!((w.x, w.y, w.width, w.height), (Some(-8), Some(0), Some(1936), Some(1040)));
    assert_eq!((w.is_visible, w.process_id), (Some(false), Some(77)));
    assert_eq!(title_buffer_len(0), None);
    assert_eq!(title_buffer_len(-1), None);
    assert_eq!(title_buffer_len(5), Some(6));
    let buf: Vec<u16> = "Hello".encode_utf16().chain([0u16, 0]).collect();
    assert_eq!(text_from_buffer(5, &buf), "Hello");
    assert_eq!(text_from_buffer(2, &buf), "He");
    assert_eq!(text_from_buffer(0, &buf), "");
    assert_eq!(class_name_from_buffer(3, &buf), Some("Hel".to_string()));
    assert_eq!(class_name_from_buffer(0, &buf), None);
}

#[test]
fn titles_become_wide_strings() {
    let wide = title_to_wide("Hi\u{1F600}").unwrap();
    assert_eq!(wide, vec![0x48, 0x69, 0xD83D, 0xDE00, 0]);
    assert_eq!(title_to_wide("").unwrap(), vec![0]);
    assert_eq!(title_to_wide("ab\u{0}").unwrap(), vec![0x61, 0x62, 0]);
    assert_eq!(
        title_to_wide("My\u{0}String").unwrap_err(),
        CrosswinError::invalid_parameter("title", "invalid unicode: invalid nul value found at position 2")
    );
}

#[test]
fn lossy_decoding_pairs_surrogates_and_replaces_lone_ones() {
    let units = [0x48, 0xD83D, 0xDE00, 0xD800, 0x41, 0xDC00, 0];
    assert_eq!(text_from_buffer(6, &units), "H\u{1F600}\u{FFFD}A\u{FFFD}");
    assert_eq!(text_from_buffer(2, &units), "H\u{FFFD}");
}
