# crosswin

Windows process, thread, window and system primitives.

- `src/` is the library, written in Verus: the data types (process and
  window records, priorities, access rights, handles, durations, errors),
  the process and window filters with their ordering, the searches over
  snapshots, and the decisions taken on what the Win32 calls report
  (error classification, wait results, priority classes, `FILETIME`
  conversion, UTF-16 text). Every function states its behaviour in a
  contract that Verus proves, as far as the values it handles can be seen:
  a `std::io::Error` or a `SystemTime` is carried opaquely, so what is
  said of it is where it goes, not what it holds. An operation that asks the operating
  system takes each question as a function argument (open a process,
  wait on a handle, set a window's text, …), so its contract states what
  is handed to the platform and what is returned for every answer.
- Handles in the library are plain values. The platform layer closes what
  it opens: `open_process` and `current_process` hand out an
  `OwnedProcess`, which closes its handle when dropped.
- `app/` is the platform layer: the Win32 calls themselves (and, where
  the Win32 platform is absent, the `InvalidParameter("platform", …)`
  answers), the Tokio-based
  async API (`list_processes`, `list_windows`, `list_threads`, the
  searches and `filter.list()`), serde-ready copies of the data types and
  the renderings that use floating point.
- `tests/` exercises the library on concrete values.
