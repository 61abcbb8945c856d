//! Windows process, thread, window and system primitives: the data model,
//! the filters and searches over snapshots, and the decisions that the
//! platform layer takes on what the operating system reports. Where the
//! Win32 platform is absent, the operations that need it report
//! `CrosswinError::InvalidParameter` for the parameter "platform".
pub mod error;
pub mod prelude;
pub mod processes;
pub mod text;
pub mod time;
pub mod windows;

pub use error::{CrosswinError, Result};
