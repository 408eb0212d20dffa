//! Verified core of a desktop launcher's UI-facing API: platform detection,
//! asset URLs for local files, the listing of running progress bars, and the
//! command that the operating system handed to the process when it opened it.
//!
//! Everything here works on plain values. Reading the file system, waiting on
//! a lock and talking to the window system are the embedding program's job; it
//! hands what it read to these functions and acts on what they return.

pub mod asset;
pub mod command;
pub mod error;
pub mod platform;
pub mod progress;
pub mod text;

pub use asset::{tauri_convert_file_src, AssetBase};
pub use command::{
    command_emitted, get_opening_command, handle_command, CaptureStrategy, CommandBootstrap,
    PendingCommand, QueryStep,
};
pub use error::{ApiError, PathFailure};
pub use platform::{get_os, should_disable_mouseover, OsVersion, OS};
pub use progress::{progress_bars_list, ProgressSnapshot};
