//! A safe front to a native, single-threaded webview event loop.
//!
//! The native library is reached through a fixed table of entry points
//! ([`NativeLibrary`]). This library keeps the text it hands across that
//! boundary nul-terminated, assembles the scripts it evaluates, maps the
//! native status codes to typed errors, tracks the lifecycle of the webview,
//! and decides when work from other threads may still be dispatched to it.

pub mod builder;
pub mod content;
pub mod conversion;
pub mod error;
pub mod eval;
pub mod handle;
pub mod lifecycle;
pub mod native;
pub mod storage;
mod userdata;
mod text;
pub mod webview;

pub use crate::builder::Builder;
pub use crate::content::{into_file_path, into_html, into_url, string_starts_with_any, Content};
pub use crate::conversion::{convert_to_cstring, CStrConversionError};
pub use crate::error::WebviewError;
pub use crate::eval::{Arg, EvalBuffer, StringBuffers};
pub use crate::handle::{Dispatcher, ThreadHandle, WebviewHandle};
pub use crate::lifecycle::{Action, Event, Phase};
pub use crate::native::{Dialog, Flags, LibraryError, LoopResult, NativeLibrary};
pub use crate::storage::StringStorage;
pub use crate::userdata::Userdata;
pub use crate::webview::Webview;
