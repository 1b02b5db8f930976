//! The errors of the library.

use vstd::prelude::*;

use crate::conversion::CStrConversionError;
use crate::native::LibraryError;

verus! {

/// What can go wrong when a webview is built or used.
#[derive(Debug, Clone, Copy, PartialEq, Eq, Structural)]
pub enum WebviewError {
    /// A required field (title or content) was not given.
    Build,
    /// Work was submitted after the owning handle was gone.
    DispatchFailed,
    /// The native library reported a failure.
    Library(LibraryError),
    /// A path could not be used as content.
    InvalidPath,
    /// A text could not become a C string.
    InvalidStr(CStrConversionError),
    /// Construction was attempted off the controlling thread.
    InvalidThread,
}

impl From<LibraryError> for WebviewError {
    fn from(error: LibraryError) -> (r: WebviewError)
        ensures
            r == WebviewError::Library(error),
    {
        WebviewError::Library(error)
    }
}

impl vstd::std_specs::convert::FromSpecImpl<LibraryError> for WebviewError {
    open spec fn obeys_from_spec() -> bool {
        true
    }

    open spec fn from_spec(v: LibraryError) -> WebviewError {
        WebviewError::Library(v)
    }
}

impl From<CStrConversionError> for WebviewError {
    fn from(error: CStrConversionError) -> (r: WebviewError)
        ensures
            r == WebviewError::InvalidStr(error),
    {
        WebviewError::InvalidStr(error)
    }
}

impl vstd::std_specs::convert::FromSpecImpl<CStrConversionError> for WebviewError {
    open spec fn obeys_from_spec() -> bool {
        true
    }

    open spec fn from_spec(v: CStrConversionError) -> WebviewError {
        WebviewError::InvalidStr(v)
    }
}

impl WebviewError {
    /// A sentence that says what went wrong.
    pub fn message(&self) -> &'static str {
        match self {
            WebviewError::Build => "failed to build webview due to missing required arguments",
            WebviewError::DispatchFailed => "failed to dispatch callback from thread (main thread handle no longer exists)",
            WebviewError::Library(LibraryError::Init(_)) => "webview C library: failed to initialize webview",
            WebviewError::Library(LibraryError::Eval(_)) => "webview C library: failed to evaluate js/css",
            WebviewError::InvalidPath => "invalid content path",
            WebviewError::InvalidStr(_) => "string conversion error: text holds an interior nul byte",
            WebviewError::InvalidThread => "failed to start webview: attempt to run on a thread other than the controlling one",
        }
    }
}

} // verus!
