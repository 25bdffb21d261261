//! The error taxonomy of the bridge.

use vstd::prelude::*;

verus! {

/// A return code of the trace backend, mirroring the constants of the
/// native library's `DltReturnValue`. The single success value is
/// `DLT_RETURN_OK`; every other value signals a distinct failure and is
/// surfaced verbatim, never swallowed.
#[allow(non_camel_case_types)]
#[derive(Clone, Copy, Debug, PartialEq, Eq, Structural)]
pub enum DltReturnValue {
    DLT_RETURN_LOGGING_DISABLED,
    DLT_RETURN_USER_BUFFER_FULL,
    DLT_RETURN_WRONG_PARAMETER,
    DLT_RETURN_BUFFER_FULL,
    DLT_RETURN_PIPE_FULL,
    DLT_RETURN_PIPE_ERROR,
    DLT_RETURN_ERROR,
    DLT_RETURN_OK,
    DLT_RETURN_TRUE,
}

/// An error of the registration sequence.
#[derive(Clone, Copy, Debug, PartialEq, Eq, Structural)]
pub enum InitializeError {
    /// An identity, description or message text holds an embedded NUL
    /// character and cannot become a native string; `nul_position` is
    /// the character position of the first NUL.
    ConversionError { nul_position: usize },
    /// The process-wide log sink was already installed; the sink in
    /// place is left untouched.
    LoggerError,
    /// The backend rejected the application or context registration;
    /// the backend's code is preserved so callers can tell causes
    /// apart.
    DltLibraryError(DltReturnValue),
}

} // verus!
