//! Severities of the logging facade and their image in the backend.
//!
//! The bridge translates the five facade severities into the backend's
//! log-level constants. The least severe facade level maps to the
//! backend level named "verbose", not "trace"; the mapping below keeps
//! that asymmetry on purpose.

use vstd::prelude::*;

verus! {

/// A severity of the logging facade, from most to least severe.
#[derive(Clone, Copy, Debug, PartialEq, Eq, Structural)]
pub enum Severity {
    Error,
    Warn,
    Info,
    Debug,
    Trace,
}

/// A log level of the trace backend, as the bridge uses them.
#[derive(Clone, Copy, Debug, PartialEq, Eq, Structural)]
pub enum BackendLevel {
    Error,
    Warn,
    Info,
    Debug,
    Verbose,
}

/// The backend level that a facade severity translates to.
pub open spec fn backend_level_of(s: Severity) -> BackendLevel {
    match s {
        Severity::Error => BackendLevel::Error,
        Severity::Warn => BackendLevel::Warn,
        Severity::Info => BackendLevel::Info,
        Severity::Debug => BackendLevel::Debug,
        Severity::Trace => BackendLevel::Verbose,
    }
}

/// Maps a facade severity to its backend level.
///
/// The mapping is total (every severity has a case) and stable: the
/// result is pinned to `backend_level_of`, a function of the severity
/// alone, so repeated calls on the same severity agree.
pub fn map_severity(s: Severity) -> (level: BackendLevel)
    ensures
        level == backend_level_of(s),
{
    match s {
        Severity::Error => BackendLevel::Error,
        Severity::Warn => BackendLevel::Warn,
        Severity::Info => BackendLevel::Info,
        Severity::Debug => BackendLevel::Debug,
        Severity::Trace => BackendLevel::Verbose,
    }
}

/// The severity mapping is total and stable: each of the five
/// severities has a backend level, and it is the same fixed constant on
/// every call, since `map_severity` is pinned to `backend_level_of`.
pub proof fn lemma_severity_mapping_total_and_stable()
    ensures
        backend_level_of(Severity::Error) == BackendLevel::Error,
        backend_level_of(Severity::Warn) == BackendLevel::Warn,
        backend_level_of(Severity::Info) == BackendLevel::Info,
        backend_level_of(Severity::Debug) == BackendLevel::Debug,
        backend_level_of(Severity::Trace) == BackendLevel::Verbose,
{
}

} // verus!
